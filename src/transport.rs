//! The outside pieces a connection is wired from: hyper's connection
//! metadata and memsocket's in-memory duplex stream. Both are opaque here:
//! the library creates them and carries them through.
use hyper::client::connect::Connected;
use memsocket::UnboundedSocket;
use vstd::prelude::*;

verus! {

/// hyper's metadata describing an established transport.
#[verifier::external_type_specification]
#[verifier::external_body]
pub struct ExConnected(Connected);

/// One endpoint of memsocket's unbounded in-memory duplex stream.
#[verifier::external_type_specification]
#[verifier::external_body]
pub struct ExUnboundedSocket(UnboundedSocket);

/// Relies on hyper's `Connected::new`: metadata of a plain, unproxied transport.
pub assume_specification[ Connected::new ]() -> Connected;

/// Relies on hyper's `Connected::proxy`: the same metadata, with its proxy
/// flag set to `is_proxied`.
pub assume_specification[ Connected::proxy ](this: Connected, is_proxied: bool) -> Connected;

/// Relies on memsocket's `unbounded`: two freshly linked endpoints, where bytes
/// written to one are read from the other.
pub assume_specification[ memsocket::unbounded ]() -> (UnboundedSocket, UnboundedSocket);

} // verus!
