use vstd::prelude::*;

verus! {

/// An error type with no values: the error of factories and handlers that
/// cannot fail. Its one variant holds an `Infallible`, so no value of it can
/// be built.
#[derive(Debug)]
pub enum Never {
    Void(core::convert::Infallible),
}

} // verus!
