//! Building blocks for HTTP clients whose requests are answered in-process by
//! a handler, over an in-memory duplex stream instead of a network socket.

mod connector;
mod never;
mod transport;

pub use connector::{
    ConnectPoll, Connector, ConnectorConnectFuture, FactoryPoll, Phase, Wiring,
};
pub use never::Never;
