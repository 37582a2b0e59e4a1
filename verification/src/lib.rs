//! Request/reply sockets: the decision logic of the client driver, the
//! per-connection server driver and the server's multiplexing driver, written
//! as state machines over plain events.

pub mod addr;
pub mod auth;
pub mod error;
pub mod handle;
pub mod message;
pub mod payload;
pub mod rep;
pub mod req;
pub mod request_id;
pub mod stats;

pub use crate::auth::Authenticator;
pub use crate::req::socket::ReqSocket;
pub use crate::request_id::RequestId;
