//! A minimal HTTP/1.1 request server core, with a line search and the rules
//! of an echo service beside it.
//!
//! Requests are routed by a literal match of the request line against the
//! registered `"<METHOD> <PATH> HTTP/1.1\r\n"` patterns; responses are written
//! out by hand. Sockets, files and threads are left to the program around
//! this crate: everything here works on plain bytes and values.

pub mod text;
pub mod response;
pub mod route;
pub mod connection;
pub mod server;
pub mod pool;
pub mod handle;
pub mod minigrep;
pub mod echo;

pub use response::{HTTPResponse, HTTPStatus, ResponseModel};
pub use route::{create_pattern, HTTPMethod, RouteTable};
pub use connection::{ConnectionError, ReadEvent, ReadRetry, ReadStep, HTTP_CONTENT_404};
pub use server::{
    accept_step, after_poll, AcceptEvent, AcceptStep, HTTPServer, LoopStep, ShutdownPoll,
    ShutdownWatch,
};
pub use handle::HandleMethod;
pub use pool::{spawn_workers, JobQueue, Message, PoolError, PoolErrorKind, QueueModel};
