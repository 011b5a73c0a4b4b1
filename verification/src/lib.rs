//! The logic of a logging reverse proxy: what is sent upstream for an inbound
//! request, the tee that mirrors a streamed response body while it passes
//! through, and the log record formed from the mirrored body.

pub mod completion;
pub mod config;
pub mod decode;
pub mod headers;
pub mod method;
pub mod proxy;
pub mod record;
pub mod stream;
pub mod target;
pub mod text;

pub use crate::completion::CompleteHandler;
pub use crate::config::AppState;
pub use crate::proxy::proxy_handler;
pub use crate::stream::{CompletableStream, OnIterationComplete};
