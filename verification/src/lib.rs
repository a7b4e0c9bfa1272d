pub mod text;
pub mod sse;
pub mod config;
pub mod error;
pub mod protocol;
pub mod proxy;
pub mod json;
pub mod audit;
pub mod stream;
pub mod flow;
pub mod webui;
