pub mod buf;
pub mod call;
pub mod channel;
pub mod client;
pub mod codec;
pub mod connect;
pub mod env;
pub mod error;
pub mod msg_buffer;
pub mod poll;
pub mod req_handle;
pub mod rpc;
pub mod server;
pub mod util;
