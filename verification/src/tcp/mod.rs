pub mod new_connection_handler;
pub mod ping_loop;
pub mod processes;
pub mod read_loop;
pub mod socket_ctx;
pub mod socket_ctx_data;

pub use socket_ctx::SocketConnection;
pub use socket_ctx_data::SocketContextData;
