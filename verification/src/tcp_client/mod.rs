pub mod my_sb_client;

pub use my_sb_client::TcpEvent;
