pub mod my_sb_publisher;
pub mod my_sb_publisher_data;
pub mod publish_error;
pub mod publish_process_by_connection;

pub use my_sb_publisher::MySbPublishers;
pub use my_sb_publisher_data::MySbPublisherData;
pub use publish_error::PublishError;
pub use publish_process_by_connection::PublishProcessByConnection;
