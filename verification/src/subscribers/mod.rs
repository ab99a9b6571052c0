pub mod messages_delivery;
pub mod my_sb_delivery_pkg;
pub mod my_sb_subscribers;
pub mod my_sb_subscribers_data;
pub mod my_sb_subscribers_loop;
pub mod subscriber;

pub use messages_delivery::{MessagesReader, MessagesReaderIterator};
pub use my_sb_delivery_pkg::MySbDeliveryPackage;
pub use my_sb_subscribers::MySbSubscribers;
pub use my_sb_subscribers_data::MySbSubscribersData;
pub use subscriber::Subscriber;
