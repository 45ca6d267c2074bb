pub mod handler;
pub mod ping;

pub use self::handler::handle_message;
pub use self::handler::MessageType;
pub use self::ping::PING_INTERVAL_SECS;
