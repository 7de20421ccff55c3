pub mod activity;
pub mod buffer;
pub mod download;
pub mod error;
pub mod session;
pub mod station;
pub mod stream;
pub mod volume;

pub use buffer::ByteQueue;
pub use error::Error;
pub use station::RadioStation;
pub use stream::AudioStream;
