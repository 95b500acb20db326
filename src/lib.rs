pub mod bridge;
pub mod builder;
pub mod error;
pub mod state;
pub mod stream;
pub mod types;

pub use bridge::callback_buffer_len;
pub use builder::{AAudioStreamBuilder, StreamConfig};
pub use error::{wrap_result, Error};
pub use state::{Request, StreamState};
pub use stream::{AAudioStream, StreamProperties};
pub use types::{
    AllowedCapturePolicy, CallbackResult, ContentType, Direction, Format, InputPreset,
    PerformanceMode, SharingMode, Timestamp, Usage,
};
