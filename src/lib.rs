//! A multi-channel audio routing and mixing core: per-channel sample buffers,
//! interleaving of hardware frames, mixer channels driven by messages, and the
//! decisions of the stream managers and the orchestrator that connects them.

pub mod buffer;
pub mod channel;
pub mod error;
pub mod orchestrator;
pub mod routing;
pub mod sample;
pub mod streams;

pub use buffer::{BuffVec, Buffer};
pub use channel::{Channel, ChannelAction, ChannelMessage, ChannelReply};
pub use error::AudioError;
pub use routing::{AudioIO, PhysicalAudioIO};
pub use sample::Sample;
