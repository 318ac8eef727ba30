use crate::error::AudioError;
use vstd::prelude::*;

verus! {

/// The sample rate that every stream is configured to.
pub const SAMPLE_RATE: u32 = 48000;

/// The fixed buffer size, in frames, that bounds the latency of each callback.
pub const BUFFER_SIZE: u32 = 16;

/// A request on the orchestrator's message bus.
#[derive(Debug, Clone, Copy, PartialEq, Eq, Structural)]
pub enum DirtyCoreMessage {
    /// The current output sink.
    GetOutputSystem,
    /// The mailbox of a channel, by index.
    GetChannel(usize),
    /// Declared for adding channels at run time; not implemented.
    NewChannel,
    /// A new hardware frame is available.
    NewBuffer,
}

/// How the orchestrator answers a request on its bus.
#[derive(Debug, Clone, Copy, PartialEq, Eq, Structural)]
pub enum CoreAnswer {
    /// Reply with the current output sink.
    OutputSystem,
    /// Reply with the mailbox of the channel at this index.
    Channel(usize),
    /// Reply with this failure.
    Failed(AudioError),
    /// The request is declared but has no behaviour.
    Unsupported,
    /// Hand the new frame to every registered channel.
    NotifyChannels,
}

/// The signal from the front end that ends `run`.
#[derive(Debug, Clone, Copy, PartialEq, Eq, Structural)]
pub enum UIMessage {
    Quit,
}

/// How many frames a hardware buffer holds.
#[derive(Debug, Clone, Copy, PartialEq, Eq, Structural)]
pub enum BufferSize {
    /// Whatever the device chooses.
    DeviceChosen,
    /// Exactly this many frames.
    Fixed(u32),
}

/// The parameters of one hardware stream.
#[derive(Debug, Clone, Copy, PartialEq, Eq, Structural)]
pub struct StreamSettings {
    pub channels: u16,
    pub sample_rate: u32,
    pub buffer_size: BufferSize,
}

/// The device's proposed settings with the core's fixed sample rate and
/// buffer size; the channel count is the device's.
pub fn fix_stream_settings(proposed: StreamSettings) -> (r: StreamSettings)
    ensures
        r == (StreamSettings {
            channels: proposed.channels,
            sample_rate: SAMPLE_RATE,
            buffer_size: BufferSize::Fixed(BUFFER_SIZE),
        }),
{
    StreamSettings {
        channels: proposed.channels,
        sample_rate: SAMPLE_RATE,
        buffer_size: BufferSize::Fixed(BUFFER_SIZE),
    }
}

/// The orchestrator's registry, as contracts see it.
pub struct RegistryState<C, S> {
    pub channels: Seq<C>,
    pub output_system: S,
}

/// The answer that a registry in state `v` gives to `msg`.
pub open spec fn answer_for<C, S>(v: RegistryState<C, S>, msg: DirtyCoreMessage) -> CoreAnswer {
    match msg {
        DirtyCoreMessage::GetOutputSystem => CoreAnswer::OutputSystem,
        DirtyCoreMessage::GetChannel(index) => if index < v.channels.len() {
            CoreAnswer::Channel(index)
        } else {
            CoreAnswer::Failed(AudioError::OutOfBounds)
        },
        DirtyCoreMessage::NewChannel => CoreAnswer::Unsupported,
        DirtyCoreMessage::NewBuffer => CoreAnswer::NotifyChannels,
    }
}

/// The channels' mailboxes, by index, and the current output sink. `C` is the
/// handle of a channel's mailbox and `S` that of an output sink.
pub struct Registry<C, S> {
    channels: Vec<C>,
    output_system: S,
}

impl<C, S> View for Registry<C, S> {
    type V = RegistryState<C, S>;

    closed spec fn view(&self) -> RegistryState<C, S> {
        RegistryState { channels: self.channels@, output_system: self.output_system }
    }
}

impl<C, S> Registry<C, S> {
    pub fn new(channels: Vec<C>, output_system: S) -> (r: Self)
        ensures
            r@ == (RegistryState { channels: channels@, output_system }),
    {
        Registry { channels, output_system }
    }

    /// Decides how a bus request is answered.
    pub fn answer(&self, msg: DirtyCoreMessage) -> (r: CoreAnswer)
        ensures
            r == answer_for(self@, msg),
    {
        match msg {
            DirtyCoreMessage::GetOutputSystem => CoreAnswer::OutputSystem,
            DirtyCoreMessage::GetChannel(index) => if index < self.channels.len() {
                CoreAnswer::Channel(index)
            } else {
                CoreAnswer::Failed(AudioError::OutOfBounds)
            },
            DirtyCoreMessage::NewChannel => CoreAnswer::Unsupported,
            DirtyCoreMessage::NewBuffer => CoreAnswer::NotifyChannels,
        }
    }

    /// The mailbox of channel `index`; `OutOfBounds` past the registered range.
    pub fn get_channel(&self, index: usize) -> (r: Result<&C, AudioError>)
        ensures
            index < self@.channels.len() ==> (r matches Ok(c) && *c == self@.channels[index as int]),
            index >= self@.channels.len() ==> (r matches Err(e) && e == AudioError::OutOfBounds),
    {
        if index < self.channels.len() {
            Ok(&self.channels[index])
        } else {
            Err(AudioError::OutOfBounds)
        }
    }

    /// The current output sink.
    pub fn output_system(&self) -> (r: &S)
        ensures
            *r == self@.output_system,
    {
        &self.output_system
    }

    /// Replaces the output sink, as when the output stream is rebuilt.
    pub fn set_output_system(&mut self, sink: S)
        ensures
            final(self)@ == (RegistryState { output_system: sink, ..old(self)@ }),
    {
        self.output_system = sink;
    }

    /// The number of registered channels.
    pub fn channel_count(&self) -> (r: usize)
        ensures
            r == self@.channels.len(),
    {
        self.channels.len()
    }
}

} // verus!
