use crate::buffer::{BuffVec, Buffer};
use crate::channel::{apply_gain, gained};
use crate::error::AudioError;
use crate::sample::Sample;
use vstd::prelude::*;

verus! {

/// A lifecycle request to the input stream manager. `D` identifies a source:
/// a device and the settings to open it with.
pub enum InputSystemMessage<D> {
    NewInputSource(D),
    Quit,
}

/// What the loop that drives the input stream manager does next.
pub enum StreamCommand<D> {
    /// Try to open a stream on this source and report the outcome.
    Open(D),
    /// A stream is already open; the request is set aside.
    KeepCurrent,
    /// Leave the receive loop; an open stream is left to the caller.
    Stop,
}

/// The input stream manager: at most one open hardware stream, of handle type
/// `H`.
pub struct InputSystem<H> {
    stream: Option<H>,
}

impl<H> InputSystem<H> {
    /// The open stream, if any.
    pub closed spec fn stream_view(&self) -> Option<H> {
        self.stream
    }

    /// A manager with no stream.
    pub fn new() -> (r: Self)
        ensures
            r.stream_view() is None,
    {
        InputSystem { stream: None }
    }

    /// Decides what a lifecycle request leads to: a new source is opened only
    /// while no stream is open.
    pub fn handle_message<D>(&self, msg: InputSystemMessage<D>) -> (r: StreamCommand<D>)
        ensures
            match msg {
                InputSystemMessage::Quit => r is Stop,
                InputSystemMessage::NewInputSource(source) => if self.stream_view() is None {
                    r == StreamCommand::Open(source)
                } else {
                    r is KeepCurrent
                },
            },
    {
        match msg {
            InputSystemMessage::Quit => StreamCommand::Stop,
            InputSystemMessage::NewInputSource(source) => if self.stream.is_none() {
                StreamCommand::Open(source)
            } else {
                StreamCommand::KeepCurrent
            },
        }
    }

    /// Records the outcome of opening a stream: a stream that opened is held;
    /// after a failure the manager stays as it was.
    pub fn stream_opened<E>(&mut self, opened: Result<H, E>)
        ensures
            match opened {
                Ok(h) => final(self).stream_view() == Some(h),
                Err(_) => final(self).stream_view() == old(self).stream_view(),
            },
    {
        match opened {
            Ok(h) => {
                self.stream = Some(h);
            },
            Err(_) => {},
        }
    }

    /// The open stream, if any.
    pub fn get_input_stream(&self) -> (r: Option<&H>)
        ensures
            match r {
                Some(h) => self.stream_view() == Some(*h),
                None => self.stream_view() is None,
            },
    {
        match &self.stream {
            Some(h) => Some(h),
            None => None,
        }
    }
}

/// A request to the output stream manager.
pub enum OutputSystemMessage<T> {
    /// Lifecycle hook for a new input; no state changes.
    NewInput,
    /// Mix these samples into the outgoing buffer.
    Overdub(Vec<T>),
    Quit,
}

/// What the loop that drives the output stream manager does next.
#[derive(Debug, Clone, Copy, PartialEq, Eq, Structural)]
pub enum OutputAction {
    Continue,
    /// The request was refused and nothing changed.
    Rejected(AudioError),
    Stop,
}

/// The output stream manager: the buffer that channels mix into.
pub struct OutputSystem<T> {
    mix: Buffer<T>,
}

impl<T> OutputSystem<T> {
    /// The outgoing samples.
    pub closed spec fn mix_view(&self) -> Seq<T> {
        self.mix@
    }
}

impl<T: Sample> OutputSystem<T> {
    /// A manager whose outgoing buffer holds `buffer_size` silent samples.
    pub fn new(buffer_size: usize) -> (r: Self)
        ensures
            r.mix_view() == Seq::new(buffer_size as nat, |i: int| T::silence()),
    {
        OutputSystem { mix: Buffer::new(buffer_size) }
    }

    /// Handles one request; an overdub of the wrong length is refused.
    pub fn handle_message(&mut self, msg: OutputSystemMessage<T>) -> (r: OutputAction)
        ensures
            match msg {
                OutputSystemMessage::NewInput => r == OutputAction::Continue
                    && final(self).mix_view() == old(self).mix_view(),
                OutputSystemMessage::Quit => r == OutputAction::Stop && final(self).mix_view()
                    == old(self).mix_view(),
                OutputSystemMessage::Overdub(samples) => if samples@.len() == old(
                    self,
                ).mix_view().len() {
                    r == OutputAction::Continue && final(self).mix_view() == Seq::new(
                        old(self).mix_view().len(),
                        |i: int| old(self).mix_view()[i].mixed(samples@[i]),
                    )
                } else {
                    r == OutputAction::Rejected(AudioError::MismatchedBufferSize)
                        && final(self).mix_view() == old(self).mix_view()
                },
            },
    {
        match msg {
            OutputSystemMessage::NewInput => OutputAction::Continue,
            OutputSystemMessage::Quit => OutputAction::Stop,
            OutputSystemMessage::Overdub(samples) => match self.mix.overdub(samples) {
                Ok(()) => OutputAction::Continue,
                Err(e) => OutputAction::Rejected(e),
            },
        }
    }

    /// A copy of the outgoing samples.
    pub fn read_mix(&self) -> (r: Vec<T>)
        ensures
            r@ == self.mix_view(),
    {
        self.mix.read()
    }
}

/// Fills a hardware output buffer of `out_len` samples: the rest of `frame`'s
/// channel-major walk, multiplied by `gain`, cut to `out_len`. `None` when the
/// walk holds fewer than `out_len` samples.
pub fn render_output<T: Sample>(frame: &mut BuffVec<T>, gain: T, out_len: usize) -> (r: Option<Vec<T>>)
    requires
        old(frame).wf(),
    ensures
        out_len <= old(frame).remaining().len() ==> r is Some && r->Some_0@ == gained(
            old(frame).remaining().take(out_len as int),
            gain,
        ),
        out_len > old(frame).remaining().len() ==> r is None,
        final(frame).wf(),
        final(frame).channels() == old(frame).channels(),
        final(frame).remaining().len() == 0,
{
    let walk = frame.interlace();
    if walk.len() < out_len {
        return None;
    }
    let mut out = apply_gain(walk, gain);
    out.truncate(out_len);
    proof {
        assert(out@ =~= gained(old(frame).remaining().take(out_len as int), gain));
    }
    Some(out)
}

} // verus!
