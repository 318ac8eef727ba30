use crate::buffer::BuffVec;
use crate::orchestrator::{answer_for, CoreAnswer, DirtyCoreMessage, RegistryState};
use crate::routing::{source_of, AudioIO};
use crate::sample::Sample;
use std::sync::Arc;
use vstd::prelude::*;

verus! {

/// Every sample of `s` multiplied by `gain`.
pub open spec fn gained<T: Sample>(s: Seq<T>, gain: T) -> Seq<T> {
    Seq::new(s.len(), |i: int| s[i].scaled(gain))
}

/// What a channel whose input is routed to `input` makes of a frame with
/// channels `chs` at gain `gain`: the selected channel's samples with the gain
/// applied, or nothing when the input is unconnected or names a channel that
/// the frame lacks.
pub open spec fn processed<T: Sample>(input: AudioIO, gain: T, chs: Seq<Seq<T>>) -> Option<Seq<T>> {
    match source_of(input) {
        None => None,
        Some(c) => if c < chs.len() {
            Some(gained(chs[c as int], gain))
        } else {
            None
        },
    }
}

/// Multiplies every sample by `gain`.
pub fn apply_gain<T: Sample>(samples: Vec<T>, gain: T) -> (r: Vec<T>)
    ensures
        r@ == gained(samples@, gain),
{
    let mut out = samples;
    let ghost before = out@;
    let mut i: usize = 0;
    while i < out.len()
        invariant
            out@.len() == before.len(),
            i <= before.len(),
            forall|k: int| 0 <= k < i ==> out@[k] == before[k].scaled(gain),
            forall|k: int| i <= k < before.len() ==> out@[k] == before[k],
        decreases before.len() - i,
    {
        let s = out[i].scale(gain);
        out[i] = s;
        i = i + 1;
    }
    proof {
        assert(out@ =~= gained(before, gain));
    }
    out
}

/// A muting gain yields silence and the unit gain leaves the samples as they
/// are.
pub proof fn lemma_gain_silence_and_unity<T: Sample>(s: Seq<T>)
    ensures
        gained(s, T::silence()) == Seq::new(s.len(), |i: int| T::silence()),
        gained(s, T::unity()) == s,
{
    assert forall|i: int| 0 <= i < s.len() implies s[i].scaled(T::silence()) == T::silence() by {
        T::lemma_scaled_by_silence(s[i]);
    }
    assert forall|i: int| 0 <= i < s.len() implies s[i].scaled(T::unity()) == s[i] by {
        T::lemma_scaled_by_unity(s[i]);
    }
    assert(gained(s, T::silence()) =~= Seq::new(s.len(), |i: int| T::silence()));
    assert(gained(s, T::unity()) =~= s);
}

/// A request to a mixer channel. `S` is the handle of an output sink.
pub enum ChannelMessage<T, S> {
    /// Stop processing after what was queued before.
    Quit,
    GetName,
    SetName(String),
    GetVolume,
    SetVolume(T),
    GetPanning,
    SetPanning(T),
    GetInput,
    SetInput(AudioIO),
    GetOutput,
    SetOutput(AudioIO),
    /// Install a new output sink.
    SetOutputSystem(S),
    /// Declared for a master bus; not implemented.
    RegisterMaster,
    /// A fresh hardware frame to process.
    NewBuffer(Arc<BuffVec<T>>),
}

/// The answer to a get request.
#[derive(Debug, Clone, PartialEq)]
pub enum ChannelReply<T> {
    Name(String),
    Volume(T),
    Panning(T),
    Input(AudioIO),
    Output(AudioIO),
}

/// What the loop that drives a channel does after one message.
#[derive(Debug)]
pub enum ChannelAction<T> {
    /// Leave the receive loop.
    Stop,
    /// Send this answer back to the requester.
    Reply(ChannelReply<T>),
    /// State was changed; nothing to send.
    Updated,
    /// Hand these processed samples to the output sink that the channel holds.
    Forward(Vec<T>),
    /// Nothing to do this cycle.
    Idle,
    /// The request is declared but has no behaviour.
    Unsupported,
}

/// The state of a mixer channel, as contracts see it.
pub struct ChannelState<T, S> {
    pub name: Seq<char>,
    pub volume: T,
    pub panning: T,
    pub input: AudioIO,
    pub output: AudioIO,
    pub output_system: Option<S>,
}

/// The state of a channel after it has handled `msg`. Get requests, frames and
/// the requests without behaviour leave it unchanged.
pub open spec fn next_state<T, S>(v: ChannelState<T, S>, msg: ChannelMessage<T, S>) -> ChannelState<T, S> {
    match msg {
        ChannelMessage::SetName(name) => ChannelState { name: name@, ..v },
        ChannelMessage::SetVolume(volume) => ChannelState { volume, ..v },
        ChannelMessage::SetPanning(panning) => ChannelState { panning, ..v },
        ChannelMessage::SetInput(input) => ChannelState { input, ..v },
        ChannelMessage::SetOutput(output) => ChannelState { output, ..v },
        ChannelMessage::SetOutputSystem(s) => ChannelState { output_system: Some(s), ..v },
        _ => v,
    }
}

/// The request that follows an attempt to deliver a batch to the output sink:
/// none when it was delivered, else a request for the orchestrator's current
/// sink. The batch itself is not kept.
pub open spec fn send_follow_up(delivered: bool) -> Option<DirtyCoreMessage> {
    if delivered {
        None
    } else {
        Some(DirtyCoreMessage::GetOutputSystem)
    }
}

/// A mixer channel: gain, pan, input and output routing, and the output sink
/// that processed audio goes to. `S` is the handle of an output sink.
pub struct Channel<T, S> {
    name: String,
    pub volume: T,
    pub panning: T,
    input: AudioIO,
    output: AudioIO,
    output_system: Option<S>,
}

impl<T, S> View for Channel<T, S> {
    type V = ChannelState<T, S>;

    closed spec fn view(&self) -> ChannelState<T, S> {
        ChannelState {
            name: self.name@,
            volume: self.volume,
            panning: self.panning,
            input: self.input,
            output: self.output,
            output_system: self.output_system,
        }
    }
}

impl<T: Sample, S> Channel<T, S> {
    /// An unnamed channel at unit gain, centred, with no routing and no sink.
    pub fn new() -> (r: Self)
        ensures
            r@ == (ChannelState::<T, S> {
                name: Seq::<char>::empty(),
                volume: T::unity(),
                panning: T::silence(),
                input: AudioIO::Disconnected,
                output: AudioIO::Disconnected,
                output_system: None,
            }),
    {
        Channel {
            name: String::new(),
            volume: T::one(),
            panning: T::zero(),
            input: AudioIO::Disconnected,
            output: AudioIO::Disconnected,
            output_system: None,
        }
    }

    /// Reads the channel that the input routing selects from `data` and
    /// applies the gain; `None` when the input is unconnected or the frame
    /// lacks that channel.
    pub fn process_audio(&self, data: &BuffVec<T>) -> (r: Option<Vec<T>>)
        ensures
            match processed(self@.input, self@.volume, data.channels()) {
                Some(out) => r is Some && r->Some_0@ == out,
                None => r is None,
            },
    {
        match self.input.source_channel() {
            None => None,
            Some(c) => match data.get_buffer(c) {
                Ok(samples) => Some(apply_gain(samples, self.volume)),
                Err(_) => None,
            },
        }
    }

    /// Handles one message: applies a set, answers a get, or processes a frame
    /// into a batch for the output sink.
    pub fn handle_message(&mut self, msg: ChannelMessage<T, S>) -> (r: ChannelAction<T>)
        ensures
            final(self)@ == next_state(old(self)@, msg),
            match msg {
                ChannelMessage::Quit => r is Stop,
                ChannelMessage::GetName => r matches ChannelAction::Reply(ChannelReply::Name(n))
                    && n@ == old(self)@.name,
                ChannelMessage::GetVolume => r == ChannelAction::Reply(
                    ChannelReply::Volume(old(self)@.volume),
                ),
                ChannelMessage::GetPanning => r == ChannelAction::Reply(
                    ChannelReply::Panning(old(self)@.panning),
                ),
                ChannelMessage::GetInput => r == ChannelAction::<T>::Reply(
                    ChannelReply::Input(old(self)@.input),
                ),
                ChannelMessage::GetOutput => r == ChannelAction::<T>::Reply(
                    ChannelReply::Output(old(self)@.output),
                ),
                ChannelMessage::RegisterMaster => r is Unsupported,
                ChannelMessage::NewBuffer(data) => match processed(
                    old(self)@.input,
                    old(self)@.volume,
                    data.channels(),
                ) {
                    Some(out) => if old(self)@.output_system is Some {
                        r is Forward && r->Forward_0@ == out
                    } else {
                        r is Idle
                    },
                    None => r is Idle,
                },
                _ => r is Updated,
            },
    {
        match msg {
            ChannelMessage::Quit => ChannelAction::Stop,
            ChannelMessage::GetName => ChannelAction::Reply(ChannelReply::Name(self.name.clone())),
            ChannelMessage::SetName(name) => {
                self.name = name;
                ChannelAction::Updated
            },
            ChannelMessage::GetVolume => ChannelAction::Reply(ChannelReply::Volume(self.volume)),
            ChannelMessage::SetVolume(volume) => {
                self.volume = volume;
                ChannelAction::Updated
            },
            ChannelMessage::GetPanning => ChannelAction::Reply(ChannelReply::Panning(self.panning)),
            ChannelMessage::SetPanning(panning) => {
                self.panning = panning;
                ChannelAction::Updated
            },
            ChannelMessage::GetInput => ChannelAction::Reply(ChannelReply::Input(self.input)),
            ChannelMessage::SetInput(input) => {
                self.input = input;
                ChannelAction::Updated
            },
            ChannelMessage::GetOutput => ChannelAction::Reply(ChannelReply::Output(self.output)),
            ChannelMessage::SetOutput(output) => {
                self.output = output;
                ChannelAction::Updated
            },
            ChannelMessage::SetOutputSystem(sink) => {
                self.output_system = Some(sink);
                ChannelAction::Updated
            },
            ChannelMessage::RegisterMaster => ChannelAction::Unsupported,
            ChannelMessage::NewBuffer(data) => match self.process_audio(&*data) {
                Some(samples) => if self.output_system.is_some() {
                    ChannelAction::Forward(samples)
                } else {
                    ChannelAction::Idle
                },
                None => ChannelAction::Idle,
            },
        }
    }

    /// The output sink that processed batches go to, if one is installed.
    pub fn output_system(&self) -> (r: Option<&S>)
        ensures
            match r {
                Some(s) => self@.output_system == Some(*s),
                None => self@.output_system is None,
            },
    {
        match &self.output_system {
            Some(s) => Some(s),
            None => None,
        }
    }

    /// What follows an attempt to deliver a batch to the output sink: nothing
    /// when it was delivered, else a request to the orchestrator for its
    /// current sink, whose answer comes back as `SetOutputSystem`.
    pub fn after_send(&self, delivered: bool) -> (r: Option<DirtyCoreMessage>)
        ensures
            r == send_follow_up(delivered),
    {
        if delivered {
            None
        } else {
            Some(DirtyCoreMessage::GetOutputSystem)
        }
    }
}

} // verus!

verus! {

impl<T: Sample, S> Default for Channel<T, S> {
    fn default() -> (r: Self)
        ensures
            r@ == (ChannelState::<T, S> {
                name: Seq::<char>::empty(),
                volume: T::unity(),
                panning: T::silence(),
                input: AudioIO::Disconnected,
                output: AudioIO::Disconnected,
                output_system: None,
            }),
    {
        Self::new()
    }
}

/// A batch that the output sink refuses is dropped, not retried. Processing the
/// frame changed nothing in the channel; the follow-up is a request for the
/// orchestrator's current sink; and once the orchestrator's answer is
/// installed, the channel holds that sink with every other setting as before.
pub proof fn lemma_sink_reconnect<T: Sample, S, C>(
    state: ChannelState<T, S>,
    frame: Arc<BuffVec<T>>,
    registry: RegistryState<C, S>,
)
    ensures
        next_state(state, ChannelMessage::NewBuffer(frame)) == state,
        send_follow_up(false) == Some(DirtyCoreMessage::GetOutputSystem),
        answer_for(registry, DirtyCoreMessage::GetOutputSystem) == CoreAnswer::OutputSystem,
        next_state(
            next_state(state, ChannelMessage::NewBuffer(frame)),
            ChannelMessage::SetOutputSystem(registry.output_system),
        ) == (ChannelState { output_system: Some(registry.output_system), ..state }),
{
}

} // verus!
