use vstd::prelude::*;

verus! {

/// A physical connection on the audio interface.
#[derive(Debug, Clone, Copy, PartialEq, Eq, Structural)]
pub enum PhysicalAudioIO {
    /// One hardware channel, by index.
    Mono(usize),
    /// A left and a right hardware channel, by index.
    Stereo(usize, usize),
}

/// Where a mixer channel takes its signal from or sends it to.
#[derive(Debug, Clone, Copy, PartialEq, Eq, Structural)]
pub enum AudioIO {
    /// Not connected.
    Disconnected,
    /// Connected to the audio interface.
    Hardware(PhysicalAudioIO),
}

/// The hardware channel that an input routing reads. Stereo routing has no
/// merge of its two sides yet: only the left one is read.
pub open spec fn source_of(io: AudioIO) -> Option<usize> {
    match io {
        AudioIO::Disconnected => None,
        AudioIO::Hardware(PhysicalAudioIO::Mono(c)) => Some(c),
        AudioIO::Hardware(PhysicalAudioIO::Stereo(l, _r)) => Some(l),
    }
}

impl AudioIO {
    /// The hardware channel that this routing reads as input, if any.
    pub fn source_channel(&self) -> (r: Option<usize>)
        ensures
            r == source_of(*self),
    {
        match self {
            AudioIO::Disconnected => None,
            AudioIO::Hardware(PhysicalAudioIO::Mono(c)) => Some(*c),
            AudioIO::Hardware(PhysicalAudioIO::Stereo(l, _r)) => Some(*l),
        }
    }
}

} // verus!
