//! The checks around audio processing: which channel pairs can be processed, the
//! errors reported for the others, and the samples a batch of events covers.
use vstd::prelude::*;

verus! {

/// How the host lays out one channel of the main port pair.
#[derive(Clone, Copy, Debug, PartialEq, Eq, Structural)]
pub enum ChannelKind {
    /// An input buffer without an output buffer.
    InputOnly,
    /// An output buffer without an input buffer.
    OutputOnly,
    /// One buffer that is both input and output.
    InPlace,
    /// Separate input and output buffers.
    InputOutput,
}

/// How a usable channel is processed.
#[derive(Clone, Copy, Debug, PartialEq, Eq, Structural)]
pub enum ChannelUse {
    /// The buffer is overwritten with its processed samples.
    InPlace,
    /// The processed input samples are written to the output buffer.
    InputToOutput,
}

/// Why processing fails.
#[derive(Clone, Copy, Debug, PartialEq, Eq, Structural)]
pub enum ProcessError {
    NoAudioPorts,
    NoF32Channels,
    NoOutputChannel,
    NoInputChannel,
}

/// The message reported for an error.
pub open spec fn error_message(e: ProcessError) -> Seq<char> {
    match e {
        ProcessError::NoAudioPorts => "No audio ports found"@,
        ProcessError::NoF32Channels => "No f32 channels provided"@,
        ProcessError::NoOutputChannel => "No output channel provided"@,
        ProcessError::NoInputChannel => "No input channel provided"@,
    }
}

impl ProcessError {
    /// The message reported to the host.
    pub fn message(&self) -> (r: &'static str)
        ensures
            r@ == error_message(*self),
    {
        match self {
            ProcessError::NoAudioPorts => "No audio ports found",
            ProcessError::NoF32Channels => "No f32 channels provided",
            ProcessError::NoOutputChannel => "No output channel provided",
            ProcessError::NoInputChannel => "No input channel provided",
        }
    }
}

/// How a channel of the given kind is processed: a channel without an output buffer
/// or without an input buffer cannot be, and fails processing.
pub fn channel_use(kind: ChannelKind) -> (r: Result<ChannelUse, ProcessError>)
    ensures
        r == (match kind {
            ChannelKind::InputOnly => Err(ProcessError::NoOutputChannel),
            ChannelKind::OutputOnly => Err(ProcessError::NoInputChannel),
            ChannelKind::InPlace => Ok(ChannelUse::InPlace),
            ChannelKind::InputOutput => Ok(ChannelUse::InputToOutput),
        }),
{
    match kind {
        ChannelKind::InputOnly => Err(ProcessError::NoOutputChannel),
        ChannelKind::OutputOnly => Err(ProcessError::NoInputChannel),
        ChannelKind::InPlace => Ok(ChannelUse::InPlace),
        ChannelKind::InputOutput => Ok(ChannelUse::InputToOutput),
    }
}

/// The samples a batch covers, from its first sample up to the first sample of the
/// next batch, or up to the end of the block for the last batch.
pub fn batch_samples(first: usize, next_first: Option<usize>, frames: usize) -> (r: (usize, usize))
    ensures
        r.0 == first,
        r.1 == (match next_first {
            Some(n) => n,
            None => frames,
        }),
{
    match next_first {
        Some(n) => (first, n),
        None => (first, frames),
    }
}

} // verus!
