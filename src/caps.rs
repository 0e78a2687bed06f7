//! Capability negotiation: the text side is fixed; the audio side is known
//! only once the backend is ready, since its sample rate is the backend's.
use vstd::prelude::*;
use crate::session::{BackendSession, ConfigError, ReadyStep, SessionState};

verus! {

/// The side of the stage whose capability is asked for.
#[derive(Clone, Copy, Debug, PartialEq, Eq, Structural)]
pub enum Side {
    /// The input side, which takes text.
    Text,
    /// The output side, which gives audio.
    Audio,
}

/// Text encodings the stage takes.
#[derive(Clone, Copy, Debug, PartialEq, Eq, Structural)]
pub enum TextFormat {
    Utf8,
}

/// Sample formats the stage gives.
#[derive(Clone, Copy, Debug, PartialEq, Eq, Structural)]
pub enum SampleFormat {
    /// 32-bit floats, little-endian.
    F32Le,
}

/// The audio capability: sample format, channel count and sample rate.
#[derive(Clone, Copy, Debug, PartialEq, Eq, Structural)]
pub struct AudioCaps {
    pub format: SampleFormat,
    pub channels: u32,
    pub rate: u64,
}

/// The capability of one side.
#[derive(Clone, Copy, Debug, PartialEq, Eq, Structural)]
pub enum Capability {
    Text(TextFormat),
    Audio(AudioCaps),
}

/// The answer to a negotiation request.
#[derive(Clone, Copy, Debug, PartialEq, Eq, Structural)]
pub enum Negotiation {
    /// The capability of the side asked for, before any filter is applied.
    Offer(Capability),
    /// The backend must be constructed first: construct it, report the
    /// outcome to the session, and ask again.
    Construct,
    /// Another caller is constructing the backend: wait, and ask again.
    Wait,
    /// The backend cannot become ready: no capability can be given.
    Fail(ConfigError),
}

/// The fixed text capability.
pub open spec fn text_caps() -> Capability {
    Capability::Text(TextFormat::Utf8)
}

/// Mono 32-bit float audio at the given rate.
pub open spec fn audio_caps(rate: u64) -> Capability {
    Capability::Audio(AudioCaps { format: SampleFormat::F32Le, channels: 1, rate })
}

/// The fixed text capability.
pub fn text_capability() -> (r: Capability)
    ensures
        r == text_caps(),
{
    Capability::Text(TextFormat::Utf8)
}

/// Mono 32-bit float audio at the given rate.
pub fn audio_capability(rate: u64) -> (r: Capability)
    ensures
        r == audio_caps(rate),
{
    Capability::Audio(AudioCaps { format: SampleFormat::F32Le, channels: 1, rate })
}

/// Answers a negotiation request for one side. The text side is answered
/// without the session. The audio side asks the session for readiness,
/// which may start the backend's construction, and, once it is ready,
/// offers audio at the backend's output rate.
pub fn negotiate(side: Side, session: &mut BackendSession) -> (r: Negotiation)
    ensures
        side is Text ==> r == Negotiation::Offer(text_caps()) && *final(session) == *old(session),
        side is Audio ==> match old(session).spec_state() {
            SessionState::Uninitialized => r is Construct && final(session).spec_state()
                is Initializing,
            SessionState::Initializing => r is Wait && final(session).spec_state()
                is Initializing,
            SessionState::Ready(info) => r == Negotiation::Offer(
                audio_caps(info.output_sample_rate),
            ) && final(session).spec_state() == old(session).spec_state(),
            SessionState::Failed(e) => r == Negotiation::Fail(e) && final(session).spec_state()
                == old(session).spec_state(),
        },
{
    match side {
        Side::Text => Negotiation::Offer(text_capability()),
        Side::Audio => match session.ensure_ready() {
            ReadyStep::Construct => Negotiation::Construct,
            ReadyStep::Wait => Negotiation::Wait,
            ReadyStep::Ready(info) => Negotiation::Offer(audio_capability(info.output_sample_rate)),
            ReadyStep::Failed(e) => Negotiation::Fail(e),
        },
    }
}

} // verus!
