//! The transform engine: one queued text unit in, at most one audio unit
//! out. Backend failures while synthesising one unit drop that unit; a
//! configuration error and a malformed unit are surfaced to the host.
use vstd::prelude::*;
use vstd::utf8::{decode_utf8, valid_utf8};
use crate::audio::{encode_samples, encoded};
use crate::config::{opt_view, Settings, SettingsModel};
use crate::session::{
    lemma_terminal_is_final, request, run, BackendInfo, BackendSession, ConfigError, ReadyStep,
    SessionEvent, SessionState,
};
use crate::text::{lemma_valid_utf8_has_no_ff, utf8_to_string};

verus! {

/// An error surfaced to the host for one call.
#[derive(Clone, Copy, Debug, PartialEq, Eq, Structural)]
pub enum FlowError {
    /// The unit's payload is not well-formed UTF-8.
    InvalidEncoding,
    /// The backend cannot become ready with this configuration.
    Configuration(ConfigError),
    /// The output buffer could not be allocated or filled.
    Io,
}

/// The outcome of one call.
#[derive(Clone, Debug)]
pub enum TransformResult {
    /// Nothing to emit: no unit was queued, or synthesis of it failed.
    NoOutput,
    /// The payload of the audio unit to emit.
    Output(Vec<u8>),
    Error(FlowError),
}

/// What the backend is asked to synthesise: the text, and those of the
/// speaker, language and voice reference that are configured. Those that
/// are not are not passed, and the backend's defaults apply.
#[derive(Clone, Debug)]
pub struct SynthesisRequest {
    pub text: String,
    pub speaker: Option<String>,
    pub language: Option<String>,
    pub speaker_wav: Option<String>,
}

/// What the caller of `next_step` is to do.
#[derive(Clone, Debug)]
pub enum Step {
    /// The call is over, with this result.
    Done(TransformResult),
    /// Construct the backend, report the outcome to the session, and call
    /// again with the same unit.
    Construct,
    /// Another caller is constructing the backend: wait, and call again
    /// with the same unit.
    Wait,
    /// Have the backend synthesise this, and hand what it returned to
    /// `complete`.
    Synthesize(SynthesisRequest),
}

/// The request for a text under a configuration.
pub open spec fn request_matches(r: SynthesisRequest, text: Seq<char>, cfg: SettingsModel) -> bool {
    &&& r.text@ == text
    &&& opt_view(r.speaker) == cfg.speaker
    &&& opt_view(r.language) == cfg.language
    &&& opt_view(r.speaker_wav) == cfg.voice_cloning_input_file
}

/// Builds the synthesis request for a text from the current configuration.
pub fn synthesis_request(text: String, settings: &Settings) -> (r: SynthesisRequest)
    ensures
        request_matches(r, text@, settings@),
{
    SynthesisRequest {
        text,
        speaker: settings.speaker.clone(),
        language: settings.language.clone(),
        speaker_wav: settings.voice_cloning_input_file.clone(),
    }
}

/// Decides the next step for the queued unit, if any. With no unit there
/// is nothing to do, and the session is not touched; nor is it for a unit
/// that is not UTF-8. Otherwise the session is asked for readiness, and a
/// ready backend is asked to synthesise the text under the current
/// configuration.
pub fn next_step(input: Option<&[u8]>, session: &mut BackendSession, settings: &Settings) -> (r:
    Step)
    ensures
        match input {
            None => (r matches Step::Done(res) && res is NoOutput) && *final(session)
                == *old(session),
            Some(b) => if !valid_utf8(b@) {
                (r matches Step::Done(res) && res == TransformResult::Error(
                    FlowError::InvalidEncoding,
                )) && *final(session) == *old(session)
            } else {
                match old(session).spec_state() {
                    SessionState::Uninitialized => r is Construct && final(session).spec_state()
                        is Initializing,
                    SessionState::Initializing => r is Wait && final(session).spec_state()
                        is Initializing,
                    SessionState::Ready(_) => (r matches Step::Synthesize(q) && request_matches(
                        q,
                        decode_utf8(b@),
                        settings@,
                    )) && final(session).spec_state() == old(session).spec_state(),
                    SessionState::Failed(e) => (r matches Step::Done(res) && res
                        == TransformResult::Error(FlowError::Configuration(e)))
                        && final(session).spec_state() == old(session).spec_state(),
                }
            },
        },
        input matches Some(b) && b@.contains(0xFFu8) ==> (r matches Step::Done(res) && res
            == TransformResult::Error(FlowError::InvalidEncoding)),
{
    let bytes = match input {
        None => {
            return Step::Done(TransformResult::NoOutput);
        },
        Some(b) => b,
    };
    proof {
        if valid_utf8(bytes@) {
            lemma_valid_utf8_has_no_ff(bytes@);
        }
    }
    let text = match utf8_to_string(bytes) {
        None => {
            return Step::Done(TransformResult::Error(FlowError::InvalidEncoding));
        },
        Some(t) => t,
    };
    match session.ensure_ready() {
        ReadyStep::Construct => Step::Construct,
        ReadyStep::Wait => Step::Wait,
        ReadyStep::Failed(e) => Step::Done(TransformResult::Error(FlowError::Configuration(e))),
        ReadyStep::Ready(_) => Step::Synthesize(synthesis_request(text, settings)),
    }
}

/// Turns what the backend returned for one unit into the call's result:
/// the samples' bit patterns, encoded as little-endian 32-bit words, or
/// nothing when synthesis failed. A failure is absorbed here and reaches
/// neither the host nor the session.
pub fn complete(outcome: Option<Vec<u32>>) -> (r: TransformResult)
    ensures
        outcome is None ==> r is NoOutput,
        outcome matches Some(s) ==> r matches TransformResult::Output(b) && b@ == encoded(s@),
{
    match outcome {
        None => TransformResult::NoOutput,
        Some(samples) => TransformResult::Output(encode_samples(samples.as_slice())),
    }
}

/// A unit whose synthesis failed leaves the session as it was: what the
/// backend returned goes to `complete` alone. A session that was ready
/// stays ready whatever else happens meanwhile, so the next unit is
/// synthesised again.
pub proof fn lemma_failure_does_not_poison(info: BackendInfo, meanwhile: Seq<SessionEvent>)
    ensures
        run(SessionState::Ready(info), meanwhile) == SessionState::Ready(info),
        request(run(SessionState::Ready(info), meanwhile)).1 == ReadyStep::Ready(info),
{
    lemma_terminal_is_final(SessionState::Ready(info), meanwhile);
}

} // verus!
