//! Backend session: the one-time construction of the synthesis backend and
//! the validation of the configuration against what the backend reports.
//!
//! The session decides; its owner performs. Asked to get ready, the session
//! says whether the caller must construct the backend, must wait for another
//! caller that constructs it, or may go on with the outcome that is known.
//! The owner holds the session under a lock, constructs the backend outside
//! that lock when told to, and reports back what the backend reported.
use vstd::prelude::*;
use crate::config::{Settings, SettingsModel};

verus! {

/// What a constructed backend reports about itself.
#[derive(Clone, Copy, Debug, PartialEq, Eq, Structural)]
pub struct BackendInfo {
    pub multi_lingual: bool,
    pub multi_speaker: bool,
    pub output_sample_rate: u64,
}

/// A fatal configuration error: the session cannot become ready, now or
/// later.
#[derive(Clone, Copy, Debug, PartialEq, Eq, Structural)]
pub enum ConfigError {
    /// The model is multi-lingual and no language is configured.
    MissingLanguage,
    /// The model is multi-speaker and no speaker is configured.
    MissingSpeaker,
    /// The backend could not be constructed.
    BackendUnavailable,
}

/// The lifecycle of a session. `Ready` and `Failed` are terminal.
#[derive(Clone, Copy, Debug, PartialEq, Eq, Structural)]
pub enum SessionState {
    Uninitialized,
    Initializing,
    Ready(BackendInfo),
    Failed(ConfigError),
}

/// What a caller asking for readiness is told to do.
#[derive(Clone, Copy, Debug, PartialEq, Eq, Structural)]
pub enum ReadyStep {
    /// Construct the backend, then report the outcome.
    Construct,
    /// Another caller is constructing it: block until it reports, then ask
    /// again.
    Wait,
    /// The backend is ready.
    Ready(BackendInfo),
    /// The session has failed for good.
    Failed(ConfigError),
}

/// Something that happens to a session: a caller asks for readiness, or
/// the caller that was told to construct the backend reports the outcome
/// (`None` when construction failed), with the configuration it read.
pub enum SessionEvent {
    Request,
    Constructed(Option<BackendInfo>, SettingsModel),
}

pub open spec fn is_terminal(s: SessionState) -> bool {
    s is Ready || s is Failed
}

/// The error that a configuration has against a backend, if any. The
/// language is checked before the speaker.
pub open spec fn config_error(cfg: SettingsModel, info: BackendInfo) -> Option<ConfigError> {
    if info.multi_lingual && cfg.language is None {
        Some(ConfigError::MissingLanguage)
    } else if info.multi_speaker && cfg.speaker is None {
        Some(ConfigError::MissingSpeaker)
    } else {
        None
    }
}

/// The state a construction ends in.
pub open spec fn constructed_state(outcome: Option<BackendInfo>, cfg: SettingsModel) -> SessionState {
    match outcome {
        None => SessionState::Failed(ConfigError::BackendUnavailable),
        Some(info) => match config_error(cfg, info) {
            Some(e) => SessionState::Failed(e),
            None => SessionState::Ready(info),
        },
    }
}

/// A request for readiness: the next state and what the caller is told.
pub open spec fn request(s: SessionState) -> (SessionState, ReadyStep) {
    match s {
        SessionState::Uninitialized => (SessionState::Initializing, ReadyStep::Construct),
        SessionState::Initializing => (SessionState::Initializing, ReadyStep::Wait),
        SessionState::Ready(info) => (s, ReadyStep::Ready(info)),
        SessionState::Failed(e) => (s, ReadyStep::Failed(e)),
    }
}

/// The state after one event. An outcome reported to a session that is not
/// initializing changes nothing.
pub open spec fn apply(s: SessionState, e: SessionEvent) -> SessionState {
    match e {
        SessionEvent::Request => request(s).0,
        SessionEvent::Constructed(outcome, cfg) => if s is Initializing {
            constructed_state(outcome, cfg)
        } else {
            s
        },
    }
}

/// The state after a sequence of events, in order.
pub open spec fn run(s: SessionState, events: Seq<SessionEvent>) -> SessionState
    decreases events.len(),
{
    if events.len() == 0 {
        s
    } else {
        apply(run(s, events.drop_last()), events.last())
    }
}

/// How many callers a sequence of events tells to construct the backend.
pub open spec fn constructions(s: SessionState, events: Seq<SessionEvent>) -> nat
    decreases events.len(),
{
    if events.len() == 0 {
        0
    } else {
        let before = run(s, events.drop_last());
        constructions(s, events.drop_last()) + if events.last() is Request
            && request(before).1 is Construct {
            1nat
        } else {
            0nat
        }
    }
}

/// Once a session has left `Uninitialized` it never returns there.
pub proof fn lemma_never_uninitialized_again(s: SessionState, events: Seq<SessionEvent>)
    requires
        !(s is Uninitialized),
    ensures
        !(run(s, events) is Uninitialized),
    decreases events.len(),
{
    if events.len() > 0 {
        lemma_never_uninitialized_again(s, events.drop_last());
    }
}

/// However callers interleave, at most one of them is told to construct the
/// backend, and none is once the session has left `Uninitialized`.
pub proof fn lemma_at_most_one_construction(s: SessionState, events: Seq<SessionEvent>)
    ensures
        constructions(s, events) <= 1,
        !(s is Uninitialized) ==> constructions(s, events) == 0,
        constructions(s, events) == 1 ==> !(run(s, events) is Uninitialized),
    decreases events.len(),
{
    if events.len() > 0 {
        let front = events.drop_last();
        lemma_at_most_one_construction(s, front);
        if !(s is Uninitialized) {
            lemma_never_uninitialized_again(s, front);
        }
    }
}

/// A terminal state stays as it is whatever happens next: every later
/// request is answered with the same outcome.
pub proof fn lemma_terminal_is_final(s: SessionState, events: Seq<SessionEvent>)
    requires
        is_terminal(s),
    ensures
        run(s, events) == s,
        request(run(s, events)).0 == s,
    decreases events.len(),
{
    if events.len() > 0 {
        lemma_terminal_is_final(s, events.drop_last());
    }
}

/// Two callers asking an uninitialised session: the first is told to
/// construct, the second to wait, and no third call is asked to construct.
/// Once the outcome is reported, both observe the same final state, and
/// go on observing it.
pub proof fn lemma_concurrent_requests(
    outcome: Option<BackendInfo>,
    cfg: SettingsModel,
    later: Seq<SessionEvent>,
)
    ensures
        request(SessionState::Uninitialized).1 is Construct,
        request(request(SessionState::Uninitialized).0).1 is Wait,
        ({
            let events = seq![
                SessionEvent::Request,
                SessionEvent::Request,
                SessionEvent::Constructed(outcome, cfg),
            ] + later;
            &&& constructions(SessionState::Uninitialized, events) == 1
            &&& run(SessionState::Uninitialized, events) == constructed_state(outcome, cfg)
        }),
{
    let first = seq![
        SessionEvent::Request,
        SessionEvent::Request,
        SessionEvent::Constructed(outcome, cfg),
    ];
    let events = first + later;
    let done = constructed_state(outcome, cfg);
    let one = seq![SessionEvent::Request];
    let two = seq![SessionEvent::Request, SessionEvent::Request];
    assert(one.drop_last() =~= Seq::<SessionEvent>::empty());
    assert(two.drop_last() =~= one);
    assert(first.drop_last() =~= two);
    assert(run(SessionState::Uninitialized, one.drop_last()) == SessionState::Uninitialized);
    assert(constructions(SessionState::Uninitialized, one.drop_last()) == 0);
    assert(one.last() is Request && two.last() is Request);
    assert(first.last() == SessionEvent::Constructed(outcome, cfg));
    assert(run(SessionState::Uninitialized, one) == SessionState::Initializing);
    assert(constructions(SessionState::Uninitialized, one) == 1);
    assert(run(SessionState::Uninitialized, two) == SessionState::Initializing);
    assert(constructions(SessionState::Uninitialized, two) == 1);
    assert(run(SessionState::Uninitialized, first) == done);
    assert(constructions(SessionState::Uninitialized, first) == 1);
    lemma_run_append(SessionState::Uninitialized, first, later);
    lemma_terminal_is_final(done, later);
    lemma_at_most_one_construction(done, later);
}

/// Running two sequences of events one after the other.
pub proof fn lemma_run_append(s: SessionState, a: Seq<SessionEvent>, b: Seq<SessionEvent>)
    ensures
        run(s, a + b) == run(run(s, a), b),
        constructions(s, a + b) == constructions(s, a) + constructions(run(s, a), b),
    decreases b.len(),
{
    if b.len() == 0 {
        assert(a + b =~= a);
    } else {
        assert((a + b).drop_last() =~= a + b.drop_last());
        assert((a + b).last() == b.last());
        lemma_run_append(s, a, b.drop_last());
    }
}

/// Missing language on a multi-lingual backend: the session fails with
/// `MissingLanguage`, and every later request is answered with that error.
pub proof fn lemma_missing_language_is_terminal(
    info: BackendInfo,
    cfg: SettingsModel,
    later: Seq<SessionEvent>,
)
    requires
        info.multi_lingual,
        cfg.language is None,
    ensures
        constructed_state(Some(info), cfg) == SessionState::Failed(ConfigError::MissingLanguage),
        request(run(constructed_state(Some(info), cfg), later)).1 == ReadyStep::Failed(
            ConfigError::MissingLanguage,
        ),
{
    lemma_terminal_is_final(constructed_state(Some(info), cfg), later);
}

/// Missing speaker on a multi-speaker backend (with the language in order):
/// the session fails with `MissingSpeaker`, and every later request is
/// answered with that error.
pub proof fn lemma_missing_speaker_is_terminal(
    info: BackendInfo,
    cfg: SettingsModel,
    later: Seq<SessionEvent>,
)
    requires
        info.multi_speaker,
        cfg.speaker is None,
        !(info.multi_lingual && cfg.language is None),
    ensures
        constructed_state(Some(info), cfg) == SessionState::Failed(ConfigError::MissingSpeaker),
        request(run(constructed_state(Some(info), cfg), later)).1 == ReadyStep::Failed(
            ConfigError::MissingSpeaker,
        ),
{
    lemma_terminal_is_final(constructed_state(Some(info), cfg), later);
}

/// Checks a configuration against what the backend reports: a
/// multi-lingual model needs a language, a multi-speaker model a speaker.
pub fn validate(settings: &Settings, info: BackendInfo) -> (r: Result<(), ConfigError>)
    ensures
        r is Ok <==> config_error(settings@, info) is None,
        r matches Err(e) ==> config_error(settings@, info) == Some(e),
{
    if info.multi_lingual && settings.language.is_none() {
        Err(ConfigError::MissingLanguage)
    } else if info.multi_speaker && settings.speaker.is_none() {
        Err(ConfigError::MissingSpeaker)
    } else {
        Ok(())
    }
}

/// A session, with the number of callers it has told to construct the
/// backend.
pub struct BackendSession {
    state: SessionState,
    constructions: u64,
}

impl BackendSession {
    pub closed spec fn spec_state(&self) -> SessionState {
        self.state
    }

    pub closed spec fn spec_constructions(&self) -> u64 {
        self.constructions
    }

    /// A session whose backend has not been constructed yet.
    pub fn new() -> (r: BackendSession)
        ensures
            r.spec_state() is Uninitialized,
            r.spec_constructions() == 0,
    {
        BackendSession { state: SessionState::Uninitialized, constructions: 0 }
    }

    pub fn state(&self) -> (r: SessionState)
        ensures
            r == self.spec_state(),
    {
        self.state
    }

    /// How many callers have been told to construct the backend: never
    /// more than one.
    pub fn construction_count(&self) -> (r: u64)
        ensures
            r == self.spec_constructions(),
            r == if self.spec_state() is Uninitialized {
                0u64
            } else {
                1u64
            },
    {
        proof {
            use_type_invariant(&*self);
        }
        self.constructions
    }

    /// A construction has been asked for exactly when the session has left
    /// `Uninitialized`, and then exactly once.
    #[verifier::type_invariant]
    spec fn inv(&self) -> bool {
        self.constructions == if self.state is Uninitialized {
            0u64
        } else {
            1u64
        }
    }

    /// A caller asks for readiness. An uninitialised session moves to
    /// `Initializing` and tells this caller to construct the backend;
    /// while it is initializing, callers are told to wait; a terminal
    /// session answers with its outcome and stays as it is.
    pub fn ensure_ready(&mut self) -> (r: ReadyStep)
        ensures
            (final(self).spec_state(), r) == request(old(self).spec_state()),
    {
        proof {
            use_type_invariant(&*self);
        }
        match self.state {
            SessionState::Uninitialized => {
                *self = BackendSession { state: SessionState::Initializing, constructions: 1 };
                ReadyStep::Construct
            },
            SessionState::Initializing => ReadyStep::Wait,
            SessionState::Ready(info) => ReadyStep::Ready(info),
            SessionState::Failed(e) => ReadyStep::Failed(e),
        }
    }

    /// The caller that was told to construct the backend reports the
    /// outcome (`None`: construction failed). The configuration is
    /// validated against what the backend reports, and the session becomes
    /// `Ready` or `Failed` for good.
    pub fn finish_construction(&mut self, outcome: Option<BackendInfo>, settings: &Settings) -> (r:
        Result<BackendInfo, ConfigError>)
        requires
            old(self).spec_state() is Initializing,
        ensures
            final(self).spec_state() == constructed_state(outcome, settings@),
            final(self).spec_state() == apply(
                old(self).spec_state(),
                SessionEvent::Constructed(outcome, settings@),
            ),
            match r {
                Ok(info) => final(self).spec_state() == SessionState::Ready(info),
                Err(e) => final(self).spec_state() == SessionState::Failed(e),
            },
    {
        proof {
            use_type_invariant(&*self);
        }
        let next = match outcome {
            None => SessionState::Failed(ConfigError::BackendUnavailable),
            Some(info) => match validate(settings, info) {
                Ok(()) => SessionState::Ready(info),
                Err(e) => SessionState::Failed(e),
            },
        };
        *self = BackendSession { state: next, constructions: 1 };
        match next {
            SessionState::Ready(info) => Ok(info),
            SessionState::Failed(e) => Err(e),
            _ => Err(ConfigError::BackendUnavailable),
        }
    }

    /// The backend's output sample rate, known only once it is ready.
    pub fn output_sample_rate(&self) -> (r: Option<u64>)
        ensures
            match self.spec_state() {
                SessionState::Ready(info) => r == Some(info.output_sample_rate),
                _ => r is None,
            },
    {
        match self.state {
            SessionState::Ready(info) => Some(info.output_sample_rate),
            _ => None,
        }
    }
}

} // verus!
