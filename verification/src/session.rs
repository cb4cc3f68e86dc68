//! The continuous-session lifecycle: `Idle -> Starting -> Streaming -> Idle`
//! for stream capabilities such as the camera. `start` registers intent,
//! the access check and the stream outcome arrive later as events, and
//! `stop` releases whatever is held. At most one request is outstanding per
//! session, and a resource that arrives after the caller lost interest is
//! handed back for immediate closing, never surfaced.
//!
//! The controller is a pure state machine: the caller performs the actual
//! broker calls and feeds the observed events back in, and every method
//! answers with the effect the caller must carry out.

use vstd::prelude::*;

verus! {

/// An open continuous data source (for example a duplex pipe endpoint
/// carrying live camera frames), delivered only inside a successful
/// outcome. The integer is the OS-level descriptor. The session owns it
/// exclusively until it is closed; closing is the only way to release it.
#[derive(Debug, Clone, Copy, PartialEq, Eq, Structural)]
pub struct StreamResource {
    pub fd: i32,
}

/// Where a session stands in its lifecycle.
#[derive(Debug, Clone, Copy, PartialEq, Eq, Structural)]
pub enum SessionState {
    /// Nothing in flight, nothing held.
    Idle,
    /// Permission was asked for; the outcome has not arrived yet.
    Starting,
    /// A stream resource is held and may be observed by the caller.
    Streaming,
}

/// The immediate answer of [`SessionController::start`].
#[derive(Debug, Clone, Copy, PartialEq, Eq, Structural)]
pub enum StartReply {
    /// The session left `Idle`; the caller should now issue the access check.
    Begun,
    /// A request is already outstanding or a stream is live; nothing changed.
    AlreadyActive,
}

/// The effect of the capability's access check answer.
#[derive(Debug, Clone, Copy, PartialEq, Eq, Structural)]
pub enum AccessReply {
    /// Access is possible; the caller should now request the stream itself.
    ProceedToOpen,
    /// The capability is not available (for example no camera is present):
    /// the session is back at `Idle` and the caller shows a neutral "No".
    Unavailable,
    /// The session was no longer `Starting`; the answer was drained.
    Stale,
}

/// The stream-opening outcome as the transport observed it.
#[derive(Debug, Clone, Copy, PartialEq, Eq, Structural)]
pub enum StreamOutcome {
    /// The broker granted the stream and handed over the resource.
    Opened(StreamResource),
    /// The user declined or closed the dialog.
    Cancelled,
    /// Any other completion, with the raw broker code.
    Other(u32),
}

/// What the caller must do after feeding a stream outcome in.
#[derive(Debug, Clone, Copy, PartialEq, Eq, Structural)]
pub enum OutcomeEffect {
    /// The session is `Streaming`: render the resource.
    Reveal(StreamResource),
    /// The caller had already lost interest: close this resource at once
    /// and never surface it.
    CloseUnwanted(StreamResource),
    /// The user declined: show a neutral state, nothing is held.
    ReportCancelled,
    /// The broker reported this raw code: surface it as a recoverable
    /// failure; a fresh `start` may be issued.
    ReportFailure(u32),
    /// A failure outcome arrived after the caller lost interest; nothing to do.
    Drained,
}

/// The abstract state of a session controller.
pub struct SessionView {
    pub state: SessionState,
    pub resource: Option<StreamResource>,
}

impl SessionView {
    /// A resource is held exactly while the session is `Streaming`.
    pub open spec fn inv(self) -> bool {
        (self.state is Streaming) <==> (self.resource is Some)
    }
}

/// How `start` acts on a session: valid only from `Idle`; from anywhere
/// else it is rejected and nothing changes.
pub open spec fn start_step(v: SessionView) -> (SessionView, StartReply) {
    if v.state is Idle {
        (SessionView { state: SessionState::Starting, ..v }, StartReply::Begun)
    } else {
        (v, StartReply::AlreadyActive)
    }
}

/// How the access check answer acts on a session: "not available" resolves
/// straight back to `Idle`; a stale answer is drained.
pub open spec fn access_step(v: SessionView, granted: bool) -> (SessionView, AccessReply) {
    if !(v.state is Starting) {
        (v, AccessReply::Stale)
    } else if granted {
        (v, AccessReply::ProceedToOpen)
    } else {
        (SessionView { state: SessionState::Idle, ..v }, AccessReply::Unavailable)
    }
}

/// How the stream outcome acts on a session. While `Starting`, a granted
/// resource is adopted and revealed and any other completion resolves to
/// `Idle`. In any other state the caller no longer wants the outcome: a
/// resource that still arrives must be closed immediately.
pub open spec fn outcome_step(v: SessionView, o: StreamOutcome) -> (SessionView, OutcomeEffect) {
    if v.state is Starting {
        match o {
            StreamOutcome::Opened(r) => (
                SessionView { state: SessionState::Streaming, resource: Some(r) },
                OutcomeEffect::Reveal(r),
            ),
            StreamOutcome::Cancelled => (
                SessionView { state: SessionState::Idle, resource: None },
                OutcomeEffect::ReportCancelled,
            ),
            StreamOutcome::Other(c) => (
                SessionView { state: SessionState::Idle, resource: None },
                OutcomeEffect::ReportFailure(c),
            ),
        }
    } else {
        match o {
            StreamOutcome::Opened(r) => (v, OutcomeEffect::CloseUnwanted(r)),
            StreamOutcome::Cancelled => (v, OutcomeEffect::Drained),
            StreamOutcome::Other(_) => (v, OutcomeEffect::Drained),
        }
    }
}

/// How `stop` acts on a session: always back to `Idle`, handing out
/// whatever resource was held so the caller can close it.
pub open spec fn stop_step(v: SessionView) -> (SessionView, Option<StreamResource>) {
    (SessionView { state: SessionState::Idle, resource: None }, v.resource)
}

/// One capability session. The broker interaction is the caller's: each
/// method only decides, and its answer says what to carry out.
#[derive(Debug)]
pub struct SessionController {
    state: SessionState,
    resource: Option<StreamResource>,
}

impl View for SessionController {
    type V = SessionView;

    closed spec fn view(&self) -> SessionView {
        SessionView { state: self.state, resource: self.resource }
    }
}

impl SessionController {
    /// A fresh session: `Idle`, holding nothing.
    pub fn new() -> (s: Self)
        ensures
            s@.inv(),
            s@.state is Idle,
            s@.resource is None,
    {
        SessionController { state: SessionState::Idle, resource: None }
    }

    /// The session's current lifecycle state, for the caller's UI.
    pub fn state(&self) -> (st: SessionState)
        ensures
            st == self@.state,
    {
        self.state
    }

    /// Begins the start flow. Valid only from `Idle`; calling it while a
    /// request is outstanding or a stream is live is rejected with
    /// `AlreadyActive` and changes nothing, so at most one request is ever
    /// outstanding per session.
    pub fn start(&mut self) -> (r: StartReply)
        requires
            old(self)@.inv(),
        ensures
            final(self)@.inv(),
            (final(self)@, r) == start_step(old(self)@),
            old(self)@.state is Idle ==> final(self)@.state is Starting && r is Begun,
            !(old(self)@.state is Idle) ==> final(self)@ == old(self)@ && r is AlreadyActive,
    {
        match self.state {
            SessionState::Idle => {
                self.state = SessionState::Starting;
                StartReply::Begun
            },
            _ => StartReply::AlreadyActive,
        }
    }

    /// Feeds in the capability's access check answer. "Not granted" (for
    /// example no camera present) resolves the session straight back to
    /// `Idle` as a neutral signal, not an error; no stream resource is
    /// ever created on that path.
    pub fn handle_access(&mut self, granted: bool) -> (r: AccessReply)
        requires
            old(self)@.inv(),
        ensures
            final(self)@.inv(),
            (final(self)@, r) == access_step(old(self)@, granted),
    {
        match self.state {
            SessionState::Starting => {
                if granted {
                    AccessReply::ProceedToOpen
                } else {
                    self.state = SessionState::Idle;
                    AccessReply::Unavailable
                }
            },
            _ => AccessReply::Stale,
        }
    }

    /// Feeds in the stream-opening outcome. Only a session still
    /// `Starting` adopts a granted resource; one that was stopped first
    /// answers `CloseUnwanted`, and the resource is never surfaced.
    pub fn handle_outcome(&mut self, outcome: StreamOutcome) -> (r: OutcomeEffect)
        requires
            old(self)@.inv(),
        ensures
            final(self)@.inv(),
            (final(self)@, r) == outcome_step(old(self)@, outcome),
    {
        match self.state {
            SessionState::Starting => {
                match outcome {
                    StreamOutcome::Opened(res) => {
                        self.state = SessionState::Streaming;
                        self.resource = Some(res);
                        OutcomeEffect::Reveal(res)
                    },
                    StreamOutcome::Cancelled => {
                        self.state = SessionState::Idle;
                        OutcomeEffect::ReportCancelled
                    },
                    StreamOutcome::Other(c) => {
                        self.state = SessionState::Idle;
                        OutcomeEffect::ReportFailure(c)
                    },
                }
            },
            _ => {
                match outcome {
                    StreamOutcome::Opened(res) => OutcomeEffect::CloseUnwanted(res),
                    _ => OutcomeEffect::Drained,
                }
            },
        }
    }

    /// Ends the session from any state. Whatever resource was held is
    /// handed out for closing; from `Idle` this is a no-op, so `stop` is
    /// safely idempotent from any re-entry path.
    pub fn stop(&mut self) -> (r: Option<StreamResource>)
        requires
            old(self)@.inv(),
        ensures
            final(self)@.inv(),
            (final(self)@, r) == stop_step(old(self)@),
            final(self)@.state is Idle && final(self)@.resource is None,
            old(self)@.state is Idle ==> final(self)@ == old(self)@ && r is None,
    {
        let held = self.resource;
        self.state = SessionState::Idle;
        self.resource = None;
        held
    }
}

/// `stop` from `Idle` is a no-op: the state stays `Idle` and nothing is
/// handed out for closing.
pub proof fn lemma_stop_idle_is_noop(v: SessionView)
    requires
        v.inv(),
        v.state is Idle,
    ensures
        stop_step(v) == (v, None::<StreamResource>),
{
}

/// A second `start` without an intervening `stop` or resolution is
/// rejected and leaves the session exactly as it was, so the first call's
/// eventual resolution is unaffected: every later event steps the session
/// just as it would have without the second `start`.
pub proof fn lemma_second_start_rejected(v: SessionView)
    requires
        !(v.state is Idle),
    ensures
        start_step(v) == (v, StartReply::AlreadyActive),
        forall|o: StreamOutcome| #[trigger] outcome_step(start_step(v).0, o) == outcome_step(v, o),
        forall|granted: bool| #[trigger] access_step(start_step(v).0, granted)
            == access_step(v, granted),
{
}

/// A resource whose outcome arrives only after the session was stopped is
/// handed straight back for closing and never stored or revealed.
pub proof fn lemma_late_resource_never_surfaces(v: SessionView, r: StreamResource)
    requires
        v.state is Starting,
    ensures
        outcome_step(stop_step(v).0, StreamOutcome::Opened(r)).0 == stop_step(v).0,
        outcome_step(stop_step(v).0, StreamOutcome::Opened(r)).1
            == OutcomeEffect::CloseUnwanted(r),
        outcome_step(stop_step(v).0, StreamOutcome::Opened(r)).0.resource is None,
{
}

} // verus!
