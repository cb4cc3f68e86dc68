//! The request correlator: one broker request, one handle, exactly one
//! outcome. The correlator is created from the handle the broker returned
//! — registering interest before the handle can resolve, which closes the
//! race where an outcome could fire before anyone listens — and caches the
//! first outcome delivered on that handle. Every later delivery returns
//! the identical cached outcome and changes nothing.
//!
//! Dropping a correlator abandons interest: the subscription goes with
//! it and no further work happens. That alone does not ask the broker to
//! cancel the underlying operation; a session's own stop primitive does
//! that separately when the caller wants it.

use vstd::prelude::*;

use crate::outcome::{classify, classify_view, OutcomeView, ResponseOutcome};
use crate::value::{ValueView, VariantMap};

verus! {

/// An opaque, broker-assigned token identifying one in-flight or completed
/// request. Unique per call; never reused.
#[derive(Debug, PartialEq, Eq)]
pub struct RequestHandle {
    token: String,
}

impl View for RequestHandle {
    type V = Seq<char>;

    closed spec fn view(&self) -> Seq<char> {
        self.token@
    }
}

impl Clone for RequestHandle {
    /// A clone names the same request.
    fn clone(&self) -> (res: Self)
        ensures
            res@ == self@,
    {
        RequestHandle { token: self.token.clone() }
    }
}

impl RequestHandle {
    /// Wraps the path-like token the broker answered a method call with.
    pub fn new(token: String) -> (h: Self)
        ensures
            h@ == token@,
    {
        RequestHandle { token }
    }

    /// The raw token, for scoping the transport's event subscription.
    pub fn token(&self) -> (t: &String)
        ensures
            t@ == self@,
    {
        &self.token
    }
}

/// One outcome event as the transport observed it on the broker's outcome
/// channel: the handle it is scoped to, the raw reply code and the generic
/// payload mapping.
#[derive(Debug)]
pub struct OutcomeEvent {
    pub handle_token: String,
    pub code: u32,
    pub payload: VariantMap,
}

/// The abstract state of a correlator: which handle it listens on, and the
/// outcome it has cached once resolved.
pub struct CorrelatorView {
    pub handle: Seq<char>,
    pub cached: Option<OutcomeView>,
}

/// How one delivery acts on a correlator: a pending one resolves to the
/// classified outcome and caches it; a resolved one ignores the delivery
/// and answers from the cache.
pub open spec fn await_step(
    c: CorrelatorView,
    code: u32,
    payload: Seq<(Seq<char>, ValueView)>,
) -> (CorrelatorView, OutcomeView) {
    match c.cached {
        Some(o) => (c, o),
        None => {
            let o = classify_view(code, payload);
            (CorrelatorView { cached: Some(o), ..c }, o)
        },
    }
}

/// Correlates one request handle with its single outcome.
#[derive(Debug)]
pub struct RequestCorrelator {
    handle: RequestHandle,
    cached: Option<ResponseOutcome>,
}

impl View for RequestCorrelator {
    type V = CorrelatorView;

    closed spec fn view(&self) -> CorrelatorView {
        CorrelatorView {
            handle: self.handle@,
            cached: match self.cached {
                Some(o) => Some(o@),
                None => None,
            },
        }
    }
}

impl RequestCorrelator {
    /// Registers interest in the handle's outcome channel. This must
    /// happen before the handle can resolve; holding the handle inside
    /// the correlator from this moment on makes the ordering explicit.
    pub fn subscribe(handle: RequestHandle) -> (c: Self)
        ensures
            c@.handle == handle@,
            c@.cached is None,
    {
        RequestCorrelator { handle, cached: None }
    }

    /// The handle this correlator listens on, for scoping the
    /// transport's event subscription to exactly one request.
    pub fn handle(&self) -> (h: &RequestHandle)
        ensures
            h@ == self@.handle,
    {
        &self.handle
    }

    /// Whether an outcome has already been delivered and cached.
    pub fn is_resolved(&self) -> (r: bool)
        ensures
            r == (self@.cached is Some),
    {
        self.cached.is_some()
    }

    /// The cached outcome, once resolved.
    pub fn outcome(&self) -> (r: Option<&ResponseOutcome>)
        ensures
            match r {
                Some(o) => self@.cached == Some(o@),
                None => self@.cached is None,
            },
    {
        self.cached.as_ref()
    }

    /// Resolves the request from one delivery of its outcome event. The
    /// first delivery classifies the raw reply and caches it; the request
    /// resolves at most once, so on an already-resolved correlator the
    /// event is ignored and the identical cached outcome comes back.
    ///
    /// The caller hands in only events observed on this handle's channel:
    /// the subscription is scoped to exactly one handle.
    pub fn await_outcome(&mut self, event: &OutcomeEvent) -> (r: ResponseOutcome)
        requires
            event.handle_token@ == old(self)@.handle,
        ensures
            (final(self)@, r@) == await_step(old(self)@, event.code, event.payload@),
            final(self)@.handle == old(self)@.handle,
            final(self)@.cached == Some(r@),
            old(self)@.cached is Some ==> final(self)@ == old(self)@
                && Some(r@) == old(self)@.cached,
            old(self)@.cached is None ==> r@ == classify_view(event.code, event.payload@),
    {
        match &self.cached {
            Some(o) => o.clone(),
            None => {
                let o = classify(event.code, event.payload.clone());
                self.cached = Some(o.clone());
                o
            },
        }
    }
}

/// A request resolves at most once: whatever a second delivery carries,
/// it returns the identical cached outcome and leaves the correlator
/// exactly as the first delivery left it.
pub proof fn lemma_await_outcome_idempotent(
    c: CorrelatorView,
    code1: u32,
    payload1: Seq<(Seq<char>, ValueView)>,
    code2: u32,
    payload2: Seq<(Seq<char>, ValueView)>,
)
    ensures
        await_step(await_step(c, code1, payload1).0, code2, payload2)
            == await_step(c, code1, payload1),
{
}

} // verus!
