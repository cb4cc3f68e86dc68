//! The one-time outcome of a capability request. The broker answers every
//! request with a numeric code and a generic payload mapping; code zero is
//! success, one well-known code means "the user declined or closed the
//! dialog", and any other code is kept raw for diagnostics.

use vstd::prelude::*;

use crate::value::{ValueView, VariantMap};

verus! {

/// The broker's well-known reply code for "the user declined or closed the
/// dialog". The underlying protocol does not distinguish the two.
pub const DECLINE_CODE: u32 = 1;

/// The bare tag of a broker reply, before the payload is attached.
#[derive(Debug, Clone, Copy, PartialEq, Eq, Structural)]
pub enum ResponseType {
    Success,
    Cancelled,
    Other,
}

impl ResponseType {
    /// The tag a raw reply code stands for.
    pub open spec fn of_code(code: u32) -> ResponseType {
        if code == 0 {
            ResponseType::Success
        } else if code == DECLINE_CODE {
            ResponseType::Cancelled
        } else {
            ResponseType::Other
        }
    }

    pub fn from_code(code: u32) -> (r: ResponseType)
        ensures
            r == ResponseType::of_code(code),
    {
        if code == 0 {
            ResponseType::Success
        } else if code == DECLINE_CODE {
            ResponseType::Cancelled
        } else {
            ResponseType::Other
        }
    }
}

/// The single asynchronous result of one capability request. Exactly one
/// of these is ever produced per request handle.
#[derive(Debug, PartialEq)]
pub enum ResponseOutcome {
    /// The broker granted the request; the payload shape is the capability's own.
    Success(VariantMap),
    /// The user declined or closed the dialog: a normal completion, not an error.
    Cancelled,
    /// Any other completion, with the raw broker code kept for diagnostics.
    Other(u32),
}

/// The mathematical shape of a [`ResponseOutcome`].
pub enum OutcomeView {
    Success(Seq<(Seq<char>, ValueView)>),
    Cancelled,
    Other(u32),
}

impl View for ResponseOutcome {
    type V = OutcomeView;

    open spec fn view(&self) -> OutcomeView {
        match self {
            ResponseOutcome::Success(m) => OutcomeView::Success(m@),
            ResponseOutcome::Cancelled => OutcomeView::Cancelled,
            ResponseOutcome::Other(c) => OutcomeView::Other(*c),
        }
    }
}

impl Clone for ResponseOutcome {
    /// A clone carries the same abstract outcome.
    fn clone(&self) -> (res: Self)
        ensures
            res@ == self@,
    {
        match self {
            ResponseOutcome::Success(m) => ResponseOutcome::Success(m.clone()),
            ResponseOutcome::Cancelled => ResponseOutcome::Cancelled,
            ResponseOutcome::Other(c) => ResponseOutcome::Other(*c),
        }
    }
}

/// What a raw reply means: code zero succeeds with the payload, the
/// well-known decline code cancels, anything else is kept raw.
pub open spec fn classify_view(code: u32, payload: Seq<(Seq<char>, ValueView)>) -> OutcomeView {
    if code == 0 {
        OutcomeView::Success(payload)
    } else if code == DECLINE_CODE {
        OutcomeView::Cancelled
    } else {
        OutcomeView::Other(code)
    }
}

/// Turns the broker's raw reply into the typed outcome.
pub fn classify(code: u32, payload: VariantMap) -> (r: ResponseOutcome)
    ensures
        r@ == classify_view(code, payload@),
{
    if code == 0 {
        ResponseOutcome::Success(payload)
    } else if code == DECLINE_CODE {
        ResponseOutcome::Cancelled
    } else {
        ResponseOutcome::Other(code)
    }
}

} // verus!
