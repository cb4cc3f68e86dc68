//! The camera capability: it has no options, its access check decodes to
//! a plain "granted" boolean, and a granted stream hands back a live
//! resource that the session in [`crate::session`] owns until stopped.

use vstd::prelude::*;

use crate::errors::DecodeError;
use crate::outcome::{OutcomeView, ResponseOutcome};
use crate::value::{lookup, Value, ValueView, VariantMap};

verus! {

/// What the access-check outcome says: a success payload must carry the
/// "granted" boolean; a decline or any failure code means "not granted",
/// since no stream may be requested on those paths.
pub open spec fn access_granted_view(o: OutcomeView) -> Result<bool, DecodeError> {
    match o {
        OutcomeView::Success(m) => match lookup(m, "granted"@) {
            None => Err(DecodeError::MissingField),
            Some(ValueView::Bool(b)) => Ok(b),
            Some(_) => Err(DecodeError::UnexpectedType),
        },
        OutcomeView::Cancelled => Ok(false),
        OutcomeView::Other(_) => Ok(false),
    }
}

/// Reads the camera access-check outcome into the "granted" boolean that
/// decides whether the stream may be opened.
pub fn camera_access_granted(outcome: &ResponseOutcome) -> (r: Result<bool, DecodeError>)
    ensures
        r == access_granted_view(outcome@),
{
    match outcome {
        ResponseOutcome::Success(m) => match m.get("granted") {
            None => Err(DecodeError::MissingField),
            Some(Value::Bool(b)) => Ok(*b),
            Some(_) => Err(DecodeError::UnexpectedType),
        },
        ResponseOutcome::Cancelled => Ok(false),
        ResponseOutcome::Other(_) => Ok(false),
    }
}

/// The availability text the caller shows beside the camera page.
pub fn availability_label(granted: bool) -> (s: &'static str)
    ensures
        granted ==> s@ == "Yes"@,
        !granted ==> s@ == "No"@,
{
    if granted {
        "Yes"
    } else {
        "No"
    }
}

} // verus!
