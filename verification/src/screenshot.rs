//! The screenshot capability: its options, the typed codec for them, the
//! decoded success payload (the shot's URI), and the caller-side
//! presentation state that reveals the photo only once a URI arrived.

use vstd::prelude::*;

use crate::errors::DecodeError;
use crate::outcome::{OutcomeView, ResponseOutcome};
use crate::value::{lookup, Value, ValueView, VariantMap};

verus! {

/// The options of a screenshot request. Both keys are always sent.
#[derive(Debug, Clone, Copy, PartialEq, Eq, Structural)]
pub struct ScreenshotOptions {
    /// Whether the broker lets the user pick area and delay first.
    pub interactive: bool,
    /// Whether the broker's dialog is modal over the caller's window.
    pub modal: bool,
}

/// The mapping a screenshot option set encodes to.
pub open spec fn encode_screenshot_view(o: ScreenshotOptions) -> Seq<(Seq<char>, ValueView)> {
    seq![
        ("interactive"@, ValueView::Bool(o.interactive)),
        ("modal"@, ValueView::Bool(o.modal)),
    ]
}

/// What a generic mapping decodes to as screenshot options: both keys
/// are required booleans; unknown keys are tolerated.
pub open spec fn decode_screenshot_view(
    m: Seq<(Seq<char>, ValueView)>,
) -> Result<ScreenshotOptions, DecodeError> {
    match lookup(m, "interactive"@) {
        None => Err(DecodeError::MissingField),
        Some(ValueView::Bool(interactive)) => match lookup(m, "modal"@) {
            None => Err(DecodeError::MissingField),
            Some(ValueView::Bool(modal)) => Ok(ScreenshotOptions { interactive, modal }),
            Some(_) => Err(DecodeError::UnexpectedType),
        },
        Some(_) => Err(DecodeError::UnexpectedType),
    }
}

impl ScreenshotOptions {
    /// Encodes both options into the generic wire mapping.
    pub fn encode(&self) -> (m: VariantMap)
        ensures
            m@ == encode_screenshot_view(*self),
    {
        let mut m = VariantMap::new();
        m.insert("interactive", Value::Bool(self.interactive));
        m.insert("modal", Value::Bool(self.modal));
        proof {
            assert(m@ =~= encode_screenshot_view(*self));
        }
        m
    }

    /// Decodes screenshot options back out of a generic mapping.
    pub fn decode(m: &VariantMap) -> (r: Result<ScreenshotOptions, DecodeError>)
        ensures
            r == decode_screenshot_view(m@),
    {
        let interactive = match m.get("interactive") {
            None => {
                return Err(DecodeError::MissingField);
            },
            Some(Value::Bool(b)) => *b,
            Some(_) => {
                return Err(DecodeError::UnexpectedType);
            },
        };
        let modal = match m.get("modal") {
            None => {
                return Err(DecodeError::MissingField);
            },
            Some(Value::Bool(b)) => *b,
            Some(_) => {
                return Err(DecodeError::UnexpectedType);
            },
        };
        Ok(ScreenshotOptions { interactive, modal })
    }
}

/// Round trip: encoding screenshot options and decoding the mapping back
/// yields the same options.
pub proof fn lemma_screenshot_round_trip(o: ScreenshotOptions)
    ensures
        decode_screenshot_view(encode_screenshot_view(o)) == Ok::<
            ScreenshotOptions,
            DecodeError,
        >(o),
{
    reveal_strlit("interactive");
    reveal_strlit("modal");
    reveal_with_fuel(lookup, 4);
    assert("interactive"@.len() == 11);
    assert("modal"@.len() == 5);
    let m = encode_screenshot_view(o);
    assert(m.drop_first() =~= seq![("modal"@, ValueView::Bool(o.modal))]);
}

/// The reverse direction: re-encoding decoded screenshot options says
/// the same thing as the original mapping under both declared keys.
pub proof fn lemma_screenshot_reencode_faithful(
    m: Seq<(Seq<char>, ValueView)>,
    o: ScreenshotOptions,
)
    requires
        decode_screenshot_view(m) == Ok::<ScreenshotOptions, DecodeError>(o),
    ensures
        lookup(encode_screenshot_view(o), "interactive"@) == lookup(m, "interactive"@),
        lookup(encode_screenshot_view(o), "modal"@) == lookup(m, "modal"@),
{
    reveal_strlit("interactive");
    reveal_strlit("modal");
    reveal_with_fuel(lookup, 4);
    assert("interactive"@.len() == 11);
    assert("modal"@.len() == 5);
    let e = encode_screenshot_view(o);
    assert(e.drop_first() =~= seq![("modal"@, ValueView::Bool(o.modal))]);
}

/// What a screenshot outcome means to the caller.
#[derive(Debug, PartialEq)]
pub enum ScreenshotReply {
    /// The broker took the shot and answered with its URI.
    Shot { uri: String },
    /// The user declined or closed the dialog: a neutral completion.
    Declined,
    /// Any other completion, with the raw code kept.
    Failed(u32),
}

/// The mathematical shape of a [`ScreenshotReply`].
pub enum ScreenshotReplyView {
    Shot(Seq<char>),
    Declined,
    Failed(u32),
}

impl View for ScreenshotReply {
    type V = ScreenshotReplyView;

    open spec fn view(&self) -> ScreenshotReplyView {
        match self {
            ScreenshotReply::Shot { uri } => ScreenshotReplyView::Shot(uri@),
            ScreenshotReply::Declined => ScreenshotReplyView::Declined,
            ScreenshotReply::Failed(c) => ScreenshotReplyView::Failed(*c),
        }
    }
}

/// The URI a successful screenshot payload carries under its one
/// required key.
pub open spec fn decode_uri_view(m: Seq<(Seq<char>, ValueView)>) -> Result<Seq<char>, DecodeError> {
    match lookup(m, "uri"@) {
        None => Err(DecodeError::MissingField),
        Some(ValueView::Str(u)) => Ok(u),
        Some(_) => Err(DecodeError::UnexpectedType),
    }
}

/// What a full screenshot outcome means: a success must carry a URI, a
/// decline is neutral, anything else keeps its raw code.
pub open spec fn screenshot_reply_view(o: OutcomeView) -> Result<ScreenshotReplyView, DecodeError> {
    match o {
        OutcomeView::Success(m) => match decode_uri_view(m) {
            Ok(u) => Ok(ScreenshotReplyView::Shot(u)),
            Err(e) => Err(e),
        },
        OutcomeView::Cancelled => Ok(ScreenshotReplyView::Declined),
        OutcomeView::Other(c) => Ok(ScreenshotReplyView::Failed(c)),
    }
}

/// Reads the one-time outcome of a screenshot request.
pub fn screenshot_result(outcome: &ResponseOutcome) -> (r: Result<ScreenshotReply, DecodeError>)
    ensures
        match r {
            Ok(rep) => screenshot_reply_view(outcome@) == Ok::<ScreenshotReplyView, DecodeError>(
                rep@,
            ),
            Err(e) => screenshot_reply_view(outcome@) == Err::<ScreenshotReplyView, DecodeError>(
                e,
            ),
        },
{
    match outcome {
        ResponseOutcome::Success(m) => match m.get("uri") {
            None => Err(DecodeError::MissingField),
            Some(Value::Str(u)) => Ok(ScreenshotReply::Shot { uri: u.clone() }),
            Some(_) => Err(DecodeError::UnexpectedType),
        },
        ResponseOutcome::Cancelled => Ok(ScreenshotReply::Declined),
        ResponseOutcome::Other(c) => Ok(ScreenshotReply::Failed(*c)),
    }
}

/// The caller-side presentation state of the screenshot flow: the photo
/// is revealed exactly when a shot's URI has arrived.
#[derive(Debug)]
pub struct ScreenshotPageState {
    /// Whether the photo area is revealed.
    pub revealed: bool,
    /// The URI of the last shot taken, if any.
    pub uri: Option<String>,
}

impl ScreenshotPageState {
    /// Before any flow ran: nothing revealed, no URI.
    pub fn new() -> (s: Self)
        ensures
            !s.revealed,
            s.uri is None,
    {
        ScreenshotPageState { revealed: false, uri: None }
    }

    /// Applies one reply: only a shot reveals the photo and stores its
    /// URI; a decline or failure leaves the state untouched.
    pub fn apply(&mut self, reply: &ScreenshotReply)
        ensures
            (reply@ matches ScreenshotReplyView::Shot(u) ==> final(self).revealed && (
            final(self).uri matches Some(stored) && stored@ == u)),
            !(reply@ matches ScreenshotReplyView::Shot(_)) ==> *final(self) == *old(self),
    {
        match reply {
            ScreenshotReply::Shot { uri } => {
                self.revealed = true;
                self.uri = Some(uri.clone());
            },
            _ => {},
        }
    }
}

} // verus!
