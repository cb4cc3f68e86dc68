//! The wallpaper capability: its option set, the typed option codec for
//! it, and the meaning of its outcome. Options absent from the set are
//! omitted from the encoded mapping entirely, so the broker applies its
//! own defaults; decoding tolerates unknown keys and missing optional
//! keys, and rejects only a wrong type or an unknown enumeration tag.

use vstd::prelude::*;

use crate::errors::DecodeError;
use crate::outcome::{OutcomeView, ResponseOutcome, ResponseType};
use crate::value::{lookup, Value, ValueView, VariantMap};

verus! {

/// Where to set the wallpaper on.
#[derive(Debug, Clone, Copy, PartialEq, Eq, Structural)]
pub enum SetOn {
    /// Set the wallpaper only on the lockscreen.
    Lockscreen,
    /// Set the wallpaper only on the background.
    Background,
    /// Set the wallpaper on both lockscreen and background.
    Both,
}

impl SetOn {
    /// The canonical lowercase string tag this variant encodes as.
    pub open spec fn tag(self) -> Seq<char> {
        match self {
            SetOn::Lockscreen => "lockscreen"@,
            SetOn::Background => "background"@,
            SetOn::Both => "both"@,
        }
    }

    /// Which variant a string tag decodes to: exactly the three canonical
    /// tags are recognized.
    pub open spec fn of_tag(tag: Seq<char>) -> Result<SetOn, DecodeError> {
        if tag == "lockscreen"@ {
            Ok(SetOn::Lockscreen)
        } else if tag == "background"@ {
            Ok(SetOn::Background)
        } else if tag == "both"@ {
            Ok(SetOn::Both)
        } else {
            Err(DecodeError::UnknownVariant)
        }
    }

    /// The canonical tag, as a string slice for encoding.
    pub fn as_tag(&self) -> (r: &'static str)
        ensures
            r@ == self.tag(),
    {
        match self {
            SetOn::Lockscreen => "lockscreen",
            SetOn::Background => "background",
            SetOn::Both => "both",
        }
    }

    /// Parses a tag back; an unrecognized tag is an `UnknownVariant`.
    pub fn from_tag(tag: &str) -> (r: Result<SetOn, DecodeError>)
        ensures
            r == SetOn::of_tag(tag@),
    {
        let t: String = tag.to_owned();
        if t == "lockscreen".to_owned() {
            Ok(SetOn::Lockscreen)
        } else if t == "background".to_owned() {
            Ok(SetOn::Background)
        } else if t == "both".to_owned() {
            Ok(SetOn::Both)
        } else {
            Err(DecodeError::UnknownVariant)
        }
    }
}

/// The options of a set-wallpaper request. An absent option means "use
/// the broker's default", never "false".
#[derive(Debug, Clone, Copy, PartialEq, Eq)]
pub struct WallpaperOptions {
    /// Whether to show a preview of the picture. The broker may decide to
    /// show a preview even when this option is absent.
    pub show_preview: Option<bool>,
    /// Where to set the wallpaper on.
    pub set_on: Option<SetOn>,
}

/// The mapping a wallpaper option set encodes to: one entry per present
/// key, in canonical order, and nothing for an absent key.
pub open spec fn encode_wallpaper_view(o: WallpaperOptions) -> Seq<(Seq<char>, ValueView)> {
    let base = Seq::<(Seq<char>, ValueView)>::empty();
    let with_preview = match o.show_preview {
        Some(b) => base.push(("show-preview"@, ValueView::Bool(b))),
        None => base,
    };
    match o.set_on {
        Some(s) => with_preview.push(("set-on"@, ValueView::Str(s.tag()))),
        None => with_preview,
    }
}

/// An optional boolean key: absent is fine, a non-boolean value is not.
pub open spec fn decode_opt_bool(
    m: Seq<(Seq<char>, ValueView)>,
    key: Seq<char>,
) -> Result<Option<bool>, DecodeError> {
    match lookup(m, key) {
        None => Ok(None),
        Some(ValueView::Bool(b)) => Ok(Some(b)),
        Some(_) => Err(DecodeError::UnexpectedType),
    }
}

/// An optional placement key: absent is fine, a non-string value or an
/// unknown tag is not.
pub open spec fn decode_opt_set_on(
    m: Seq<(Seq<char>, ValueView)>,
    key: Seq<char>,
) -> Result<Option<SetOn>, DecodeError> {
    match lookup(m, key) {
        None => Ok(None),
        Some(ValueView::Str(t)) => match SetOn::of_tag(t) {
            Ok(s) => Ok(Some(s)),
            Err(e) => Err(e),
        },
        Some(_) => Err(DecodeError::UnexpectedType),
    }
}

/// What a generic mapping decodes to as wallpaper options: exactly the
/// recognized keys are read, unknown keys are tolerated, and missing
/// optional keys decode to "absent".
pub open spec fn decode_wallpaper_view(
    m: Seq<(Seq<char>, ValueView)>,
) -> Result<WallpaperOptions, DecodeError> {
    match decode_opt_bool(m, "show-preview"@) {
        Err(e) => Err(e),
        Ok(show_preview) => match decode_opt_set_on(m, "set-on"@) {
            Err(e) => Err(e),
            Ok(set_on) => Ok(WallpaperOptions { show_preview, set_on }),
        },
    }
}

impl WallpaperOptions {
    /// Encodes the present options into the generic wire mapping.
    pub fn encode(&self) -> (m: VariantMap)
        ensures
            m@ == encode_wallpaper_view(*self),
    {
        let mut m = VariantMap::new();
        if let Some(b) = self.show_preview {
            m.insert("show-preview", Value::Bool(b));
        }
        if let Some(s) = self.set_on {
            m.insert("set-on", Value::Str(s.as_tag().to_owned()));
        }
        m
    }

    /// Decodes wallpaper options back out of a generic mapping.
    pub fn decode(m: &VariantMap) -> (r: Result<WallpaperOptions, DecodeError>)
        ensures
            r == decode_wallpaper_view(m@),
    {
        let show_preview = match m.get("show-preview") {
            None => None,
            Some(Value::Bool(b)) => Some(*b),
            Some(_) => {
                return Err(DecodeError::UnexpectedType);
            },
        };
        let set_on = match m.get("set-on") {
            None => None,
            Some(Value::Str(t)) => match SetOn::from_tag(t.as_str()) {
                Ok(s) => Some(s),
                Err(e) => {
                    return Err(e);
                },
            },
            Some(_) => {
                return Err(DecodeError::UnexpectedType);
            },
        };
        Ok(WallpaperOptions { show_preview, set_on })
    }
}

/// Round trip: encoding an option set and decoding the mapping back
/// yields exactly the keys that were present, with the same values.
pub proof fn lemma_wallpaper_round_trip(o: WallpaperOptions)
    ensures
        decode_wallpaper_view(encode_wallpaper_view(o)) == Ok::<WallpaperOptions, DecodeError>(o),
{
    reveal_strlit("show-preview");
    reveal_strlit("set-on");
    reveal_strlit("lockscreen");
    reveal_strlit("background");
    reveal_strlit("both");
    reveal_with_fuel(lookup, 4);
    assert("show-preview"@.len() == 12);
    assert("set-on"@.len() == 6);
    assert("lockscreen"@.len() == 10);
    assert("background"@.len() == 10);
    assert("both"@.len() == 4);
    assert("lockscreen"@[0] == 'l');
    assert("background"@[0] == 'b');
    let m = encode_wallpaper_view(o);
    if let Some(s) = o.set_on {
        assert(SetOn::of_tag(s.tag()) == Ok::<SetOn, DecodeError>(s));
    }
    if o.show_preview is Some && o.set_on is Some {
        assert(m.drop_first() =~= seq![("set-on"@, ValueView::Str(o.set_on->0.tag()))]);
    }
}

/// The reverse direction: re-encoding a decoded option set says the same
/// thing as the original mapping under every supported key. Unknown keys
/// are not re-emitted, and a recognized tag re-encodes as itself, so the
/// two mappings are semantically equivalent for the declared keys.
pub proof fn lemma_wallpaper_reencode_faithful(m: Seq<(Seq<char>, ValueView)>, o: WallpaperOptions)
    requires
        decode_wallpaper_view(m) == Ok::<WallpaperOptions, DecodeError>(o),
    ensures
        lookup(encode_wallpaper_view(o), "show-preview"@) == lookup(m, "show-preview"@),
        lookup(encode_wallpaper_view(o), "set-on"@) == lookup(m, "set-on"@),
{
    reveal_strlit("show-preview");
    reveal_strlit("set-on");
    reveal_strlit("lockscreen");
    reveal_strlit("background");
    reveal_strlit("both");
    reveal_with_fuel(lookup, 4);
    assert("show-preview"@.len() == 12);
    assert("set-on"@.len() == 6);
    if let Some(s) = o.set_on {
        let t = match lookup(m, "set-on"@) {
            Some(ValueView::Str(t)) => t,
            _ => Seq::empty(),
        };
        assert(SetOn::of_tag(t) == Ok::<SetOn, DecodeError>(s));
        assert(s.tag() == t);
    }
    if o.show_preview is Some && o.set_on is Some {
        let e = encode_wallpaper_view(o);
        assert(e.drop_first() =~= seq![("set-on"@, ValueView::Str(o.set_on->0.tag()))]);
    }
}

/// Builds a [`WallpaperOptions`] one option at a time; every option left
/// unset stays absent, so the broker falls back to its own default.
#[derive(Debug)]
pub struct WallpaperOptionsBuilder {
    /// Whether to show a preview of the picture.
    pub show_preview: Option<bool>,
    /// Where to set the wallpaper on.
    pub set_on: Option<SetOn>,
}

impl Default for WallpaperOptionsBuilder {
    /// A fresh builder leaves every option absent.
    fn default() -> (b: Self)
        ensures
            b.show_preview is None,
            b.set_on is None,
    {
        WallpaperOptionsBuilder { show_preview: None, set_on: None }
    }
}

impl WallpaperOptionsBuilder {
    /// Sets whether the broker should show a preview.
    pub fn show_preview(self, show_preview: bool) -> (b: Self)
        ensures
            b.show_preview == Some(show_preview),
            b.set_on == self.set_on,
    {
        WallpaperOptionsBuilder { show_preview: Some(show_preview), set_on: self.set_on }
    }

    /// Sets where the wallpaper goes.
    pub fn set_on(self, set_on: SetOn) -> (b: Self)
        ensures
            b.set_on == Some(set_on),
            b.show_preview == self.show_preview,
    {
        WallpaperOptionsBuilder { show_preview: self.show_preview, set_on: Some(set_on) }
    }

    /// The finished option set, exactly as built.
    pub fn build(self) -> (o: WallpaperOptions)
        ensures
            o.show_preview == self.show_preview,
            o.set_on == self.set_on,
    {
        WallpaperOptions { set_on: self.set_on, show_preview: self.show_preview }
    }
}

/// A wallpaper reply as the broker delivered it: the bare response tag
/// and the generic payload mapping.
#[derive(Debug, PartialEq)]
pub struct WallpaperResponse(pub ResponseType, pub VariantMap);

impl WallpaperResponse {
    /// Whether the broker applied the wallpaper.
    pub fn is_success(&self) -> (r: bool)
        ensures
            r == (self.0 is Success),
    {
        self.0 == ResponseType::Success
    }
}

/// What a set-wallpaper outcome means to the caller.
#[derive(Debug, Clone, Copy, PartialEq, Eq, Structural)]
pub enum WallpaperReply {
    /// The broker applied the wallpaper mapping.
    Applied,
    /// The user declined the dialog: a neutral completion, no mapping was
    /// applied and nothing is logged as an error.
    Declined,
    /// Any other completion, with the raw code kept; a fresh request may
    /// be issued.
    Failed(u32),
}

/// Reads the one-time outcome of a set-wallpaper request. Only a success
/// means the mapping was applied.
pub fn wallpaper_result(outcome: &ResponseOutcome) -> (r: WallpaperReply)
    ensures
        r == (match outcome@ {
            OutcomeView::Success(_) => WallpaperReply::Applied,
            OutcomeView::Cancelled => WallpaperReply::Declined,
            OutcomeView::Other(c) => WallpaperReply::Failed(c),
        }),
{
    match outcome {
        ResponseOutcome::Success(_) => WallpaperReply::Applied,
        ResponseOutcome::Cancelled => WallpaperReply::Declined,
        ResponseOutcome::Other(c) => WallpaperReply::Failed(*c),
    }
}

} // verus!
