//! The window identifier resolver: an opaque string that lets the broker
//! anchor its dialog to the calling surface. Resolution is a pure
//! function of what is known about the surface; when nothing is known
//! (or the display handshake timed out), it degrades to the empty
//! identifier rather than failing.

use vstd::prelude::*;

verus! {

/// An opaque identifier of the calling surface; empty is valid and means
/// "no parent window hint".
#[derive(Debug, PartialEq, Eq)]
pub struct WindowIdentifier {
    id: String,
}

impl View for WindowIdentifier {
    type V = Seq<char>;

    closed spec fn view(&self) -> Seq<char> {
        self.id@
    }
}

impl Clone for WindowIdentifier {
    /// A clone names the same surface.
    fn clone(&self) -> (res: Self)
        ensures
            res@ == self@,
    {
        WindowIdentifier { id: self.id.clone() }
    }
}

impl Default for WindowIdentifier {
    /// The empty identifier: no parent window hint.
    fn default() -> (w: Self)
        ensures
            w@ == Seq::<char>::empty(),
    {
        WindowIdentifier { id: String::new() }
    }
}

impl WindowIdentifier {
    /// The serialized identifier handed to the broker.
    pub fn as_str(&self) -> (s: &str)
        ensures
            s@ == self@,
    {
        self.id.as_str()
    }
}

/// What is known about the calling surface when the identifier is
/// resolved. The display handshake that produces it is the caller's; by
/// the time it failed or timed out, the surface counts as unavailable.
#[derive(Debug)]
pub enum SurfaceInfo {
    /// A window on X11, named by its numeric window id.
    X11 { xid: u64 },
    /// A Wayland surface that was exported and answered with a handle.
    Wayland { handle: String },
    /// No usable surface metadata: resolve to the empty identifier.
    Unavailable,
}

/// The lowercase hexadecimal digit of one value below sixteen.
pub open spec fn hex_digit(d: nat) -> char {
    if d == 0 {
        '0'
    } else if d == 1 {
        '1'
    } else if d == 2 {
        '2'
    } else if d == 3 {
        '3'
    } else if d == 4 {
        '4'
    } else if d == 5 {
        '5'
    } else if d == 6 {
        '6'
    } else if d == 7 {
        '7'
    } else if d == 8 {
        '8'
    } else if d == 9 {
        '9'
    } else if d == 10 {
        'a'
    } else if d == 11 {
        'b'
    } else if d == 12 {
        'c'
    } else if d == 13 {
        'd'
    } else if d == 14 {
        'e'
    } else {
        'f'
    }
}

/// The lowercase hexadecimal rendering of a number, most significant
/// digit first, without leading zeroes (zero itself renders as "0").
pub open spec fn hex_of(n: nat) -> Seq<char>
    decreases n,
{
    if n < 16 {
        seq![hex_digit(n)]
    } else {
        hex_of(n / 16).push(hex_digit(n % 16))
    }
}

/// One hexadecimal digit as a string slice.
fn hex_digit_str(d: u64) -> (r: &'static str)
    requires
        d < 16,
    ensures
        r@ == seq![hex_digit(d as nat)],
{
    proof {
        reveal_strlit("0");
        reveal_strlit("1");
        reveal_strlit("2");
        reveal_strlit("3");
        reveal_strlit("4");
        reveal_strlit("5");
        reveal_strlit("6");
        reveal_strlit("7");
        reveal_strlit("8");
        reveal_strlit("9");
        reveal_strlit("a");
        reveal_strlit("b");
        reveal_strlit("c");
        reveal_strlit("d");
        reveal_strlit("e");
        reveal_strlit("f");
    }
    let r = match d {
        0 => "0",
        1 => "1",
        2 => "2",
        3 => "3",
        4 => "4",
        5 => "5",
        6 => "6",
        7 => "7",
        8 => "8",
        9 => "9",
        10 => "a",
        11 => "b",
        12 => "c",
        13 => "d",
        14 => "e",
        _ => "f",
    };
    proof {
        assert(r@ =~= seq![hex_digit(d as nat)]);
    }
    r
}

/// Renders a number in lowercase hexadecimal.
fn hex_string(n: u64) -> (s: String)
    ensures
        s@ == hex_of(n as nat),
    decreases n,
{
    if n < 16 {
        hex_digit_str(n).to_owned()
    } else {
        let mut s = hex_string(n / 16);
        s.append(hex_digit_str(n % 16));
        proof {
            assert(hex_of((n / 16) as nat) + seq![hex_digit((n % 16) as nat)] =~= hex_of(
                (n / 16) as nat,
            ).push(hex_digit((n % 16) as nat)));
        }
        s
    }
}

/// The identifier a surface resolves to: X11 windows render as
/// "x11:" and the window id in hexadecimal, exported Wayland surfaces as
/// "wayland:" and their handle, and an unavailable surface as the empty
/// identifier.
pub open spec fn resolve_view(s: SurfaceInfo) -> Seq<char> {
    match s {
        SurfaceInfo::X11 { xid } => "x11:0x"@ + hex_of(xid as nat),
        SurfaceInfo::Wayland { handle } => "wayland:"@ + handle@,
        SurfaceInfo::Unavailable => Seq::empty(),
    }
}

/// Resolves the calling surface to its identifier. Deterministic in the
/// surface state, and total: an unavailable surface degrades to the
/// empty identifier, it never fails.
pub fn resolve(surface: &SurfaceInfo) -> (w: WindowIdentifier)
    ensures
        w@ == resolve_view(*surface),
{
    match surface {
        SurfaceInfo::X11 { xid } => {
            let mut id = "x11:0x".to_owned();
            let digits = hex_string(*xid);
            id.append(digits.as_str());
            WindowIdentifier { id }
        },
        SurfaceInfo::Wayland { handle } => {
            let mut id = "wayland:".to_owned();
            id.append(handle.as_str());
            WindowIdentifier { id }
        },
        SurfaceInfo::Unavailable => WindowIdentifier { id: String::new() },
    }
}

} // verus!
