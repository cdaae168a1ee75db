//! The window directory: point-in-time snapshots of native top-level
//! windows, the title query used to pick the target window, and the
//! filtering heuristics that decide which enumerated windows are worth
//! listing at all.

use vstd::prelude::*;

use crate::text::{chars_of, contains_seq, str_contains, str_eq};

verus! {

/// A point-in-time snapshot of one native top-level window, taken at
/// enumeration time.  It is a copy, not a live view: callers must
/// re-enumerate to observe changes.  Geometry comes from the extended
/// frame bounds, so drop-shadow padding is excluded.
#[derive(Debug)]
pub struct Window {
    pub title: String,
    pub x: i32,
    pub y: i32,
    pub width: u32,
    pub height: u32,
    pub is_active: bool,
}

impl Clone for Window {
    fn clone(&self) -> (r: Self)
        ensures
            r.title@ == self.title@,
            r.x == self.x,
            r.y == self.y,
            r.width == self.width,
            r.height == self.height,
            r.is_active == self.is_active,
    {
        Window {
            title: self.title.clone(),
            x: self.x,
            y: self.y,
            width: self.width,
            height: self.height,
            is_active: self.is_active,
        }
    }
}

impl Window {
    /// The window title.
    pub fn title(&self) -> (r: &String)
        ensures
            r@ == self.title@,
    {
        &self.title
    }

    /// The window x coordinate.
    pub fn x(&self) -> (r: i32)
        ensures
            r == self.x,
    {
        self.x
    }

    /// The window y coordinate.
    pub fn y(&self) -> (r: i32)
        ensures
            r == self.y,
    {
        self.y
    }

    /// The window pixel width.
    pub fn width(&self) -> (r: u32)
        ensures
            r == self.width,
    {
        self.width
    }

    /// The window pixel height.
    pub fn height(&self) -> (r: u32)
        ensures
            r == self.height,
    {
        self.height
    }

    /// Whether the window was the foreground window at enumeration
    /// time.
    pub fn is_active(&self) -> (r: bool)
        ensures
            r == self.is_active,
    {
        self.is_active
    }
}

/// Two snapshots describe the same window state.
pub open spec fn window_like(a: Window, b: Window) -> bool {
    &&& a.title@ == b.title@
    &&& a.x == b.x
    &&& a.y == b.y
    &&& a.width == b.width
    &&& a.height == b.height
    &&& a.is_active == b.is_active
}

/// Picks the first enumerated window whose title contains the query
/// substring.  `None` is the normal, expected outcome when no title
/// matches — it is not an error.  The tie-break among several matches
/// is enumeration order, which the platform defines.
pub fn get_window(windows: &Vec<Window>, title: &str) -> (r: Option<Window>)
    ensures
        r is None <==> (forall|i: int|
            0 <= i < windows@.len() ==> !contains_seq((#[trigger] windows@[i]).title@, title@)),
        r matches Some(w) ==> exists|i: int|
            {
                &&& 0 <= i < windows@.len()
                &&& contains_seq((#[trigger] windows@[i]).title@, title@)
                &&& window_like(w, windows@[i])
                &&& forall|j: int| 0 <= j < i ==> !contains_seq((#[trigger] windows@[j]).title@, title@)
            },
{
    let n = windows.len();
    for i in 0..n
        invariant
            n == windows@.len(),
            forall|j: int| 0 <= j < i ==> !contains_seq((#[trigger] windows@[j]).title@, title@),
    {
        if str_contains(windows[i].title.as_str(), title) {
            return Some(windows[i].clone());
        }
    }
    None
}

/// Everything the enumeration callback reads about one native window
/// before deciding whether to list it, gathered into plain values.
#[derive(Debug)]
pub struct WindowFacts {
    /// The handle still names a window.
    pub is_window: bool,
    pub is_visible: bool,
    /// The window class name; empty when it could not be read.
    pub class_name: String,
    /// The window title; empty when it could not be read.
    pub title: String,
    /// The window carries the tool-window style.
    pub is_tool_window: bool,
    /// The id of the process owning the window.
    pub process_id: u32,
    /// The id of the process doing the enumeration.
    pub own_process_id: u32,
    /// Hidden by the OS (for example on another virtual desktop).
    pub is_cloaked: bool,
    /// The extended frame bounds could be read.
    pub has_frame_bounds: bool,
    /// The extended frame bounds are an empty rectangle.
    pub frame_bounds_empty: bool,
}

/// The filtering heuristic over the gathered facts: visible real
/// windows only, with a readable class name; tool windows only for the
/// taskbar class or when titled; never the enumerating process itself
/// (reading titles of own windows can deadlock against the caller's
/// message loop); never desktop-shell placeholders, cloaked windows,
/// or windows with no usable frame bounds.
pub open spec fn spec_valid_window(f: WindowFacts) -> bool {
    &&& f.is_window
    &&& f.is_visible
    &&& f.class_name@.len() > 0
    &&& (f.is_tool_window ==> f.class_name@ == "Shell_TrayWnd"@ || f.title@.len() > 0)
    &&& f.process_id != f.own_process_id
    &&& f.class_name@ != "Progman"@
    &&& f.class_name@ != "Button"@
    &&& !f.is_cloaked
    &&& f.has_frame_bounds
    &&& !f.frame_bounds_empty
}

/// Decides whether an enumerated window is listed.
pub fn is_valid_window(f: &WindowFacts) -> (r: bool)
    ensures
        r == spec_valid_window(*f),
{
    if !f.is_window || !f.is_visible {
        return false;
    }
    if f.class_name.as_str().is_empty() {
        return false;
    }
    if f.is_tool_window {
        let is_tray = str_eq(f.class_name.as_str(), "Shell_TrayWnd");
        if !is_tray && f.title.as_str().is_empty() {
            return false;
        }
    }
    if f.process_id == f.own_process_id {
        return false;
    }
    if str_eq(f.class_name.as_str(), "Progman") {
        return false;
    }
    if str_eq(f.class_name.as_str(), "Button") {
        return false;
    }
    if f.is_cloaked {
        return false;
    }
    if !f.has_frame_bounds {
        return false;
    }
    if f.frame_bounds_empty {
        return false;
    }
    true
}

/// What UTF-16 code units decode to, or nothing when they are not
/// well-formed UTF-16.  A function of the code units alone.
pub uninterp spec fn utf16_decoded(units: Seq<u16>) -> Option<Seq<char>>;

/// Relies on `String::from_utf16`: the decode is a function of the
/// code units alone and fails exactly on ill-formed UTF-16.
#[verifier::external_body]
fn string_from_utf16(units: &[u16]) -> (r: Option<String>)
    ensures
        r is Some <==> utf16_decoded(units@) is Some,
        r matches Some(s) ==> utf16_decoded(units@) == Some(s@),
{
    String::from_utf16(units).ok()
}

/// Decodes a native wide string, stopping at the first nul terminator
/// when one is present; ill-formed UTF-16 is reported as `None`.
pub fn wide_string_to_string(wide_string: &[u16]) -> (r: Option<String>)
    ensures
        ({
            let cut = if exists|i: int| 0 <= i < wide_string@.len() && wide_string@[i] == 0 {
                let first = choose|i: int|
                    0 <= i < wide_string@.len() && wide_string@[i] == 0 && (forall|j: int|
                        0 <= j < i ==> wide_string@[j] != 0);
                wide_string@.subrange(0, first)
            } else {
                wide_string@
            };
            &&& (r is Some <==> utf16_decoded(cut) is Some)
            &&& (r matches Some(s) ==> utf16_decoded(cut) == Some(s@))
        }),
{
    let n = wide_string.len();
    let mut nul: Option<usize> = None;
    for i in 0..n
        invariant
            n == wide_string@.len(),
            nul is None ==> forall|j: int| 0 <= j < i ==> wide_string@[j] != 0,
            nul matches Some(p) ==> 0 <= p < i && wide_string@[p as int] == 0 && (forall|j: int|
                0 <= j < p ==> wide_string@[j] != 0),
        decreases n - i,
    {
        if nul.is_none() && wide_string[i] == 0 {
            nul = Some(i);
        }
    }
    match nul {
        Some(p) => {
            proof {
                let first = choose|i: int|
                    0 <= i < wide_string@.len() && wide_string@[i] == 0 && (forall|j: int|
                        0 <= j < i ==> wide_string@[j] != 0);
                assert(first == p as int);
            }
            string_from_utf16(&wide_string[0..p])
        },
        None => string_from_utf16(wide_string),
    }
}

/// The leading token of a character sequence: everything before the
/// first space.
pub open spec fn leading_token(s: Seq<char>) -> Seq<char>
    decreases s.len(),
{
    if s.len() == 0 {
        Seq::empty()
    } else if s[0] == ' ' {
        Seq::empty()
    } else {
        seq![s[0]] + leading_token(s.drop_first())
    }
}

pub open spec fn is_decimal_digit(c: char) -> bool {
    48 <= c as u32 <= 57
}

pub open spec fn all_decimal_digits(s: Seq<char>) -> bool {
    forall|i: int| 0 <= i < s.len() ==> is_decimal_digit(#[trigger] s[i])
}

/// The value of a run of decimal digits, most significant first.
pub open spec fn decimal_value(s: Seq<char>) -> int
    decreases s.len(),
{
    if s.len() == 0 {
        0
    } else {
        decimal_value(s.drop_last()) * 10 + (s.last() as u32 - 48)
    }
}

/// A prefix of a digit run is worth no more than the whole run.
proof fn lemma_decimal_prefix_le(s: Seq<char>, k: int)
    requires
        0 <= k <= s.len(),
        all_decimal_digits(s),
    ensures
        decimal_value(s.subrange(0, k)) <= decimal_value(s),
    decreases s.len() - k,
{
    if k == s.len() {
        assert(s.subrange(0, k) =~= s);
    } else {
        let shorter = s.subrange(0, k);
        let longer = s.subrange(0, k + 1);
        assert(longer.drop_last() =~= shorter);
        assert(longer.last() == s[k]);
        assert(decimal_value(shorter) <= decimal_value(longer)) by {
            assert(decimal_value(longer) == decimal_value(shorter) * 10 + (s[k] as u32 - 48));
            assert(decimal_value(shorter) >= 0) by {
                lemma_decimal_value_nonneg(shorter);
            }
        }
        lemma_decimal_prefix_le(s, k + 1);
    }
}

proof fn lemma_decimal_value_nonneg(s: Seq<char>)
    requires
        all_decimal_digits(s),
    ensures
        decimal_value(s) >= 0,
    decreases s.len(),
{
    if s.len() > 0 {
        assert(all_decimal_digits(s.drop_last()));
        lemma_decimal_value_nonneg(s.drop_last());
    }
}

/// Reads the major version out of an OS version string: the token
/// before the first space, taken as a decimal number when it is a
/// nonempty run of digits that fits a byte, and zero otherwise.
pub fn parse_major_version(version: &str) -> (r: u8)
    ensures
        ({
            let tok = leading_token(version@);
            let ok = tok.len() > 0 && all_decimal_digits(tok) && decimal_value(tok) <= 255;
            &&& ok ==> r == decimal_value(tok)
            &&& !ok ==> r == 0
        }),
{
    let chars = chars_of(version);
    let n = chars.len();
    let mut token: Vec<char> = Vec::new();
    let mut i: usize = 0;
    proof {
        assert(chars@.subrange(0, n as int) =~= version@);
        assert(token@ + leading_token(version@) =~= leading_token(version@));
    }
    while i < n
        invariant
            n == chars@.len(),
            chars@ == version@,
            i <= n,
            leading_token(version@) == token@ + leading_token(
                chars@.subrange(i as int, n as int),
            ),
        ensures
            token@ == leading_token(version@),
        decreases n - i,
    {
        proof {
            let rem = chars@.subrange(i as int, n as int);
            assert(rem[0] == chars@[i as int]);
            assert(rem.drop_first() =~= chars@.subrange(i as int + 1, n as int));
        }
        let c = chars[i];
        if c == ' ' {
            proof {
                assert(token@ + leading_token(chars@.subrange(i as int, n as int)) =~= token@);
            }
            break ;
        }
        let ghost old_token = token@;
        token.push(c);
        proof {
            let rest = leading_token(chars@.subrange(i as int + 1, n as int));
            assert(old_token + (seq![c] + rest) =~= token@ + rest);
        }
        i = i + 1;
        if i == n {
            proof {
                assert(chars@.subrange(n as int, n as int) =~= Seq::<char>::empty());
                assert(token@ + leading_token(chars@.subrange(n as int, n as int)) =~= token@);
            }
        }
    }
    let m = token.len();
    if m == 0 {
        return 0;
    }
    let mut acc: u32 = 0;
    for j in 0..m
        invariant
            m == token@.len(),
            token@ == leading_token(version@),
            forall|k: int| 0 <= k < j ==> is_decimal_digit(#[trigger] token@[k]),
            acc == decimal_value(token@.subrange(0, j as int)),
            acc <= 255,
    {
        let c = token[j];
        let d = c as u32;
        if d < 48 || d > 57 {
            return 0;
        }
        proof {
            assert(token@.subrange(0, j as int + 1).drop_last() =~= token@.subrange(0, j as int));
            assert(token@.subrange(0, j as int + 1).last() == token@[j as int]);
        }
        let v = acc * 10 + (d - 48);
        if v > 255 {
            proof {
                if all_decimal_digits(token@) {
                    lemma_decimal_prefix_le(token@, j as int + 1);
                }
            }
            return 0;
        }
        acc = v;
    }
    proof {
        assert(token@.subrange(0, m as int) =~= token@);
    }
    acc as u8
}

} // verus!
