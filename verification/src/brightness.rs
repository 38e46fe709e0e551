//! The display brightness setting and its command-line surface: five named
//! levels, matched case-insensitively; anything else is a configuration
//! error.

use vstd::prelude::*;

use crate::errors::{Error, ErrorV};

verus! {

/// A display brightness level; the process edge maps it onto the transport's
/// own setting.
#[derive(Debug, Clone, Copy, PartialEq, Eq, Structural)]
pub enum Brightness {
    /// The brightest setting.
    Brightest,
    /// A bright setting.
    Bright,
    /// The default setting.
    Normal,
    /// A dim setting.
    Dim,
    /// The dimmest setting.
    Dimmest,
}

/// The code point of `c` with an ASCII capital letter folded to lower case.
pub open spec fn spec_lower_code(c: char) -> u32 {
    if 65 <= c as u32 <= 90 {
        (c as u32 + 32) as u32
    } else {
        c as u32
    }
}

/// Whether two character runs are equal once ASCII capitals are folded to
/// lower case.
pub open spec fn spec_lower_eq(s: Seq<char>, t: Seq<char>) -> bool {
    s.len() == t.len() && forall|i: int|
        0 <= i < s.len() ==> spec_lower_code(s[i]) == spec_lower_code(t[i])
}

/// The brightness level a word names, if any: the five level names, matched
/// with ASCII capitals folded.
pub open spec fn spec_parse_brightness(s: Seq<char>) -> Option<Brightness> {
    if spec_lower_eq(s, "brightest"@) {
        Some(Brightness::Brightest)
    } else if spec_lower_eq(s, "bright"@) {
        Some(Brightness::Bright)
    } else if spec_lower_eq(s, "normal"@) {
        Some(Brightness::Normal)
    } else if spec_lower_eq(s, "dim"@) {
        Some(Brightness::Dim)
    } else if spec_lower_eq(s, "dimmest"@) {
        Some(Brightness::Dimmest)
    } else {
        None
    }
}

/// Whether `s` and `t` are equal with ASCII capitals folded to lower case.
fn eq_ignore_ascii_case(s: &str, t: &str) -> (r: bool)
    ensures
        r == spec_lower_eq(s@, t@),
{
    let n = s.unicode_len();
    if n != t.unicode_len() {
        return false;
    }
    let mut i: usize = 0;
    while i < n
        invariant
            i <= n,
            n == s@.len(),
            n == t@.len(),
            forall|j: int| 0 <= j < i ==> spec_lower_code(s@[j]) == spec_lower_code(t@[j]),
        decreases n - i,
    {
        let a = s.get_char(i) as u32;
        let b = t.get_char(i) as u32;
        let la = if a >= 65 && a <= 90 {
            a + 32
        } else {
            a
        };
        let lb = if b >= 65 && b <= 90 {
            b + 32
        } else {
            b
        };
        if la != lb {
            return false;
        }
        i = i + 1;
    }
    true
}

/// Reads a brightness word from the command line: one of the five level
/// names, capitals folded; any other word is a configuration error naming
/// itself.
pub fn parse_brightness(value: &str) -> (r: Result<Brightness, Error>)
    ensures
        match r {
            Ok(b) => spec_parse_brightness(value@) == Some(b),
            Err(e) => {
                &&& spec_parse_brightness(value@) is None
                &&& e@ == ErrorV::Message(value@.add(" is not a known brightness"@))
            },
        },
{
    if eq_ignore_ascii_case(value, "brightest") {
        Ok(Brightness::Brightest)
    } else if eq_ignore_ascii_case(value, "bright") {
        Ok(Brightness::Bright)
    } else if eq_ignore_ascii_case(value, "normal") {
        Ok(Brightness::Normal)
    } else if eq_ignore_ascii_case(value, "dim") {
        Ok(Brightness::Dim)
    } else if eq_ignore_ascii_case(value, "dimmest") {
        Ok(Brightness::Dimmest)
    } else {
        Err(Error::Message(value.to_owned().concat(" is not a known brightness")))
    }
}

} // verus!
