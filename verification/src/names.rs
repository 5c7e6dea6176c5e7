//! Validity of the bus protocol's addressing strings.
//!
//! A proxy is addressed by a destination bus name and an object path, and a
//! method call also names an interface and a member. The transport crate
//! validates each such string and panics on an invalid one, so every place
//! that hands one to the transport requires validity. The rules below
//! restate the transport's own validators at the character level; they
//! admit only ASCII characters, for which the byte sequence the transport
//! checks is the character sequence itself. The one such string that
//! arrives from outside — the object path the daemon returns — is checked
//! at run time with the verified validator.
use vstd::prelude::*;

verus! {

/// A character allowed anywhere in a name element: a letter, a digit or
/// an underscore.
pub open spec fn name_char(c: char) -> bool {
    ||| 65 <= c as u32 <= 90  // 'A'..'Z'
    ||| 97 <= c as u32 <= 122  // 'a'..'z'
    ||| 48 <= c as u32 <= 57  // '0'..'9'
    ||| c as u32 == 95  // '_'
}

/// A character allowed at the start of a name element: a letter or an
/// underscore, never a digit.
pub open spec fn initial_name_char(c: char) -> bool {
    ||| 65 <= c as u32 <= 90
    ||| 97 <= c as u32 <= 122
    ||| c as u32 == 95
}

/// A character allowed in a bus-name element: a name character or a
/// hyphen.
pub open spec fn bus_name_char(c: char) -> bool {
    name_char(c) || c as u32 == 45  // '-'
}

/// A character allowed at the start of a bus-name element.
pub open spec fn initial_bus_name_char(c: char) -> bool {
    initial_name_char(c) || c as u32 == 45
}

/// A syntactically valid object path: it begins with a slash, its
/// elements hold only name characters, no element is empty, and it does
/// not end with a slash unless it is the root path alone.
pub open spec fn valid_object_path(s: Seq<char>) -> bool {
    &&& s.len() >= 1
    &&& s[0] == '/'
    &&& forall|i: int|
        1 <= i < s.len() ==> (name_char(#[trigger] s[i]) || (s[i] == '/' && s[i - 1] != '/'))
    &&& (s.len() == 1 || s[s.len() - 1] != '/')
}

/// A syntactically valid well-known bus name: dot-separated elements of
/// bus-name characters, each element starting with an initial character,
/// at least two elements, at most 255 characters.
pub open spec fn valid_bus_name(s: Seq<char>) -> bool {
    &&& 1 <= s.len() <= 255
    &&& initial_bus_name_char(s[0])
    &&& forall|i: int|
        1 <= i < s.len() ==> (bus_name_char(#[trigger] s[i]) || (s[i] == '.' && i + 1 < s.len()
            && initial_bus_name_char(s[i + 1])))
    &&& exists|i: int| 0 <= i < s.len() && s[i] == '.'
}

/// A syntactically valid interface name: dot-separated elements of name
/// characters, each element starting with an initial character, at least
/// two elements, at most 255 characters.
pub open spec fn valid_interface_name(s: Seq<char>) -> bool {
    &&& 1 <= s.len() <= 255
    &&& initial_name_char(s[0])
    &&& forall|i: int|
        1 <= i < s.len() ==> (name_char(#[trigger] s[i]) || (s[i] == '.' && i + 1 < s.len()
            && initial_name_char(s[i + 1])))
    &&& exists|i: int| 0 <= i < s.len() && s[i] == '.'
}

/// A syntactically valid member name: name characters only, not starting
/// with a digit, at most 255 characters.
pub open spec fn valid_member_name(s: Seq<char>) -> bool {
    &&& 1 <= s.len() <= 255
    &&& initial_name_char(s[0])
    &&& forall|i: int| 1 <= i < s.len() ==> name_char(#[trigger] s[i])
}

/// Whether the character may stand in a name element.
pub fn is_name_char(c: char) -> (b: bool)
    ensures
        b == name_char(c),
{
    let u = c as u32;
    (65 <= u && u <= 90) || (97 <= u && u <= 122) || (48 <= u && u <= 57) || u == 95
}

/// Whether the string is a syntactically valid object path.
///
/// This is the run-time gate for paths that arrive from outside: the
/// gateway accepts an object path from the daemon only after this check,
/// so the transport's own validation can never fail on it afterwards.
pub fn is_valid_object_path(s: &str) -> (b: bool)
    ensures
        b == valid_object_path(s@),
{
    let n: usize = s.unicode_len();
    if n == 0 {
        return false;
    }
    if s.get_char(0) != '/' {
        return false;
    }
    if n > 1 && s.get_char(n - 1) == '/' {
        return false;
    }
    let mut i: usize = 1;
    while i < n
        invariant
            1 <= i <= n,
            n == s@.len(),
            s@[0] == '/',
            n == 1 || s@[n - 1] != '/',
            forall|k: int|
                1 <= k < i ==> (name_char(#[trigger] s@[k]) || (s@[k] == '/' && s@[k - 1] != '/')),
        decreases n - i,
    {
        let c = s.get_char(i);
        let p = s.get_char(i - 1);
        if !(is_name_char(c) || (c == '/' && p != '/')) {
            assert(!(name_char(s@[i as int]) || (s@[i as int] == '/' && s@[i as int - 1] != '/')));
            return false;
        }
        i = i + 1;
    }
    true
}

} // verus!
