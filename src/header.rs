//! Header values as text: which bytes a header value may carry, and when a
//! stored validator can be sent back.
use vstd::prelude::*;

verus! {

/// A byte that reads as text in a header value: visible ASCII or a tab.
pub open spec fn is_visible_ascii(b: u8) -> bool {
    (32 <= b && b < 127) || b == 9
}

/// A character that a header value may hold: anything but a control
/// character other than the tab, and DEL.
pub open spec fn is_header_char(c: char) -> bool {
    c == '\t' || (' ' <= c && c != '\x7f')
}

/// The text of a header value, when every byte of it is visible ASCII.
pub open spec fn header_text_of(v: Seq<u8>) -> Option<Seq<char>> {
    if forall|i: int| 0 <= i < v.len() ==> is_visible_ascii(#[trigger] v[i]) {
        Some(v.map_values(|b: u8| b as char))
    } else {
        None
    }
}

/// Relies on `String::push`, which appends one character at the end.
#[verifier::external_body]
pub(crate) fn push_char(s: &mut String, c: char)
    ensures
        final(s)@ == old(s)@.push(c),
{
    s.push(c)
}

/// Reads a header value as text. A value with a byte that is not visible
/// ASCII has no text, and the header counts as absent.
pub fn header_text(v: &[u8]) -> (r: Option<String>)
    ensures
        r.is_some() == header_text_of(v@).is_some(),
        r.is_some() ==> r.unwrap()@ == header_text_of(v@).unwrap(),
{
    let mut s = String::new();
    let mut i: usize = 0;
    while i < v.len()
        invariant
            0 <= i <= v@.len(),
            forall|j: int| 0 <= j < i ==> is_visible_ascii(#[trigger] v@[j]),
            s@ =~= v@.subrange(0, i as int).map_values(|b: u8| b as char),
        decreases v@.len() - i,
    {
        let b = v[i];
        if !((32 <= b && b < 127) || b == 9) {
            return None;
        }
        push_char(&mut s, b as char);
        i = i + 1;
    }
    assert(v@.subrange(0, v@.len() as int) =~= v@);
    Some(s)
}

/// What an optional header reads as: its text, or nothing when it is absent
/// or unreadable.
pub open spec fn optional_text_of(v: Option<&[u8]>) -> Option<Seq<char>> {
    match v {
        Some(b) => header_text_of(b@),
        None => None,
    }
}

/// Reads an optional header as text; an unreadable value counts as absent.
pub fn optional_header_text(v: Option<&[u8]>) -> (r: Option<String>)
    ensures
        r.is_some() == optional_text_of(v).is_some(),
        r.is_some() ==> r.unwrap()@ == optional_text_of(v).unwrap(),
{
    match v {
        Some(b) => header_text(b),
        None => None,
    }
}

/// Whether `s` may be sent as a header value.
pub open spec fn is_header_value(s: Seq<char>) -> bool {
    forall|i: int| 0 <= i < s.len() ==> is_header_char(#[trigger] s[i])
}

/// Tells whether `s` may be sent as a header value.
pub fn header_value_ok(s: &str) -> (r: bool)
    ensures
        r == is_header_value(s@),
{
    let n = s.unicode_len();
    let mut i: usize = 0;
    while i < n
        invariant
            n == s@.len(),
            0 <= i <= n,
            forall|j: int| 0 <= j < i ==> is_header_char(#[trigger] s@[j]),
        decreases n - i,
    {
        let c = s.get_char(i);
        if !(c == '\t' || (' ' <= c && c != '\x7f')) {
            return false;
        }
        i = i + 1;
    }
    true
}

} // verus!
