//! Splitting a combined `host:port` text.

use crate::error::ParseError;
use crate::port::port_number;
use vstd::prelude::*;

verus! {

/// The character that parts the host from the port.
pub const SEPARATOR: char = ':';

/// The position of the rightmost `:` of `text`, if it holds one.
pub open spec fn separator(text: Seq<char>) -> Option<int>
    decreases text.len(),
{
    if text.len() == 0 {
        None
    } else if text.last() == SEPARATOR {
        Some(text.len() - 1)
    } else {
        separator(text.drop_last())
    }
}

/// Whether a `:` stands at position `at` of `text` and none stands to its right.
pub open spec fn is_last_separator(text: Seq<char>, at: int) -> bool {
    &&& 0 <= at < text.len()
    &&& text[at] == SEPARATOR
    &&& !text.skip(at + 1).contains(SEPARATOR)
}

/// What a combined text is read as: the host is everything before the rightmost `:`,
/// kept as written, and the port is what follows it. A text without a `:` is refused,
/// and so is one whose last part is not a port number; nothing else is.
pub open spec fn parse_address(text: Seq<char>) -> Result<(Seq<char>, u16), ParseError> {
    match separator(text) {
        None => Err(ParseError::MissingSeparator),
        Some(at) => match port_number(text.skip(at + 1)) {
            None => Err(ParseError::InvalidPort),
            Some(port) => Ok((text.take(at), port)),
        },
    }
}

/// `separator` finds a `:` exactly when there is one, and the one it finds has no other
/// to its right.
pub proof fn lemma_separator_is_rightmost(text: Seq<char>)
    ensures
        separator(text) is None <==> !text.contains(SEPARATOR),
        separator(text) matches Some(at) ==> is_last_separator(text, at),
    decreases text.len(),
{
    if text.len() == 0 {
    } else if text.last() == SEPARATOR {
        assert(text[text.len() - 1] == SEPARATOR);
        assert(text.skip(text.len() as int) =~= Seq::<char>::empty());
    } else {
        let front = text.drop_last();
        lemma_separator_is_rightmost(front);
        if front.contains(SEPARATOR) {
            let k = choose|k: int| 0 <= k < front.len() && front[k] == SEPARATOR;
            assert(text[k] == SEPARATOR);
        }
        if text.contains(SEPARATOR) {
            let k = choose|k: int| 0 <= k < text.len() && text[k] == SEPARATOR;
            assert(front[k] == SEPARATOR);
        }
        if let Some(at) = separator(text) {
            let tail = text.skip(at + 1);
            if tail.contains(SEPARATOR) {
                let k = choose|k: int| 0 <= k < tail.len() && tail[k] == SEPARATOR;
                assert(k < tail.len() - 1);
                assert(front.skip(at + 1)[k] == SEPARATOR);
            }
        }
    }
}

/// A `:` with none to its right is the one that `separator` finds.
pub proof fn lemma_separator_found(text: Seq<char>, at: int)
    requires
        is_last_separator(text, at),
    ensures
        separator(text) == Some(at),
    decreases text.len(),
{
    if at == text.len() - 1 {
    } else {
        let tail = text.skip(at + 1);
        assert(tail[tail.len() - 1] == text.last());
        let front = text.drop_last();
        assert(front.skip(at + 1) =~= tail.drop_last());
        let inner = front.skip(at + 1);
        if inner.contains(SEPARATOR) {
            let k = choose|k: int| 0 <= k < inner.len() && inner[k] == SEPARATOR;
            assert(tail[k] == SEPARATOR);
        }
        lemma_separator_found(front, at);
    }
}

/// The characters of `s`, in order.
pub fn chars_of(s: &str) -> (chars: Vec<char>)
    ensures
        chars@ == s@,
{
    let mut chars: Vec<char> = Vec::new();
    for c in rest: s.chars()
        invariant
            rest.seq() == s@,
            chars@ == s@.take(rest.index()),
    {
        chars.push(c);
    }
    assert(s@.take(s@.len() as int) =~= s@);
    chars
}

/// Finds the rightmost `:` of `text`.
pub fn find_separator(text: &[char]) -> (at: Option<usize>)
    ensures
        match at {
            Some(i) => i < text@.len() && separator(text@) == Some(i as int),
            None => separator(text@) is None,
        },
{
    let mut end: usize = text.len();
    assert(text@.take(end as int) =~= text@);
    while end > 0
        invariant
            end <= text@.len(),
            separator(text@) == separator(text@.take(end as int)),
        decreases end,
    {
        let ghost seen = text@.take(end as int);
        if text[end - 1] == SEPARATOR {
            assert(seen.last() == SEPARATOR);
            return Some(end - 1);
        }
        assert(seen.drop_last() =~= text@.take(end - 1));
        end = end - 1;
    }
    assert(text@.take(0) =~= Seq::<char>::empty());
    None
}

} // verus!
