//! Navigation resolution: the channel one step lands on, from an
//! optional marker hint with an arithmetic fallback, always clamped.

use vstd::prelude::*;

verus! {

use crate::channel::Channel;
use crate::channel::PageDirection;
use crate::channel::clamp_channel;
use crate::channel::in_range;
use crate::channel::MAX_PAGE;
use crate::channel::MIN_PAGE;
use crate::digits::parse_i32;
use crate::digits::parse_channel_number;

/// The last `/`-separated segment of a reference: everything after the
/// final slash, or the whole text when it holds no slash.
pub open spec fn trailing_segment(s: Seq<char>) -> Seq<char>
    decreases s.len(),
{
    if s.len() == 0 {
        Seq::empty()
    } else if s.last() == '/' {
        Seq::empty()
    } else {
        trailing_segment(s.drop_last()).push(s.last())
    }
}

/// The arithmetic neighbour used when no usable hint is present.
pub open spec fn fallback(current: int, direction: PageDirection) -> int {
    match direction {
        PageDirection::Next => current + 1,
        PageDirection::Prev => current - 1,
    }
}

/// The view of an optional hint reference.
pub open spec fn hint_view(hint: Option<&str>) -> Option<Seq<char>> {
    match hint {
        Some(h) => Some(h@),
        None => None,
    }
}

/// The view of an optional owned hint.
pub open spec fn owned_hint_view(hint: Option<String>) -> Option<Seq<char>> {
    match hint {
        Some(h) => Some(h@),
        None => None,
    }
}

/// The channel number one navigation step lands on: the hint's
/// trailing segment when it parses as an `i32`, otherwise the
/// arithmetic neighbour; in either case clamped into the valid range.
pub open spec fn resolve_spec(hint: Option<Seq<char>>, current: int, direction: PageDirection) -> int {
    let raw = match hint {
        Some(h) => match parse_i32(trailing_segment(h)) {
            Some(v) => v,
            None => fallback(current, direction),
        },
        None => fallback(current, direction),
    };
    clamp_channel(raw)
}

/// A trailing segment that ends at a slash and holds none after it is
/// exactly the text after that slash.
proof fn lemma_trailing_segment_after(s: Seq<char>, cut: int)
    requires
        0 <= cut <= s.len(),
        cut > 0 ==> s[cut - 1] == '/',
        forall|j: int| cut <= j < s.len() ==> s[j] != '/',
    ensures
        trailing_segment(s) == s.subrange(cut, s.len() as int),
    decreases s.len(),
{
    if s.len() == 0 {
        assert(s.subrange(cut, 0) =~= Seq::empty());
    } else if cut == s.len() {
        assert(s.last() == '/');
        assert(s.subrange(cut, s.len() as int) =~= Seq::empty());
    } else {
        assert(s.last() != '/');
        lemma_trailing_segment_after(s.drop_last(), cut);
        assert(s.drop_last().subrange(cut, s.len() - 1) =~= s.subrange(cut, s.len() - 1));
        assert(s.subrange(cut, s.len() - 1).push(s.last()) =~= s.subrange(cut, s.len() as int));
    }
}

/// Returns the text after the last slash (the whole text when there is
/// no slash).
pub fn last_segment<'a>(s: &'a str) -> (r: &'a str)
    ensures
        r@ == trailing_segment(s@),
{
    let len = s.unicode_len();
    let mut cut: usize = 0;
    let mut i: usize = 0;
    while i < len
        invariant
            s@.len() == len,
            0 <= cut <= i <= len,
            cut > 0 ==> s@[cut - 1] == '/',
            forall|j: int| cut <= j < i ==> s@[j] != '/',
        decreases len - i,
    {
        if s.get_char(i) == '/' {
            cut = i + 1;
        }
        i += 1;
    }
    proof {
        lemma_trailing_segment_after(s@, cut as int);
    }
    s.substring_char(cut, len)
}

/// Resolves one navigation step: prefers the hint's trailing numeric
/// segment, falls back to the arithmetic neighbour, and always clamps
/// the outcome into the valid range.
pub fn resolve(hint: Option<&str>, current: Channel, direction: PageDirection) -> (r: Channel)
    ensures
        r.spec_number() == resolve_spec(hint_view(hint), current.spec_number(), direction),
{
    let n = current.number();
    let fb = match direction {
        PageDirection::Next => n + 1,
        PageDirection::Prev => n - 1,
    };
    let raw = match hint {
        Some(h) => {
            let seg = last_segment(h);
            match parse_channel_number(seg) {
                Some(v) => v,
                None => fb,
            }
        },
        None => fb,
    };
    Channel::new(raw)
}

/// Law: a hint whose trailing segment denotes `v` resolves to the
/// clamped `v` alone; the current channel and the direction play no
/// part in the outcome.
pub proof fn lemma_hint_determines_result(h: Seq<char>, v: int, current: int, d: PageDirection)
    requires
        parse_i32(trailing_segment(h)) == Some(v),
    ensures
        resolve_spec(Some(h), current, d) == clamp_channel(v),
{
}

/// Law: without a hint the step lands on the clamped arithmetic
/// neighbour: one up for forward, one down for backward.
pub proof fn lemma_fallback_step(current: int)
    ensures
        resolve_spec(None, current, PageDirection::Next) == clamp_channel(current + 1),
        resolve_spec(None, current, PageDirection::Prev) == clamp_channel(current - 1),
{
}

/// Law: whatever the hint and the current channel, a resolved step
/// lands inside the valid range; at its edges a hintless step stays
/// put.
pub proof fn lemma_resolve_in_range(hint: Option<Seq<char>>, current: int, d: PageDirection)
    ensures
        in_range(resolve_spec(hint, current, d)),
        resolve_spec(None, MAX_PAGE as int, PageDirection::Next) == MAX_PAGE as int,
        resolve_spec(None, MIN_PAGE as int, PageDirection::Prev) == MIN_PAGE as int,
{
}

} // verus!
