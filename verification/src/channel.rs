//! The validated channel number: a page identifier clamped into the
//! service's fixed range.

use vstd::prelude::*;

verus! {

use crate::digits::three_digit_text;

/// The lowest valid page number of the service.
pub const MIN_PAGE: i32 = 100;

/// The highest valid page number of the service.
pub const MAX_PAGE: i32 = 801;

/// A step direction through the page range.
#[derive(Debug, Clone, Copy, PartialEq, Eq, Structural)]
pub enum PageDirection {
    Next,
    Prev,
}

/// True when `n` lies within the valid page range.
pub open spec fn in_range(n: int) -> bool {
    MIN_PAGE <= n <= MAX_PAGE
}

/// What construction does to a raw number: clamp it into the valid range.
pub open spec fn clamp_channel(n: int) -> int {
    if n < MIN_PAGE {
        MIN_PAGE as int
    } else if n > MAX_PAGE {
        MAX_PAGE as int
    } else {
        n
    }
}

/// A validated channel (page number), always within [`MIN_PAGE`, `MAX_PAGE`].
#[derive(Debug, Clone, Copy, PartialEq, Eq, PartialOrd, Ord, Structural)]
pub struct Channel(i32);

impl Channel {
    /// The page number a channel carries, as a mathematical integer.
    pub closed spec fn spec_number(self) -> int {
        self.0 as int
    }

    /// Every channel value ever constructed lies within the valid
    /// range; `use_type_invariant` recovers the fact from any channel.
    #[verifier::type_invariant]
    pub open spec fn inv(self) -> bool {
        in_range(self.spec_number())
    }

    /// Creates a new `Channel`, clamping the value into the allowed range.
    pub fn new(page: i32) -> (r: Self)
        ensures
            r.spec_number() == clamp_channel(page as int),
    {
        let v = if page < MIN_PAGE {
            MIN_PAGE
        } else if page > MAX_PAGE {
            MAX_PAGE
        } else {
            page
        };
        Self(v)
    }

    /// Returns the underlying page number.
    pub fn number(self) -> (r: i32)
        ensures
            r == self.spec_number(),
            in_range(r as int),
    {
        proof {
            use_type_invariant(self);
        }
        self.0
    }

    /// The page number as its three decimal digit characters.
    pub fn text(self) -> (r: String)
        ensures
            r@ == three_digit_text(self.spec_number()),
    {
        proof {
            use_type_invariant(self);
        }
        let digits = "0123456789";
        proof {
            reveal_strlit("0123456789");
        }
        let n = self.0;
        let h = (n / 100) as usize;
        let t = ((n / 10) % 10) as usize;
        let o = (n % 10) as usize;
        let mut r = String::new();
        r.append(digits.substring_char(h, h + 1));
        r.append(digits.substring_char(t, t + 1));
        r.append(digits.substring_char(o, o + 1));
        proof {
            assert(r@ =~= three_digit_text(self.spec_number()));
        }
        r
    }
}

/// Law: construction always lands in the valid range, and an in-range
/// input is kept exactly.
pub proof fn lemma_new_in_range(n: int)
    ensures
        in_range(clamp_channel(n)),
        in_range(n) ==> clamp_channel(n) == n,
{
}

} // verus!
