//! The go-to prompt's editing state: which keys change it, and what
//! confirming yields.

use vstd::prelude::*;

verus! {

use crate::channel::clamp_channel;
use crate::channel::Channel;
use crate::digits::all_digits;
use crate::digits::digits_value;
use crate::digits::is_digit;
use crate::digits::lemma_digits_value_prefix;
use crate::digits::parse_i32;

/// The editing state of the go-to prompt: the digits typed so far.
/// Which keys change the state, and what confirming yields, is decided
/// here; reading keys and echoing them is the caller's business.
pub struct GotoPrompt {
    digits: Vec<char>,
}

impl GotoPrompt {
    /// The digits typed so far.
    pub closed spec fn spec_digits(self) -> Seq<char> {
        self.digits@
    }

    /// Only digit characters are ever held.
    pub open spec fn wf(self) -> bool {
        all_digits(self.spec_digits())
    }

    /// An empty prompt.
    pub fn new() -> (p: Self)
        ensures
            p.spec_digits() == Seq::<char>::empty(),
            p.wf(),
    {
        let p = GotoPrompt { digits: Vec::new() };
        proof {
            assert(p.spec_digits() =~= Seq::<char>::empty());
        }
        p
    }

    /// A typed character: a digit is appended, anything else ignored.
    /// Returns whether the character was taken.
    pub fn push_key(&mut self, c: char) -> (accepted: bool)
        ensures
            accepted == is_digit(c),
            final(self).spec_digits() == if is_digit(c) {
                old(self).spec_digits().push(c)
            } else {
                old(self).spec_digits()
            },
            old(self).wf() ==> final(self).wf(),
    {
        let cv = c as u32;
        if 48 <= cv && cv <= 57 {
            self.digits.push(c);
            true
        } else {
            false
        }
    }

    /// Backspace: removes the last digit, when there is one to remove.
    pub fn backspace(&mut self) -> (removed: bool)
        ensures
            removed == (old(self).spec_digits().len() > 0),
            final(self).spec_digits() == if old(self).spec_digits().len() > 0 {
                old(self).spec_digits().drop_last()
            } else {
                old(self).spec_digits()
            },
            old(self).wf() ==> final(self).wf(),
    {
        match self.digits.pop() {
            Some(_) => true,
            None => false,
        }
    }

    /// Enter: the typed digits as a channel, clamped into the valid
    /// range; `None` when nothing was typed or the number does not fit
    /// an `i32`.
    pub fn confirm(&self) -> (r: Option<Channel>)
        ensures
            self.wf() ==> match r {
                Some(c) => parse_i32(self.spec_digits()) matches Some(v) && c.spec_number()
                    == clamp_channel(v),
                None => parse_i32(self.spec_digits()) is None,
            },
    {
        let ghost s = self.spec_digits();
        let len = self.digits.len();
        if len == 0 {
            return None;
        }
        let mut acc: u64 = 0;
        let mut i: usize = 0;
        while i < len
            invariant
                len == s.len(),
                s == self.spec_digits(),
                0 <= i <= len,
                all_digits(s.subrange(0, i as int)),
                acc == digits_value(s.subrange(0, i as int)),
                acc <= 2_147_483_647,
            decreases len - i,
        {
            let c = self.digits[i];
            let cv = c as u32;
            if cv < 48 || cv > 57 {
                proof {
                    assert(!is_digit(s[i as int]));
                }
                return None;
            }
            let next: u64 = acc * 10 + ((cv - 48) as u64);
            proof {
                assert(c == s[i as int]);
                assert(is_digit(s[i as int]));
                assert(s.subrange(0, i + 1).drop_last() =~= s.subrange(0, i as int));
                assert(s.subrange(0, i + 1).last() == s[i as int]);
                assert forall|j: int| 0 <= j < i + 1 implies is_digit(
                    #[trigger] s.subrange(0, i + 1)[j],
                ) by {
                    if j < i {
                        assert(s.subrange(0, i as int)[j] == s[j]);
                        assert(is_digit(s.subrange(0, i as int)[j]));
                    }
                }
                assert(all_digits(s.subrange(0, i + 1)));
            }
            if next > 2_147_483_647 {
                proof {
                    if all_digits(s) {
                        lemma_digits_value_prefix(s, i + 1);
                        assert(s.subrange(0, s.len() as int) =~= s);
                        assert(digits_value(s) >= next);
                        assert(s[0] != '+' && s[0] != '-');
                    }
                }
                return None;
            }
            acc = next;
            i += 1;
        }
        proof {
            assert(s.subrange(0, len as int) =~= s);
            assert(s[0] != '+' && s[0] != '-');
        }
        Some(Channel::new(acc as i32))
    }
}

} // verus!
