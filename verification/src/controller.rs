//! The navigation state machine: it owns the single current page and
//! decides what each fetch outcome does to it.

use vstd::prelude::*;

verus! {

use crate::channel::Channel;
use crate::channel::PageDirection;
use crate::page::FetchError;
use crate::page::TextTvPage;

/// Owns the single current page and decides what each navigation
/// outcome does to it. The surrounding process performs the fetches:
/// it asks `direction_target` (or clamps an explicit target) for the
/// channel to retrieve, fetches it, and hands the outcome to
/// `apply_fetch`.
pub struct NavigationController {
    current: Option<TextTvPage>,
    failed: Option<Channel>,
}

impl NavigationController {
    /// The page currently shown, if any.
    pub closed spec fn spec_current(self) -> Option<TextTvPage> {
        self.current
    }

    /// The channel of the last failed attempt, if the last outcome
    /// while a page was shown was a failure.
    pub closed spec fn spec_failed(self) -> Option<Channel> {
        self.failed
    }

    /// The channel of the page currently shown.
    pub open spec fn spec_current_channel(self) -> Option<int> {
        match self.spec_current() {
            Some(p) => Some(p.spec_channel()),
            None => None,
        }
    }

    /// A failure is only ever recorded while a page is shown.
    pub open spec fn wf(self) -> bool {
        self.spec_failed() is Some ==> self.spec_current() is Some
    }

    /// No page has been fetched yet.
    pub open spec fn is_uninitialized(self) -> bool {
        self.spec_current() is None
    }

    /// A page is shown and the last attempt succeeded.
    pub open spec fn is_displaying(self) -> bool {
        self.spec_current() is Some && self.spec_failed() is None
    }

    /// A page is still shown, but the last attempted fetch failed.
    pub open spec fn is_failed(self) -> bool {
        self.spec_current() is Some && self.spec_failed() is Some
    }

    /// The controller value after a fetch outcome for `attempted` is
    /// applied: a success replaces the current page; a failure leaves
    /// it untouched and, while a page is shown, records the channel
    /// that failed.
    pub closed spec fn spec_apply(
        self,
        attempted: Channel,
        outcome: Result<TextTvPage, FetchError>,
    ) -> NavigationController {
        match outcome {
            Ok(p) => NavigationController { current: Some(p), failed: None },
            Err(_) => NavigationController {
                current: self.current,
                failed: if self.current is Some {
                    Some(attempted)
                } else {
                    None
                },
            },
        }
    }

    /// A controller that has shown nothing yet.
    pub fn new() -> (c: Self)
        ensures
            c.is_uninitialized(),
            c.spec_failed() is None,
            c.wf(),
    {
        NavigationController { current: None, failed: None }
    }

    /// The channel a directional request would fetch: the current
    /// page's precomputed neighbour. Nothing can be fetched by
    /// direction before a first page is shown.
    pub fn direction_target(&self, direction: PageDirection) -> (r: Option<Channel>)
        ensures
            r is Some <==> self.spec_current() is Some,
            r matches Some(c) ==> c.spec_number() == match direction {
                PageDirection::Next => self.spec_current().unwrap().spec_next(),
                PageDirection::Prev => self.spec_current().unwrap().spec_prev(),
            },
            r matches Some(c) ==> crate::channel::in_range(c.spec_number()),
    {
        match &self.current {
            Some(p) => Some(p.page_number(direction)),
            None => None,
        }
    }

    /// The page currently shown, whatever the last outcome was.
    pub fn current_page(&self) -> (r: Option<&TextTvPage>)
        ensures
            match r {
                Some(p) => self.spec_current() == Some(*p),
                None => self.spec_current() is None,
            },
    {
        match &self.current {
            Some(p) => Some(p),
            None => None,
        }
    }

    /// The channel of the page currently shown.
    pub fn current_channel(&self) -> (r: Option<Channel>)
        ensures
            match r {
                Some(c) => self.spec_current_channel() == Some(c.spec_number()),
                None => self.spec_current_channel() is None,
            },
    {
        match &self.current {
            Some(p) => Some(p.channel()),
            None => None,
        }
    }

    /// The channel of the last failed attempt, if the controller is in
    /// the failed state.
    pub fn failed_channel(&self) -> (r: Option<Channel>)
        ensures
            r == self.spec_failed(),
    {
        self.failed
    }

    /// Applies the outcome of a fetch for `attempted`. A success
    /// replaces the current page atomically and clears any recorded
    /// failure; a failure leaves the current page untouched and, while
    /// a page is shown, records which channel failed.
    pub fn apply_fetch(&mut self, attempted: Channel, outcome: Result<TextTvPage, FetchError>)
        ensures
            *final(self) == old(self).spec_apply(attempted, outcome),
            final(self).spec_current() == match outcome {
                Ok(p) => Some(p),
                Err(_) => old(self).spec_current(),
            },
            final(self).spec_failed() == match outcome {
                Ok(_) => None::<Channel>,
                Err(_) => if old(self).spec_current() is Some {
                    Some(attempted)
                } else {
                    None
                },
            },
            final(self).wf(),
    {
        match outcome {
            Ok(p) => {
                self.current = Some(p);
                self.failed = None;
            },
            Err(_) => {
                if self.current.is_some() {
                    self.failed = Some(attempted);
                } else {
                    self.failed = None;
                }
            },
        }
    }
}

/// Law: a failed fetch never touches the page that is shown; the
/// controller keeps its page and only records the attempted channel.
pub proof fn lemma_failure_preserves_page(
    c: NavigationController,
    attempted: Channel,
    e: FetchError,
)
    ensures
        c.spec_apply(attempted, Err(e)).spec_current() == c.spec_current(),
        c.wf() ==> c.spec_apply(attempted, Err(e)).wf(),
{
}

/// Law: jumping to the channel already shown is harmless, repeated as
/// often as one likes: each successful outcome for that channel leaves
/// the controller displaying it, well formed, with no failure noted.
pub proof fn lemma_goto_idempotent(
    c0: NavigationController,
    ch: Channel,
    pa: TextTvPage,
    pb: TextTvPage,
)
    requires
        pa.spec_channel() == ch.spec_number(),
        pb.spec_channel() == ch.spec_number(),
    ensures
        ({
            let c1 = c0.spec_apply(ch, Ok(pa));
            let c2 = c1.spec_apply(ch, Ok(pb));
            c1.is_displaying() && c1.wf() && c1.spec_current_channel() == Some(ch.spec_number())
                && c2.is_displaying() && c2.wf() && c2.spec_current_channel() == Some(
                ch.spec_number(),
            )
        }),
{
}

} // verus!
