//! The parsed-markup boundary: scraper's document type, the attribute
//! query the library makes against it, and document-driven steps.

use vstd::prelude::*;

verus! {

use crate::channel::Channel;
use crate::channel::PageDirection;
use crate::channel::in_range;
use crate::nav::hint_view;
use crate::nav::owned_hint_view;
use crate::nav::resolve;
use crate::nav::resolve_spec;

/// The attribute selector of the marker element that names the next
/// page.
pub const NEXT_MARKER_SELECTOR: &'static str = "[title='Nästa sida']";

/// The attribute selector of the marker element that names the
/// previous page.
pub const PREV_MARKER_SELECTOR: &'static str = "[title='Förra sidan']";

/// Declares scraper's parsed-document type so it can stand in
/// signatures; what a document holds stays opaque to verification.
#[verifier::external_type_specification]
#[verifier::external_body]
pub struct ExHtml(scraper::Html);

/// The value of attribute `attr` on the first element `selector`
/// matches in a parsed document, or nothing; the document, the
/// selector and the attribute name determine it.
pub uninterp spec fn document_query(
    document: scraper::Html,
    selector: Seq<char>,
    attr: Seq<char>,
) -> Option<Seq<char>>;

/// Relies on scraper::Selector::parse, scraper::Html::select and
/// scraper::ElementRef::attr: yields the value of attribute `attr` on
/// the first element `selector` matches, and `None` when the selector
/// is invalid, no element matches, or the attribute is absent. The
/// document is an immutable tree and selecting only walks it, so the
/// outcome is a function of the three arguments alone.
#[verifier::external_body]
pub(crate) fn select_first_attr(document: &scraper::Html, selector: &str, attr: &str) -> (r:
    Option<String>)
    ensures
        owned_hint_view(r) == document_query(*document, selector@, attr@),
{
    let sel = match scraper::Selector::parse(selector) {
        Ok(sel) => sel,
        Err(_) => return None,
    };
    match document.select(&sel).next() {
        Some(el) => match el.attr(attr) {
            Some(v) => Some(v.to_string()),
            None => None,
        },
        None => None,
    }
}

impl Channel {
    /// One navigation step against a fetched document: queries the
    /// direction's marker and resolves its target, falling back to the
    /// arithmetic neighbour; the outcome always lies in the valid
    /// range.
    fn navigate(&self, document: &scraper::Html, direction: PageDirection) -> (r: Self)
        ensures
            r.spec_number() == resolve_spec(
                document_query(
                    *document,
                    match direction {
                        PageDirection::Next => NEXT_MARKER_SELECTOR@,
                        PageDirection::Prev => PREV_MARKER_SELECTOR@,
                    },
                    "href"@,
                ),
                self.spec_number(),
                direction,
            ),
            in_range(r.spec_number()),
    {
        let selector = match direction {
            PageDirection::Next => NEXT_MARKER_SELECTOR,
            PageDirection::Prev => PREV_MARKER_SELECTOR,
        };
        let hint = select_first_attr(document, selector, "href");
        let hint_ref = match &hint {
            Some(h) => Some(h.as_str()),
            None => None,
        };
        proof {
            assert(hint_view(hint_ref) == owned_hint_view(hint));
        }
        let r = resolve(hint_ref, *self, direction);
        proof {
            crate::nav::lemma_resolve_in_range(
                hint_view(hint_ref),
                self.spec_number(),
                direction,
            );
        }
        r
    }

    /// Returns the next channel, using the document's forward marker
    /// if possible.
    pub fn next_from_document(&self, document: &scraper::Html) -> (r: Self)
        ensures
            r.spec_number() == resolve_spec(
                document_query(*document, NEXT_MARKER_SELECTOR@, "href"@),
                self.spec_number(),
                PageDirection::Next,
            ),
            in_range(r.spec_number()),
    {
        self.navigate(document, PageDirection::Next)
    }

    /// Returns the previous channel, using the document's backward
    /// marker if possible.
    pub fn prev_from_document(&self, document: &scraper::Html) -> (r: Self)
        ensures
            r.spec_number() == resolve_spec(
                document_query(*document, PREV_MARKER_SELECTOR@, "href"@),
                self.spec_number(),
                PageDirection::Prev,
            ),
            in_range(r.spec_number()),
    {
        self.navigate(document, PageDirection::Prev)
    }
}

} // verus!
