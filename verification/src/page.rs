//! One fetched page: the inline image decoded from the document's
//! distinguished element, and the neighbour channels resolved once.

use base64::Engine;
use vstd::prelude::*;

verus! {

use crate::channel::in_range;
use crate::channel::Channel;
use crate::channel::PageDirection;
use crate::document::NEXT_MARKER_SELECTOR;
use crate::document::PREV_MARKER_SELECTOR;
use crate::nav::owned_hint_view;
use crate::nav::resolve;
use crate::nav::resolve_spec;

/// The selector of the distinguished image element that carries a
/// page's rendered content.
pub const IMAGE_SELECTOR: &'static str = "img.Content_pageImage__bS0mg";

/// Why a fetch failed.
#[derive(Debug, Clone, Copy, PartialEq, Eq, Structural)]
pub enum FetchError {
    /// The transport could not retrieve the raw markup.
    Transport,
    /// The markup could not be read as a document, or a query
    /// expression was invalid.
    Parse,
    /// The distinguished image element is absent: the usual sign that
    /// no page exists for the requested channel.
    ImageNotFound,
    /// The embedded image payload could not be decoded to a bitmap.
    ImageDecode,
}

/// Declares image's decoded-bitmap type so it can stand in fields; a
/// bitmap's contents stay opaque to verification.
#[verifier::external_type_specification]
#[verifier::external_body]
pub struct ExDynamicImage(image::DynamicImage);

/// What standard base64 decoding yields for a given text, when the
/// text is valid base64 at all; it depends on the text alone.
pub uninterp spec fn base64_decoding(s: Seq<char>) -> Option<Seq<u8>>;

/// Relies on base64's general-purpose standard engine: decoding is a
/// pure function of the input text.
#[verifier::external_body]
fn decode_base64(s: &str) -> (r: Option<Vec<u8>>)
    ensures
        match r {
            Some(v) => base64_decoding(s@) == Some(v@),
            None => base64_decoding(s@) is None,
        },
{
    match base64::engine::general_purpose::STANDARD.decode(s) {
        Ok(v) => Some(v),
        Err(_) => None,
    }
}

/// Relies on image::load_from_memory: it guesses the format and
/// decodes. Format detection consults process-global, writable hook
/// registries, so whether a given byte sequence decodes is not a
/// function of the bytes alone; nothing is stated of the outcome.
#[verifier::external_body]
fn load_image(bytes: &[u8]) -> Option<image::DynamicImage> {
    match image::load_from_memory(bytes) {
        Ok(img) => Some(img),
        Err(_) => None,
    }
}

/// The value of attribute `attr` on the first element `selector`
/// matches in the document a piece of markup parses to, or nothing;
/// the markup, the selector and the attribute name determine it.
pub uninterp spec fn html_query(html: Seq<char>, selector: Seq<char>, attr: Seq<char>) -> Option<
    Seq<char>,
>;

/// Relies on scraper::Html::parse_document, scraper::Selector::parse,
/// scraper::Html::select and scraper::ElementRef::attr: parses the
/// markup and yields the value of attribute `attr` on the first
/// element `selector` matches, `None` when the selector is invalid, no
/// element matches, or the attribute is absent. Parsing and selecting
/// hold no state, so the outcome is a function of the three arguments
/// alone.
#[verifier::external_body]
fn query_attr(html: &str, selector: &str, attr: &str) -> (r: Option<String>)
    ensures
        owned_hint_view(r) == html_query(html@, selector@, attr@),
{
    let document = scraper::Html::parse_document(html);
    let sel = match scraper::Selector::parse(selector) {
        Ok(sel) => sel,
        Err(_) => return None,
    };
    match document.select(&sel).next() {
        Some(el) => match el.attr(attr) {
            Some(v) => Some(v.to_string()),
            None => None,
        },
        None => None,
    }
}

/// The payload of a data URL: the text after the first comma, when
/// there is one.
pub open spec fn data_url_payload(s: Seq<char>) -> Option<Seq<char>>
    decreases s.len(),
{
    if s.len() == 0 {
        None
    } else if s[0] == ',' {
        Some(s.drop_first())
    } else {
        data_url_payload(s.drop_first())
    }
}

/// The bytes an inline data URL carries: its post-comma payload read
/// as standard base64.
pub open spec fn image_payload_bytes(s: Seq<char>) -> Option<Seq<u8>> {
    match data_url_payload(s) {
        Some(p) => base64_decoding(p),
        None => None,
    }
}

/// The payload starts right after the first comma.
proof fn lemma_payload_at(s: Seq<char>, i: int)
    requires
        0 <= i < s.len(),
        s[i] == ',',
        forall|j: int| 0 <= j < i ==> s[j] != ',',
    ensures
        data_url_payload(s) == Some(s.subrange(i + 1, s.len() as int)),
    decreases i,
{
    if i == 0 {
        assert(s.drop_first() =~= s.subrange(1, s.len() as int));
    } else {
        lemma_payload_at(s.drop_first(), i - 1);
        assert(s.drop_first().subrange(i, s.len() - 1) =~= s.subrange(i + 1, s.len() as int));
    }
}

/// A text without a comma has no payload.
proof fn lemma_payload_none(s: Seq<char>)
    requires
        forall|j: int| 0 <= j < s.len() ==> s[j] != ',',
    ensures
        data_url_payload(s) is None,
    decreases s.len(),
{
    if s.len() > 0 {
        lemma_payload_none(s.drop_first());
    }
}

/// Strips the metadata prefix of a data URL: returns the encoded
/// payload after the first comma, `None` when no comma is present.
fn data_url_payload_of<'a>(s: &'a str) -> (r: Option<&'a str>)
    ensures
        match r {
            Some(p) => data_url_payload(s@) == Some(p@),
            None => data_url_payload(s@) is None,
        },
{
    let len = s.unicode_len();
    let mut i: usize = 0;
    while i < len
        invariant
            s@.len() == len,
            0 <= i <= len,
            forall|j: int| 0 <= j < i ==> s@[j] != ',',
        decreases len - i,
    {
        if s.get_char(i) == ',' {
            proof {
                lemma_payload_at(s@, i as int);
            }
            return Some(s.substring_char(i + 1, len));
        }
        i += 1;
    }
    proof {
        lemma_payload_none(s@);
    }
    None
}

/// One fetched page: its channel, its decoded image, and the two
/// neighbour channels resolved once at construction.
pub struct TextTvPage {
    channel: Channel,
    image: image::DynamicImage,
    prev: Channel,
    next: Channel,
}

impl TextTvPage {
    /// The channel this page shows.
    pub closed spec fn spec_channel(self) -> int {
        self.channel.spec_number()
    }

    /// The channel one backward step targets.
    pub closed spec fn spec_prev(self) -> int {
        self.prev.spec_number()
    }

    /// The channel one forward step targets.
    pub closed spec fn spec_next(self) -> int {
        self.next.spec_number()
    }

    /// Decodes the inline image payload of a data URL: the text after
    /// the first comma, read as standard base64.
    fn decode_image_data(data_url: &str) -> (r: Option<Vec<u8>>)
        ensures
            match r {
                Some(v) => image_payload_bytes(data_url@) == Some(v@),
                None => image_payload_bytes(data_url@) is None,
            },
    {
        match data_url_payload_of(data_url) {
            Some(b64) => decode_base64(b64),
            None => None,
        }
    }

    /// Assembles a page out of the attribute values the document
    /// queries produced. On success the image source was present with
    /// a well-formed payload, and each neighbour channel is fully
    /// determined by the arguments; `ImageNotFound` comes exactly when
    /// the source is absent, and `ImageDecode` only when it is present
    /// (the payload was malformed, or this call's bitmap decode
    /// failed).
    pub fn assemble(
        channel: Channel,
        image_src: Option<String>,
        prev_hint: Option<String>,
        next_hint: Option<String>,
    ) -> (r: Result<TextTvPage, FetchError>)
        ensures
            match r {
                Ok(p) => {
                    &&& image_src matches Some(u) && image_payload_bytes(u@) is Some
                    &&& p.spec_channel() == channel.spec_number()
                    &&& p.spec_prev() == resolve_spec(
                        owned_hint_view(prev_hint),
                        channel.spec_number(),
                        PageDirection::Prev,
                    )
                    &&& p.spec_next() == resolve_spec(
                        owned_hint_view(next_hint),
                        channel.spec_number(),
                        PageDirection::Next,
                    )
                },
                Err(FetchError::ImageNotFound) => image_src is None,
                Err(FetchError::ImageDecode) => image_src is Some,
                Err(_) => false,
            },
    {
        let src = match image_src {
            Some(u) => u,
            None => {
                return Err(FetchError::ImageNotFound);
            },
        };
        let bytes = match Self::decode_image_data(src.as_str()) {
            Some(b) => b,
            None => {
                return Err(FetchError::ImageDecode);
            },
        };
        let image = match load_image(bytes.as_slice()) {
            Some(img) => img,
            None => {
                return Err(FetchError::ImageDecode);
            },
        };
        let prev = resolve(
            match &prev_hint {
                Some(h) => Some(h.as_str()),
                None => None,
            },
            channel,
            PageDirection::Prev,
        );
        let next = resolve(
            match &next_hint {
                Some(h) => Some(h.as_str()),
                None => None,
            },
            channel,
            PageDirection::Next,
        );
        Ok(TextTvPage { channel, image, prev, next })
    }

    /// Builds the page a piece of fetched markup yields for `channel`:
    /// queries the distinguished image element and both navigation
    /// markers, decodes the inline image, and resolves the neighbour
    /// channels once. Success is owed whenever the image query yields a
    /// well-formed payload and this call's bitmap decode goes through;
    /// which error comes back otherwise, and both neighbour channels,
    /// are fixed by the markup and the channel.
    pub fn from_html(channel: Channel, html: &str) -> (r: Result<TextTvPage, FetchError>)
        ensures
            match r {
                Ok(p) => {
                    &&& html_query(html@, IMAGE_SELECTOR@, "src"@) matches Some(u)
                        && image_payload_bytes(u) is Some
                    &&& p.spec_channel() == channel.spec_number()
                    &&& p.spec_prev() == resolve_spec(
                        html_query(html@, PREV_MARKER_SELECTOR@, "href"@),
                        channel.spec_number(),
                        PageDirection::Prev,
                    )
                    &&& p.spec_next() == resolve_spec(
                        html_query(html@, NEXT_MARKER_SELECTOR@, "href"@),
                        channel.spec_number(),
                        PageDirection::Next,
                    )
                },
                Err(FetchError::ImageNotFound) => html_query(html@, IMAGE_SELECTOR@, "src"@)
                    is None,
                Err(FetchError::ImageDecode) => html_query(html@, IMAGE_SELECTOR@, "src"@)
                    is Some,
                Err(_) => false,
            },
    {
        let image_src = query_attr(html, IMAGE_SELECTOR, "src");
        let prev_hint = query_attr(html, PREV_MARKER_SELECTOR, "href");
        let next_hint = query_attr(html, NEXT_MARKER_SELECTOR, "href");
        Self::assemble(channel, image_src, prev_hint, next_hint)
    }

    /// The channel of this page.
    pub fn channel(&self) -> (r: Channel)
        ensures
            r.spec_number() == self.spec_channel(),
            in_range(r.spec_number()),
    {
        proof {
            use_type_invariant(self.channel);
        }
        self.channel
    }

    /// The channel one step in `direction` targets, as resolved when
    /// the page was built. A neighbour channel is always valid: at the
    /// range's edges it may equal the page's own channel.
    pub fn page_number(&self, direction: PageDirection) -> (r: Channel)
        ensures
            r.spec_number() == match direction {
                PageDirection::Next => self.spec_next(),
                PageDirection::Prev => self.spec_prev(),
            },
            in_range(r.spec_number()),
    {
        let r = match direction {
            PageDirection::Next => self.next,
            PageDirection::Prev => self.prev,
        };
        proof {
            use_type_invariant(r);
        }
        r
    }

    /// The decoded image this page owns.
    pub fn image(&self) -> &image::DynamicImage {
        &self.image
    }
}

} // verus!
