use scraper::Html;
use txtv::digits::parse_channel_number;
use txtv::nav::resolve;
use txtv::Channel;
use txtv::PageDirection;
use txtv::MAX_PAGE;
use txtv::MIN_PAGE;

const PAGE_NUMBERS_HTML: &str = "
    <a class=\"NavigationArrow_enabled__ueMbi NavigationArrow_navigationArrow__eaKzk\" title=\"Nästa sida\" href=\"/text-tv/103\"></a>
    <a class=\"NavigationArrow_enabled__ueMbi NavigationArrow_navigationArrow__eaKzk\" title=\"Förra sidan\" href=\"/text-tv/101\"></a>
";

#[test]
fn next_from_document_returns_correct_page() {
    let document = Html::parse_document(&PAGE_NUMBERS_HTML);
    let current = Channel::new(200);
    let next = current.next_from_document(&document);

    assert_eq!(next, Channel::new(103));
}

#[test]
fn prev_from_document_returns_correct_page() {
    let document = Html::parse_document(&PAGE_NUMBERS_HTML);
    let current = Channel::new(200);
    let prev = current.prev_from_document(&document);

    assert_eq!(prev, Channel::new(101));
}

#[test]
fn next_from_document_falls_back_plus_one_if_missing() {
    let document = Html::parse_document("");
    let current = Channel::new(103);
    let next = current.next_from_document(&document);

    assert_eq!(next, Channel::new(104));
}

#[test]
fn prev_from_document_falls_back_minus_one_if_missing() {
    let document = Html::parse_document("");
    let current = Channel::new(103);
    let prev = current.prev_from_document(&document);

    assert_eq!(prev, Channel::new(102));
}

#[test]
fn next_does_not_exceed_max_page() {
    let document = Html::parse_document("");
    let current = Channel::new(MAX_PAGE);
    let next = current.next_from_document(&document);

    assert_eq!(next, Channel::new(MAX_PAGE));
}

#[test]
fn prev_does_not_go_below_min_page() {
    let document = Html::parse_document("");
    let current = Channel::new(MIN_PAGE);
    let prev = current.prev_from_document(&document);

    assert_eq!(prev, Channel::new(MIN_PAGE));
}

#[test]
fn resolve_prefers_parsed_hint_over_current() {
    let r = resolve(Some("/text-tv/103"), Channel::new(200), PageDirection::Next);
    assert_eq!(r.number(), 103);
    let r = resolve(Some("/text-tv/103"), Channel::new(700), PageDirection::Prev);
    assert_eq!(r.number(), 103);
}

#[test]
fn resolve_clamps_out_of_range_hint() {
    let r = resolve(Some("/text-tv/999"), Channel::new(200), PageDirection::Next);
    assert_eq!(r.number(), MAX_PAGE);
    let r = resolve(Some("/text-tv/5"), Channel::new(200), PageDirection::Prev);
    assert_eq!(r.number(), MIN_PAGE);
}

#[test]
fn resolve_falls_back_on_non_numeric_hint() {
    let r = resolve(Some("/text-tv/abc"), Channel::new(200), PageDirection::Next);
    assert_eq!(r.number(), 201);
    let r = resolve(Some(""), Channel::new(200), PageDirection::Prev);
    assert_eq!(r.number(), 199);
}

#[test]
fn resolve_falls_back_on_overflowing_hint() {
    let r = resolve(Some("/text-tv/99999999999"), Channel::new(200), PageDirection::Next);
    assert_eq!(r.number(), 201);
}

#[test]
fn resolve_without_hint_uses_fallback() {
    let r = resolve(None, Channel::new(200), PageDirection::Next);
    assert_eq!(r.number(), 201);
    let r = resolve(None, Channel::new(200), PageDirection::Prev);
    assert_eq!(r.number(), 199);
}

#[test]
fn parse_reads_plain_and_signed_numbers() {
    assert_eq!(parse_channel_number("103"), Some(103));
    assert_eq!(parse_channel_number("+7"), Some(7));
    assert_eq!(parse_channel_number("-5"), Some(-5));
    assert_eq!(parse_channel_number("0"), Some(0));
}

#[test]
fn parse_rejects_malformed_text() {
    assert_eq!(parse_channel_number(""), None);
    assert_eq!(parse_channel_number("-"), None);
    assert_eq!(parse_channel_number("+"), None);
    assert_eq!(parse_channel_number("12a"), None);
    assert_eq!(parse_channel_number("a12"), None);
    assert_eq!(parse_channel_number("1 2"), None);
}

#[test]
fn parse_handles_range_edges() {
    assert_eq!(parse_channel_number("2147483647"), Some(i32::MAX));
    assert_eq!(parse_channel_number("-2147483648"), Some(i32::MIN));
    assert_eq!(parse_channel_number("2147483648"), None);
    assert_eq!(parse_channel_number("-2147483649"), None);
    assert_eq!(parse_channel_number("99999999999"), None);
}
