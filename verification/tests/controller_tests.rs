use txtv::digits::parse_channel_number;
use txtv::Channel;
use txtv::FetchError;
use txtv::NavigationController;
use txtv::PageDirection;
use txtv::TextTvPage;

const TINY_PNG: &str = "iVBORw0KGgoAAAANSUhEUgAAAAEAAAABCAYAAAAfFcSJAAAADUlEQVR42mNkYPhfDwAChwGA60e6kgAAAABJRU5ErkJggg==";

fn page_html(next: i32) -> String {
    format!(
        "<img class=\"Content_pageImage__bS0mg\" src=\"data:image/png;base64,{}\"/>\
         <a title=\"Nästa sida\" href=\"/text-tv/{}\"></a>",
        TINY_PNG, next
    )
}

fn markerless_html() -> String {
    format!(
        "<img class=\"Content_pageImage__bS0mg\" src=\"data:image/png;base64,{}\"/>",
        TINY_PNG
    )
}

#[test]
fn controller_starts_uninitialized() {
    let c = NavigationController::new();
    assert!(c.current_channel().is_none());
    assert!(c.failed_channel().is_none());
    assert!(c.direction_target(PageDirection::Next).is_none());
    assert!(c.direction_target(PageDirection::Prev).is_none());
}

#[test]
fn first_success_starts_displaying() {
    let mut c = NavigationController::new();
    let ch = Channel::new(100);
    let html = markerless_html();
    c.apply_fetch(ch, TextTvPage::from_html(ch, &html));
    assert_eq!(c.current_channel(), Some(ch));
    assert!(c.failed_channel().is_none());
}

#[test]
fn failed_fetch_keeps_current_page() {
    let mut c = NavigationController::new();
    let ch = Channel::new(200);
    let html = markerless_html();
    c.apply_fetch(ch, TextTvPage::from_html(ch, &html));

    let attempted = Channel::new(300);
    let outcome = TextTvPage::from_html(attempted, "<p>nothing</p>");
    assert_eq!(outcome.as_ref().err(), Some(&FetchError::ImageNotFound));
    c.apply_fetch(attempted, outcome);

    assert_eq!(c.current_channel(), Some(ch));
    assert_eq!(c.failed_channel(), Some(attempted));
}

#[test]
fn failure_before_any_page_stays_uninitialized() {
    let mut c = NavigationController::new();
    c.apply_fetch(Channel::new(100), Err(FetchError::Transport));
    assert!(c.current_channel().is_none());
    assert!(c.failed_channel().is_none());
}

#[test]
fn transport_and_parse_failures_are_reported() {
    let mut c = NavigationController::new();
    let ch = Channel::new(150);
    let html = markerless_html();
    c.apply_fetch(ch, TextTvPage::from_html(ch, &html));

    c.apply_fetch(Channel::new(151), Err(FetchError::Transport));
    assert_eq!(c.failed_channel(), Some(Channel::new(151)));
    assert_eq!(c.current_channel(), Some(ch));

    c.apply_fetch(Channel::new(152), Err(FetchError::Parse));
    assert_eq!(c.failed_channel(), Some(Channel::new(152)));
    assert_eq!(c.current_channel(), Some(ch));
}

#[test]
fn success_after_failure_clears_the_failure() {
    let mut c = NavigationController::new();
    let ch = Channel::new(200);
    let html = markerless_html();
    c.apply_fetch(ch, TextTvPage::from_html(ch, &html));
    c.apply_fetch(Channel::new(300), Err(FetchError::ImageNotFound));

    let ch2 = Channel::new(201);
    c.apply_fetch(ch2, TextTvPage::from_html(ch2, &html));
    assert_eq!(c.current_channel(), Some(ch2));
    assert!(c.failed_channel().is_none());
}

#[test]
fn goto_same_channel_is_a_harmless_refetch() {
    let mut c = NavigationController::new();
    let ch = Channel::new(200);
    let html = markerless_html();
    c.apply_fetch(ch, TextTvPage::from_html(ch, &html));
    assert_eq!(c.current_channel(), Some(ch));

    for _ in 0..3 {
        c.apply_fetch(ch, TextTvPage::from_html(ch, &html));
        assert_eq!(c.current_channel(), Some(ch));
        assert!(c.failed_channel().is_none());
        assert_eq!(
            c.direction_target(PageDirection::Next),
            Some(Channel::new(201))
        );
    }
}

#[test]
fn next_three_times_follows_forward_markers() {
    let mut c = NavigationController::new();
    let start = Channel::new(100);
    let html = page_html(101);
    c.apply_fetch(start, TextTvPage::from_html(start, &html));

    for _ in 0..3 {
        let target = c.direction_target(PageDirection::Next).unwrap();
        let html = page_html(target.number() + 1);
        c.apply_fetch(target, TextTvPage::from_html(target, &html));
    }

    assert_eq!(c.current_channel(), Some(Channel::new(103)));
    assert_eq!(
        c.direction_target(PageDirection::Next),
        Some(Channel::new(104))
    );
}

#[test]
fn goto_out_of_range_clamps_before_any_request() {
    let parsed = parse_channel_number("802").unwrap();
    let target = Channel::new(parsed);
    assert_eq!(target.number(), 801);

    let mut c = NavigationController::new();
    let html = markerless_html();
    c.apply_fetch(target, TextTvPage::from_html(target, &html));
    assert_eq!(c.current_channel(), Some(Channel::new(801)));
}
