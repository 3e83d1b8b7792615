use txtv::Channel;
use txtv::GotoPrompt;

#[test]
fn prompt_accepts_only_digits() {
    let mut p = GotoPrompt::new();
    assert!(p.push_key('1'));
    assert!(!p.push_key('a'));
    assert!(!p.push_key(' '));
    assert!(!p.push_key('-'));
    assert!(p.push_key('0'));
    assert!(p.push_key('3'));
    assert_eq!(p.confirm(), Some(Channel::new(103)));
}

#[test]
fn prompt_backspace_edits() {
    let mut p = GotoPrompt::new();
    assert!(p.push_key('7'));
    assert!(p.push_key('7'));
    assert!(p.backspace());
    assert!(p.push_key('5'));
    assert!(p.push_key('0'));
    assert_eq!(p.confirm(), Some(Channel::new(750)));
}

#[test]
fn prompt_backspace_on_empty_does_nothing() {
    let mut p = GotoPrompt::new();
    assert!(!p.backspace());
    assert_eq!(p.confirm(), None);
}

#[test]
fn prompt_empty_confirm_is_none() {
    let p = GotoPrompt::new();
    assert_eq!(p.confirm(), None);
}

#[test]
fn prompt_clamps_out_of_range_input() {
    let mut p = GotoPrompt::new();
    assert!(p.push_key('8'));
    assert!(p.push_key('0'));
    assert!(p.push_key('2'));
    assert_eq!(p.confirm(), Some(Channel::new(801)));

    let mut p = GotoPrompt::new();
    assert!(p.push_key('7'));
    assert_eq!(p.confirm(), Some(Channel::new(100)));
}

#[test]
fn prompt_overflowing_input_is_none() {
    let mut p = GotoPrompt::new();
    for _ in 0..11 {
        assert!(p.push_key('9'));
    }
    assert_eq!(p.confirm(), None);
}
