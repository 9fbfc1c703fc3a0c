use bysykler::link_future::{Link, LinkFuture};
use bysykler::select::Select;

#[test]
fn select_starts_with_nothing_chosen() {
    let s: Select<String> = Select::new(vec!["a".to_string(), "b".to_string()]);
    assert!(s.selected_value().is_none());
    assert_eq!(s.options().len(), 2);
}

#[test]
fn select_reports_the_chosen_value() {
    let mut s = Select::new(vec!["oslobysykkel.no".to_string(), "bergenbysykkel.no".to_string()]);
    let chosen = s.change(1).clone();
    assert_eq!(chosen, "bergenbysykkel.no");
    assert_eq!(s.selected_value().map(String::as_str), Some("bergenbysykkel.no"));
    let chosen = s.change(0).clone();
    assert_eq!(chosen, "oslobysykkel.no");
    assert_eq!(s.selected_value().map(String::as_str), Some("oslobysykkel.no"));
}

#[test]
fn link_registers_work_in_order() {
    let mut link: Link<String> = Link::new();
    assert_eq!(link.pending_len(), 0);
    link.send_future("first".to_string());
    link.send_future_batch("second".to_string());
    assert_eq!(link.pending_len(), 2);
}

#[test]
fn link_hands_out_resolved_work() {
    let mut link: Link<u32> = Link::new();
    link.send_future(7);
    link.send_future(8);
    link.send_future_batch(9);
    assert_eq!(link.take(1), (8, false));
    assert_eq!(link.take(1), (9, true));
    assert_eq!(link.take(0), (7, false));
    assert_eq!(link.pending_len(), 0);
}
