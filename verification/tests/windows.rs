use dwemthys::util::Bound;
use dwemthys::window::{
    Color, TcodInputWindowComponent, TcodMapWindowComponent, TcodMessagesWindowComponent,
    TcodStatsWindowComponent, WindowComponent, Windows,
};

fn lines(strs: &[&str]) -> Vec<String> {
    strs.iter().map(|s| s.to_string()).collect()
}

#[test]
fn a_new_window_is_empty_and_black() {
    let b = Bound::new(0, 53, 99, 61);
    let w: TcodMessagesWindowComponent = WindowComponent::new(b);
    assert_eq!(w.get_bounds(), b);
    assert_eq!(w.get_bg_color(), Color::new(0, 0, 0));
    assert_eq!(w.get_messages(), Vec::<String>::new());
    assert_eq!(w.get_max_messages(), 10);
}

#[test]
fn each_kind_of_window_keeps_its_own_number_of_messages() {
    let b = Bound::new(0, 0, 9, 9);
    let stats: TcodStatsWindowComponent = WindowComponent::new(b);
    let input: TcodInputWindowComponent = WindowComponent::new(b);
    let map: TcodMapWindowComponent = WindowComponent::new(b);
    let messages: TcodMessagesWindowComponent = WindowComponent::new(b);
    assert_eq!(stats.get_max_messages(), 10);
    assert_eq!(input.get_max_messages(), 2);
    assert_eq!(map.get_max_messages(), 10);
    assert_eq!(messages.get_max_messages(), 10);
}

#[test]
fn messages_are_most_recent_first() {
    let mut w: TcodMessagesWindowComponent = WindowComponent::new(Bound::new(0, 0, 9, 9));
    w.buffer_message("one");
    w.buffer_message("two");
    w.buffer_message("three");
    assert_eq!(w.get_messages(), lines(&["three", "two", "one"]));
}

#[test]
fn the_oldest_messages_are_dropped_at_the_maximum() {
    let mut w: TcodInputWindowComponent = WindowComponent::new(Bound::new(0, 0, 9, 9));
    w.buffer_message("one");
    w.buffer_message("two");
    assert_eq!(w.get_messages(), lines(&["two", "one"]));
    w.buffer_message("three");
    assert_eq!(w.get_messages(), lines(&["three", "two"]));
}

#[test]
fn ten_messages_fit_and_the_eleventh_pushes_one_out() {
    let mut w: TcodStatsWindowComponent = WindowComponent::new(Bound::new(0, 0, 9, 9));
    for i in 0..10 {
        w.buffer_message(&format!("m{}", i));
    }
    assert_eq!(w.get_messages().len(), 10);
    assert_eq!(w.get_messages()[9], "m0");
    w.buffer_message("m10");
    assert_eq!(w.get_messages().len(), 10);
    assert_eq!(w.get_messages()[0], "m10");
    assert_eq!(w.get_messages()[9], "m1");
}

#[test]
fn flushing_leaves_blank_lines() {
    let mut w: TcodInputWindowComponent = WindowComponent::new(Bound::new(0, 0, 9, 9));
    w.flush_buffer();
    assert_eq!(w.get_messages(), lines(&["", ""]));
    w.buffer_message("prompt");
    assert_eq!(w.get_messages(), lines(&["prompt", ""]));
    w.flush_buffer();
    assert_eq!(w.get_messages(), lines(&["", ""]));
}

#[test]
fn flushing_a_full_window_blanks_every_line() {
    let mut w: TcodMapWindowComponent = WindowComponent::new(Bound::new(0, 0, 9, 9));
    for _ in 0..12 {
        w.buffer_message("x");
    }
    w.flush_buffer();
    assert_eq!(w.get_messages(), vec![String::new(); 10]);
}

#[test]
fn the_windows_know_the_map_bounds() {
    let map = Bound::new(0, 0, 78, 49);
    let w = Windows::new(
        Bound::new(79, 0, 99, 49),
        map,
        Bound::new(0, 50, 99, 52),
        Bound::new(0, 53, 99, 61),
    );
    assert_eq!(w.get_map_bounds(), map);
    assert_eq!(w.stats.get_bounds(), Bound::new(79, 0, 99, 49));
    assert_eq!(w.input.get_bounds(), Bound::new(0, 50, 99, 52));
    assert_eq!(w.messages.get_bounds(), Bound::new(0, 53, 99, 61));
}
