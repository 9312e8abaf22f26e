use nostr_client::response::Response;
use nostr_client::tui::app::{App, INITIAL_FEED_CAPACITY, MAX_ITEMS_ON_SCREEN};

fn notice(n: usize) -> Response {
    Response::Notice { message: format!("{}", n) }
}

fn notices(from: usize, to: usize) -> Vec<Response> {
    (from..to).map(notice).collect()
}

#[test]
fn new_app_runs_with_an_empty_feed() {
    let app = App::new();
    assert!(app.running);
    assert!(app.feed.is_empty());
    assert_eq!(app.feed_capacity, 20);
    assert_eq!(INITIAL_FEED_CAPACITY, 20);
    assert_eq!(MAX_ITEMS_ON_SCREEN, 5);
    assert_eq!(app.current_min_index, 0);
    assert_eq!(app.current_max_index, 0);
    assert_eq!(app.input_box, None);
}

#[test]
fn default_app_is_a_new_app() {
    let app = App::default();
    assert!(app.running);
    assert!(app.feed.is_empty());
    assert_eq!(app.feed_capacity, 20);
    assert_eq!(app.current_min_index, 0);
    assert_eq!(app.current_max_index, 0);
    assert_eq!(app.input_box, None);
}

#[test]
fn tick_changes_nothing() {
    let mut app = App::new();
    app.add_events(&mut notices(0, 3));
    app.tick();
    assert!(app.running);
    assert_eq!(app.feed, notices(0, 3));
}

#[test]
fn quit_stops_the_app_and_keeps_the_feed() {
    let mut app = App::new();
    app.add_events(&mut notices(0, 3));
    app.input_box = Some("draft".to_string());
    app.quit();
    assert!(!app.running);
    assert_eq!(app.feed, notices(0, 3));
    assert_eq!(app.current_min_index, 0);
    assert_eq!(app.current_max_index, 2);
    assert_eq!(app.input_box, Some("draft".to_string()));
}

#[test]
fn add_events_appends_and_empties_the_source() {
    let mut app = App::new();
    let mut events = notices(0, 4);
    app.add_events(&mut events);
    assert!(events.is_empty());
    assert_eq!(app.feed, notices(0, 4));
    assert_eq!(app.feed_capacity, 20);
    assert_eq!(app.current_min_index, 0);
    assert_eq!(app.current_max_index, 3);
    app.add_events(&mut notices(4, 6));
    assert_eq!(app.feed, notices(0, 6));
    assert_eq!(app.current_min_index, 3);
    assert_eq!(app.current_max_index, 4);
}

#[test]
fn add_events_pushes_out_the_oldest_when_full() {
    let mut app = App::new();
    app.add_events(&mut notices(0, 18));
    app.add_events(&mut notices(18, 20));
    assert_eq!(app.feed, notices(0, 20));
    app.add_events(&mut notices(20, 23));
    assert_eq!(app.feed, notices(3, 23));
    assert_eq!(app.feed.len(), 20);
    assert_eq!(app.feed_capacity, 20);
}

#[test]
fn add_events_larger_than_the_feed_replaces_it() {
    let mut app = App::new();
    app.add_events(&mut notices(0, 3));
    app.add_events(&mut notices(3, 28));
    assert_eq!(app.feed, notices(3, 28));
    let mut empty = App::new();
    empty.add_events(&mut notices(0, 30));
    assert_eq!(empty.feed, notices(0, 30));
}

#[test]
fn add_events_with_nothing_keeps_the_feed() {
    let mut app = App::new();
    app.add_events(&mut notices(0, 3));
    app.add_events(&mut Vec::new());
    assert_eq!(app.feed, notices(0, 3));
    assert_eq!(app.current_min_index, 2);
    assert_eq!(app.current_max_index, 2);
}

#[test]
fn add_events_does_not_overflow_the_window() {
    let mut app = App::new();
    app.current_max_index = usize::MAX - 1;
    app.add_events(&mut notices(0, 5));
    assert_eq!(app.current_min_index, usize::MAX - 1);
    assert_eq!(app.current_max_index, usize::MAX);
    app.feed_capacity = usize::MAX;
    app.add_events(&mut notices(0, 1));
    assert_eq!(app.feed.len(), 6);
}

#[test]
fn scroll_up_moves_one_screen_and_stops_at_the_start() {
    let mut app = App::new();
    app.current_min_index = 12;
    app.current_max_index = 17;
    app.scroll_up();
    assert_eq!((app.current_min_index, app.current_max_index), (7, 12));
    app.scroll_up();
    assert_eq!((app.current_min_index, app.current_max_index), (2, 7));
    app.scroll_up();
    assert_eq!((app.current_min_index, app.current_max_index), (0, 5));
    app.scroll_up();
    assert_eq!((app.current_min_index, app.current_max_index), (0, 5));
    app.current_min_index = usize::MAX;
    app.scroll_up();
    assert_eq!((app.current_min_index, app.current_max_index), (usize::MAX - 5, usize::MAX));
}

#[test]
fn scroll_down_moves_one_screen() {
    let mut app = App::new();
    app.scroll_down();
    assert_eq!((app.current_min_index, app.current_max_index), (0, 5));
    app.scroll_down();
    assert_eq!((app.current_min_index, app.current_max_index), (5, 10));
    app.scroll_down();
    assert_eq!((app.current_min_index, app.current_max_index), (10, 15));
    assert!(app.running);
}

#[test]
fn scroll_down_at_the_largest_index_ends_at_the_last_entry() {
    let mut app = App::new();
    app.add_events(&mut notices(0, 4));
    app.current_max_index = usize::MAX - 2;
    app.scroll_down();
    assert_eq!((app.current_min_index, app.current_max_index), (usize::MAX - 2, 3));
    let mut empty = App::new();
    empty.current_max_index = usize::MAX;
    empty.scroll_down();
    assert_eq!((empty.current_min_index, empty.current_max_index), (usize::MAX, 0));
}
