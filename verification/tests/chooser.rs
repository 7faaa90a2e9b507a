use radioklw::chooser::{Chooser, Key, Outcome, Window};

#[test]
fn new_chooser_starts_on_first_row() {
    let c = Chooser::new(5, 24, false);
    assert_eq!(c, Chooser { len: 5, row: 1, height: 24, favorites: false, playing: None });
    assert_eq!(c.selected(), Some(0));
}

#[test]
fn cursor_stays_within_the_list() {
    let mut c = Chooser::new(3, 24, false);
    assert_eq!(c.press(Key::Up), Outcome::Moved);
    assert_eq!(c.row, 1);
    assert_eq!(c.press(Key::Down), Outcome::Moved);
    assert_eq!(c.press(Key::Down), Outcome::Moved);
    assert_eq!(c.row, 3);
    assert_eq!(c.press(Key::Down), Outcome::Moved);
    assert_eq!(c.row, 3);
    assert_eq!(c.selected(), Some(2));
    c.press(Key::Up);
    assert_eq!(c.row, 2);
}

#[test]
fn play_and_stop_note_what_plays() {
    let mut c = Chooser::new(3, 24, false);
    c.press(Key::Down);
    assert_eq!(c.press(Key::Play), Outcome::Play(1));
    assert_eq!(c.playing, Some(1));
    c.press(Key::Down);
    assert_eq!(c.playing, Some(1));
    assert_eq!(c.press(Key::Stop), Outcome::Stop);
    assert_eq!(c.playing, None);
    assert_eq!(c.press(Key::Quit), Outcome::Quit);
    assert_eq!(c.press(Key::Other), Outcome::Ignored);
}

#[test]
fn save_only_on_search_results_and_delete_only_on_favorites() {
    let mut found = Chooser::new(2, 24, false);
    assert_eq!(found.press(Key::Save), Outcome::Save(0));
    assert_eq!(found.press(Key::Delete), Outcome::Ignored);
    let mut favs = Chooser::new(2, 24, true);
    favs.press(Key::Down);
    assert_eq!(favs.press(Key::Delete), Outcome::Delete(1));
    assert_eq!(favs.press(Key::Save), Outcome::Ignored);
}

#[test]
fn empty_list_has_no_selection() {
    let mut c = Chooser::new(0, 24, true);
    assert_eq!(c.selected(), None);
    assert_eq!(c.press(Key::Play), Outcome::Ignored);
    assert_eq!(c.press(Key::Delete), Outcome::Ignored);
    assert_eq!(c.playing, None);
    assert_eq!(c.window(), Window { first: 0, end: 0, cursor: true });
    let w = Chooser::new(0, 0, true).window();
    assert_eq!(w.first, w.end);
}

#[test]
fn short_list_is_drawn_whole() {
    let c = Chooser::new(5, 24, false);
    assert_eq!(c.window(), Window { first: 0, end: 5, cursor: true });
}

#[test]
fn long_list_is_drawn_from_the_start_while_the_cursor_fits() {
    let mut c = Chooser::new(100, 24, false);
    assert_eq!(c.window(), Window { first: 0, end: 21, cursor: true });
    for _ in 0..20 {
        c.press(Key::Down);
    }
    assert_eq!(c.row, 21);
    assert_eq!(c.window(), Window { first: 0, end: 21, cursor: true });
}

#[test]
fn long_list_scrolls_with_the_cursor() {
    let mut c = Chooser::new(100, 24, false);
    for _ in 0..21 {
        c.press(Key::Down);
    }
    assert_eq!(c.row, 22);
    assert_eq!(c.window(), Window { first: 1, end: 22, cursor: false });
    for _ in 0..200 {
        c.press(Key::Down);
    }
    assert_eq!(c.row, 100);
    assert_eq!(c.window(), Window { first: 79, end: 100, cursor: false });
}

#[test]
fn tiny_terminal_draws_no_row() {
    let c = Chooser::new(10, 2, false);
    assert_eq!(c.window(), Window { first: 1, end: 1, cursor: false });
}
