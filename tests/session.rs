use tap_bpm::input::{ConfirmCommands, Key, KeyPress, ManualCommands, PlayCommands};
use tap_bpm::session::{append_digit, Action, Mode, Session};
use tap_bpm::track::{Music, TagFormat, Track};

fn playlist(n: usize) -> Vec<Track> {
    (0..n)
        .map(|i| Track::new(format!("t{}.mp3", i), TagFormat::Id3, None))
        .collect()
}

fn press(c: char) -> KeyPress {
    KeyPress { key: Key::Char(c), modified: false }
}

/// Taps four times 666 ms apart: every sample is 90090 thousandths.
fn tap_ninety(s: &mut Session) {
    for k in 0..4i64 {
        assert_eq!(s.play(PlayCommands::Tap, 10_000 + 666 * k), Action::Stay);
    }
    assert_eq!(s.estimate(), Some(90));
}

#[test]
fn no_session_without_tracks() {
    assert!(Session::new(Vec::new(), false).is_none());
}

#[test]
fn new_session_browses_the_first_track() {
    let s = Session::new(playlist(3), true).unwrap();
    assert_eq!(s.current(), 0);
    assert_eq!(s.mode(), Mode::Browsing);
    assert_eq!(s.estimate(), None);
    assert_eq!(s.tracks().len(), 3);
}

#[test]
fn two_taps_half_a_second_apart() {
    let mut s = Session::new(playlist(1), false).unwrap();
    s.play(PlayCommands::Tap, 1_000);
    assert_eq!(s.estimate(), None);
    s.play(PlayCommands::Tap, 1_500);
    assert_eq!(s.estimate(), Some(120));
}

#[test]
fn confirm_with_review_then_yes() {
    let mut s = Session::new(playlist(3), true).unwrap();
    s.play(PlayCommands::Down, 0);
    s.play(PlayCommands::Down, 0);
    assert_eq!(s.current(), 2);
    tap_ninety(&mut s);
    assert_eq!(s.play(PlayCommands::Confirm, 20_000), Action::Stay);
    assert_eq!(s.mode(), Mode::Reviewing { bpm: 90 });
    assert_eq!(s.tracks()[2].bpm(), None);
    assert_eq!(s.review(ConfirmCommands::Yes), Action::Save { index: 2, bpm: 90, next: 0 });
    assert_eq!(s.mode(), Mode::Browsing);
    assert_eq!(s.current(), 0);
    assert_eq!(s.estimate(), None);
    assert_eq!(s.tracks()[2].bpm(), Some(90));
    assert_eq!(s.tracks()[0].bpm(), None);
}

#[test]
fn review_no_keeps_the_track_and_taps() {
    let mut s = Session::new(playlist(2), true).unwrap();
    tap_ninety(&mut s);
    s.play(PlayCommands::Confirm, 20_000);
    assert_eq!(s.review(ConfirmCommands::No), Action::Stay);
    assert_eq!(s.mode(), Mode::Browsing);
    assert_eq!(s.current(), 0);
    assert_eq!(s.estimate(), Some(90));
    assert_eq!(s.tracks()[0].bpm(), None);
}

#[test]
fn confirm_without_review_saves_at_once() {
    let mut s = Session::new(playlist(2), false).unwrap();
    tap_ninety(&mut s);
    assert_eq!(s.play(PlayCommands::Confirm, 20_000), Action::Save { index: 0, bpm: 90, next: 1 });
    assert_eq!(s.current(), 1);
    assert_eq!(s.tracks()[0].bpm(), Some(90));
}

#[test]
fn confirm_without_taps_does_nothing() {
    let mut s = Session::new(playlist(2), false).unwrap();
    s.play(PlayCommands::Tap, 5);
    assert_eq!(s.play(PlayCommands::Confirm, 10), Action::Stay);
    assert_eq!(s.mode(), Mode::Browsing);
    assert_eq!(s.current(), 0);
}

#[test]
fn single_track_does_not_move() {
    let mut s = Session::new(playlist(1), false).unwrap();
    tap_ninety(&mut s);
    assert_eq!(s.play(PlayCommands::Down, 30_000), Action::Stay);
    assert_eq!(s.play(PlayCommands::Up, 30_000), Action::Stay);
    assert_eq!(s.current(), 0);
    assert_eq!(s.estimate(), Some(90));
}

#[test]
fn moving_wraps_and_forgets_taps() {
    let mut s = Session::new(playlist(3), false).unwrap();
    tap_ninety(&mut s);
    assert_eq!(s.play(PlayCommands::Up, 0), Action::Play { index: 2 });
    assert_eq!(s.estimate(), None);
    assert_eq!(s.play(PlayCommands::Down, 0), Action::Play { index: 0 });
    assert_eq!(s.play(PlayCommands::Down, 0), Action::Play { index: 1 });
    // the first tap after moving only records its time
    s.play(PlayCommands::Tap, 100);
    assert_eq!(s.estimate(), None);
}

#[test]
fn restart_plays_again_and_forgets_taps() {
    let mut s = Session::new(playlist(2), false).unwrap();
    tap_ninety(&mut s);
    assert_eq!(s.play(PlayCommands::Restart, 0), Action::Play { index: 0 });
    assert_eq!(s.estimate(), None);
}

#[test]
fn quit_ends_the_session() {
    let mut s = Session::new(playlist(2), false).unwrap();
    assert_eq!(s.play(PlayCommands::Quit, 0), Action::Quit);
}

#[test]
fn manual_digits_and_backspace() {
    let mut s = Session::new(playlist(2), false).unwrap();
    s.play(PlayCommands::Manual, 0);
    assert_eq!(s.mode(), Mode::ManualEntry { value: 0 });
    s.manual(ManualCommands::Digit(1));
    s.manual(ManualCommands::Digit(2));
    s.manual(ManualCommands::Digit(8));
    assert_eq!(s.mode(), Mode::ManualEntry { value: 128 });
    s.manual(ManualCommands::Backspace);
    assert_eq!(s.mode(), Mode::ManualEntry { value: 12 });
}

#[test]
fn manual_confirm_saves_the_typed_value() {
    let mut s = Session::new(playlist(2), true).unwrap();
    s.play(PlayCommands::Manual, 0);
    s.manual(ManualCommands::Digit(7));
    s.manual(ManualCommands::Digit(5));
    assert_eq!(s.manual(ManualCommands::Confirm), Action::Save { index: 0, bpm: 75, next: 1 });
    assert_eq!(s.mode(), Mode::Browsing);
    assert_eq!(s.tracks()[0].bpm(), Some(75));
}

#[test]
fn manual_cancel_discards_the_value() {
    let mut s = Session::new(playlist(2), false).unwrap();
    s.play(PlayCommands::Manual, 0);
    s.manual(ManualCommands::Digit(7));
    assert_eq!(s.manual(ManualCommands::Cancel), Action::Stay);
    assert_eq!(s.mode(), Mode::Browsing);
    assert_eq!(s.tracks()[0].bpm(), None);
}

#[test]
fn digits_stop_at_the_largest_value() {
    let mut s = Session::new(playlist(1), false).unwrap();
    s.play(PlayCommands::Manual, 0);
    for _ in 0..15 {
        s.manual(ManualCommands::Digit(9));
    }
    assert_eq!(s.mode(), Mode::ManualEntry { value: 999_999_999 });
    assert_eq!(append_digit(429_496_729, 5), u32::MAX);
    assert_eq!(append_digit(429_496_729, 6), 429_496_729);
    assert_eq!(append_digit(u32::MAX, 0), u32::MAX);
    assert_eq!(append_digit(0, 0), 0);
}

#[test]
fn keys_are_read_by_mode() {
    let mut s = Session::new(playlist(2), true).unwrap();
    assert_eq!(s.key_at(press('m'), 0), Action::Stay);
    assert_eq!(s.mode(), Mode::ManualEntry { value: 0 });
    s.key_at(press('1'), 0);
    s.key_at(press('2'), 0);
    s.key_at(press('8'), 0);
    s.key_at(press('x'), 0);
    assert_eq!(s.mode(), Mode::ManualEntry { value: 128 });
    s.key_at(KeyPress { key: Key::Backspace, modified: false }, 0);
    assert_eq!(s.mode(), Mode::ManualEntry { value: 12 });
    s.key_at(KeyPress { key: Key::Esc, modified: false }, 0);
    assert_eq!(s.mode(), Mode::Browsing);
    s.key_at(press(' '), 1_000);
    s.key_at(press(' '), 1_500);
    assert_eq!(s.estimate(), Some(120));
    s.key_at(KeyPress { key: Key::Enter, modified: false }, 2_000);
    assert_eq!(s.mode(), Mode::Reviewing { bpm: 120 });
    assert_eq!(s.key_at(press('q'), 2_000), Action::Stay);
    assert_eq!(s.key_at(press('y'), 2_000), Action::Save { index: 0, bpm: 120, next: 1 });
    assert_eq!(s.key_at(press('q'), 2_000), Action::Quit);
}

#[test]
fn confirm_under_review_keeps_taps_and_track() {
    let mut s = Session::new(playlist(2), true).unwrap();
    tap_ninety(&mut s);
    let last = s.last_tap();
    assert_eq!(s.bpms().avg(), Some(90));
    assert_eq!(s.play(PlayCommands::Confirm, 20_000), Action::Stay);
    assert_eq!(s.mode(), Mode::Reviewing { bpm: 90 });
    assert_eq!(s.current(), 0);
    assert_eq!(s.bpms().avg(), Some(90));
    assert_eq!(s.last_tap(), last);
    assert_eq!(s.tracks()[0].bpm(), None);
    assert_eq!(s.tracks()[1].bpm(), None);
}

#[test]
fn single_track_keeps_estimator_and_last_tap() {
    let mut s = Session::new(playlist(1), false).unwrap();
    tap_ninety(&mut s);
    assert_eq!(s.last_tap(), Some(10_000 + 666 * 3));
    assert_eq!(s.play(PlayCommands::Down, 30_000), Action::Stay);
    assert_eq!(s.bpms().avg(), Some(90));
    assert_eq!(s.last_tap(), Some(10_000 + 666 * 3));
    assert_eq!(s.play(PlayCommands::Up, 30_000), Action::Stay);
    assert_eq!(s.last_tap(), Some(10_000 + 666 * 3));
}
