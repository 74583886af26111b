use tap_bpm::input::{
    confirm_keys, manual_keys, play_keys, ConfirmCommands, Key, KeyPress, ManualCommands,
    PlayCommands,
};

fn press(key: Key) -> KeyPress {
    KeyPress { key, modified: false }
}

#[test]
fn browsing_keys() {
    assert_eq!(play_keys(press(Key::Char(' '))), Some(PlayCommands::Tap));
    assert_eq!(play_keys(press(Key::Enter)), Some(PlayCommands::Confirm));
    assert_eq!(play_keys(press(Key::Char('r'))), Some(PlayCommands::Restart));
    assert_eq!(play_keys(press(Key::Up)), Some(PlayCommands::Up));
    assert_eq!(play_keys(press(Key::Char('k'))), Some(PlayCommands::Up));
    assert_eq!(play_keys(press(Key::Down)), Some(PlayCommands::Down));
    assert_eq!(play_keys(press(Key::Char('j'))), Some(PlayCommands::Down));
    assert_eq!(play_keys(press(Key::Char('m'))), Some(PlayCommands::Manual));
    assert_eq!(play_keys(press(Key::Esc)), Some(PlayCommands::Quit));
    assert_eq!(play_keys(press(Key::Char('q'))), Some(PlayCommands::Quit));
    assert_eq!(play_keys(press(Key::Char('x'))), None);
    assert_eq!(play_keys(press(Key::Other)), None);
}

#[test]
fn modified_keys_mean_nothing() {
    let k = KeyPress { key: Key::Char(' '), modified: true };
    assert_eq!(play_keys(k), None);
    let y = KeyPress { key: Key::Char('y'), modified: true };
    assert_eq!(confirm_keys(y), None);
    let d = KeyPress { key: Key::Char('1'), modified: true };
    assert_eq!(manual_keys(d), None);
}

#[test]
fn review_keys() {
    assert_eq!(confirm_keys(press(Key::Char('y'))), Some(ConfirmCommands::Yes));
    assert_eq!(confirm_keys(press(Key::Char('n'))), Some(ConfirmCommands::No));
    assert_eq!(confirm_keys(press(Key::Enter)), None);
}

#[test]
fn manual_entry_keys() {
    assert_eq!(manual_keys(press(Key::Char('0'))), Some(ManualCommands::Digit(0)));
    assert_eq!(manual_keys(press(Key::Char('7'))), Some(ManualCommands::Digit(7)));
    assert_eq!(manual_keys(press(Key::Backspace)), Some(ManualCommands::Backspace));
    assert_eq!(manual_keys(press(Key::Enter)), Some(ManualCommands::Confirm));
    assert_eq!(manual_keys(press(Key::Esc)), Some(ManualCommands::Cancel));
    assert_eq!(manual_keys(press(Key::Char('m'))), Some(ManualCommands::Cancel));
    assert_eq!(manual_keys(press(Key::Char('a'))), None);
    assert_eq!(manual_keys(press(Key::Up)), None);
}
