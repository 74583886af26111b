//! Keys and the commands they stand for in each mode of a session.

use vstd::prelude::*;

verus! {

/// The keys a session tells apart.
#[derive(Clone, Copy, Debug, PartialEq, Eq, Structural)]
pub enum Key {
    Char(char),
    Enter,
    Esc,
    Backspace,
    Up,
    Down,
    /// Any other key.
    Other,
}

/// A key press, and whether a modifier (shift, control, ...) was held.
#[derive(Clone, Copy, Debug, PartialEq, Eq, Structural)]
pub struct KeyPress {
    pub key: Key,
    pub modified: bool,
}

/// Commands while listening to a track.
#[derive(Clone, Copy, Debug, PartialEq, Eq, Structural)]
pub enum PlayCommands {
    Quit,
    Confirm,
    Restart,
    Tap,
    Up,
    Down,
    Manual,
}

/// Answers to "save this tempo?".
#[derive(Clone, Copy, Debug, PartialEq, Eq, Structural)]
pub enum ConfirmCommands {
    Yes,
    No,
}

/// Commands while a tempo is typed in.
#[derive(Clone, Copy, Debug, PartialEq, Eq, Structural)]
pub enum ManualCommands {
    /// A decimal digit, `0` to `9`.
    Digit(u32),
    Backspace,
    Confirm,
    Cancel,
}

pub open spec fn play_command(k: KeyPress) -> Option<PlayCommands> {
    if k.modified {
        None
    } else {
        match k.key {
            Key::Char(' ') => Some(PlayCommands::Tap),
            Key::Esc | Key::Char('q') => Some(PlayCommands::Quit),
            Key::Char('r') => Some(PlayCommands::Restart),
            Key::Enter => Some(PlayCommands::Confirm),
            Key::Up | Key::Char('k') => Some(PlayCommands::Up),
            Key::Down | Key::Char('j') => Some(PlayCommands::Down),
            Key::Char('m') => Some(PlayCommands::Manual),
            _ => None,
        }
    }
}

pub open spec fn confirm_command(k: KeyPress) -> Option<ConfirmCommands> {
    if k.modified {
        None
    } else {
        match k.key {
            Key::Char('y') => Some(ConfirmCommands::Yes),
            Key::Char('n') => Some(ConfirmCommands::No),
            _ => None,
        }
    }
}

pub open spec fn manual_command(k: KeyPress) -> Option<ManualCommands> {
    if k.modified {
        None
    } else {
        match k.key {
            Key::Esc | Key::Char('m') => Some(ManualCommands::Cancel),
            Key::Enter => Some(ManualCommands::Confirm),
            Key::Backspace => Some(ManualCommands::Backspace),
            Key::Char(c) => if '0' <= c <= '9' {
                Some(ManualCommands::Digit((c as u32 - '0' as u32) as u32))
            } else {
                None
            },
            _ => None,
        }
    }
}

/// Space taps, Enter confirms, `r` restarts, Up/`k` and Down/`j` move
/// through the playlist, `m` starts typing a tempo, Esc/`q` quits. A key
/// held with a modifier means nothing.
pub fn play_keys(key: KeyPress) -> (r: Option<PlayCommands>)
    ensures
        r == play_command(key),
{
    if key.modified {
        return None;
    }
    match key.key {
        Key::Char(' ') => Some(PlayCommands::Tap),
        Key::Esc | Key::Char('q') => Some(PlayCommands::Quit),
        Key::Char('r') => Some(PlayCommands::Restart),
        Key::Enter => Some(PlayCommands::Confirm),
        Key::Up | Key::Char('k') => Some(PlayCommands::Up),
        Key::Down | Key::Char('j') => Some(PlayCommands::Down),
        Key::Char('m') => Some(PlayCommands::Manual),
        _ => None,
    }
}

/// `y` saves the tempo, `n` does not. A key held with a modifier means
/// nothing.
pub fn confirm_keys(key: KeyPress) -> (r: Option<ConfirmCommands>)
    ensures
        r == confirm_command(key),
{
    if key.modified {
        return None;
    }
    match key.key {
        Key::Char('y') => Some(ConfirmCommands::Yes),
        Key::Char('n') => Some(ConfirmCommands::No),
        _ => None,
    }
}

/// Digits type a tempo, Backspace removes the last digit, Enter saves,
/// Esc/`m` gives up. A key held with a modifier means nothing.
pub fn manual_keys(key: KeyPress) -> (r: Option<ManualCommands>)
    ensures
        r == manual_command(key),
        r matches Some(ManualCommands::Digit(d)) ==> d < 10,
{
    if key.modified {
        return None;
    }
    match key.key {
        Key::Esc | Key::Char('m') => Some(ManualCommands::Cancel),
        Key::Enter => Some(ManualCommands::Confirm),
        Key::Backspace => Some(ManualCommands::Backspace),
        Key::Char(c) => {
            if '0' <= c && c <= '9' {
                Some(ManualCommands::Digit(c as u32 - '0' as u32))
            } else {
                None
            }
        },
        _ => None,
    }
}

} // verus!
