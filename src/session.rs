//! The tap-tempo session: which track plays, the taps heard so far and the
//! mode the user is in, driven one command at a time.
//!
//! Each transition is a spec function from a view of the session to its next
//! view and the action the caller must carry out (play a track, write a tempo
//! to a file, quit).

use vstd::prelude::*;
use crate::estimator::{Bpms, last_window, mean_bpm, sample_of, tap_sample};
use crate::input::{
    ConfirmCommands, KeyPress, ManualCommands, PlayCommands, confirm_command, confirm_keys,
    manual_command, manual_keys, play_command, play_keys,
};
use crate::track::{Music, TagFormat, Track};

verus! {

/// The mode of a session.
#[derive(Clone, Copy, Debug, PartialEq, Eq, Structural)]
pub enum Mode {
    /// Listening to the current track and counting taps.
    Browsing,
    /// A tempo waits for the user to confirm it.
    Reviewing { bpm: u32 },
    /// A tempo is typed in digit by digit.
    ManualEntry { value: u32 },
}

/// What the caller must do after a command.
#[derive(Clone, Copy, Debug, PartialEq, Eq, Structural)]
pub enum Action {
    /// Nothing but drawing the session again.
    Stay,
    /// Stop playback and end the session.
    Quit,
    /// Play the track at `index` from its start, replacing what plays.
    Play { index: usize },
    /// Write `bpm` into the file of the track at `index`, then play the
    /// track at `next`. The session has already recorded `bpm` as that
    /// track's tempo: should the write fail, the caller must end the session
    /// rather than go on with a tempo the file does not hold.
    Save { index: usize, bpm: u32, next: usize },
}

/// A track as the session sees it.
pub ghost struct TrackView {
    pub path: Seq<char>,
    pub format: TagFormat,
    pub bpm: Option<u32>,
}

/// A session as the transitions see it.
pub ghost struct SessionView {
    pub tracks: Seq<TrackView>,
    pub index: int,
    pub window: Seq<u32>,
    pub last_tap: Option<i64>,
    pub mode: Mode,
    pub confirm: bool,
}

pub open spec fn track_view(t: Track) -> TrackView {
    TrackView { path: t.path_view(), format: t.format_view(), bpm: t.bpm_view() }
}

/// The session with no taps heard.
pub open spec fn reset(s: SessionView) -> SessionView {
    SessionView { window: Seq::empty(), last_tap: None, ..s }
}

/// Moves to track `index`, with no taps heard, and plays it.
pub open spec fn go_to(s: SessionView, index: int) -> (SessionView, Action) {
    (SessionView { index, ..reset(s) }, Action::Play { index: index as usize })
}

/// Records `bpm` for the current track, moves to the next one (after the
/// last comes the first), and asks for the write and the playback.
pub open spec fn save(s: SessionView, bpm: u32) -> (SessionView, Action) {
    let next = (s.index + 1) % (s.tracks.len() as int);
    (
        SessionView {
            tracks: s.tracks.update(s.index, TrackView { bpm: Some(bpm), ..s.tracks[s.index] }),
            index: next,
            mode: Mode::Browsing,
            ..reset(s)
        },
        Action::Save { index: s.index as usize, bpm, next: next as usize },
    )
}

/// A tap at `now_ms`: after an earlier tap, the interval's sample joins the
/// window.
pub open spec fn tap(s: SessionView, now_ms: i64) -> SessionView {
    let window = match s.last_tap {
        Some(p) => match sample_of(now_ms - p) {
            Some(b) => last_window(s.window.push(b)),
            None => s.window,
        },
        None => s.window,
    };
    SessionView { window, last_tap: Some(now_ms), ..s }
}

/// A command while browsing; `now_ms` is the time of the command.
pub open spec fn browse(s: SessionView, cmd: PlayCommands, now_ms: i64) -> (SessionView, Action) {
    let n = s.tracks.len() as int;
    match cmd {
        PlayCommands::Quit => (s, Action::Quit),
        PlayCommands::Tap => (tap(s, now_ms), Action::Stay),
        PlayCommands::Restart => go_to(s, s.index),
        PlayCommands::Up => if n == 1 {
            (s, Action::Stay)
        } else {
            go_to(s, (s.index + n - 1) % n)
        },
        PlayCommands::Down => if n == 1 {
            (s, Action::Stay)
        } else {
            go_to(s, (s.index + 1) % n)
        },
        PlayCommands::Manual => (SessionView { mode: Mode::ManualEntry { value: 0 }, ..s }, Action::Stay),
        PlayCommands::Confirm => match mean_bpm(s.window) {
            None => (s, Action::Stay),
            Some(bpm) => if s.confirm {
                (SessionView { mode: Mode::Reviewing { bpm }, ..s }, Action::Stay)
            } else {
                save(s, bpm)
            },
        },
    }
}

/// An answer to "save `bpm`?".
pub open spec fn review(s: SessionView, bpm: u32, cmd: ConfirmCommands) -> (SessionView, Action) {
    match cmd {
        ConfirmCommands::Yes => save(s, bpm),
        ConfirmCommands::No => (SessionView { mode: Mode::Browsing, ..s }, Action::Stay),
    }
}

/// `value` with the digit `d` appended, or `value` itself when the result
/// would not fit in a `u32`.
pub open spec fn with_digit(value: u32, d: u32) -> u32 {
    if value * 10 + d <= u32::MAX {
        (value * 10 + d) as u32
    } else {
        value
    }
}

/// A command while typing the tempo `value`.
pub open spec fn type_in(s: SessionView, value: u32, cmd: ManualCommands) -> (SessionView, Action) {
    match cmd {
        ManualCommands::Digit(d) => (
            SessionView { mode: Mode::ManualEntry { value: with_digit(value, d) }, ..s },
            Action::Stay,
        ),
        ManualCommands::Backspace => (
            SessionView { mode: Mode::ManualEntry { value: value / 10 }, ..s },
            Action::Stay,
        ),
        ManualCommands::Confirm => save(s, value),
        ManualCommands::Cancel => (SessionView { mode: Mode::Browsing, ..s }, Action::Stay),
    }
}

/// A key pressed at `now_ms`, read by the current mode; a key that means
/// nothing there changes nothing.
pub open spec fn on_key(s: SessionView, key: KeyPress, now_ms: i64) -> (SessionView, Action) {
    match s.mode {
        Mode::Browsing => match play_command(key) {
            Some(cmd) => browse(s, cmd, now_ms),
            None => (s, Action::Stay),
        },
        Mode::Reviewing { bpm } => match confirm_command(key) {
            Some(cmd) => review(s, bpm, cmd),
            None => (s, Action::Stay),
        },
        Mode::ManualEntry { value } => match manual_command(key) {
            Some(cmd) => type_in(s, value, cmd),
            None => (s, Action::Stay),
        },
    }
}

proof fn lemma_wrap_next(i: int, n: int)
    requires
        0 <= i < n,
    ensures
        (i + 1) % n == if i + 1 < n { i + 1 } else { 0 },
{
    if i + 1 < n {
        vstd::arithmetic::div_mod::lemma_small_mod((i + 1) as nat, n as nat);
    } else {
        vstd::arithmetic::div_mod::lemma_mod_self_0(n);
    }
}

proof fn lemma_wrap_previous(i: int, n: int)
    requires
        0 <= i < n,
    ensures
        (i + n - 1) % n == if i > 0 { i - 1 } else { n - 1 },
{
    if i > 0 {
        vstd::arithmetic::div_mod::lemma_small_mod((i - 1) as nat, n as nat);
        assert(i + n - 1 == (i - 1) + n);
        vstd::arithmetic::div_mod::lemma_mod_add_multiples_vanish(i - 1, n);
    } else {
        vstd::arithmetic::div_mod::lemma_small_mod((n - 1) as nat, n as nat);
    }
}

/// With confirmation asked for, Confirm with an estimate only moves to
/// reviewing that estimate: nothing is written and nothing else changes.
/// Answering yes then asks for exactly one write, of that estimate to the
/// current track, and browses the next track (after the last, the first)
/// with no taps heard.
pub proof fn law_confirm_reviews_then_saves(s: SessionView, now_ms: i64, bpm: u32)
    requires
        0 <= s.index < s.tracks.len(),
        s.mode == Mode::Browsing,
        s.confirm,
        mean_bpm(s.window) == Some(bpm),
    ensures
        browse(s, PlayCommands::Confirm, now_ms) == (
        SessionView { mode: Mode::Reviewing { bpm }, ..s },
        Action::Stay,
        ),
        review(browse(s, PlayCommands::Confirm, now_ms).0, bpm, ConfirmCommands::Yes).1 == (
        Action::Save {
            index: s.index as usize,
            bpm,
            next: ((s.index + 1) % (s.tracks.len() as int)) as usize,
        }),
        review(browse(s, PlayCommands::Confirm, now_ms).0, bpm, ConfirmCommands::Yes).0 == (
        SessionView {
            tracks: s.tracks.update(s.index, TrackView { bpm: Some(bpm), ..s.tracks[s.index] }),
            index: (s.index + 1) % (s.tracks.len() as int),
            window: Seq::empty(),
            last_tap: None,
            mode: Mode::Browsing,
            confirm: s.confirm,
        }),
{
}

/// On a playlist of one track, moving to the next or the previous track
/// changes nothing: playback is not restarted and the taps are kept.
pub proof fn law_single_track_does_not_move(s: SessionView, now_ms: i64)
    requires
        s.tracks.len() == 1,
        s.mode == Mode::Browsing,
    ensures
        browse(s, PlayCommands::Down, now_ms) == (s, Action::Stay),
        browse(s, PlayCommands::Up, now_ms) == (s, Action::Stay),
{
}

/// Typing a digit never wraps around: the value becomes `value * 10 + d`
/// when that fits in a `u32` and stays as it was otherwise. Past a tenth of
/// the largest `u32` no digit changes the session at all.
pub proof fn law_digits_never_wrap(s: SessionView, value: u32, d: u32)
    requires
        d < 10,
        s.mode == (Mode::ManualEntry { value }),
    ensures
        with_digit(value, d) == value * 10 + d || with_digit(value, d) == value,
        with_digit(value, d) >= value,
        value * 10 + d <= u32::MAX ==> with_digit(value, d) == value * 10 + d,
        value > u32::MAX / 10 ==> type_in(s, value, ManualCommands::Digit(d)) == (s, Action::Stay),
{
}

/// `value` with the digit `d` appended, unless that would not fit.
pub fn append_digit(value: u32, d: u32) -> (r: u32)
    requires
        d < 10,
    ensures
        r == with_digit(value, d),
{
    if value > u32::MAX / 10 {
        value
    } else {
        let shifted: u32 = value * 10;
        if shifted > u32::MAX - d {
            value
        } else {
            shifted + d
        }
    }
}

/// A tap-tempo session over a non-empty playlist.
pub struct Session {
    tracks: Vec<Track>,
    index: usize,
    bpms: Bpms,
    last_tap: Option<i64>,
    mode: Mode,
    confirm: bool,
}

impl View for Session {
    type V = SessionView;

    closed spec fn view(&self) -> SessionView {
        SessionView {
            tracks: self.tracks@.map_values(|t: Track| track_view(t)),
            index: self.index as int,
            window: self.bpms.window(),
            last_tap: self.last_tap,
            mode: self.mode,
            confirm: self.confirm,
        }
    }
}

impl Session {
    pub closed spec fn wf(&self) -> bool {
        &&& self.tracks@.len() > 0
        &&& self.index < self.tracks@.len()
        &&& self.bpms.wf()
    }

    /// A session over `tracks`, browsing the first one with no taps heard;
    /// `confirm` asks for confirmation before a tempo is saved. There is no
    /// session over no tracks.
    pub fn new(tracks: Vec<Track>, confirm: bool) -> (r: Option<Session>)
        ensures
            r is None <==> tracks@.len() == 0,
            r matches Some(s) ==> s.wf() && s@ == (SessionView {
                tracks: tracks@.map_values(|t: Track| track_view(t)),
                index: 0,
                window: Seq::empty(),
                last_tap: None,
                mode: Mode::Browsing,
                confirm,
            }),
    {
        if tracks.len() == 0 {
            return None;
        }
        Some(Session { tracks, index: 0, bpms: Bpms::new(), last_tap: None, mode: Mode::Browsing, confirm })
    }

    /// The tracks, in playlist order.
    pub fn tracks(&self) -> (r: &Vec<Track>)
        ensures
            r@.map_values(|t: Track| track_view(t)) == self@.tracks,
    {
        &self.tracks
    }

    /// The position of the current track.
    pub fn current(&self) -> (r: usize)
        requires
            self.wf(),
        ensures
            r == self@.index,
            r < self@.tracks.len(),
    {
        self.index
    }

    pub fn mode(&self) -> (r: Mode)
        ensures
            r == self@.mode,
    {
        self.mode
    }

    /// The window of tap samples heard since the last reset.
    pub fn bpms(&self) -> (r: &Bpms)
        requires
            self.wf(),
        ensures
            r.wf(),
            r.window() == self@.window,
    {
        &self.bpms
    }

    /// The time of the last tap since the last reset, if any.
    pub fn last_tap(&self) -> (r: Option<i64>)
        ensures
            r == self@.last_tap,
    {
        self.last_tap
    }

    /// The tempo the taps heard so far give, if any.
    pub fn estimate(&self) -> (r: Option<u32>)
        requires
            self.wf(),
        ensures
            r == mean_bpm(self@.window),
    {
        self.bpms.avg()
    }

    fn forget_taps(&mut self)
        requires
            old(self).wf(),
        ensures
            final(self).wf(),
            final(self)@ == reset(old(self)@),
    {
        self.bpms = Bpms::new();
        self.last_tap = None;
    }

    fn go_to(&mut self, index: usize) -> (r: Action)
        requires
            old(self).wf(),
            index < old(self)@.tracks.len(),
        ensures
            final(self).wf(),
            (final(self)@, r) == go_to(old(self)@, index as int),
    {
        self.forget_taps();
        self.index = index;
        Action::Play { index }
    }

    /// A tap heard at `now_ms` while browsing.
    fn tap(&mut self, now_ms: i64)
        requires
            old(self).wf(),
        ensures
            final(self).wf(),
            final(self)@ == tap(old(self)@, now_ms),
    {
        if let Some(previous) = self.last_tap {
            if let Some(sample) = tap_sample(previous, now_ms) {
                self.bpms.push(sample);
            }
        }
        self.last_tap = Some(now_ms);
    }

    /// Carries out `cmd`, given while browsing at time `now_ms`.
    pub fn play(&mut self, cmd: PlayCommands, now_ms: i64) -> (r: Action)
        requires
            old(self).wf(),
            old(self)@.mode == Mode::Browsing,
        ensures
            final(self).wf(),
            (final(self)@, r) == browse(old(self)@, cmd, now_ms),
    {
        let n = self.tracks.len();
        let index = self.index;
        proof {
            lemma_wrap_next(index as int, n as int);
            lemma_wrap_previous(index as int, n as int);
        }
        match cmd {
            PlayCommands::Quit => Action::Quit,
            PlayCommands::Tap => {
                self.tap(now_ms);
                Action::Stay
            },
            PlayCommands::Restart => self.go_to(index),
            PlayCommands::Up => {
                if n == 1 {
                    Action::Stay
                } else if index > 0 {
                    self.go_to(index - 1)
                } else {
                    self.go_to(n - 1)
                }
            },
            PlayCommands::Down => {
                if n == 1 {
                    Action::Stay
                } else if index < n - 1 {
                    self.go_to(index + 1)
                } else {
                    self.go_to(0)
                }
            },
            PlayCommands::Manual => {
                self.mode = Mode::ManualEntry { value: 0 };
                Action::Stay
            },
            PlayCommands::Confirm => match self.bpms.avg() {
                None => Action::Stay,
                Some(bpm) => {
                    if self.confirm {
                        self.mode = Mode::Reviewing { bpm };
                        Action::Stay
                    } else {
                        self.save(bpm)
                    }
                },
            },
        }
    }

    /// Carries out the answer `cmd` to "save this tempo?".
    pub fn review(&mut self, cmd: ConfirmCommands) -> (r: Action)
        requires
            old(self).wf(),
            old(self)@.mode is Reviewing,
        ensures
            final(self).wf(),
            (final(self)@, r) == review(old(self)@, old(self)@.mode->Reviewing_bpm, cmd),
    {
        let bpm = match self.mode {
            Mode::Reviewing { bpm } => bpm,
            _ => 0,
        };
        match cmd {
            ConfirmCommands::Yes => self.save(bpm),
            ConfirmCommands::No => {
                self.mode = Mode::Browsing;
                Action::Stay
            },
        }
    }

    /// Carries out `cmd`, given while a tempo is typed in.
    pub fn manual(&mut self, cmd: ManualCommands) -> (r: Action)
        requires
            old(self).wf(),
            old(self)@.mode is ManualEntry,
            cmd matches ManualCommands::Digit(d) ==> d < 10,
        ensures
            final(self).wf(),
            (final(self)@, r) == type_in(old(self)@, old(self)@.mode->ManualEntry_value, cmd),
    {
        let value = match self.mode {
            Mode::ManualEntry { value } => value,
            _ => 0,
        };
        match cmd {
            ManualCommands::Digit(d) => {
                self.mode = Mode::ManualEntry { value: append_digit(value, d) };
                Action::Stay
            },
            ManualCommands::Backspace => {
                self.mode = Mode::ManualEntry { value: value / 10 };
                Action::Stay
            },
            ManualCommands::Confirm => self.save(value),
            ManualCommands::Cancel => {
                self.mode = Mode::Browsing;
                Action::Stay
            },
        }
    }

    /// Carries out the key `key` pressed at `now_ms`, as the current mode
    /// reads it.
    pub fn key_at(&mut self, key: KeyPress, now_ms: i64) -> (r: Action)
        requires
            old(self).wf(),
        ensures
            final(self).wf(),
            (final(self)@, r) == on_key(old(self)@, key, now_ms),
    {
        match self.mode {
            Mode::Browsing => match play_keys(key) {
                Some(cmd) => self.play(cmd, now_ms),
                None => Action::Stay,
            },
            Mode::Reviewing { .. } => match confirm_keys(key) {
                Some(cmd) => self.review(cmd),
                None => Action::Stay,
            },
            Mode::ManualEntry { .. } => match manual_keys(key) {
                Some(cmd) => self.manual(cmd),
                None => Action::Stay,
            },
        }
    }

    fn save(&mut self, bpm: u32) -> (r: Action)
        requires
            old(self).wf(),
        ensures
            final(self).wf(),
            (final(self)@, r) == save(old(self)@, bpm),
    {
        let ghost s0 = self@;
        let index = self.index;
        let next = if index < self.tracks.len() - 1 { index + 1 } else { 0 };
        proof {
            lemma_wrap_next(index as int, s0.tracks.len() as int);
        }
        self.tracks[index].record_bpm(bpm);
        self.forget_taps();
        self.index = next;
        self.mode = Mode::Browsing;
        proof {
            let (s1, a1) = save(s0, bpm);
            assert(self@.tracks =~= s1.tracks);
            assert(self@ == s1);
        }
        Action::Save { index, bpm, next }
    }
}

} // verus!
