//! The settings records the application passes in, and the run state
//! machine that owns the timers and drives the mode transitions.
//!
//! The state machine is pure with respect to its surroundings: every
//! time-dependent operation takes the current timestamp (milliseconds of a
//! monotonic clock), and a tick reports the notification sound to play, if
//! any, instead of playing it.

use crate::timer::CountDownTimer;
use crate::timer::MyToType;
use crate::timer::time_string_spec;
use vstd::prelude::*;

verus! {

/// Greatest number of seconds that still fits in a `u64` of milliseconds.
pub const MAX_MS_SECS: u64 = 18446744073709551;

/// Timer-curve settings. Durations are given in minutes and seconds; the
/// steepness `k_micro` is in millionths per second of endurance work.
pub struct Timer {
    pub majitime_min: u64,
    pub majitime_sec: u64,
    pub l_min: u64,
    pub l_sec: u64,
    pub k_micro: u64,
    pub w0_min: u64,
    pub w0_sec: u64,
}

impl Timer {
    /// The durations fit in a `u64` of milliseconds once converted.
    pub open spec fn wf(self) -> bool {
        &&& self.majitime_min * 60 + self.majitime_sec <= MAX_MS_SECS
        &&& self.l_min * 60 + self.l_sec <= MAX_MS_SECS
        &&& self.w0_min * 60 + self.w0_sec <= u64::MAX
    }

    /// The default curve: a 30-second focus block, `L` and `w0` of 40
    /// minutes, and a steepness of 0.0017 per second.
    pub open spec fn template_spec() -> Timer {
        Timer {
            majitime_min: 0,
            majitime_sec: 30,
            l_min: 40,
            l_sec: 0,
            k_micro: 1700,
            w0_min: 40,
            w0_sec: 0,
        }
    }

    pub fn template() -> (t: Timer)
        ensures
            t == Timer::template_spec(),
            t.wf(),
    {
        Timer {
            majitime_min: 0,
            majitime_sec: 30,
            l_min: 40,
            l_sec: 0,
            k_micro: 1700,
            w0_min: 40,
            w0_sec: 0,
        }
    }
}

/// The error of asking for a sound path that is not configured.
#[derive(Debug, PartialEq, Eq, Structural)]
pub enum GetPathErr {
    NoPath,
}

/// Reminder interval and notification sound paths.
pub struct Other {
    pub remind: u64,
    pub finish_sound: String,
    pub restart_sound: String,
    pub remind_sound: String,
}

impl Other {
    /// The reminder interval fits in a `u64` of milliseconds.
    pub open spec fn wf(self) -> bool {
        self.remind * 1000 <= u64::MAX
    }

    /// The default: remind every 10 seconds, no sounds configured.
    pub fn template() -> (o: Other)
        ensures
            o.remind == 10,
            o.finish_sound@ == Seq::<char>::empty(),
            o.restart_sound@ == Seq::<char>::empty(),
            o.remind_sound@ == Seq::<char>::empty(),
            o.wf(),
    {
        Other {
            remind: 10,
            finish_sound: String::new(),
            restart_sound: String::new(),
            remind_sound: String::new(),
        }
    }

    pub fn set_finish_sound(&mut self, finish_sound_path: &str)
        ensures
            final(self).finish_sound@ == finish_sound_path@,
            final(self).restart_sound == old(self).restart_sound,
            final(self).remind_sound == old(self).remind_sound,
            final(self).remind == old(self).remind,
    {
        self.finish_sound = finish_sound_path.to_owned();
    }

    pub fn set_restart_sound(&mut self, restart_sound_path: &str)
        ensures
            final(self).restart_sound@ == restart_sound_path@,
            final(self).finish_sound == old(self).finish_sound,
            final(self).remind_sound == old(self).remind_sound,
            final(self).remind == old(self).remind,
    {
        self.restart_sound = restart_sound_path.to_owned();
    }

    pub fn set_remind_sound(&mut self, remind_sound_path: &str)
        ensures
            final(self).remind_sound@ == remind_sound_path@,
            final(self).finish_sound == old(self).finish_sound,
            final(self).restart_sound == old(self).restart_sound,
            final(self).remind == old(self).remind,
    {
        self.remind_sound = remind_sound_path.to_owned();
    }

    /// The configured finish sound, or `NoPath` when none is set.
    pub fn get_finish_sound(&self) -> (r: Result<&str, GetPathErr>)
        ensures
            self.finish_sound@.len() == 0 <==> r is Err,
            r matches Ok(p) ==> p@ == self.finish_sound@,
    {
        if self.finish_sound.as_str().unicode_len() == 0 {
            Err(GetPathErr::NoPath)
        } else {
            Ok(self.finish_sound.as_str())
        }
    }

    /// The configured restart-urge sound, or `NoPath` when none is set.
    pub fn get_restart_sound(&self) -> (r: Result<&str, GetPathErr>)
        ensures
            self.restart_sound@.len() == 0 <==> r is Err,
            r matches Ok(p) ==> p@ == self.restart_sound@,
    {
        if self.restart_sound.as_str().unicode_len() == 0 {
            Err(GetPathErr::NoPath)
        } else {
            Ok(self.restart_sound.as_str())
        }
    }

    /// The configured remind sound, or `NoPath` when none is set.
    pub fn get_remind_sound(&self) -> (r: Result<&str, GetPathErr>)
        ensures
            self.remind_sound@.len() == 0 <==> r is Err,
            r matches Ok(p) ==> p@ == self.remind_sound@,
    {
        if self.remind_sound.as_str().unicode_len() == 0 {
            Err(GetPathErr::NoPath)
        } else {
            Ok(self.remind_sound.as_str())
        }
    }
}

/// A settings snapshot: consumed read-only by `RunData::init` and
/// `RunData::update`.
pub struct Settings {
    pub timer: Timer,
    pub other: Other,
}

impl Settings {
    pub open spec fn wf(self) -> bool {
        self.timer.wf() && self.other.wf()
    }

    pub fn template() -> (s: Settings)
        ensures
            s.timer == Timer::template_spec(),
            s.other.remind == 10,
            s.other.finish_sound@ == Seq::<char>::empty(),
            s.other.restart_sound@ == Seq::<char>::empty(),
            s.other.remind_sound@ == Seq::<char>::empty(),
            s.wf(),
    {
        Settings { timer: Timer::template(), other: Other::template() }
    }

    /// Whether the durations fit once converted to milliseconds — the
    /// condition `RunData::init` and `RunData::update` require.
    pub fn is_wf(&self) -> (r: bool)
        ensures
            r == self.wf(),
    {
        let t = &self.timer;
        let majitime_ok = (t.majitime_min as u128) * 60 + (t.majitime_sec as u128) <= (
        MAX_MS_SECS as u128);
        let l_ok = (t.l_min as u128) * 60 + (t.l_sec as u128) <= (MAX_MS_SECS as u128);
        let w0_ok = (t.w0_min as u128) * 60 + (t.w0_sec as u128) <= (u64::MAX as u128);
        let remind_ok = (self.other.remind as u128) * 1000 <= (u64::MAX as u128);
        majitime_ok && l_ok && w0_ok && remind_ok
    }
}

/// The mode of the run state machine. `Init` is the start state; it is never
/// re-entered once the machine starts.
#[derive(Debug, PartialEq, Eq, Structural)]
pub enum TimerMode {
    Init,
    MajiTime,
    Endurance,
    Rest,
    UrgedToReMajiTime,
}

/// The successor of each mode on the fixed cycle; from `Init` the machine
/// can only start into `MajiTime`.
pub open spec fn next_mode(m: TimerMode) -> TimerMode {
    match m {
        TimerMode::Init => TimerMode::MajiTime,
        TimerMode::MajiTime => TimerMode::Endurance,
        TimerMode::Endurance => TimerMode::Rest,
        TimerMode::Rest => TimerMode::UrgedToReMajiTime,
        TimerMode::UrgedToReMajiTime => TimerMode::MajiTime,
    }
}

/// The notification a tick asks the surroundings to sound. Playing it is the
/// caller's business; the state machine only reports the intent.
#[derive(Clone, Copy, Debug, PartialEq, Eq, Structural)]
pub enum Notification {
    Finish,
    Restart,
    Remind,
}

/// The run state machine: the active mode, the pause flag, the pending
/// transition request, the cached settings (durations in milliseconds, `l`
/// and `w0` in seconds, `k_micro` in millionths per second), the endurance
/// stopwatch `up` and the countdown `down`.
pub struct RunData {
    pub paused: bool,
    pub mode_transition: bool,
    pub mode: TimerMode,
    pub majitime: u64,
    pub remind: u64,
    pub l: u64,
    pub k_micro: u64,
    pub w0: u64,
    pub up: crate::timer::Timer,
    pub down: CountDownTimer,
}

impl RunData {
    /// Well-formed: the timers are well-formed, the machine is paused in
    /// `Init`, the pause flag mirrors the paused state of whichever timer the
    /// current mode runs on, and `l` fits in a `u64` of milliseconds.
    pub open spec fn wf(self) -> bool {
        &&& self.up.wf()
        &&& self.down.wf()
        &&& self.l * 1000 <= u64::MAX
        &&& match self.mode {
            TimerMode::Init => self.paused,
            TimerMode::MajiTime | TimerMode::Rest | TimerMode::UrgedToReMajiTime => self.down.core.paused
                == self.paused,
            TimerMode::Endurance => self.up.paused == self.paused,
        }
    }

    /// The initial state: paused in `Init`, all settings zero.
    pub open spec fn new_spec() -> RunData {
        RunData {
            paused: true,
            mode_transition: false,
            mode: TimerMode::Init,
            majitime: 0,
            remind: 0,
            l: 0,
            k_micro: 0,
            w0: 0,
            up: crate::timer::Timer::new_spec(),
            down: CountDownTimer::new_spec(),
        }
    }

    pub fn new() -> (r: RunData)
        ensures
            r == RunData::new_spec(),
            r.wf(),
    {
        RunData {
            paused: true,
            mode_transition: false,
            mode: TimerMode::Init,
            majitime: 0,
            remind: 0,
            l: 0,
            k_micro: 0,
            w0: 0,
            up: crate::timer::Timer::new(),
            down: CountDownTimer::new(),
        }
    }

    /// The settings fields `init` and `update` cache, converted to the
    /// machine's units.
    pub open spec fn with_settings(self, s: Settings) -> RunData {
        RunData {
            majitime: ((s.timer.majitime_min * 60 + s.timer.majitime_sec) * 1000) as u64,
            remind: (s.other.remind * 1000) as u64,
            l: (s.timer.l_min * 60 + s.timer.l_sec) as u64,
            k_micro: s.timer.k_micro,
            w0: (s.timer.w0_min * 60 + s.timer.w0_sec) as u64,
            ..self
        }
    }

    /// The state after `init`: settings cached, mode `MajiTime`, running,
    /// with the countdown started on the focus limit.
    pub open spec fn init_spec(self, s: Settings, now: u64) -> RunData {
        let cached = self.with_settings(s);
        RunData {
            mode: TimerMode::MajiTime,
            paused: false,
            down: self.down.init_spec(cached.majitime, now),
            ..cached
        }
    }

    /// Starts (or restarts) the machine: caches the settings and begins a
    /// focus block at `now`.
    pub fn init(&mut self, settings: &Settings, now: u64)
        requires
            old(self).wf(),
            settings.wf(),
        ensures
            *final(self) == old(self).init_spec(*settings, now),
            final(self).wf(),
    {
        self.cache_settings(settings);
        self.mode = TimerMode::MajiTime;
        self.paused = false;
        let limit = self.majitime;
        self.down.init(limit, now);
    }

    /// Re-caches the settings without touching the running timers; the new
    /// values take effect on the next transition that starts a timer.
    pub fn update(&mut self, settings: &Settings)
        requires
            old(self).wf(),
            settings.wf(),
        ensures
            *final(self) == old(self).with_settings(*settings),
            final(self).wf(),
    {
        self.cache_settings(settings);
    }

    fn cache_settings(&mut self, settings: &Settings)
        requires
            old(self).wf(),
            settings.wf(),
        ensures
            *final(self) == old(self).with_settings(*settings),
            final(self).wf(),
    {
        self.majitime = (settings.timer.majitime_min * 60 + settings.timer.majitime_sec) * 1000;
        self.remind = settings.other.remind * 1000;
        self.l = settings.timer.l_min * 60 + settings.timer.l_sec;
        self.k_micro = settings.timer.k_micro;
        self.w0 = settings.timer.w0_min * 60 + settings.timer.w0_sec;
    }

    /// The state after `pause_or_resume`: the pause flag flips, and the
    /// timer the current mode runs on is paused or resumed with it.
    pub open spec fn pause_resume_spec(self, now: u64) -> RunData {
        if self.paused {
            match self.mode {
                TimerMode::Endurance => RunData {
                    up: self.up.resume_spec(now),
                    paused: false,
                    ..self
                },
                _ => RunData { down: self.down.resume_spec(now), paused: false, ..self },
            }
        } else {
            match self.mode {
                TimerMode::Endurance => RunData { up: self.up.pause_spec(now), paused: true, ..self },
                _ => RunData { down: self.down.pause_spec(now), paused: true, ..self },
            }
        }
    }

    /// Pauses a running machine or resumes a paused one. Callers must not
    /// invoke this in `Init`, where no timer is active.
    pub fn pause_or_resume(&mut self, now: u64)
        requires
            old(self).wf(),
            !(old(self).mode is Init),
        ensures
            *final(self) == old(self).pause_resume_spec(now),
            final(self).wf(),
            final(self).paused == !old(self).paused,
    {
        if self.paused {
            match self.mode {
                TimerMode::Endurance => self.up.resume(now),
                _ => self.down.resume(now),
            }
        } else {
            match self.mode {
                TimerMode::Endurance => self.up.pause(now),
                _ => self.down.pause(now),
            }
        }
        self.paused = !self.paused;
    }

    /// Requests a transition out of the current mode. The request is only
    /// honored by a tick in `Endurance` and `UrgedToReMajiTime`; the
    /// surrounding event handler does not raise it elsewhere.
    pub fn mode_transition_start(&mut self)
        ensures
            *final(self) == (RunData { mode_transition: true, ..*old(self) }),
            final(self).wf() == old(self).wf(),
    {
        self.mode_transition = true;
    }

    pub fn paused(&self) -> (r: bool)
        ensures
            r == self.paused,
    {
        self.paused
    }

    pub fn mode(&self) -> (r: &TimerMode)
        ensures
            *r == self.mode,
    {
        &self.mode
    }

    /// The rest duration owed for the endurance work on the stopwatch at
    /// `now`: the logistic curve over whole elapsed seconds, in milliseconds.
    pub open spec fn calc_rest_spec(self, now: u64) -> int {
        crate::rest::rest_ms_spec(
            self.l * 1000,
            self.k_micro as int,
            self.w0 as int,
            self.up.elapsed_spec(now) as int / 1000,
        )
    }

    fn calc_rest_time(&self, now: u64) -> (r: u64)
        requires
            self.wf(),
        ensures
            r == self.calc_rest_spec(now),
    {
        let w_secs = self.up.get_time(now) / 1000;
        proof {
            crate::rest::lemma_rest_bounds(
                self.l * 1000,
                self.k_micro as int,
                self.w0 as int,
                w_secs as int,
            );
        }
        crate::rest::rest_duration_ms(self.l * 1000, self.k_micro, self.w0, w_secs)
    }

    /// The state after one tick at `now`. A paused machine does not move.
    /// Otherwise: a focus countdown that reaches zero starts endurance; an
    /// endurance period ends on a transition request, starting a rest
    /// countdown computed from the endurance time just ended; a rest
    /// countdown that reaches zero enters the urge state on the reminder
    /// interval; the urge state returns to focus on a transition request, and
    /// re-arms the reminder countdown each time it runs out.
    pub open spec fn step_spec(self, now: u64) -> RunData {
        if self.paused {
            self
        } else {
            match self.mode {
                TimerMode::Init => self,
                TimerMode::MajiTime => if self.down.remaining_spec(now) == 0 {
                    RunData {
                        mode_transition: false,
                        mode: TimerMode::Endurance,
                        down: CountDownTimer::new_spec(),
                        up: crate::timer::Timer::started_at(now),
                        ..self
                    }
                } else {
                    self
                },
                TimerMode::Endurance => if self.mode_transition {
                    RunData {
                        mode_transition: false,
                        mode: TimerMode::Rest,
                        up: crate::timer::Timer::new_spec(),
                        down: self.down.init_spec(self.calc_rest_spec(now) as u64, now),
                        ..self
                    }
                } else {
                    self
                },
                TimerMode::Rest => if self.down.remaining_spec(now) == 0 {
                    RunData {
                        mode_transition: false,
                        mode: TimerMode::UrgedToReMajiTime,
                        down: self.down.init_spec(self.remind, now),
                        ..self
                    }
                } else {
                    self
                },
                TimerMode::UrgedToReMajiTime => if self.mode_transition {
                    RunData {
                        mode_transition: false,
                        mode: TimerMode::MajiTime,
                        up: crate::timer::Timer::new_spec(),
                        down: self.down.init_spec(self.majitime, now),
                        ..self
                    }
                } else if self.down.remaining_spec(now) == 0 {
                    RunData { down: self.down.init_spec(self.remind, now), ..self }
                } else {
                    self
                },
            }
        }
    }

    /// The notification a tick at `now` reports: `Finish` when the focus
    /// countdown runs out, `Restart` when the rest countdown runs out, and
    /// `Remind` each time the reminder countdown runs out unanswered.
    pub open spec fn step_note_spec(self, now: u64) -> Option<Notification> {
        if self.paused {
            None
        } else {
            match self.mode {
                TimerMode::MajiTime => if self.down.remaining_spec(now) == 0 {
                    Some(Notification::Finish)
                } else {
                    None
                },
                TimerMode::Rest => if self.down.remaining_spec(now) == 0 {
                    Some(Notification::Restart)
                } else {
                    None
                },
                TimerMode::UrgedToReMajiTime => if !self.mode_transition
                    && self.down.remaining_spec(now) == 0 {
                    Some(Notification::Remind)
                } else {
                    None
                },
                _ => None,
            }
        }
    }

    /// Runs one tick of the state machine at `now` and reports the
    /// notification to sound, if any.
    pub fn state_process(&mut self, now: u64) -> (note: Option<Notification>)
        requires
            old(self).wf(),
        ensures
            *final(self) == old(self).step_spec(now),
            note == old(self).step_note_spec(now),
            final(self).wf(),
    {
        if self.paused {
            return None;
        }
        match self.mode {
            TimerMode::Init => None,
            TimerMode::MajiTime => {
                if self.down.get_time(now) == 0 {
                    self.mode_transition = false;
                    self.mode = TimerMode::Endurance;
                    self.down = CountDownTimer::new();
                    self.up.init(now);
                    Some(Notification::Finish)
                } else {
                    None
                }
            },
            TimerMode::Endurance => {
                if self.mode_transition {
                    let rest = self.calc_rest_time(now);
                    self.mode_transition = false;
                    self.mode = TimerMode::Rest;
                    self.up = crate::timer::Timer::new();
                    self.down.init(rest, now);
                }
                None
            },
            TimerMode::Rest => {
                if self.down.get_time(now) == 0 {
                    self.mode_transition = false;
                    self.mode = TimerMode::UrgedToReMajiTime;
                    let limit = self.remind;
                    self.down.init(limit, now);
                    Some(Notification::Restart)
                } else {
                    None
                }
            },
            TimerMode::UrgedToReMajiTime => {
                if self.mode_transition {
                    self.mode_transition = false;
                    self.mode = TimerMode::MajiTime;
                    self.up = crate::timer::Timer::new();
                    let limit = self.majitime;
                    self.down.init(limit, now);
                    return None;
                }
                if self.down.get_time(now) == 0 {
                    let limit = self.remind;
                    self.down.init(limit, now);
                    Some(Notification::Remind)
                } else {
                    None
                }
            },
        }
    }

    /// The clock string the current mode displays: the countdown's remaining
    /// time in the countdown modes, the stopwatch's elapsed time in
    /// `Endurance`, whole seconds either way.
    pub open spec fn render_time_spec(self, now: u64) -> Seq<char> {
        match self.mode {
            TimerMode::Init => "UNREACHABLE"@,
            TimerMode::Endurance => time_string_spec((self.up.elapsed_spec(now) / 1000) as nat),
            _ => time_string_spec((self.down.remaining_spec(now) / 1000) as nat),
        }
    }

    pub fn render_time(&self, now: u64) -> (s: String)
        requires
            self.wf(),
        ensures
            s@ == self.render_time_spec(now),
    {
        match self.mode {
            TimerMode::Init => String::from_str("UNREACHABLE"),
            TimerMode::Endurance => (self.up.get_time(now) / 1000).to_time_string(),
            _ => (self.down.get_time(now) / 1000).to_time_string(),
        }
    }

    /// The key hints shown outside `Init`.
    pub open spec fn except_init_hints() -> Seq<Seq<char>> {
        seq![
            " ポーズ/再開 "@,
            "<Space> "@,
            " リセット "@,
            "<R> "@,
            " 設定のインポート "@,
            "<I> "@,
            " 設定のエクスポート "@,
            "<E> "@,
            " 終了 "@,
            "<Q> "@,
        ]
    }

    /// The key hints shown in `Init`.
    pub open spec fn init_hints() -> Seq<Seq<char>> {
        seq![
            " スタート "@,
            "<Space> "@,
            " 設定のインポート "@,
            "<I> "@,
            " 設定のエクスポート "@,
            "<E> "@,
            " 終了 "@,
            "<Q> "@,
        ]
    }

    pub open spec fn render_hints_spec(self) -> Seq<Seq<char>> {
        if self.mode is Init {
            RunData::init_hints()
        } else {
            RunData::except_init_hints()
        }
    }

    /// The three description lines of each mode: its name (the application's
    /// name in `Init`), the current clock string (a tagline in `Init`), and
    /// an explanation of the mode.
    pub open spec fn render_lines_spec(self, now: u64) -> Seq<Seq<char>> {
        match self.mode {
            TimerMode::Init => seq![
                "本気タイマー v0.1.0"@,
                "頑張った分だけ休憩が非線形におおよそ多くなるタイマーです"@,
                "ここに現在のタイマーのモードの説明が表示されます"@,
            ],
            TimerMode::MajiTime => seq![
                "本気モード\n"@,
                self.render_time_spec(now),
                "短時間だけ本気で作業をする時間です。休憩厳禁！だけど超短い！"@,
            ],
            TimerMode::Endurance => seq![
                " 耐久モード\n"@,
                self.render_time_spec(now),
                "もうやりたくないと思うまで作業をする時間です。"@ + " <M> "@
                    + "で休憩に入ることができますが、長く作業すればその分長く休憩できます。\n"@,
            ],
            TimerMode::Rest => seq![
                " 休憩モード \n"@,
                self.render_time_spec(now),
                "耐久モードで作業した時間に応じた休憩を取る時間です。十分に休みましょう。"@,
            ],
            TimerMode::UrgedToReMajiTime => seq![
                " 本気モードを手動で開始してください \n"@,
                self.render_time_spec(now),
                "休憩モードでの休憩時間が終わりました。"@ + " <M> "@ + "で再び本気で作業をしましょう。\n"@,
            ],
        }
    }

    fn push_hint_pair(hints: &mut Vec<String>, label: &str, key: &str)
        ensures
            final(hints)@.len() == old(hints)@.len() + 2,
            forall|i: int|
                0 <= i < old(hints)@.len() ==> final(hints)@[i] == old(hints)@[i],
            final(hints)@[old(hints)@.len() as int]@ == label@,
            final(hints)@[old(hints)@.len() as int + 1]@ == key@,
    {
        hints.push(String::from_str(label));
        hints.push(String::from_str(key));
    }

    fn hints_except_init() -> (hints: Vec<String>)
        ensures
            hints@.len() == RunData::except_init_hints().len(),
            forall|i: int|
                0 <= i < hints@.len() ==> hints@[i]@ == RunData::except_init_hints()[i],
    {
        let mut hints: Vec<String> = Vec::new();
        RunData::push_hint_pair(&mut hints, " ポーズ/再開 ", "<Space> ");
        RunData::push_hint_pair(&mut hints, " リセット ", "<R> ");
        RunData::push_hint_pair(&mut hints, " 設定のインポート ", "<I> ");
        RunData::push_hint_pair(&mut hints, " 設定のエクスポート ", "<E> ");
        RunData::push_hint_pair(&mut hints, " 終了 ", "<Q> ");
        hints
    }

    fn hints_init() -> (hints: Vec<String>)
        ensures
            hints@.len() == RunData::init_hints().len(),
            forall|i: int| 0 <= i < hints@.len() ==> hints@[i]@ == RunData::init_hints()[i],
    {
        let mut hints: Vec<String> = Vec::new();
        RunData::push_hint_pair(&mut hints, " スタート ", "<Space> ");
        RunData::push_hint_pair(&mut hints, " 設定のインポート ", "<I> ");
        RunData::push_hint_pair(&mut hints, " 設定のエクスポート ", "<E> ");
        RunData::push_hint_pair(&mut hints, " 終了 ", "<Q> ");
        hints
    }

    /// The render projection: purely from the state at `now`, the list of
    /// description lines and the list of key-hint fragments the terminal
    /// shows. Styling, layout and the paused marker are the renderer's
    /// business.
    pub fn render(&self, now: u64) -> (r: (Vec<String>, Vec<String>))
        requires
            self.wf(),
        ensures
            r.0@.len() == self.render_lines_spec(now).len(),
            forall|i: int|
                0 <= i < r.0@.len() ==> r.0@[i]@ == self.render_lines_spec(now)[i],
            r.1@.len() == self.render_hints_spec().len(),
            forall|i: int| 0 <= i < r.1@.len() ==> r.1@[i]@ == self.render_hints_spec()[i],
    {
        let mut lines: Vec<String> = Vec::new();
        match self.mode {
            TimerMode::Init => {
                lines.push(String::from_str("本気タイマー v0.1.0"));
                lines.push(String::from_str("頑張った分だけ休憩が非線形におおよそ多くなるタイマーです"));
                lines.push(String::from_str("ここに現在のタイマーのモードの説明が表示されます"));
                (lines, RunData::hints_init())
            },
            TimerMode::MajiTime => {
                lines.push(String::from_str("本気モード\n"));
                lines.push(self.render_time(now));
                lines.push(String::from_str("短時間だけ本気で作業をする時間です。休憩厳禁！だけど超短い！"));
                (lines, RunData::hints_except_init())
            },
            TimerMode::Endurance => {
                lines.push(String::from_str(" 耐久モード\n"));
                lines.push(self.render_time(now));
                let mut desc = String::from_str("もうやりたくないと思うまで作業をする時間です。");
                desc.append(" <M> ");
                desc.append("で休憩に入ることができますが、長く作業すればその分長く休憩できます。\n");
                lines.push(desc);
                (lines, RunData::hints_except_init())
            },
            TimerMode::Rest => {
                lines.push(String::from_str(" 休憩モード \n"));
                lines.push(self.render_time(now));
                lines.push(String::from_str("耐久モードで作業した時間に応じた休憩を取る時間です。十分に休みましょう。"));
                (lines, RunData::hints_except_init())
            },
            TimerMode::UrgedToReMajiTime => {
                lines.push(String::from_str(" 本気モードを手動で開始してください \n"));
                lines.push(self.render_time(now));
                let mut desc = String::from_str("休憩モードでの休憩時間が終わりました。");
                desc.append(" <M> ");
                desc.append("で再び本気で作業をしましょう。\n");
                lines.push(desc);
                (lines, RunData::hints_except_init())
            },
        }
    }
}

/// Law: the only mode change a tick can make is the single step along the
/// fixed cycle MajiTime → Endurance → Rest → UrgedToReMajiTime → MajiTime,
/// each on exactly its own trigger; a paused machine never moves, and no
/// tick re-enters `Init`.
pub proof fn lemma_mode_transitions(s: RunData, now: u64)
    requires
        s.wf(),
    ensures
        s.step_spec(now).mode == s.mode || s.step_spec(now).mode == next_mode(s.mode),
        s.paused ==> s.step_spec(now) == s,
        s.step_spec(now).mode is Init ==> s.mode is Init,
        s.mode is Init ==> s.step_spec(now) == s,
        !s.paused && s.mode is MajiTime ==> (s.step_spec(now).mode == TimerMode::Endurance
            <==> s.down.remaining_spec(now) == 0),
        !s.paused && s.mode is Endurance ==> (s.step_spec(now).mode == TimerMode::Rest
            <==> s.mode_transition),
        !s.paused && s.mode is Rest ==> (s.step_spec(now).mode == TimerMode::UrgedToReMajiTime
            <==> s.down.remaining_spec(now) == 0),
        !s.paused && s.mode is UrgedToReMajiTime ==> (s.step_spec(now).mode == TimerMode::MajiTime
            <==> s.mode_transition),
{
}

/// Law: in `UrgedToReMajiTime` with no transition request pending, a tick
/// that finds the countdown exhausted reports the remind notification and
/// re-arms the countdown with the reminder interval — and the resulting
/// state does the same at any tick one reminder interval later, so the
/// reminder repeats indefinitely until the user acts.
pub proof fn lemma_remind_repeats(s: RunData, now1: u64, now2: u64)
    requires
        s.wf(),
        !s.paused,
        !s.mode_transition,
        s.mode is UrgedToReMajiTime,
        s.down.remaining_spec(now1) == 0,
        now1 + s.remind <= now2,
    ensures
        s.step_note_spec(now1) == Some(Notification::Remind),
        ({
            let s1 = s.step_spec(now1);
            &&& s1.mode is UrgedToReMajiTime
            &&& !s1.paused
            &&& !s1.mode_transition
            &&& s1.down.limit == s.remind
            &&& s1.down.remaining_spec(now2) == 0
            &&& s1.step_note_spec(now2) == Some(Notification::Remind)
            &&& s1.step_spec(now2).mode is UrgedToReMajiTime
            &&& s1.step_spec(now2).down.limit == s.remind
        }),
{
}

/// Law: pausing in `Endurance` freezes the stopwatch — its reading is the
/// same at every later time — and resuming at `tr` continues from the frozen
/// value, so the paused interval is excluded from the elapsed time.
pub proof fn lemma_endurance_pause_excludes(s: RunData, tp: u64, tr: u64, t2: u64)
    requires
        s.wf(),
        s.mode is Endurance,
        !s.paused,
        tr <= t2,
        s.up.elapsed_spec(tp) + (t2 - tr) <= u64::MAX,
    ensures
        ({
            let sp = s.pause_resume_spec(tp);
            let sr = sp.pause_resume_spec(tr);
            &&& sp.paused
            &&& forall|t: u64| sp.up.elapsed_spec(t) == s.up.elapsed_spec(tp)
            &&& !sr.paused
            &&& sr.up.elapsed_spec(t2) == s.up.elapsed_spec(tp) + (t2 - tr)
        }),
{
}

} // verus!
