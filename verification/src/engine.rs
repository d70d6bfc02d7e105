//! Per-tick update rules and the decision engine.
//!
//! Each tick the driver reads the raw cells through the path reader, maps
//! every failed read to its documented default, and hands the plain values to
//! [`update_loop`]; the decision engine then derives the loading flag, the
//! corrected elapsed time and the timer commands for the tick, gated by the
//! external timer's reported state.
//!
//! Durations are whole milliseconds held in `u64`. The accumulated buffer
//! keeps the reported elapsed time monotonic across internal resets of the raw
//! in-game clock: whenever the newly derived clock value is strictly below the
//! previous one, the previous value is added to the buffer before the new
//! value is installed. The buffer never shrinks, except that it is reset to
//! exactly zero on a tick that finds the external timer not running.

use vstd::prelude::*;

use crate::watcher::Watcher;

verus! {

/// The one persisted option: drive elapsed time from the derived in-game
/// clock (`igt` true) instead of leaving it to the external default source.
pub struct Settings {
    pub igt: bool,
}

/// The mutable per-attachment state: the two tracked quantities and the
/// monotonic correction buffer, all in milliseconds where durations appear.
pub struct Watchers {
    pub is_loading: Watcher<bool>,
    pub igt: Watcher<u64>,
    pub igt_buffer: u64,
}

impl Watchers {
    /// Fresh state for a new process attachment: nothing observed, buffer
    /// zero.
    pub fn new() -> (w: Watchers)
        ensures
            w.is_loading.pair is None,
            w.igt.pair is None,
            w.igt_buffer == 0,
    {
        Watchers { is_loading: Watcher::new(), igt: Watcher::new(), igt_buffer: 0 }
    }
}

/// The external timer's reported state. The engine only reacts to it through
/// one-way commands; the timer itself is the single source of truth.
#[derive(Clone, Copy, PartialEq, Eq, Structural)]
pub enum TimerState {
    NotRunning,
    Running,
    Paused,
}

/// A one-way command for the external timer, in the order the engine decided
/// them for one tick. The payload of `SetGameTime` is milliseconds.
#[derive(Clone, Copy, PartialEq, Eq, Structural, Debug)]
pub enum TimerCommand {
    Start,
    Split,
    Reset,
    PauseGameTime,
    ResumeGameTime,
    SetGameTime(u64),
}

/// Saturating addition of millisecond durations.
pub open spec fn spec_sat_add(a: u64, b: u64) -> u64 {
    if a + b > u64::MAX {
        u64::MAX
    } else {
        (a + b) as u64
    }
}

/// The loading-state value a tick works with: the raw read, or 0 (not
/// loading) when the read failed.
pub open spec fn spec_loading_state(read: Option<u32>) -> u32 {
    match read {
        Some(v) => v,
        None => 0,
    }
}

/// The stuck flag a tick works with: true exactly when the stuck-flag byte
/// was read and is nonzero; a failed read counts as false.
pub open spec fn spec_stuck_flag(read: Option<u8>) -> bool {
    match read {
        Some(v) => v != 0,
        None => false,
    }
}

/// The stage id a tick works with: the raw read, or 0 ("no stage / world
/// map") when the read failed.
pub open spec fn spec_stage(read: Option<u8>) -> u8 {
    match read {
        Some(v) => v,
        None => 0,
    }
}

/// The derived clock milliseconds a tick works with before the stage gate:
/// the converted read, or zero when the read failed or was invalid.
pub open spec fn spec_clock_millis(read: Option<u64>) -> u64 {
    match read {
        Some(v) => v,
        None => 0,
    }
}

/// The combined loading flag fed to its watcher: the game is loading when the
/// stuck flag is set, or when the loading-state value is nonzero and not the
/// benign sentinel 2.
pub open spec fn spec_loading_flag(stuck_flag: bool, loading_state: u32) -> bool {
    stuck_flag || (loading_state != 0 && loading_state != 2)
}

/// The clock value fed to its watcher: stage id 0 means "no stage / world
/// map" and forces a zero duration for the tick, whatever the raw clock said.
pub open spec fn spec_tick_clock(stage: u8, clock_millis: u64) -> u64 {
    if stage == 0 {
        0
    } else {
        clock_millis
    }
}

/// The clock watcher's current value before this tick, or zero when nothing
/// was observed yet.
pub open spec fn spec_prev_clock(w: Watchers) -> u64 {
    match w.igt.pair {
        Some(p) => p.current,
        None => 0,
    }
}

/// The accumulated buffer after a tick that derives `new_clock`: a strict
/// regression absorbs the whole previous value into the buffer.
pub open spec fn spec_buffer_after(w: Watchers, new_clock: u64) -> u64 {
    if new_clock < spec_prev_clock(w) {
        spec_sat_add(w.igt_buffer, spec_prev_clock(w))
    } else {
        w.igt_buffer
    }
}

/// Applies one tick's raw observations to the watcher state. Each argument is
/// the outcome of one read, `None` for a failed read; the documented defaults
/// (0, false, 0, zero duration) are applied here. `clock_millis` carries the
/// already-scaled milliseconds of the raw in-game clock; the stage-0 gate and
/// the regression correction are applied here, in that order, before the
/// clock watcher is updated.
pub fn update_loop(
    watchers: &mut Watchers,
    loading_state: Option<u32>,
    stuck_flag: Option<u8>,
    stage: Option<u8>,
    clock_millis: Option<u64>,
)
    ensures
        final(watchers).is_loading == old(watchers).is_loading.spec_updated(
            spec_loading_flag(spec_stuck_flag(stuck_flag), spec_loading_state(loading_state)),
        ),
        final(watchers).igt == old(watchers).igt.spec_updated(
            spec_tick_clock(spec_stage(stage), spec_clock_millis(clock_millis)),
        ),
        final(watchers).igt_buffer == spec_buffer_after(
            *old(watchers),
            spec_tick_clock(spec_stage(stage), spec_clock_millis(clock_millis)),
        ),
{
    let state: u32 = match loading_state {
        Some(v) => v,
        None => 0,
    };
    let stuck: bool = match stuck_flag {
        Some(v) => v != 0,
        None => false,
    };
    watchers.is_loading.update_infallible(stuck || (state != 0 && state != 2));

    let stage_id: u8 = match stage {
        Some(v) => v,
        None => 0,
    };
    let igt: u64 = if stage_id == 0 {
        0
    } else {
        match clock_millis {
            Some(v) => v,
            None => 0,
        }
    };

    let old_igt: u64 = match &watchers.igt.pair {
        Some(p) => p.current,
        None => 0,
    };
    if igt < old_igt {
        watchers.igt_buffer = watchers.igt_buffer.saturating_add(old_igt);
    }
    watchers.igt.update_infallible(igt);
}

/// Law: the loading flag is set exactly when the stuck-flag byte is nonzero,
/// or the loading-state value is nonzero and differs from the sentinel 2.
pub proof fn lemma_loading_flag(stuck_byte: u8, loading_state: u32)
    ensures
        spec_loading_flag(stuck_byte != 0, loading_state) <==> (stuck_byte != 0 || (loading_state
            != 0 && loading_state != 2)),
{
}

/// Law: a tick never shrinks the accumulated buffer, and a strict clock
/// regression grows it by the whole previous value (saturating).
pub proof fn lemma_buffer_monotonic(w: Watchers, new_clock: u64)
    ensures
        spec_buffer_after(w, new_clock) >= w.igt_buffer,
        new_clock < spec_prev_clock(w) ==> spec_buffer_after(w, new_clock) == spec_sat_add(
            w.igt_buffer,
            spec_prev_clock(w),
        ),
{
}

/// What the loading decision reports: with the in-game-time option on, always
/// loading (elapsed time is driven purely by explicit game-time updates);
/// otherwise the loading watcher's current value, or nothing before its first
/// observation.
pub open spec fn spec_is_loading(w: Watchers, s: Settings) -> Option<bool> {
    if s.igt {
        Some(true)
    } else {
        w.is_loading.spec_current()
    }
}

/// Whether the game is currently loading and elapsed-time accounting should
/// pause.
pub fn is_loading(watchers: &Watchers, settings: &Settings) -> (r: Option<bool>)
    ensures
        r == spec_is_loading(*watchers, *settings),
{
    if settings.igt {
        Some(true)
    } else {
        watchers.is_loading.current()
    }
}

/// What the elapsed-time decision reports: nothing unless the in-game-time
/// option is on; with it on, the clock watcher's current value plus the
/// accumulated buffer, or nothing before the first observation.
pub open spec fn spec_game_time(w: Watchers, s: Settings) -> Option<u64> {
    if !s.igt {
        None
    } else {
        match w.igt.pair {
            Some(p) => Some(spec_sat_add(p.current, w.igt_buffer)),
            None => None,
        }
    }
}

/// The corrected elapsed time to hand to the external timer, in milliseconds.
pub fn game_time(watchers: &Watchers, settings: &Settings) -> (r: Option<u64>)
    ensures
        r == spec_game_time(*watchers, *settings),
{
    if !settings.igt {
        None
    } else {
        match &watchers.igt.pair {
            Some(p) => Some(p.current.saturating_add(watchers.igt_buffer)),
            None => None,
        }
    }
}

/// The per-title start trigger. This title supplies none, so the timer is
/// never started automatically.
pub open spec fn spec_start(w: Watchers, s: Settings) -> bool {
    false
}

/// Whether to start the external timer this tick.
pub fn start(watchers: &Watchers, settings: &Settings) -> (r: bool)
    ensures
        r == spec_start(*watchers, *settings),
{
    false
}

/// The per-title split trigger. This title supplies none.
pub open spec fn spec_split(w: Watchers, s: Settings) -> bool {
    false
}

/// Whether to split this tick.
pub fn split(watchers: &Watchers, settings: &Settings) -> (r: bool)
    ensures
        r == spec_split(*watchers, *settings),
{
    false
}

/// The per-title reset trigger. This title supplies none.
pub open spec fn spec_reset(w: Watchers, s: Settings) -> bool {
    false
}

/// Whether to reset the external timer this tick.
pub fn reset(watchers: &Watchers, settings: &Settings) -> (r: bool)
    ensures
        r == spec_reset(*watchers, *settings),
{
    false
}

/// The commands a tick issues while the timer runs or is paused: pause or
/// resume game time by the loading decision, set the corrected game time if
/// one is available, then reset, or else split, if their triggers fire.
pub open spec fn spec_running_commands(w: Watchers, s: Settings) -> Seq<TimerCommand> {
    (match spec_is_loading(w, s) {
        Some(true) => seq![TimerCommand::PauseGameTime],
        Some(false) => seq![TimerCommand::ResumeGameTime],
        None => Seq::<TimerCommand>::empty(),
    }) + (match spec_game_time(w, s) {
        Some(t) => seq![TimerCommand::SetGameTime(t)],
        None => Seq::<TimerCommand>::empty(),
    }) + (if spec_reset(w, s) {
        seq![TimerCommand::Reset]
    } else if spec_split(w, s) {
        seq![TimerCommand::Split]
    } else {
        Seq::<TimerCommand>::empty()
    })
}

/// The commands a tick issues while the timer is not running: if the start
/// trigger fires, start, pause game time, then immediately re-apply the
/// loading decision, priming the paused or running game-time state atomically
/// with the run start. (The accumulated buffer is reset before any of this.)
pub open spec fn spec_not_running_commands(w: Watchers, s: Settings) -> Seq<TimerCommand> {
    if spec_start(w, s) {
        seq![TimerCommand::Start, TimerCommand::PauseGameTime] + (match spec_is_loading(w, s) {
            Some(true) => seq![TimerCommand::PauseGameTime],
            Some(false) => seq![TimerCommand::ResumeGameTime],
            None => Seq::<TimerCommand>::empty(),
        })
    } else {
        Seq::<TimerCommand>::empty()
    }
}

/// The full command sequence one tick decides, given the external timer's
/// reported state and the watcher state after this tick's update.
pub open spec fn spec_tick_commands(state: TimerState, w: Watchers, s: Settings) -> Seq<
    TimerCommand,
> {
    match state {
        TimerState::Running => spec_running_commands(w, s),
        TimerState::Paused => spec_running_commands(w, s),
        TimerState::NotRunning => spec_not_running_commands(w, s),
    }
}

/// The watcher state after the tick's decision phase: finding the external
/// timer not running resets the accumulated buffer to exactly zero; any other
/// state leaves everything unchanged.
pub open spec fn spec_watchers_after_tick(state: TimerState, w: Watchers) -> Watchers {
    if state == TimerState::NotRunning {
        Watchers { is_loading: w.is_loading, igt: w.igt, igt_buffer: 0 }
    } else {
        w
    }
}

/// Decides the tick's timer commands, in issue order, from the external
/// timer's reported state, the freshly updated watchers and the settings, and
/// resets the accumulated buffer when the timer is not running (a new run is
/// about to begin). The driver performs the returned commands in order.
pub fn tick_commands(state: TimerState, watchers: &mut Watchers, settings: &Settings) -> (cmds: Vec<
    TimerCommand,
>)
    ensures
        cmds@ == spec_tick_commands(state, *old(watchers), *settings),
        *final(watchers) == spec_watchers_after_tick(state, *old(watchers)),
        state == TimerState::NotRunning ==> final(watchers).igt_buffer == 0,
{
    let mut cmds: Vec<TimerCommand> = Vec::new();
    match state {
        TimerState::Running | TimerState::Paused => {
            match is_loading(watchers, settings) {
                Some(true) => cmds.push(TimerCommand::PauseGameTime),
                Some(false) => cmds.push(TimerCommand::ResumeGameTime),
                None => (),
            }
            match game_time(watchers, settings) {
                Some(t) => cmds.push(TimerCommand::SetGameTime(t)),
                None => (),
            }
            if reset(watchers, settings) {
                cmds.push(TimerCommand::Reset);
            } else if split(watchers, settings) {
                cmds.push(TimerCommand::Split);
            }
            assert(cmds@ =~= spec_tick_commands(state, *old(watchers), *settings));
        },
        TimerState::NotRunning => {
            watchers.igt_buffer = 0;
            if start(watchers, settings) {
                cmds.push(TimerCommand::Start);
                cmds.push(TimerCommand::PauseGameTime);
                match is_loading(watchers, settings) {
                    Some(true) => cmds.push(TimerCommand::PauseGameTime),
                    Some(false) => cmds.push(TimerCommand::ResumeGameTime),
                    None => (),
                }
            }
            assert(cmds@ =~= spec_tick_commands(state, *old(watchers), *settings));
        },
    }
    cmds
}

} // verus!
