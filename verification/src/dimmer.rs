//! The dimming state machine: brightness policy and reactions to events.
//!
//! The machine never touches the controller itself. Each handler takes what
//! the caller observed (a signal, a timer expiry, a level read back) and
//! returns the level that has to be written to the controller, if any.

use crate::signal::ActivitySignal;
use vstd::prelude::*;

verus! {

/// Highest level the controller accepts; nothing above it is written while
/// dimming.
pub const MAX_LEVEL: u8 = 50;

/// Level assumed when the controller cannot be read at startup.
pub const DEFAULT_LEVEL: u8 = 50;

/// From this level upwards one decay step takes two units instead of one.
pub const FAST_DECAY_FROM: u8 = 10;

/// Time between two decay steps while dimming, in milliseconds.
pub const DIM_STEP_INTERVAL_MS: u64 = 100;

/// Time to sleep once the backlight is parked, in milliseconds (one hour).
pub const IDLE_PARK_TIMEOUT_MS: u64 = 3_600_000;

/// The level one decay step below `level`: two units lower from
/// `FAST_DECAY_FROM` upwards, one unit lower below it, and 0 stays 0.
pub open spec fn decayed(level: u8) -> u8 {
    if level >= FAST_DECAY_FROM {
        (level - 2) as u8
    } else if level >= 1 {
        (level - 1) as u8
    } else {
        0
    }
}

/// The level `steps` decay steps below `level`.
pub open spec fn decayed_by(level: u8, steps: nat) -> u8
    decreases steps,
{
    if steps == 0 {
        level
    } else {
        decayed_by(decayed(level), (steps - 1) as nat)
    }
}

/// The number of decay steps that take `level` down to 0.
pub open spec fn steps_to_zero(level: u8) -> nat
    decreases level,
{
    if level == 0 {
        0
    } else {
        1 + steps_to_zero(decayed(level))
    }
}

/// Applies one decay step to `level`.
pub fn decay_step(level: u8) -> (next: u8)
    ensures
        next == decayed(level),
        level >= 10 ==> next == level - 2,
        1 <= level < 10 ==> next == level - 1,
        level == 0 ==> next == 0,
        next <= level,
{
    if level >= FAST_DECAY_FROM {
        level - 2
    } else if level >= 1 {
        level - 1
    } else {
        0
    }
}

/// The three situations the dimmer can be in.
#[derive(Clone, Copy, Debug, PartialEq, Eq, Structural)]
pub enum Phase {
    /// The user is typing; the backlight shows the requested level.
    Active,
    /// The backlight is being ramped down.
    Dimming,
    /// Nothing to do until the next key event.
    Idle,
}

/// The variables of the dimming state machine.
#[derive(Clone, Copy, Debug, PartialEq, Eq, Structural)]
pub struct DimState {
    /// The level the machine last decided on for the controller.
    pub current_level: u8,
    /// The level the user chose, as last read back from the controller.
    pub requested_level: u8,
    /// Whether the user counts as present: set by key activity, cleared by
    /// a timer expiry and by a lock combo.
    pub is_active: bool,
    /// Whether the backlight is being ramped down.
    pub is_dimming: bool,
    /// How many upcoming signals are to be swallowed.
    pub ignore_next_count: u8,
}

impl DimState {
    /// What every state reached from `start` satisfies: the machine is never
    /// active and dimming at once, and at most one signal is pending to be
    /// swallowed.
    pub open spec fn wf(self) -> bool {
        &&& !(self.is_active && self.is_dimming)
        &&& self.ignore_next_count <= 1
    }

    /// The phase a state is in. Dimming takes precedence over activity.
    pub open spec fn phase_of(self) -> Phase {
        if self.is_dimming {
            Phase::Dimming
        } else if self.is_active {
            Phase::Active
        } else {
            Phase::Idle
        }
    }

    /// The initial state for a startup read-back of `reading` (`None`: the
    /// read failed).
    pub open spec fn started(reading: Option<u8>) -> DimState {
        let level = match reading {
            Some(l) => l,
            None => DEFAULT_LEVEL,
        };
        DimState {
            current_level: level,
            requested_level: level,
            is_active: true,
            is_dimming: false,
            ignore_next_count: 0,
        }
    }

    /// Whether `signal` asks for immediate dimming.
    pub open spec fn dims_now(signal: ActivitySignal, lock_enabled: bool) -> bool {
        lock_enabled && signal == ActivitySignal::LockCombo
    }

    /// The state after `signal` arrived.
    pub open spec fn after_signal(self, signal: ActivitySignal, lock_enabled: bool) -> DimState {
        if self.ignore_next_count > 0 {
            DimState { ignore_next_count: (self.ignore_next_count - 1) as u8, ..self }
        } else if Self::dims_now(signal, lock_enabled) {
            DimState { ignore_next_count: 1, is_active: false, is_dimming: true, ..self }
        } else {
            DimState {
                is_active: true,
                is_dimming: false,
                current_level: self.requested_level,
                ..self
            }
        }
    }

    /// The level to write to the controller when `signal` arrives, if any.
    pub open spec fn signal_write(self, signal: ActivitySignal, lock_enabled: bool) -> Option<u8> {
        if self.ignore_next_count == 0 && !Self::dims_now(signal, lock_enabled)
            && self.current_level != self.requested_level {
            Some(self.requested_level)
        } else {
            None
        }
    }

    /// How long to wait for a signal before the timer fires, in milliseconds.
    pub open spec fn wait_ms(self, user_timeout_ms: u64) -> u64 {
        match self.phase_of() {
            Phase::Dimming => DIM_STEP_INTERVAL_MS,
            Phase::Active => user_timeout_ms,
            Phase::Idle => IDLE_PARK_TIMEOUT_MS,
        }
    }

    /// The state once the timer has fired and the level was read back where
    /// a read is due, before any decay: outside of dimming, a successful
    /// read replaces both levels, a failed one makes the current level the
    /// requested one, and dimming starts if the level is above 0.
    pub open spec fn reread(self, reading: Option<u8>) -> DimState {
        if self.is_dimming {
            DimState { is_active: false, ..self }
        } else {
            let level = match reading {
                Some(l) => l,
                None => self.current_level,
            };
            DimState {
                current_level: level,
                requested_level: level,
                is_active: false,
                is_dimming: level > 0,
                ..self
            }
        }
    }

    /// The state after the timer fired, `reading` being the level read back
    /// from the controller (`None`: no read was made, or it failed).
    pub open spec fn after_timeout(self, reading: Option<u8>) -> DimState {
        let r = self.reread(reading);
        if r.current_level != 0 {
            let next = decayed(r.current_level);
            DimState { current_level: next, is_dimming: r.is_dimming && next != 0, ..r }
        } else {
            r
        }
    }

    /// The level to write to the controller when the timer fires, if any.
    pub open spec fn timeout_write(self, reading: Option<u8>) -> Option<u8> {
        let r = self.reread(reading);
        if r.current_level != 0 && decayed(r.current_level) <= MAX_LEVEL {
            Some(decayed(r.current_level))
        } else {
            None
        }
    }

    /// The state after `n` timer expiries in a row with no read-back.
    pub open spec fn after_timeouts(self, n: nat) -> DimState
        decreases n,
    {
        if n == 0 {
            self
        } else {
            self.after_timeout(None).after_timeouts((n - 1) as nat)
        }
    }

    /// Starts the machine from the level read back at startup (`None`: the
    /// read failed, and `DEFAULT_LEVEL` stands in). Returns the initial
    /// state and the level to write to the controller to turn the backlight
    /// on, which is that level whatever it is.
    pub fn start(reading: Option<u8>) -> (r: (DimState, u8))
        ensures
            r.0 == Self::started(reading),
            r.0.wf(),
            r.0.phase_of() == Phase::Active,
            r.1 == r.0.current_level,
            reading matches Some(l) ==> r.1 == l,
            reading is None ==> r.1 == DEFAULT_LEVEL,
    {
        let level = match reading {
            Some(l) => l,
            None => DEFAULT_LEVEL,
        };
        let state = DimState {
            current_level: level,
            requested_level: level,
            is_active: true,
            is_dimming: false,
            ignore_next_count: 0,
        };
        (state, level)
    }

    /// The phase the machine is in.
    pub fn phase(&self) -> (p: Phase)
        ensures
            p == self.phase_of(),
    {
        if self.is_dimming {
            Phase::Dimming
        } else if self.is_active {
            Phase::Active
        } else {
            Phase::Idle
        }
    }

    /// How long to wait for the next signal before treating the wait as a
    /// timer expiry, in milliseconds: the step interval while dimming, the
    /// user's timeout while active, the parking timeout while idle.
    pub fn timeout_millis(&self, user_timeout_ms: u64) -> (ms: u64)
        ensures
            ms == self.wait_ms(user_timeout_ms),
    {
        if self.is_dimming {
            DIM_STEP_INTERVAL_MS
        } else if self.is_active {
            user_timeout_ms
        } else {
            IDLE_PARK_TIMEOUT_MS
        }
    }

    /// Whether the controller's level has to be read back before the next
    /// timer expiry is handled: exactly when the machine is not dimming.
    pub fn needs_level_read(&self) -> (needed: bool)
        ensures
            needed == !self.is_dimming,
    {
        !self.is_dimming
    }

    /// Handles one signal from the decoder. Returns the level to write to the
    /// controller, if the backlight has to change.
    ///
    /// A pending swallow consumes the signal and does nothing else. A lock
    /// combo, where the feature is enabled, starts dimming at once and makes
    /// the next signal be swallowed. Any other signal makes the machine
    /// active and restores the requested level.
    pub fn on_signal(&mut self, signal: ActivitySignal, lock_enabled: bool) -> (write: Option<u8>)
        ensures
            *final(self) == old(self).after_signal(signal, lock_enabled),
            write == old(self).signal_write(signal, lock_enabled),
            old(self).wf() ==> final(self).wf(),
            final(self).requested_level == old(self).requested_level,
            old(self).ignore_next_count > 0 ==> write is None && *final(self) == (DimState {
                ignore_next_count: (old(self).ignore_next_count - 1) as u8,
                ..*old(self)
            }),
            old(self).ignore_next_count == 0 && Self::dims_now(signal, lock_enabled) ==> {
                &&& write is None
                &&& final(self).ignore_next_count == 1
                &&& final(self).phase_of() == Phase::Dimming
                &&& final(self).current_level == old(self).current_level
                &&& final(self).requested_level == old(self).requested_level
            },
            old(self).ignore_next_count == 0 && !Self::dims_now(signal, lock_enabled) ==> {
                &&& final(self).is_active
                &&& !final(self).is_dimming
                &&& final(self).current_level == old(self).requested_level
                &&& final(self).requested_level == old(self).requested_level
                &&& final(self).ignore_next_count == 0
                &&& write == if old(self).current_level != old(self).requested_level {
                    Some(old(self).requested_level)
                } else {
                    None
                }
            },
    {
        if self.ignore_next_count > 0 {
            self.ignore_next_count = self.ignore_next_count - 1;
            return None;
        }
        let lock_combo = match signal {
            ActivitySignal::LockCombo => true,
            ActivitySignal::KeyActivity => false,
        };
        if lock_enabled && lock_combo {
            self.ignore_next_count = 1;
            self.is_active = false;
            self.is_dimming = true;
            return None;
        }
        self.is_active = true;
        self.is_dimming = false;
        if self.current_level != self.requested_level {
            self.current_level = self.requested_level;
            Some(self.current_level)
        } else {
            None
        }
    }

    /// Handles one timer expiry. `reading` is the level read back from the
    /// controller just before (`None`: the read failed, or none was due
    /// because the machine is dimming already); it is looked at only outside
    /// of dimming. Returns the level to write to the controller, if any.
    ///
    /// The machine becomes inactive. Outside of dimming the read-back level
    /// replaces both levels (a failed read keeps the current one) and dimming
    /// starts if it is above 0. A level above 0 then takes one decay step,
    /// is written if it does not exceed `MAX_LEVEL`, and ends dimming when it
    /// has reached 0.
    pub fn on_timeout(&mut self, reading: Option<u8>) -> (write: Option<u8>)
        ensures
            *final(self) == old(self).after_timeout(reading),
            write == old(self).timeout_write(reading),
            old(self).wf() ==> final(self).wf(),
            !final(self).is_active,
            final(self).ignore_next_count == old(self).ignore_next_count,
            final(self).current_level == decayed(old(self).reread(reading).current_level),
            write matches Some(l) ==> l == final(self).current_level && l <= MAX_LEVEL,
            write is Some <==> old(self).reread(reading).current_level != 0
                && final(self).current_level <= MAX_LEVEL,
            old(self).reread(reading).current_level != 0 ==> (final(self).is_dimming <==> final(
                self
            ).current_level != 0),
            old(self).reread(reading).current_level == 0 ==> *final(self) == old(self).reread(
                reading,
            ),
    {
        self.is_active = false;
        if !self.is_dimming {
            match reading {
                Some(l) => {
                    self.requested_level = l;
                    self.current_level = l;
                },
                None => {
                    self.requested_level = self.current_level;
                },
            }
            if self.requested_level > 0 {
                self.is_dimming = true;
            }
        }
        if self.current_level == 0 {
            return None;
        }
        self.current_level = decay_step(self.current_level);
        if self.current_level == 0 {
            self.is_dimming = false;
        }
        if self.current_level <= MAX_LEVEL {
            Some(self.current_level)
        } else {
            None
        }
    }
}

/// One decay step never raises a level, and lowers every level above 0.
pub proof fn lemma_decay_lowers(level: u8)
    ensures
        decayed(level) <= level,
        level > 0 ==> decayed(level) < level,
        level == 0 ==> decayed(level) == 0,
{
}

/// Repeated decay never rises: after more steps the level is no higher
/// than after fewer.
pub proof fn lemma_decay_chain_non_increasing(level: u8, fewer: nat, more: nat)
    requires
        fewer <= more,
    ensures
        decayed_by(level, more) <= decayed_by(level, fewer),
        decayed_by(level, fewer) <= level,
    decreases more,
{
    if fewer == 0 {
        if more > 0 {
            lemma_decay_chain_non_increasing(decayed(level), 0, (more - 1) as nat);
        }
    } else {
        lemma_decay_chain_non_increasing(decayed(level), (fewer - 1) as nat, (more - 1) as nat);
    }
}

/// Repeated decay reaches exactly 0 after `steps_to_zero(level)` steps,
/// not earlier, and stays at 0 from then on. No level needs more steps than
/// its own value.
pub proof fn lemma_decay_reaches_zero(level: u8, steps: nat)
    ensures
        steps_to_zero(level) <= level,
        steps < steps_to_zero(level) ==> decayed_by(level, steps) > 0,
        steps >= steps_to_zero(level) ==> decayed_by(level, steps) == 0,
    decreases steps, level,
{
    lemma_steps_bounded(level);
    if steps > 0 {
        lemma_decay_reaches_zero(decayed(level), (steps - 1) as nat);
    }
}

proof fn lemma_steps_bounded(level: u8)
    ensures
        steps_to_zero(level) <= level,
    decreases level,
{
    if level > 0 {
        lemma_steps_bounded(decayed(level));
    }
}

/// While dimming at a level above 0, timer expiries walk the level down the
/// decay chain: after `n` expiries the level is `n` decay steps lower, the
/// requested level is untouched, and the machine is still dimming exactly
/// if the level has not reached 0. The expiry that follows writes the next
/// level of the chain if that is within `MAX_LEVEL`.
pub proof fn lemma_ramp_follows_decay(s: DimState, n: nat)
    requires
        s.is_dimming,
        s.current_level > 0,
        n <= steps_to_zero(s.current_level),
    ensures
        s.after_timeouts(n).current_level == decayed_by(s.current_level, n),
        s.after_timeouts(n).requested_level == s.requested_level,
        s.after_timeouts(n).ignore_next_count == s.ignore_next_count,
        s.after_timeouts(n).is_dimming == (n < steps_to_zero(s.current_level)),
        n > 0 ==> !s.after_timeouts(n).is_active,
        n < steps_to_zero(s.current_level) ==> s.after_timeouts(n).timeout_write(None) == if decayed_by(
            s.current_level,
            n + 1,
        ) <= MAX_LEVEL {
            Some(decayed_by(s.current_level, n + 1))
        } else {
            None
        },
    decreases n,
{
    let t = s.after_timeout(None);
    assert(decayed_by(t.current_level, 0) == t.current_level);
    assert(steps_to_zero(0) == 0);
    if n == 0 {
        assert(decayed_by(s.current_level, 1) == decayed_by(t.current_level, 0));
    } else if t.current_level > 0 {
        lemma_ramp_follows_decay(t, (n - 1) as nat);
    } else {
        assert(s.after_timeouts(n) == t.after_timeouts((n - 1) as nat));
    }
}

/// A ramp ends parked: once the last decay step is taken the machine is
/// idle at level 0, having taken `steps_to_zero` expiries to get there.
pub proof fn lemma_ramp_ends_idle(s: DimState)
    requires
        s.is_dimming,
        s.current_level > 0,
    ensures
        s.after_timeouts(steps_to_zero(s.current_level)).phase_of() == Phase::Idle,
        s.after_timeouts(steps_to_zero(s.current_level)).current_level == 0,
{
    let n = steps_to_zero(s.current_level);
    lemma_ramp_follows_decay(s, n);
    lemma_decay_reaches_zero(s.current_level, n);
}

/// At level 0 a timer expiry writes nothing and leaves the level at 0,
/// unless a level above 0 is read back from the controller. A parked
/// machine stays parked.
pub proof fn lemma_timeout_at_zero_is_quiet(s: DimState, reading: Option<u8>)
    requires
        s.current_level == 0,
        s.is_dimming || reading is None || reading == Some(0u8),
    ensures
        s.timeout_write(reading) is None,
        s.after_timeout(reading).current_level == 0,
        s.after_timeout(reading).is_dimming == s.is_dimming,
        s.phase_of() == Phase::Idle ==> s.after_timeout(reading) == (DimState {
            requested_level: 0,
            ..s
        }),
        s.after_timeout(reading).after_timeout(reading) == s.after_timeout(reading),
{
}

/// A pending swallow absorbs exactly one signal: the first signal only
/// clears the swallow and writes nothing, and the second is handled as if
/// no swallow had ever been pending.
pub proof fn lemma_swallow_absorbs_exactly_one(
    s: DimState,
    first: ActivitySignal,
    second: ActivitySignal,
    lock_enabled: bool,
)
    requires
        s.ignore_next_count == 1,
    ensures
        s.signal_write(first, lock_enabled) is None,
        s.after_signal(first, lock_enabled) == (DimState { ignore_next_count: 0, ..s }),
        s.after_signal(first, lock_enabled).after_signal(second, lock_enabled) == (DimState {
            ignore_next_count: 0,
            ..s
        }).after_signal(second, lock_enabled),
        s.after_signal(first, lock_enabled).signal_write(second, lock_enabled) == (DimState {
            ignore_next_count: 0,
            ..s
        }).signal_write(second, lock_enabled),
{
}

/// A lock combo, with the feature enabled and no swallow pending, starts
/// dimming at once, and whatever signal follows is swallowed: the machine
/// is still dimming at the same levels afterwards, and nothing was written.
pub proof fn lemma_lock_combo_dims_and_swallows(s: DimState, following: ActivitySignal)
    requires
        s.ignore_next_count == 0,
    ensures
        s.signal_write(ActivitySignal::LockCombo, true) is None,
        s.after_signal(ActivitySignal::LockCombo, true) == (DimState {
            ignore_next_count: 1,
            is_active: false,
            is_dimming: true,
            ..s
        }),
        s.after_signal(ActivitySignal::LockCombo, true).signal_write(following, true) is None,
        s.after_signal(ActivitySignal::LockCombo, true).after_signal(following, true) == (DimState {
            is_active: false,
            is_dimming: true,
            ..s
        }),
        s.after_signal(ActivitySignal::LockCombo, true).wait_ms(0) == DIM_STEP_INTERVAL_MS,
{
}

/// The level the controller holds once a handler's write, if it asked for
/// one, was carried out on a controller that held `held`.
pub open spec fn controller_after(held: u8, write: Option<u8>) -> u8 {
    match write {
        Some(level) => level,
        None => held,
    }
}

/// The current level mirrors the controller across a signal: where it is
/// the level the controller holds when the signal arrives, it still is once
/// the signal is handled and the write carried out.
pub proof fn lemma_signal_keeps_mirror(s: DimState, signal: ActivitySignal, lock_enabled: bool)
    ensures
        s.after_signal(signal, lock_enabled).current_level == controller_after(
            s.current_level,
            s.signal_write(signal, lock_enabled),
        ),
{
}

/// The current level mirrors the controller across a timer expiry: where
/// the level the machine works from (the one read back, else its current
/// one) is the level the controller holds and is within `MAX_LEVEL`, the
/// current level is what the controller holds once the write is carried out.
pub proof fn lemma_timeout_keeps_mirror(s: DimState, reading: Option<u8>)
    requires
        s.reread(reading).current_level <= MAX_LEVEL,
    ensures
        s.after_timeout(reading).current_level == controller_after(
            s.reread(reading).current_level,
            s.timeout_write(reading),
        ),
{
}

/// Every state reached from `start` by signals and timer expiries is
/// well-formed.
pub proof fn lemma_wf_is_invariant(
    s: DimState,
    signal: ActivitySignal,
    lock_enabled: bool,
    reading: Option<u8>,
)
    requires
        s.wf(),
    ensures
        DimState::started(reading).wf(),
        s.after_signal(signal, lock_enabled).wf(),
        s.after_timeout(reading).wf(),
{
}

} // verus!
