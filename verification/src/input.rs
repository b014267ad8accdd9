//! The input event decoder: raw event records in, activity signals out.

use crate::signal::ActivitySignal;
use vstd::prelude::*;

verus! {

/// Length of one raw input event record, in bytes.
pub const RECORD_LEN: usize = 24;

/// Offset of the little-endian 16-bit event type within a record.
pub const TYPE_OFFSET: usize = 16;

/// Offset of the little-endian 16-bit event code within a record.
pub const CODE_OFFSET: usize = 18;

/// Offset of the little-endian 32-bit event value within a record.
pub const VALUE_OFFSET: usize = 20;

/// Event type of key state changes.
pub const EV_KEY: u16 = 0x01;

/// Key code of the "L" key.
pub const KEY_L: u16 = 38;

/// Key code of the left meta key.
pub const KEY_LEFT_META: u16 = 125;

/// Key code of the right meta key.
pub const KEY_RIGHT_META: u16 = 126;

/// The fields of a raw input event record that the decoder looks at. The
/// timestamp in the first 16 bytes is not kept.
#[derive(Clone, Copy, Debug, PartialEq, Eq, Structural)]
pub struct RawInputEvent {
    /// The event type.
    pub kind: u16,
    /// The event code; for key events, the key.
    pub code: u16,
    /// The event value; for key events, 0 is a release.
    pub value: u32,
}

/// The 16-bit number whose little-endian encoding starts at `bytes[at]`.
pub open spec fn le_u16(bytes: Seq<u8>, at: int) -> int {
    bytes[at] + 0x100 * bytes[at + 1]
}

/// The 32-bit number whose little-endian encoding starts at `bytes[at]`.
pub open spec fn le_u32(bytes: Seq<u8>, at: int) -> int {
    bytes[at] + 0x100 * bytes[at + 1] + 0x1_0000 * bytes[at + 2] + 0x100_0000 * bytes[at + 3]
}

fn read_le_u16(record: &[u8; 24], at: usize) -> (n: u16)
    requires
        at + 2 <= 24,
    ensures
        n == le_u16(record@, at as int),
{
    let low: u16 = record[at] as u16;
    let high: u16 = record[at + 1] as u16;
    low + 0x100 * high
}

fn read_le_u32(record: &[u8; 24], at: usize) -> (n: u32)
    requires
        at + 4 <= 24,
    ensures
        n == le_u32(record@, at as int),
{
    let b0: u32 = record[at] as u32;
    let b1: u32 = record[at + 1] as u32;
    let b2: u32 = record[at + 2] as u32;
    let b3: u32 = record[at + 3] as u32;
    b0 + 0x100 * b1 + 0x1_0000 * b2 + 0x100_0000 * b3
}

/// Which meta keys are currently held down.
#[derive(Clone, Copy, Debug, PartialEq, Eq, Structural)]
pub struct ModifierLatchState {
    /// The left meta key is down.
    pub meta_left_down: bool,
    /// The right meta key is down.
    pub meta_right_down: bool,
}

/// What the decoder makes of one read from the input device.
#[derive(Clone, Copy, Debug, PartialEq, Eq, Structural)]
pub struct Decoded {
    /// The signal to forward, if the record was a key event.
    pub signal: Option<ActivitySignal>,
    /// The read returned fewer bytes than a record has, which is worth a
    /// warning; the buffer was decoded all the same.
    pub short_read: bool,
}

impl RawInputEvent {
    /// The event held by a record of `RECORD_LEN` bytes.
    pub open spec fn of_record(record: Seq<u8>) -> RawInputEvent {
        RawInputEvent {
            kind: le_u16(record, TYPE_OFFSET as int) as u16,
            code: le_u16(record, CODE_OFFSET as int) as u16,
            value: le_u32(record, VALUE_OFFSET as int) as u32,
        }
    }

    /// Whether this is a key state change.
    pub open spec fn is_key(self) -> bool {
        self.kind == EV_KEY
    }

    /// Picks type, code and value out of a raw record.
    pub fn decode(record: &[u8; 24]) -> (event: RawInputEvent)
        ensures
            event == Self::of_record(record@),
            event.kind == le_u16(record@, 16),
            event.code == le_u16(record@, 18),
            event.value == le_u32(record@, 20),
    {
        let kind: u16 = read_le_u16(record, TYPE_OFFSET);
        let code: u16 = read_le_u16(record, CODE_OFFSET);
        let value: u32 = read_le_u32(record, VALUE_OFFSET);
        RawInputEvent { kind, code, value }
    }
}

impl ModifierLatchState {
    /// Whether either meta key is down.
    pub open spec fn any_meta_down(self) -> bool {
        self.meta_left_down || self.meta_right_down
    }

    /// The latch after `event`: a key event for a meta key sets that key's
    /// flag to whether the key went (or stayed) down; nothing else changes
    /// the latch.
    pub open spec fn after_event(self, event: RawInputEvent) -> ModifierLatchState {
        if event.is_key() && event.code == KEY_LEFT_META {
            ModifierLatchState { meta_left_down: event.value > 0, ..self }
        } else if event.is_key() && event.code == KEY_RIGHT_META {
            ModifierLatchState { meta_right_down: event.value > 0, ..self }
        } else {
            self
        }
    }

    /// Whether `event` completes the lock combination: the "L" key is
    /// released while a meta key is held.
    pub open spec fn is_lock_combo(self, event: RawInputEvent) -> bool {
        event.is_key() && event.value == 0 && event.code == KEY_L && self.any_meta_down()
    }

    /// The signal that `event` gives rise to: none unless it is a key
    /// event, a lock combo where it completes one, key activity otherwise.
    pub open spec fn signal_for(self, event: RawInputEvent) -> Option<ActivitySignal> {
        if !event.is_key() {
            None
        } else if self.is_lock_combo(event) {
            Some(ActivitySignal::LockCombo)
        } else {
            Some(ActivitySignal::KeyActivity)
        }
    }

    /// The latch at startup: no meta key is down.
    pub fn new() -> (latch: ModifierLatchState)
        ensures
            !latch.meta_left_down,
            !latch.meta_right_down,
    {
        ModifierLatchState { meta_left_down: false, meta_right_down: false }
    }

    /// Takes note of one event and classifies it.
    pub fn observe(&mut self, event: RawInputEvent) -> (signal: Option<ActivitySignal>)
        ensures
            *final(self) == old(self).after_event(event),
            signal == old(self).signal_for(event),
            signal is Some <==> event.kind == EV_KEY,
            !event.is_key() ==> *final(self) == *old(self),
    {
        if event.kind == EV_KEY {
            if event.code == KEY_LEFT_META {
                self.meta_left_down = event.value > 0;
            } else if event.code == KEY_RIGHT_META {
                self.meta_right_down = event.value > 0;
            }
        }
        let meta_down = self.meta_left_down || self.meta_right_down;
        let lock_combo = event.kind == EV_KEY && event.value == 0 && event.code == KEY_L
            && meta_down;
        if event.kind != EV_KEY {
            None
        } else if lock_combo {
            Some(ActivitySignal::LockCombo)
        } else {
            Some(ActivitySignal::KeyActivity)
        }
    }

    /// Decodes the buffer that a read from the input device filled and
    /// classifies the event in it. `count` is the number of bytes the read
    /// returned; a short read is reported, and the buffer is decoded as it
    /// stands.
    pub fn feed(&mut self, record: &[u8; 24], count: usize) -> (decoded: Decoded)
        ensures
            *final(self) == old(self).after_event(RawInputEvent::of_record(record@)),
            decoded.signal == old(self).signal_for(RawInputEvent::of_record(record@)),
            decoded.short_read == (count < RECORD_LEN),
    {
        let event = RawInputEvent::decode(record);
        let signal = self.observe(event);
        Decoded { signal, short_read: count < RECORD_LEN }
    }
}

} // verus!
