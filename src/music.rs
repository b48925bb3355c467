//! Tones for the alert buzzer and the tune it plays.
//!
//! A tone is the setting of a PWM slice that sounds a square wave of a given
//! frequency at half duty; the firmware copies it into the peripheral and
//! times the notes.
use vstd::prelude::*;

verus! {

/// System clock of the microcontroller, in hertz.
pub const SYS_CLOCK: u64 = 150_000_000;
/// Integer clock divider of the PWM slice.
pub const DIV_INT: u8 = 64;
/// Silence between two notes, in milliseconds.
pub const NOTE_GAP_MS: u64 = 50;

pub const NOTE_C6: u64 = 1047;
pub const NOTE_D6: u64 = 1175;
pub const NOTE_E6: u64 = 1319;
pub const NOTE_F6: u64 = 1397;
pub const NOTE_G6: u64 = 1568;

/// The setting of a PWM slice: counter wrap value, compare level of output
/// A, integer clock divider, and whether the slice runs.
#[derive(Clone, Copy, Debug, PartialEq, Eq, Structural)]
pub struct Tone {
    pub enable: bool,
    pub top: u16,
    pub compare_a: u16,
    pub divider: u8,
}

/// The setting that sounds `freq` hertz: the counter wraps after
/// `SYS_CLOCK / (freq * DIV_INT)` ticks, kept to 16 bits, and output A is
/// high for half of them.
pub open spec fn tone_of(freq: u64) -> Tone {
    let top = ((SYS_CLOCK as int / (freq as int * DIV_INT as int)) % 65536) as u16;
    Tone { enable: true, top, compare_a: (top / 2) as u16, divider: DIV_INT }
}

/// A note of a tune: a tone and how long it sounds, in milliseconds.
#[derive(Clone, Copy, Debug, PartialEq, Eq, Structural)]
pub struct Note {
    pub tone: Tone,
    pub time: u64,
}

/// The PWM setting for a square wave of `target_frequency` hertz.
pub fn tone(target_frequency: u64) -> (r: Tone)
    requires
        0 < target_frequency,
        target_frequency * DIV_INT <= u64::MAX,
    ensures
        r == tone_of(target_frequency),
{
    let ticks: u64 = SYS_CLOCK / (target_frequency * DIV_INT as u64);
    let top: u16 = (ticks % 65536) as u16;
    Tone { enable: true, top, compare_a: top / 2, divider: DIV_INT }
}

/// The opening of the Ode to Joy, as frequencies in hertz and durations in
/// milliseconds.
pub open spec fn ode_to_joy_melody() -> Seq<(u64, u64)> {
    seq![
        (NOTE_E6, 250u64), (NOTE_E6, 250u64), (NOTE_F6, 250u64), (NOTE_G6, 250u64),
        (NOTE_G6, 250u64), (NOTE_F6, 250u64), (NOTE_E6, 250u64), (NOTE_D6, 250u64),
        (NOTE_C6, 250u64), (NOTE_C6, 250u64), (NOTE_D6, 250u64), (NOTE_E6, 250u64),
        (NOTE_E6, 250u64), (NOTE_D6, 250u64), (NOTE_D6, 500u64), (NOTE_E6, 250u64),
        (NOTE_E6, 250u64), (NOTE_F6, 250u64), (NOTE_G6, 250u64), (NOTE_G6, 250u64),
        (NOTE_F6, 250u64), (NOTE_E6, 250u64), (NOTE_D6, 250u64), (NOTE_C6, 250u64),
        (NOTE_C6, 250u64), (NOTE_D6, 250u64), (NOTE_E6, 250u64), (NOTE_D6, 250u64),
        (NOTE_C6, 250u64), (NOTE_C6, 500u64),
    ]
}

/// The notes of the Ode to Joy, one for each entry of `ode_to_joy_melody`.
pub fn ode_to_joy() -> (r: Vec<Note>)
    ensures
        r@.len() == ode_to_joy_melody().len(),
        forall|i: int|
            0 <= i < r@.len() ==> #[trigger] r@[i] == (Note {
                tone: tone_of(ode_to_joy_melody()[i].0),
                time: ode_to_joy_melody()[i].1,
            }),
{
    let c = tone(NOTE_C6);
    let d = tone(NOTE_D6);
    let e = tone(NOTE_E6);
    let f = tone(NOTE_F6);
    let g = tone(NOTE_G6);
    let song = vec![
        Note { tone: e, time: 250 }, Note { tone: e, time: 250 }, Note { tone: f, time: 250 }, Note { tone: g, time: 250 },
        Note { tone: g, time: 250 }, Note { tone: f, time: 250 }, Note { tone: e, time: 250 }, Note { tone: d, time: 250 },
        Note { tone: c, time: 250 }, Note { tone: c, time: 250 }, Note { tone: d, time: 250 }, Note { tone: e, time: 250 },
        Note { tone: e, time: 250 }, Note { tone: d, time: 250 }, Note { tone: d, time: 500 }, Note { tone: e, time: 250 },
        Note { tone: e, time: 250 }, Note { tone: f, time: 250 }, Note { tone: g, time: 250 }, Note { tone: g, time: 250 },
        Note { tone: f, time: 250 }, Note { tone: e, time: 250 }, Note { tone: d, time: 250 }, Note { tone: c, time: 250 },
        Note { tone: c, time: 250 }, Note { tone: d, time: 250 }, Note { tone: e, time: 250 }, Note { tone: d, time: 250 },
        Note { tone: c, time: 250 }, Note { tone: c, time: 500 },
    ];
    song
}

} // verus!
