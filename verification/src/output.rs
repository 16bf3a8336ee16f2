//! The two pure output mappers: state index to LED channel levels, and state
//! index to the color's name.

use vstd::prelude::*;

verus! {

/// The three channel levels driving the RGB LED, active-high.
#[derive(Clone, Copy, Debug, PartialEq, Eq, Structural)]
pub struct LedLevels {
    pub red: bool,
    pub green: bool,
    pub blue: bool,
}

/// The exhaustive channel table: state 0 is rest (all channels off), states
/// 1..=6 are red, yellow, white, aqua, purple and blue respectively.
pub open spec fn led_levels_spec(s: int) -> LedLevels {
    if s == 1 {
        LedLevels { red: true, green: false, blue: false }
    } else if s == 2 {
        LedLevels { red: true, green: true, blue: false }
    } else if s == 3 {
        LedLevels { red: true, green: true, blue: true }
    } else if s == 4 {
        LedLevels { red: false, green: true, blue: true }
    } else if s == 5 {
        LedLevels { red: true, green: false, blue: true }
    } else if s == 6 {
        LedLevels { red: false, green: false, blue: true }
    } else {
        LedLevels { red: false, green: false, blue: false }
    }
}

/// Maps a state index to the channel triple of the table above.
pub fn led_levels(state: u8) -> (r: LedLevels)
    requires
        state <= 6,
    ensures
        r == led_levels_spec(state as int),
{
    match state {
        1 => LedLevels { red: true, green: false, blue: false },
        2 => LedLevels { red: true, green: true, blue: false },
        3 => LedLevels { red: true, green: true, blue: true },
        4 => LedLevels { red: false, green: true, blue: true },
        5 => LedLevels { red: true, green: false, blue: true },
        6 => LedLevels { red: false, green: false, blue: true },
        _ => LedLevels { red: false, green: false, blue: false },
    }
}

/// The exhaustive label table: the English color name of each state.
pub open spec fn label_spec(s: int) -> Seq<char> {
    if s == 1 {
        "red"@
    } else if s == 2 {
        "yellow"@
    } else if s == 3 {
        "white"@
    } else if s == 4 {
        "aqua"@
    } else if s == 5 {
        "purple"@
    } else if s == 6 {
        "blue"@
    } else {
        "black"@
    }
}

/// Maps a state index to the color name of the table above.
pub fn color_label(state: u8) -> (r: &'static str)
    requires
        state <= 6,
    ensures
        r@ == label_spec(state as int),
{
    match state {
        1 => "red",
        2 => "yellow",
        3 => "white",
        4 => "aqua",
        5 => "purple",
        6 => "blue",
        _ => "black",
    }
}

/// Both output mappers are deterministic: two invocations on the same state
/// yield identical outputs, because each result is fully determined by the
/// state index.
pub proof fn lemma_mappers_idempotent(
    s: int,
    led_a: LedLevels,
    led_b: LedLevels,
    label_a: Seq<char>,
    label_b: Seq<char>,
)
    requires
        0 <= s <= 6,
        led_a == led_levels_spec(s),
        led_b == led_levels_spec(s),
        label_a == label_spec(s),
        label_b == label_spec(s),
    ensures
        led_a == led_b,
        label_a == label_b,
{
}

} // verus!
