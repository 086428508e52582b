//! Gamma ramps: the 256-entry per-channel tables that the display driver
//! applies to every pixel value, and the messages of the commands that set them.

use vstd::prelude::*;

use crate::text::{decimal, with_u32};

verus! {

/// A gamma ramp: for each channel, the output level (0..=65535) of each of the
/// 256 input levels.
#[derive(Clone, Copy, Debug, PartialEq, Eq)]
pub struct GammaRamp {
    pub red: [u16; 256],
    pub green: [u16; 256],
    pub blue: [u16; 256],
}

impl GammaRamp {
    /// The three channels carry the same curve.
    pub open spec fn is_gray(&self) -> bool {
        &&& self.green@ == self.red@
        &&& self.blue@ == self.red@
    }
}

/// The output level of input `i` in the identity ramp: `i * 257`, which maps
/// 0 to 0 and 255 to 65535.
pub open spec fn identity_level(i: int) -> int {
    i * 257
}

/// The ramp that leaves colours unchanged, on all three channels.
pub fn identity_ramp() -> (ramp: GammaRamp)
    ensures
        ramp.is_gray(),
        forall|i: int| 0 <= i < 256 ==> #[trigger] ramp.red@[i] == identity_level(i),
{
    let mut red = [0u16; 256];
    let mut green = [0u16; 256];
    let mut blue = [0u16; 256];
    let mut i: usize = 0;
    while i < 256
        invariant
            i <= 256,
            forall|j: int| 0 <= j < i ==> red@[j] == identity_level(j),
            forall|j: int| 0 <= j < i ==> green@[j] == red@[j],
            forall|j: int| 0 <= j < i ==> blue@[j] == red@[j],
        decreases 256 - i,
    {
        let level: u16 = (i * 257) as u16;
        red[i] = level;
        green[i] = level;
        blue[i] = level;
        i = i + 1;
    }
    let ramp = GammaRamp { red, green, blue };
    assert(ramp.green@ =~= ramp.red@);
    assert(ramp.blue@ =~= ramp.red@);
    ramp
}

/// The larger of two levels.
pub open spec fn max_level(a: u16, b: u16) -> u16 {
    if a >= b {
        a
    } else {
        b
    }
}

/// The largest of `levels[0..=i]`.
pub open spec fn running_max(levels: Seq<u16>, i: int) -> u16
    decreases i,
{
    if i <= 0 {
        levels[0]
    } else {
        max_level(running_max(levels, i - 1), levels[i])
    }
}

/// The output level at input `i` of the ramp shaped from `levels`: the first
/// entry is black (0), the last is full (65535), and every entry between is
/// the largest level seen so far, which keeps the curve from ever falling.
pub open spec fn shaped_level(levels: Seq<u16>, i: int) -> u16 {
    if i == 0 {
        0
    } else if i == 255 {
        65535
    } else {
        running_max(levels, i)
    }
}

/// Builds the ramp that the display is given from the computed level of each
/// input (`levels[i]` for input `i`): the running maximum of the levels, with
/// the ends pinned to 0 and 65535, on all three channels.
pub fn shape_ramp(levels: &[u16; 256]) -> (ramp: GammaRamp)
    ensures
        ramp.is_gray(),
        forall|i: int| 0 <= i < 256 ==> #[trigger] ramp.red@[i] == shaped_level(levels@, i),
{
    let mut red = [0u16; 256];
    let mut green = [0u16; 256];
    let mut blue = [0u16; 256];
    let mut i: usize = 0;
    while i < 256
        invariant
            i <= 256,
            levels@.len() == 256,
            forall|j: int| 0 <= j < i ==> red@[j] == running_max(levels@, j),
            forall|j: int| 0 <= j < i ==> green@[j] == red@[j],
            forall|j: int| 0 <= j < i ==> blue@[j] == red@[j],
        decreases 256 - i,
    {
        let level = levels[i];
        let value: u16 = if i > 0 {
            let previous = red[i - 1];
            if level >= previous {
                level
            } else {
                previous
            }
        } else {
            level
        };
        red[i] = value;
        green[i] = value;
        blue[i] = value;
        i = i + 1;
    }
    red[0] = 0;
    green[0] = 0;
    blue[0] = 0;
    red[255] = 65535;
    green[255] = 65535;
    blue[255] = 65535;
    let ramp = GammaRamp { red, green, blue };
    assert(ramp.green@ =~= ramp.red@);
    assert(ramp.blue@ =~= ramp.red@);
    ramp
}

proof fn lemma_running_max_grows(levels: Seq<u16>, i: int, j: int)
    requires
        0 <= i <= j,
    ensures
        running_max(levels, i) <= running_max(levels, j),
    decreases j - i,
{
    if i < j {
        lemma_running_max_grows(levels, i, j - 1);
    }
}

/// A shaped ramp never falls: a brighter input never gives a darker output.
/// It starts at 0 and ends at 65535.
pub proof fn lemma_shaped_ramp_monotone(levels: Seq<u16>, i: int, j: int)
    requires
        0 <= i <= j < 256,
    ensures
        shaped_level(levels, i) <= shaped_level(levels, j),
        shaped_level(levels, 0) == 0,
        shaped_level(levels, 255) == 65535,
{
    if 0 < i && j < 255 {
        lemma_running_max_grows(levels, i, j);
    }
}

/// Between its pinned ends, a shaped ramp entry is the largest of the levels
/// computed up to that input: it is at least each of them and equals one.
pub proof fn lemma_shaped_ramp_covers_levels(levels: Seq<u16>, i: int)
    requires
        0 < i < 255,
    ensures
        shaped_level(levels, i) >= levels[i],
        forall|k: int| 0 <= k <= i ==> shaped_level(levels, i) >= #[trigger] levels[k],
        exists|k: int| 0 <= k <= i && shaped_level(levels, i) == levels[k],
{
    lemma_running_max_reached(levels, i);
    assert forall|k: int| 0 <= k <= i implies shaped_level(levels, i) >= #[trigger] levels[k] by {
        lemma_running_max_above(levels, k, i);
    }
}

proof fn lemma_running_max_above(levels: Seq<u16>, k: int, i: int)
    requires
        0 <= k <= i,
    ensures
        running_max(levels, i) >= levels[k],
    decreases i,
{
    if k < i {
        lemma_running_max_above(levels, k, i - 1);
    } else if i > 0 {
        assert(running_max(levels, i) >= levels[i]);
    }
}

proof fn lemma_running_max_reached(levels: Seq<u16>, i: int)
    requires
        0 <= i,
    ensures
        running_max(levels, i) >= levels[i],
        exists|k: int| 0 <= k <= i && running_max(levels, i) == levels[k],
    decreases i,
{
    if i > 0 {
        lemma_running_max_reached(levels, i - 1);
        let k = choose|k: int| 0 <= k <= i - 1 && running_max(levels, i - 1) == levels[k];
        if running_max(levels, i - 1) >= levels[i] {
            assert(0 <= k <= i && running_max(levels, i) == levels[k]);
        } else {
            assert(running_max(levels, i) == levels[i]);
        }
    } else {
        assert(running_max(levels, 0) == levels[0]);
    }
}

/// The identity ramp rises strictly and evenly from 0 to 65535: consecutive
/// inputs are 257 output steps apart.
pub proof fn lemma_identity_ramp_strictly_rising(i: int, j: int)
    requires
        0 <= i < j < 256,
    ensures
        identity_level(i) < identity_level(j),
        identity_level(i + 1) - identity_level(i) == 257,
        identity_level(0) == 0,
        identity_level(255) == 65535,
{
}

/// The name of the display device to open on the given attempt: first the
/// primary display `\\.\DISPLAY1`, then the generic `DISPLAY`; there is no
/// third attempt.
pub fn display_device_name(attempt: u32) -> (name: Option<&'static str>)
    ensures
        attempt == 0 ==> (name matches Some(n) && n@ == "\\\\.\\DISPLAY1"@),
        attempt == 1 ==> (name matches Some(n) && n@ == "DISPLAY"@),
        attempt >= 2 ==> name is None,
{
    if attempt == 0 {
        Some("\\\\.\\DISPLAY1")
    } else if attempt == 1 {
        Some("DISPLAY")
    } else {
        None
    }
}

/// The message when no display device context could be opened.
pub fn display_dc_failure(error: u32) -> (message: String)
    ensures
        message@ == "Failed to get display DC (error: "@ + decimal(error as int) + ")"@,
{
    with_u32("Failed to get display DC (error: ", error, ")")
}

/// The answer to a request to apply a ramp, from the driver's result (`0` for
/// failure) and the error code read after the call.
pub fn apply_ramp_outcome(result: i32, error: u32) -> (outcome: Result<(), String>)
    ensures
        result != 0 ==> outcome is Ok,
        result == 0 ==> (outcome matches Err(m) && m@ == "Failed to set gamma ramp (error: "@
            + decimal(error as int) + ")"@),
{
    if result == 0 {
        Err(with_u32("Failed to set gamma ramp (error: ", error, ")"))
    } else {
        Ok(())
    }
}

/// The answer to the identity-ramp self test, from the driver's result (`0`
/// for failure) and the error code read after the call.
pub fn identity_test_outcome(result: i32, error: u32) -> (outcome: Result<String, String>)
    ensures
        result != 0 ==> (outcome matches Ok(m) && m@ == "Gamma ramp test PASSED"@),
        result == 0 ==> (outcome matches Err(m) && m@
            == "SetDeviceGammaRamp identity test failed (error: "@ + decimal(error as int)
            + ")"@),
{
    if result == 0 {
        Err(with_u32("SetDeviceGammaRamp identity test failed (error: ", error, ")"))
    } else {
        Ok(String::from_str("Gamma ramp test PASSED"))
    }
}

/// The 256 levels of the ramp shaped from `levels`.
pub open spec fn shaped_levels(levels: Seq<u16>) -> Seq<u16> {
    Seq::new(256, |i: int| shaped_level(levels, i))
}

/// The 256 levels of the identity ramp.
pub open spec fn identity_levels() -> Seq<u16> {
    Seq::new(256, |i: int| identity_level(i) as u16)
}

proof fn lemma_running_max_of_rising(s: Seq<u16>, i: int)
    requires
        0 <= i < s.len(),
        forall|j: int, k: int| 0 <= j <= k < s.len() ==> s[j] <= s[k],
    ensures
        running_max(s, i) == s[i],
    decreases i,
{
    if i > 0 {
        lemma_running_max_of_rising(s, i - 1);
    }
}

proof fn lemma_shaping_keeps_rising_ramp(s: Seq<u16>)
    requires
        s.len() == 256,
        s[0] == 0,
        s[255] == 65535,
        forall|j: int, k: int| 0 <= j <= k < 256 ==> s[j] <= s[k],
    ensures
        shaped_levels(s) == s,
{
    assert forall|i: int| 0 <= i < 256 implies shaped_levels(s)[i] == s[i] by {
        if 0 < i < 255 {
            lemma_running_max_of_rising(s, i);
        }
    }
    assert(shaped_levels(s) =~= s);
}

/// Shaping a shaped ramp changes nothing: the shaped ramp is already black
/// at the bottom, full at the top and never falling.
pub proof fn lemma_shaping_is_idempotent(levels: Seq<u16>)
    ensures
        shaped_levels(shaped_levels(levels)) == shaped_levels(levels),
{
    let s = shaped_levels(levels);
    assert forall|j: int, k: int| 0 <= j <= k < 256 implies s[j] <= s[k] by {
        lemma_shaped_ramp_monotone(levels, j, k);
    }
    lemma_shaped_ramp_monotone(levels, 0, 255);
    lemma_shaping_keeps_rising_ramp(s);
}

/// The identity ramp is left as it is by shaping.
pub proof fn lemma_identity_ramp_is_shaped()
    ensures
        shaped_levels(identity_levels()) == identity_levels(),
{
    let s = identity_levels();
    assert forall|j: int, k: int| 0 <= j <= k < 256 implies s[j] <= s[k] by {
        assert(identity_level(j) <= identity_level(k));
    }
    lemma_shaping_keeps_rising_ramp(s);
}

} // verus!
