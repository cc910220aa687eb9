//! Drive modes: the mode register that the button advances, and the table of
//! duty values that sets the output current of each mode.
use vstd::prelude::*;

verus! {

/// Number of drive modes: "off" plus five increasing current levels.
pub const MODE_COUNT: usize = 6;

/// Mode selected at every cold start.
pub const DEFAULT_MODE: usize = 1;

/// Duty-cycle register counts, one per mode; index 0 is "off".
/// The values are board-calibrated: about 0, 1, 5, 10, 20 and 50 mA.
pub const DUTY_LEVELS: [u16; MODE_COUNT] = [0, 14, 65, 129, 257, 641];

/// The mode that follows `mode` on a button press.
pub open spec fn mode_after(mode: nat) -> nat {
    (mode + 1) % (MODE_COUNT as nat)
}

/// Mode after `mode` on a button press: one up, wrapping to "off" after the
/// highest level.
pub fn next_mode(mode: usize) -> (r: usize)
    requires
        mode < MODE_COUNT,
    ensures
        r == mode_after(mode as nat),
        r < MODE_COUNT,
{
    (mode + 1) % MODE_COUNT
}

/// Duty value of `mode`: its entry in the duty table.
pub open spec fn duty_of(mode: int) -> u16 {
    DUTY_LEVELS@[mode]
}

/// Duty-cycle value that drives the output at `mode`.
pub fn duty_for(mode: usize) -> (r: u16)
    requires
        mode < MODE_COUNT,
    ensures
        r == duty_of(mode as int),
{
    DUTY_LEVELS[mode]
}

/// The mode reached from `mode` after `presses` button presses.
pub open spec fn mode_after_presses(mode: nat, presses: nat) -> nat
    decreases presses,
{
    if presses == 0 {
        mode
    } else {
        mode_after(mode_after_presses(mode, (presses - 1) as nat))
    }
}

/// The register holding the current drive mode. It is the one value that
/// both the button handler and the periodic monitor touch; its owner guards
/// it with the platform's mutual exclusion.
pub struct ModeRegister {
    mode: usize,
}

impl View for ModeRegister {
    type V = nat;

    closed spec fn view(&self) -> nat {
        self.mode as nat
    }
}

impl ModeRegister {
    /// The register always holds a valid mode index.
    pub closed spec fn wf(&self) -> bool {
        self.mode < MODE_COUNT
    }

    /// The register as it stands after a cold start.
    pub fn new() -> (r: ModeRegister)
        ensures
            r.wf(),
            r@ == DEFAULT_MODE as nat,
    {
        ModeRegister { mode: DEFAULT_MODE }
    }

    /// The current mode.
    pub fn mode(&self) -> (r: usize)
        ensures
            r as nat == self@,
    {
        self.mode
    }

    /// Handles one button press: moves to the next mode and returns the duty
    /// value that the output must take for it.
    pub fn advance(&mut self) -> (duty: u16)
        requires
            old(self).wf(),
        ensures
            final(self).wf(),
            final(self)@ == mode_after(old(self)@),
            duty == duty_of(final(self)@ as int),
    {
        self.mode = next_mode(self.mode);
        duty_for(self.mode)
    }
}

/// Any number of presses keeps the mode within range, and a full round of
/// `MODE_COUNT` presses brings it back to where it started.
pub proof fn lemma_presses_cycle(mode: nat, presses: nat)
    requires
        mode < MODE_COUNT,
    ensures
        mode_after_presses(mode, presses) < MODE_COUNT,
        mode_after_presses(mode, presses) == (mode + presses) % (MODE_COUNT as nat),
        mode_after_presses(mode, MODE_COUNT as nat) == mode,
    decreases presses,
{
    if presses > 0 {
        lemma_presses_cycle(mode, (presses - 1) as nat);
        vstd::arithmetic::div_mod::lemma_add_mod_noop((mode + presses - 1) as int, 1, MODE_COUNT as int);
    }
    reveal_with_fuel(mode_after_presses, 7);
}

} // verus!
