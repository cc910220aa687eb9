//! The periodic monitor: each tick it classifies the load voltage, drives the
//! status indicators, keeps the fault countdown and decides on shutdown.
use vstd::prelude::*;

verus! {

/// Gate voltage above which the load counts as disconnected (open circuit).
pub const GATE_SATURATION: u16 = 3000;

/// Consecutive fault ticks tolerated before the device shuts down.
pub const FAULT_TOLERANCE_TICKS: usize = 20 * 60 * 3;

/// Number of status indicator lines.
pub const INDICATOR_COUNT: usize = 5;

/// The voltage a tick works with: the reading, or the highest value when the
/// read failed, so that a failed read counts as an open circuit.
pub open spec fn voltage_of(reading: Option<u16>) -> u16 {
    match reading {
        Some(v) => v,
        None => u16::MAX,
    }
}

/// Whether a gate voltage means that no load is connected.
pub open spec fn open_circuit(voltage: u16) -> bool {
    voltage > GATE_SATURATION
}

/// Index of the indicator that shows `mode`: one below the mode, with "off"
/// and the first level sharing index 0.
pub open spec fn selected_index(mode: nat) -> nat {
    if mode > 0 {
        (mode - 1) as nat
    } else {
        0
    }
}

/// Whether the selected indicator is lit on a tick whose frame counter is
/// `frame`: always without a fault, and on three ticks out of four with one.
pub open spec fn indicator_lit(fault: bool, frame: nat) -> bool {
    !fault || frame % 4 != 0
}

/// Whether a tick that ends with `countdown` in `mode` must shut down.
pub open spec fn shutdown_due(mode: nat, countdown: nat) -> bool {
    mode == 0 || countdown == 0
}

/// Substitutes the highest voltage for a failed read.
pub fn gate_voltage(reading: Option<u16>) -> (r: u16)
    ensures
        r == voltage_of(reading),
{
    match reading {
        Some(v) => v,
        None => u16::MAX,
    }
}

/// Classifies a gate voltage: `true` when the load is disconnected.
pub fn is_open_circuit(voltage: u16) -> (r: bool)
    ensures
        r == open_circuit(voltage),
{
    voltage > GATE_SATURATION
}

/// Index of the indicator that shows `mode`.
pub fn selected_indicator(mode: usize) -> (r: usize)
    ensures
        r as nat == selected_index(mode as nat),
{
    mode.saturating_sub(1)
}

/// Abstract state of the monitor.
pub struct MonitorState {
    /// Fault ticks tolerated from a healthy tick on.
    pub budget: nat,
    /// Fault ticks left before shutdown.
    pub countdown: nat,
    /// Ticks seen so far, held at the largest `usize` rather than wrapping.
    /// Once it is held there the blink phase no longer changes; this is kept
    /// as the device has always behaved, though it may not be intended.
    pub frame: nat,
}

impl MonitorState {
    /// The state after one tick whose load reading was faulty or not.
    pub open spec fn after_tick(self, fault: bool) -> MonitorState {
        MonitorState {
            budget: self.budget,
            countdown: if !fault {
                self.budget
            } else if self.countdown > 0 {
                (self.countdown - 1) as nat
            } else {
                0
            },
            frame: if self.frame < usize::MAX {
                self.frame + 1
            } else {
                usize::MAX as nat
            },
        }
    }

    /// The state after `ticks` consecutive faulty ticks.
    pub open spec fn after_faults(self, ticks: nat) -> MonitorState
        decreases ticks,
    {
        if ticks == 0 {
            self
        } else {
            self.after_faults((ticks - 1) as nat).after_tick(true)
        }
    }
}

/// What one tick asks of the hardware.
pub struct TickReport {
    /// Level of each indicator line: `true` for high.
    pub indicators: [bool; INDICATOR_COUNT],
    /// Whether the device must enter deep sleep once the tick is over.
    pub shutdown: bool,
}

/// State owned by the periodic monitor: the fault countdown and the frame
/// counter.
pub struct FaultMonitor {
    budget: usize,
    countdown: usize,
    frame: usize,
}

impl View for FaultMonitor {
    type V = MonitorState;

    closed spec fn view(&self) -> MonitorState {
        MonitorState {
            budget: self.budget as nat,
            countdown: self.countdown as nat,
            frame: self.frame as nat,
        }
    }
}

impl FaultMonitor {
    /// The countdown never exceeds its budget.
    pub open spec fn wf(&self) -> bool {
        self@.countdown <= self@.budget
    }

    /// A monitor that tolerates `budget` consecutive fault ticks, with a full
    /// countdown and no tick seen yet.
    pub fn new(budget: usize) -> (r: FaultMonitor)
        ensures
            r.wf(),
            r@ == (MonitorState { budget: budget as nat, countdown: budget as nat, frame: 0 }),
    {
        FaultMonitor { budget, countdown: budget, frame: 0 }
    }

    /// Fault ticks tolerated from a healthy tick on.
    pub fn budget(&self) -> (r: usize)
        ensures
            r as nat == self@.budget,
    {
        self.budget
    }

    /// Fault ticks left before shutdown.
    pub fn countdown(&self) -> (r: usize)
        ensures
            r as nat == self@.countdown,
    {
        self.countdown
    }

    /// Ticks seen so far.
    pub fn frame(&self) -> (r: usize)
        ensures
            r as nat == self@.frame,
    {
        self.frame
    }

    /// Runs one tick in `mode` with the load voltage `reading` (`None` when
    /// the read failed): advances the frame counter, sets the indicators,
    /// updates the countdown and says whether to shut down.
    pub fn tick(&mut self, mode: usize, reading: Option<u16>) -> (r: TickReport)
        ensures
            old(self).wf() ==> final(self).wf(),
            final(self)@ == old(self)@.after_tick(open_circuit(voltage_of(reading))),
            forall|i: int|
                0 <= i < INDICATOR_COUNT ==> #[trigger] r.indicators@[i] == (i == selected_index(
                    mode as nat,
                ) && indicator_lit(open_circuit(voltage_of(reading)), final(self)@.frame)),
            r.shutdown == shutdown_due(mode as nat, final(self)@.countdown),
    {
        let selected = selected_indicator(mode);
        let fault = is_open_circuit(gate_voltage(reading));
        self.frame = self.frame.saturating_add(1);
        let lit = !fault || self.frame % 4 != 0;
        let mut indicators = [false; INDICATOR_COUNT];
        if selected < INDICATOR_COUNT {
            indicators[selected] = lit;
        }
        self.countdown = if fault {
            self.countdown.saturating_sub(1)
        } else {
            self.budget
        };
        let shutdown = mode == 0 || self.countdown == 0;
        TickReport { indicators, shutdown }
    }
}

/// A run of faulty ticks takes exactly one from the countdown per tick while
/// it lasts, and leaves the budget alone.
pub proof fn lemma_fault_run(s: MonitorState, ticks: nat)
    requires
        ticks <= s.countdown,
    ensures
        s.after_faults(ticks).countdown == s.countdown - ticks,
        s.after_faults(ticks).budget == s.budget,
    decreases ticks,
{
    if ticks > 0 {
        lemma_fault_run(s, (ticks - 1) as nat);
    }
}

/// Starting from a full countdown of `T` ticks, fewer than `T` faulty ticks
/// in a mode other than "off" take the countdown down by exactly one each,
/// and none of them shuts the device down.
pub proof fn lemma_short_fault_no_shutdown(s: MonitorState, mode: nat, ticks: nat)
    requires
        s.countdown == s.budget,
        mode != 0,
        ticks < s.budget,
    ensures
        forall|j: nat|
            j <= ticks ==> #[trigger] s.after_faults(j).countdown == s.budget - j,
        forall|j: nat|
            1 <= j <= ticks ==> !shutdown_due(mode, #[trigger] s.after_faults(j).countdown),
{
    assert forall|j: nat| j <= ticks implies #[trigger] s.after_faults(j).countdown == s.budget
        - j by {
        lemma_fault_run(s, j);
    }
}

/// Starting from a full countdown of `T > 0` ticks in a mode other than "off",
/// a fault that lasts `T` ticks shuts the device down on the `T`-th tick and
/// on no tick before it.
pub proof fn lemma_fault_budget_exhausted(s: MonitorState, mode: nat)
    requires
        s.countdown == s.budget,
        s.budget > 0,
        mode != 0,
    ensures
        shutdown_due(mode, s.after_faults(s.budget).countdown),
        forall|j: nat|
            1 <= j < s.budget ==> !shutdown_due(mode, #[trigger] s.after_faults(j).countdown),
{
    lemma_fault_run(s, s.budget);
    lemma_short_fault_no_shutdown(s, mode, (s.budget - 1) as nat);
}

/// One healthy tick restores the full countdown, whatever it was before,
/// zero included.
pub proof fn lemma_healthy_tick_resets(s: MonitorState)
    ensures
        s.after_tick(false).countdown == s.budget,
{
}

/// In the "off" mode every tick shuts the device down, whatever the load and
/// the countdown.
pub proof fn lemma_off_mode_shuts_down(s: MonitorState, fault: bool)
    ensures
        shutdown_due(0, s.after_tick(fault).countdown),
{
}

} // verus!
