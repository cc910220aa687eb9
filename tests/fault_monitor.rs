use current_driver::monitor::{
    gate_voltage, is_open_circuit, selected_indicator, FaultMonitor, FAULT_TOLERANCE_TICKS,
    GATE_SATURATION, INDICATOR_COUNT,
};

const FAULTY: Option<u16> = Some(3001);
const HEALTHY: Option<u16> = Some(1200);

#[test]
fn tolerance_is_literal_tick_count() {
    assert_eq!(FAULT_TOLERANCE_TICKS, 3600);
    let m = FaultMonitor::new(FAULT_TOLERANCE_TICKS);
    assert_eq!(m.budget(), 3600);
    assert_eq!(m.countdown(), 3600);
    assert_eq!(m.frame(), 0);
}

#[test]
fn threshold_is_exclusive() {
    assert_eq!(GATE_SATURATION, 3000);
    assert!(!is_open_circuit(3000));
    assert!(is_open_circuit(3001));
    assert!(!is_open_circuit(0));
    assert!(is_open_circuit(u16::MAX));
}

#[test]
fn failed_read_counts_as_saturated() {
    assert_eq!(gate_voltage(None), u16::MAX);
    assert_eq!(gate_voltage(Some(42)), 42);
    let mut m = FaultMonitor::new(5);
    let r = m.tick(2, None);
    assert_eq!(m.countdown(), 4);
    assert!(!r.shutdown);
}

#[test]
fn indicator_selection_aliases_off_and_first_level() {
    assert_eq!(selected_indicator(0), 0);
    assert_eq!(selected_indicator(1), 0);
    assert_eq!(selected_indicator(2), 1);
    assert_eq!(selected_indicator(5), 4);
}

#[test]
fn budget_of_five_shuts_down_on_fifth_fault() {
    let mut m = FaultMonitor::new(5);
    let expected = [4usize, 3, 2, 1];
    for want in expected {
        let r = m.tick(1, FAULTY);
        assert_eq!(m.countdown(), want);
        assert!(!r.shutdown);
    }
    let r = m.tick(1, FAULTY);
    assert_eq!(m.countdown(), 0);
    assert!(r.shutdown);
}

#[test]
fn short_fault_counts_down_without_shutdown() {
    let budget = 10usize;
    let mut m = FaultMonitor::new(budget);
    for k in 1..budget {
        let r = m.tick(3, FAULTY);
        assert_eq!(m.countdown(), budget - k);
        assert!(!r.shutdown);
    }
}

#[test]
fn countdown_stays_at_zero_and_keeps_shutting_down() {
    let mut m = FaultMonitor::new(2);
    m.tick(4, FAULTY);
    let r = m.tick(4, FAULTY);
    assert!(r.shutdown);
    let r = m.tick(4, FAULTY);
    assert_eq!(m.countdown(), 0);
    assert!(r.shutdown);
}

#[test]
fn healthy_tick_resets_countdown_from_zero() {
    let mut m = FaultMonitor::new(3);
    for _ in 0..3 {
        m.tick(2, FAULTY);
    }
    assert_eq!(m.countdown(), 0);
    let r = m.tick(2, HEALTHY);
    assert_eq!(m.countdown(), 3);
    assert!(!r.shutdown);
}

#[test]
fn healthy_tick_resets_partial_countdown() {
    let mut m = FaultMonitor::new(6);
    m.tick(2, FAULTY);
    m.tick(2, FAULTY);
    assert_eq!(m.countdown(), 4);
    m.tick(2, Some(GATE_SATURATION));
    assert_eq!(m.countdown(), 6);
}

#[test]
fn off_mode_shuts_down_on_next_tick() {
    let mut m = FaultMonitor::new(FAULT_TOLERANCE_TICKS);
    let r = m.tick(0, HEALTHY);
    assert!(r.shutdown);
    assert_eq!(m.countdown(), FAULT_TOLERANCE_TICKS);
    let mut m = FaultMonitor::new(FAULT_TOLERANCE_TICKS);
    let r = m.tick(0, FAULTY);
    assert!(r.shutdown);
}

#[test]
fn zero_budget_shuts_down_on_first_fault() {
    let mut m = FaultMonitor::new(0);
    let r = m.tick(3, FAULTY);
    assert!(r.shutdown);
}

#[test]
fn only_selected_indicator_is_driven() {
    let mut m = FaultMonitor::new(5);
    let r = m.tick(4, HEALTHY);
    assert_eq!(r.indicators, [false, false, false, true, false]);
    let r = m.tick(0, HEALTHY);
    assert_eq!(r.indicators, [true, false, false, false, false]);
    let r = m.tick(5, HEALTHY);
    assert_eq!(r.indicators, [false, false, false, false, true]);
}

#[test]
fn selected_indicator_blinks_one_tick_in_four_under_fault() {
    let mut m = FaultMonitor::new(FAULT_TOLERANCE_TICKS);
    for _ in 0..12 {
        let r = m.tick(3, FAULTY);
        let frame = m.frame();
        for i in 0..INDICATOR_COUNT {
            let want = i == 2 && frame % 4 != 0;
            assert_eq!(r.indicators[i], want);
        }
    }
    assert_eq!(m.frame(), 12);
}

#[test]
fn selected_indicator_steady_without_fault() {
    let mut m = FaultMonitor::new(FAULT_TOLERANCE_TICKS);
    for _ in 0..12 {
        let r = m.tick(2, HEALTHY);
        assert_eq!(r.indicators, [false, true, false, false, false]);
    }
}

#[test]
fn blink_phase_follows_frame_counter() {
    let mut m = FaultMonitor::new(FAULT_TOLERANCE_TICKS);
    let levels: Vec<bool> = (0..8).map(|_| m.tick(1, FAULTY).indicators[0]).collect();
    assert_eq!(levels, vec![true, true, true, false, true, true, true, false]);
}
