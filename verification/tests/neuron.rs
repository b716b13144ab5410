use lif_neuron::neuron::{compute_net_current, compute_vm, NeuronState};
use lif_neuron::rational::Rat;

fn rat(num: i64, den: i64) -> Rat {
    Rat::new(num, den)
}

#[test]
fn net_current_vanishes_at_rest_with_zero_conductances() {
    let g_e = Rat::from_int(0);
    let g_i = Rat::from_int(0);
    let v = Rat::from_int(-70);
    let r = compute_net_current(&g_e, &g_i, &v).unwrap();
    assert!(r.eq_value(&Rat::from_int(0)));
}

#[test]
fn net_current_full_excitation_at_rest() {
    let g_e = Rat::from_int(1);
    let g_i = Rat::from_int(0);
    let v = Rat::from_int(-70);
    let r = compute_net_current(&g_e, &g_i, &v).unwrap();
    // 0.5 * (55 - (-70)) == 62.5
    assert!(r.eq_value(&rat(125, 2)));
}

#[test]
fn net_current_inhibition_alone_at_rest_vanishes() {
    // At v == -70 the inhibitory driving force E_I - v is zero too.
    let g_e = Rat::from_int(0);
    let g_i = Rat::from_int(1);
    let v = Rat::from_int(-70);
    let r = compute_net_current(&g_e, &g_i, &v).unwrap();
    assert!(r.eq_value(&Rat::from_int(0)));
}

#[test]
fn net_current_scales_with_excitation() {
    // Half the excitatory conductance gives half the current at rest.
    let g_i = Rat::from_int(0);
    let v = Rat::from_int(-70);
    let full = compute_net_current(&Rat::from_int(1), &g_i, &v).unwrap();
    let half = compute_net_current(&rat(1, 2), &g_i, &v).unwrap();
    assert!(full.eq_value(&rat(125, 2)));
    assert!(half.eq_value(&rat(125, 4)));
}

#[test]
fn vm_zero_time_step_changes_nothing() {
    let v = Rat::from_int(-70);
    let dt = Rat::from_int(0);
    for i_net in [rat(125, 2), Rat::from_int(0), Rat::from_int(-1000), rat(7, 3)] {
        let r = compute_vm(&v, &dt, &i_net).unwrap();
        assert!(r.eq_value(&Rat::from_int(-70)));
    }
}

#[test]
fn vm_one_tenth_step_from_rest() {
    let v = Rat::from_int(-70);
    let dt = rat(1, 10);
    let i_net = rat(125, 2);
    let r = compute_vm(&v, &dt, &i_net).unwrap();
    // -70 + 0.1 * 62.5 == -63.75
    assert!(r.eq_value(&rat(-255, 4)));
}

#[test]
fn one_advance_from_initial_state() {
    let mut s = NeuronState::new();
    s.excitatory_conductance = Rat::from_int(1);
    s.time_step = rat(1, 10);
    assert!(s.advance());
    assert_eq!(s.tick, 1);
    assert_eq!(s.history.len(), 1);
    assert_eq!(s.history[0].tick, 0);
    assert!(s.history[0].potential.eq_value(&rat(-255, 4)));
    assert!(s.history[0].net_current.eq_value(&rat(125, 2)));
    assert!(s.membrane_potential.eq_value(&rat(-255, 4)));
}

#[test]
fn consecutive_advances_keep_histories_in_lockstep() {
    let mut s = NeuronState::new();
    s.excitatory_conductance = Rat::from_int(1);
    s.time_step = rat(1, 10);
    for n in 0..5usize {
        assert_eq!(s.tick, n);
        assert!(s.advance());
    }
    assert_eq!(s.tick, 5);
    assert_eq!(s.history.len(), 5);
    for (i, sample) in s.history.iter().enumerate() {
        assert_eq!(sample.tick, i);
    }
    // Second tick from the worked example:
    // I = 0.5*(55+63.75) - (70-63.75) = 53.125, v = -63.75 + 5.3125
    assert!(s.history[1].potential.eq_value(&rat(-935, 16)));
}

#[test]
fn reset_restores_initial_state() {
    let mut s = NeuronState::new();
    s.excitatory_conductance = Rat::from_int(1);
    s.inhibitory_conductance = rat(1, 2);
    s.time_step = rat(1, 10);
    for _ in 0..4 {
        assert!(s.advance());
    }
    s.reset();
    assert_eq!(s.tick, 0);
    assert!(s.history.is_empty());
    assert_eq!(s.membrane_potential.num, -70);
    assert_eq!(s.membrane_potential.den, 1);
    assert!(s.excitatory_conductance.eq_value(&Rat::from_int(0)));
    assert!(s.inhibitory_conductance.eq_value(&Rat::from_int(0)));
    assert!(s.time_step.eq_value(&Rat::from_int(0)));
}

#[test]
fn reset_is_idempotent() {
    let mut once = NeuronState::new();
    once.excitatory_conductance = Rat::from_int(1);
    once.time_step = rat(1, 10);
    assert!(once.advance());
    let mut twice = NeuronState::new();
    twice.excitatory_conductance = Rat::from_int(1);
    twice.time_step = rat(1, 10);
    assert!(twice.advance());

    once.reset();
    twice.reset();
    twice.reset();

    assert_eq!(once.tick, twice.tick);
    assert_eq!(once.history.len(), twice.history.len());
    assert!(once.membrane_potential.eq_value(&twice.membrane_potential));
    assert!(once.excitatory_conductance.eq_value(&twice.excitatory_conductance));
    assert!(once.inhibitory_conductance.eq_value(&twice.inhibitory_conductance));
    assert!(once.time_step.eq_value(&twice.time_step));
}

#[test]
fn advance_reports_overflow_and_leaves_state_unchanged() {
    let mut s = NeuronState::new();
    s.membrane_potential = Rat::from_int(i64::MAX);
    s.excitatory_conductance = Rat::from_int(1);
    s.time_step = rat(1, 10);
    assert!(!s.advance());
    assert_eq!(s.tick, 0);
    assert!(s.history.is_empty());
    assert_eq!(s.membrane_potential.num, i64::MAX);
}

#[test]
fn checked_ops_report_unrepresentable_results() {
    let big = Rat::from_int(i64::MAX);
    assert!(big.checked_mul(&big).is_none());
    assert!(big.checked_add(&big).is_none());
    let small = Rat::from_int(i64::MIN);
    assert!(small.checked_sub(&big).is_none());
    // Well within range: the same operations succeed.
    let two = Rat::from_int(2);
    assert!(two.checked_mul(&two).unwrap().eq_value(&Rat::from_int(4)));
}

#[test]
fn rational_value_equality_ignores_representation() {
    assert!(rat(1, 2).eq_value(&rat(2, 4)));
    assert!(!rat(1, 2).eq_value(&rat(2, 3)));
    assert!(rat(-255, 4).eq_value(&rat(-6375, 100)));
}

#[test]
fn reduced_keeps_the_value() {
    let r = rat(50, 100).reduced();
    assert!(r.eq_value(&rat(1, 2)));
    assert!(r.den <= 100);
    let z = rat(0, 7).reduced();
    assert!(z.eq_value(&Rat::from_int(0)));
    let neg = rat(-2550, 40).reduced();
    assert!(neg.eq_value(&rat(-255, 4)));
}

#[test]
fn membrane_status_against_inhibitory_reversal() {
    let mut s = NeuronState::new();
    // At rest the potential equals E_I, not strictly above it.
    assert!(!s.above_inhibitory_reversal());
    s.excitatory_conductance = Rat::from_int(1);
    s.time_step = rat(1, 10);
    assert!(s.advance());
    assert!(s.above_inhibitory_reversal());
}

#[test]
fn default_matches_new() {
    let a = NeuronState::default();
    let b = NeuronState::new();
    assert_eq!(a.tick, b.tick);
    assert_eq!(a.history.len(), b.history.len());
    assert!(a.membrane_potential.eq_value(&b.membrane_potential));
    assert!(a.excitatory_conductance.eq_value(&b.excitatory_conductance));
    assert!(a.time_step.eq_value(&b.time_step));
}
