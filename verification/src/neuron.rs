//! The leaky integrate-and-fire neuron model.
//!
//! A single-compartment neuron with an excitatory, an inhibitory and a
//! leak channel.  Each tick computes the instantaneous net current from
//! the conductances and the present membrane potential, then advances the
//! potential by one explicit Euler step, appending the pair to the
//! recorded history.

use crate::rational::{
    lemma_q_mul_assoc, lemma_q_mul_dist_add, q_add, q_eq, q_fits, q_int, q_lt, q_mul, q_sub, Q,
    Rat,
};
use vstd::prelude::*;

verus! {

/// Excitatory reversal potential `E_E` (millivolts).
pub open spec fn q_reversal_exc() -> Q {
    q_int(55)
}

/// Inhibitory reversal potential `E_I` (millivolts).
pub open spec fn q_reversal_inh() -> Q {
    q_int(-70)
}

/// Leak reversal potential `E_L` (millivolts); also the resting potential.
pub open spec fn q_reversal_leak() -> Q {
    q_int(-70)
}

/// Maximal excitatory conductance `G_BAR_E`, one half.
pub open spec fn q_gain_exc() -> Q {
    Q { n: 1, d: 2 }
}

/// Maximal inhibitory conductance `G_BAR_I`, one half.
pub open spec fn q_gain_inh() -> Q {
    Q { n: 1, d: 2 }
}

/// Leak conductance `G_L * G_BAR_L`, one.
pub open spec fn q_gain_leak() -> Q {
    q_int(1)
}

/// The excitatory driving term `g_e * G_BAR_E * (E_E - v)`.
pub open spec fn exc_term_q(g_e: Q, v: Q) -> Q {
    q_mul(g_e, q_mul(q_gain_exc(), q_sub(q_reversal_exc(), v)))
}

/// The inhibitory driving term `g_i * G_BAR_I * (E_I - v)`.
pub open spec fn inh_term_q(g_i: Q, v: Q) -> Q {
    q_mul(g_i, q_mul(q_gain_inh(), q_sub(q_reversal_inh(), v)))
}

/// The leak term `G_L * G_BAR_L * (E_L - v)`.
pub open spec fn leak_term_q(v: Q) -> Q {
    q_mul(q_gain_leak(), q_sub(q_reversal_leak(), v))
}

/// The instantaneous net current
/// `g_e*G_BAR_E*(E_E - v) + g_i*G_BAR_I*(E_I - v) + G_L*G_BAR_L*(E_L - v)`.
pub open spec fn net_current_q(g_e: Q, g_i: Q, v: Q) -> Q {
    q_add(q_add(exc_term_q(g_e, v), inh_term_q(g_i, v)), leak_term_q(v))
}

/// Whether every intermediate pair of the net-current computation fits
/// the executable representation.
pub open spec fn net_current_fits(g_e: Q, g_i: Q, v: Q) -> bool {
    &&& q_fits(q_sub(q_reversal_exc(), v))
    &&& q_fits(q_mul(q_gain_exc(), q_sub(q_reversal_exc(), v)))
    &&& q_fits(exc_term_q(g_e, v))
    &&& q_fits(q_sub(q_reversal_inh(), v))
    &&& q_fits(q_mul(q_gain_inh(), q_sub(q_reversal_inh(), v)))
    &&& q_fits(inh_term_q(g_i, v))
    &&& q_fits(q_sub(q_reversal_leak(), v))
    &&& q_fits(leak_term_q(v))
    &&& q_fits(q_add(exc_term_q(g_e, v), inh_term_q(g_i, v)))
    &&& q_fits(net_current_q(g_e, g_i, v))
}

/// One explicit Euler step: `v_next = v_prev + dt * i_net`.
pub open spec fn vm_step_q(v_prev: Q, dt: Q, i_net: Q) -> Q {
    q_add(v_prev, q_mul(dt, i_net))
}

/// Whether both intermediate pairs of the Euler step fit the executable
/// representation.
pub open spec fn vm_step_fits(v_prev: Q, dt: Q, i_net: Q) -> bool {
    &&& q_fits(q_mul(dt, i_net))
    &&& q_fits(vm_step_q(v_prev, dt, i_net))
}

/// Compute the instantaneous net synaptic plus leak current from the
/// excitatory conductance, the inhibitory conductance and the present
/// membrane potential.  The result is exact; `None` exactly when some
/// intermediate exact value does not fit the representation.
pub fn compute_net_current(g_e: &Rat, g_i: &Rat, v: &Rat) -> (r: Option<Rat>)
    requires
        g_e.wf(),
        g_i.wf(),
        v.wf(),
    ensures
        r is Some <==> net_current_fits(g_e@, g_i@, v@),
        r is Some ==> r.unwrap().wf() && r.unwrap()@ == net_current_q(g_e@, g_i@, v@),
{
    let reversal_e = Rat::from_int(55);
    let reversal_i = Rat::from_int(-70);
    let reversal_l = Rat::from_int(-70);
    let gain_e = Rat::new(1, 2);
    let gain_i = Rat::new(1, 2);
    let gain_l = Rat::from_int(1);

    let drive_e = match reversal_e.checked_sub(v) {
        Some(x) => x,
        None => {
            return None;
        },
    };
    let scaled_e = match gain_e.checked_mul(&drive_e) {
        Some(x) => x,
        None => {
            return None;
        },
    };
    let term_e = match g_e.checked_mul(&scaled_e) {
        Some(x) => x,
        None => {
            return None;
        },
    };
    let drive_i = match reversal_i.checked_sub(v) {
        Some(x) => x,
        None => {
            return None;
        },
    };
    let scaled_i = match gain_i.checked_mul(&drive_i) {
        Some(x) => x,
        None => {
            return None;
        },
    };
    let term_i = match g_i.checked_mul(&scaled_i) {
        Some(x) => x,
        None => {
            return None;
        },
    };
    let drive_l = match reversal_l.checked_sub(v) {
        Some(x) => x,
        None => {
            return None;
        },
    };
    let term_l = match gain_l.checked_mul(&drive_l) {
        Some(x) => x,
        None => {
            return None;
        },
    };
    let synaptic = match term_e.checked_add(&term_i) {
        Some(x) => x,
        None => {
            return None;
        },
    };
    match synaptic.checked_add(&term_l) {
        Some(x) => Some(x),
        None => None,
    }
}

/// Advance the membrane potential by one explicit Euler step of length
/// `dt` under net current `i_net`.  The result is exact; `None` exactly
/// when some intermediate exact value does not fit the representation.
pub fn compute_vm(v_prev: &Rat, dt: &Rat, i_net: &Rat) -> (r: Option<Rat>)
    requires
        v_prev.wf(),
        dt.wf(),
        i_net.wf(),
    ensures
        r is Some <==> vm_step_fits(v_prev@, dt@, i_net@),
        r is Some ==> r.unwrap().wf() && r.unwrap()@ == vm_step_q(v_prev@, dt@, i_net@),
{
    let delta = match dt.checked_mul(i_net) {
        Some(x) => x,
        None => {
            return None;
        },
    };
    match v_prev.checked_add(&delta) {
        Some(x) => Some(x),
        None => None,
    }
}

/// One recorded step: the tick at which it was taken, the membrane
/// potential after the step, and the net current that drove it.
pub struct Sample {
    pub tick: usize,
    pub potential: Rat,
    pub net_current: Rat,
}

/// Specification view of a recorded step.
#[verifier::ext_equal]
pub ghost struct SampleV {
    pub tick: int,
    pub potential: Q,
    pub net_current: Q,
}

impl View for Sample {
    type V = SampleV;

    open spec fn view(&self) -> SampleV {
        SampleV {
            tick: self.tick as int,
            potential: self.potential@,
            net_current: self.net_current@,
        }
    }
}

/// The neuron's mutable state: present membrane potential, tick counter,
/// the externally set inputs, and the recorded history.
pub struct NeuronState {
    pub membrane_potential: Rat,
    pub tick: usize,
    pub excitatory_conductance: Rat,
    pub inhibitory_conductance: Rat,
    pub time_step: Rat,
    pub history: Vec<Sample>,
}

/// Specification view of the whole state.
#[verifier::ext_equal]
pub ghost struct StateV {
    pub membrane_potential: Q,
    pub tick: int,
    pub excitatory_conductance: Q,
    pub inhibitory_conductance: Q,
    pub time_step: Q,
    pub samples: Seq<SampleV>,
}

impl View for NeuronState {
    type V = StateV;

    open spec fn view(&self) -> StateV {
        StateV {
            membrane_potential: self.membrane_potential@,
            tick: self.tick as int,
            excitatory_conductance: self.excitatory_conductance@,
            inhibitory_conductance: self.inhibitory_conductance@,
            time_step: self.time_step@,
            samples: self.history@.map_values(|s: Sample| s@),
        }
    }
}

/// The state at process start and after every reset.
pub open spec fn initial_v() -> StateV {
    StateV {
        membrane_potential: q_int(-70),
        tick: 0,
        excitatory_conductance: q_int(0),
        inhibitory_conductance: q_int(0),
        time_step: q_int(0),
        samples: Seq::empty(),
    }
}

/// What reset produces, whatever the state was before.
pub open spec fn reset_v(s: StateV) -> StateV {
    initial_v()
}

/// Whether an advance from state `s` stays within the representation.
pub open spec fn advance_fits(s: StateV) -> bool {
    &&& net_current_fits(s.excitatory_conductance, s.inhibitory_conductance, s.membrane_potential)
    &&& vm_step_fits(
        s.membrane_potential,
        s.time_step,
        net_current_q(s.excitatory_conductance, s.inhibitory_conductance, s.membrane_potential),
    )
}

impl NeuronState {
    /// Internal invariant: all rationals are well formed, the tick
    /// counter equals the history length, and the recorded ticks are the
    /// contiguous sequence `0, 1, 2, ...` since the last reset.
    pub open spec fn wf(self) -> bool {
        &&& self.membrane_potential.wf()
        &&& self.excitatory_conductance.wf()
        &&& self.inhibitory_conductance.wf()
        &&& self.time_step.wf()
        &&& self.tick == self.history@.len()
        &&& forall|i: int|
            0 <= i < self.history@.len() ==> (#[trigger] self.history@[i]).tick == i
        &&& forall|i: int|
            0 <= i < self.history@.len() ==> (#[trigger] self.history@[i]).potential.wf()
                && self.history@[i].net_current.wf()
    }

    /// A fresh state: resting potential, zero tick, zero inputs, empty
    /// history.
    pub fn new() -> (s: NeuronState)
        ensures
            s.wf(),
            s@ == initial_v(),
    {
        let s = NeuronState {
            membrane_potential: Rat::from_int(-70),
            tick: 0,
            excitatory_conductance: Rat::from_int(0),
            inhibitory_conductance: Rat::from_int(0),
            time_step: Rat::from_int(0),
            history: Vec::new(),
        };
        proof {
            assert(s@.samples =~= Seq::<SampleV>::empty());
            assert(s@ =~= initial_v());
        }
        s
    }

    /// Whether the membrane potential sits strictly above the inhibitory
    /// reversal potential.
    pub fn above_inhibitory_reversal(&self) -> (r: bool)
        requires
            self.wf(),
        ensures
            r == q_lt(q_reversal_inh(), self@.membrane_potential),
    {
        let rest = Rat::from_int(-70);
        self.membrane_potential.gt_value(&rest)
    }

    /// Restore the initial state: resting potential, zero tick, zero
    /// inputs, empty histories.  Unconditional, and idempotent (see
    /// `lemma_reset_idempotent`).
    pub fn reset(&mut self)
        ensures
            final(self).wf(),
            final(self)@ == reset_v(old(self)@),
    {
        self.membrane_potential = Rat::from_int(-70);
        self.excitatory_conductance = Rat::from_int(0);
        self.inhibitory_conductance = Rat::from_int(0);
        self.time_step = Rat::from_int(0);
        self.tick = 0;
        self.history = Vec::new();
        proof {
            assert(self@.samples =~= Seq::<SampleV>::empty());
            assert(self@ =~= initial_v());
        }
    }

    /// One tick: compute the net current from the present inputs and
    /// potential, take one Euler step, record both values at the present
    /// tick, and increment the tick counter.
    ///
    /// Returns `false`, leaving the state unchanged, exactly when the
    /// exact result outgrows the machine representation.
    pub fn advance(&mut self) -> (ok: bool)
        requires
            old(self).wf(),
        ensures
            final(self).wf(),
            ok == advance_fits(old(self)@),
            !ok ==> *final(self) == *old(self),
            ok ==> ({
                let iq = net_current_q(
                    old(self)@.excitatory_conductance,
                    old(self)@.inhibitory_conductance,
                    old(self)@.membrane_potential,
                );
                &&& final(self)@.tick == old(self)@.tick + 1
                &&& final(self)@.excitatory_conductance == old(self)@.excitatory_conductance
                &&& final(self)@.inhibitory_conductance == old(self)@.inhibitory_conductance
                &&& final(self)@.time_step == old(self)@.time_step
                &&& q_eq(
                    final(self)@.membrane_potential,
                    vm_step_q(old(self)@.membrane_potential, old(self)@.time_step, iq),
                )
                &&& final(self)@.samples.len() == old(self)@.samples.len() + 1
                &&& forall|j: int|
                    0 <= j < old(self)@.samples.len() ==> #[trigger] final(self)@.samples[j] == old(
                        self,
                    )@.samples[j]
                &&& final(self)@.samples.last().tick == old(self)@.tick
                &&& final(self)@.samples.last().potential == final(self)@.membrane_potential
                &&& q_eq(final(self)@.samples.last().net_current, iq)
            }),
    {
        let i_raw = match compute_net_current(
            &self.excitatory_conductance,
            &self.inhibitory_conductance,
            &self.membrane_potential,
        ) {
            Some(x) => x,
            None => {
                return false;
            },
        };
        let v_raw = match compute_vm(&self.membrane_potential, &self.time_step, &i_raw) {
            Some(x) => x,
            None => {
                return false;
            },
        };
        let i_net = i_raw.reduced();
        let v_next = v_raw.reduced();
        let t = self.tick;
        self.membrane_potential = v_next;
        self.history.push(Sample { tick: t, potential: v_next, net_current: i_net });
        self.tick = self.history.len();
        proof {
            assert(self@.samples =~= old(self)@.samples.push(
                SampleV { tick: t as int, potential: v_next@, net_current: i_net@ },
            ));
        }
        true
    }
}

impl Default for NeuronState {
    /// Same as `NeuronState::new`.
    fn default() -> (s: NeuronState)
        ensures
            s.wf(),
            s@ == initial_v(),
    {
        NeuronState::new()
    }
}

/// The excitatory driving term is homogeneous in the conductance: scaling
/// `g_e` scales the term by the same factor.  Together with the
/// definitional decomposition of `net_current_q` into its three terms,
/// this is the linearity of the net current in `g_e`.
pub proof fn lemma_exc_term_scales(s: Q, g_e: Q, v: Q)
    ensures
        q_eq(exc_term_q(q_mul(s, g_e), v), q_mul(s, exc_term_q(g_e, v))),
{
    lemma_q_mul_assoc(s, g_e, q_mul(q_gain_exc(), q_sub(q_reversal_exc(), v)));
}

/// The inhibitory driving term is homogeneous in the conductance: scaling
/// `g_i` scales the term by the same factor.
pub proof fn lemma_inh_term_scales(s: Q, g_i: Q, v: Q)
    ensures
        q_eq(inh_term_q(q_mul(s, g_i), v), q_mul(s, inh_term_q(g_i, v))),
{
    lemma_q_mul_assoc(s, g_i, q_mul(q_gain_inh(), q_sub(q_reversal_inh(), v)));
}

/// The excitatory driving term is additive in the conductance: the term
/// for `g1 + g2` is the sum of the terms for `g1` and `g2`.  With
/// `lemma_exc_term_scales` this is the linearity of the net current in
/// `g_e`.
pub proof fn lemma_exc_term_additive(g1: Q, g2: Q, v: Q)
    ensures
        q_eq(exc_term_q(q_add(g1, g2), v), q_add(exc_term_q(g1, v), exc_term_q(g2, v))),
{
    lemma_q_mul_dist_add(g1, g2, q_mul(q_gain_exc(), q_sub(q_reversal_exc(), v)));
}

/// The inhibitory driving term is additive in the conductance.
pub proof fn lemma_inh_term_additive(g1: Q, g2: Q, v: Q)
    ensures
        q_eq(inh_term_q(q_add(g1, g2), v), q_add(inh_term_q(g1, v), inh_term_q(g2, v))),
{
    lemma_q_mul_dist_add(g1, g2, q_mul(q_gain_inh(), q_sub(q_reversal_inh(), v)));
}

/// A zero time step leaves the membrane potential unchanged, whatever the
/// net current.
pub proof fn lemma_vm_step_zero_dt(v: Q, dt: Q, i_net: Q)
    requires
        dt.n == 0,
    ensures
        q_eq(vm_step_q(v, dt, i_net), v),
{
    assert((v.n * (dt.d * i_net.d) + (dt.n * i_net.n) * v.d) * v.d == v.n * (v.d * (dt.d
        * i_net.d))) by (nonlinear_arith)
        requires
            dt.n == 0,
    ;
}

/// Reset is idempotent: resetting twice produces the same state as
/// resetting once.
pub proof fn lemma_reset_idempotent(s: StateV)
    ensures
        reset_v(reset_v(s)) == reset_v(s),
{
}

} // verus!
