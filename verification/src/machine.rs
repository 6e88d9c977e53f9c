use vstd::prelude::*;

verus! {

/// A finite state machine driven by inputs of type `X`.
///
/// Each implementation supplies, besides the three executable operations, a
/// specification of its behaviour: an invariant that every reachable state
/// satisfies, and one relation per operation tying the state before the call,
/// the state after it, and (for `observe`) the value produced. The executable
/// operations are verified against those relations, so a caller that knows
/// the implementing type knows exactly how the machine moves.
pub trait MachineTrans<X>: Sized {
    /// Abstract observations of machine states or outputs.
    type Observation;

    /// States the machine keeps itself in: `initial` establishes it and
    /// `transit` and `observe` preserve it.
    spec fn inv(&self) -> bool;

    /// How a reset changes the state.
    spec fn initial_rel(pre: Self, post: Self) -> bool;

    /// How consuming the input `x` changes the state.
    spec fn transit_rel(pre: Self, x: X, post: Self) -> bool;

    /// How observing relates the state before, the state after, and the
    /// observation produced.
    spec fn observe_rel(pre: Self, post: Self, r: Self::Observation) -> bool;

    /// Resets the machine to its starting condition.
    fn initial(&mut self)
        ensures
            old(self).inv() ==> final(self).inv(),
            Self::initial_rel(*old(self), *final(self)),
    ;

    /// Transitions the machine on the input `x`.
    fn transit(&mut self, x: X)
        requires
            old(self).inv(),
        ensures
            final(self).inv(),
            Self::transit_rel(*old(self), x, *final(self)),
    ;

    /// Makes an observation of the machine's current state.
    fn observe(&mut self) -> (r: Self::Observation)
        requires
            old(self).inv(),
        ensures
            final(self).inv(),
            Self::observe_rel(*old(self), *final(self), r),
    ;
}

/// Observations that can mark the machine's run as complete, carrying a final
/// value out.
pub trait Final: Sized {
    /// The value corresponding to a final state.
    type FinalValue;

    /// Which observations are final, and what value they carry.
    spec fn spec_is_final(self) -> Option<Self::FinalValue>;

    /// Extracts the final value, if the observation is a final one.
    fn is_final(self) -> (r: Option<Self::FinalValue>)
        ensures
            r == self.spec_is_final(),
    ;
}

/// The composition of two state machines: the final values of `M0` feed `M1`.
///
/// A common use is an `M0` that decodes low-level input into higher-level
/// inputs for `M1`, such as a byte-stream frame parser in front of a protocol
/// machine.
pub struct Comp<M0, M1> {
    /// The first machine, fed the raw input.
    pub m0: M0,
    /// The second machine, fed the first machine's final values.
    pub m1: M1,
}

impl<X, M0, M1> MachineTrans<X> for Comp<M0, M1> where
    M0: MachineTrans<X>,
    M0::Observation: Final,
    M1: MachineTrans<<M0::Observation as Final>::FinalValue>,
 {
    type Observation = M1::Observation;

    open spec fn inv(&self) -> bool {
        self.m0.inv() && self.m1.inv()
    }

    open spec fn initial_rel(pre: Self, post: Self) -> bool {
        M0::initial_rel(pre.m0, post.m0) && M1::initial_rel(pre.m1, post.m1)
    }

    /// The input first moves `M0`; if `M0` then observes a final value, `M0`
    /// is reset and the value moves `M1`, otherwise `M1` is untouched.
    open spec fn transit_rel(pre: Self, x: X, post: Self) -> bool {
        exists|m0_mid: M0, m0_obs: M0, obs: M0::Observation|
            {
                &&& #[trigger] M0::transit_rel(pre.m0, x, m0_mid)
                &&& #[trigger] M0::observe_rel(m0_mid, m0_obs, obs)
                &&& match obs.spec_is_final() {
                    Some(y) => M0::initial_rel(m0_obs, post.m0) && M1::transit_rel(
                        pre.m1,
                        y,
                        post.m1,
                    ),
                    None => post.m0 == m0_obs && post.m1 == pre.m1,
                }
            }
    }

    open spec fn observe_rel(pre: Self, post: Self, r: Self::Observation) -> bool {
        post.m0 == pre.m0 && M1::observe_rel(pre.m1, post.m1, r)
    }

    fn initial(&mut self) {
        self.m0.initial();
        self.m1.initial();
    }

    fn transit(&mut self, x: X) {
        let ghost x_g = x;
        self.m0.transit(x);
        let ghost m0_mid = self.m0;
        let obs = self.m0.observe();
        let ghost m0_obs = self.m0;
        let ghost obs_g = obs;
        if let Some(y) = obs.is_final() {
            self.m0.initial();
            self.m1.transit(y);
        }
        proof {
            assert(M0::transit_rel(old(self).m0, x_g, m0_mid));
            assert(M0::observe_rel(m0_mid, m0_obs, obs_g));
        }
    }

    fn observe(&mut self) -> (r: Self::Observation) {
        self.m1.observe()
    }
}

} // verus!
