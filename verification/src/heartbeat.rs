use vstd::prelude::*;

use crate::machine::MachineTrans;

verus! {

/// The heartbeat supervisor fed with heartbeat frame payloads. Timing
/// supervision is out of scope for the core, so the machine is stateless.
#[derive(Debug, Clone, Copy, PartialEq, Eq, Structural)]
pub struct HeartbeatMachine {}

impl Default for HeartbeatMachine {
    fn default() -> (r: Self)
        ensures
            r == (HeartbeatMachine {  }),
    {
        HeartbeatMachine {  }
    }
}

impl MachineTrans<[u8; 8]> for HeartbeatMachine {
    type Observation = ();

    open spec fn inv(&self) -> bool {
        true
    }

    open spec fn initial_rel(pre: Self, post: Self) -> bool {
        post == (HeartbeatMachine {  })
    }

    open spec fn transit_rel(pre: Self, x: [u8; 8], post: Self) -> bool {
        post == pre
    }

    open spec fn observe_rel(pre: Self, post: Self, r: ()) -> bool {
        post == pre
    }

    fn initial(&mut self) {
        *self = HeartbeatMachine {  };
    }

    fn transit(&mut self, _x: [u8; 8]) {
    }

    fn observe(&mut self) -> (r: ()) {
        ()
    }
}

} // verus!
