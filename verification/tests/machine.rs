use funcan_rs::machine::{Comp, MachineTrans};
use funcan_rs::raw::{CANFrame, CANFrameMachine};

/// A machine that counts the frames handed to it by the frame assembler.
struct Counter {
    seen: usize,
    last: Option<CANFrame>,
}

impl MachineTrans<CANFrame> for Counter {
    type Observation = usize;

    // the ghost items of the trait; never called at run time
    fn inv(&self) -> bool {
        true
    }

    fn initial_rel(_pre: Self, _post: Self) -> bool {
        true
    }

    fn transit_rel(_pre: Self, _x: CANFrame, _post: Self) -> bool {
        true
    }

    fn observe_rel(_pre: Self, _post: Self, _r: usize) -> bool {
        true
    }

    fn initial(&mut self) {
        self.seen = 0;
        self.last = None;
    }

    fn transit(&mut self, f: CANFrame) {
        self.seen += 1;
        self.last = Some(f);
    }

    fn observe(&mut self) -> usize {
        self.seen
    }
}

#[test]
fn composed_machine_reassembles_frames() {
    let mut comp = Comp {
        m0: CANFrameMachine::default(),
        m1: Counter { seen: 0, last: None },
    };

    let stream = [
        0x02u8, 0x07, 0x00, 0x00, // cobid
        0x01, 0x00, 0x00, 0x00, // length with padding
        0x7f, 0x00, 0x00, 0x00, 0x00, 0x00, 0x00, 0x00, // data
    ];

    // two frames back to back: the assembler resets itself in between
    for _ in 0..2 {
        for x in stream {
            comp.transit(x);
        }
    }

    assert_eq!(comp.observe(), 2);
    let last = comp.m1.last.unwrap();
    assert_eq!(last.can_cobid, 0x702);
    assert_eq!(last.can_len, 1);
    assert_eq!(last.can_data[0], 0x7f);
}
