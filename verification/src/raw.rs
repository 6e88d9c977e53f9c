use vstd::prelude::*;

use crate::machine::{Final, MachineTrans};
use crate::{u32_from_le, u32_le_bytes};

verus! {

/// A raw CAN frame: the 32-bit COB-ID, the number of valid payload bytes,
/// and the 8-byte payload, zero-padded.
#[derive(Debug, Clone, Copy, PartialEq, Eq)]
pub struct CANFrame {
    /// The CAN identifier (COB-ID) of the frame.
    pub can_cobid: u32,
    /// The number of valid bytes in `can_data`.
    pub can_len: usize,
    /// The payload of the frame.
    pub can_data: [u8; 8],
}

/// The 16-byte framed serialization of a CAN frame: COB-ID little-endian in
/// bytes 0..4, the length in byte 4, zero padding in bytes 5..8, and the
/// payload in bytes 8..16.
pub open spec fn frame_bytes(f: CANFrame) -> Seq<u8> {
    u32_le_bytes(f.can_cobid) + seq![f.can_len as u8, 0u8, 0u8, 0u8] + f.can_data@
}

impl Default for CANFrame {
    fn default() -> (r: Self)
        ensures
            r.can_cobid == 0,
            r.can_len == 0,
            r.can_data@ == Seq::<u8>::new(8, |i: int| 0u8),
    {
        let r = Self { can_cobid: 0, can_len: 0, can_data: [0; 8] };
        proof {
            assert(r.can_data@ =~= Seq::<u8>::new(8, |i: int| 0u8));
        }
        r
    }
}

impl CANFrame {
    /// Serializes the frame into the first 16 bytes of `buffer`, leaving the
    /// length and the remaining bytes unchanged.
    pub fn write_to_slice(&self, buffer: &mut Vec<u8>)
        requires
            old(buffer).len() >= 16,
            self.can_len <= 8,
        ensures
            final(buffer)@ == frame_bytes(*self) + old(buffer)@.skip(16),
    {
        buffer.set(0, (self.can_cobid % 0x100) as u8);
        buffer.set(1, ((self.can_cobid / 0x100) % 0x100) as u8);
        buffer.set(2, ((self.can_cobid / 0x10000) % 0x100) as u8);
        buffer.set(3, (self.can_cobid / 0x1000000) as u8);
        buffer.set(4, self.can_len as u8);
        buffer.set(5, 0);
        buffer.set(6, 0);
        buffer.set(7, 0);
        let mut i: usize = 0;
        while i < 8
            invariant
                i <= 8,
                self.can_len <= 8,
                buffer.len() == old(buffer).len(),
                old(buffer).len() >= 16,
                forall|j: int| 0 <= j < 8 ==> buffer@[j] == frame_bytes(*self)[j],
                forall|j: int| 8 <= j < 8 + i ==> buffer@[j] == self.can_data@[j - 8],
                forall|j: int| 8 + i <= j < buffer@.len() ==> buffer@[j] == old(buffer)@[j],
            decreases 8 - i,
        {
            let b = self.can_data[i];
            buffer.set(8 + i, b);
            i = i + 1;
        }
        proof {
            assert(buffer@ =~= frame_bytes(*self) + old(buffer)@.skip(16));
        }
    }

    /// Deserializes a frame from the first 16 bytes of `buffer`. The length
    /// byte is taken as it stands, so a stored length above 8 reads back as
    /// it was written.
    pub fn read_from_slice(buffer: &[u8]) -> (r: Self)
        requires
            buffer.len() >= 16,
        ensures
            r.can_cobid == u32_from_le(buffer[0], buffer[1], buffer[2], buffer[3]),
            r.can_len == buffer[4],
            r.can_data@ == buffer@.subrange(8, 16),
    {
        let can_cobid = (buffer[0] as u32) + (buffer[1] as u32) * 0x100 + (buffer[2] as u32)
            * 0x10000 + (buffer[3] as u32) * 0x1000000;
        let can_len = buffer[4] as usize;
        let can_data = [
            buffer[8],
            buffer[9],
            buffer[10],
            buffer[11],
            buffer[12],
            buffer[13],
            buffer[14],
            buffer[15],
        ];
        proof {
            assert(can_data@ =~= buffer@.subrange(8, 16));
        }
        CANFrame { can_cobid, can_len, can_data }
    }
}

/// A frame written to a buffer reads back as the same frame.
pub proof fn lemma_frame_roundtrip(f: CANFrame, rest: Seq<u8>)
    requires
        f.can_len <= 8,
    ensures
        ({
            let b = frame_bytes(f) + rest;
            &&& u32_from_le(b[0], b[1], b[2], b[3]) == f.can_cobid
            &&& b[4] == f.can_len as u8
            &&& b.subrange(8, 16) == f.can_data@
        }),
{
    let b = frame_bytes(f) + rest;
    crate::lemma_u32_le_roundtrip(f.can_cobid);
    assert(b.subrange(8, 16) =~= f.can_data@);
}

/// Positions within the 16-byte framed serialization while it streams in
/// byte by byte.
#[derive(Debug, Clone, Copy, PartialEq, Eq, Structural)]
pub enum State {
    Init,
    Id0,
    Id1,
    Id2,
    Id3,
    Len,
    Skip0,
    Skip1,
    Skip2,
    Data,
    Final,
}

/// A state machine that assembles raw CAN frames from a stream of bytes in
/// the 16-byte framed serialization.
pub struct CANFrameMachine {
    /// Where in the 16-byte serialization the next input byte falls.
    pub state: State,
    /// The frame under assembly.
    pub can_frame: CANFrame,
    /// How many payload bytes are still to come.
    pub len: usize,
    /// The position of the next payload byte.
    pub index: usize,
}

impl Default for CANFrameMachine {
    fn default() -> (r: Self)
        ensures
            r.wf(),
            r.is_reset(),
    {
        let r = Self { state: State::Init, can_frame: CANFrame::default(), len: 0, index: 0 };
        proof {
            assert(r.can_frame.can_data@ =~= Seq::<u8>::new(8, |i: int| 0u8));
        }
        r
    }
}

impl CANFrameMachine {
    /// A machine at its starting condition: ready for the first byte of a
    /// frame, with everything cleared.
    pub open spec fn is_reset(&self) -> bool {
        &&& self.state == State::Init
        &&& self.can_frame.can_cobid == 0
        &&& self.can_frame.can_len == 0
        &&& self.can_frame.can_data@ == Seq::<u8>::new(8, |i: int| 0u8)
        &&& self.len == 0
        &&& self.index == 0
    }

    /// A completed frame is observable exactly in the `Final` state once all
    /// eight payload positions have been consumed.
    pub open spec fn spec_observation(&self) -> Option<CANFrame> {
        if self.state == State::Final && self.index == 8 {
            Some(self.can_frame)
        } else {
            None
        }
    }

    /// Stores an incoming payload byte and counts down the declared length;
    /// the frame completes when the count runs out. Bytes offered past the
    /// end of the payload array are dropped.
    fn get_data_byte(&mut self, x: u8)
        requires
            old(self).wf(),
            old(self).state == State::Skip2 || old(self).state == State::Data,
        ensures
            *final(self) == data_byte_step(*old(self), x),
            final(self).wf(),
    {
        if self.len > 1 {
            self.len = self.len - 1;
            self.state = State::Data;
            if self.index < 8 {
                self.can_frame.can_data[self.index] = x;
            }
        } else if self.len == 1 {
            self.len = self.len - 1;
            self.state = State::Final;
            if self.index < 8 {
                self.can_frame.can_data[self.index] = x;
            }
        } else {
            self.state = State::Final;
        }
        if self.index < 16 {
            self.index = self.index + 1;
        }
        proof {
            assert(self.can_frame.can_data =~= data_byte_step(*old(self), x).can_frame.can_data);
        }
    }

    /// States the machine keeps itself in: the payload cursor stays bounded,
    /// and while the COB-ID is streaming in, its assembled prefix leaves room
    /// for the bytes still to come.
    pub open spec fn wf(&self) -> bool {
        &&& self.index <= 16
        &&& (self.state == State::Id0 ==> self.can_frame.can_cobid < 0x100)
        &&& (self.state == State::Id1 ==> self.can_frame.can_cobid < 0x10000)
        &&& (self.state == State::Id2 ==> self.can_frame.can_cobid < 0x1000000)
    }
}

/// One payload-byte step: the byte lands at the cursor while the declared
/// length lasts and the cursor is inside the array; the state falls to
/// `Final` when the length runs out.
pub open spec fn data_byte_step(pre: CANFrameMachine, x: u8) -> CANFrameMachine {
    let stored = if pre.len >= 1 && pre.index < 8 {
        CANFrame {
            can_data: vstd::array::spec_array_update(pre.can_frame.can_data, pre.index as int, x),
            ..pre.can_frame
        }
    } else {
        pre.can_frame
    };
    let next_state = if pre.len > 1 {
        State::Data
    } else {
        State::Final
    };
    let next_len = if pre.len >= 1 {
        (pre.len - 1) as usize
    } else {
        pre.len
    };
    CANFrameMachine {
        state: next_state,
        can_frame: stored,
        len: next_len,
        index: if pre.index < 16 {
            (pre.index + 1) as usize
        } else {
            pre.index
        },
    }
}

/// One full transition of the frame assembler on an input byte.
pub open spec fn frame_machine_step(pre: CANFrameMachine, x: u8) -> CANFrameMachine {
    match pre.state {
        State::Init => CANFrameMachine {
            state: State::Id0,
            can_frame: CANFrame { can_cobid: x as u32, ..pre.can_frame },
            ..pre
        },
        State::Id0 => CANFrameMachine {
            state: State::Id1,
            can_frame: CANFrame {
                can_cobid: (pre.can_frame.can_cobid + x * 0x100) as u32,
                ..pre.can_frame
            },
            ..pre
        },
        State::Id1 => CANFrameMachine {
            state: State::Id2,
            can_frame: CANFrame {
                can_cobid: (pre.can_frame.can_cobid + x * 0x10000) as u32,
                ..pre.can_frame
            },
            ..pre
        },
        State::Id2 => CANFrameMachine {
            state: State::Id3,
            can_frame: CANFrame {
                can_cobid: (pre.can_frame.can_cobid + x * 0x1000000) as u32,
                ..pre.can_frame
            },
            ..pre
        },
        State::Id3 => CANFrameMachine {
            state: State::Len,
            can_frame: CANFrame { can_len: x as usize, ..pre.can_frame },
            len: x as usize,
            ..pre
        },
        State::Len => CANFrameMachine { state: State::Skip0, ..pre },
        State::Skip0 => CANFrameMachine { state: State::Skip1, ..pre },
        State::Skip1 => CANFrameMachine { state: State::Skip2, ..pre },
        State::Skip2 => data_byte_step(pre, x),
        State::Data => data_byte_step(pre, x),
        State::Final => CANFrameMachine {
            index: if pre.index < 16 {
                (pre.index + 1) as usize
            } else {
                pre.index
            },
            ..pre
        },
    }
}

impl MachineTrans<u8> for CANFrameMachine {
    type Observation = Option<CANFrame>;

    open spec fn inv(&self) -> bool {
        self.wf()
    }

    open spec fn initial_rel(pre: Self, post: Self) -> bool {
        post.is_reset()
    }

    open spec fn transit_rel(pre: Self, x: u8, post: Self) -> bool {
        post == frame_machine_step(pre, x)
    }

    open spec fn observe_rel(pre: Self, post: Self, r: Option<CANFrame>) -> bool {
        post == pre && r == pre.spec_observation()
    }

    /// Resets the machine's state and the frame under assembly.
    fn initial(&mut self) {
        self.can_frame.can_cobid = 0;
        self.can_frame.can_data = [0; 8];
        self.can_frame.can_len = 0;
        self.len = 0;
        self.index = 0;
        self.state = State::Init;
        proof {
            assert(self.can_frame.can_data@ =~= Seq::<u8>::new(8, |i: int| 0u8));
        }
    }

    /// Consumes one byte of the 16-byte framed serialization: four COB-ID
    /// bytes little-endian, the length byte, three padding bytes, then the
    /// payload.
    fn transit(&mut self, x: u8) {
        match self.state {
            State::Init => {
                self.state = State::Id0;
                self.can_frame.can_cobid = x as u32;
            },
            State::Id0 => {
                self.state = State::Id1;
                self.can_frame.can_cobid = self.can_frame.can_cobid + (x as u32) * 0x100;
            },
            State::Id1 => {
                self.state = State::Id2;
                self.can_frame.can_cobid = self.can_frame.can_cobid + (x as u32) * 0x10000;
            },
            State::Id2 => {
                self.state = State::Id3;
                self.can_frame.can_cobid = self.can_frame.can_cobid + (x as u32) * 0x1000000;
            },
            State::Id3 => {
                self.state = State::Len;
                let len: usize = x as usize;
                self.len = len;
                self.can_frame.can_len = len;
            },
            State::Len => {
                self.state = State::Skip0;
            },
            State::Skip0 => {
                self.state = State::Skip1;
            },
            State::Skip1 => {
                self.state = State::Skip2;
            },
            State::Skip2 => {
                self.get_data_byte(x);
            },
            State::Data => {
                self.get_data_byte(x);
            },
            State::Final => {
                if self.index < 16 {
                    self.index = self.index + 1;
                }
            },
        }
    }

    /// Reports the assembled frame once the machine is in its final state
    /// with all eight payload positions consumed.
    fn observe(&mut self) -> (r: Option<CANFrame>) {
        match self.state {
            State::Final => {
                if self.index == 8 {
                    Some(self.can_frame)
                } else {
                    None
                }
            },
            _ => None,
        }
    }
}

impl Final for Option<CANFrame> {
    type FinalValue = CANFrame;

    open spec fn spec_is_final(self) -> Option<CANFrame> {
        self
    }

    /// An observation of the frame assembler is final exactly when it holds
    /// a frame.
    fn is_final(self) -> (r: Option<CANFrame>) {
        self
    }
}

} // verus!
