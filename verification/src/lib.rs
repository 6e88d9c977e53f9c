//! A CANopen (CiA 301) client stack for driving a Controller Area Network bus
//! from the master side: an SDO client transfer state machine, the frame-level
//! codec for SDO requests and responses, and the COB-ID multiplexer that routes
//! incoming CAN frames to sub-protocols.

use vstd::prelude::*;

/// CANopen COB-ID function codes and their routing.
pub mod cobid;
/// The object dictionary address type and the dictionary collaborator traits.
pub mod dictionary;
/// Emergency (EMCY) error classes.
pub mod emcy;
/// Heartbeat frames.
pub mod heartbeat;
/// Collaborator traits for completion sinks.
pub mod interfaces;
/// Abstract finite state machines and their composition.
pub mod machine;
/// Raw CAN frames and their 16-byte framed serialization.
pub mod raw;
/// SDO types, the frame-level codec, and the SDO client machine.
pub mod sdo;
/// The client dispatch layer: routing decisions from events to frames.
pub mod client;

verus! {

/// The little-endian 4-byte form of a 32-bit word.
pub open spec fn u32_le_bytes(x: u32) -> Seq<u8> {
    seq![
        (x % 0x100) as u8,
        ((x / 0x100) % 0x100) as u8,
        ((x / 0x10000) % 0x100) as u8,
        (x / 0x1000000) as u8,
    ]
}

/// The 32-bit word denoted by four bytes in little-endian order.
pub open spec fn u32_from_le(b0: u8, b1: u8, b2: u8, b3: u8) -> u32 {
    (b0 + b1 * 0x100 + b2 * 0x10000 + b3 * 0x1000000) as u32
}

/// Reassembling the four little-endian bytes of a word yields the word back.
pub proof fn lemma_u32_le_roundtrip(x: u32)
    ensures
        u32_from_le(u32_le_bytes(x)[0], u32_le_bytes(x)[1], u32_le_bytes(x)[2], u32_le_bytes(x)[3])
            == x,
{
}

} // verus!
