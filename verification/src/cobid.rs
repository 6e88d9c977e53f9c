use vstd::prelude::*;

verus! {

/// The node-ID part of an 11-bit COB-ID: its low 7 bits.
pub open spec fn spec_node_part(cob_id: u32) -> u32 {
    cob_id % 0x80
}

/// The function-code part of an 11-bit COB-ID: bits 7 to 10.
pub open spec fn spec_fun_part(cob_id: u32) -> int {
    ((cob_id / 0x80) % 0x10) * 0x80
}

/// Commands addressed to every node at once.
#[derive(Debug, Clone, Copy, PartialEq, Eq, Structural, PartialOrd, Ord)]
pub enum BroadcastCmd {
    Nmt,
    Sync,
}

/// Per-node commands of the CiA 301 predefined connection set.
#[derive(Debug, Clone, Copy, PartialEq, Eq, Structural, PartialOrd, Ord)]
pub enum NodeCmd {
    Emergency,
    Time,
    Pdo1Tx,
    Pdo1Rx,
    Pdo2Tx,
    Pdo2Rx,
    Pdo3Tx,
    Pdo3Rx,
    Pdo4Tx,
    Pdo4Rx,
    SdoResp,
    SdoReq,
    Heartbeat,
    Unused,
}

/// A decoded COB-ID: either a broadcast command, or a per-node command with
/// its 7-bit node ID.
#[derive(Debug, Clone, Copy, PartialEq, Eq, Structural, PartialOrd, Ord)]
pub enum FunCode {
    Broadcast(BroadcastCmd),
    Node(NodeCmd, u8),
}

/// The broadcast command carried by a COB-ID, if it is one: an all-zero
/// function code is NMT, function code `0x080` with node 0 is SYNC.
pub open spec fn spec_decode_broadcast(cob_id: u32) -> Option<BroadcastCmd> {
    if spec_fun_part(cob_id) == 0x000 {
        Some(BroadcastCmd::Nmt)
    } else if spec_fun_part(cob_id) == 0x080 && spec_node_part(cob_id) == 0 {
        Some(BroadcastCmd::Sync)
    } else {
        None
    }
}

/// The per-node command named by a function-code field.
pub open spec fn spec_decode_node_code(func_part: int) -> NodeCmd {
    if func_part == 0x080 {
        NodeCmd::Emergency
    } else if func_part == 0x100 {
        NodeCmd::Time
    } else if func_part == 0x180 {
        NodeCmd::Pdo1Tx
    } else if func_part == 0x200 {
        NodeCmd::Pdo1Rx
    } else if func_part == 0x280 {
        NodeCmd::Pdo2Tx
    } else if func_part == 0x300 {
        NodeCmd::Pdo2Rx
    } else if func_part == 0x380 {
        NodeCmd::Pdo3Tx
    } else if func_part == 0x400 {
        NodeCmd::Pdo3Rx
    } else if func_part == 0x480 {
        NodeCmd::Pdo4Tx
    } else if func_part == 0x500 {
        NodeCmd::Pdo4Rx
    } else if func_part == 0x580 {
        NodeCmd::SdoResp
    } else if func_part == 0x600 {
        NodeCmd::SdoReq
    } else if func_part == 0x700 {
        NodeCmd::Heartbeat
    } else {
        NodeCmd::Unused
    }
}

/// The function-code field a per-node command encodes to; `Unused` encodes to
/// zero.
pub open spec fn spec_encode_node_code(cmd: NodeCmd) -> u32 {
    match cmd {
        NodeCmd::Emergency => 0x080,
        NodeCmd::Time => 0x100,
        NodeCmd::Pdo1Tx => 0x180,
        NodeCmd::Pdo1Rx => 0x200,
        NodeCmd::Pdo2Tx => 0x280,
        NodeCmd::Pdo2Rx => 0x300,
        NodeCmd::Pdo3Tx => 0x380,
        NodeCmd::Pdo3Rx => 0x400,
        NodeCmd::Pdo4Tx => 0x480,
        NodeCmd::Pdo4Rx => 0x500,
        NodeCmd::SdoResp => 0x580,
        NodeCmd::SdoReq => 0x600,
        NodeCmd::Heartbeat => 0x700,
        NodeCmd::Unused => 0x000,
    }
}

/// The full decoding of a COB-ID: broadcast commands first, otherwise the
/// per-node command with the 7-bit node ID. Decoding never fails.
pub open spec fn spec_decode_fun_code(cob_id: u32) -> FunCode {
    match spec_decode_broadcast(cob_id) {
        Some(b) => FunCode::Broadcast(b),
        None => FunCode::Node(
            spec_decode_node_code(spec_fun_part(cob_id)),
            spec_node_part(cob_id) as u8,
        ),
    }
}

/// The COB-ID a decoded function code encodes to, when its node ID fits in 7
/// bits.
pub open spec fn spec_encode_fun_code(code: FunCode) -> u32 {
    match code {
        FunCode::Broadcast(BroadcastCmd::Nmt) => 0x000,
        FunCode::Broadcast(BroadcastCmd::Sync) => 0x080,
        FunCode::Node(cmd, node) => (spec_encode_node_code(cmd) + node) as u32,
    }
}

/// A function code that the router can place on the wire: a broadcast, or a
/// per-node command whose node ID fits in 7 bits.
pub open spec fn fun_code_valid(code: FunCode) -> bool {
    match code {
        FunCode::Broadcast(_) => true,
        FunCode::Node(_, node) => node < 0x80,
    }
}

/// Decodes the broadcast part of a COB-ID, if there is one.
pub fn decode_broadcast(cob_id: u32) -> (r: Option<BroadcastCmd>)
    ensures
        r == spec_decode_broadcast(cob_id),
{
    let fun: u32 = ((cob_id / 0x80) % 0x10) * 0x80;
    let node: u32 = cob_id % 0x80;

    if fun == 0x000 {
        Some(BroadcastCmd::Nmt)
    } else if fun == 0x080 && node == 0x00 {
        Some(BroadcastCmd::Sync)
    } else {
        None
    }
}

/// Decodes a function-code field into its per-node command.
pub fn decode_node_code(func_part: u32) -> (r: NodeCmd)
    ensures
        r == spec_decode_node_code(func_part as int),
{
    match func_part {
        0x080 => NodeCmd::Emergency,
        0x100 => NodeCmd::Time,
        0x180 => NodeCmd::Pdo1Tx,
        0x200 => NodeCmd::Pdo1Rx,
        0x280 => NodeCmd::Pdo2Tx,
        0x300 => NodeCmd::Pdo2Rx,
        0x380 => NodeCmd::Pdo3Tx,
        0x400 => NodeCmd::Pdo3Rx,
        0x480 => NodeCmd::Pdo4Tx,
        0x500 => NodeCmd::Pdo4Rx,
        0x580 => NodeCmd::SdoResp,
        0x600 => NodeCmd::SdoReq,
        0x700 => NodeCmd::Heartbeat,
        _ => NodeCmd::Unused,
    }
}

/// Encodes a per-node command into its function-code field.
pub fn encode_node_code(cmd: NodeCmd) -> (r: u32)
    ensures
        r == spec_encode_node_code(cmd),
{
    match cmd {
        NodeCmd::Emergency => 0x080,
        NodeCmd::Time => 0x100,
        NodeCmd::Pdo1Tx => 0x180,
        NodeCmd::Pdo1Rx => 0x200,
        NodeCmd::Pdo2Tx => 0x280,
        NodeCmd::Pdo2Rx => 0x300,
        NodeCmd::Pdo3Tx => 0x380,
        NodeCmd::Pdo3Rx => 0x400,
        NodeCmd::Pdo4Tx => 0x480,
        NodeCmd::Pdo4Rx => 0x500,
        NodeCmd::SdoResp => 0x580,
        NodeCmd::SdoReq => 0x600,
        NodeCmd::Heartbeat => 0x700,
        NodeCmd::Unused => 0x000,
    }
}

impl FunCode {
    /// Decodes an 11-bit CAN identifier into its function code and node ID;
    /// bits above the 11th are ignored. Decoding always succeeds.
    pub fn decode(cob_id: u32) -> (r: FunCode)
        ensures
            r == spec_decode_fun_code(cob_id),
    {
        if let Some(broadcast) = decode_broadcast(cob_id) {
            FunCode::Broadcast(broadcast)
        } else {
            let func_part: u32 = ((cob_id / 0x80) % 0x10) * 0x80;
            let node: u8 = (cob_id % 0x80) as u8;
            let cmd = decode_node_code(func_part);
            FunCode::Node(cmd, node)
        }
    }

    /// Encodes a function code back into a COB-ID. Fails exactly when asked
    /// to encode a node ID that does not fit in 7 bits.
    pub fn encode(self) -> (r: Option<u32>)
        ensures
            fun_code_valid(self) ==> r == Some(spec_encode_fun_code(self)),
            !fun_code_valid(self) ==> r is None,
    {
        match self {
            FunCode::Broadcast(BroadcastCmd::Nmt) => Some(0x000),
            FunCode::Broadcast(BroadcastCmd::Sync) => Some(0x080),
            FunCode::Node(cmd, node) => {
                if node < 0x80 {
                    let func_part = encode_node_code(cmd);
                    Some(func_part + node as u32)
                } else {
                    None
                }
            },
        }
    }
}

/// COB-ID bijection: every function code with a node ID below 128 decodes
/// back from its encoding. Two exceptions fall out of the broadcast rules:
/// `NodeCmd::Unused` encodes to zero and therefore decodes as broadcast NMT,
/// and `NodeCmd::Emergency` at node 0 encodes to `0x080` and therefore
/// decodes as broadcast SYNC.
pub proof fn lemma_fun_code_roundtrip(code: FunCode)
    requires
        fun_code_valid(code),
        !(code matches FunCode::Node(NodeCmd::Unused, _)),
        code != FunCode::Node(NodeCmd::Emergency, 0),
    ensures
        spec_decode_fun_code(spec_encode_fun_code(code)) == code,
{
    match code {
        FunCode::Broadcast(BroadcastCmd::Nmt) => {
            assert(spec_decode_fun_code(0x000) == code);
        },
        FunCode::Broadcast(BroadcastCmd::Sync) => {
            assert(spec_decode_fun_code(0x080) == code);
        },
        FunCode::Node(cmd, node) => {
            let c = spec_encode_node_code(cmd);
            let e = (c + node) as u32;
            assert(e % 0x80 == node);
            assert(((e / 0x80) % 0x10) * 0x80 == c);
        },
    }
}

/// The `Unused` exception to the COB-ID bijection: an `Unused` command
/// encodes to a zero function-code field, which decodes as broadcast NMT.
pub proof fn lemma_fun_code_unused(node: u8)
    requires
        node < 0x80,
    ensures
        spec_decode_fun_code(spec_encode_fun_code(FunCode::Node(NodeCmd::Unused, node)))
            == FunCode::Broadcast(BroadcastCmd::Nmt),
{
}

} // verus!
