use funcan_rs::cobid::{
    decode_broadcast, decode_node_code, encode_node_code, BroadcastCmd, FunCode, NodeCmd,
};

#[test]
fn decode_heartbeat_cobid() {
    assert_eq!(
        FunCode::decode(0x702),
        FunCode::Node(NodeCmd::Heartbeat, 0x02)
    );
}

#[test]
fn decode_sdo_cobids() {
    assert_eq!(FunCode::decode(0x581), FunCode::Node(NodeCmd::SdoResp, 0x01));
    assert_eq!(FunCode::decode(0x601), FunCode::Node(NodeCmd::SdoReq, 0x01));
}

#[test]
fn decode_broadcasts() {
    assert_eq!(FunCode::decode(0x000), FunCode::Broadcast(BroadcastCmd::Nmt));
    assert_eq!(FunCode::decode(0x07F), FunCode::Broadcast(BroadcastCmd::Nmt));
    assert_eq!(FunCode::decode(0x080), FunCode::Broadcast(BroadcastCmd::Sync));
    assert_eq!(decode_broadcast(0x080), Some(BroadcastCmd::Sync));
    assert_eq!(decode_broadcast(0x081), None);
}

#[test]
fn encode_decode_roundtrip() {
    let cmds = [
        NodeCmd::Emergency,
        NodeCmd::Time,
        NodeCmd::Pdo1Tx,
        NodeCmd::Pdo1Rx,
        NodeCmd::Pdo2Tx,
        NodeCmd::Pdo2Rx,
        NodeCmd::Pdo3Tx,
        NodeCmd::Pdo3Rx,
        NodeCmd::Pdo4Tx,
        NodeCmd::Pdo4Rx,
        NodeCmd::SdoResp,
        NodeCmd::SdoReq,
        NodeCmd::Heartbeat,
    ];
    for cmd in cmds {
        for node in [1u8, 0x30, 0x7F] {
            let code = FunCode::Node(cmd, node);
            let cobid = code.encode().unwrap();
            assert_eq!(FunCode::decode(cobid), code);
        }
        assert_eq!(decode_node_code(encode_node_code(cmd)), cmd);
    }
}

#[test]
fn encode_rejects_wide_node_ids() {
    assert_eq!(FunCode::Node(NodeCmd::SdoReq, 0x80).encode(), None);
    assert_eq!(FunCode::Node(NodeCmd::SdoReq, 0x7F).encode(), Some(0x67F));
}

#[test]
fn bijection_exceptions() {
    // Unused encodes to a zero function code, which reads back as NMT
    let unused = FunCode::Node(NodeCmd::Unused, 5);
    let cobid = unused.encode().unwrap();
    assert_eq!(FunCode::decode(cobid), FunCode::Broadcast(BroadcastCmd::Nmt));

    // Emergency at node 0 collides with the SYNC broadcast
    let emcy0 = FunCode::Node(NodeCmd::Emergency, 0);
    let cobid = emcy0.encode().unwrap();
    assert_eq!(cobid, 0x080);
    assert_eq!(FunCode::decode(cobid), FunCode::Broadcast(BroadcastCmd::Sync));
}
