use funcan_rs::client::{ClientCmd, ClientConfig, ClientCtx, ClientError};
use funcan_rs::dictionary::{Dictionary, FromBuf, Index, IntoBuf};
use funcan_rs::interfaces::Responder;
use funcan_rs::raw::CANFrame;
use funcan_rs::sdo::Error as SdoError;

/// A one-object dictionary for tests: every index holds the same `u32`.
struct OneDict {
    val: u32,
}

impl Dictionary for OneDict {
    type Index = Index;
    type Object = u32;

    fn set(&mut self, x: u32) {
        self.val = x;
    }

    fn get(&self, _ix: &Index) -> u32 {
        self.val
    }
}

/// A completion sink that drops the value.
struct Nop;

impl Responder<u32> for Nop {
    fn respond(self, _x: u32) -> Result<(), u32> {
        Ok(())
    }
}

impl Responder<()> for Nop {
    fn respond(self, _x: ()) -> Result<(), ()> {
        Ok(())
    }
}

/// No physical interface is needed for the decision layer.
struct NoBus;

type Ctx = ClientCtx<NoBus, OneDict, Nop, Nop>;

fn new_ctx(val: u32) -> Ctx {
    ClientCtx::new(ClientConfig {
        dictionary: OneDict { val },
        physical: NoBus,
    })
}

#[test]
fn read_command_emits_initiate_upload() {
    let mut ctx = new_ctx(0);
    let frame = ctx
        .handle_cmd(ClientCmd::Read(0x01, Index::new(0x1000, 1), Nop))
        .expect("a ready machine must emit the initiate request");
    assert_eq!(frame.can_cobid, 0x601);
    assert_eq!(frame.can_len, 8);
    assert_eq!(frame.can_data, [0x40, 0x00, 0x10, 0x01, 0, 0, 0, 0]);
}

#[test]
fn write_command_emits_expedited_download() {
    let mut ctx = new_ctx(0x01020304);
    let frame = ctx
        .handle_cmd(ClientCmd::Write(0x02, Index::new(0x6000, 1), Nop))
        .expect("a ready machine must emit the initiate request");
    assert_eq!(frame.can_cobid, 0x602);
    assert_eq!(frame.can_len, 8);
    assert_eq!(frame.can_data, [0x23, 0x00, 0x60, 0x01, 0x04, 0x03, 0x02, 0x01]);
}

#[test]
fn busy_machine_drops_commands() {
    let mut ctx = new_ctx(0);
    let first = ctx.handle_cmd(ClientCmd::Read(0x01, Index::new(0x1000, 1), Nop));
    assert!(first.is_some());
    let second = ctx.handle_cmd(ClientCmd::Read(0x01, Index::new(0x2000, 0), Nop));
    assert!(second.is_none());
}

#[test]
fn upload_response_publishes_into_dictionary() {
    let mut ctx = new_ctx(0);
    let _ = ctx.handle_cmd(ClientCmd::Read(0x01, Index::new(0x1000, 1), Nop));

    // UploadSingleSegment((0x1000,1), 4, [0x78, 0x56, 0x34, 0x12])
    let payload = [0x43, 0x00, 0x10, 0x01, 0x78, 0x56, 0x34, 0x12];
    let next = ctx.handle_sdo_rx(0x01, payload).unwrap();
    assert!(next.is_none());
    assert_eq!(ctx.interface.dictionary.val, 0x12345678);
}

#[test]
fn download_ack_completes_transfer() {
    let mut ctx = new_ctx(0x01020304);
    let _ = ctx.handle_cmd(ClientCmd::Write(0x02, Index::new(0x6000, 1), Nop));

    // DownloadInitAck((0x6000,1))
    let frame = CANFrame {
        can_cobid: 0x582,
        can_len: 8,
        can_data: [0x60, 0x00, 0x60, 0x01, 0, 0, 0, 0],
    };
    let next = ctx.handle_rx(frame).unwrap();
    assert!(next.is_none());
}

#[test]
fn undecodable_payload_is_rejected() {
    let mut ctx = new_ctx(0);
    let r = ctx.handle_sdo_rx(0x01, [0x80, 0, 0, 0, 0, 0, 0, 0]);
    assert_eq!(r, Err(ClientError::Sdo(SdoError::UnknownServerCommandSpecifier(4))));
}

#[test]
fn heartbeat_frames_are_inert() {
    let mut ctx = new_ctx(0);
    let frame = CANFrame {
        can_cobid: 0x702,
        can_len: 1,
        can_data: [0x7F, 0, 0, 0, 0, 0, 0, 0],
    };
    assert_eq!(ctx.handle_rx(frame), Ok(None));
}

#[test]
fn u32_byte_form_roundtrip() {
    let x: u32 = 0xAABBCCDD;
    let mut buf = vec![0u8; 8];
    let n = x.into_buf(&mut buf);
    assert_eq!(n, 4);
    assert_eq!(&buf[0..4], &[0xDD, 0xCC, 0xBB, 0xAA]);
    assert_eq!(buf[4..8], [0, 0, 0, 0]);

    let back = <u32 as FromBuf>::from_buf(Index::new(0, 0), &buf[0..4]);
    assert_eq!(back, Some(x));
    // a prefix of the wrong length denotes no object
    assert_eq!(<u32 as FromBuf>::from_buf(Index::new(0, 0), &buf[0..3]), None);
}
