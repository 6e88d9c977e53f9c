pub mod abort;
pub mod machines;

use vstd::prelude::*;

use crate::dictionary::{Index, index_bytes, index_of_bytes};
use crate::sdo::abort::{AbortCode, spec_abort_code, spec_abort_of};
use crate::{u32_from_le, u32_le_bytes};

verus! {

/// Codec failures: command specifiers or transfer types that no SDO message
/// uses.
#[derive(Debug, Clone, Copy, PartialEq, Eq, Structural)]
pub enum Error {
    UnsupportedTransferType(u8),
    UnknownClientCommandSpecifier(u8),
    UnknownServerCommandSpecifier(u8),
}

/// The expedited/normal flavour of an SDO initiate frame, the `e` and `s`
/// bits of its command byte.
#[derive(Debug, Clone, Copy, PartialEq, Eq, Structural)]
pub enum TransferType {
    /// Segmented, size specified: `e = 0, s = 1`.
    Normal,
    /// Segmented, size not given: `e = 0, s = 0`.
    NormalUnspecifiedSize,
    /// Expedited with `n` data bytes, `0 <= n <= 4`: `e = 1, s = 1`.
    ExpeditedWithSize(u8),
}

/// The low four bits of an initiate command byte for a transfer type: the
/// unused-byte count in bits 2..4 and the `e`/`s` pair in bits 0..2.
pub open spec fn spec_transfer_type_byte(t: TransferType) -> u8
    recommends
        t matches TransferType::ExpeditedWithSize(n) ==> n <= 4,
{
    match t {
        TransferType::Normal => 0x01,
        TransferType::NormalUnspecifiedSize => 0x00,
        TransferType::ExpeditedWithSize(n) => (0x03 + (4 - n) * 4) as u8,
    }
}

/// The transfer type denoted by an initiate command byte. The pair
/// `e = 1, s = 0` (expedited without size) is not accepted on responses and
/// fails with `UnsupportedTransferType`.
pub open spec fn spec_transfer_type_of(x: u8) -> Result<TransferType, Error> {
    if x % 4 == 1 {
        Ok(TransferType::Normal)
    } else if x % 4 == 0 {
        Ok(TransferType::NormalUnspecifiedSize)
    } else if x % 4 == 3 {
        Ok(TransferType::ExpeditedWithSize((4 - (x / 4) % 4) as u8))
    } else {
        Err(Error::UnsupportedTransferType(2))
    }
}

impl TransferType {
    /// Encodes the transfer type into the low bits of an initiate command
    /// byte.
    pub fn to_byte(self) -> (r: u8)
        requires
            self matches TransferType::ExpeditedWithSize(n) ==> n <= 4,
        ensures
            r == spec_transfer_type_byte(self),
    {
        match self {
            TransferType::Normal => 0x01,
            TransferType::NormalUnspecifiedSize => 0x00,
            TransferType::ExpeditedWithSize(n) => 0x03 + (4 - n) * 4,
        }
    }

    /// Decodes the transfer type from an initiate command byte.
    pub fn from_byte(x: u8) -> (r: Result<TransferType, Error>)
        ensures
            r == spec_transfer_type_of(x),
    {
        let code = x % 4;
        if code == 1 {
            Ok(TransferType::Normal)
        } else if code == 0 {
            Ok(TransferType::NormalUnspecifiedSize)
        } else if code == 3 {
            Ok(TransferType::ExpeditedWithSize(4 - (x / 4) % 4))
        } else {
            Err(Error::UnsupportedTransferType(2))
        }
    }
}

/// The toggle bit of segmented transfers, carried in bit 4 of the command
/// byte; it alternates between consecutive segments.
#[derive(Debug, Clone, Copy, PartialEq, Eq, Structural)]
pub struct ToggleBit(pub bool);

/// The command-byte contribution of a toggle bit.
pub open spec fn toggle_byte(t: ToggleBit) -> u8 {
    if t.0 {
        0x10
    } else {
        0x00
    }
}

/// The toggle bit carried in bit 4 of a command byte.
pub open spec fn toggle_of_byte(b: u8) -> ToggleBit {
    ToggleBit((b / 0x10) % 2 == 1)
}

impl ToggleBit {
    /// The alternated toggle, as the next segment of a transfer carries it.
    pub fn flip(self) -> (r: Self)
        ensures
            r == ToggleBit(!self.0),
    {
        ToggleBit(!self.0)
    }

    /// Places the toggle in bit 4 of a command byte.
    pub fn to_byte(self) -> (r: u8)
        ensures
            r == toggle_byte(self),
    {
        if self.0 {
            0x10
        } else {
            0x00
        }
    }

    /// Reads the toggle out of bit 4 of a command byte.
    pub fn from_byte(x: u8) -> (r: Self)
        ensures
            r == toggle_of_byte(x),
    {
        ToggleBit((x / 0x10) % 2 == 1)
    }
}

/// Client command specifiers, the high three bits of a request command byte.
#[derive(Debug, Clone, Copy, PartialEq, Eq, Structural)]
pub enum ClientCommandSpecifier {
    InitDownload,
    DownloadSegment,
    InitUpload,
    UploadSegment,
    AbortTransfer,
}

/// The command byte carrying a client command specifier in its high bits.
pub open spec fn spec_ccs_byte(c: ClientCommandSpecifier) -> u8 {
    match c {
        ClientCommandSpecifier::DownloadSegment => 0x00,
        ClientCommandSpecifier::InitDownload => 0x20,
        ClientCommandSpecifier::InitUpload => 0x40,
        ClientCommandSpecifier::UploadSegment => 0x60,
        ClientCommandSpecifier::AbortTransfer => 0x80,
    }
}

/// The client command specifier in the high three bits of a command byte;
/// the values 5 to 7 name no request.
pub open spec fn spec_ccs_of(x: u8) -> Result<ClientCommandSpecifier, Error> {
    if x / 0x20 == 0 {
        Ok(ClientCommandSpecifier::DownloadSegment)
    } else if x / 0x20 == 1 {
        Ok(ClientCommandSpecifier::InitDownload)
    } else if x / 0x20 == 2 {
        Ok(ClientCommandSpecifier::InitUpload)
    } else if x / 0x20 == 3 {
        Ok(ClientCommandSpecifier::UploadSegment)
    } else if x / 0x20 == 4 {
        Ok(ClientCommandSpecifier::AbortTransfer)
    } else {
        Err(Error::UnknownClientCommandSpecifier(x / 0x20))
    }
}

impl ClientCommandSpecifier {
    /// The command byte with this specifier in the high three bits.
    pub fn to_byte(self) -> (r: u8)
        ensures
            r == spec_ccs_byte(self),
    {
        match self {
            ClientCommandSpecifier::DownloadSegment => 0x00,
            ClientCommandSpecifier::InitDownload => 0x20,
            ClientCommandSpecifier::InitUpload => 0x40,
            ClientCommandSpecifier::UploadSegment => 0x60,
            ClientCommandSpecifier::AbortTransfer => 0x80,
        }
    }

    /// Reads the specifier out of the high three bits of a command byte.
    pub fn from_byte(x: u8) -> (r: Result<Self, Error>)
        ensures
            r == spec_ccs_of(x),
    {
        let cs = x / 0x20;
        match cs {
            0 => Ok(ClientCommandSpecifier::DownloadSegment),
            1 => Ok(ClientCommandSpecifier::InitDownload),
            2 => Ok(ClientCommandSpecifier::InitUpload),
            3 => Ok(ClientCommandSpecifier::UploadSegment),
            4 => Ok(ClientCommandSpecifier::AbortTransfer),
            _ => Err(Error::UnknownClientCommandSpecifier(cs)),
        }
    }
}

/// Server command specifiers, the high three bits of a response command byte.
#[derive(Debug, Clone, Copy, PartialEq, Eq, Structural)]
pub enum ServerCommandSpecifier {
    InitDownloadAck,
    DownloadSegmentAck,
    InitUpload,
    UploadSegment,
}

/// The command byte carrying a server command specifier in its high bits.
pub open spec fn spec_scs_byte(c: ServerCommandSpecifier) -> u8 {
    match c {
        ServerCommandSpecifier::UploadSegment => 0x00,
        ServerCommandSpecifier::DownloadSegmentAck => 0x20,
        ServerCommandSpecifier::InitUpload => 0x40,
        ServerCommandSpecifier::InitDownloadAck => 0x60,
    }
}

/// The server command specifier in the high three bits of a command byte;
/// the values 4 to 7 name no response.
pub open spec fn spec_scs_of(x: u8) -> Result<ServerCommandSpecifier, Error> {
    if x / 0x20 == 0 {
        Ok(ServerCommandSpecifier::UploadSegment)
    } else if x / 0x20 == 1 {
        Ok(ServerCommandSpecifier::DownloadSegmentAck)
    } else if x / 0x20 == 2 {
        Ok(ServerCommandSpecifier::InitUpload)
    } else if x / 0x20 == 3 {
        Ok(ServerCommandSpecifier::InitDownloadAck)
    } else {
        Err(Error::UnknownServerCommandSpecifier(x / 0x20))
    }
}

impl ServerCommandSpecifier {
    /// The command byte with this specifier in the high three bits.
    pub fn to_byte(self) -> (r: u8)
        ensures
            r == spec_scs_byte(self),
    {
        match self {
            ServerCommandSpecifier::UploadSegment => 0x00,
            ServerCommandSpecifier::DownloadSegmentAck => 0x20,
            ServerCommandSpecifier::InitUpload => 0x40,
            ServerCommandSpecifier::InitDownloadAck => 0x60,
        }
    }

    /// Reads the specifier out of the high three bits of a command byte.
    pub fn from_byte(x: u8) -> (r: Result<Self, Error>)
        ensures
            r == spec_scs_of(x),
    {
        let cs = x / 0x20;
        match cs {
            0 => Ok(ServerCommandSpecifier::UploadSegment),
            1 => Ok(ServerCommandSpecifier::DownloadSegmentAck),
            2 => Ok(ServerCommandSpecifier::InitUpload),
            3 => Ok(ServerCommandSpecifier::InitDownloadAck),
            _ => Err(Error::UnknownServerCommandSpecifier(cs)),
        }
    }
}

/// SDO requests the client sends to a node.
#[derive(Debug, Clone, Copy, PartialEq)]
pub enum ClientRequest {
    InitUpload(Index),
    UploadSegment(ToggleBit),
    /// Index, data length in `1..=4`, and the 4-byte data word.
    InitSingleSegmentDownload(Index, u8, [u8; 4]),
    /// Index and total length; a total of zero means size unspecified.
    InitMultipleDownload(Index, u32),
    /// Toggle bit, last-segment flag, data length in `0..=7`, and the 7-byte
    /// segment data.
    DownloadSegment(ToggleBit, bool, u8, [u8; 7]),
    AbortTransfer(Index, AbortCode),
}

/// SDO responses a node sends back to the client.
#[derive(Debug, Clone, Copy, PartialEq)]
pub enum ServerResponse {
    /// Index, data length in `0..=4`, and the 4-byte data word.
    UploadSingleSegment(Index, u8, [u8; 4]),
    /// Index and total size; a size of zero means size unspecified.
    UploadInitMultiples(Index, u32),
    /// Toggle bit, last-segment flag, data length in `0..=7`, and the 7-byte
    /// segment data.
    UploadMultiples(ToggleBit, bool, u8, [u8; 7]),
    DownloadInitAck(Index),
    DownloadSegmentAck(ToggleBit),
}

/// The 8-byte payload a client request encodes to.
pub open spec fn spec_encode_request(r: ClientRequest) -> Seq<u8> {
    match r {
        ClientRequest::InitUpload(ix) => seq![0x40u8] + index_bytes(ix) + seq![0u8, 0u8, 0u8, 0u8],
        ClientRequest::UploadSegment(t) => seq![
            (0x60 + toggle_byte(t)) as u8,
            0u8,
            0u8,
            0u8,
            0u8,
            0u8,
            0u8,
            0u8,
        ],
        ClientRequest::InitSingleSegmentDownload(ix, len, data) => seq![
            (0x23 + (4 - len) * 4) as u8,
        ] + index_bytes(ix) + data@,
        ClientRequest::InitMultipleDownload(ix, total) => seq![
            if total > 0 {
                0x21u8
            } else {
                0x20u8
            },
        ] + index_bytes(ix) + u32_le_bytes(total),
        ClientRequest::DownloadSegment(t, last, n, d) => seq![
            (toggle_byte(t) + (7 - n) * 2 + if last {
                1int
            } else {
                0int
            }) as u8,
        ] + d@,
        ClientRequest::AbortTransfer(ix, code) => seq![0x80u8] + index_bytes(ix) + u32_le_bytes(
            spec_abort_code(code),
        ),
    }
}

/// Client requests whose length fields lie in the ranges the wire format
/// carries faithfully.
pub open spec fn request_wf(r: ClientRequest) -> bool {
    match r {
        ClientRequest::InitSingleSegmentDownload(_, len, _) => 1 <= len <= 4,
        ClientRequest::DownloadSegment(_, _, n, _) => n <= 7,
        _ => true,
    }
}

/// What an 8-byte payload decodes to as a client request: `r` is the decoding
/// of `b`. The relation pins `r` down for every payload.
pub open spec fn request_decodes_to(b: Seq<u8>, r: Result<ClientRequest, Error>) -> bool
    recommends
        b.len() == 8,
{
    let b0 = b[0];
    if b0 / 0x20 == 2 {
        r == Ok::<ClientRequest, Error>(ClientRequest::InitUpload(index_of_bytes(b.skip(1))))
    } else if b0 / 0x20 == 3 {
        r == Ok::<ClientRequest, Error>(ClientRequest::UploadSegment(toggle_of_byte(b0)))
    } else if b0 / 0x20 == 1 {
        let ix = index_of_bytes(b.skip(1));
        let e = (b0 / 2) % 2 == 1;
        let s = b0 % 2 == 1;
        if !e && !s {
            r == Ok::<ClientRequest, Error>(ClientRequest::InitMultipleDownload(ix, 0))
        } else if !e && s {
            r == Ok::<ClientRequest, Error>(
                ClientRequest::InitMultipleDownload(ix, u32_from_le(b[4], b[5], b[6], b[7])),
            )
        } else {
            // Expedited: the data word is bytes 4..8. With `s` clear the
            // length is unspecified and recorded as zero.
            let len = if s {
                (4 - (b0 / 4) % 4) as u8
            } else {
                0u8
            };
            &&& r matches Ok(ClientRequest::InitSingleSegmentDownload(ix2, len2, data))
            &&& ix2 == ix
            &&& len2 == len
            &&& data@ == b.subrange(4, 8)
        }
    } else if b0 / 0x20 == 0 {
        &&& r matches Ok(ClientRequest::DownloadSegment(t, last, n, d))
        &&& t == toggle_of_byte(b0)
        &&& last == (b0 % 2 == 1)
        &&& n == (7 - (b0 / 2) % 8) as u8
        &&& d@ == b.subrange(1, 8)
    } else if b0 / 0x20 == 4 {
        r == Ok::<ClientRequest, Error>(
            ClientRequest::AbortTransfer(
                index_of_bytes(b.skip(1)),
                spec_abort_of(u32_from_le(b[4], b[5], b[6], b[7])),
            ),
        )
    } else {
        r == Err::<ClientRequest, Error>(Error::UnknownClientCommandSpecifier(b0 / 0x20))
    }
}

/// The index carried in bytes 1..4 of an SDO payload.
fn index_from_payload(req: &[u8; 8]) -> (r: Index)
    ensures
        r == index_of_bytes(req@.skip(1)),
{
    Index { index: (req[1] as u16) + (req[2] as u16) * 0x100, sub: req[3] }
}

/// The little-endian 32-bit word carried in bytes 4..8 of an SDO payload.
fn word_from_payload(req: &[u8; 8]) -> (r: u32)
    ensures
        r == u32_from_le(req@[4], req@[5], req@[6], req@[7]),
{
    (req[4] as u32) + (req[5] as u32) * 0x100 + (req[6] as u32) * 0x10000 + (req[7] as u32)
        * 0x1000000
}

impl ClientRequest {
    /// Encodes the request into its 8-byte payload, per CiA 301 7.2.4.
    pub fn encode(self) -> (r: [u8; 8])
        requires
            self matches ClientRequest::InitSingleSegmentDownload(_, len, _) ==> len <= 4,
            self matches ClientRequest::DownloadSegment(_, _, n, _) ==> n <= 7,
        ensures
            r@ == spec_encode_request(self),
    {
        let ghost s = self;
        match self {
            ClientRequest::InitUpload(ix) => {
                let r = [
                    ClientCommandSpecifier::InitUpload.to_byte(),
                    (ix.index % 0x100) as u8,
                    (ix.index / 0x100) as u8,
                    ix.sub,
                    0u8,
                    0u8,
                    0u8,
                    0u8,
                ];
                proof {
                    assert(r@ =~= spec_encode_request(s));
                }
                r
            },
            ClientRequest::UploadSegment(t) => {
                let b0 = ClientCommandSpecifier::UploadSegment.to_byte() + t.to_byte();
                let r = [b0, 0u8, 0u8, 0u8, 0u8, 0u8, 0u8, 0u8];
                proof {
                    assert(r@ =~= spec_encode_request(s));
                }
                r
            },
            ClientRequest::InitSingleSegmentDownload(ix, len, data) => {
                let b0 = ClientCommandSpecifier::InitDownload.to_byte()
                    + TransferType::ExpeditedWithSize(len).to_byte();
                let r = [
                    b0,
                    (ix.index % 0x100) as u8,
                    (ix.index / 0x100) as u8,
                    ix.sub,
                    data[0],
                    data[1],
                    data[2],
                    data[3],
                ];
                proof {
                    assert(r@ =~= spec_encode_request(s));
                }
                r
            },
            ClientRequest::InitMultipleDownload(ix, total) => {
                let ty = if total > 0 {
                    TransferType::Normal
                } else {
                    TransferType::NormalUnspecifiedSize
                };
                let b0: u8 = ClientCommandSpecifier::InitDownload.to_byte() + ty.to_byte();
                let r = [
                    b0,
                    (ix.index % 0x100) as u8,
                    (ix.index / 0x100) as u8,
                    ix.sub,
                    (total % 0x100) as u8,
                    ((total / 0x100) % 0x100) as u8,
                    ((total / 0x10000) % 0x100) as u8,
                    (total / 0x1000000) as u8,
                ];
                proof {
                    assert(r@ =~= spec_encode_request(s));
                }
                r
            },
            ClientRequest::DownloadSegment(t, last, n, d) => {
                let b0: u8 = ClientCommandSpecifier::DownloadSegment.to_byte() + t.to_byte() + (7
                    - n) * 2 + if last {
                    1
                } else {
                    0
                };
                let r = [b0, d[0], d[1], d[2], d[3], d[4], d[5], d[6]];
                proof {
                    assert(r@ =~= spec_encode_request(s));
                }
                r
            },
            ClientRequest::AbortTransfer(ix, code) => {
                let v = code.code();
                let r = [
                    ClientCommandSpecifier::AbortTransfer.to_byte(),
                    (ix.index % 0x100) as u8,
                    (ix.index / 0x100) as u8,
                    ix.sub,
                    (v % 0x100) as u8,
                    ((v / 0x100) % 0x100) as u8,
                    ((v / 0x10000) % 0x100) as u8,
                    (v / 0x1000000) as u8,
                ];
                proof {
                    assert(r@ =~= spec_encode_request(s));
                }
                r
            },
        }
    }

    /// Decodes an 8-byte payload into a client request; command bytes with
    /// an unknown specifier are rejected.
    pub fn decode(req: [u8; 8]) -> (r: Result<ClientRequest, Error>)
        ensures
            request_decodes_to(req@, r),
    {
        let b0 = req[0];
        let code = match ClientCommandSpecifier::from_byte(b0) {
            Ok(code) => code,
            Err(e) => {
                return Err(e);
            },
        };
        if code == ClientCommandSpecifier::InitUpload {
            let ix = index_from_payload(&req);
            Ok(ClientRequest::InitUpload(ix))
        } else if code == ClientCommandSpecifier::UploadSegment {
            Ok(ClientRequest::UploadSegment(ToggleBit::from_byte(b0)))
        } else if code == ClientCommandSpecifier::InitDownload {
            let ix = index_from_payload(&req);
            let is_expedited = (b0 / 2) % 2 == 1;
            let is_sized = b0 % 2 == 1;
            if !is_expedited && !is_sized {
                Ok(ClientRequest::InitMultipleDownload(ix, 0))
            } else if !is_expedited && is_sized {
                let len = word_from_payload(&req);
                Ok(ClientRequest::InitMultipleDownload(ix, len))
            } else {
                let len: u8 = if is_sized {
                    4 - (b0 / 4) % 4
                } else {
                    0
                };
                let data = [req[4], req[5], req[6], req[7]];
                proof {
                    assert(data@ =~= req@.subrange(4, 8));
                }
                Ok(ClientRequest::InitSingleSegmentDownload(ix, len, data))
            }
        } else if code == ClientCommandSpecifier::DownloadSegment {
            let t = ToggleBit::from_byte(b0);
            let last = b0 % 2 == 1;
            let n: u8 = 7 - (b0 / 2) % 8;
            let d = [req[1], req[2], req[3], req[4], req[5], req[6], req[7]];
            proof {
                assert(d@ =~= req@.subrange(1, 8));
            }
            Ok(ClientRequest::DownloadSegment(t, last, n, d))
        } else {
            let ix = index_from_payload(&req);
            let v = word_from_payload(&req);
            Ok(ClientRequest::AbortTransfer(ix, AbortCode::from_code(v)))
        }
    }
}

/// The 8-byte payload a server response encodes to.
pub open spec fn spec_encode_response(r: ServerResponse) -> Seq<u8> {
    match r {
        ServerResponse::UploadSingleSegment(ix, n, data) => seq![(0x43 + (4 - n) * 4) as u8]
            + index_bytes(ix) + data@,
        ServerResponse::UploadInitMultiples(ix, size) => seq![
            if size > 0 {
                0x41u8
            } else {
                0x40u8
            },
        ] + index_bytes(ix) + u32_le_bytes(size),
        ServerResponse::UploadMultiples(t, last, len, d) => seq![
            (toggle_byte(t) + (7 - len) * 2 + if last {
                1int
            } else {
                0int
            }) as u8,
        ] + d@,
        ServerResponse::DownloadInitAck(ix) => seq![0x60u8] + index_bytes(ix) + seq![
            0u8,
            0u8,
            0u8,
            0u8,
        ],
        ServerResponse::DownloadSegmentAck(t) => seq![
            (0x20 + toggle_byte(t)) as u8,
            0u8,
            0u8,
            0u8,
            0u8,
            0u8,
            0u8,
            0u8,
        ],
    }
}

/// Server responses whose length fields lie in the ranges the wire format
/// carries faithfully.
pub open spec fn response_wf(r: ServerResponse) -> bool {
    match r {
        ServerResponse::UploadSingleSegment(_, n, _) => 1 <= n <= 4,
        ServerResponse::UploadMultiples(_, _, len, _) => len <= 7,
        _ => true,
    }
}

/// What an 8-byte payload decodes to as a server response: `r` is the
/// decoding of `b`. The relation pins `r` down for every payload.
pub open spec fn response_decodes_to(b: Seq<u8>, r: Result<ServerResponse, Error>) -> bool
    recommends
        b.len() == 8,
{
    let b0 = b[0];
    if b0 / 0x20 == 2 {
        let ix = index_of_bytes(b.skip(1));
        match spec_transfer_type_of(b0) {
            Ok(TransferType::Normal) => r == Ok::<ServerResponse, Error>(
                ServerResponse::UploadInitMultiples(ix, u32_from_le(b[4], b[5], b[6], b[7])),
            ),
            Ok(TransferType::NormalUnspecifiedSize) => r == Ok::<ServerResponse, Error>(
                ServerResponse::UploadInitMultiples(ix, 0),
            ),
            Ok(TransferType::ExpeditedWithSize(n)) => {
                &&& r matches Ok(ServerResponse::UploadSingleSegment(ix2, n2, data))
                &&& ix2 == ix
                &&& n2 == n
                &&& data@ == b.subrange(4, 8)
            },
            Err(e) => r == Err::<ServerResponse, Error>(e),
        }
    } else if b0 / 0x20 == 0 {
        &&& r matches Ok(ServerResponse::UploadMultiples(t, last, len, d))
        &&& t == toggle_of_byte(b0)
        &&& last == (b0 % 2 == 1)
        &&& len == (7 - (b0 / 2) % 8) as u8
        &&& d@ == b.subrange(1, 8)
    } else if b0 / 0x20 == 3 {
        r == Ok::<ServerResponse, Error>(ServerResponse::DownloadInitAck(index_of_bytes(b.skip(1))))
    } else if b0 / 0x20 == 1 {
        r == Ok::<ServerResponse, Error>(ServerResponse::DownloadSegmentAck(toggle_of_byte(b0)))
    } else {
        r == Err::<ServerResponse, Error>(Error::UnknownServerCommandSpecifier(b0 / 0x20))
    }
}

impl ServerResponse {
    /// Encodes the response into its 8-byte payload, per CiA 301 7.2.4.
    pub fn encode(self) -> (r: [u8; 8])
        requires
            self matches ServerResponse::UploadSingleSegment(_, n, _) ==> n <= 4,
            self matches ServerResponse::UploadMultiples(_, _, len, _) ==> len <= 7,
        ensures
            r@ == spec_encode_response(self),
    {
        let ghost s = self;
        match self {
            ServerResponse::UploadSingleSegment(ix, n, data) => {
                let b0 = ServerCommandSpecifier::InitUpload.to_byte()
                    + TransferType::ExpeditedWithSize(n).to_byte();
                let r = [
                    b0,
                    (ix.index % 0x100) as u8,
                    (ix.index / 0x100) as u8,
                    ix.sub,
                    data[0],
                    data[1],
                    data[2],
                    data[3],
                ];
                proof {
                    assert(r@ =~= spec_encode_response(s));
                }
                r
            },
            ServerResponse::UploadInitMultiples(ix, size) => {
                let ty = if size > 0 {
                    TransferType::Normal
                } else {
                    TransferType::NormalUnspecifiedSize
                };
                let b0: u8 = ServerCommandSpecifier::InitUpload.to_byte() + ty.to_byte();
                let r = [
                    b0,
                    (ix.index % 0x100) as u8,
                    (ix.index / 0x100) as u8,
                    ix.sub,
                    (size % 0x100) as u8,
                    ((size / 0x100) % 0x100) as u8,
                    ((size / 0x10000) % 0x100) as u8,
                    (size / 0x1000000) as u8,
                ];
                proof {
                    assert(r@ =~= spec_encode_response(s));
                }
                r
            },
            ServerResponse::UploadMultiples(t, last, len, d) => {
                let b0: u8 = ServerCommandSpecifier::UploadSegment.to_byte() + t.to_byte() + (7
                    - len) * 2 + if last {
                    1
                } else {
                    0
                };
                let r = [b0, d[0], d[1], d[2], d[3], d[4], d[5], d[6]];
                proof {
                    assert(r@ =~= spec_encode_response(s));
                }
                r
            },
            ServerResponse::DownloadInitAck(ix) => {
                let r = [
                    ServerCommandSpecifier::InitDownloadAck.to_byte(),
                    (ix.index % 0x100) as u8,
                    (ix.index / 0x100) as u8,
                    ix.sub,
                    0u8,
                    0u8,
                    0u8,
                    0u8,
                ];
                proof {
                    assert(r@ =~= spec_encode_response(s));
                }
                r
            },
            ServerResponse::DownloadSegmentAck(t) => {
                let b0 = ServerCommandSpecifier::DownloadSegmentAck.to_byte() + t.to_byte();
                let r = [b0, 0u8, 0u8, 0u8, 0u8, 0u8, 0u8, 0u8];
                proof {
                    assert(r@ =~= spec_encode_response(s));
                }
                r
            },
        }
    }

    /// Decodes an 8-byte payload into a server response; command bytes with
    /// an unknown specifier, and the expedited-without-size transfer type,
    /// are rejected.
    pub fn decode(req: [u8; 8]) -> (r: Result<ServerResponse, Error>)
        ensures
            response_decodes_to(req@, r),
    {
        let b0 = req[0];
        let code = match ServerCommandSpecifier::from_byte(b0) {
            Ok(code) => code,
            Err(e) => {
                return Err(e);
            },
        };
        if code == ServerCommandSpecifier::InitUpload {
            let ix = index_from_payload(&req);
            match TransferType::from_byte(b0) {
                Ok(TransferType::Normal) => {
                    let n = word_from_payload(&req);
                    Ok(ServerResponse::UploadInitMultiples(ix, n))
                },
                Ok(TransferType::NormalUnspecifiedSize) => {
                    Ok(ServerResponse::UploadInitMultiples(ix, 0))
                },
                Ok(TransferType::ExpeditedWithSize(n)) => {
                    let data = [req[4], req[5], req[6], req[7]];
                    proof {
                        assert(data@ =~= req@.subrange(4, 8));
                    }
                    Ok(ServerResponse::UploadSingleSegment(ix, n, data))
                },
                Err(e) => Err(e),
            }
        } else if code == ServerCommandSpecifier::UploadSegment {
            let t = ToggleBit::from_byte(b0);
            let last = b0 % 2 == 1;
            let len: u8 = 7 - (b0 / 2) % 8;
            let d = [req[1], req[2], req[3], req[4], req[5], req[6], req[7]];
            proof {
                assert(d@ =~= req@.subrange(1, 8));
            }
            Ok(ServerResponse::UploadMultiples(t, last, len, d))
        } else if code == ServerCommandSpecifier::InitDownloadAck {
            let ix = index_from_payload(&req);
            Ok(ServerResponse::DownloadInitAck(ix))
        } else {
            Ok(ServerResponse::DownloadSegmentAck(ToggleBit::from_byte(b0)))
        }
    }
}

/// Codec round trip for requests: whatever the decoding relation admits for
/// the encoding of a well-formed request is that request back.
pub proof fn lemma_request_roundtrip(req: ClientRequest, r: Result<ClientRequest, Error>)
    requires
        request_wf(req),
        request_decodes_to(spec_encode_request(req), r),
    ensures
        r == Ok::<ClientRequest, Error>(req),
{
    let b = spec_encode_request(req);
    match req {
        ClientRequest::InitUpload(ix) => {
            assert(b.skip(1) =~= index_bytes(ix) + seq![0u8, 0u8, 0u8, 0u8]);
            lemma_index_roundtrip_tail(ix, seq![0u8, 0u8, 0u8, 0u8]);
        },
        ClientRequest::UploadSegment(t) => {
            assert(toggle_of_byte(b[0]) == t);
        },
        ClientRequest::InitSingleSegmentDownload(ix, len, data) => {
            assert(b.skip(1) =~= index_bytes(ix) + data@);
            lemma_index_roundtrip_tail(ix, data@);
            assert(b.subrange(4, 8) =~= data@);
            let rr = r;
            assert(rr matches Ok(ClientRequest::InitSingleSegmentDownload(ix2, len2, data2))
                && data2@ == data@);
            lemma_array4_view_eq(data);
        },
        ClientRequest::InitMultipleDownload(ix, total) => {
            assert(b.skip(1) =~= index_bytes(ix) + u32_le_bytes(total));
            lemma_index_roundtrip_tail(ix, u32_le_bytes(total));
            crate::lemma_u32_le_roundtrip(total);
        },
        ClientRequest::DownloadSegment(t, last, n, d) => {
            assert(b.subrange(1, 8) =~= d@);
            assert(toggle_of_byte(b[0]) == t);
            assert(b[0] % 2 == 1 <==> last);
            assert((7 - (b[0] / 2) % 8) as u8 == n);
            lemma_array7_view_eq(d);
        },
        ClientRequest::AbortTransfer(ix, code) => {
            assert(b.skip(1) =~= index_bytes(ix) + u32_le_bytes(spec_abort_code(code)));
            lemma_index_roundtrip_tail(ix, u32_le_bytes(spec_abort_code(code)));
            crate::lemma_u32_le_roundtrip(spec_abort_code(code));
            abort::lemma_abort_code_roundtrip(code);
        },
    }
}

/// Codec round trip for responses: whatever the decoding relation admits for
/// the encoding of a well-formed response is that response back.
pub proof fn lemma_response_roundtrip(resp: ServerResponse, r: Result<ServerResponse, Error>)
    requires
        response_wf(resp),
        response_decodes_to(spec_encode_response(resp), r),
    ensures
        r == Ok::<ServerResponse, Error>(resp),
{
    let b = spec_encode_response(resp);
    match resp {
        ServerResponse::UploadSingleSegment(ix, n, data) => {
            assert(b.skip(1) =~= index_bytes(ix) + data@);
            lemma_index_roundtrip_tail(ix, data@);
            assert(b.subrange(4, 8) =~= data@);
            assert(spec_transfer_type_of(b[0]) == Ok::<TransferType, Error>(
                TransferType::ExpeditedWithSize(n),
            ));
            lemma_array4_view_eq(data);
        },
        ServerResponse::UploadInitMultiples(ix, size) => {
            assert(b.skip(1) =~= index_bytes(ix) + u32_le_bytes(size));
            lemma_index_roundtrip_tail(ix, u32_le_bytes(size));
            crate::lemma_u32_le_roundtrip(size);
        },
        ServerResponse::UploadMultiples(t, last, len, d) => {
            assert(b.subrange(1, 8) =~= d@);
            assert(toggle_of_byte(b[0]) == t);
            assert(b[0] % 2 == 1 <==> last);
            assert((7 - (b[0] / 2) % 8) as u8 == len);
            lemma_array7_view_eq(d);
        },
        ServerResponse::DownloadInitAck(ix) => {
            assert(b.skip(1) =~= index_bytes(ix) + seq![0u8, 0u8, 0u8, 0u8]);
            lemma_index_roundtrip_tail(ix, seq![0u8, 0u8, 0u8, 0u8]);
        },
        ServerResponse::DownloadSegmentAck(t) => {
            assert(toggle_of_byte(b[0]) == t);
        },
    }
}

/// The request decoding relation is a function of the payload: two decodings
/// of the same payload agree.
pub proof fn lemma_request_decode_functional(
    b: Seq<u8>,
    r1: Result<ClientRequest, Error>,
    r2: Result<ClientRequest, Error>,
)
    requires
        b.len() == 8,
        request_decodes_to(b, r1),
        request_decodes_to(b, r2),
    ensures
        r1 == r2,
{
    if b[0] / 0x20 == 1 {
        let e = (b[0] / 2) % 2 == 1;
        if e {
            if let (Ok(ClientRequest::InitSingleSegmentDownload(_, _, d1)), Ok(
                ClientRequest::InitSingleSegmentDownload(_, _, d2),
            )) = (r1, r2) {
                assert(d1@ =~= d2@);
                lemma_array4_view_eq(d1);
                lemma_array4_view_eq(d2);
            }
        }
    } else if b[0] / 0x20 == 0 {
        if let (Ok(ClientRequest::DownloadSegment(_, _, _, d1)), Ok(
            ClientRequest::DownloadSegment(_, _, _, d2),
        )) = (r1, r2) {
            assert(d1@ =~= d2@);
            lemma_array7_view_eq(d1);
            lemma_array7_view_eq(d2);
        }
    }
}

/// The response decoding relation is a function of the payload: two
/// decodings of the same payload agree.
pub proof fn lemma_response_decode_functional(
    b: Seq<u8>,
    r1: Result<ServerResponse, Error>,
    r2: Result<ServerResponse, Error>,
)
    requires
        b.len() == 8,
        response_decodes_to(b, r1),
        response_decodes_to(b, r2),
    ensures
        r1 == r2,
{
    if b[0] / 0x20 == 2 {
        if let Ok(TransferType::ExpeditedWithSize(_)) = spec_transfer_type_of(b[0]) {
            if let (Ok(ServerResponse::UploadSingleSegment(_, _, d1)), Ok(
                ServerResponse::UploadSingleSegment(_, _, d2),
            )) = (r1, r2) {
                assert(d1@ =~= d2@);
                lemma_array4_view_eq(d1);
                lemma_array4_view_eq(d2);
            }
        }
    } else if b[0] / 0x20 == 0 {
        if let (Ok(ServerResponse::UploadMultiples(_, _, _, d1)), Ok(
            ServerResponse::UploadMultiples(_, _, _, d2),
        )) = (r1, r2) {
            assert(d1@ =~= d2@);
            lemma_array7_view_eq(d1);
            lemma_array7_view_eq(d2);
        }
    }
}

/// Re-encoding a decoded payload gives the payload back, for every payload
/// that is the encoding of some well-formed request: on such payloads the
/// reserved bits are zero and nothing is lost.
pub proof fn lemma_request_encode_decode(b: Seq<u8>, req: ClientRequest)
    requires
        exists|x: ClientRequest| request_wf(x) && b == spec_encode_request(x),
        request_decodes_to(b, Ok(req)),
    ensures
        spec_encode_request(req) == b,
{
    let x = choose|x: ClientRequest| request_wf(x) && b == spec_encode_request(x);
    lemma_request_roundtrip(x, Ok(req));
}

/// Re-encoding a decoded payload gives the payload back, for every payload
/// that is the encoding of some well-formed response.
pub proof fn lemma_response_encode_decode(b: Seq<u8>, resp: ServerResponse)
    requires
        exists|x: ServerResponse| response_wf(x) && b == spec_encode_response(x),
        response_decodes_to(b, Ok(resp)),
    ensures
        spec_encode_response(resp) == b,
{
    let x = choose|x: ServerResponse| response_wf(x) && b == spec_encode_response(x);
    lemma_response_roundtrip(x, Ok(resp));
}

/// An index read back from its 3-byte form followed by any tail is the index
/// itself.
proof fn lemma_index_roundtrip_tail(ix: Index, rest: Seq<u8>)
    ensures
        index_of_bytes(index_bytes(ix) + rest) == ix,
{
    crate::dictionary::lemma_index_bytes_roundtrip(ix, rest);
}

/// Two 4-byte arrays with the same view are the same array.
proof fn lemma_array4_view_eq(a: [u8; 4])
    ensures
        forall|b: [u8; 4]| a@ == b@ ==> a == b,
{
    assert forall|b: [u8; 4]| a@ == b@ implies a == b by {
        assert(a =~= b);
    }
}

/// Two 7-byte arrays with the same view are the same array.
proof fn lemma_array7_view_eq(a: [u8; 7])
    ensures
        forall|b: [u8; 7]| a@ == b@ ==> a == b,
{
    assert forall|b: [u8; 7]| a@ == b@ implies a == b by {
        assert(a =~= b);
    }
}

} // verus!
