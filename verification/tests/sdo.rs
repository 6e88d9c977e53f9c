use funcan_rs::dictionary::Index;
use funcan_rs::sdo::abort::AbortCode;
use funcan_rs::sdo::{ClientRequest, Error, ServerResponse, ToggleBit};

//----------------------------Client side tests------------------------------------------------//
#[test]
fn client_upload_init() {
    let req = ClientRequest::InitUpload(Index::new(0x1000, 0x01));
    let req_buf: [u8; 8] = req.encode();

    //CiA301 7.2.4.3.6 - SDO upload initiate
    let expected_buf: [u8; 8] = [0x40, 0x00, 0x10, 0x01, 0x00, 0x00, 0x00, 0x00];

    assert_eq!(req_buf, expected_buf);

    let req_dec = ClientRequest::decode(req_buf).unwrap();

    assert_eq!(req, req_dec);
}

#[test]
fn client_upload_segment() {
    let req = ClientRequest::UploadSegment(ToggleBit(false));
    let req_buf: [u8; 8] = req.encode();

    let expected_buf: [u8; 8] = [0x60, 0x00, 0x00, 0x00, 0x00, 0x00, 0x00, 0x00];

    assert_eq!(req_buf, expected_buf);

    let req_dec = ClientRequest::decode(req_buf).unwrap();
    assert_eq!(req, req_dec);
}

#[test]
fn client_download_single_init() {
    let index = Index::new(0x1000, 0x01);

    let req = ClientRequest::InitSingleSegmentDownload(index, 4, [0x01, 0x02, 0x03, 0x04]);

    let req_buf: [u8; 8] = req.encode();

    //CiA301 7.2.4.3.3 - SDO download initiate, e = 1, s = 1
    let expected_buf: [u8; 8] = [0x23, 0x00, 0x10, 0x01, 0x01, 0x02, 0x03, 0x04];

    assert_eq!(req_buf, expected_buf);

    let req_dec = ClientRequest::decode(req_buf).unwrap();

    assert_eq!(req, req_dec);
}

#[test]
fn client_download_last_segment() {
    let req = ClientRequest::DownloadSegment(ToggleBit(true), true, 7, [1, 2, 3, 4, 5, 6, 7]);

    let req_buf: [u8; 8] = req.encode();

    //CiA301 7.2.4.3.4 - SDO download last segment with toggle bit == 1
    let expected_buf: [u8; 8] = [0x11, 0x01, 0x02, 0x03, 0x04, 0x05, 0x06, 0x07];
    assert_eq!(req_buf, expected_buf);

    let req_dec = ClientRequest::decode(req_buf).unwrap();
    assert_eq!(req, req_dec);
}

#[test]
fn client_download_intermidiate_segment() {
    let req = ClientRequest::DownloadSegment(ToggleBit(false), false, 3, [1, 2, 3, 4, 5, 6, 7]);

    let req_buf: [u8; 8] = req.encode();

    //CiA301 7.2.4.3.4 - SDO download intermediate segment with toggle bit == 0
    let expected_buf: [u8; 8] = [0x08, 0x01, 0x02, 0x03, 0x04, 0x05, 0x06, 0x07];
    assert_eq!(req_buf, expected_buf);

    let req_dec = ClientRequest::decode(req_buf).unwrap();
    assert_eq!(req, req_dec);
}

#[test]
fn client_download_segment_init() {
    let index = Index::new(0x1000, 0x01);
    let req = ClientRequest::InitMultipleDownload(index, 10);

    let req_buf: [u8; 8] = req.encode();

    //CiA301 7.2.4.3.3 - SDO download initiate, e = 0, s = 1
    let expected_buf: [u8; 8] = [0x21, 0x00, 0x10, 0x01, 0x0A, 0x00, 0x00, 0x00];

    assert_eq!(req_buf, expected_buf);

    let req_dec = ClientRequest::decode(req_buf).unwrap();

    assert_eq!(req, req_dec);
}

#[test]
fn client_download_segment_init_unspecified_len() {
    let index = Index::new(0x1000, 0x01);
    let req = ClientRequest::InitMultipleDownload(index, 0);

    let req_buf: [u8; 8] = req.encode();

    //CiA301 7.2.4.3.3 - SDO download initiate, e = 0, s = 0
    let expected_buf: [u8; 8] = [0x20, 0x00, 0x10, 0x01, 0x00, 0x00, 0x00, 0x00];

    assert_eq!(req_buf, expected_buf);

    let req_dec = ClientRequest::decode(req_buf).unwrap();

    assert_eq!(req, req_dec);
}

#[test]
fn client_abort_transfer() {
    let index = Index::new(0x1000, 0x01);
    let req = ClientRequest::AbortTransfer(index, AbortCode::SDOProtocolTimedOut);

    let req_buf: [u8; 8] = req.encode();

    //CiA301 7.2.4.3.17 Protocol SDO abort transfer
    let expected_buf: [u8; 8] = [0x80, 0x00, 0x10, 0x01, 0x00, 0x00, 0x04, 0x05];
    assert_eq!(req_buf, expected_buf);

    let req_dec = ClientRequest::decode(req_buf).unwrap();
    assert_eq!(req, req_dec);
}

//----------------------------Server side tests------------------------------------------------//
#[test]
fn server_resp_upload_single() {
    let index = Index::new(0x1000, 0x01);
    let resp = ServerResponse::UploadSingleSegment(index, 2, [1, 2, 3, 4]);

    let resp_buf: [u8; 8] = resp.encode();
    //CiA 301 7.2.4.3.6 SDO protocol upload initiate response section
    let expected_buf: [u8; 8] = [0x4B, 0x00, 0x10, 0x01, 1, 2, 3, 4];
    assert_eq!(resp_buf, expected_buf);

    let resp_dec = ServerResponse::decode(resp_buf).unwrap();
    assert_eq!(resp, resp_dec);
}

#[test]
fn server_resp_initiate_multiply_segments_with_specified_len() {
    let index = Index::new(0x1000, 0x01);
    let resp = ServerResponse::UploadInitMultiples(index, 20);

    let resp_buf: [u8; 8] = resp.encode();
    //CiA 301 7.2.4.3.6 SDO protocol upload initiate response section
    let expected_buf: [u8; 8] = [0x41, 0x00, 0x10, 0x01, 20, 0, 0, 0];
    assert_eq!(resp_buf, expected_buf);

    let resp_dec = ServerResponse::decode(resp_buf).unwrap();
    assert_eq!(resp, resp_dec);
}

#[test]
fn server_resp_initiate_multiply_segments_with_unspecified_len() {
    let index = Index::new(0x1000, 0x01);
    let resp = ServerResponse::UploadInitMultiples(index, 0);

    let resp_buf: [u8; 8] = resp.encode();
    //CiA 301 7.2.4.3.6 SDO protocol upload initiate response section
    let expected_buf: [u8; 8] = [0x40, 0x00, 0x10, 0x01, 0, 0, 0, 0];
    assert_eq!(resp_buf, expected_buf);

    let resp_dec = ServerResponse::decode(resp_buf).unwrap();
    assert_eq!(resp, resp_dec);
}

#[test]
fn server_resp_upload_last_segment() {
    let resp = ServerResponse::UploadMultiples(ToggleBit(true), true, 5, [1, 2, 3, 4, 5, 6, 7]);

    let resp_buf: [u8; 8] = resp.encode();
    //CiA 301 7.2.4.3.7 SDO protocol upload segment response section
    let expected_buf: [u8; 8] = [0x15, 1, 2, 3, 4, 5, 6, 7];
    assert_eq!(resp_buf, expected_buf);

    let resp_dec = ServerResponse::decode(resp_buf).unwrap();
    assert_eq!(resp, resp_dec);
}

#[test]
fn server_resp_upload_intermidiate_segment() {
    let resp = ServerResponse::UploadMultiples(ToggleBit(false), false, 7, [1, 2, 3, 4, 5, 6, 7]);

    let resp_buf: [u8; 8] = resp.encode();
    //CiA 301 7.2.4.3.7 SDO protocol upload segment response section
    let expected_buf: [u8; 8] = [0x00, 1, 2, 3, 4, 5, 6, 7];
    assert_eq!(resp_buf, expected_buf);

    let resp_dec = ServerResponse::decode(resp_buf).unwrap();
    assert_eq!(resp, resp_dec);
}

#[test]
fn server_resp_download_init_ack() {
    let index = Index::new(0x1000, 0x01);
    let resp = ServerResponse::DownloadInitAck(index);

    let resp_buf: [u8; 8] = resp.encode();
    //CiA 301 7.2.4.3.3 SDO protocol download initiate response section
    let expected_buf: [u8; 8] = [0x60, 0x00, 0x10, 0x01, 0, 0, 0, 0];
    assert_eq!(resp_buf, expected_buf);

    let resp_dec = ServerResponse::decode(resp_buf).unwrap();
    assert_eq!(resp, resp_dec);
}

#[test]
fn server_resp_download_segment_ack() {
    let resp = ServerResponse::DownloadSegmentAck(ToggleBit(true));

    let resp_buf: [u8; 8] = resp.encode();
    //CiA 301 7.2.4.3.4 SDO protocol download segment response section
    let expected_buf: [u8; 8] = [0x30, 0, 0, 0, 0, 0, 0, 0];
    assert_eq!(resp_buf, expected_buf);

    let resp_dec = ServerResponse::decode(resp_buf).unwrap();
    assert_eq!(resp, resp_dec);
}

//----------------------------Codec error tests------------------------------------------------//
#[test]
fn client_request_unknown_specifier() {
    // command specifier 5 (0xA0) names no client request
    let buf: [u8; 8] = [0xA0, 0, 0, 0, 0, 0, 0, 0];
    assert_eq!(
        ClientRequest::decode(buf),
        Err(Error::UnknownClientCommandSpecifier(5))
    );
}

#[test]
fn server_response_unknown_specifier() {
    // command specifier 4 (0x80) names no server response
    let buf: [u8; 8] = [0x80, 0, 0, 0, 0, 0, 0, 0];
    assert_eq!(
        ServerResponse::decode(buf),
        Err(Error::UnknownServerCommandSpecifier(4))
    );
}

#[test]
fn server_response_expedited_without_size_rejected() {
    // scs = 2 (InitUpload) with e = 1, s = 0
    let buf: [u8; 8] = [0x42, 0x00, 0x10, 0x01, 0, 0, 0, 0];
    assert_eq!(
        ServerResponse::decode(buf),
        Err(Error::UnsupportedTransferType(2))
    );
}

#[test]
fn abort_code_roundtrip_and_unknown() {
    assert_eq!(AbortCode::SDOProtocolTimedOut.code(), 0x05040000);
    assert_eq!(
        AbortCode::from_code(0x05030000),
        AbortCode::ToggleBitNotAlternated
    );
    // an unknown code decodes to the general error
    assert_eq!(AbortCode::from_code(0xDEADBEEF), AbortCode::GeneralError);
}
