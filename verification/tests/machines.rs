use funcan_rs::dictionary::Index;
use funcan_rs::machine::MachineTrans;
use funcan_rs::sdo::machines::{
    ClientMachine, ClientOutput, ClientResult, ClientState, Error, BUFFER_CAPACITY,
};
use funcan_rs::sdo::{ClientRequest, ServerResponse, ToggleBit};

type Machine = ClientMachine<u32, u32>;

#[test]
fn upload_expedited_scenario() {
    let mut m = Machine::default();
    let ix = Index::new(0x1000, 1);
    m.read(ix, 7);

    match m.observe() {
        Some(ClientOutput::Output(ClientRequest::InitUpload(req_ix))) => assert_eq!(req_ix, ix),
        _ => panic!("expected an initiate-upload request"),
    }

    m.transit(ServerResponse::UploadSingleSegment(ix, 4, [0xAA, 0xBB, 0xCC, 0xDD]));

    match m.observe() {
        Some(ClientOutput::Done(ClientResult::UploadCompleted(got_ix, buffer, len, resp))) => {
            assert_eq!(got_ix, ix);
            assert_eq!(len, 4);
            assert_eq!(&buffer[0..4], &[0xAA, 0xBB, 0xCC, 0xDD]);
            assert_eq!(resp, Some(7));
        }
        _ => panic!("expected a completed upload"),
    }

    // the responder is consumed on the first observation
    match m.observe() {
        Some(ClientOutput::Done(ClientResult::UploadCompleted(_, _, _, resp))) => {
            assert_eq!(resp, None);
        }
        _ => panic!("expected a completed upload"),
    }
}

#[test]
fn upload_segmented_scenario() {
    let mut m = Machine::default();
    let ix = Index::new(0x2000, 0);
    m.read(ix, 7);

    m.transit(ServerResponse::UploadInitMultiples(ix, 10));
    match m.observe() {
        Some(ClientOutput::Output(ClientRequest::UploadSegment(t))) => {
            assert_eq!(t, ToggleBit(false));
        }
        _ => panic!("expected an upload-segment request"),
    }

    m.transit(ServerResponse::UploadMultiples(
        ToggleBit(false),
        false,
        7,
        [1, 2, 3, 4, 5, 6, 7],
    ));
    match m.observe() {
        Some(ClientOutput::Output(ClientRequest::UploadSegment(t))) => {
            assert_eq!(t, ToggleBit(true));
        }
        _ => panic!("expected an upload-segment request"),
    }

    m.transit(ServerResponse::UploadMultiples(
        ToggleBit(true),
        true,
        3,
        [8, 9, 10, 0, 0, 0, 0],
    ));
    match m.observe() {
        Some(ClientOutput::Done(ClientResult::UploadCompleted(got_ix, buffer, len, resp))) => {
            assert_eq!(got_ix, ix);
            assert_eq!(len, 10);
            assert_eq!(&buffer[0..10], &[1, 2, 3, 4, 5, 6, 7, 8, 9, 10]);
            assert_eq!(resp, Some(7));
        }
        _ => panic!("expected a completed upload"),
    }
}

#[test]
fn download_expedited_scenario() {
    let mut m = Machine::default();
    let ix = Index::new(0x6000, 1);
    m.write(ix, 0x01020304u32, 9);

    match m.observe() {
        Some(ClientOutput::Output(ClientRequest::InitSingleSegmentDownload(req_ix, len, data))) => {
            assert_eq!(req_ix, ix);
            assert_eq!(len, 4);
            assert_eq!(data, [0x04, 0x03, 0x02, 0x01]); // little-endian
        }
        _ => panic!("expected an expedited initiate-download request"),
    }

    m.transit(ServerResponse::DownloadInitAck(ix));

    match m.observe() {
        Some(ClientOutput::Done(ClientResult::DownloadCompleted(resp))) => {
            assert_eq!(resp, Some(9));
        }
        _ => panic!("expected a completed download"),
    }
}

#[test]
fn download_segmented_scenario() {
    let mut m = Machine::default();
    let ix = Index::new(0x2000, 0);

    // a 10-byte object serialized into the transfer buffer
    m.index = ix;
    m.state = ClientState::InitMultipleDownload(10);
    m.write_responder = Some(9);
    m.data_index = 0;
    for i in 0..10 {
        m.data[i] = (i + 1) as u8;
    }

    match m.observe() {
        Some(ClientOutput::Output(ClientRequest::InitMultipleDownload(req_ix, total))) => {
            assert_eq!(req_ix, ix);
            assert_eq!(total, 10);
        }
        _ => panic!("expected a segmented initiate-download request"),
    }

    m.transit(ServerResponse::DownloadInitAck(ix));
    match m.observe() {
        Some(ClientOutput::Output(ClientRequest::DownloadSegment(t, last, len, data))) => {
            assert_eq!(t, ToggleBit(false));
            assert!(!last);
            assert_eq!(len, 7);
            assert_eq!(data, [1, 2, 3, 4, 5, 6, 7]);
        }
        _ => panic!("expected a download segment"),
    }

    m.transit(ServerResponse::DownloadSegmentAck(ToggleBit(false)));
    match m.observe() {
        Some(ClientOutput::Output(ClientRequest::DownloadSegment(t, last, len, data))) => {
            assert_eq!(t, ToggleBit(true));
            assert!(last);
            assert_eq!(len, 7);
            assert_eq!(data, [8, 9, 10, 0, 0, 0, 0]); // padded with zeros
        }
        _ => panic!("expected the last download segment"),
    }

    m.transit(ServerResponse::DownloadSegmentAck(ToggleBit(true)));
    match m.observe() {
        Some(ClientOutput::Done(ClientResult::DownloadCompleted(resp))) => {
            assert_eq!(resp, Some(9));
        }
        _ => panic!("expected a completed download"),
    }
}

#[test]
fn toggle_mismatch_fault() {
    let mut m = Machine::default();
    let ix = Index::new(0x2000, 0);
    m.read(ix, 7);
    m.transit(ServerResponse::UploadInitMultiples(ix, 10));

    // the first segment must carry toggle false; true is a mismatch
    m.transit(ServerResponse::UploadMultiples(
        ToggleBit(true),
        false,
        7,
        [1, 2, 3, 4, 5, 6, 7],
    ));

    match m.observe() {
        Some(ClientOutput::Error(e)) => assert_eq!(e, Error::ToggleMismatch),
        _ => panic!("expected a toggle-mismatch error"),
    }
}

#[test]
fn index_mismatch_fault() {
    let mut m = Machine::default();
    m.read(Index::new(0x1000, 1), 7);

    m.transit(ServerResponse::UploadSingleSegment(
        Index::new(0x1001, 1),
        4,
        [0, 0, 0, 0],
    ));

    match m.observe() {
        Some(ClientOutput::Error(e)) => {
            assert_eq!(
                e,
                Error::IndexMismatch(Index::new(0x1001, 1), Index::new(0x1000, 1))
            );
        }
        _ => panic!("expected an index-mismatch error"),
    }
}

#[test]
fn buffer_overflow_fault() {
    let mut m = Machine::default();
    let ix = Index::new(0x2000, 0);
    m.read(ix, 7);
    m.transit(ServerResponse::UploadInitMultiples(ix, 0));

    // feed full segments until one would run past the buffer
    let mut toggle = false;
    for _ in 0..(BUFFER_CAPACITY / 7) {
        m.transit(ServerResponse::UploadMultiples(
            ToggleBit(toggle),
            false,
            7,
            [0; 7],
        ));
        toggle = !toggle;
    }
    m.transit(ServerResponse::UploadMultiples(
        ToggleBit(toggle),
        false,
        7,
        [0; 7],
    ));

    match m.observe() {
        Some(ClientOutput::Error(e)) => assert_eq!(e, Error::BufferOverflow),
        _ => panic!("expected a buffer-overflow error"),
    }
    // the cursor never ran past the buffer
    assert!(m.data_index <= BUFFER_CAPACITY);
}

#[test]
fn state_response_mismatch_fault() {
    let mut m = Machine::default();
    m.read(Index::new(0x1000, 1), 7);

    // a download acknowledgment does not belong to an upload
    m.transit(ServerResponse::DownloadSegmentAck(ToggleBit(false)));

    match m.observe() {
        Some(ClientOutput::Error(e)) => assert_eq!(e, Error::StateResponseMismatch),
        _ => panic!("expected a state-response mismatch"),
    }
}

#[test]
fn machine_ready_observations() {
    let mut m = Machine::default();
    let out = m.observe().unwrap();
    assert!(out.is_ready());
    assert!(matches!(out, ClientOutput::Ready));

    m.read(Index::new(0x1000, 1), 7);
    let out = m.observe().unwrap();
    assert!(!out.is_ready());

    m.initial();
    let out = m.observe().unwrap();
    assert!(out.is_ready());
    assert_eq!(m.data_index, 0);
}
