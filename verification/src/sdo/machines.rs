use vstd::prelude::*;

use crate::dictionary::{Index, IntoBuf};
use crate::machine::MachineTrans;
use crate::sdo::abort::AbortCode;
use crate::sdo::ToggleBit;

pub use crate::sdo::{ClientRequest, ServerResponse};

verus! {

/// The capacity of the machine's inline transfer buffer, in bytes.
pub const BUFFER_CAPACITY: usize = 1024;

/// Protocol failures of the SDO client machine. Each is terminal for the
/// current transfer: the machine parks in its error state until re-armed.
#[derive(Debug, Clone, Copy, PartialEq, Eq, Structural)]
pub enum Error {
    /// The response does not belong to the machine's current state.
    StateResponseMismatch,
    /// The response names another index than the active transfer: received,
    /// then expected.
    IndexMismatch(Index, Index),
    /// The peer aborted the transfer.
    TransferAborted(AbortCode),
    /// A segment carried the wrong toggle bit.
    ToggleMismatch,
    /// A segment would run past the transfer buffer, or is longer than a
    /// segment can be.
    BufferOverflow,
}

/// The states of the SDO client transfer machine.
#[derive(Debug, Clone, Copy, PartialEq, Eq, Structural)]
pub enum ClientState {
    Idle,
    InitUpload,
    SingleSegmentUploaded,
    /// The stored toggle is the value the next incoming segment must carry.
    UploadingMultiples(ToggleBit),
    MultiplesUploaded,
    /// The length of the value to download, at most 4.
    InitSingleDownload(usize),
    /// The total length of the value to download.
    InitMultipleDownload(usize),
    /// The toggle the next acknowledgment must carry, and the total length.
    DownloadingSegments(ToggleBit, usize),
    DownloadCompleted,
    ErrorState(Error),
}

/// The SDO client machine: drives expedited and segmented upload and
/// download transfers against one node, producing outgoing requests and
/// consuming incoming responses.
pub struct ClientMachine<RR, RW> {
    /// The index of the active transfer.
    pub index: Index,
    /// The current state.
    pub state: ClientState,
    /// The cursor into the transfer buffer.
    pub data_index: usize,
    /// The completion sink of an armed upload, handed out once on completion.
    pub read_responder: Option<RR>,
    /// The completion sink of an armed download, handed out once on
    /// completion.
    pub write_responder: Option<RW>,
    /// The inline transfer buffer; always `BUFFER_CAPACITY` bytes.
    pub data: Vec<u8>,
}

/// The final results the machine surfaces to its caller.
pub enum ClientResult<RR, RW> {
    /// Index, the transfer buffer, the number of valid bytes in it, and the
    /// read completion sink if one is still held.
    UploadCompleted(Index, Vec<u8>, usize, Option<RR>),
    /// The write completion sink, if one is still held.
    DownloadCompleted(Option<RW>),
    /// The peer aborted the transfer.
    TransferAborted(AbortCode),
}

/// Everything an observation of the client machine can yield.
pub enum ClientOutput<RR, RW> {
    /// A request to send to the node.
    Output(ClientRequest),
    /// The transfer finished; the caller takes the result.
    Done(ClientResult<RR, RW>),
    /// The transfer failed; the machine stays parked here until re-armed.
    Error(Error),
    /// The machine can be armed with a new transfer.
    Ready,
}

impl<RR, RW> ClientOutput<RR, RW> {
    /// Whether the client may arm a new transfer: every observation but an
    /// outgoing request says so.
    pub fn is_ready(&self) -> (r: bool)
        ensures
            r == !(self matches ClientOutput::Output(_)),
    {
        match self {
            ClientOutput::Output(_) => false,
            _ => true,
        }
    }
}

impl<RR, RW> ClientMachine<RR, RW> {
    /// States the machine keeps itself in: the buffer keeps its capacity,
    /// the cursor stays inside it, and the download states carry lengths the
    /// buffer can hold with the cursor strictly before the end of the
    /// transfer.
    pub open spec fn wf(&self) -> bool {
        &&& self.data@.len() == BUFFER_CAPACITY
        &&& self.data_index <= BUFFER_CAPACITY
        &&& match self.state {
            ClientState::InitSingleDownload(len) => len <= 4,
            ClientState::InitMultipleDownload(n) => n <= BUFFER_CAPACITY && self.data_index < n,
            ClientState::DownloadingSegments(_, n) => n <= BUFFER_CAPACITY && self.data_index < n,
            _ => true,
        }
    }

    /// Arms a new upload of `index`: the machine moves to `InitUpload` and
    /// keeps `r` to answer the caller with.
    pub fn read(&mut self, index: Index, r: RR)
        ensures
            final(self).index == index,
            final(self).state == ClientState::InitUpload,
            final(self).read_responder == Some(r),
            final(self).write_responder == old(self).write_responder,
            final(self).data_index == old(self).data_index,
            final(self).data@ == old(self).data@,
            old(self).wf() ==> final(self).wf(),
    {
        self.index = index;
        self.read_responder = Some(r);
        self.state = ClientState::InitUpload;
    }

    /// Arms a new download of `t` to `index`: the value is serialized into
    /// the transfer buffer, the cursor reset, and the machine moves to the
    /// expedited state for at most four bytes, else to the segmented one.
    pub fn write<T: IntoBuf>(&mut self, index: Index, t: T, r: RW)
        requires
            old(self).wf(),
            t.spec_buf().len() <= BUFFER_CAPACITY,
        ensures
            final(self).wf(),
            final(self).index == index,
            final(self).write_responder == Some(r),
            final(self).read_responder == old(self).read_responder,
            final(self).data_index == 0,
            final(self).data@ == t.spec_buf() + old(self).data@.skip(t.spec_buf().len() as int),
            final(self).state == (if t.spec_buf().len() <= 4 {
                ClientState::InitSingleDownload(t.spec_buf().len() as usize)
            } else {
                ClientState::InitMultipleDownload(t.spec_buf().len() as usize)
            }),
    {
        self.index = index;
        let n = t.into_buf(&mut self.data);
        self.write_responder = Some(r);
        self.data_index = 0;
        if n <= 4 {
            self.state = ClientState::InitSingleDownload(n);
        } else {
            self.state = ClientState::InitMultipleDownload(n);
        }
    }
}

/// The transition table of the client machine, relating the state before a
/// response, the response, and the state after it. Index and toggle
/// mismatches and buffer overflows park the machine in the matching error
/// state; any `(state, response)` pair not in the table parks it in
/// `StateResponseMismatch`. The active index and the responders never change
/// here.
pub open spec fn client_transit_rel<RR, RW>(
    pre: ClientMachine<RR, RW>,
    resp: ServerResponse,
    post: ClientMachine<RR, RW>,
) -> bool {
    &&& post.index == pre.index
    &&& post.read_responder == pre.read_responder
    &&& post.write_responder == pre.write_responder
    &&& match (pre.state, resp) {
        (ClientState::InitUpload, ServerResponse::UploadSingleSegment(rix, len, d)) => {
            if rix != pre.index {
                client_error_step(pre, post, Error::IndexMismatch(rix, pre.index))
            } else {
                &&& post.state == ClientState::SingleSegmentUploaded
                &&& post.data_index == len
                &&& post.data@ == d@ + pre.data@.skip(4)
            }
        },
        (ClientState::InitUpload, ServerResponse::UploadInitMultiples(rix, _size)) => {
            if rix != pre.index {
                client_error_step(pre, post, Error::IndexMismatch(rix, pre.index))
            } else {
                &&& post.state == ClientState::UploadingMultiples(ToggleBit(false))
                &&& post.data_index == 0
                &&& post.data@ == pre.data@
            }
        },
        (
            ClientState::UploadingMultiples(toggle),
            ServerResponse::UploadMultiples(rt, end, len, d),
        ) => {
            if rt != toggle {
                client_error_step(pre, post, Error::ToggleMismatch)
            } else if len > 7 || pre.data_index + len > pre.data@.len() {
                client_error_step(pre, post, Error::BufferOverflow)
            } else {
                &&& post.state == (if end {
                    ClientState::MultiplesUploaded
                } else {
                    ClientState::UploadingMultiples(ToggleBit(!toggle.0))
                })
                &&& post.data_index == pre.data_index + len
                &&& post.data@ == pre.data@.take(pre.data_index as int) + d@.take(len as int)
                    + pre.data@.skip(pre.data_index + len)
            }
        },
        (ClientState::InitSingleDownload(_len), ServerResponse::DownloadInitAck(rix)) => {
            if rix != pre.index {
                client_error_step(pre, post, Error::IndexMismatch(rix, pre.index))
            } else {
                &&& post.state == ClientState::DownloadCompleted
                &&& post.data_index == pre.data_index
                &&& post.data@ == pre.data@
            }
        },
        (ClientState::InitMultipleDownload(n), ServerResponse::DownloadInitAck(rix)) => {
            if rix != pre.index {
                client_error_step(pre, post, Error::IndexMismatch(rix, pre.index))
            } else {
                &&& post.state == ClientState::DownloadingSegments(ToggleBit(false), n)
                &&& post.data_index == pre.data_index
                &&& post.data@ == pre.data@
            }
        },
        (ClientState::DownloadingSegments(toggle, n), ServerResponse::DownloadSegmentAck(rt)) => {
            if rt != toggle {
                client_error_step(pre, post, Error::ToggleMismatch)
            } else {
                &&& post.state == (if pre.data_index + 7 < n {
                    ClientState::DownloadingSegments(ToggleBit(!toggle.0), n)
                } else {
                    ClientState::DownloadCompleted
                })
                &&& post.data_index == (if pre.data_index + 7 < n {
                    pre.data_index + 7
                } else {
                    pre.data_index as int
                })
                &&& post.data@ == pre.data@
            }
        },
        (_state, _resp) => client_error_step(pre, post, Error::StateResponseMismatch),
    }
}

/// A failing transition: the machine parks in the given error state and the
/// buffer and cursor stay as they were.
pub open spec fn client_error_step<RR, RW>(
    pre: ClientMachine<RR, RW>,
    post: ClientMachine<RR, RW>,
    e: Error,
) -> bool {
    &&& post.state == ClientState::ErrorState(e)
    &&& post.data_index == pre.data_index
    &&& post.data@ == pre.data@
}

/// Everything but the responders is unchanged by an observation.
pub open spec fn client_observe_frame<RR, RW>(
    pre: ClientMachine<RR, RW>,
    post: ClientMachine<RR, RW>,
) -> bool {
    &&& post.index == pre.index
    &&& post.state == pre.state
    &&& post.data_index == pre.data_index
    &&& post.data@ == pre.data@
}

/// The observation rules of the client machine: which request, completion,
/// or error each state yields, and how the completion states hand their
/// responder out exactly once.
pub open spec fn client_observe_rel<RR, RW>(
    pre: ClientMachine<RR, RW>,
    post: ClientMachine<RR, RW>,
    r: Option<ClientOutput<RR, RW>>,
) -> bool {
    &&& client_observe_frame(pre, post)
    &&& match pre.state {
        ClientState::Idle => {
            &&& post.read_responder == pre.read_responder
            &&& post.write_responder == pre.write_responder
            &&& r matches Some(ClientOutput::Ready)
        },
        ClientState::InitUpload => {
            &&& post.read_responder == pre.read_responder
            &&& post.write_responder == pre.write_responder
            &&& r == Some(ClientOutput::Output::<RR, RW>(ClientRequest::InitUpload(pre.index)))
        },
        ClientState::SingleSegmentUploaded => {
            &&& post.read_responder is None
            &&& post.write_responder == pre.write_responder
            &&& r matches Some(
                ClientOutput::Done(ClientResult::UploadCompleted(ix, buf, nn, resp)),
            )
            &&& ix == pre.index
            &&& buf@ == pre.data@
            &&& nn == pre.data_index
            &&& resp == pre.read_responder
        },
        ClientState::UploadingMultiples(toggle) => {
            &&& post.read_responder == pre.read_responder
            &&& post.write_responder == pre.write_responder
            &&& r == Some(ClientOutput::Output::<RR, RW>(ClientRequest::UploadSegment(toggle)))
        },
        ClientState::MultiplesUploaded => {
            &&& post.read_responder is None
            &&& post.write_responder == pre.write_responder
            &&& r matches Some(
                ClientOutput::Done(ClientResult::UploadCompleted(ix, buf, nn, resp)),
            )
            &&& ix == pre.index
            &&& buf@ == pre.data@
            &&& nn == pre.data_index
            &&& resp == pre.read_responder
        },
        ClientState::InitSingleDownload(len) => {
            &&& post.read_responder == pre.read_responder
            &&& post.write_responder == pre.write_responder
            &&& r matches Some(
                ClientOutput::Output(ClientRequest::InitSingleSegmentDownload(ix, l, d)),
            )
            &&& ix == pre.index
            &&& l == len as u8
            &&& forall|j: int|
                0 <= j < 4 ==> d@[j] == (if j < len {
                    pre.data@[j]
                } else {
                    0u8
                })
        },
        ClientState::InitMultipleDownload(len) => {
            &&& post.read_responder == pre.read_responder
            &&& post.write_responder == pre.write_responder
            &&& r == Some(
                ClientOutput::Output::<RR, RW>(
                    ClientRequest::InitMultipleDownload(pre.index, len as u32),
                ),
            )
        },
        ClientState::DownloadingSegments(toggle, n) => {
            &&& post.read_responder == pre.read_responder
            &&& post.write_responder == pre.write_responder
            &&& r matches Some(ClientOutput::Output(ClientRequest::DownloadSegment(t, end, l, d)))
            &&& t == toggle
            &&& end == (pre.data_index + 7 >= n)
            &&& l == 7u8
            &&& forall|j: int|
                0 <= j < 7 ==> d@[j] == (if pre.data_index + j < n {
                    pre.data@[pre.data_index + j]
                } else {
                    0u8
                })
        },
        ClientState::DownloadCompleted => {
            &&& post.read_responder == pre.read_responder
            &&& post.write_responder is None
            &&& r matches Some(ClientOutput::Done(ClientResult::DownloadCompleted(resp)))
            &&& resp == pre.write_responder
        },
        ClientState::ErrorState(e) => {
            &&& post.read_responder == pre.read_responder
            &&& post.write_responder == pre.write_responder
            &&& r == Some(ClientOutput::Error::<RR, RW>(e))
        },
    }
}

/// Observation is idempotent outside the completion states: a machine that
/// is idle, mid-transfer, or parked on an error is left exactly as it was.
pub proof fn lemma_observe_idempotent<RR, RW>(
    pre: ClientMachine<RR, RW>,
    post: ClientMachine<RR, RW>,
    r: Option<ClientOutput<RR, RW>>,
)
    requires
        client_observe_rel(pre, post, r),
        !(pre.state == ClientState::SingleSegmentUploaded),
        !(pre.state == ClientState::MultiplesUploaded),
        !(pre.state == ClientState::DownloadCompleted),
    ensures
        client_observe_frame(pre, post),
        post.read_responder == pre.read_responder,
        post.write_responder == pre.write_responder,
{
}

/// Observation of a completed upload is not idempotent: the first one hands
/// the read responder out, so the second one carries an empty responder.
pub proof fn lemma_upload_done_consumes_responder<RR, RW>(
    pre: ClientMachine<RR, RW>,
    mid: ClientMachine<RR, RW>,
    r1: Option<ClientOutput<RR, RW>>,
    post: ClientMachine<RR, RW>,
    r2: Option<ClientOutput<RR, RW>>,
)
    requires
        pre.state == ClientState::SingleSegmentUploaded || pre.state
            == ClientState::MultiplesUploaded,
        client_observe_rel(pre, mid, r1),
        client_observe_rel(mid, post, r2),
    ensures
        r1 matches Some(ClientOutput::Done(ClientResult::UploadCompleted(_, _, _, resp1)))
            && resp1 == pre.read_responder,
        r2 matches Some(ClientOutput::Done(ClientResult::UploadCompleted(_, _, _, resp2)))
            && resp2 is None,
{
}

/// Observation of a completed download is not idempotent either: the first
/// one hands the write responder out.
pub proof fn lemma_download_done_consumes_responder<RR, RW>(
    pre: ClientMachine<RR, RW>,
    mid: ClientMachine<RR, RW>,
    r1: Option<ClientOutput<RR, RW>>,
    post: ClientMachine<RR, RW>,
    r2: Option<ClientOutput<RR, RW>>,
)
    requires
        pre.state == ClientState::DownloadCompleted,
        client_observe_rel(pre, mid, r1),
        client_observe_rel(mid, post, r2),
    ensures
        r1 matches Some(ClientOutput::Done(ClientResult::DownloadCompleted(resp1))) && resp1
            == pre.write_responder,
        r2 matches Some(ClientOutput::Done(ClientResult::DownloadCompleted(resp2))) && resp2
            is None,
{
}

impl<RR, RW> MachineTrans<ServerResponse> for ClientMachine<RR, RW> {
    type Observation = Option<ClientOutput<RR, RW>>;

    open spec fn inv(&self) -> bool {
        self.wf()
    }

    open spec fn initial_rel(pre: Self, post: Self) -> bool {
        &&& post.state == ClientState::Idle
        &&& post.data_index == 0
        &&& post.index == pre.index
        &&& post.read_responder == pre.read_responder
        &&& post.write_responder == pre.write_responder
        &&& post.data@ == pre.data@
    }

    open spec fn transit_rel(pre: Self, resp: ServerResponse, post: Self) -> bool {
        client_transit_rel(pre, resp, post)
    }

    open spec fn observe_rel(pre: Self, post: Self, r: Option<ClientOutput<RR, RW>>) -> bool {
        client_observe_rel(pre, post, r)
    }

    /// Hard reset: back to `Idle` with the cursor cleared.
    fn initial(&mut self) {
        self.state = ClientState::Idle;
        self.data_index = 0;
    }

    /// Consumes one server response according to the transition table.
    fn transit(&mut self, response: ServerResponse) {
        match (self.state, response) {
            (ClientState::InitUpload, ServerResponse::UploadSingleSegment(res_index, len, d)) => {
                if res_index != self.index {
                    self.state = ClientState::ErrorState(
                        Error::IndexMismatch(res_index, self.index),
                    );
                } else {
                    self.data.set(0, d[0]);
                    self.data.set(1, d[1]);
                    self.data.set(2, d[2]);
                    self.data.set(3, d[3]);
                    self.data_index = len as usize;
                    self.state = ClientState::SingleSegmentUploaded;
                    proof {
                        assert(self.data@ =~= d@ + old(self).data@.skip(4));
                    }
                }
            },
            (ClientState::InitUpload, ServerResponse::UploadInitMultiples(res_index, _size)) => {
                if res_index != self.index {
                    self.state = ClientState::ErrorState(
                        Error::IndexMismatch(res_index, self.index),
                    );
                } else {
                    self.data_index = 0;
                    self.state = ClientState::UploadingMultiples(ToggleBit(false));
                }
            },
            (
                ClientState::UploadingMultiples(toggle),
                ServerResponse::UploadMultiples(res_toggle, end, len, d),
            ) => {
                if res_toggle != toggle {
                    self.state = ClientState::ErrorState(Error::ToggleMismatch);
                } else {
                    let idx = self.data_index;
                    let data_len = len as usize;
                    if data_len > 7 || idx + data_len > self.data.len() {
                        self.state = ClientState::ErrorState(Error::BufferOverflow);
                    } else {
                        let mut i: usize = 0;
                        while i < data_len
                            invariant
                                i <= data_len,
                                data_len <= 7,
                                idx + data_len <= BUFFER_CAPACITY,
                                self.data@.len() == BUFFER_CAPACITY,
                                old(self).data@.len() == BUFFER_CAPACITY,
                                self.index == old(self).index,
                                self.state == old(self).state,
                                self.data_index == old(self).data_index,
                                self.read_responder == old(self).read_responder,
                                self.write_responder == old(self).write_responder,
                                forall|j: int| 0 <= j < idx ==> self.data@[j] == old(self).data@[j],
                                forall|j: int|
                                    idx <= j < idx + i ==> self.data@[j] == d@[j - idx],
                                forall|j: int|
                                    idx + i <= j < self.data@.len() ==> self.data@[j] == old(
                                        self,
                                    ).data@[j],
                            decreases data_len - i,
                        {
                            self.data.set(idx + i, d[i]);
                            i = i + 1;
                        }
                        self.data_index = idx + data_len;
                        if end {
                            self.state = ClientState::MultiplesUploaded;
                        } else {
                            self.state = ClientState::UploadingMultiples(toggle.flip());
                        }
                        proof {
                            assert(self.data@ =~= old(self).data@.take(idx as int) + d@.take(
                                data_len as int,
                            ) + old(self).data@.skip(idx + data_len));
                        }
                    }
                }
            },
            (ClientState::InitSingleDownload(_len), ServerResponse::DownloadInitAck(res_index)) => {
                if res_index != self.index {
                    self.state = ClientState::ErrorState(
                        Error::IndexMismatch(res_index, self.index),
                    );
                } else {
                    self.state = ClientState::DownloadCompleted;
                }
            },
            (ClientState::InitMultipleDownload(n), ServerResponse::DownloadInitAck(res_index)) => {
                if res_index != self.index {
                    self.state = ClientState::ErrorState(
                        Error::IndexMismatch(res_index, self.index),
                    );
                } else {
                    self.state = ClientState::DownloadingSegments(ToggleBit(false), n);
                }
            },
            (
                ClientState::DownloadingSegments(toggle, n),
                ServerResponse::DownloadSegmentAck(res_toggle),
            ) => {
                if res_toggle != toggle {
                    self.state = ClientState::ErrorState(Error::ToggleMismatch);
                } else {
                    if self.data_index + 7 < n {
                        self.state = ClientState::DownloadingSegments(toggle.flip(), n);
                        self.data_index = self.data_index + 7;
                    } else {
                        self.state = ClientState::DownloadCompleted;
                    }
                }
            },
            (_state, _response) => {
                self.state = ClientState::ErrorState(Error::StateResponseMismatch);
            },
        }
    }

    /// Reports the machine's current output per the observation rules; the
    /// completion states hand their responder out, so observing a completion
    /// a second time yields an empty one.
    fn observe(&mut self) -> (r: Option<ClientOutput<RR, RW>>) {
        match self.state {
            ClientState::Idle => Some(ClientOutput::Ready),
            ClientState::InitUpload => Some(
                ClientOutput::Output(ClientRequest::InitUpload(self.index)),
            ),
            ClientState::SingleSegmentUploaded => {
                let resp = self.read_responder.take();
                let buf = clone_buffer(&self.data);
                Some(
                    ClientOutput::Done(
                        ClientResult::UploadCompleted(self.index, buf, self.data_index, resp),
                    ),
                )
            },
            ClientState::UploadingMultiples(toggle) => Some(
                ClientOutput::Output(ClientRequest::UploadSegment(toggle)),
            ),
            ClientState::MultiplesUploaded => {
                let resp = self.read_responder.take();
                let buf = clone_buffer(&self.data);
                Some(
                    ClientOutput::Done(
                        ClientResult::UploadCompleted(self.index, buf, self.data_index, resp),
                    ),
                )
            },
            ClientState::InitSingleDownload(len) => {
                let mut d: [u8; 4] = [0; 4];
                let mut i: usize = 0;
                while i < len
                    invariant
                        i <= len,
                        len <= 4,
                        self.data@.len() == BUFFER_CAPACITY,
                        self.state == ClientState::InitSingleDownload(len),
                        forall|j: int| 0 <= j < i ==> d@[j] == self.data@[j],
                        forall|j: int| i <= j < 4 ==> d@[j] == 0u8,
                    decreases len - i,
                {
                    d[i] = self.data[i];
                    i = i + 1;
                }
                Some(
                    ClientOutput::Output(
                        ClientRequest::InitSingleSegmentDownload(self.index, len as u8, d),
                    ),
                )
            },
            ClientState::InitMultipleDownload(len) => Some(
                ClientOutput::Output(ClientRequest::InitMultipleDownload(self.index, len as u32)),
            ),
            ClientState::DownloadingSegments(toggle, n) => {
                let mut d: [u8; 7] = [0; 7];
                let ix0 = self.data_index;
                let end = ix0 + 7 >= n;
                let mut i: usize = 0;
                while i < 7
                    invariant
                        i <= 7,
                        ix0 < n <= BUFFER_CAPACITY,
                        self.data@.len() == BUFFER_CAPACITY,
                        self.state == ClientState::DownloadingSegments(toggle, n),
                        self.data_index == ix0,
                        forall|j: int|
                            0 <= j < i ==> d@[j] == (if ix0 + j < n {
                                self.data@[ix0 + j]
                            } else {
                                0u8
                            }),
                        forall|j: int| i <= j < 7 ==> d@[j] == 0u8,
                    decreases 7 - i,
                {
                    if ix0 + i < n {
                        d[i] = self.data[ix0 + i];
                    }
                    i = i + 1;
                }
                Some(
                    ClientOutput::Output(ClientRequest::DownloadSegment(toggle, end, 7, d)),
                )
            },
            ClientState::DownloadCompleted => {
                let resp = self.write_responder.take();
                Some(ClientOutput::Done(ClientResult::DownloadCompleted(resp)))
            },
            ClientState::ErrorState(err) => Some(ClientOutput::Error(err)),
        }
    }
}

impl<RR, RW> Default for ClientMachine<RR, RW> {
    fn default() -> (r: Self)
        ensures
            r.wf(),
            r.index == (Index { index: 0, sub: 0 }),
            r.state == ClientState::Idle,
            r.data_index == 0,
            r.read_responder is None,
            r.write_responder is None,
            r.data@ == Seq::<u8>::new(BUFFER_CAPACITY as nat, |i: int| 0u8),
    {
        let mut data: Vec<u8> = Vec::new();
        let mut i: usize = 0;
        while i < BUFFER_CAPACITY
            invariant
                i <= BUFFER_CAPACITY,
                data@.len() == i,
                forall|j: int| 0 <= j < i ==> data@[j] == 0u8,
            decreases BUFFER_CAPACITY - i,
        {
            data.push(0);
            i = i + 1;
        }
        proof {
            assert(data@ =~= Seq::<u8>::new(BUFFER_CAPACITY as nat, |i: int| 0u8));
        }
        ClientMachine {
            read_responder: None,
            write_responder: None,
            index: Index::new(0, 0),
            state: ClientState::Idle,
            data_index: 0,
            data,
        }
    }
}

/// A byte-for-byte copy of the transfer buffer, handed out with a completed
/// upload.
fn clone_buffer(data: &Vec<u8>) -> (r: Vec<u8>)
    ensures
        r@ == data@,
{
    let mut r: Vec<u8> = Vec::new();
    let mut i: usize = 0;
    while i < data.len()
        invariant
            i <= data@.len(),
            r@.len() == i,
            forall|j: int| 0 <= j < i ==> r@[j] == data@[j],
        decreases data@.len() - i,
    {
        r.push(data[i]);
        i = i + 1;
    }
    proof {
        assert(r@ =~= data@);
    }
    r
}

} // verus!
