use vstd::prelude::*;

use crate::cobid::{spec_encode_fun_code, spec_decode_fun_code, BroadcastCmd, FunCode, NodeCmd};
use crate::dictionary::{Dictionary, FromBuf, Index, IntoBuf};
use crate::heartbeat::HeartbeatMachine;
use crate::interfaces::Responder;
use crate::machine::MachineTrans;
use crate::raw::CANFrame;
use crate::sdo::machines::{
    client_observe_rel, client_transit_rel, ClientMachine, ClientOutput, ClientResult,
};
use crate::sdo::Error as SdoError;
use crate::sdo::{response_decodes_to, spec_encode_request, ClientRequest, ServerResponse};

verus! {

/// A host command to the client: read or write one dictionary object of the
/// given node, answering through the given responder.
pub enum ClientCmd<D: Dictionary, RR, RW> {
    Read(u8, D::Index, RR),
    Write(u8, D::Index, RW),
}

/// An event the dispatch loop wakes up on: a host command or an inbound
/// frame.
pub enum CANEvent<D: Dictionary, RR, RW> {
    Cmd(ClientCmd<D, RR, RW>),
    Rx(CANFrame),
}

/// What a client is built from: its dictionary and its physical interface.
pub struct ClientConfig<C, D> {
    pub dictionary: D,
    pub physical: C,
}

/// The machines and the dictionary behind one client.
pub struct ClientInterface<D, RR, RW> {
    /// The heartbeat supervisor.
    pub heartbeat: HeartbeatMachine,
    /// The SDO client machine.
    pub sdo: ClientMachine<RR, RW>,
    /// The application-level object dictionary.
    pub dictionary: D,
}

/// One CANopen client: the routing and transfer decisions around the SDO
/// machine. The surrounding loop owns the waiting and the sending; each
/// handler here consumes one event and says which frame, if any, to send.
pub struct ClientCtx<C, D, RR, RW> {
    /// The decision state: machines and dictionary.
    pub interface: ClientInterface<D, RR, RW>,
    /// The physical interface the surrounding loop drives.
    pub physical: C,
}

/// Failures a dispatch step can surface.
#[derive(Debug, Clone, Copy, PartialEq, Eq, Structural)]
pub enum ClientError {
    /// The payload did not decode as an SDO response.
    Sdo(SdoError),
    /// A completed upload carried bytes that denote no object.
    ObjectDecode,
}

/// Two client machines agree in everything observable: fields and buffer
/// contents.
pub open spec fn client_machine_eq<RR, RW>(
    a: ClientMachine<RR, RW>,
    b: ClientMachine<RR, RW>,
) -> bool {
    &&& b.index == a.index
    &&& b.state == a.state
    &&& b.data_index == a.data_index
    &&& b.read_responder == a.read_responder
    &&& b.write_responder == a.write_responder
    &&& b.data@ == a.data@
}

/// The COB-ID every SDO request to `node` is sent under.
pub open spec fn sdo_req_cobid(node: u8) -> u32 {
    spec_encode_fun_code(FunCode::Node(NodeCmd::SdoReq, (node % 0x80) as u8))
}

/// What one inbound SDO response payload does to the machine and what the
/// step hands back: a codec error leaves the machine untouched; otherwise
/// the machine transits and is observed, and an emitted request is returned
/// encoded as a frame for the node.
pub open spec fn sdo_rx_step_rel<O: FromBuf, RR, RW>(
    pre: ClientMachine<RR, RW>,
    node: u8,
    data: Seq<u8>,
    post: ClientMachine<RR, RW>,
    r: Result<Option<CANFrame>, ClientError>,
) -> bool {
    if exists|e: SdoError| response_decodes_to(data, Err::<ServerResponse, SdoError>(e)) {
        &&& client_machine_eq(pre, post)
        &&& r matches Err(ClientError::Sdo(e)) && response_decodes_to(
            data,
            Err::<ServerResponse, SdoError>(e),
        )
    } else {
        exists|resp: ServerResponse, mid: ClientMachine<RR, RW>, out: Option<
            ClientOutput<RR, RW>,
        >|
            {
                &&& response_decodes_to(data, Ok::<ServerResponse, SdoError>(resp))
                &&& #[trigger] client_transit_rel(pre, resp, mid)
                &&& #[trigger] client_observe_rel(mid, post, out)
                &&& match out {
                    Some(ClientOutput::Output(req)) => {
                        &&& r matches Ok(Some(f))
                        &&& f.can_cobid == sdo_req_cobid(node)
                        &&& f.can_len == 8
                        &&& f.can_data@ == spec_encode_request(req)
                    },
                    Some(ClientOutput::Done(res)) => match res {
                        ClientResult::UploadCompleted(ix, buf, len, _) => r == (if len
                            <= buf@.len() && O::spec_from_buf(ix, buf@.take(len as int)) is Some {
                            Ok::<Option<CANFrame>, ClientError>(None)
                        } else {
                            Err::<Option<CANFrame>, ClientError>(ClientError::ObjectDecode)
                        }),
                        _ => r == Ok::<Option<CANFrame>, ClientError>(None),
                    },
                    _ => r == Ok::<Option<CANFrame>, ClientError>(None),
                }
            }
    }
}

/// What one inbound per-node command does: SDO responses feed the SDO
/// machine, heartbeats feed the heartbeat machine, everything else is inert.
pub open spec fn node_cmd_step_rel<O: FromBuf, RR, RW>(
    pre: ClientMachine<RR, RW>,
    cmd: NodeCmd,
    node: u8,
    data: Seq<u8>,
    post: ClientMachine<RR, RW>,
    r: Result<Option<CANFrame>, ClientError>,
) -> bool {
    if cmd == NodeCmd::SdoResp {
        sdo_rx_step_rel::<O, RR, RW>(pre, node, data, post, r)
    } else {
        client_machine_eq(pre, post) && r == Ok::<Option<CANFrame>, ClientError>(None)
    }
}

/// What arming an upload does: the machine is first observed for readiness
/// (which hands out a completion responder if one was still held); if it is
/// not emitting a request, it is armed for `index` and the initiate-upload
/// request for the node comes back as a frame. A busy machine drops the
/// command.
pub open spec fn read_cmd_rel<RR, RW>(
    pre: ClientMachine<RR, RW>,
    node: u8,
    index: Index,
    rr: RR,
    post: ClientMachine<RR, RW>,
    r: Option<CANFrame>,
) -> bool {
    exists|mid: ClientMachine<RR, RW>, out: Option<ClientOutput<RR, RW>>|
        {
            &&& #[trigger] client_observe_rel(pre, mid, out)
            &&& if !(out matches Some(ClientOutput::Output(_))) {
                &&& post.index == index
                &&& post.state == crate::sdo::machines::ClientState::InitUpload
                &&& post.read_responder == Some(rr)
                &&& post.write_responder == mid.write_responder
                &&& post.data_index == mid.data_index
                &&& post.data@ == mid.data@
                &&& r matches Some(f)
                &&& f.can_cobid == sdo_req_cobid(node)
                &&& f.can_len == 8
                &&& f.can_data@ == spec_encode_request(ClientRequest::InitUpload(index))
            } else {
                client_machine_eq(mid, post) && r is None
            }
        }
}

/// What arming a download does: the machine is first observed for readiness;
/// if it is not emitting a request, the dictionary object's byte form
/// (`obj_bytes`) is serialized into the buffer, the machine armed, and the
/// matching initiate-download request comes back as a frame. A busy machine
/// drops the command.
pub open spec fn write_cmd_rel<RR, RW>(
    pre: ClientMachine<RR, RW>,
    node: u8,
    index: Index,
    obj_bytes: Seq<u8>,
    rw: RW,
    post: ClientMachine<RR, RW>,
    r: Option<CANFrame>,
) -> bool {
    exists|mid: ClientMachine<RR, RW>, out: Option<ClientOutput<RR, RW>>|
        {
            &&& #[trigger] client_observe_rel(pre, mid, out)
            &&& if !(out matches Some(ClientOutput::Output(_))) {
                let n = obj_bytes.len() as int;
                &&& obj_bytes.len() <= crate::sdo::machines::BUFFER_CAPACITY
                &&& post.index == index
                &&& post.read_responder == mid.read_responder
                &&& post.write_responder == Some(rw)
                &&& post.data_index == 0
                &&& post.data@ == obj_bytes + mid.data@.skip(n)
                &&& post.state == (if n <= 4 {
                    crate::sdo::machines::ClientState::InitSingleDownload(n as usize)
                } else {
                    crate::sdo::machines::ClientState::InitMultipleDownload(n as usize)
                })
                &&& r matches Some(f)
                &&& f.can_cobid == sdo_req_cobid(node)
                &&& f.can_len == 8
                &&& (if n <= 4 {
                    exists|d: [u8; 4]|
                        {
                            &&& f.can_data@ == #[trigger] spec_encode_request(
                                ClientRequest::InitSingleSegmentDownload(index, n as u8, d),
                            )
                            &&& forall|j: int|
                                0 <= j < 4 ==> d@[j] == (if j < n {
                                    obj_bytes[j]
                                } else {
                                    0u8
                                })
                        }
                } else {
                    f.can_data@ == spec_encode_request(
                        ClientRequest::InitMultipleDownload(index, n as u32),
                    )
                })
            } else {
                client_machine_eq(mid, post) && r is None
            }
        }
}

impl<C, D, RR, RW> ClientCtx<C, D, RR, RW> where
    D: Dictionary<Index = Index>,
    D::Object: IntoBuf + FromBuf + Clone,
    RR: Responder<D::Object>,
    RW: Responder<()>,
 {
    /// Builds a client around a dictionary and a physical interface, with
    /// both machines at their starting conditions.
    pub fn new(config: ClientConfig<C, D>) -> (r: Self)
        ensures
            r.interface.sdo.wf(),
            r.interface.sdo.state == crate::sdo::machines::ClientState::Idle,
            r.interface.sdo.read_responder is None,
            r.interface.sdo.write_responder is None,
            r.interface.dictionary == config.dictionary,
            r.physical == config.physical,
    {
        let interface = ClientInterface {
            heartbeat: HeartbeatMachine::default(),
            sdo: ClientMachine::default(),
            dictionary: config.dictionary,
        };

        let ctx = Self { interface, physical: config.physical };

        ctx
    }

    /// Consumes one host command. A `Read` or `Write` arms the machine when
    /// it is observable as ready and returns the initiate request to send;
    /// commands arriving while the machine is busy are dropped.
    pub fn handle_cmd(&mut self, cmd: ClientCmd<D, RR, RW>) -> (r: Option<CANFrame>)
        requires
            old(self).interface.sdo.wf(),
        ensures
            final(self).interface.sdo.wf(),
            final(self).interface.heartbeat == old(self).interface.heartbeat,
            match cmd {
                ClientCmd::Read(node, index, rr) => read_cmd_rel(
                    old(self).interface.sdo,
                    node,
                    index,
                    rr,
                    final(self).interface.sdo,
                    r,
                ),
                ClientCmd::Write(node, index, rw) => exists|obj_bytes: Seq<u8>|
                    #[trigger] write_cmd_rel(
                        old(self).interface.sdo,
                        node,
                        index,
                        obj_bytes,
                        rw,
                        final(self).interface.sdo,
                        r,
                    ),
            },
    {
        match cmd {
            ClientCmd::Read(node, index, resp) => {
                let ghost pre = self.interface.sdo;
                let st = self.interface.sdo.observe();
                let ghost mid = self.interface.sdo;
                let ghost out_g = st;
                let ready = match &st {
                    Some(o) => o.is_ready(),
                    None => false,
                };
                if ready {
                    let ghost rr_g = resp;
                    self.interface.sdo.read(index, resp);
                    let ghost armed = self.interface.sdo;
                    let out2 = self.interface.sdo.observe();
                    if let Some(ClientOutput::Output(out)) = out2 {
                        let f = Self::handle_sdo_request(node, out);
                        proof {
                            assert(client_observe_rel(pre, mid, out_g));
                            assert(client_observe_rel(armed, self.interface.sdo, out2));
                            assert(read_cmd_rel(
                                pre,
                                node,
                                index,
                                rr_g,
                                self.interface.sdo,
                                Some(f),
                            ));
                        }
                        Some(f)
                    } else {
                        unreached()
                    }
                } else {
                    proof {
                        assert(client_observe_rel(pre, mid, out_g));
                        assert(read_cmd_rel(pre, node, index, resp, self.interface.sdo, None::<CANFrame>));
                    }
                    None
                }
            },
            ClientCmd::Write(node, index, resp) => {
                let ghost pre = self.interface.sdo;
                let st = self.interface.sdo.observe();
                let ghost mid = self.interface.sdo;
                let ghost out_g = st;
                let ready = match &st {
                    Some(o) => o.is_ready(),
                    None => false,
                };
                if ready {
                    let ghost rw_g = resp;
                    let obj = self.interface.dictionary.get(&index);
                    proof {
                        obj.buf_fits();
                    }
                    let ghost obj_bytes = obj.spec_buf();
                    self.interface.sdo.write(index, obj, resp);
                    let ghost armed = self.interface.sdo;
                    let out2 = self.interface.sdo.observe();
                    if let Some(ClientOutput::Output(out)) = out2 {
                        let ghost req_g = out;
                        let f = Self::handle_sdo_request(node, out);
                        proof {
                            assert(client_observe_rel(pre, mid, out_g));
                            assert(client_observe_rel(armed, self.interface.sdo, out2));
                            if obj_bytes.len() <= 4 {
                                if let ClientRequest::InitSingleSegmentDownload(_, _, dw) = req_g {
                                    assert(f.can_data@ == spec_encode_request(
                                        ClientRequest::InitSingleSegmentDownload(
                                            index,
                                            obj_bytes.len() as u8,
                                            dw,
                                        ),
                                    ));
                                    assert(forall|j: int|
                                        0 <= j < 4 ==> dw@[j] == (if j < obj_bytes.len() as int {
                                            obj_bytes[j]
                                        } else {
                                            0u8
                                        }));
                                }
                            }
                            assert(write_cmd_rel(
                                pre,
                                node,
                                index,
                                obj_bytes,
                                rw_g,
                                self.interface.sdo,
                                Some(f),
                            ));
                        }
                        Some(f)
                    } else {
                        unreached()
                    }
                } else {
                    proof {
                        assert(client_observe_rel(pre, mid, out_g));
                        assert(write_cmd_rel(
                            pre,
                            node,
                            index,
                            Seq::<u8>::empty(),
                            resp,
                            self.interface.sdo,
                            None::<CANFrame>,
                        ));
                    }
                    None
                }
            },
        }
    }

    /// Broadcast frames are currently inert for the client.
    pub fn handle_broadcast(&mut self, _cmd: BroadcastCmd)
        ensures
            *final(self) == *old(self),
    {
    }

    /// Consumes a finished transfer: a completed upload is decoded, stored
    /// in the dictionary and delivered to the read responder; a completed
    /// download is acknowledged to the write responder. Fails exactly when
    /// the uploaded bytes denote no object.
    pub fn handle_sdo_result(&mut self, r: ClientResult<RR, RW>) -> (res: Result<(), ()>)
        ensures
            client_machine_eq(old(self).interface.sdo, final(self).interface.sdo),
            final(self).interface.heartbeat == old(self).interface.heartbeat,
            match r {
                ClientResult::UploadCompleted(ix, buf, len, _) => res == (if len <= buf@.len()
                    && D::Object::spec_from_buf(ix, buf@.take(len as int)) is Some {
                    Ok::<(), ()>(())
                } else {
                    Err::<(), ()>(())
                }),
                _ => res == Ok::<(), ()>(()),
            },
    {
        match r {
            ClientResult::UploadCompleted(ix, data, len, maybe_r) => {
                if len <= data.len() {
                    let prefix = copy_prefix(&data, len);
                    match D::Object::from_buf(ix, prefix.as_slice()) {
                        Some(x) => {
                            self.interface.dictionary.set(x.clone());
                            if let Some(rr) = maybe_r {
                                let _ = rr.respond(x);
                            }
                            Ok(())
                        },
                        None => Err(()),
                    }
                } else {
                    Err(())
                }
            },
            ClientResult::DownloadCompleted(maybe_r) => {
                if let Some(rw) = maybe_r {
                    let _ = rw.respond(());
                }
                Ok(())
            },
            ClientResult::TransferAborted(_) => Ok(()),
        }
    }

    /// Encodes an outgoing SDO request as the CAN frame to send to `node`.
    pub fn handle_sdo_request(node: u8, out: ClientRequest) -> (r: CANFrame)
        requires
            out matches ClientRequest::InitSingleSegmentDownload(_, len, _) ==> len <= 4,
            out matches ClientRequest::DownloadSegment(_, _, n, _) ==> n <= 7,
        ensures
            r.can_cobid == sdo_req_cobid(node),
            r.can_len == 8,
            r.can_data@ == spec_encode_request(out),
    {
        let data_out: [u8; 8] = out.encode();
        let fun_code = FunCode::Node(NodeCmd::SdoReq, node % 0x80);
        let cobid = match fun_code.encode() {
            Some(c) => c,
            None => 0,
        };
        CANFrame { can_cobid: cobid, can_len: 8, can_data: data_out }
    }

    /// Consumes one inbound SDO response payload: decodes it, moves the
    /// machine, hands a finished transfer to `handle_sdo_result`, and
    /// returns the next request to send, if the machine emitted one.
    pub fn handle_sdo_rx(&mut self, node: u8, data: [u8; 8]) -> (r: Result<
        Option<CANFrame>,
        ClientError,
    >)
        requires
            old(self).interface.sdo.wf(),
        ensures
            final(self).interface.sdo.wf(),
            final(self).interface.heartbeat == old(self).interface.heartbeat,
            sdo_rx_step_rel::<D::Object, RR, RW>(
                old(self).interface.sdo,
                node,
                data@,
                final(self).interface.sdo,
                r,
            ),
    {
        let ghost pre = self.interface.sdo;
        match ServerResponse::decode(data) {
            Err(e) => {
                proof {
                    assert(response_decodes_to(data@, Err::<ServerResponse, SdoError>(e)));
                }
                Err(ClientError::Sdo(e))
            },
            Ok(response) => {
                proof {
                    assert(response_decodes_to(data@, Ok::<ServerResponse, SdoError>(response)));
                    if exists|e: SdoError|
                        response_decodes_to(data@, Err::<ServerResponse, SdoError>(e)) {
                        let e = choose|e: SdoError|
                            response_decodes_to(data@, Err::<ServerResponse, SdoError>(e));
                        crate::sdo::lemma_response_decode_functional(
                            data@,
                            Ok::<ServerResponse, SdoError>(response),
                            Err::<ServerResponse, SdoError>(e),
                        );
                    }
                }
                self.interface.sdo.transit(response);
                let ghost mid = self.interface.sdo;
                let observed = self.interface.sdo.observe();
                let ghost out_g = observed;
                let ghost obs_post = self.interface.sdo;
                match observed {
                    None => {
                        proof {
                            assert(client_observe_rel(mid, self.interface.sdo, out_g));
                        }
                        Ok(None)
                    },
                    Some(o) => match o {
                        ClientOutput::Output(out) => {
                            let f = Self::handle_sdo_request(node, out);
                            proof {
                                assert(client_transit_rel(pre, response, mid));
                                assert(client_observe_rel(mid, self.interface.sdo, out_g));
                            }
                            Ok(Some(f))
                        },
                        ClientOutput::Done(res) => {
                            let r = match self.handle_sdo_result(res) {
                                Ok(_) => Ok(None),
                                Err(_) => Err(ClientError::ObjectDecode),
                            };
                            proof {
                                assert(client_transit_rel(pre, response, mid));
                                assert(client_observe_rel(mid, self.interface.sdo, out_g));
                            }
                            r
                        },
                        ClientOutput::Error(_err) => {
                            proof {
                                assert(client_transit_rel(pre, response, mid));
                                assert(client_observe_rel(mid, self.interface.sdo, out_g));
                            }
                            Ok(None)
                        },
                        ClientOutput::Ready => {
                            proof {
                                assert(client_transit_rel(pre, response, mid));
                                assert(client_observe_rel(mid, self.interface.sdo, out_g));
                            }
                            Ok(None)
                        },
                    },
                }
            },
        }
    }

    /// Routes one inbound per-node command: SDO responses to the SDO
    /// machine, heartbeats to the heartbeat machine; the rest is inert.
    pub fn handle_node_cmd(&mut self, cmd: NodeCmd, node: u8, data: [u8; 8]) -> (r: Result<
        Option<CANFrame>,
        ClientError,
    >)
        requires
            old(self).interface.sdo.wf(),
        ensures
            final(self).interface.sdo.wf(),
            final(self).interface.heartbeat == old(self).interface.heartbeat,
            node_cmd_step_rel::<D::Object, RR, RW>(
                old(self).interface.sdo,
                cmd,
                node,
                data@,
                final(self).interface.sdo,
                r,
            ),
    {
        match cmd {
            NodeCmd::SdoResp => self.handle_sdo_rx(node, data),
            NodeCmd::Heartbeat => {
                self.interface.heartbeat.transit(data);
                Ok(None)
            },
            _ => Ok(None),
        }
    }

    /// Routes one inbound frame by its COB-ID: broadcasts are inert, node
    /// commands go to `handle_node_cmd`.
    pub fn handle_rx(&mut self, frame: CANFrame) -> (r: Result<Option<CANFrame>, ClientError>)
        requires
            old(self).interface.sdo.wf(),
        ensures
            final(self).interface.sdo.wf(),
            final(self).interface.heartbeat == old(self).interface.heartbeat,
            match spec_decode_fun_code(frame.can_cobid) {
                FunCode::Broadcast(_) => client_machine_eq(
                    old(self).interface.sdo,
                    final(self).interface.sdo,
                ) && r == Ok::<Option<CANFrame>, ClientError>(None),
                FunCode::Node(cmd, node) => node_cmd_step_rel::<D::Object, RR, RW>(
                    old(self).interface.sdo,
                    cmd,
                    node,
                    frame.can_data@,
                    final(self).interface.sdo,
                    r,
                ),
            },
    {
        let fun_code: FunCode = FunCode::decode(frame.can_cobid);

        match fun_code {
            FunCode::Broadcast(cmd) => {
                self.handle_broadcast(cmd);
                Ok(None)
            },
            FunCode::Node(cmd, node) => self.handle_node_cmd(cmd, node, frame.can_data),
        }
    }
}

/// The first `len` bytes of the transfer buffer, copied out for object
/// decoding.
fn copy_prefix(data: &Vec<u8>, len: usize) -> (r: Vec<u8>)
    requires
        len <= data@.len(),
    ensures
        r@ == data@.take(len as int),
{
    let mut r: Vec<u8> = Vec::new();
    let mut i: usize = 0;
    while i < len
        invariant
            i <= len,
            len <= data@.len(),
            r@.len() == i,
            forall|j: int| 0 <= j < i ==> r@[j] == data@[j],
        decreases len - i,
    {
        r.push(data[i]);
        i = i + 1;
    }
    proof {
        assert(r@ =~= data@.take(len as int));
    }
    r
}

} // verus!
