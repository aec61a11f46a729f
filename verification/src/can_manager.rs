//! The dispatcher: the single owner of the physical transport multiplexes
//! many logical callers onto one bus. It keeps one pending entry per
//! in-flight request, keyed by `(axis, command)`, matches every incoming
//! frame against that table, and resolves entries whose deadline has passed.
//!
//! The manager itself is a pure state machine: the surrounding loop performs
//! the actual transmissions and receptions and feeds the outcomes in. The
//! [`CANThreadCommunicator`] trait is the caller-side face of such a loop,
//! and [`LoopbackCANThread`] is an in-memory implementation that answers
//! every transmitted frame by echoing it back, delivering the echoes in
//! reverse transmission order.

use vstd::prelude::*;

use crate::canframe::{
    decode_id, encode_id, spec_decode_id, spec_encode_id, AxisID, CANRequest, ODriveCANFrame,
    AXIS_ID_BOUND,
};
use crate::canframe::lemma_arbitration_id_round_trip;
use crate::response::{ErrorResponse, ODriveError, ODriveResponse, ResponseType};
use crate::state::ODriveCommand;

verus! {

/// One in-flight request: the original frame (kept for echo and
/// traceability), the reply destination that is waiting for it, and the
/// instant after which it counts as unanswered.
#[derive(Clone, Copy, Debug)]
pub struct ODriveMessage {
    pub request: CANRequest,
    pub caller: usize,
    pub deadline: u64,
}

impl ODriveMessage {
    /// The arbitration id this message travels under.
    pub open spec fn spec_can_id(self) -> u32 {
        spec_encode_id(self.request.axis, self.request.cmd)
    }

    pub fn can_id(&self) -> (id: u32)
        requires
            self.request.axis < AXIS_ID_BOUND,
        ensures
            id == self.spec_can_id(),
    {
        encode_id(self.request.axis, self.request.cmd)
    }

    /// Whether this entry is the one that answers frames carrying
    /// `(axis, cmd)`: the matching correlation key.
    pub open spec fn has_key(self, axis: AxisID, cmd: ODriveCommand) -> bool {
        self.request.axis == axis && self.request.cmd == cmd
    }

    /// Whether this entry counts as unanswered at instant `now`.
    pub open spec fn spec_expired(self, now: u64) -> bool {
        self.deadline < now
    }
}

/// A resolved outcome ready to be delivered: to which caller, and with what
/// result.
#[derive(Clone, Copy, Debug)]
pub struct Resolution {
    pub caller: usize,
    pub response: ODriveResponse,
}

/// What any dispatcher outcome for `req` must look like: a resolution with a
/// body answers `req` itself with a frame of the same key and only for a
/// read; a bare acknowledgement answers only a write; an error names `req`
/// and is either the synchronous transmit failure or the timeout.
pub open spec fn response_matches(req: CANRequest, r: ODriveResponse) -> bool {
    match r {
        Ok(rt) => match rt {
            ResponseType::Body { request, response } => request == req && req.cmd is Read
                && response.axis == req.axis && response.cmd == req.cmd,
            ResponseType::Bodyless { req: answered } => answered == req && req.cmd is Write,
        },
        Err(e) => e.request == req && (e.err == ODriveError::FailedToSend || e.err
            == ODriveError::NoResponse),
    }
}

/// The successful outcome the dispatcher builds when `frame` matches
/// `entry`: a read keeps the response body, a write resolves to a bare
/// acknowledgement.
pub open spec fn spec_resolution(entry: ODriveMessage, frame: ODriveCANFrame) -> Resolution {
    Resolution {
        caller: entry.caller,
        response: if entry.request.cmd is Read {
            Ok(ResponseType::Body { request: entry.request, response: frame })
        } else {
            Ok(ResponseType::Bodyless { req: entry.request })
        },
    }
}

/// A matched frame always yields an outcome of the shape promised by
/// [`response_matches`].
pub proof fn lemma_resolution_matches(entry: ODriveMessage, frame: ODriveCANFrame)
    requires
        frame.axis == entry.request.axis,
        frame.cmd == entry.request.cmd,
    ensures
        response_matches(entry.request, spec_resolution(entry, frame).response),
{
}

/// No two entries of `s` share a correlation key.
pub open spec fn seq_keys_unique(s: Seq<ODriveMessage>) -> bool {
    forall|i: int, j: int|
        0 <= i < j < s.len() ==> !(#[trigger] s[i].has_key(
            s[j].request.axis,
            s[j].request.cmd,
        ))
}

/// The pending-entry table of the dispatcher. Exclusively owned and mutated
/// by the worker that drives the transport; the invariant that at most one
/// entry exists per `(axis, command)` key is what makes frame matching
/// unambiguous.
pub struct CANManager {
    waiting: Vec<ODriveMessage>,
}

impl CANManager {
    /// The in-flight entries, in registration order.
    pub closed spec fn pending(self) -> Seq<ODriveMessage> {
        self.waiting@
    }

    /// Well-formed: at most one pending entry per `(axis, command)` key.
    pub open spec fn wf(self) -> bool {
        seq_keys_unique(self.pending())
    }

    /// Whether some entry is in flight under the key `(axis, cmd)`.
    pub open spec fn spec_has_key(self, axis: AxisID, cmd: ODriveCommand) -> bool {
        exists|i: int|
            0 <= i < self.pending().len() && (#[trigger] self.pending()[i]).has_key(axis, cmd)
    }

    /// Exactly-one-in-flight: two pending entries that share a correlation
    /// key are the same entry.
    pub proof fn lemma_exactly_one_in_flight(self, i: int, j: int)
        requires
            self.wf(),
            0 <= i < self.pending().len(),
            0 <= j < self.pending().len(),
            self.pending()[i].request.axis == self.pending()[j].request.axis,
            self.pending()[i].request.cmd == self.pending()[j].request.cmd,
        ensures
            i == j,
    {
        if i < j {
            assert(!self.pending()[i].has_key(
                self.pending()[j].request.axis,
                self.pending()[j].request.cmd,
            ));
        } else if j < i {
            assert(!self.pending()[j].has_key(
                self.pending()[i].request.axis,
                self.pending()[i].request.cmd,
            ));
        }
    }

    /// A dispatcher with no request in flight.
    pub fn new() -> (m: CANManager)
        ensures
            m.wf(),
            m.pending() == Seq::<ODriveMessage>::empty(),
    {
        let m = CANManager { waiting: Vec::new() };
        assert(m.pending() =~= Seq::<ODriveMessage>::empty());
        m
    }

    /// How many requests are in flight.
    pub fn pending_len(&self) -> (n: usize)
        ensures
            n == self.pending().len(),
    {
        self.waiting.len()
    }

    /// Whether a request with this key is already in flight.
    pub fn has_pending(&self, axis: AxisID, cmd: ODriveCommand) -> (b: bool)
        ensures
            b == self.spec_has_key(axis, cmd),
    {
        match self.find_key(axis, cmd) {
            Some(_) => true,
            None => false,
        }
    }

    /// The index of the entry in flight under `(axis, cmd)`, if any.
    fn find_key(&self, axis: AxisID, cmd: ODriveCommand) -> (r: Option<usize>)
        ensures
            match r {
                Some(i) => 0 <= i < self.pending().len() && self.pending()[i as int].has_key(
                    axis,
                    cmd,
                ),
                None => !self.spec_has_key(axis, cmd),
            },
    {
        let mut i: usize = 0;
        while i < self.waiting.len()
            invariant
                i <= self.waiting@.len(),
                forall|k: int|
                    0 <= k < i ==> !(#[trigger] self.waiting@[k]).has_key(axis, cmd),
            decreases self.waiting@.len() - i,
        {
            let entry = &self.waiting[i];
            if entry.request.axis == axis && entry.request.cmd == cmd {
                return Some(i);
            }
            i = i + 1;
        }
        None
    }

    /// Registers a freshly transmitted request. The caller must have checked
    /// that the key is free: accepting a second request under a pending key
    /// is exactly what the dispatcher's policy rejects.
    pub fn register(&mut self, request: CANRequest, caller: usize, deadline: u64)
        requires
            old(self).wf(),
            !old(self).spec_has_key(request.axis, request.cmd),
        ensures
            final(self).wf(),
            final(self).pending() == old(self).pending().push(
                ODriveMessage { request, caller, deadline },
            ),
    {
        let ghost orig = self.pending();
        self.waiting.push(ODriveMessage { request, caller, deadline });
        proof {
            let newp = self.pending();
            assert forall|i: int, j: int|
                0 <= i < j < newp.len() implies !(#[trigger] newp[i].has_key(
                newp[j].request.axis,
                newp[j].request.cmd,
            )) by {
                if j < orig.len() {
                    assert(!orig[i].has_key(orig[j].request.axis, orig[j].request.cmd));
                } else {
                    assert(newp[j].request == request);
                    assert(!orig[i].has_key(request.axis, request.cmd));
                }
            }
        }
    }

    /// Feeds one incoming frame to the matcher. A frame whose arbitration id
    /// names no known command, or whose key matches no pending entry, is
    /// discarded without any effect. A matching frame removes its entry and
    /// yields the resolution for the caller that was waiting on it.
    pub fn on_frame(&mut self, id: u32, data: [u8; 8]) -> (r: Option<Resolution>)
        requires
            old(self).wf(),
        ensures
            final(self).wf(),
            match spec_decode_id(id) {
                None => r is None && final(self).pending() == old(self).pending(),
                Some(key) => {
                    if old(self).spec_has_key(key.0, key.1) {
                        match r {
                            Some(res) => exists|i: int|
                                0 <= i < old(self).pending().len() && (#[trigger] old(
                                    self,
                                ).pending()[i]).has_key(key.0, key.1) && final(self).pending()
                                    == old(self).pending().remove(i) && res == spec_resolution(
                                    old(self).pending()[i],
                                    ODriveCANFrame { axis: key.0, cmd: key.1, data },
                                ),
                            None => false,
                        }
                    } else {
                        r is None && final(self).pending() == old(self).pending()
                    }
                },
            },
    {
        let ghost orig = self.pending();
        let (axis, cmd) = match decode_id(id) {
            Some(pair) => pair,
            None => {
                return None;
            },
        };
        let idx = match self.find_key(axis, cmd) {
            Some(i) => i,
            None => {
                return None;
            },
        };
        let entry = self.waiting[idx];
        let _removed = self.waiting.remove(idx);
        let frame = ODriveCANFrame { axis, cmd, data };
        proof {
            let newp = self.pending();
            assert(newp == orig.remove(idx as int));
            assert forall|a: int, b: int|
                0 <= a < b < newp.len() implies !(#[trigger] newp[a].has_key(
                newp[b].request.axis,
                newp[b].request.cmd,
            )) by {
                let a0 = if a < idx { a } else { a + 1 };
                let b0 = if b < idx { b } else { b + 1 };
                assert(newp[a] == orig[a0]);
                assert(newp[b] == orig[b0]);
                assert(!orig[a0].has_key(orig[b0].request.axis, orig[b0].request.cmd));
            }
        }
        let response = match entry.request.cmd {
            ODriveCommand::Read(_) => Ok(
                ResponseType::Body { request: entry.request, response: frame },
            ),
            ODriveCommand::Write(_) => Ok(ResponseType::Bodyless { req: entry.request }),
        };
        Some(Resolution { caller: entry.caller, response })
    }

    /// Resolves every entry whose deadline has passed with `NoResponse` and
    /// removes it from the table; entries still within their deadline stay,
    /// in order.
    pub fn sweep_expired(&mut self, now: u64) -> (out: Vec<Resolution>)
        requires
            old(self).wf(),
        ensures
            final(self).wf(),
            final(self).pending() == old(self).pending().filter(
                |m: ODriveMessage| !m.spec_expired(now),
            ),
            out@ == old(self).pending().filter(|m: ODriveMessage| m.spec_expired(now)).map_values(
                |m: ODriveMessage|
                    Resolution {
                        caller: m.caller,
                        response: Err(
                            ErrorResponse { request: m.request, err: ODriveError::NoResponse },
                        ),
                    },
            ),
    {
        let ghost orig = self.pending();
        let ghost keep = |m: ODriveMessage| !m.spec_expired(now);
        let ghost expired = |m: ODriveMessage| m.spec_expired(now);
        let ghost resolve = |m: ODriveMessage|
            Resolution {
                caller: m.caller,
                response: Err(ErrorResponse { request: m.request, err: ODriveError::NoResponse }),
            };
        let mut kept: Vec<ODriveMessage> = Vec::new();
        let mut out: Vec<Resolution> = Vec::new();
        let mut i: usize = 0;
        proof {
            assert(orig.take(0) =~= Seq::<ODriveMessage>::empty());
            assert(kept@ =~= orig.take(0).filter(keep));
            assert(out@ =~= orig.take(0).filter(expired).map_values(resolve));
        }
        while i < self.waiting.len()
            invariant
                i <= orig.len(),
                self.pending() == orig,
                orig == self.waiting@,
                kept@ == orig.take(i as int).filter(keep),
                out@ == orig.take(i as int).filter(expired).map_values(resolve),
                keep == (|m: ODriveMessage| !m.spec_expired(now)),
                expired == (|m: ODriveMessage| m.spec_expired(now)),
                resolve == (|m: ODriveMessage|
                    Resolution {
                        caller: m.caller,
                        response: Err(
                            ErrorResponse { request: m.request, err: ODriveError::NoResponse },
                        ),
                    }),
            decreases orig.len() - i,
        {
            let m = self.waiting[i];
            proof {
                reveal(Seq::filter);
                assert(orig.take(i + 1).drop_last() =~= orig.take(i as int));
                assert(orig.take(i + 1).last() == m);
            }
            if m.deadline < now {
                out.push(Resolution {
                    caller: m.caller,
                    response: Err(
                        ErrorResponse { request: m.request, err: ODriveError::NoResponse },
                    ),
                });
                proof {
                    reveal(Seq::filter);
                    assert(orig.take(i + 1).filter(expired) =~= orig.take(i as int).filter(
                        expired,
                    ).push(m));
                    assert(orig.take(i + 1).filter(keep) =~= orig.take(i as int).filter(keep));
                    assert(out@ =~= orig.take(i + 1).filter(expired).map_values(resolve));
                }
            } else {
                kept.push(m);
                proof {
                    reveal(Seq::filter);
                    assert(orig.take(i + 1).filter(keep) =~= orig.take(i as int).filter(keep).push(
                        m,
                    ));
                    assert(orig.take(i + 1).filter(expired) =~= orig.take(i as int).filter(
                        expired,
                    ));
                    assert(out@ =~= orig.take(i + 1).filter(expired).map_values(resolve));
                }
            }
            i = i + 1;
        }
        proof {
            assert(orig.take(orig.len() as int) =~= orig);
        }
        self.waiting = kept;
        proof {
            let newp = self.pending();
            orig.lemma_filter_len(keep);
            assert forall|a: int, b: int|
                0 <= a < b < newp.len() implies !(#[trigger] newp[a].has_key(
                newp[b].request.axis,
                newp[b].request.cmd,
            )) by {
                lemma_filter_is_subsequence(orig, keep, a, b);
            }
        }
        out
    }
}

/// Two distinct positions of a filtered sequence come from two distinct
/// positions of the original, in order; so any pairwise property of the
/// original holds of the filtered sequence. Stated here for the key
/// uniqueness of pending entries.
proof fn lemma_filter_is_subsequence(
    s: Seq<ODriveMessage>,
    pred: spec_fn(ODriveMessage) -> bool,
    a: int,
    b: int,
)
    requires
        seq_keys_unique(s),
        0 <= a < b < s.filter(pred).len(),
    ensures
        !s.filter(pred)[a].has_key(
            s.filter(pred)[b].request.axis,
            s.filter(pred)[b].request.cmd,
        ),
    decreases s.len(),
{
    reveal(Seq::filter);
    if s.len() == 0 {
    } else {
        let last = s.last();
        let prefix = s.drop_last();
        assert(seq_keys_unique(prefix)) by {
            assert forall|i: int, j: int|
                0 <= i < j < prefix.len() implies !(#[trigger] prefix[i].has_key(
                prefix[j].request.axis,
                prefix[j].request.cmd,
            )) by {
                assert(prefix[i] == s[i]);
                assert(prefix[j] == s[j]);
            }
        }
        if pred(last) {
            let f = s.filter(pred);
            let fp = prefix.filter(pred);
            assert(f == fp.push(last));
            if b < f.len() - 1 {
                lemma_filter_is_subsequence(prefix, pred, a, b);
                assert(f[a] == fp[a]);
                assert(f[b] == fp[b]);
            } else {
                // b names the pushed last element; a names an element of the
                // filtered prefix, which appears somewhere in the prefix.
                prefix.lemma_filter_pred(pred, a);
                assert(f[a] == fp[a]);
                assert(f[b] == last);
                lemma_filter_member_index(prefix, pred, a);
                let i0 = choose|i0: int|
                    0 <= i0 < prefix.len() && prefix[i0] == fp[a];
                assert(s[i0] == prefix[i0]);
                assert(!s[i0].has_key(s[s.len() - 1].request.axis, s[s.len() - 1].request.cmd));
            }
        } else {
            assert(s.filter(pred) == prefix.filter(pred));
            lemma_filter_is_subsequence(prefix, pred, a, b);
        }
    }
}

/// The immediate rejection of a request that was never transmitted, or that
/// was refused because its `(axis, command)` key was already in flight.
pub open spec fn spec_failed_to_send(req: CANRequest) -> ODriveResponse {
    Err(ErrorResponse { request: req, err: ODriveError::FailedToSend })
}

/// No two requests of the batch share a correlation key.
pub open spec fn keys_distinct(reqs: Seq<CANRequest>) -> bool {
    forall|i: int, j: int|
        0 <= i < j < reqs.len() ==> !((#[trigger] reqs[i]).axis == (#[trigger] reqs[j]).axis
            && reqs[i].cmd == reqs[j].cmd)
}

/// Every axis of the batch fits the arbitration-id layout.
pub open spec fn axes_encodable(reqs: Seq<CANRequest>) -> bool {
    forall|i: int| 0 <= i < reqs.len() ==> (#[trigger] reqs[i]).axis < AXIS_ID_BOUND
}

/// The caller-side face of a dispatcher loop: submit one request, or a whole
/// ordered batch, and block until each has an outcome. Every outcome answers
/// its own request, and a batch comes back in submission order regardless of
/// the order in which frames arrived on the bus.
pub trait CANThreadCommunicator {
    fn request(&mut self, req: CANRequest) -> (r: ODriveResponse)
        ensures
            response_matches(req, r),
    ;

    fn request_many(&mut self, requests: Vec<CANRequest>) -> (responses: Vec<ODriveResponse>)
        ensures
            responses@.len() == requests@.len(),
            forall|i: int|
                0 <= i < requests@.len() ==> response_matches(
                    requests@[i],
                    #[trigger] responses@[i],
                ),
    ;
}

/// An in-memory transport for exercising the dispatcher without a bus:
/// every frame accepted for transmission is echoed straight back, and the
/// echoes are delivered in reverse transmission order, so nothing but the
/// dispatcher's key matching puts the results back into submission order.
///
/// The duplicate policy is the dispatcher's: a request whose key is already
/// in flight within the batch is rejected immediately with `FailedToSend`
/// rather than silently merged with the earlier one.
pub struct LoopbackCANThread {}

impl LoopbackCANThread {
    pub fn new() -> (t: LoopbackCANThread) {
        LoopbackCANThread {  }
    }
}

impl CANThreadCommunicator for LoopbackCANThread {
    fn request(&mut self, req: CANRequest) -> (r: ODriveResponse) {
        let mut batch: Vec<CANRequest> = Vec::new();
        batch.push(req);
        let mut responses = self.request_many(batch);
        responses.remove(0)
    }


    /// Besides the trait contract, the loopback promises success outright
    /// where nothing can go wrong: a batch of pairwise distinct keys on
    /// encodable axes comes back all successful.
    #[verifier::rlimit(100)]
    fn request_many(&mut self, requests: Vec<CANRequest>) -> (responses: Vec<ODriveResponse>)
        ensures
            keys_distinct(requests@) && axes_encodable(requests@) ==> forall|i: int|
                0 <= i < responses@.len() ==> (#[trigger] responses@[i]) is Ok,
    {
        let n = requests.len();
        let mut manager = CANManager::new();
        // Every slot starts as the immediate rejection; transmission and
        // matching overwrite the slots of the requests that do go out.
        let mut slots: Vec<ODriveResponse> = Vec::new();
        let mut t: usize = 0;
        while t < n
            invariant
                t <= n,
                n == requests@.len(),
                slots@.len() == t,
                forall|c: int|
                    0 <= c < t ==> #[trigger] slots@[c] == spec_failed_to_send(requests@[c]),
            decreases n - t,
        {
            slots.push(Err(
                ErrorResponse { request: requests[t], err: ODriveError::FailedToSend },
            ));
            t = t + 1;
        }
        // Transmission phase: every request of the batch goes out before any
        // frame is matched. A request whose key is already pending, or whose
        // axis does not fit the arbitration id, keeps its rejection and is
        // not registered: at most one request per key is ever in flight.
        let mut echoes: Vec<CANRequest> = Vec::new();
        let mut i: usize = 0;
        while i < n
            invariant
                i <= n,
                n == requests@.len(),
                slots@.len() == n,
                manager.wf(),
                forall|c: int|
                    0 <= c < n ==> #[trigger] slots@[c] == spec_failed_to_send(requests@[c]),
                forall|j: int|
                    0 <= j < manager.pending().len() ==> {
                        let entry = #[trigger] manager.pending()[j];
                        0 <= entry.caller < i && entry.request.axis < AXIS_ID_BOUND
                            && entry.request == requests@[entry.caller as int]
                    },
                forall|j: int, l: int|
                    0 <= j < l < manager.pending().len() ==> (#[trigger] manager.pending()[j]).caller
                        < (#[trigger] manager.pending()[l]).caller,
                echoes@.len() == manager.pending().len(),
                forall|j: int|
                    0 <= j < echoes@.len() ==> (#[trigger] echoes@[j])
                        == manager.pending()[j].request,
                keys_distinct(requests@) && axes_encodable(requests@) ==> (
                manager.pending().len() == i && forall|j: int|
                    0 <= j < i ==> (#[trigger] manager.pending()[j]).caller == j),
            decreases n - i,
        {
            let req = requests[i];
            if req.axis >= AXIS_ID_BOUND || manager.has_pending(req.axis, req.cmd) {
                // The rejection pre-filled in the slot stands.
                proof {
                    if keys_distinct(requests@) && axes_encodable(requests@) {
                        assert(requests@[i as int].axis < AXIS_ID_BOUND);
                        let j = choose|j: int|
                            0 <= j < manager.pending().len() && (#[trigger] manager.pending()[j]).has_key(
                                req.axis,
                                req.cmd,
                            );
                        let entry = manager.pending()[j];
                        assert(entry.request == requests@[entry.caller as int]);
                        assert(false);
                    }
                }
            } else {
                manager.register(req, i, 0);
                echoes.push(req);
            }
            i = i + 1;
        }
        // Matching phase: the bus answers. The echoes come back in reverse
        // transmission order; matching by key still routes each one to the
        // caller that sent it.
        let ghost regs = manager.pending();
        let m = echoes.len();
        let mut k: usize = 0;
        while k < m
            invariant
                k <= m,
                m == echoes@.len(),
                m == regs.len(),
                n == requests@.len(),
                slots@.len() == n,
                manager.wf(),
                manager.pending() == regs.take((m - k) as int),
                forall|j: int|
                    0 <= j < m ==> {
                        let entry = #[trigger] regs[j];
                        0 <= entry.caller < n && entry.request.axis < AXIS_ID_BOUND
                            && entry.request == requests@[entry.caller as int] && echoes@[j]
                            == entry.request
                    },
                forall|j: int, l: int|
                    0 <= j < l < m ==> (#[trigger] regs[j]).caller < (#[trigger] regs[l]).caller,
                forall|j: int|
                    m - k <= j < m ==> slots@[(#[trigger] regs[j]).caller as int]
                        == spec_resolution(
                        regs[j],
                        ODriveCANFrame {
                            axis: regs[j].request.axis,
                            cmd: regs[j].request.cmd,
                            data: regs[j].request.data,
                        },
                    ).response,
                forall|c: int|
                    0 <= c < n ==> (#[trigger] slots@[c] == spec_failed_to_send(requests@[c])
                        || exists|j: int|
                        m - k <= j < m && (#[trigger] regs[j]).caller == c),
                keys_distinct(requests@) && axes_encodable(requests@) ==> (m == n && forall|
                    j: int,
                |
                    0 <= j < m ==> (#[trigger] regs[j]).caller == j),
            decreases m - k,
        {
            let idx = m - 1 - k;
            let echo = echoes[idx];
            let ghost pend = manager.pending();
            proof {
                assert(regs[idx as int].request == echo);
                assert(pend[(m - k - 1) as int] == regs[idx as int]);
                lemma_arbitration_id_round_trip(echo.axis, echo.cmd);
                assert(manager.spec_has_key(echo.axis, echo.cmd));
            }
            let id = encode_id(echo.axis, echo.cmd);
            let delivered = manager.on_frame(id, echo.data);
            let res = match delivered {
                Some(res) => res,
                None => vstd::pervasive::unreached(),
            };
            proof {
                let key = spec_decode_id(id)->Some_0;
                assert(key == (echo.axis, echo.cmd));
                let i0 = choose|i0: int|
                    0 <= i0 < pend.len() && (#[trigger] pend[i0]).has_key(key.0, key.1)
                        && manager.pending() == pend.remove(i0) && res == spec_resolution(
                        pend[i0],
                        ODriveCANFrame { axis: key.0, cmd: key.1, data: echo.data },
                    );
                if i0 < pend.len() - 1 {
                    assert(!pend[i0].has_key(
                        pend[pend.len() - 1].request.axis,
                        pend[pend.len() - 1].request.cmd,
                    ));
                    assert(false);
                }
                assert(i0 == m - k - 1);
                assert(pend[i0] == regs[idx as int]);
                assert(manager.pending() =~= regs.take((m - k - 1) as int));
                assert(res == spec_resolution(
                    regs[idx as int],
                    ODriveCANFrame { axis: echo.axis, cmd: echo.cmd, data: echo.data },
                ));
                assert(res.caller == regs[idx as int].caller);
                assert(0 <= res.caller < n);
            }
            slots.set(res.caller, res.response);
            proof {
                assert forall|c: int|
                    0 <= c < n implies (#[trigger] slots@[c] == spec_failed_to_send(requests@[c])
                    || exists|j: int|
                    m - k - 1 <= j < m && (#[trigger] regs[j]).caller == c) by {
                    if c == res.caller as int {
                        assert(m - k - 1 <= idx < m && regs[idx as int].caller == c);
                    }
                }
            }
            k = k + 1;
        }
        // The slots already sit in submission order: request `c` was
        // answered either by its pre-filled rejection or by its echo.
        proof {
            assert forall|c: int|
                0 <= c < n implies response_matches(requests@[c], #[trigger] slots@[c]) by {
                if slots@[c] == spec_failed_to_send(requests@[c]) {
                } else {
                    let j = choose|j: int| 0 <= j < m && (#[trigger] regs[j]).caller == c;
                    lemma_resolution_matches(
                        regs[j],
                        ODriveCANFrame {
                            axis: regs[j].request.axis,
                            cmd: regs[j].request.cmd,
                            data: regs[j].request.data,
                        },
                    );
                }
            }
            if keys_distinct(requests@) && axes_encodable(requests@) {
                assert forall|c: int| 0 <= c < n implies (#[trigger] slots@[c]) is Ok by {
                    assert(regs[c].caller == c);
                    assert(slots@[c] == spec_resolution(
                        regs[c],
                        ODriveCANFrame {
                            axis: regs[c].request.axis,
                            cmd: regs[c].request.cmd,
                            data: regs[c].request.data,
                        },
                    ).response);
                }
            }
        }
        slots
    }
}

/// Every element of a filtered sequence occurs in the original sequence.
proof fn lemma_filter_member_index(
    s: Seq<ODriveMessage>,
    pred: spec_fn(ODriveMessage) -> bool,
    a: int,
)
    requires
        0 <= a < s.filter(pred).len(),
    ensures
        exists|i0: int| 0 <= i0 < s.len() && s[i0] == s.filter(pred)[a],
    decreases s.len(),
{
    reveal(Seq::filter);
    if s.len() == 0 {
    } else {
        let prefix = s.drop_last();
        if pred(s.last()) && a == s.filter(pred).len() - 1 {
            assert(s[s.len() - 1] == s.filter(pred)[a]);
        } else {
            lemma_filter_member_index(prefix, pred, a);
            let i0 = choose|i0: int| 0 <= i0 < prefix.len() && prefix[i0] == prefix.filter(pred)[a];
            assert(s[i0] == s.filter(pred)[a]);
        }
    }
}

} // verus!
