//! The axis group: addresses a named set of axes through one communicator,
//! offers single-axis and all-axes request/response cycles, and reassembles
//! batch results in the canonical (ascending axis id) order fixed at
//! construction.

use vstd::prelude::*;

use crate::axis::{spec_axis, Axis};
use crate::can_manager::{response_matches, CANThreadCommunicator};
use crate::canframe::{ticket, AxisID, CANRequest};
use crate::casts::TryFromFrame;
use crate::response::{ErrorResponse, ODriveError, ODriveResponse, ResponseType, Success};
use crate::state::{ODriveCommand, WriteComm};

verus! {

/// The dispatcher-level outcome of one request, unwrapped into the typed
/// result a caller sees: a transport or timeout failure keeps its error, a
/// resolved transaction is decoded as `T`, and a decode failure is wrapped
/// as `ConvertedBadData`. The request inside every error, and
/// `sent_request` of every success, is the request that was answered.
pub open spec fn spec_convert<T: TryFromFrame>(raw: ODriveResponse) -> Result<
    Success<T>,
    ErrorResponse,
> {
    match raw {
        Err(e) => Err(e),
        Ok(resolved) => {
            let frame = match resolved {
                ResponseType::Body { request, response } => response,
                ResponseType::Bodyless { req } => req,
            };
            match T::spec_try_from(frame) {
                Some(data) => Ok(
                    Success { axis: frame.axis, sent_request: resolved.spec_request(), data },
                ),
                None => Err(
                    ErrorResponse {
                        request: resolved.spec_request(),
                        err: ODriveError::ConvertedBadData,
                    },
                ),
            }
        },
    }
}

/// What the group promises for the result delivered for axis `id` under
/// builder `f`: some request `req` that `f` can build for that axis view
/// went out, some dispatcher outcome answering exactly `req` came back, and
/// the result is that outcome decoded.
pub open spec fn outcome_for<T: TryFromFrame, F: FnOnce(Axis) -> CANRequest>(
    f: F,
    id: AxisID,
    r: Result<Success<T>, ErrorResponse>,
) -> bool {
    exists|req: CANRequest, raw: ODriveResponse|
        call_ensures(f, (spec_axis(id),), req) && #[trigger] response_matches(req, raw) && r
            == spec_convert::<T>(raw)
}

/// A named group of axes behind one communicator. The managed ids are held
/// in canonical order: strictly ascending, fixed at construction.
pub struct ODriveGroup<C: CANThreadCommunicator> {
    can: C,
    axes: Vec<AxisID>,
}

impl<C: CANThreadCommunicator> ODriveGroup<C> {
    /// The managed axis ids, in canonical order.
    pub closed spec fn axis_ids(self) -> Seq<AxisID> {
        self.axes@
    }

    /// Canonical order: strictly ascending axis ids.
    pub open spec fn wf(self) -> bool {
        forall|i: int, j: int|
            0 <= i < j < self.axis_ids().len() ==> #[trigger] self.axis_ids()[i]
                < #[trigger] self.axis_ids()[j]
    }

    /// A group managing exactly the given axis ids (duplicates collapse),
    /// in canonical order.
    pub fn new(can: C, axis_ids: &[AxisID]) -> (g: ODriveGroup<C>)
        ensures
            g.wf(),
            forall|id: AxisID| g.axis_ids().contains(id) <==> axis_ids@.contains(id),
    {
        let mut axes: Vec<AxisID> = Vec::new();
        let mut k: usize = 0;
        while k < axis_ids.len()
            invariant
                k <= axis_ids@.len(),
                forall|i: int, j: int|
                    0 <= i < j < axes@.len() ==> #[trigger] axes@[i] < #[trigger] axes@[j],
                forall|id: AxisID|
                    axes@.contains(id) <==> axis_ids@.subrange(0, k as int).contains(id),
            decreases axis_ids@.len() - k,
        {
            let id = axis_ids[k];
            let ghost before = axes@;
            let mut p: usize = 0;
            while p < axes.len() && axes[p] < id
                invariant
                    p <= axes@.len(),
                    forall|q: int| 0 <= q < p ==> #[trigger] axes@[q] < id,
                    axes@ == before,
                decreases axes@.len() - p,
            {
                p = p + 1;
            }
            if p == axes.len() || axes[p] != id {
                axes.insert(p, id);
                proof {
                    let pi = p as int;
                    before.insert_ensures(pi, id);
                    let inserted = before.insert(pi, id);
                    assert(axes@ == inserted);
                    // Strict ascending order is preserved: everything left
                    // of the insertion point is below `id`, everything right
                    // of it is above.
                    assert(pi < before.len() ==> id < before[pi]);
                    assert forall|i: int, j: int|
                        0 <= i < j < inserted.len() implies inserted[i] < inserted[j] by {
                        if j < pi {
                            assert(inserted[i] == before[i]);
                            assert(inserted[j] == before[j]);
                        } else if j == pi {
                            assert(inserted[i] == before[i]);
                            assert(inserted[j] == id);
                        } else {
                            assert(inserted[(j - 1) + 1] == before[j - 1]);
                            if i < pi {
                                assert(inserted[i] == before[i]);
                            } else if i == pi {
                                assert(inserted[i] == id);
                                assert(id < before[pi]);
                                assert(pi == j - 1 || before[pi] < before[j - 1]);
                            } else {
                                assert(inserted[(i - 1) + 1] == before[i - 1]);
                            }
                        }
                    }
                    // The managed set grows by exactly `id`.
                    assert forall|x: AxisID|
                        inserted.contains(x) <==> (before.contains(x) || x == id) by {
                        if inserted.contains(x) {
                            let w = choose|w: int|
                                0 <= w < inserted.len() && inserted[w] == x;
                            if w < pi {
                                assert(inserted[w] == before[w]);
                                assert(before.contains(x));
                            } else if w > pi {
                                assert(inserted[(w - 1) + 1] == before[w - 1]);
                                assert(before.contains(x));
                            } else {
                                assert(inserted[pi] == id);
                            }
                        }
                        if before.contains(x) {
                            let w = choose|w: int| 0 <= w < before.len() && before[w] == x;
                            if w < pi {
                                assert(inserted[w] == before[w]);
                            } else {
                                assert(inserted[w + 1] == before[w]);
                            }
                            assert(inserted.contains(x));
                        }
                        if x == id {
                            assert(inserted[pi] == id);
                            assert(inserted.contains(x));
                        }
                    }
                }
            } else {
                proof {
                    assert(axes@[p as int] == id);
                    assert(axes@.contains(id));
                }
            }
            proof {
                let prefix = axis_ids@.subrange(0, k as int);
                let extended = axis_ids@.subrange(0, k + 1);
                assert(extended.drop_last() =~= prefix);
                assert(extended.last() == id);
                assert forall|x: AxisID| axes@.contains(x) <==> extended.contains(x) by {
                    if extended.contains(x) {
                        let w = choose|w: int|
                            0 <= w < extended.len() && #[trigger] extended[w] == x;
                        if w < k {
                            assert(prefix[w] == x);
                            assert(prefix.contains(x));
                        } else {
                            assert(x == id);
                        }
                    }
                    if axes@.contains(x) && x != id {
                        assert(prefix.contains(x));
                        let w = choose|w: int| 0 <= w < prefix.len() && #[trigger] prefix[w] == x;
                        assert(extended[w] == x);
                        assert(extended.contains(x));
                    }
                    if x == id {
                        assert(extended[k as int] == x);
                        assert(extended.contains(x));
                        assert(axes@.contains(x));
                    }
                }
            }
            k = k + 1;
        }
        proof {
            assert(axis_ids@.subrange(0, axis_ids@.len() as int) =~= axis_ids@);
        }
        ODriveGroup { can, axes }
    }

    /// Sends the request built by `f` to every managed axis, in canonical
    /// order, and hands back one decoded result per axis in that same
    /// order, whatever order the bus answered in. Each element is
    /// independently a success or an error: one axis's failure does not
    /// affect the others.
    pub fn all_axes<T: TryFromFrame, F: Fn(Axis) -> CANRequest>(&mut self, f: F) -> (res: Vec<
        Result<Success<T>, ErrorResponse>,
    >)
        requires
            forall|i: int|
                0 <= i < old(self).axis_ids().len() ==> call_requires(
                    f,
                    (spec_axis(#[trigger] old(self).axis_ids()[i]),),
                ),
        ensures
            final(self).axis_ids() == old(self).axis_ids(),
            res@.len() == old(self).axis_ids().len(),
            forall|i: int|
                0 <= i < res@.len() ==> outcome_for(
                    f,
                    old(self).axis_ids()[i],
                    #[trigger] res@[i],
                ),
    {
        let ghost ids = self.axis_ids();
        let mut requests: Vec<CANRequest> = Vec::new();
        let mut i: usize = 0;
        while i < self.axes.len()
            invariant
                i <= ids.len(),
                self.axis_ids() == ids,
                requests@.len() == i,
                forall|x: int|
                    0 <= x < ids.len() ==> call_requires(f, (spec_axis(#[trigger] ids[x]),)),
                forall|x: int|
                    0 <= x < i ==> call_ensures(
                        f,
                        (spec_axis(ids[x]),),
                        #[trigger] requests@[x],
                    ),
            decreases ids.len() - i,
        {
            let ax = Axis::new(self.axes[i]);
            let req = f(ax);
            requests.push(req);
            i = i + 1;
        }
        let ghost reqs = requests@;
        let raws = self.can.request_many(requests);
        let mut res: Vec<Result<Success<T>, ErrorResponse>> = Vec::new();
        let mut j: usize = 0;
        while j < raws.len()
            invariant
                j <= raws@.len(),
                raws@.len() == ids.len(),
                reqs.len() == ids.len(),
                res@.len() == j,
                forall|x: int|
                    0 <= x < ids.len() ==> call_ensures(
                        f,
                        (spec_axis(ids[x]),),
                        #[trigger] reqs[x],
                    ),
                forall|x: int|
                    0 <= x < ids.len() ==> response_matches(reqs[x], #[trigger] raws@[x]),
                forall|x: int| 0 <= x < j ==> #[trigger] res@[x] == spec_convert::<T>(raws@[x]),
            decreases raws@.len() - j,
        {
            let raw = raws[j];
            res.push(Self::convert_response(raw));
            j = j + 1;
        }
        proof {
            assert forall|x: int| 0 <= x < res@.len() implies outcome_for(
                f,
                ids[x],
                #[trigger] res@[x],
            ) by {
                assert(call_ensures(f, (spec_axis(ids[x]),), reqs[x]) && response_matches(
                    reqs[x],
                    raws@[x],
                ) && res@[x] == spec_convert::<T>(raws@[x]));
            }
        }
        res
    }

    /// Sends the request built by `f` to the single axis `axis_id` and
    /// decodes the answer. Addressing an axis outside the managed group
    /// fails with `UnknownAxis`, carrying the request that was built.
    pub fn axis<T: TryFromFrame, F: FnOnce(Axis) -> CANRequest>(
        &mut self,
        axis_id: &AxisID,
        f: F,
    ) -> (r: Result<Success<T>, ErrorResponse>)
        requires
            call_requires(f, (spec_axis(*axis_id),)),
        ensures
            final(self).axis_ids() == old(self).axis_ids(),
            old(self).axis_ids().contains(*axis_id) ==> outcome_for(f, *axis_id, r),
            !old(self).axis_ids().contains(*axis_id) ==> exists|req: CANRequest|
                #[trigger] call_ensures(f, (spec_axis(*axis_id),), req) && r == Err::<
                    Success<T>,
                    ErrorResponse,
                >(ErrorResponse { request: req, err: ODriveError::UnknownAxis }),
    {
        let request = match self.get_axis(axis_id) {
            Some(ax) => f(ax),
            None => {
                let request = f(Axis::new(*axis_id));
                return Err(ErrorResponse { request, err: ODriveError::UnknownAxis });
            },
        };
        let raw = self.can.request(request);
        let r = Self::convert_response(raw);
        proof {
            assert(call_ensures(f, (spec_axis(*axis_id),), request) && response_matches(
                request,
                raw,
            ) && r == spec_convert::<T>(raw));
        }
        r
    }

    /// Unwraps one dispatcher-level outcome into the typed result the
    /// caller sees.
    fn convert_response<T: TryFromFrame>(raw: ODriveResponse) -> (r: Result<
        Success<T>,
        ErrorResponse,
    >)
        ensures
            r == spec_convert::<T>(raw),
    {
        let resolved = match raw {
            Ok(resolved) => resolved,
            Err(err) => {
                return Err(err);
            },
        };
        let frame = match resolved {
            ResponseType::Body { request: _, response } => response,
            ResponseType::Bodyless { req } => req,
        };
        match T::try_from_frame(frame) {
            Ok(data) => Ok(Success { axis: frame.axis, sent_request: resolved.request(), data }),
            Err(_) => Err(
                ErrorResponse { request: resolved.request(), err: ODriveError::ConvertedBadData },
            ),
        }
    }

    /// The axis view for a managed id.
    fn get_axis(&self, id: &AxisID) -> (r: Option<Axis>)
        ensures
            r == if self.axis_ids().contains(*id) {
                Some(spec_axis(*id))
            } else {
                None::<Axis>
            },
    {
        let mut i: usize = 0;
        while i < self.axes.len()
            invariant
                i <= self.axis_ids().len(),
                forall|q: int| 0 <= q < i ==> #[trigger] self.axis_ids()[q] != *id,
            decreases self.axis_ids().len() - i,
        {
            if self.axes[i] == *id {
                return Some(Axis::new(*id));
            }
            i = i + 1;
        }
        proof {
            if self.axis_ids().contains(*id) {
                let w = choose|w: int|
                    0 <= w < self.axis_ids().len() && self.axis_ids()[w] == *id;
                assert(self.axis_ids()[w] != *id);
            }
        }
        None
    }

    /// The lowest managed axis id.
    fn first_axis_id(&self) -> (id: AxisID)
        requires
            self.axis_ids().len() > 0,
        ensures
            id == self.axis_ids()[0],
    {
        self.axes[0]
    }

    /// Fires a reboot request at the group's first axis and does not wait
    /// for any particular outcome.
    pub fn reboot(&mut self)
        requires
            old(self).axis_ids().len() > 0,
        ensures
            final(self).axis_ids() == old(self).axis_ids(),
    {
        let id = self.first_axis_id();
        let _ = self.can.request(
            ticket(id, ODriveCommand::Write(WriteComm::RebootODrive), [0u8; 8]),
        );
    }
}

} // verus!
