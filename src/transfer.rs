use vstd::prelude::*;
use crate::error::BaguaNetError;

verus! {

/// Which way a transfer moves bytes.
#[derive(Clone, Copy, Debug, PartialEq, Eq, Structural)]
pub enum Direction {
    Send,
    Recv,
}

/// Where an in-flight transfer stands.
#[derive(Debug)]
pub enum RequestStatus {
    InFlight,
    Complete,
    Failed(String),
}

/// What one non-blocking read or write of the remaining bytes reported.
#[derive(Debug)]
pub enum IoOutcome {
    /// The system moved this many bytes.
    Transferred(usize),
    /// The system could move no byte now; try again later.
    WouldBlock,
    /// The system reported a failure, with its cause.
    Failed(String),
}

/// What polling a request reports.
#[derive(Debug)]
pub enum Progress {
    /// Still in flight, with this many bytes moved so far.
    Pending(usize),
    /// Done, with this many bytes moved.
    Complete(usize),
    Failed(BaguaNetError),
}

/// A transfer of `len` bytes over communicator `comm_id`, of which the first `offset`
/// have moved. The next read or write starts at `offset`.
#[derive(Debug)]
pub struct TransferRequest {
    pub comm_id: usize,
    pub direction: Direction,
    pub len: usize,
    pub offset: usize,
    pub status: RequestStatus,
}

/// A request's status, its failure held as the text of its cause.
pub enum StatusModel {
    InFlight,
    Complete,
    Failed(Seq<char>),
}

/// A request as plain values.
pub struct RequestModel {
    pub comm_id: usize,
    pub direction: Direction,
    pub len: nat,
    pub offset: nat,
    pub status: StatusModel,
}

impl View for TransferRequest {
    type V = RequestModel;

    open spec fn view(&self) -> RequestModel {
        RequestModel {
            comm_id: self.comm_id,
            direction: self.direction,
            len: self.len as nat,
            offset: self.offset as nat,
            status: match self.status {
                RequestStatus::InFlight => StatusModel::InFlight,
                RequestStatus::Complete => StatusModel::Complete,
                RequestStatus::Failed(m) => StatusModel::Failed(m@),
            },
        }
    }
}

/// The offset lies within the request; a complete request has moved every byte,
/// and one in flight has bytes left to move.
pub open spec fn wf(m: RequestModel) -> bool {
    &&& m.offset <= m.len
    &&& m.status is Complete ==> m.offset == m.len
    &&& m.status is InFlight ==> m.offset < m.len
}

/// The request for `len` bytes as it starts: nothing moved yet, and complete at once
/// when there is nothing to move.
pub open spec fn fresh(comm_id: usize, direction: Direction, len: nat) -> RequestModel {
    RequestModel {
        comm_id,
        direction,
        len,
        offset: 0,
        status: if len == 0 {
            StatusModel::Complete
        } else {
            StatusModel::InFlight
        },
    }
}

/// How many bytes an outcome moves the request forward: only a report of at least one
/// and at most the remaining bytes, on a request in flight, moves it.
pub open spec fn accepted(m: RequestModel, o: IoOutcome) -> nat {
    match o {
        IoOutcome::Transferred(n) => if m.status is InFlight && 0 < n && n + m.offset <= m.len {
            n as nat
        } else {
            0
        },
        _ => 0,
    }
}

pub open spec fn closed_by_peer() -> Seq<char> {
    "connection closed by peer"@
}

pub open spec fn overran() -> Seq<char> {
    "transfer overran the request"@
}

/// The request after one outcome. A request that is no longer in flight does not
/// change. A report of zero bytes means the peer closed the stream, and one of more
/// bytes than remain cannot come from a sound system call: both fail the request.
pub open spec fn step(m: RequestModel, o: IoOutcome) -> RequestModel {
    if !(m.status is InFlight) {
        m
    } else {
        match o {
            IoOutcome::Transferred(n) => if 0 < n && n + m.offset <= m.len {
                let offset = (m.offset + n) as nat;
                RequestModel {
                    offset,
                    status: if offset == m.len {
                        StatusModel::Complete
                    } else {
                        StatusModel::InFlight
                    },
                    ..m
                }
            } else if n == 0 {
                RequestModel { status: StatusModel::Failed(closed_by_peer()), ..m }
            } else {
                RequestModel { status: StatusModel::Failed(overran()), ..m }
            },
            IoOutcome::WouldBlock => m,
            IoOutcome::Failed(cause) => RequestModel { status: StatusModel::Failed(cause@), ..m },
        }
    }
}

/// `p` reports the request `m`.
pub open spec fn reports(p: Progress, m: RequestModel) -> bool {
    match m.status {
        StatusModel::InFlight => p matches Progress::Pending(n) && n == m.offset,
        StatusModel::Complete => p matches Progress::Complete(n) && n == m.len,
        StatusModel::Failed(cause) => p matches Progress::Failed(BaguaNetError::IOError(c)) && c@ == cause,
    }
}

/// The request after each outcome of `os` in turn.
pub open spec fn run(m: RequestModel, os: Seq<IoOutcome>) -> RequestModel
    decreases os.len(),
{
    if os.len() == 0 {
        m
    } else {
        run(step(m, os[0]), os.skip(1))
    }
}

/// The bytes that the outcomes of `os`, taken in turn, move the request forward.
pub open spec fn moved(m: RequestModel, os: Seq<IoOutcome>) -> nat
    decreases os.len(),
{
    if os.len() == 0 {
        0
    } else {
        accepted(m, os[0]) + moved(step(m, os[0]), os.skip(1))
    }
}

/// The bytes that a run of transfer reports announces.
pub open spec fn reported(os: Seq<IoOutcome>) -> nat
    decreases os.len(),
{
    if os.len() == 0 {
        0
    } else {
        (match os[0] {
            IoOutcome::Transferred(n) => n as nat,
            _ => 0,
        }) + reported(os.skip(1))
    }
}

/// Resumption is exact: whatever outcomes are polled, the request stays well formed,
/// keeps its stream, direction and length, and its offset has moved by exactly the
/// bytes that were accepted, so no byte is moved twice or skipped.
pub proof fn lemma_offset_accounts_for_every_byte(m: RequestModel, os: Seq<IoOutcome>)
    requires
        wf(m),
    ensures
        wf(run(m, os)),
        run(m, os).offset == m.offset + moved(m, os),
        run(m, os).len == m.len,
        run(m, os).comm_id == m.comm_id,
        run(m, os).direction == m.direction,
    decreases os.len(),
{
    if os.len() > 0 {
        lemma_offset_accounts_for_every_byte(step(m, os[0]), os.skip(1));
    }
}

/// A transfer that the system carries out in partial chunks, each of at least one
/// byte and together exactly the remaining bytes, ends complete with every byte moved,
/// however the chunks fall.
pub proof fn lemma_chunks_complete_transfer(m: RequestModel, os: Seq<IoOutcome>)
    requires
        wf(m),
        !(m.status is Failed),
        forall|i: int| 0 <= i < os.len() ==> (#[trigger] os[i] matches IoOutcome::Transferred(n) && n > 0),
        m.offset + reported(os) == m.len,
    ensures
        run(m, os).status is Complete,
        run(m, os).offset == m.len,
    decreases os.len(),
{
    if os.len() > 0 {
        let rest = os.skip(1);
        assert forall|i: int| 0 <= i < rest.len() implies (#[trigger] rest[i] matches IoOutcome::Transferred(n) && n > 0) by {
            assert(rest[i] == os[i + 1]);
        }
        assert(os[0] matches IoOutcome::Transferred(n) && n > 0);
        lemma_chunks_complete_transfer(step(m, os[0]), rest);
    }
}

/// A request as `isend` or `irecv` starts it, polled while the system moves its bytes
/// in chunks of at least one byte that add up to its length, ends complete with every
/// byte moved.
pub proof fn lemma_fresh_request_completes(
    comm_id: usize,
    direction: Direction,
    len: nat,
    os: Seq<IoOutcome>,
)
    requires
        forall|i: int| 0 <= i < os.len() ==> (#[trigger] os[i] matches IoOutcome::Transferred(n) && n > 0),
        reported(os) == len,
    ensures
        run(fresh(comm_id, direction, len), os).status is Complete,
        run(fresh(comm_id, direction, len), os).offset == len,
{
    lemma_chunks_complete_transfer(fresh(comm_id, direction, len), os);
}

impl TransferRequest {
    pub fn new(comm_id: usize, direction: Direction, len: usize) -> (r: TransferRequest)
        ensures
            r@ == fresh(comm_id, direction, len as nat),
    {
        TransferRequest {
            comm_id,
            direction,
            len,
            offset: 0,
            status: if len == 0 {
                RequestStatus::Complete
            } else {
                RequestStatus::InFlight
            },
        }
    }

    /// How many bytes are left to move.
    pub fn remaining(&self) -> (r: usize)
        requires
            wf(self@),
        ensures
            r == self@.len - self@.offset,
    {
        self.len - self.offset
    }

    /// Whether the request is still in flight, so that another read or write is due.
    pub fn in_flight(&self) -> (r: bool)
        ensures
            r == self@.status is InFlight,
    {
        match self.status {
            RequestStatus::InFlight => true,
            _ => false,
        }
    }

    /// What polling the request reports now.
    pub fn progress(&self) -> (p: Progress)
        ensures
            reports(p, self@),
    {
        match &self.status {
            RequestStatus::InFlight => Progress::Pending(self.offset),
            RequestStatus::Complete => Progress::Complete(self.len),
            RequestStatus::Failed(cause) => Progress::Failed(BaguaNetError::IOError(cause.clone())),
        }
    }

    /// Takes in what one read or write of the remaining bytes reported, moves the
    /// offset by exactly the bytes moved, and reports the request as it then stands.
    pub fn advance(&mut self, outcome: IoOutcome) -> (p: Progress)
        requires
            wf(old(self)@),
        ensures
            final(self)@ == step(old(self)@, outcome),
            wf(final(self)@),
            reports(p, final(self)@),
    {
        let in_flight = self.in_flight();
        if in_flight {
            match outcome {
                IoOutcome::Transferred(n) => {
                    let rem = self.len - self.offset;
                    if 0 < n && n <= rem {
                        self.offset = self.offset + n;
                        if self.offset == self.len {
                            self.status = RequestStatus::Complete;
                        }
                    } else if n == 0 {
                        self.status = RequestStatus::Failed(String::from_str("connection closed by peer"));
                    } else {
                        self.status = RequestStatus::Failed(String::from_str("transfer overran the request"));
                    }
                },
                IoOutcome::WouldBlock => {},
                IoOutcome::Failed(cause) => {
                    self.status = RequestStatus::Failed(cause);
                },
            }
        }
        self.progress()
    }
}

} // verus!
