use vstd::prelude::*;
use crate::error::BaguaNetError;

verus! {

/// A live endpoint: a listening socket, an outbound stream or an accepted stream.
pub enum Communicator<L, S, R> {
    Listen(L),
    Send(S),
    Recv(R),
}

/// The kind of a communicator, which an identifier must match to resolve.
#[derive(Clone, Copy, Debug, PartialEq, Eq, Structural)]
pub enum CommKind {
    Listen,
    Send,
    Recv,
}

pub open spec fn kind_of<L, S, R>(c: Communicator<L, S, R>) -> CommKind {
    match c {
        Communicator::Listen(_) => CommKind::Listen,
        Communicator::Send(_) => CommKind::Send,
        Communicator::Recv(_) => CommKind::Recv,
    }
}

/// Identifier `id` names a live communicator of kind `kind` in the slots `t`.
pub open spec fn resolves<L, S, R>(t: Seq<Option<Communicator<L, S, R>>>, id: int, kind: CommKind) -> bool {
    &&& 0 <= id < t.len()
    &&& t[id] is Some
    &&& kind_of(t[id]->Some_0) == kind
}

/// The table from opaque identifiers to communicators. An identifier is the index of
/// its slot; a slot is filled once and emptied once, and never filled again, so a
/// closed identifier can never come to name a later communicator.
pub struct CommTable<L, S, R> {
    slots: Vec<Option<Communicator<L, S, R>>>,
}

impl<L, S, R> View for CommTable<L, S, R> {
    type V = Seq<Option<Communicator<L, S, R>>>;

    closed spec fn view(&self) -> Self::V {
        self.slots@
    }
}

impl<L, S, R> CommTable<L, S, R> {
    pub fn new() -> (t: Self)
        ensures
            t@ == Seq::<Option<Communicator<L, S, R>>>::empty(),
    {
        CommTable { slots: Vec::new() }
    }

    /// Registers `c` under the next identifier; fails when every identifier is spent.
    pub fn insert(&mut self, c: Communicator<L, S, R>) -> (r: Result<usize, BaguaNetError>)
        ensures
            old(self)@.len() < usize::MAX ==> r == Ok::<usize, BaguaNetError>(old(self)@.len() as usize)
                && final(self)@ == old(self)@.push(Some(c)),
            old(self)@.len() == usize::MAX ==> (r matches Err(BaguaNetError::IOError(_)))
                && final(self)@ == old(self)@,
    {
        if self.slots.len() == usize::MAX {
            return Err(BaguaNetError::IOError(String::from_str("no communicator identifier is left")));
        }
        let id = self.slots.len();
        self.slots.push(Some(c));
        Ok(id)
    }

    /// The communicator that `id` names, if it is live and of kind `kind`.
    pub fn lookup(&self, id: usize, kind: CommKind) -> (r: Result<&Communicator<L, S, R>, BaguaNetError>)
        ensures
            resolves(self@, id as int, kind) ==> (r matches Ok(c) && self@[id as int] == Some(*c)),
            !resolves(self@, id as int, kind) ==> (r matches Err(BaguaNetError::NotFound)),
    {
        if id >= self.slots.len() {
            return Err(BaguaNetError::NotFound);
        }
        match &self.slots[id] {
            Some(c) => {
                let matching = match c {
                    Communicator::Listen(_) => kind == CommKind::Listen,
                    Communicator::Send(_) => kind == CommKind::Send,
                    Communicator::Recv(_) => kind == CommKind::Recv,
                };
                if matching {
                    Ok(c)
                } else {
                    Err(BaguaNetError::NotFound)
                }
            },
            None => Err(BaguaNetError::NotFound),
        }
    }

    /// Takes the communicator that `id` names out of the table, if it is live and of
    /// kind `kind`; its identifier stays closed from then on.
    pub fn remove(&mut self, id: usize, kind: CommKind) -> (r: Result<Communicator<L, S, R>, BaguaNetError>)
        ensures
            resolves(old(self)@, id as int, kind) ==> (r matches Ok(c) && old(self)@[id as int] == Some(c))
                && final(self)@ == old(self)@.update(id as int, None),
            !resolves(old(self)@, id as int, kind) ==> (r matches Err(BaguaNetError::NotFound))
                && final(self)@ == old(self)@,
    {
        match self.lookup(id, kind) {
            Ok(_) => {},
            Err(e) => return Err(e),
        }
        self.slots.push(None);
        let taken = self.slots.swap_remove(id);
        proof {
            assert(self.slots@ =~= old(self)@.update(id as int, None));
        }
        match taken {
            Some(c) => Ok(c),
            None => Err(BaguaNetError::NotFound),
        }
    }
}

/// Once an identifier is closed it resolves to nothing, of any kind, whatever slots
/// are appended afterwards: a second close and every later lookup fail.
pub proof fn lemma_closed_stays_closed<L, S, R>(
    t: Seq<Option<Communicator<L, S, R>>>,
    id: int,
    later: Seq<Option<Communicator<L, S, R>>>,
)
    requires
        0 <= id < t.len(),
    ensures
        forall|k: CommKind| !#[trigger] resolves(t.update(id, None), id, k),
        forall|k: CommKind|
            !#[trigger] resolves(
                t.update(id, None) + later,
                id,
                k,
            ),
{
    let closed = t.update(id, None);
    let grown = closed + later;
    assert(grown[id] == closed[id]);
}

/// Two registrations in a row get distinct identifiers, and each identifier resolves
/// to the communicator registered under it, whatever it resolved to before.
pub proof fn lemma_registrations_distinct<L, S, R>(
    t: Seq<Option<Communicator<L, S, R>>>,
    a: Communicator<L, S, R>,
    b: Communicator<L, S, R>,
)
    ensures
        t.len() != t.push(Some(a)).len(),
        t.push(Some(a)).push(Some(b))[t.len() as int] == Some(a),
        t.push(Some(a)).push(Some(b))[t.len() + 1 as int] == Some(b),
        resolves(t.push(Some(a)).push(Some(b)), t.len() as int, kind_of(a)),
        resolves(t.push(Some(a)).push(Some(b)), t.len() + 1 as int, kind_of(b)),
        forall|i: int| 0 <= i < t.len() ==> #[trigger] t.push(Some(a)).push(Some(b))[i] == t[i],
{
    let t2 = t.push(Some(a)).push(Some(b));
    assert(t2[t.len() as int] == Some(a));
}

} // verus!
