//! A vector that many readers or one writer hold at a time, with permits
//! that are asked for first and granted later.
//!
//! Asking never blocks: it hands out a ticket. The ticket's permit is
//! granted in the order of asking. The request at the head of the line is
//! admitted as soon as the permits that are out allow it (a reader while no
//! writer holds the vector, a writer while nobody holds it), and nobody
//! behind the head overtakes it. So readers that ask while readers hold the
//! vector and nobody waits share it at once; a writer waits for the readers
//! before it to finish; and whoever asks after a waiting writer waits behind
//! it, which keeps writers from starving.

use crate::error::{Error, ErrorView};
use vstd::prelude::*;

verus! {

/// What a permit allows.
#[derive(Clone, Copy, Debug, PartialEq, Eq, Structural)]
pub enum Access {
    Read,
    Write,
}

/// A request that waits in line.
#[derive(Clone, Copy, Debug, PartialEq, Eq, Structural)]
pub struct Request {
    pub ticket: u64,
    pub access: Access,
}

/// The permits that are out: those of any number of readers, or that of one
/// writer. No readers is nobody.
#[derive(Clone, Debug, PartialEq, Eq)]
pub enum Permits {
    Readers(Vec<u64>),
    Writer(u64),
}

/// The permits that are out, in the terms of specifications.
pub enum PermitsView {
    Readers(Seq<u64>),
    Writer(u64),
}

impl View for Permits {
    type V = PermitsView;

    open spec fn view(&self) -> PermitsView {
        match self {
            Permits::Readers(tickets) => PermitsView::Readers(tickets@),
            Permits::Writer(ticket) => PermitsView::Writer(*ticket),
        }
    }
}

/// The state of the permits of a vector: who holds it, who waits, and the
/// next ticket.
pub struct LockView {
    pub active: PermitsView,
    pub pending: Seq<Request>,
    pub next_ticket: u64,
}

/// A sequence without the first of its items that `wanted` picks.
pub open spec fn remove_first<A>(s: Seq<A>, wanted: spec_fn(A) -> bool) -> Seq<A>
    decreases s.len(),
{
    if s.len() == 0 {
        s
    } else if wanted(s[0]) {
        s.skip(1)
    } else {
        seq![s[0]] + remove_first(s.skip(1), wanted)
    }
}

/// Where the first item is that `wanted` picks, the sequence without it is
/// the sequence with that place removed.
pub proof fn lemma_remove_first_at<A>(s: Seq<A>, wanted: spec_fn(A) -> bool, i: int)
    requires
        0 <= i < s.len(),
        wanted(s[i]),
        forall|j: int| 0 <= j < i ==> !wanted(#[trigger] s[j]),
    ensures
        remove_first(s, wanted) == s.remove(i),
    decreases i,
{
    if i == 0 {
        assert(s.skip(1) =~= s.remove(0));
    } else {
        assert(!wanted(s[0]));
        assert forall|j: int| 0 <= j < i - 1 implies !wanted(#[trigger] s.skip(1)[j]) by {
            assert(!wanted(s[j + 1]));
        }
        lemma_remove_first_at(s.skip(1), wanted, i - 1);
        assert(seq![s[0]] + s.skip(1).remove(i - 1) =~= s.remove(i));
    }
}

/// Where `wanted` picks no item, nothing is removed.
pub proof fn lemma_remove_first_none<A>(s: Seq<A>, wanted: spec_fn(A) -> bool)
    requires
        forall|j: int| 0 <= j < s.len() ==> !wanted(#[trigger] s[j]),
    ensures
        remove_first(s, wanted) == s,
    decreases s.len(),
{
    if s.len() > 0 {
        assert(!wanted(s[0]));
        assert forall|j: int| 0 <= j < s.len() - 1 implies !wanted(#[trigger] s.skip(1)[j]) by {
            assert(!wanted(s[j + 1]));
        }
        lemma_remove_first_none(s.skip(1), wanted);
        assert(seq![s[0]] + s.skip(1) =~= s);
    }
}

/// Picks the ticket `ticket`.
pub open spec fn ticket_is(ticket: u64) -> spec_fn(u64) -> bool {
    |t: u64| t == ticket
}

/// Picks the requests of the ticket `ticket`.
pub open spec fn request_of(ticket: u64) -> spec_fn(Request) -> bool {
    |r: Request| r.ticket == ticket
}

impl LockView {
    /// Whether `ticket` holds a reader's permit.
    pub open spec fn holds_read(self, ticket: u64) -> bool {
        self.active matches PermitsView::Readers(tickets) && tickets.contains(ticket)
    }

    /// Whether `ticket` holds the writer's permit.
    pub open spec fn holds_write(self, ticket: u64) -> bool {
        self.active == PermitsView::Writer(ticket)
    }

    /// Whether `ticket` holds a permit.
    pub open spec fn holds(self, ticket: u64) -> bool {
        self.holds_read(ticket) || self.holds_write(ticket)
    }

    /// Whether `ticket` waits in line.
    pub open spec fn waits(self, ticket: u64) -> bool {
        exists|i: int| 0 <= i < self.pending.len() && (#[trigger] self.pending[i]).ticket == ticket
    }

    /// The number of readers' permits that are out.
    pub open spec fn reader_count(self) -> nat {
        match self.active {
            PermitsView::Readers(tickets) => tickets.len(),
            PermitsView::Writer(_) => 0,
        }
    }

    /// Whether the writer's permit is out.
    pub open spec fn writer_active(self) -> bool {
        self.active is Writer
    }

    /// Whether the permits that are out allow one more of the given kind: a
    /// reader's while no writer holds the vector, a writer's while nobody
    /// holds it.
    pub open spec fn admissible(self, access: Access) -> bool {
        match self.active {
            PermitsView::Writer(_) => false,
            PermitsView::Readers(tickets) => access is Read || tickets.len() == 0,
        }
    }

    /// Whether the head of the line can be admitted.
    pub open spec fn head_admissible(self) -> bool {
        self.pending.len() > 0 && self.admissible(self.pending[0].access)
    }

    /// The state after the head of the line has been given its permit.
    pub open spec fn admit_head(self) -> LockView
        recommends
            self.head_admissible(),
    {
        let head = self.pending[0];
        LockView {
            active: match head.access {
                Access::Write => PermitsView::Writer(head.ticket),
                Access::Read => match self.active {
                    PermitsView::Readers(tickets) => PermitsView::Readers(tickets.push(head.ticket)),
                    PermitsView::Writer(t) => PermitsView::Writer(t),
                },
            },
            pending: self.pending.skip(1),
            ..self
        }
    }

    /// The state after everyone has been admitted who can be: the head of
    /// the line, again and again, until it cannot be admitted or nobody
    /// waits.
    pub open spec fn settle(self) -> LockView
        decreases self.pending.len(),
    {
        if self.head_admissible() {
            self.admit_head().settle()
        } else {
            self
        }
    }

    /// The state after a request for `access` has joined the line under the
    /// next ticket.
    pub open spec fn request(self, access: Access) -> LockView
        recommends
            self.next_ticket < u64::MAX,
    {
        LockView {
            pending: self.pending.push(Request { ticket: self.next_ticket, access }),
            next_ticket: (self.next_ticket + 1) as u64,
            ..self
        }.settle()
    }

    /// The state after `ticket` has given up its permit, or its place in the
    /// line.
    pub open spec fn release(self, ticket: u64) -> LockView {
        match self.active {
            PermitsView::Writer(t) => if t == ticket {
                LockView { active: PermitsView::Readers(Seq::empty()), ..self }.settle()
            } else {
                LockView {
                    pending: remove_first(self.pending, request_of(ticket)),
                    ..self
                }.settle()
            },
            PermitsView::Readers(tickets) => if tickets.contains(ticket) {
                LockView {
                    active: PermitsView::Readers(remove_first(tickets, ticket_is(ticket))),
                    ..self
                }.settle()
            } else {
                LockView {
                    pending: remove_first(self.pending, request_of(ticket)),
                    ..self
                }.settle()
            },
        }
    }
}

/// Admission grants and never revokes, and it grants by the rule: whoever
/// held a permit before still holds it; the writer's permit is newly out
/// only if nobody held the vector before; readers' permits are newly out
/// only if no writer held it before; and afterwards nobody waits who could
/// be admitted at the head of the line.
pub proof fn lemma_settle_by_the_rule(v: LockView)
    ensures
        forall|t: u64| v.holds(t) ==> #[trigger] v.settle().holds(t),
        v.settle().writer_active() && !v.writer_active() ==> v.reader_count() == 0,
        v.writer_active() ==> v.settle() == v,
        v.settle().reader_count() >= v.reader_count(),
        !v.settle().head_admissible(),
        v.settle().next_ticket == v.next_ticket,
    decreases v.pending.len(),
{
    if v.head_admissible() {
        let w = v.admit_head();
        lemma_settle_by_the_rule(w);
        assert forall|t: u64| v.holds(t) implies #[trigger] v.settle().holds(t) by {
            if v.holds_read(t) {
                let tickets = v.active->Readers_0;
                let i = choose|i: int| 0 <= i < tickets.len() && tickets[i] == t;
                if v.pending[0].access is Read {
                    assert(tickets.push(v.pending[0].ticket)[i] == t);
                    assert(w.holds(t));
                }
            }
            assert(w.holds(t));
        }
    }
}

/// The two kinds of permit exclude each other: while the writer's permit is
/// out, no other permit is; and while a reader's is, the writer's is not.
pub proof fn lemma_permits_exclude(v: LockView, ticket: u64, other: u64)
    ensures
        v.holds_write(ticket) && v.holds(other) ==> other == ticket && !v.holds_read(other),
        v.holds_read(ticket) ==> !v.holds_write(other),
        v.writer_active() ==> v.reader_count() == 0,
{
}

/// While no writer holds the vector and nobody waits, a reader that asks is
/// admitted at once, whatever the number of readers that hold the vector
/// already.
pub proof fn lemma_readers_share(v: LockView)
    requires
        !v.writer_active(),
        v.pending.len() == 0,
    ensures
        v.request(Access::Read).holds_read(v.next_ticket),
        v.request(Access::Read).reader_count() == v.reader_count() + 1,
        v.request(Access::Read).pending.len() == 0,
{
    let asked = LockView {
        pending: v.pending.push(Request { ticket: v.next_ticket, access: Access::Read }),
        next_ticket: (v.next_ticket + 1) as u64,
        ..v
    };
    assert(asked.head_admissible());
    let w = asked.admit_head();
    assert(w.pending =~= Seq::empty());
    assert(!w.head_admissible());
    assert(w.settle() == w);
    let tickets = v.active->Readers_0;
    assert(tickets.push(v.next_ticket)[tickets.len() as int] == v.next_ticket);
}

/// A writer that asks while readers hold the vector is not admitted: it
/// waits, and the readers keep their permits.
pub proof fn lemma_writer_waits_for_readers(v: LockView)
    requires
        v.reader_count() > 0,
        !v.head_admissible(),
    ensures
        !v.request(Access::Write).holds_write(v.next_ticket),
        v.request(Access::Write).waits(v.next_ticket),
        v.request(Access::Write).active == v.active,
{
    let asked = LockView {
        pending: v.pending.push(Request { ticket: v.next_ticket, access: Access::Write }),
        next_ticket: (v.next_ticket + 1) as u64,
        ..v
    };
    assert(!asked.head_admissible());
    assert(asked.settle() == asked);
    assert(asked.pending[asked.pending.len() - 1].ticket == v.next_ticket);
}

/// Whoever asks while the writer holds the vector is not admitted: it waits
/// until the writer gives up its permit.
pub proof fn lemma_everyone_waits_for_writer(v: LockView, access: Access)
    requires
        v.writer_active(),
    ensures
        !v.request(access).holds(v.next_ticket) || v.active == PermitsView::Writer(v.next_ticket),
        v.request(access).waits(v.next_ticket),
        v.request(access).active == v.active,
{
    let asked = LockView {
        pending: v.pending.push(Request { ticket: v.next_ticket, access }),
        next_ticket: (v.next_ticket + 1) as u64,
        ..v
    };
    assert(!asked.head_admissible());
    assert(asked.settle() == asked);
    assert(asked.pending[asked.pending.len() - 1].ticket == v.next_ticket);
}

/// The place of the first ticket `ticket` among `tickets`, if it is there.
fn find_ticket(tickets: &Vec<u64>, ticket: u64) -> (found: Option<usize>)
    ensures
        found is Some <==> tickets@.contains(ticket),
        found matches Some(k) ==> k < tickets@.len() && tickets@[k as int] == ticket && forall|
            j: int,
        |
            0 <= j < k ==> tickets@[j] != ticket,
{
    let mut i: usize = 0;
    while i < tickets.len()
        invariant
            i <= tickets@.len(),
            forall|j: int| 0 <= j < i ==> tickets@[j] != ticket,
        decreases tickets@.len() - i,
    {
        if tickets[i] == ticket {
            return Some(i);
        }
        i += 1;
    }
    None
}

/// The place of the first request of `ticket` among `pending`, if it waits
/// there.
fn find_request(pending: &Vec<Request>, ticket: u64) -> (found: Option<usize>)
    ensures
        match found {
            Some(k) => k < pending@.len() && pending@[k as int].ticket == ticket && forall|j: int|
                0 <= j < k ==> (#[trigger] pending@[j]).ticket != ticket,
            None => forall|j: int|
                0 <= j < pending@.len() ==> (#[trigger] pending@[j]).ticket != ticket,
        },
{
    let mut i: usize = 0;
    while i < pending.len()
        invariant
            i <= pending@.len(),
            forall|j: int| 0 <= j < i ==> (#[trigger] pending@[j]).ticket != ticket,
        decreases pending@.len() - i,
    {
        if pending[i].ticket == ticket {
            return Some(i);
        }
        i += 1;
    }
    None
}

/// What a [`RwVec`] holds: its items and the state of its permits.
pub struct RwVecView<T> {
    pub data: Seq<T>,
    pub lock: LockView,
}

/// A vector shared by the stages of a pipeline: any number of readers, or
/// one writer, hold it at a time.
pub struct RwVec<T> {
    data: Vec<T>,
    active: Permits,
    pending: Vec<Request>,
    next_ticket: u64,
}

impl<T> View for RwVec<T> {
    type V = RwVecView<T>;

    closed spec fn view(&self) -> RwVecView<T> {
        RwVecView {
            data: self.data@,
            lock: LockView {
                active: self.active@,
                pending: self.pending@,
                next_ticket: self.next_ticket,
            },
        }
    }
}

impl<T> RwVec<T> {
    /// The state of permits of a vector that nobody has asked for yet.
    pub open spec fn fresh_lock() -> LockView {
        LockView {
            active: PermitsView::Readers(Seq::empty()),
            pending: Seq::empty(),
            next_ticket: 0,
        }
    }

    /// A shared vector of the items of `data`, which nobody holds or waits
    /// for.
    pub fn new(data: Vec<T>) -> (v: RwVec<T>)
        ensures
            v@ == (RwVecView { data: data@, lock: RwVec::<T>::fresh_lock() }),
    {
        RwVec { data, active: Permits::Readers(Vec::new()), pending: Vec::new(), next_ticket: 0 }
    }

    /// The number of items.
    pub fn len(&self) -> (n: usize)
        ensures
            n == self@.data.len(),
    {
        self.data.len()
    }

    /// The number of readers' permits that are out.
    pub fn reader_count(&self) -> (n: usize)
        ensures
            n == self@.lock.reader_count(),
    {
        match &self.active {
            Permits::Readers(tickets) => tickets.len(),
            Permits::Writer(_) => 0,
        }
    }

    /// Whether the writer's permit is out.
    pub fn is_write_locked(&self) -> (r: bool)
        ensures
            r == self@.lock.writer_active(),
    {
        match &self.active {
            Permits::Readers(_) => false,
            Permits::Writer(_) => true,
        }
    }

    /// The number of requests that wait.
    pub fn pending_count(&self) -> (n: usize)
        ensures
            n == self@.lock.pending.len(),
    {
        self.pending.len()
    }

    fn settle(&mut self)
        ensures
            final(self)@ == (RwVecView { lock: old(self)@.lock.settle(), ..old(self)@ }),
    {
        loop
            invariant
                self@.data == old(self)@.data,
                self@.lock.settle() == old(self)@.lock.settle(),
            ensures
                self@.data == old(self)@.data,
                self@.lock == old(self)@.lock.settle(),
            decreases self.pending@.len(),
        {
            if self.pending.len() == 0 {
                break ;
            }
            let head = self.pending[0];
            let admissible = match &self.active {
                Permits::Writer(_) => false,
                Permits::Readers(tickets) => match head.access {
                    Access::Read => true,
                    Access::Write => tickets.len() == 0,
                },
            };
            if !admissible {
                break ;
            }
            let ghost before = self@.lock;
            self.pending.remove(0);
            assert(self.pending@ =~= before.pending.skip(1));
            match head.access {
                Access::Write => {
                    self.active = Permits::Writer(head.ticket);
                },
                Access::Read => {
                    let mut tickets = match &self.active {
                        Permits::Readers(tickets) => tickets.clone(),
                        Permits::Writer(_) => Vec::new(),
                    };
                    tickets.push(head.ticket);
                    self.active = Permits::Readers(tickets);
                },
            }
            assert(self@.lock == before.admit_head());
        }
    }

    /// Asks for a permit, and returns the ticket under which it will be
    /// granted. The request joins the end of the line, and everyone who can
    /// be is admitted: see [`LockView::request`]. Tickets are numbered from
    /// zero; when the numbers are used up nothing changes and the call fails
    /// with `ResourceExhausted`.
    pub fn request(&mut self, access: Access) -> (r: Result<u64, Error>)
        ensures
            match r {
                Ok(ticket) => {
                    &&& old(self)@.lock.next_ticket < u64::MAX
                    &&& ticket == old(self)@.lock.next_ticket
                    &&& final(self)@ == (RwVecView {
                        lock: old(self)@.lock.request(access),
                        ..old(self)@
                    })
                },
                Err(e) => {
                    &&& e@ == ErrorView::ResourceExhausted
                    &&& old(self)@.lock.next_ticket == u64::MAX
                    &&& final(self)@ == old(self)@
                },
            },
    {
        if self.next_ticket == u64::MAX {
            return Err(Error::ResourceExhausted);
        }
        let ticket = self.next_ticket;
        self.pending.push(Request { ticket, access });
        self.next_ticket = ticket + 1;
        self.settle();
        Ok(ticket)
    }

    /// Asks for a reader's permit: see [`RwVec::request`].
    pub fn request_read(&mut self) -> (r: Result<u64, Error>)
        ensures
            match r {
                Ok(ticket) => {
                    &&& old(self)@.lock.next_ticket < u64::MAX
                    &&& ticket == old(self)@.lock.next_ticket
                    &&& final(self)@ == (RwVecView {
                        lock: old(self)@.lock.request(Access::Read),
                        ..old(self)@
                    })
                },
                Err(e) => {
                    &&& e@ == ErrorView::ResourceExhausted
                    &&& old(self)@.lock.next_ticket == u64::MAX
                    &&& final(self)@ == old(self)@
                },
            },
    {
        self.request(Access::Read)
    }

    /// Asks for the writer's permit: see [`RwVec::request`].
    pub fn request_write(&mut self) -> (r: Result<u64, Error>)
        ensures
            match r {
                Ok(ticket) => {
                    &&& old(self)@.lock.next_ticket < u64::MAX
                    &&& ticket == old(self)@.lock.next_ticket
                    &&& final(self)@ == (RwVecView {
                        lock: old(self)@.lock.request(Access::Write),
                        ..old(self)@
                    })
                },
                Err(e) => {
                    &&& e@ == ErrorView::ResourceExhausted
                    &&& old(self)@.lock.next_ticket == u64::MAX
                    &&& final(self)@ == old(self)@
                },
            },
    {
        self.request(Access::Write)
    }

    /// Whether the permit of `ticket` has been granted and is held as a
    /// reader's.
    pub fn holds_read(&self, ticket: u64) -> (r: bool)
        ensures
            r == self@.lock.holds_read(ticket),
    {
        match &self.active {
            Permits::Writer(_) => false,
            Permits::Readers(tickets) => find_ticket(tickets, ticket).is_some(),
        }
    }

    /// Whether the permit of `ticket` has been granted and is held as the
    /// writer's.
    pub fn holds_write(&self, ticket: u64) -> (r: bool)
        ensures
            r == self@.lock.holds_write(ticket),
    {
        match &self.active {
            Permits::Writer(t) => *t == ticket,
            Permits::Readers(_) => false,
        }
    }

    /// Whether the permit of `ticket` has been granted: the answer to a
    /// poll of the acquisition.
    pub fn poll(&self, ticket: u64) -> (r: bool)
        ensures
            r == self@.lock.holds(ticket),
    {
        self.holds_read(ticket) || self.holds_write(ticket)
    }

    /// Gives up the permit of `ticket`, or its place in the line if it still
    /// waits, and admits everyone who can be admitted then: see
    /// [`LockView::release`]. A ticket that neither holds nor waits changes
    /// nothing.
    pub fn release(&mut self, ticket: u64)
        ensures
            final(self)@ == (RwVecView { lock: old(self)@.lock.release(ticket), ..old(self)@ }),
    {
        let readers: Option<Vec<u64>> = match &self.active {
            Permits::Writer(t) => if *t == ticket {
                Some(Vec::new())
            } else {
                None
            },
            Permits::Readers(tickets) => match find_ticket(tickets, ticket) {
                Some(k) => {
                    let mut rest = tickets.clone();
                    assert(rest@ =~= tickets@);
                    rest.remove(k);
                    proof {
                        lemma_remove_first_at(tickets@, ticket_is(ticket), k as int);
                    }
                    Some(rest)
                },
                None => None,
            },
        };
        match readers {
            Some(rest) => {
                self.active = Permits::Readers(rest);
            },
            None => {
                match find_request(&self.pending, ticket) {
                    Some(k) => {
                        proof {
                            lemma_remove_first_at(
                                self.pending@,
                                request_of(ticket),
                                k as int,
                            );
                        }
                        self.pending.remove(k);
                    },
                    None => {
                        proof {
                            lemma_remove_first_none(self.pending@, request_of(ticket));
                        }
                    },
                }
            },
        }
        self.settle();
    }

    /// The items, for the holder of a permit. Fails with `InvalidHandle` for
    /// a ticket that holds none.
    pub fn read(&self, ticket: u64) -> (r: Result<&Vec<T>, Error>)
        ensures
            match r {
                Ok(data) => self@.lock.holds(ticket) && data@ == self@.data,
                Err(e) => !self@.lock.holds(ticket) && e@ == ErrorView::InvalidHandle,
            },
    {
        if self.poll(ticket) {
            Ok(&self.data)
        } else {
            Err(Error::InvalidHandle)
        }
    }

    /// Replaces the items, for the holder of the writer's permit, and
    /// returns the items that were there. Fails with `InvalidHandle`, and
    /// changes nothing, for a ticket that does not hold the writer's permit.
    pub fn write(&mut self, ticket: u64, data: Vec<T>) -> (r: Result<Vec<T>, Error>)
        ensures
            match r {
                Ok(previous) => {
                    &&& old(self)@.lock.holds_write(ticket)
                    &&& previous@ == old(self)@.data
                    &&& final(self)@ == (RwVecView { data: data@, ..old(self)@ })
                },
                Err(e) => {
                    &&& !old(self)@.lock.holds_write(ticket)
                    &&& e@ == ErrorView::InvalidHandle
                    &&& final(self)@ == old(self)@
                },
            },
    {
        if self.holds_write(ticket) {
            let mut data = data;
            core::mem::swap(&mut self.data, &mut data);
            Ok(data)
        } else {
            Err(Error::InvalidHandle)
        }
    }
}

} // verus!
