use vstd::prelude::*;

use crate::error::{kind_is_fatal, FailureKind};

verus! {

/// Where the one logical connection of a client stands. A connect attempt and
/// the transport it produced share a number, so that late news about an older
/// attempt or transport can be told apart from news about the current one.
#[derive(Clone, Copy, Debug, PartialEq, Eq, Structural)]
pub enum ClientState {
    Disconnected,
    /// Attempt number `n` is under way.
    Connecting(u64),
    /// The transport made by attempt number `n` is in use.
    Connected(u64),
}

/// What a caller that asks for the transport has to do.
#[derive(Clone, Copy, Debug, PartialEq, Eq, Structural)]
pub enum Acquire {
    /// Start connect attempt `n`; nobody else will.
    StartConnect(u64),
    /// Attempt `n` is under way: wait for its outcome.
    Wait(u64),
    /// Use the transport of attempt `n`.
    Ready(u64),
}

/// The state machine that all callers of one client share, behind one lock.
#[derive(Clone, Copy, Debug)]
pub struct ConnectionState {
    state: ClientState,
    next_attempt: u64,
}

/// What a connection state machine holds.
pub struct ConnModel {
    pub state: ClientState,
    pub next_attempt: u64,
}

impl View for ConnectionState {
    type V = ConnModel;

    closed spec fn view(&self) -> ConnModel {
        ConnModel { state: self.state, next_attempt: self.next_attempt }
    }
}

/// The attempt number after `n`.
pub open spec fn next_id(n: u64) -> u64 {
    if n == u64::MAX {
        0
    } else {
        (n + 1) as u64
    }
}

/// A caller asks for the transport: the first one to find the connection down
/// starts an attempt, later ones wait for it, and once connected every caller
/// gets the same transport.
pub open spec fn acquire_step(m: ConnModel) -> (ConnModel, Acquire) {
    match m.state {
        ClientState::Disconnected => (
            ConnModel {
                state: ClientState::Connecting(m.next_attempt),
                next_attempt: next_id(m.next_attempt),
            },
            Acquire::StartConnect(m.next_attempt),
        ),
        ClientState::Connecting(a) => (m, Acquire::Wait(a)),
        ClientState::Connected(g) => (m, Acquire::Ready(g)),
    }
}

/// Attempt `attempt` ended, well or not. News of an attempt that is no longer
/// the current one changes nothing.
pub open spec fn finish_connect_step(m: ConnModel, attempt: u64, ok: bool) -> ConnModel {
    if m.state == ClientState::Connecting(attempt) {
        ConnModel {
            state: if ok {
                ClientState::Connected(attempt)
            } else {
                ClientState::Disconnected
            },
            ..m
        }
    } else {
        m
    }
}

/// A caller saw a failure of kind `kind` on the transport of attempt
/// `generation`. Only a fatal kind on the transport in use brings the
/// connection down; a timeout or a failure on an older transport does not.
pub open spec fn failure_step(m: ConnModel, generation: u64, kind: FailureKind) -> ConnModel {
    if kind_is_fatal(kind) && m.state == ClientState::Connected(generation) {
        ConnModel { state: ClientState::Disconnected, ..m }
    } else {
        m
    }
}

/// `n` callers ask for the transport one after another, with nothing else
/// happening in between: the state afterwards and what each caller was told.
pub open spec fn acquire_many(m: ConnModel, n: nat) -> (ConnModel, Seq<Acquire>)
    decreases n,
{
    if n == 0 {
        (m, Seq::empty())
    } else {
        let (m1, a) = acquire_step(m);
        let (m2, rest) = acquire_many(m1, (n - 1) as nat);
        (m2, seq![a] + rest)
    }
}

impl ConnectionState {
    /// A fresh client: disconnected, no attempt made yet.
    pub fn new() -> (r: ConnectionState)
        ensures
            r@ == (ConnModel { state: ClientState::Disconnected, next_attempt: 0 }),
    {
        ConnectionState { state: ClientState::Disconnected, next_attempt: 0 }
    }

    pub fn state(&self) -> (r: ClientState)
        ensures
            r == self@.state,
    {
        self.state
    }

    /// A caller asks for the transport.
    pub fn acquire(&mut self) -> (r: Acquire)
        ensures
            (final(self)@, r) == acquire_step(old(self)@),
    {
        match self.state {
            ClientState::Disconnected => {
                let n = self.next_attempt;
                self.state = ClientState::Connecting(n);
                self.next_attempt = if n == u64::MAX {
                    0
                } else {
                    n + 1
                };
                Acquire::StartConnect(n)
            },
            ClientState::Connecting(a) => Acquire::Wait(a),
            ClientState::Connected(g) => Acquire::Ready(g),
        }
    }

    /// Connect attempt `attempt` ended; `ok` tells whether it made a transport.
    pub fn finish_connect(&mut self, attempt: u64, ok: bool)
        ensures
            final(self)@ == finish_connect_step(old(self)@, attempt, ok),
    {
        if self.state == ClientState::Connecting(attempt) {
            self.state = if ok {
                ClientState::Connected(attempt)
            } else {
                ClientState::Disconnected
            };
        }
    }

    /// A caller saw a failure of kind `kind` on the transport of attempt
    /// `generation`.
    pub fn report_failure(&mut self, generation: u64, kind: FailureKind)
        ensures
            final(self)@ == failure_step(old(self)@, generation, kind),
    {
        if kind.is_fatal() && self.state == ClientState::Connected(generation) {
            self.state = ClientState::Disconnected;
        }
    }
}

/// The connection state machine together with what it stands for: the
/// transport of the current attempt while connected, and the pending connect
/// that callers wait on while connecting. Kept in step with the state, so that
/// a caller told `Ready` or `Wait` always finds what it needs.
pub struct ConnectionSlot<T, P> {
    machine: ConnectionState,
    transport: Option<T>,
    pending: Option<P>,
}

/// What a connection slot holds.
pub struct SlotModel<T, P> {
    pub conn: ConnModel,
    pub transport: Option<T>,
    pub pending: Option<P>,
}

impl<T, P> View for ConnectionSlot<T, P> {
    type V = SlotModel<T, P>;

    closed spec fn view(&self) -> SlotModel<T, P> {
        SlotModel { conn: self.machine@, transport: self.transport, pending: self.pending }
    }
}

/// A transport is held exactly while connected, and a pending connect exactly
/// while connecting.
pub open spec fn slot_wf<T, P>(s: SlotModel<T, P>) -> bool {
    &&& (s.conn.state is Connected <==> s.transport is Some)
    &&& (s.conn.state is Connecting <==> s.pending is Some)
}

/// A caller asks for the transport and offers `fresh`, a connect not yet
/// started, which is kept as the pending connect if this caller is the one to
/// start an attempt.
pub open spec fn slot_acquire_step<T, P>(s: SlotModel<T, P>, fresh: P) -> (SlotModel<T, P>, Acquire) {
    let (conn, told) = acquire_step(s.conn);
    (
        SlotModel {
            conn,
            transport: s.transport,
            pending: if told is StartConnect {
                Some(fresh)
            } else {
                s.pending
            },
        },
        told,
    )
}

/// Attempt `attempt` ended with `made`, the transport it made if any. If it
/// is the current attempt, its transport is kept and the pending connect let
/// go; otherwise nothing changes.
pub open spec fn slot_finish_step<T, P>(s: SlotModel<T, P>, attempt: u64, made: Option<T>) -> SlotModel<
    T,
    P,
> {
    if s.conn.state == ClientState::Connecting(attempt) {
        SlotModel {
            conn: finish_connect_step(s.conn, attempt, made is Some),
            transport: made,
            pending: None,
        }
    } else {
        s
    }
}

/// A failure seen on the transport of attempt `generation`: if it brings the
/// connection down, the transport is let go.
pub open spec fn slot_failure_step<T, P>(
    s: SlotModel<T, P>,
    generation: u64,
    kind: FailureKind,
) -> SlotModel<T, P> {
    let conn = failure_step(s.conn, generation, kind);
    SlotModel {
        conn,
        transport: if conn.state is Disconnected {
            None
        } else {
            s.transport
        },
        pending: s.pending,
    }
}

impl<T, P> ConnectionSlot<T, P> {
    /// A fresh client: disconnected, no attempt made yet, nothing held.
    pub fn new() -> (r: ConnectionSlot<T, P>)
        ensures
            r@.conn == (ConnModel { state: ClientState::Disconnected, next_attempt: 0 }),
            r@.transport is None,
            r@.pending is None,
            slot_wf(r@),
    {
        ConnectionSlot { machine: ConnectionState::new(), transport: None, pending: None }
    }

    pub fn state(&self) -> (r: ClientState)
        ensures
            r == self@.conn.state,
    {
        self.machine.state()
    }

    /// A caller asks for the transport, offering a connect that is used only
    /// if this caller is the one to start an attempt.
    pub fn acquire(&mut self, fresh: P) -> (r: Acquire)
        requires
            slot_wf(old(self)@),
        ensures
            (final(self)@, r) == slot_acquire_step(old(self)@, fresh),
            slot_wf(final(self)@),
    {
        let told = self.machine.acquire();
        if let Acquire::StartConnect(_) = told {
            self.pending = Some(fresh);
        }
        told
    }

    /// The transport in use, if connected.
    pub fn current(&self) -> (r: Option<&T>)
        requires
            slot_wf(self@),
        ensures
            match r {
                Some(t) => self@.transport == Some(*t),
                None => self@.transport is None,
            },
            r is Some <==> self@.conn.state is Connected,
    {
        match &self.transport {
            Some(t) => Some(t),
            None => None,
        }
    }

    /// The connect under way, if connecting.
    pub fn pending(&self) -> (r: Option<&P>)
        requires
            slot_wf(self@),
        ensures
            match r {
                Some(p) => self@.pending == Some(*p),
                None => self@.pending is None,
            },
            r is Some <==> self@.conn.state is Connecting,
    {
        match &self.pending {
            Some(p) => Some(p),
            None => None,
        }
    }

    /// Connect attempt `attempt` ended with `made`, the transport it made if
    /// any.
    pub fn finish_connect(&mut self, attempt: u64, made: Option<T>)
        requires
            slot_wf(old(self)@),
        ensures
            final(self)@ == slot_finish_step(old(self)@, attempt, made),
            slot_wf(final(self)@),
    {
        if self.machine.state() == ClientState::Connecting(attempt) {
            let ok = made.is_some();
            self.machine.finish_connect(attempt, ok);
            self.transport = made;
            self.pending = None;
        }
    }

    /// A caller saw a failure of kind `kind` on the transport of attempt
    /// `generation`.
    pub fn report_failure(&mut self, generation: u64, kind: FailureKind)
        requires
            slot_wf(old(self)@),
        ensures
            final(self)@ == slot_failure_step(old(self)@, generation, kind),
            slot_wf(final(self)@),
    {
        self.machine.report_failure(generation, kind);
        if let ClientState::Disconnected = self.machine.state() {
            self.transport = None;
        }
    }
}

/// While an attempt is under way or a transport is in use, asking for the
/// transport changes nothing and every caller is told the same.
proof fn lemma_acquire_stable(m: ConnModel, n: nat)
    requires
        !(m.state is Disconnected),
    ensures
        acquire_many(m, n).0 == m,
        acquire_many(m, n).1.len() == n,
        forall|i: int| 0 <= i < n ==> #[trigger] acquire_many(m, n).1[i] == acquire_step(m).1,
    decreases n,
{
    if n > 0 {
        lemma_acquire_stable(m, (n - 1) as nat);
        let rest = acquire_many(m, (n - 1) as nat).1;
        assert forall|i: int| 0 <= i < n implies #[trigger] acquire_many(m, n).1[i] == acquire_step(
            m,
        ).1 by {
            if i > 0 {
                assert(acquire_many(m, n).1[i] == rest[i - 1]);
            }
        }
    }
}

/// However many callers ask a disconnected client for the transport before a
/// connect attempt ends, exactly one of them, the first, starts the attempt
/// and all others wait for that same attempt. Once it succeeds, every later
/// caller is handed the transport it made.
pub proof fn lemma_single_connect(m: ConnModel, callers: nat, later: nat)
    requires
        m.state == ClientState::Disconnected,
        callers >= 1,
    ensures
        ({
            let a = m.next_attempt;
            let (m1, told) = acquire_many(m, callers);
            let (m2, told_later) = acquire_many(finish_connect_step(m1, a, true), later);
            &&& told.len() == callers
            &&& told[0] == Acquire::StartConnect(a)
            &&& forall|i: int| 1 <= i < callers ==> #[trigger] told[i] == Acquire::Wait(a)
            &&& m1.state == ClientState::Connecting(a)
            &&& told_later.len() == later
            &&& forall|i: int| 0 <= i < later ==> #[trigger] told_later[i] == Acquire::Ready(a)
        }),
{
    let a = m.next_attempt;
    let (s1, first) = acquire_step(m);
    lemma_acquire_stable(s1, (callers - 1) as nat);
    let (m1, told) = acquire_many(m, callers);
    assert(m1 == s1);
    assert forall|i: int| 1 <= i < callers implies #[trigger] told[i] == Acquire::Wait(a) by {
        assert(told[i] == acquire_many(s1, (callers - 1) as nat).1[i - 1]);
    }
    lemma_acquire_stable(finish_connect_step(m1, a, true), later);
}

/// Once the attempt that callers share makes a transport, the slot holds that
/// transport, and every later caller is told to use it.
pub proof fn lemma_slot_serves_made_transport<T, P>(s: SlotModel<T, P>, attempt: u64, made: T, fresh: P)
    requires
        slot_wf(s),
        s.conn.state == ClientState::Connecting(attempt),
    ensures
        ({
            let after = slot_finish_step(s, attempt, Some(made));
            &&& slot_wf(after)
            &&& after.transport == Some(made)
            &&& slot_acquire_step(after, fresh) == (after, Acquire::Ready(attempt))
        }),
{
}

} // verus!
