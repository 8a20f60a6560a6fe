use vstd::prelude::*;

use crate::error::{failure_kind, kind_is_fatal, FailureKind, RiemannClientError};
use crate::event::{opt_text, Event, Msg, Query};
use crate::options::{OptionsModel, RiemannClientOptions};
use crate::state::{
    slot_acquire_step, slot_failure_step, slot_wf, Acquire, ClientState, ConnectionSlot, SlotModel,
};

verus! {

/// The byte channel a client uses.
#[derive(Clone, Copy, Debug, PartialEq, Eq, Structural)]
pub enum TransportKind {
    /// Length-prefixed frames on TCP; one reply per frame.
    Plain,
    /// Length-prefixed frames on TLS over TCP; one reply per frame.
    Tls,
    /// One message per datagram; the server never replies.
    Udp,
}

/// TLS wins over UDP; without either the channel is plain TCP.
pub open spec fn kind_for(o: OptionsModel) -> TransportKind {
    if o.use_tls {
        TransportKind::Tls
    } else if o.use_udp {
        TransportKind::Udp
    } else {
        TransportKind::Plain
    }
}

/// The transport that a set of options asks for.
pub fn transport_kind(options: &RiemannClientOptions) -> (r: TransportKind)
    ensures
        r == kind_for(options@),
{
    if *options.use_tls() {
        TransportKind::Tls
    } else if *options.use_udp() {
        TransportKind::Udp
    } else {
        TransportKind::Plain
    }
}

/// The server accepted the request.
pub open spec fn reply_accepted(reply: Msg) -> bool {
    reply.ok == Some(true)
}

/// The server's error text; empty when it sent none.
pub open spec fn reply_error_text(reply: Msg) -> Seq<char> {
    match opt_text(reply.error) {
        Some(t) => t,
        None => Seq::empty(),
    }
}

/// `e` is a protocol error that carries `text`.
pub open spec fn is_protocol_error(e: RiemannClientError, text: Seq<char>) -> bool {
    match e {
        RiemannClientError::RiemannError(t) => t@ == text,
        _ => false,
    }
}

/// The message that carries a batch of events.
pub fn events_request(events: Vec<Event>) -> (r: Msg)
    ensures
        r.events == events,
        r.ok is None,
        r.error is None,
        r.query is None,
{
    Msg { ok: None, error: None, events, query: None }
}

/// The message that carries a query.
pub fn query_request(query_string: &str) -> (r: Msg)
    ensures
        r.events@.len() == 0,
        r.ok is None,
        r.error is None,
        r.query is Some,
        opt_text(r.query->Some_0.string) == Some(query_string@),
{
    Msg {
        ok: None,
        error: None,
        events: Vec::new(),
        query: Some(Query { string: Some(query_string.to_owned()) }),
    }
}

fn protocol_error(reply_error: Option<String>) -> (r: RiemannClientError)
    ensures
        is_protocol_error(
            r,
            match opt_text(reply_error) {
                Some(t) => t,
                None => Seq::empty(),
            },
        ),
{
    match reply_error {
        Some(text) => RiemannClientError::RiemannError(text),
        None => RiemannClientError::RiemannError(String::new()),
    }
}

/// What the reply to a batch of events means: success exactly when the
/// server set `ok`, else a protocol error with the server's text.
pub fn events_result(reply: Msg) -> (r: Result<(), RiemannClientError>)
    ensures
        r is Ok <==> reply_accepted(reply),
        r is Err ==> is_protocol_error(r->Err_0, reply_error_text(reply)),
{
    if matches!(reply.ok, Some(true)) {
        Ok(())
    } else {
        Err(protocol_error(reply.error))
    }
}

/// What the reply to a query means: the events it carries when the server
/// set `ok`, else a protocol error with the server's text.
pub fn query_result(reply: Msg) -> (r: Result<Vec<Event>, RiemannClientError>)
    ensures
        reply_accepted(reply) ==> r == Ok::<Vec<Event>, RiemannClientError>(reply.events),
        !reply_accepted(reply) ==> r is Err && is_protocol_error(
            r->Err_0,
            reply_error_text(reply),
        ),
{
    if matches!(reply.ok, Some(true)) {
        Ok(reply.events)
    } else {
        Err(protocol_error(reply.error))
    }
}

/// Queries need a reply, so they are refused on UDP before anything is sent.
pub fn check_query(kind: TransportKind) -> (r: Result<(), RiemannClientError>)
    ensures
        r is Err <==> kind == TransportKind::Udp,
        r is Err ==> failure_kind(r->Err_0) == Some(FailureKind::Unsupported),
{
    match kind {
        TransportKind::Udp => Err(
            RiemannClientError::IoError(FailureKind::Unsupported, "Unsupported.".to_owned()),
        ),
        _ => Ok(()),
    }
}

/// How the outcome of an exchange on the transport of attempt `generation`
/// moves the connection: a failure counts, a reply does not.
pub open spec fn outcome_step<T, P, R>(
    s: SlotModel<T, P>,
    generation: u64,
    outcome: Result<R, RiemannClientError>,
) -> SlotModel<T, P> {
    match outcome {
        Ok(_) => s,
        Err(e) => match failure_kind(e) {
            Some(k) => slot_failure_step(s, generation, k),
            None => s,
        },
    }
}

fn note_outcome<T, P, R>(
    slot: &mut ConnectionSlot<T, P>,
    generation: u64,
    outcome: &Result<R, RiemannClientError>,
)
    requires
        slot_wf(old(slot)@),
    ensures
        final(slot)@ == outcome_step(old(slot)@, generation, *outcome),
        slot_wf(final(slot)@),
{
    match outcome {
        Ok(_) => {},
        Err(e) => match e.kind() {
            Some(k) => slot.report_failure(generation, k),
            None => {},
        },
    }
}

/// Ends a call that sent events on the transport of attempt `generation` and
/// waited for `outcome`. A transport failure goes back to the caller as it
/// is, and a fatal one brings the connection down; a reply is judged by
/// [`events_result`] and leaves the connection as it is.
pub fn finish_events<T, P>(
    slot: &mut ConnectionSlot<T, P>,
    generation: u64,
    outcome: Result<Msg, RiemannClientError>,
) -> (r: Result<(), RiemannClientError>)
    requires
        slot_wf(old(slot)@),
    ensures
        final(slot)@ == outcome_step(old(slot)@, generation, outcome),
        slot_wf(final(slot)@),
        match outcome {
            Ok(reply) => {
                &&& (r is Ok <==> reply_accepted(reply))
                &&& (r is Err ==> is_protocol_error(r->Err_0, reply_error_text(reply)))
            },
            Err(e) => r == Err::<(), RiemannClientError>(e),
        },
{
    note_outcome(slot, generation, &outcome);
    match outcome {
        Ok(reply) => events_result(reply),
        Err(e) => Err(e),
    }
}

/// Ends a call that sent a datagram on the transport of attempt `generation`.
/// No reply is awaited: a datagram handed to the socket is a success, and
/// the connection stays as it is.
pub fn finish_datagram<T, P>(
    slot: &mut ConnectionSlot<T, P>,
    generation: u64,
    sent: Result<(), RiemannClientError>,
) -> (r: Result<(), RiemannClientError>)
    requires
        slot_wf(old(slot)@),
    ensures
        final(slot)@ == outcome_step(old(slot)@, generation, sent),
        slot_wf(final(slot)@),
        r == sent,
{
    note_outcome(slot, generation, &sent);
    sent
}

/// Ends a query on the transport of attempt `generation` that waited for
/// `outcome`, as [`finish_events`] does, with the events of an accepted reply
/// as the result.
pub fn finish_query<T, P>(
    slot: &mut ConnectionSlot<T, P>,
    generation: u64,
    outcome: Result<Msg, RiemannClientError>,
) -> (r: Result<Vec<Event>, RiemannClientError>)
    requires
        slot_wf(old(slot)@),
    ensures
        final(slot)@ == outcome_step(old(slot)@, generation, outcome),
        slot_wf(final(slot)@),
        match outcome {
            Ok(reply) => {
                &&& (reply_accepted(reply) ==> r == Ok::<Vec<Event>, RiemannClientError>(
                    reply.events,
                ))
                &&& (!reply_accepted(reply) ==> r is Err && is_protocol_error(
                    r->Err_0,
                    reply_error_text(reply),
                ))
            },
            Err(e) => r == Err::<Vec<Event>, RiemannClientError>(e),
        },
{
    note_outcome(slot, generation, &outcome);
    match outcome {
        Ok(reply) => query_result(reply),
        Err(e) => Err(e),
    }
}

/// After an exchange on the transport in use fails with an I/O or codec
/// failure, the connection is down, its transport let go, and the next caller
/// to ask for the transport starts a new connect attempt.
pub proof fn lemma_failed_exchange_reconnects<T, P>(
    s: SlotModel<T, P>,
    generation: u64,
    e: RiemannClientError,
    fresh: P,
)
    requires
        slot_wf(s),
        s.conn.state == ClientState::Connected(generation),
        failure_kind(e) matches Some(k) && kind_is_fatal(k),
    ensures
        ({
            let after = outcome_step(s, generation, Err::<Msg, RiemannClientError>(e));
            &&& after.conn.state == ClientState::Disconnected
            &&& after.transport is None
            &&& slot_wf(after)
            &&& slot_acquire_step(after, fresh).1 == Acquire::StartConnect(s.conn.next_attempt)
        }),
{
}

/// An exchange whose reply wait timed out leaves the transport in use: the
/// next caller is handed the same transport, with no new connect attempt.
pub proof fn lemma_timeout_keeps_connection<T, P>(
    s: SlotModel<T, P>,
    generation: u64,
    e: RiemannClientError,
    fresh: P,
)
    requires
        slot_wf(s),
        s.conn.state == ClientState::Connected(generation),
        failure_kind(e) == Some(FailureKind::Timeout),
    ensures
        outcome_step(s, generation, Err::<Msg, RiemannClientError>(e)) == s,
        slot_acquire_step(s, fresh) == (s, Acquire::Ready(generation)),
{
}

} // verus!
