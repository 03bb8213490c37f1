//! What holds of whole exchanges and of a manager's two roles.
use vstd::prelude::*;
use crate::connection_manager::{
    accept_answer, accepted_answer, client_view, connection_answer, listener_answer, roleless_view, server_view,
};
use crate::errors::TackboardError;
use crate::exchange::{expects, spec_step, Action, Event, Exchange, Mode, Phase, StopReason};
use crate::types::ServerResponse;

verus! {

/// A frame as the connection yields it: `None` once it has closed.
pub type Frame = Option<Result<ServerResponse, std::io::Error>>;

/// The actions of an exchange fed `events` in order, as long as it waits for them,
/// with the state it ends in.
pub open spec fn run(x: Exchange, events: Seq<Event>) -> (Exchange, Seq<Action>)
    decreases events.len(),
{
    if events.len() == 0 || !expects(x, events[0]) {
        (x, Seq::empty())
    } else {
        let (y, a) = spec_step(x, events[0]);
        let (z, rest) = run(y, events.drop_first());
        (z, seq![a] + rest)
    }
}

/// The replies among `actions` that are handed on, in order.
pub open spec fn delivered(actions: Seq<Action>) -> Seq<ServerResponse>
    decreases actions.len(),
{
    if actions.len() == 0 {
        Seq::empty()
    } else {
        let rest = delivered(actions.drop_first());
        match actions[0] {
            Action::Deliver(r) => seq![r] + rest,
            _ => rest,
        }
    }
}

/// The replies that the connection yields before its first failure or its end.
pub open spec fn ok_prefix(frames: Seq<Frame>) -> Seq<ServerResponse>
    decreases frames.len(),
{
    if frames.len() == 0 {
        Seq::empty()
    } else {
        match frames[0] {
            Some(Ok(r)) => seq![r] + ok_prefix(frames.drop_first()),
            _ => Seq::empty(),
        }
    }
}

/// The frames, reported one by one.
pub open spec fn receptions(frames: Seq<Frame>) -> Seq<Event> {
    Seq::new(frames.len(), |i: int| Event::Received(frames[i]))
}

/// The answer to a request sent once: the send's failure as a network error, the first
/// reply if it is one, and otherwise an invalid request.
pub open spec fn once_answer(sent: Result<(), std::io::Error>, reply: Frame) -> Result<ServerResponse, TackboardError> {
    match sent {
        Err(e) => Err(TackboardError::Io(e)),
        Ok(()) => match reply {
            Some(Ok(r)) => Ok(r),
            _ => Err(TackboardError::InvalidRequest),
        },
    }
}

proof fn lemma_stream_receiving(frames: Seq<Frame>)
    ensures
        delivered(run(Exchange { mode: Mode::Stream, phase: Phase::Receiving }, receptions(frames)).1)
            == ok_prefix(frames),
    decreases frames.len(),
{
    let x = Exchange { mode: Mode::Stream, phase: Phase::Receiving };
    let evs = receptions(frames);
    if frames.len() > 0 {
        assert(evs.drop_first() =~= receptions(frames.drop_first()));
        lemma_stream_receiving(frames.drop_first());
        let (y, a) = spec_step(x, evs[0]);
        let (z, rest) = run(y, evs.drop_first());
        let acts = seq![a] + rest;
        assert(acts.drop_first() =~= rest);
        match frames[0] {
            Some(Ok(r)) => {},
            _ => {
                assert(y.phase == Phase::Finished);
                assert(rest.len() == 0);
                assert(delivered(rest) =~= Seq::<ServerResponse>::empty());
            },
        }
    } else {
        assert(delivered(Seq::<Action>::empty()) =~= Seq::<ServerResponse>::empty());
    }
}

/// A streaming exchange whose request went out hands on exactly the replies that the
/// connection yields before its first failure or its end, in the order they came.
pub proof fn law_stream_delivers_replies_in_order(frames: Seq<Frame>)
    ensures
        delivered(run(Exchange { mode: Mode::Stream, phase: Phase::Sending },
            seq![Event::Sent(Ok(()))] + receptions(frames)).1) == ok_prefix(frames),
{
    let x = Exchange { mode: Mode::Stream, phase: Phase::Sending };
    let evs = seq![Event::Sent(Ok(()))] + receptions(frames);
    assert(evs.drop_first() =~= receptions(frames));
    lemma_stream_receiving(frames);
    let (y, a) = spec_step(x, evs[0]);
    let (z, rest) = run(y, evs.drop_first());
    assert((seq![a] + rest).drop_first() =~= rest);
}

proof fn lemma_stream_ends(frames: Seq<Frame>)
    ensures
        run(Exchange { mode: Mode::Stream, phase: Phase::Receiving }, receptions(frames)).0.phase
            == Phase::Finished
            <==> exists|i: int| 0 <= i < frames.len() && !(#[trigger] frames[i] matches Some(Ok(_))),
    decreases frames.len(),
{
    let x = Exchange { mode: Mode::Stream, phase: Phase::Receiving };
    let evs = receptions(frames);
    if frames.len() > 0 {
        assert(evs.drop_first() =~= receptions(frames.drop_first()));
        lemma_stream_ends(frames.drop_first());
        let tail = frames.drop_first();
        let (y, a) = spec_step(x, evs[0]);
        match frames[0] {
            Some(Ok(r)) => {
                assert(y == x);
                assert(run(x, evs).0 == run(x, evs.drop_first()).0);
                if exists|i: int| 0 <= i < frames.len() && !(#[trigger] frames[i] matches Some(Ok(_))) {
                    let i = choose|i: int| 0 <= i < frames.len() && !(#[trigger] frames[i] matches Some(Ok(_)));
                    assert(i > 0);
                    assert(tail[i - 1] == frames[i]);
                }
                if exists|i: int| 0 <= i < tail.len() && !(#[trigger] tail[i] matches Some(Ok(_))) {
                    let i = choose|i: int| 0 <= i < tail.len() && !(#[trigger] tail[i] matches Some(Ok(_)));
                    assert(frames[i + 1] == tail[i]);
                }
            },
            _ => {
                assert(y.phase == Phase::Finished);
                if evs.drop_first().len() > 0 {
                    assert(!expects(y, evs.drop_first()[0]));
                }
                assert(run(y, evs.drop_first()).0 == y);
                assert(run(x, evs).0 == y);
                assert(!(frames[0] matches Some(Ok(_))));
            },
        }
    }
}

/// A streaming exchange whose request went out ends exactly when the connection fails or
/// closes; while every frame is a reply it keeps reading.
pub proof fn law_stream_ends_at_first_failure(frames: Seq<Frame>)
    ensures
        run(Exchange { mode: Mode::Stream, phase: Phase::Sending },
            seq![Event::Sent(Ok(()))] + receptions(frames)).0.phase == Phase::Finished
            <==> exists|i: int| 0 <= i < frames.len() && !(#[trigger] frames[i] matches Some(Ok(_))),
{
    let evs = seq![Event::Sent(Ok(()))] + receptions(frames);
    assert(evs.drop_first() =~= receptions(frames));
    lemma_stream_ends(frames);
}

/// A streaming exchange whose request could not be sent stops at once, hands nothing on,
/// and reports the failure.
pub proof fn law_stream_send_failure(e: std::io::Error, later: Seq<Event>)
    ensures
        run(Exchange { mode: Mode::Stream, phase: Phase::Sending }, seq![Event::Sent(Err(e))] + later)
            == (Exchange { mode: Mode::Stream, phase: Phase::Finished },
                seq![Action::Stop(StopReason::SendFailed(e))]),
{
    let evs = seq![Event::Sent(Err(e))] + later;
    assert(evs.drop_first() =~= later);
    let y = Exchange { mode: Mode::Stream, phase: Phase::Finished };
    if later.len() > 0 {
        assert(!expects(y, later[0]));
    }
    assert(run(y, later).1 =~= Seq::<Action>::empty());
    assert(seq![Action::Stop(StopReason::SendFailed(e))] + Seq::<Action>::empty()
        =~= seq![Action::Stop(StopReason::SendFailed(e))]);
}

/// A request sent once ends after at most one reply, hands nothing on, and answers
/// `once_answer`: the reply itself exactly when the send succeeded and the first frame was
/// a reply.
pub proof fn law_once_answers_first_reply(sent: Result<(), std::io::Error>, reply: Frame, later: Seq<Event>)
    ensures
        ({
            let events = if sent is Ok { seq![Event::Sent(sent), Event::Received(reply)] + later } else {
                seq![Event::Sent(sent)] + later
            };
            let (end, actions) = run(Exchange { mode: Mode::Once, phase: Phase::Sending }, events);
            &&& end == (Exchange { mode: Mode::Once, phase: Phase::Finished })
            &&& actions.last() == Action::Return(once_answer(sent, reply))
            &&& delivered(actions).len() == 0
        }),
        (once_answer(sent, reply) is Ok) <==> (sent is Ok && reply matches Some(Ok(_))),
        once_answer(sent, reply) is Ok ==> reply == Some(
            Ok::<ServerResponse, std::io::Error>(once_answer(sent, reply)->Ok_0),
        ),
{
    let fin = Exchange { mode: Mode::Once, phase: Phase::Finished };
    let start = Exchange { mode: Mode::Once, phase: Phase::Sending };
    if later.len() > 0 {
        assert(!expects(fin, later[0]));
    }
    assert(run(fin, later).1 =~= Seq::<Action>::empty());
    let ans = Action::Return(once_answer(sent, reply));
    assert(delivered(Seq::<Action>::empty()) =~= Seq::<ServerResponse>::empty());
    assert(seq![ans].drop_first() =~= Seq::<Action>::empty());
    if sent is Ok {
        let events = seq![Event::Sent(sent), Event::Received(reply)] + later;
        let recv = Exchange { mode: Mode::Once, phase: Phase::Receiving };
        assert(events.drop_first() =~= seq![Event::Received(reply)] + later);
        assert((seq![Event::Received(reply)] + later).drop_first() =~= later);
        assert(run(recv, seq![Event::Received(reply)] + later).1 =~= seq![ans] + Seq::<Action>::empty());
        assert(seq![ans] + Seq::<Action>::empty() =~= seq![ans]);
        let acts = seq![Action::Receive] + seq![ans];
        assert(acts.drop_first() =~= seq![ans]);
        assert(delivered(seq![ans]) =~= Seq::<ServerResponse>::empty());
        assert(delivered(acts) =~= Seq::<ServerResponse>::empty());
        assert(run(start, events).1 =~= acts);
        assert(run(start, events).0 == fin);
    } else {
        let events = seq![Event::Sent(sent)] + later;
        assert(events.drop_first() =~= later);
        assert(seq![ans] + Seq::<Action>::empty() =~= seq![ans]);
        assert(run(start, events).1 =~= seq![ans]);
        assert(delivered(seq![ans]) =~= Seq::<ServerResponse>::empty());
        assert(run(start, events).0 == fin);
    }
}

/// A client manager sends on its durable connection and refuses to accept clients.
pub proof fn law_client_role<L, S, C>(path: Seq<char>, clients: S, conn: C)
    ensures
        connection_answer(client_view::<L, S, C>(path, clients, conn)) == Ok::<C, TackboardError>(conn),
        listener_answer(client_view::<L, S, C>(path, clients, conn))
            == Err::<L, TackboardError>(TackboardError::InvalidRequest),
        client_view::<L, S, C>(path, clients, conn).connection is Some,
{
}

/// A server manager accepts clients on its listener and refuses to send requests.
pub proof fn law_server_role<L, S, C>(path: Seq<char>, clients: S, listener: L)
    ensures
        listener_answer(server_view::<L, S, C>(path, clients, listener)) == Ok::<L, TackboardError>(listener),
        connection_answer(server_view::<L, S, C>(path, clients, listener))
            == Err::<C, TackboardError>(TackboardError::InvalidRequest),
        server_view::<L, S, C>(path, clients, listener).connection is None,
{
}

/// A manager without a role refuses both to send a request and to accept a client.
pub proof fn law_roleless_refuses<L, S, C>(path: Seq<char>, clients: S)
    ensures
        connection_answer(roleless_view::<L, S, C>(path, clients))
            == Err::<C, TackboardError>(TackboardError::InvalidRequest),
        listener_answer(roleless_view::<L, S, C>(path, clients))
            == Err::<L, TackboardError>(TackboardError::InvalidRequest),
{
}

/// Accepting takes the manager by shared reference, so its listener stays in it: every one of
/// any number of accepts on a server manager answers the client that the listener handed over,
/// unchanged, or the network error that stopped it. Which pending client each accept takes is
/// the listener's own business.
pub proof fn law_server_accepts_every_client<L, S, C, T>(
    path: Seq<char>,
    clients: S,
    listener: L,
    accepted: Seq<Result<T, std::io::Error>>,
)
    ensures
        forall|i: int| 0 <= i < accepted.len() ==>
            accept_answer(server_view::<L, S, C>(path, clients, listener), #[trigger] accepted[i])
                == accepted_answer(accepted[i]),
        forall|i: int| 0 <= i < accepted.len() && accepted[i] is Ok ==>
            accept_answer(server_view::<L, S, C>(path, clients, listener), #[trigger] accepted[i])
                == Ok::<T, TackboardError>(accepted[i]->Ok_0),
{
}

/// A manager without a listener refuses every accept, whatever the network would have done.
pub proof fn law_no_listener_refuses_every_accept<L, S, C, T>(
    v: crate::connection_manager::ManagerView<L, S, C>,
    accepted: Seq<Result<T, std::io::Error>>,
)
    requires
        v.listener is None,
    ensures
        forall|i: int| 0 <= i < accepted.len() ==>
            accept_answer(v, #[trigger] accepted[i]) == Err::<T, TackboardError>(TackboardError::InvalidRequest),
{
}

} // verus!
