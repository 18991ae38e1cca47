//! What holds of the gateway whatever happens to it.

use crate::api::gateway::data::{ready_of, ready_state, GatewayMessageView};
use crate::api::gateway::heartbeat::{stale, ticked, HeartbeatStepView, HeartbeatTask};
use crate::api::gateway::{
    connection_lost, dispatched, frame_processed, fresh, later, processed, received, resumable,
    resume_begun, resume_connected, resume_failed, shut_down, ActionView, Closure,
    GatewayEventView, GatewayState, GatewayView, IncomingView, ProtocolError,
};
use crate::json::{parsed, JsonValue};
use vstd::prelude::*;

verus! {

/// Something that happens to a gateway.
pub ghost enum Happening {
    /// A frame arrived.
    Frame(GatewayMessageView),
    /// Text arrived that is no frame.
    Garbage,
    /// The connection was lost.
    Lost(Closure),
    /// The client closed the gateway.
    Close,
    /// A resume was begun.
    Resume,
    /// The socket of a resume was opened.
    ResumeConnected,
    /// The socket of a resume could not be opened.
    ResumeFailed,
}

/// The actions of an outcome; none where the outcome is an error.
pub open spec fn actions_of<E>(outcome: Result<Seq<ActionView>, E>) -> Seq<ActionView> {
    match outcome {
        Ok(actions) => actions,
        Err(_) => Seq::empty(),
    }
}

/// The gateway and the actions after one happening.
pub open spec fn after(pre: GatewayView, happening: Happening) -> (GatewayView, Seq<ActionView>) {
    match happening {
        Happening::Frame(frame) => (
            frame_processed(pre, frame).0,
            actions_of(frame_processed(pre, frame).1),
        ),
        Happening::Garbage => (processed(pre, None).0, actions_of(processed(pre, None).1)),
        Happening::Lost(closure) => connection_lost(pre, closure),
        Happening::Close => shut_down(pre, false),
        Happening::Resume => (resume_begun(pre).0, actions_of(resume_begun(pre).1)),
        Happening::ResumeConnected => (
            resume_connected(pre).0,
            actions_of(resume_connected(pre).1),
        ),
        Happening::ResumeFailed => (resume_failed(pre), Seq::empty()),
    }
}

/// The gateway after a course of happenings, and all the actions in their order.
pub open spec fn after_all(pre: GatewayView, course: Seq<Happening>) -> (
    GatewayView,
    Seq<ActionView>,
)
    decreases course.len(),
{
    if course.len() == 0 {
        (pre, Seq::empty())
    } else {
        let before = after_all(pre, course.drop_last());
        let last = after(before.0, course.last());
        (last.0, before.1 + last.1)
    }
}

/// How many of the actions answer a connect.
pub open spec fn answers(actions: Seq<ActionView>) -> nat
    decreases actions.len(),
{
    if actions.len() == 0 {
        0
    } else {
        answers(actions.drop_last()) + if actions.last() is Ready || actions.last() is Fail {
            1nat
        } else {
            0nat
        }
    }
}

/// How many of the actions tell the consumer that a reconnect is needed.
pub open spec fn reconnect_notices(actions: Seq<ActionView>) -> nat
    decreases actions.len(),
{
    if actions.len() == 0 {
        0
    } else {
        reconnect_notices(actions.drop_last()) + if actions.last() == ActionView::Emit(
            GatewayEventView::ReconnectNeeded,
        ) {
            1nat
        } else {
            0nat
        }
    }
}

/// How many of the actions send a close frame.
pub open spec fn close_frames(actions: Seq<ActionView>) -> nat
    decreases actions.len(),
{
    if actions.len() == 0 {
        0
    } else {
        close_frames(actions.drop_last()) + if actions.last() is SendClose {
            1nat
        } else {
            0nat
        }
    }
}

/// The highest sequence number among `start` and the dispatches of `frames`.
pub open spec fn highest_sequence(start: u32, frames: Seq<GatewayMessageView>) -> u32
    decreases frames.len(),
{
    if frames.len() == 0 {
        start
    } else {
        let before = highest_sequence(start, frames.drop_last());
        match frames.last().sequence {
            Some(s) if frames.last().op == 0 => later(before, s),
            _ => before,
        }
    }
}

/// The gateway after a series of frames.
pub open spec fn after_frames(pre: GatewayView, frames: Seq<GatewayMessageView>) -> GatewayView
    decreases frames.len(),
{
    if frames.len() == 0 {
        pre
    } else {
        frame_processed(after_frames(pre, frames.drop_last()), frames.last()).0
    }
}

proof fn lemma_answers_of_sum(a: Seq<ActionView>, b: Seq<ActionView>)
    ensures
        answers(a + b) == answers(a) + answers(b),
    decreases b.len(),
{
    if b.len() == 0 {
        assert(a + b == a);
    } else {
        lemma_answers_of_sum(a, b.drop_last());
        assert((a + b).drop_last() == a + b.drop_last());
        assert((a + b).last() == b.last());
    }
}

proof fn lemma_answers_of_push(actions: Seq<ActionView>, a: ActionView)
    ensures
        answers(actions.push(a)) == answers(actions) + if a is Ready || a is Fail {
            1nat
        } else {
            0nat
        },
        close_frames(actions.push(a)) == close_frames(actions) + if a is SendClose {
            1nat
        } else {
            0nat
        },
{
    assert(actions.push(a).drop_last() == actions);
}

proof fn lemma_answers_of_one(a: ActionView)
    ensures
        answers(seq![a]) == if a is Ready || a is Fail {
            1nat
        } else {
            0nat
        },
        close_frames(seq![a]) == if a is SendClose {
            1nat
        } else {
            0nat
        },
{
    lemma_answers_of_push(Seq::empty(), a);
    assert(Seq::<ActionView>::empty().push(a) == seq![a]);
}

proof fn lemma_shut_down_counts(pre: GatewayView, notify: bool)
    ensures
        answers(shut_down(pre, notify).1) == if pre.ready_pending {
            1nat
        } else {
            0nat
        },
        close_frames(shut_down(pre, notify).1) == if pre.state == GatewayState::Closed {
            0nat
        } else {
            1nat
        },
{
    let closing = if pre.state == GatewayState::Closed {
        Seq::<ActionView>::empty()
    } else {
        seq![ActionView::SendClose]
    };
    lemma_answers_of_one(ActionView::SendClose);
    let notifying = if notify {
        closing.push(ActionView::Emit(GatewayEventView::ReconnectNeeded))
    } else {
        closing
    };
    lemma_answers_of_push(closing, ActionView::Emit(GatewayEventView::ReconnectNeeded));
    let released = if pre.state == GatewayState::Closed {
        notifying
    } else {
        notifying.push(ActionView::CloseEvents)
    };
    lemma_answers_of_push(notifying, ActionView::CloseEvents);
    lemma_answers_of_push(
        released,
        ActionView::Fail(crate::api::gateway::ConnectError::SessionClosed),
    );
}

/// One happening answers the connect at most once, exactly when the answer was
/// pending before and is not pending after; and an answer that was given is never
/// pending again.
pub proof fn law_one_answer_at_a_time(pre: GatewayView, happening: Happening)
    ensures
        answers(after(pre, happening).1) == if pre.ready_pending && !after(
            pre,
            happening,
        ).0.ready_pending {
            1nat
        } else {
            0nat
        },
        !pre.ready_pending ==> !after(pre, happening).0.ready_pending,
{
    lemma_shut_down_counts(pre, true);
    lemma_shut_down_counts(pre, false);
    let actions = after(pre, happening).1;
    if actions.len() == 1 {
        lemma_answers_of_one(actions[0]);
        assert(actions == seq![actions[0]]);
    }
}

/// From a connect on, whatever happens: the connect has been answered exactly once
/// as soon as its answer is no longer pending, and not at all before.
pub proof fn law_exactly_one_answer(token: Seq<char>, course: Seq<Happening>)
    ensures
        answers(after_all(fresh(token), course).1) == if after_all(
            fresh(token),
            course,
        ).0.ready_pending {
            0nat
        } else {
            1nat
        },
    decreases course.len(),
{
    if course.len() > 0 {
        law_exactly_one_answer(token, course.drop_last());
        let before = after_all(fresh(token), course.drop_last());
        law_one_answer_at_a_time(before.0, course.last());
        lemma_answers_of_sum(before.1, after(before.0, course.last()).1);
    }
}

/// What holds of every gateway from its connect on: the answer of the connect is
/// pending exactly while the gateway is connecting; a connecting gateway has no
/// session stored; an open or resuming gateway has one.
pub open spec fn consistent(gateway: GatewayView) -> bool {
    &&& gateway.ready_pending <==> gateway.state == GatewayState::Connecting
    &&& gateway.state == GatewayState::Connecting ==> gateway.session_id is None
        && gateway.resume_url is None
    &&& gateway.state == GatewayState::Open || gateway.state == GatewayState::Resuming
        ==> gateway.session_id is Some && gateway.resume_url is Some
}

/// A gateway is consistent as its connect leaves it, and stays so whatever happens.
pub proof fn law_consistency_is_kept(token: Seq<char>, pre: GatewayView, happening: Happening)
    ensures
        consistent(fresh(token)),
        consistent(pre) ==> consistent(after(pre, happening).0),
{
}

/// From a connect on, whatever happens, the gateway is consistent.
pub proof fn law_consistent_from_connect(token: Seq<char>, course: Seq<Happening>)
    ensures
        consistent(after_all(fresh(token), course).0),
    decreases course.len(),
{
    if course.len() > 0 {
        law_consistent_from_connect(token, course.drop_last());
        law_consistency_is_kept(
            token,
            after_all(fresh(token), course.drop_last()).0,
            course.last(),
        );
    }
}

/// A `READY` that can be read, on any gateway: it is refused only where a session
/// is stored already, never for want of a waiting connect. On a gateway that is not
/// closed and has no session stored it leaves no connect waiting, and delivers the
/// session's first state exactly where a connect was waiting.
pub proof fn law_ready_takes_the_answer(pre: GatewayView, data: JsonValue)
    requires
        ready_of(data) is Some,
    ensures
        dispatched(pre, "READY"@, data).1 is Err ==> pre.session_id is Some || pre.resume_url
            is Some,
        pre.state != GatewayState::Closed && pre.session_id is None && pre.resume_url is None ==> {
            &&& !dispatched(pre, "READY"@, data).0.ready_pending
            &&& dispatched(pre, "READY"@, data).0.state == GatewayState::Open
            &&& dispatched(pre, "READY"@, data).1 == Ok::<Seq<ActionView>, ProtocolError>(
                if pre.ready_pending {
                    seq![ActionView::Ready(ready_state(ready_of(data)->0))]
                } else {
                    Seq::empty()
                },
            )
        },
{
}

/// A `READY` that can be read, on a gateway as the operations leave it: afterwards
/// no connect waits. A connect that waited gets the session's first state, once; and
/// where none waited nothing is delivered and nothing changes.
pub proof fn law_ready_answers_once(pre: GatewayView, data: JsonValue)
    requires
        consistent(pre),
        ready_of(data) is Some,
    ensures
        !dispatched(pre, "READY"@, data).0.ready_pending,
        answers(actions_of(dispatched(pre, "READY"@, data).1)) == if pre.ready_pending {
            1nat
        } else {
            0nat
        },
        pre.ready_pending ==> dispatched(pre, "READY"@, data).1 == Ok::<
            Seq<ActionView>,
            ProtocolError,
        >(seq![ActionView::Ready(ready_state(ready_of(data)->0))]),
        !pre.ready_pending ==> dispatched(pre, "READY"@, data).0 == pre,
{
    lemma_answers_of_one(ActionView::Ready(ready_state(ready_of(data)->0)));
}

/// What ends a connect: a close by the client, the loss of the connection while
/// connecting, and an accepted `READY` each leave no answer pending.
pub proof fn law_answer_is_given(pre: GatewayView, closure: Closure)
    ensures
        !shut_down(pre, false).0.ready_pending,
        pre.state == GatewayState::Connecting ==> !connection_lost(pre, closure).0.ready_pending,
        forall|frame: GatewayMessageView|
            (#[trigger] frame_processed(pre, frame)).0.state == GatewayState::Open && pre.state
                == GatewayState::Connecting ==> !frame_processed(pre, frame).0.ready_pending,
{
}

/// A second close changes nothing and causes nothing: no second close frame, no
/// second answer.
pub proof fn law_close_twice(pre: GatewayView, notify: bool)
    ensures
        shut_down(shut_down(pre, notify).0, false) == (
            shut_down(pre, notify).0,
            Seq::<ActionView>::empty(),
        ),
        close_frames(shut_down(pre, notify).1 + shut_down(shut_down(pre, notify).0, false).1)
            <= 1,
{
    lemma_shut_down_counts(pre, notify);
    assert(shut_down(pre, notify).1 + Seq::<ActionView>::empty() == shut_down(pre, notify).1);
}

/// A close while a resume is under way cancels the resume: the socket that is
/// opened afterwards is refused, nothing is sent over it, and the gateway stays
/// closed.
pub proof fn law_close_cancels_resume(pre: GatewayView)
    ensures
        resume_connected(shut_down(pre, false).0) == (
            shut_down(pre, false).0,
            Err::<Seq<ActionView>, crate::api::gateway::ResumeError>(
                crate::api::gateway::ResumeError::NotOpen,
            ),
        ),
        resume_failed(shut_down(pre, false).0) == shut_down(pre, false).0,
{
}

/// Text that is no JSON, or no frame, is skipped: the gateway is as it was, nothing
/// is done, and what arrives next is handled as if the text had never come.
pub proof fn law_malformed_text_is_skipped(pre: GatewayView, text: Seq<char>, next: IncomingView)
    requires
        parsed(text) is None || crate::api::gateway::data::frame_of(parsed(text)->0) is None,
    ensures
        received(pre, IncomingView::Text(text)) == (pre, Seq::<ActionView>::empty()),
        received(received(pre, IncomingView::Text(text)).0, next) == received(pre, next),
{
}

/// A heartbeat task that is stale ends at its next tick, and a task that has ended
/// sends nothing at any later tick.
pub proof fn law_stale_task_stops(task: HeartbeatTask, gateway: GatewayView, later_on: GatewayView)
    requires
        stale(task, gateway),
    ensures
        ticked(task, gateway).1 == HeartbeatStepView::Stop,
        ticked(ticked(task, gateway).0, later_on).1 == HeartbeatStepView::Stop,
{
}

/// A resume that gets its socket makes every heartbeat task of the connection
/// before it stale.
pub proof fn law_resume_retires_heartbeat(pre: GatewayView, task: HeartbeatTask)
    requires
        task.connection_number == pre.connection_number,
        resume_connected(pre).1 is Ok,
    ensures
        stale(task, resume_connected(pre).0),
        ticked(task, resume_connected(pre).0).1 == HeartbeatStepView::Stop,
{
}

/// The states that a gateway can go to from `from` in one step: it opens from
/// connecting and from resuming, resumes from open, closes from anywhere, and never
/// leaves closed.
pub open spec fn may_follow(from: GatewayState, to: GatewayState) -> bool {
    from == to || to == GatewayState::Closed || (from == GatewayState::Connecting && to
        == GatewayState::Open) || (from == GatewayState::Open && to == GatewayState::Resuming) || (
    from == GatewayState::Resuming && to == GatewayState::Open)
}

/// Whatever happens, the gateway takes one of the steps of its life cycle.
pub proof fn law_life_cycle(pre: GatewayView, happening: Happening)
    ensures
        may_follow(pre.state, after(pre, happening).0.state),
{
}

/// A session id and a resume address, once stored, are never replaced; and they are
/// stored only where none was stored, by the `READY` that opens the gateway.
pub proof fn law_session_is_written_once(pre: GatewayView, happening: Happening)
    ensures
        pre.session_id is Some ==> after(pre, happening).0.session_id == pre.session_id,
        pre.resume_url is Some ==> after(pre, happening).0.resume_url == pre.resume_url,
        after(pre, happening).0.session_id != pre.session_id || after(pre, happening).0.resume_url
            != pre.resume_url ==> pre.session_id is None && pre.resume_url is None && after(
            pre,
            happening,
        ).0.state == GatewayState::Open,
        after(pre, happening).0.token == pre.token,
{
}

/// The connection number changes only when the socket of a resume was opened, and
/// then by one.
pub proof fn law_connection_number(pre: GatewayView, happening: Happening)
    ensures
        after(pre, happening).0.connection_number == if happening is ResumeConnected
            && resume_connected(pre).1 is Ok {
            crate::api::gateway::next_connection(pre.connection_number)
        } else {
            pre.connection_number
        },
{
}

/// How many of the actions start a heartbeat task.
pub open spec fn heartbeat_starts(actions: Seq<ActionView>) -> nat
    decreases actions.len(),
{
    if actions.len() == 0 {
        0
    } else {
        heartbeat_starts(actions.drop_last()) + if actions.last() is StartHeartbeat {
            1nat
        } else {
            0nat
        }
    }
}

/// A connection gets one heartbeat task at most: a task is started only where none
/// was started for the connection, for the number of that connection, and a new
/// one can be started only after the connection number has changed.
pub proof fn law_one_heartbeat_per_connection(pre: GatewayView, happening: Happening)
    ensures
        heartbeat_starts(after(pre, happening).1) == if !pre.heartbeat_started && after(
            pre,
            happening,
        ).0.heartbeat_started {
            1nat
        } else {
            0nat
        },
        forall|i: int|
            0 <= i < after(pre, happening).1.len() ==> (#[trigger] after(
                pre,
                happening,
            ).1[i] matches ActionView::StartHeartbeat(_, number) ==> number
                == pre.connection_number),
        pre.heartbeat_started && !after(pre, happening).0.heartbeat_started ==> after(
            pre,
            happening,
        ).0.connection_number != pre.connection_number,
{
    let actions = after(pre, happening).1;
    lemma_shut_down_starts_nothing(pre, true);
    lemma_shut_down_starts_nothing(pre, false);
    if actions.len() == 0 {
    } else if actions.len() == 1 {
        lemma_starts_of_one(actions[0]);
        assert(actions == seq![actions[0]]);
    } else {
        assert(actions == shut_down(pre, true).1 || actions == shut_down(pre, false).1);
    }
}

proof fn lemma_starts_of_one(a: ActionView)
    ensures
        heartbeat_starts(seq![a]) == if a is StartHeartbeat {
            1nat
        } else {
            0nat
        },
{
    reveal_with_fuel(heartbeat_starts, 2);
    assert(seq![a].drop_last() == Seq::<ActionView>::empty());
}

proof fn lemma_shut_down_starts_nothing(pre: GatewayView, notify: bool)
    ensures
        heartbeat_starts(shut_down(pre, notify).1) == 0,
        forall|i: int|
            0 <= i < shut_down(pre, notify).1.len() ==> !(#[trigger] shut_down(
                pre,
                notify,
            ).1[i] is StartHeartbeat),
{
    reveal_with_fuel(heartbeat_starts, 3);
    let closing = if pre.state == GatewayState::Closed {
        Seq::<ActionView>::empty()
    } else {
        seq![ActionView::SendClose]
    };
    assert(seq![ActionView::SendClose].drop_last() == Seq::<ActionView>::empty());
    assert(heartbeat_starts(closing) == 0);
    let notifying = if notify {
        closing.push(ActionView::Emit(GatewayEventView::ReconnectNeeded))
    } else {
        closing
    };
    assert(closing.push(ActionView::Emit(GatewayEventView::ReconnectNeeded)).drop_last()
        == closing);
    assert(heartbeat_starts(notifying) == 0);
    let released = if pre.state == GatewayState::Closed {
        notifying
    } else {
        notifying.push(ActionView::CloseEvents)
    };
    assert(notifying.push(ActionView::CloseEvents).drop_last() == notifying);
    assert(heartbeat_starts(released) == 0);
    assert(released.push(
        ActionView::Fail(crate::api::gateway::ConnectError::SessionClosed),
    ).drop_last() == released);
}

/// A closed gateway stays closed, and does nothing, whatever happens.
pub proof fn law_closed_is_final(pre: GatewayView, happening: Happening)
    requires
        pre.state == GatewayState::Closed,
    ensures
        after(pre, happening).0.state == GatewayState::Closed,
        !(happening is Close) ==> after(pre, happening).0 == pre,
        !(happening is Close) ==> after(pre, happening).1 == Seq::<ActionView>::empty(),
{
}

/// A gateway that has seen frames and is not closed holds the highest sequence
/// number among the one it started with and those of the dispatches; so that is
/// the number that its next heartbeat or resume frame carries.
pub proof fn law_sequence_is_highest(pre: GatewayView, frames: Seq<GatewayMessageView>)
    requires
        after_frames(pre, frames).state != GatewayState::Closed,
    ensures
        after_frames(pre, frames).sequence == highest_sequence(pre.sequence, frames),
    decreases frames.len(),
{
    if frames.len() > 0 {
        let before = after_frames(pre, frames.drop_last());
        if before.state == GatewayState::Closed {
            assert(frame_processed(before, frames.last()).0 == before);
        } else {
            law_sequence_is_highest(pre, frames.drop_last());
        }
    }
}

/// No happening lowers the sequence number.
pub proof fn law_sequence_never_falls(pre: GatewayView, happening: Happening)
    ensures
        after(pre, happening).0.sequence >= pre.sequence,
{
}

/// When a connection is lost, a resume is begun if and only if the gateway was open
/// and the closure is resumable. An open gateway that gets an unrecoverable close
/// code, and a resuming gateway whatever the closure, is closed and tells the
/// consumer exactly once that a reconnect is needed. A connecting gateway is closed
/// and a closed one stays closed, both without such word: the one answers its
/// connect instead, and the other has nobody left to tell.
pub proof fn law_resume_or_reconnect(pre: GatewayView, closure: Closure)
    ensures
        pre.state == GatewayState::Open && resumable(closure) ==> connection_lost(pre, closure)
            == (resume_begun(pre).0, actions_of(resume_begun(pre).1)),
        pre.state == GatewayState::Open && resumable(closure) && pre.resume_url is Some
            && pre.session_id is Some ==> connection_lost(pre, closure).0.state
            == GatewayState::Resuming && connection_lost(pre, closure).1.len() == 1
            && connection_lost(pre, closure).1[0] is Connect,
        (exists|i: int|
            0 <= i < connection_lost(pre, closure).1.len() && connection_lost(
                pre,
                closure,
            ).1[i] is Connect) ==> pre.state == GatewayState::Open && resumable(closure),
        connection_lost(pre, closure).0.state == GatewayState::Resuming ==> pre.state
            == GatewayState::Open && resumable(closure),
        !(pre.state == GatewayState::Open && resumable(closure)) ==> connection_lost(
            pre,
            closure,
        ).0.state == GatewayState::Closed,
        (pre.state == GatewayState::Open && !resumable(closure)) || pre.state
            == GatewayState::Resuming ==> connection_lost(pre, closure) == shut_down(pre, true)
            && reconnect_notices(connection_lost(pre, closure).1) == 1,
        pre.state == GatewayState::Connecting || pre.state == GatewayState::Closed
            ==> reconnect_notices(connection_lost(pre, closure).1) == 0,
{
    lemma_shut_down_notices(pre, true);
    let actions = connection_lost(pre, closure).1;
    if actions.len() == 1 {
        assert(actions.drop_last() == Seq::<ActionView>::empty());
        reveal_with_fuel(reconnect_notices, 2);
    }
}

proof fn lemma_shut_down_notices(pre: GatewayView, notify: bool)
    ensures
        reconnect_notices(shut_down(pre, notify).1) == if notify {
            1nat
        } else {
            0nat
        },
{
    reveal_with_fuel(reconnect_notices, 3);
    let notice = ActionView::Emit(GatewayEventView::ReconnectNeeded);
    let closing = if pre.state == GatewayState::Closed {
        Seq::<ActionView>::empty()
    } else {
        seq![ActionView::SendClose]
    };
    assert(seq![ActionView::SendClose].drop_last() == Seq::<ActionView>::empty());
    assert(reconnect_notices(closing) == 0);
    let notifying = if notify {
        closing.push(notice)
    } else {
        closing
    };
    assert(closing.push(notice).drop_last() == closing);
    assert(reconnect_notices(notifying) == if notify {
        1nat
    } else {
        0nat
    });
    let released = if pre.state == GatewayState::Closed {
        notifying
    } else {
        notifying.push(ActionView::CloseEvents)
    };
    assert(notifying.push(ActionView::CloseEvents).drop_last() == notifying);
    assert(reconnect_notices(released) == reconnect_notices(notifying));
    assert(released.push(
        ActionView::Fail(crate::api::gateway::ConnectError::SessionClosed),
    ).drop_last() == released);
}

} // verus!
