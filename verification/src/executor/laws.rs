//! What holds of every executor, whatever is asked of it and whatever
//! happens to its session.

use vstd::prelude::*;
use crate::executor::channel::CHANNEL_CAPACITY;
use crate::executor::command::{
    command_of,
    execute_message,
    CommandExecuteModel,
    CommandModel,
    MessageModel,
};
use crate::executor::session::{
    ActivationModel,
    HttpEventModel,
    WsActionModel,
    WsEventModel,
};
use crate::executor::{
    execute_log,
    http_event_outcome,
    outcome_record,
    spec_execute,
    spec_http_step,
    spec_terminate,
    spec_ws_step,
    ExecutorModel,
    State,
};
use crate::states::main_page::request::request_data::RequestDataModel;
use crate::states::main_page::response::text_frame_record;
use crate::states::EventModel;

verus! {

/// The invariant of an executor. The lifecycle state says which session
/// runs: none when free, an HTTP exchange when busy, a WebSocket session
/// when connected. There is a channel exactly while a session runs, and it
/// never holds more than its capacity.
pub open spec fn wf(e: ExecutorModel) -> bool {
    &&& e.state == State::FREE <==> e.session is CLOSED
    &&& e.state == State::BUSY <==> e.session is HTTP
    &&& e.channel is Some <==> !(e.session is CLOSED)
    &&& e.channel matches Some(queue) ==> queue.len() <= CHANNEL_CAPACITY
}

/// How many sessions of an executor are alive: one or none.
pub open spec fn live_sessions(e: ExecutorModel) -> nat {
    if e.session is CLOSED {
        0
    } else {
        1
    }
}

/// The executor after a run of `execute` calls, each given by its request
/// and its `connection_only` flag.
pub open spec fn after_executes(e: ExecutorModel, calls: Seq<(RequestDataModel, bool)>) -> ExecutorModel
    decreases calls.len(),
{
    if calls.len() == 0 {
        e
    } else {
        spec_execute(after_executes(e, calls.drop_last()), calls.last().0, calls.last().1).0
    }
}

/// How many sessions a run of `execute` calls asks to be started.
pub open spec fn sessions_started(e: ExecutorModel, calls: Seq<(RequestDataModel, bool)>) -> nat
    decreases calls.len(),
{
    if calls.len() == 0 {
        0
    } else {
        let before = after_executes(e, calls.drop_last());
        let asked = spec_execute(before, calls.last().0, calls.last().1).1;
        sessions_started(e, calls.drop_last()) + if asked is NONE {
            0nat
        } else {
            1nat
        }
    }
}

/// The requests that a run of ticks asks to be written to the socket, in
/// the order in which they are asked; each tick is given by its time.
pub open spec fn writes_of_ticks(e: ExecutorModel, ticks: Seq<i64>) -> Seq<CommandExecuteModel>
    decreases ticks.len(),
{
    if ticks.len() == 0 {
        Seq::empty()
    } else {
        let (next, action) = spec_ws_step(e, WsEventModel::TICK, ticks[0]);
        let written = match action {
            WsActionModel::SEND(command) => seq![command],
            _ => Seq::empty(),
        };
        written + writes_of_ticks(next, ticks.drop_first())
    }
}

/// True of a message that asks for a request to be sent.
pub open spec fn is_execute(message: MessageModel) -> bool {
    message matches MessageModel::COMMAND(CommandModel::EXECUTE(_))
}

/// The request in a message that asks for one to be sent.
pub open spec fn request_in(message: MessageModel) -> CommandExecuteModel
    recommends
        is_execute(message),
{
    match message {
        MessageModel::COMMAND(CommandModel::EXECUTE(command)) => command,
        _ => arbitrary(),
    }
}

/// A new executor meets the invariant.
pub proof fn law_new_is_well_formed(e: ExecutorModel)
    requires
        e.state == State::FREE,
        e.channel is None,
        e.session is CLOSED,
    ensures
        wf(e),
{
}

/// `execute` keeps the invariant.
pub proof fn law_execute_keeps_invariant(
    e: ExecutorModel,
    data: RequestDataModel,
    connection_only: bool,
)
    requires
        wf(e),
    ensures
        wf(spec_execute(e, data, connection_only).0),
{
}

/// `terminate` keeps the invariant.
pub proof fn law_terminate_keeps_invariant(e: ExecutorModel)
    requires
        wf(e),
    ensures
        wf(spec_terminate(e)),
{
}

/// Whatever happens to an HTTP session, the invariant is kept.
pub proof fn law_http_step_keeps_invariant(e: ExecutorModel, event: HttpEventModel, now: i64)
    requires
        wf(e),
    ensures
        wf(spec_http_step(e, event, now)),
{
}

/// Whatever happens to a WebSocket session, the invariant is kept.
pub proof fn law_ws_step_keeps_invariant(e: ExecutorModel, event: WsEventModel, now: i64)
    requires
        wf(e),
    ensures
        wf(spec_ws_step(e, event, now).0),
{
}

/// `execute` on a busy executor does nothing: the executor is unchanged,
/// no session is asked for, no record is made and nothing is logged.
pub proof fn law_execute_while_busy_is_noop(
    e: ExecutorModel,
    data: RequestDataModel,
    connection_only: bool,
    log: Seq<EventModel>,
    now: i64,
)
    requires
        e.state == State::BUSY,
    ensures
        spec_execute(e, data, connection_only) == (e, ActivationModel::NONE),
        execute_log(e.state, data.protocol, log, now) == log,
{
}

/// `execute` asks for a session only when none is alive, and never makes a
/// record itself.
pub proof fn law_execute_starts_only_when_free(
    e: ExecutorModel,
    data: RequestDataModel,
    connection_only: bool,
)
    requires
        wf(e),
    ensures
        !(spec_execute(e, data, connection_only).1 is NONE) <==> live_sessions(e) == 0,
        !(spec_execute(e, data, connection_only).1 is NONE) ==> live_sessions(
            spec_execute(e, data, connection_only).0,
        ) == 1,
        spec_execute(e, data, connection_only).0.responses == e.responses,
{
}

/// A session starts over a fresh channel, whatever was offered to the
/// sessions before it: no message of theirs reaches it.
pub proof fn law_session_starts_with_empty_channel(
    e: ExecutorModel,
    data: RequestDataModel,
    connection_only: bool,
)
    requires
        e.state == State::FREE,
    ensures
        spec_execute(e, data, connection_only).0.channel == Some(Seq::<MessageModel>::empty()),
        live_sessions(spec_execute(e, data, connection_only).0) == 1,
{
}

/// Over any run of `execute` calls at most one session is alive at a time:
/// the sessions the run asks for, together with the one that was alive
/// before it, are the one or none alive after it.
pub proof fn law_at_most_one_session(e: ExecutorModel, calls: Seq<(RequestDataModel, bool)>)
    requires
        wf(e),
    ensures
        wf(after_executes(e, calls)),
        live_sessions(e) + sessions_started(e, calls) == live_sessions(after_executes(e, calls)),
        live_sessions(e) + sessions_started(e, calls) <= 1,
        after_executes(e, calls).responses == e.responses,
    decreases calls.len(),
{
    if calls.len() > 0 {
        law_at_most_one_session(e, calls.drop_last());
        let before = after_executes(e, calls.drop_last());
        law_execute_keeps_invariant(before, calls.last().0, calls.last().1);
        law_execute_starts_only_when_free(before, calls.last().0, calls.last().1);
    }
}

/// When an HTTP exchange comes back, with a response or with a failure,
/// the executor is free again and exactly one record has joined the end of
/// the responses.
pub proof fn law_http_end_appends_one_record(e: ExecutorModel, event: HttpEventModel, now: i64)
    requires
        wf(e),
        e.state == State::BUSY,
        !(event is COMMAND),
    ensures
        spec_http_step(e, event, now).state == State::FREE,
        live_sessions(spec_http_step(e, event, now)) == 0,
        spec_http_step(e, event, now).responses.len() == e.responses.len() + 1,
        spec_http_step(e, event, now).responses == e.responses.push(
            outcome_record(http_event_outcome(event, now)->0),
        ),
{
}

/// A free executor that is fired with an HTTP request and sees the
/// exchange come back is free again, with exactly one record more than it
/// had: none is lost and none is added besides.
pub proof fn law_http_exchange_leaves_one_record(
    e: ExecutorModel,
    data: RequestDataModel,
    connection_only: bool,
    event: HttpEventModel,
    now: i64,
)
    requires
        wf(e),
        e.state == State::FREE,
        data.protocol.spec_is_http(),
        !(event is COMMAND),
    ensures
        ({
            let fired = spec_execute(e, data, connection_only).0;
            let done = spec_http_step(fired, event, now);
            &&& fired.state == State::BUSY
            &&& done.state == State::FREE
            &&& done.responses == e.responses.push(
                outcome_record(http_event_outcome(event, now)->0),
            )
            &&& wf(done)
        }),
{
}

/// An HTTP exchange that is asked to stop before it comes back leaves no
/// record: once the session has seen the request, the executor is free
/// with the responses it had, and what comes back later changes nothing.
pub proof fn law_http_given_up_leaves_no_record(
    e: ExecutorModel,
    late: HttpEventModel,
    now: i64,
    later: i64,
)
    requires
        wf(e),
        e.state == State::BUSY,
        e.channel == Some(Seq::<MessageModel>::empty()),
    ensures
        ({
            let stopped = spec_http_step(spec_terminate(e), HttpEventModel::COMMAND, now);
            &&& stopped.state == State::FREE
            &&& stopped.responses == e.responses
            &&& spec_http_step(stopped, late, later) == stopped
        }),
{
}

/// `terminate` on a free executor does nothing.
pub proof fn law_terminate_when_free_is_noop(e: ExecutorModel)
    requires
        wf(e),
        e.state == State::FREE,
    ensures
        spec_terminate(e) == e,
{
}

/// A close from the peer ends an open session with exactly one record, and
/// a request to stop that arrives with it changes nothing more.
pub proof fn law_close_appends_one_record(e: ExecutorModel, now: i64)
    requires
        wf(e),
        e.session is OPEN,
    ensures
        ({
            let closed = spec_ws_step(e, WsEventModel::CLOSE, now).0;
            &&& closed.state == State::FREE
            &&& closed.responses.len() == e.responses.len() + 1
            &&& spec_terminate(closed) == closed
            &&& wf(closed)
        }),
{
}

/// The executor after a run of text frames has come in, each given by its
/// text and its time.
pub open spec fn after_frames(e: ExecutorModel, frames: Seq<(Seq<char>, i64)>) -> ExecutorModel
    decreases frames.len(),
{
    if frames.len() == 0 {
        e
    } else {
        spec_ws_step(
            after_frames(e, frames.drop_last()),
            WsEventModel::TEXT(frames.last().0),
            frames.last().1,
        ).0
    }
}

/// Text frames that come in on an open session become records in the order
/// in which they come, one for one, behind the records that were there,
/// and the session stays open.
pub proof fn law_frames_are_recorded_in_order(e: ExecutorModel, frames: Seq<(Seq<char>, i64)>)
    requires
        e.session is OPEN,
    ensures
        after_frames(e, frames) == (ExecutorModel {
            responses: e.responses + frames.map_values(
                |frame: (Seq<char>, i64)| text_frame_record(frame.1, frame.0),
            ),
            ..e
        }),
    decreases frames.len(),
{
    let records = frames.map_values(|frame: (Seq<char>, i64)| text_frame_record(frame.1, frame.0));
    if frames.len() == 0 {
        assert(e.responses + records =~= e.responses);
    } else {
        let init = frames.drop_last();
        law_frames_are_recorded_in_order(e, init);
        let init_records = init.map_values(
            |frame: (Seq<char>, i64)| text_frame_record(frame.1, frame.0),
        );
        assert((e.responses + init_records).push(
            text_frame_record(frames.last().1, frames.last().0),
        ) =~= e.responses + records);
    }
}

/// Requests fired in a connected session join the command channel in the
/// order of the calls.
pub proof fn law_executes_join_channel_in_order(
    e: ExecutorModel,
    calls: Seq<(RequestDataModel, bool)>,
)
    requires
        e.state == State::CONNECTED,
        e.channel is Some,
        e.channel->0.len() + calls.len() <= CHANNEL_CAPACITY,
    ensures
        after_executes(e, calls) == (ExecutorModel {
            channel: Some(
                e.channel->0 + calls.map_values(
                    |call: (RequestDataModel, bool)| execute_message(call.0),
                ),
            ),
            ..e
        }),
    decreases calls.len(),
{
    let joined = calls.map_values(|call: (RequestDataModel, bool)| execute_message(call.0));
    if calls.len() == 0 {
        assert(e.channel->0 + joined =~= e.channel->0);
    } else {
        let init = calls.drop_last();
        law_executes_join_channel_in_order(e, init);
        let joined_init = init.map_values(|call: (RequestDataModel, bool)| execute_message(call.0));
        assert((e.channel->0 + joined_init).push(execute_message(calls.last().0)) =~= e.channel->0
            + joined);
    }
}

/// Ticks of an open session take requests off the command channel in the
/// order in which they wait there.
pub proof fn law_ticks_write_in_channel_order(e: ExecutorModel, ticks: Seq<i64>)
    requires
        e.session is OPEN,
        e.channel is Some,
        forall|i: int| 0 <= i < e.channel->0.len() ==> is_execute(#[trigger] e.channel->0[i]),
        ticks.len() == e.channel->0.len(),
    ensures
        writes_of_ticks(e, ticks) == e.channel->0.map_values(
            |message: MessageModel| request_in(message),
        ),
    decreases ticks.len(),
{
    let queue = e.channel->0;
    let wanted = queue.map_values(|message: MessageModel| request_in(message));
    if ticks.len() == 0 {
        assert(writes_of_ticks(e, ticks) =~= wanted);
    } else {
        assert(is_execute(queue[0]));
        let (next, action) = spec_ws_step(e, WsEventModel::TICK, ticks[0]);
        assert(next == ExecutorModel { channel: Some(queue.drop_first()), ..e });
        assert(action == WsActionModel::SEND(request_in(queue[0])));
        assert forall|i: int| 0 <= i < next.channel->0.len() implies is_execute(
            #[trigger] next.channel->0[i],
        ) by {
            assert(next.channel->0[i] == queue[i + 1]);
        }
        law_ticks_write_in_channel_order(next, ticks.drop_first());
        assert(seq![request_in(queue[0])] + queue.drop_first().map_values(
            |message: MessageModel| request_in(message),
        ) =~= wanted);
    }
}

/// Requests fired in an open session are written to the socket in the
/// order of the calls: after as many ticks as there were calls, the writes
/// asked for are the requests of the calls, one for one and in their order.
pub proof fn law_ws_writes_keep_call_order(
    e: ExecutorModel,
    calls: Seq<(RequestDataModel, bool)>,
    ticks: Seq<i64>,
)
    requires
        wf(e),
        e.session is OPEN,
        e.channel == Some(Seq::<MessageModel>::empty()),
        calls.len() <= CHANNEL_CAPACITY,
        ticks.len() == calls.len(),
    ensures
        writes_of_ticks(after_executes(e, calls), ticks) == calls.map_values(
            |call: (RequestDataModel, bool)| command_of(call.0),
        ),
{
    law_executes_join_channel_in_order(e, calls);
    let fired = after_executes(e, calls);
    let joined = calls.map_values(|call: (RequestDataModel, bool)| execute_message(call.0));
    assert(e.channel->0 + joined =~= joined);
    law_ticks_write_in_channel_order(fired, ticks);
    assert(joined.map_values(|message: MessageModel| request_in(message)) =~= calls.map_values(
        |call: (RequestDataModel, bool)| command_of(call.0),
    ));
}

} // verus!
