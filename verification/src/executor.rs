//! The request executor: the engine that turns a request into an HTTP
//! exchange or a WebSocket session, and keeps what comes back.
//!
//! The executor does no input or output itself. `execute` and `terminate`
//! are the controller's side; `http_thread` and `ws_thread` are the
//! session's side, called once for each thing that happens to the session.
//! Whoever drives the executor starts what `execute` returns, reports what
//! happens, and does what `ws_thread` answers.

use vstd::prelude::*;
use crate::clock;
use crate::executor::channel::{queue_send, CommandChannel};
use crate::executor::laws::{
    law_execute_keeps_invariant,
    law_http_step_keeps_invariant,
    law_terminate_keeps_invariant,
    law_ws_step_keeps_invariant,
    wf,
};
use crate::executor::command::{
    command_of,
    execute_message,
    terminate_message,
    without_message,
    Command,
    CommandExecute,
    CommandModel,
    Message,
    MessageModel,
};
use crate::executor::session::{
    Activation,
    ActivationModel,
    HttpEvent,
    HttpEventModel,
    Session,
    SessionModel,
    WsAction,
    WsActionModel,
    WsEvent,
    WsEventModel,
};
use crate::settings::protocol_settings::Protocol;
use crate::states::main_page::request::request_data::{RequestData, RequestDataModel};
use crate::states::main_page::response::response_data::ResponseDataModel;
use crate::states::main_page::response::{
    JsonViewModel,
    JsonViewType,
    ResponseView,
    closed_record,
    http_error_outcome,
    http_response_outcome,
    text_frame_record,
    Response,
    ResponseModel,
};
use crate::states::{logged, EventKind, EventModel, Events};

pub mod channel;
pub mod command;
pub mod laws;
pub mod session;

verus! {

/// The lifecycle of an executor: no session, a one-shot exchange under
/// way, or a lasting session open.
#[derive(Clone, Copy, Debug, PartialEq, Eq, Structural)]
pub enum State {
    FREE,
    BUSY,
    CONNECTED,
}

/// The engine of one request: its lifecycle, the responses it has
/// gathered, the channel into its session and the stage of that session.
#[derive(Debug)]
pub struct Executor {
    link: Link,
    responses: Vec<Response>,
}

/// What ties an executor to its session: the lifecycle state, the sending
/// end of the command channel and the stage of the session. The three
/// change together.
#[derive(Debug)]
struct Link {
    state: State,
    channel_sender: Option<CommandChannel>,
    session: Session,
}

/// An executor as a value.
pub struct ExecutorModel {
    /// The lifecycle state.
    pub state: State,
    /// The responses gathered so far, oldest first.
    pub responses: Seq<ResponseModel>,
    /// What waits on the command channel, oldest first; `None` where there
    /// is no channel.
    pub channel: Option<Seq<MessageModel>>,
    /// The stage of the session.
    pub session: SessionModel,
}

impl View for Executor {
    type V = ExecutorModel;

    closed spec fn view(&self) -> ExecutorModel {
        ExecutorModel {
            state: self.link.state,
            responses: self.responses.deep_view(),
            channel: match self.link.channel_sender {
                Some(channel) => Some(channel@),
                None => None,
            },
            session: self.link.session@,
        }
    }
}

/// An executor whose session has ended: free, without channel.
pub open spec fn ended(e: ExecutorModel) -> ExecutorModel {
    ExecutorModel { state: State::FREE, channel: None, session: SessionModel::CLOSED, ..e }
}

/// An executor with one more response.
pub open spec fn with_response(e: ExecutorModel, response: ResponseModel) -> ExecutorModel {
    ExecutorModel { responses: e.responses.push(response), ..e }
}

/// The record in an outcome, whichever way it went.
pub open spec fn outcome_record(
    outcome: core::result::Result<ResponseModel, (ResponseModel, Seq<char>)>,
) -> ResponseModel {
    match outcome {
        Ok(record) => record,
        Err((record, _)) => record,
    }
}

/// What `execute` makes of an executor, and what it asks to be started.
///
/// In a connected session the request joins the command channel. A free
/// executor starts a session of the kind the protocol asks for, over a
/// fresh channel. A busy executor is left as it is.
pub open spec fn spec_execute(e: ExecutorModel, data: RequestDataModel, connection_only: bool) -> (
    ExecutorModel,
    ActivationModel,
) {
    match e.state {
        State::CONNECTED => match e.channel {
            Some(queue) => (
                ExecutorModel { channel: Some(queue_send(queue, execute_message(data))), ..e },
                ActivationModel::NONE,
            ),
            None => (ExecutorModel { state: State::FREE, ..e }, ActivationModel::NONE),
        },
        State::FREE => if data.protocol.spec_is_http() {
            (
                ExecutorModel {
                    state: State::BUSY,
                    channel: Some(Seq::empty()),
                    session: SessionModel::HTTP,
                    ..e
                },
                ActivationModel::HTTP(command_of(data)),
            )
        } else {
            let command = if connection_only {
                without_message(command_of(data))
            } else {
                command_of(data)
            };
            (
                ExecutorModel {
                    state: State::CONNECTED,
                    channel: Some(Seq::empty()),
                    session: SessionModel::CONNECTING(command),
                    ..e
                },
                ActivationModel::WS(command),
            )
        },
        State::BUSY => (e, ActivationModel::NONE),
    }
}

/// What `execute` writes to the event log.
pub open spec fn execute_log(state: State, protocol: Protocol, log: Seq<EventModel>, now: i64) -> Seq<
    EventModel,
> {
    match state {
        State::CONNECTED => logged(
            log,
            EventKind::Info,
            "Detected connected websocket session, sending request..."@,
            now,
        ),
        State::FREE => if protocol.spec_is_http() {
            logged(log, EventKind::Info, "Detected free executor, sending http request..."@, now)
        } else {
            logged(
                log,
                EventKind::Info,
                "Detected free executor, sending websocket request..."@,
                now,
            )
        },
        State::BUSY => log,
    }
}

/// What `terminate` makes of an executor: the request to stop joins the
/// command channel; without a channel the executor is set free.
pub open spec fn spec_terminate(e: ExecutorModel) -> ExecutorModel {
    match e.channel {
        Some(queue) => ExecutorModel { channel: Some(queue_send(queue, terminate_message())), ..e },
        None => ExecutorModel { state: State::FREE, ..e },
    }
}

/// What an HTTP exchange came to, as an outcome with a record on either
/// side. A waiting command has no outcome.
pub open spec fn http_event_outcome(event: HttpEventModel, now: i64) -> Option<
    core::result::Result<ResponseModel, (ResponseModel, Seq<char>)>,
> {
    match event {
        HttpEventModel::COMMAND => None,
        HttpEventModel::REPLY(reply) => Some(http_response_outcome(reply, now)),
        HttpEventModel::FAILURE(status) => Some(http_error_outcome(status, now)),
    }
}

/// What an event makes of an executor whose HTTP exchange is under way.
///
/// The exchange's end appends exactly one record and ends the session. A
/// waiting command is taken as the request to stop: the session ends
/// without a record. Without an HTTP session nothing changes.
pub open spec fn spec_http_step(e: ExecutorModel, event: HttpEventModel, now: i64) -> ExecutorModel {
    if !(e.session is HTTP) {
        e
    } else {
        match http_event_outcome(event, now) {
            Some(outcome) => ended(with_response(e, outcome_record(outcome))),
            None => if e.channel is Some && e.channel->0.len() > 0 {
                ended(e)
            } else {
                e
            },
        }
    }
}

/// What an event of an HTTP session writes to the event log.
pub open spec fn http_log(e: ExecutorModel, event: HttpEventModel, log: Seq<EventModel>, now: i64) -> Seq<
    EventModel,
> {
    if !(e.session is HTTP) {
        log
    } else {
        match event {
            HttpEventModel::COMMAND => log,
            HttpEventModel::REPLY(reply) => match http_response_outcome(reply, now) {
                Ok(_) => logged(log, EventKind::Info, "Received success response"@, now),
                Err((_, message)) => logged(log, EventKind::Error, message, now),
            },
            HttpEventModel::FAILURE(status) => match http_error_outcome(status, now) {
                Ok(_) => logged(log, EventKind::Info, "Received success error response"@, now),
                Err((_, message)) => logged(log, EventKind::Error, message, now),
            },
        }
    }
}

/// What a look at the command channel makes of an open WebSocket session.
/// The oldest message leaves the channel: a request is to be written, the
/// request to stop ends the session.
pub open spec fn spec_ws_tick(e: ExecutorModel) -> (ExecutorModel, WsActionModel) {
    match e.channel {
        Some(queue) => if queue.len() > 0 {
            let rest = ExecutorModel { channel: Some(queue.drop_first()), ..e };
            match queue[0] {
                MessageModel::COMMAND(CommandModel::EXECUTE(command)) => (
                    rest,
                    WsActionModel::SEND(command),
                ),
                MessageModel::COMMAND(CommandModel::TERRMINATE) => (ended(e), WsActionModel::STOP),
                MessageModel::RESULT => (rest, WsActionModel::WAIT),
            }
        } else {
            (e, WsActionModel::WAIT)
        },
        None => (e, WsActionModel::WAIT),
    }
}

/// What an event makes of an executor with a WebSocket session, and what
/// the session has to do next.
///
/// While connecting, success opens the session and asks for the first
/// message to be written, if there is one; failure ends the session. Once
/// open, a text frame becomes a record; a close or a failed read becomes the
/// record of a closed connection and ends the session; a tick looks at the
/// command channel. Anything else changes nothing. Without a WebSocket
/// session the answer is to stop.
pub open spec fn spec_ws_step(e: ExecutorModel, event: WsEventModel, now: i64) -> (
    ExecutorModel,
    WsActionModel,
) {
    match e.session {
        SessionModel::CONNECTING(command) => match event {
            WsEventModel::CONNECTED => (
                ExecutorModel { session: SessionModel::OPEN, ..e },
                if command.message.len() > 0 {
                    WsActionModel::SEND(command)
                } else {
                    WsActionModel::WAIT
                },
            ),
            WsEventModel::REFUSED(_) => (ended(e), WsActionModel::STOP),
            _ => (e, WsActionModel::WAIT),
        },
        SessionModel::OPEN => match event {
            WsEventModel::TEXT(text) => (
                with_response(e, text_frame_record(now, text)),
                WsActionModel::WAIT,
            ),
            WsEventModel::CLOSE => (
                ended(with_response(e, closed_record(now))),
                WsActionModel::STOP,
            ),
            WsEventModel::FAILED(_) => (
                ended(with_response(e, closed_record(now))),
                WsActionModel::STOP,
            ),
            WsEventModel::TICK => spec_ws_tick(e),
            _ => (e, WsActionModel::WAIT),
        },
        _ => (e, WsActionModel::STOP),
    }
}

/// What a look at the command channel writes to the event log.
pub open spec fn ws_tick_log(e: ExecutorModel, log: Seq<EventModel>, now: i64) -> Seq<EventModel> {
    match e.channel {
        Some(queue) => if queue.len() > 0 {
            match queue[0] {
                MessageModel::COMMAND(CommandModel::EXECUTE(_)) => logged(
                    log,
                    EventKind::Info,
                    "Websocket: sending message"@,
                    now,
                ),
                MessageModel::COMMAND(CommandModel::TERRMINATE) => logged(
                    log,
                    EventKind::Info,
                    "Websocket: requested WS termination."@,
                    now,
                ),
                MessageModel::RESULT => logged(
                    log,
                    EventKind::Warning,
                    "Error: Received in command channel Result type: Result"@,
                    now,
                ),
            }
        } else {
            log
        },
        None => log,
    }
}

/// What an event of a WebSocket session writes to the event log.
pub open spec fn ws_log(e: ExecutorModel, event: WsEventModel, log: Seq<EventModel>, now: i64) -> Seq<
    EventModel,
> {
    match e.session {
        SessionModel::CONNECTING(_) => match event {
            WsEventModel::CONNECTED => logged(
                log,
                EventKind::Info,
                "Websocket: start messages loop..."@,
                now,
            ),
            WsEventModel::REFUSED(why) => logged(
                log,
                EventKind::Error,
                "Error: Could not connect to WS. Error: "@ + why,
                now,
            ),
            _ => log,
        },
        SessionModel::OPEN => match event {
            WsEventModel::TEXT(_) => logged(
                log,
                EventKind::Info,
                "Websocket: received response"@,
                now,
            ),
            WsEventModel::CLOSE => logged(log, EventKind::Warning, "Peer close connection."@, now),
            WsEventModel::FAILED(why) => logged(
                log,
                EventKind::Error,
                "Error: During WS connection on new message error occured. Error: "@ + why,
                now,
            ),
            WsEventModel::TICK => ws_tick_log(e, log, now),
            WsEventModel::UNSENT(command, why) => logged(
                log,
                EventKind::Error,
                "Error: Could not send message to WS channel. Message: "@ + command.body
                    + ". Error: "@ + why,
                now,
            ),
            _ => log,
        },
        _ => log,
    }
}

impl Link {
    /// Every link meets the invariant of the executor, at all times.
    #[verifier::type_invariant]
    spec fn well_formed(self) -> bool {
        wf(
            ExecutorModel {
                state: self.state,
                responses: Seq::empty(),
                channel: match self.channel_sender {
                    Some(channel) => Some(channel@),
                    None => None,
                },
                session: self.session@,
            },
        )
    }
}

impl Executor {
    /// A free executor that starts out with the given responses.
    pub fn new(responses: Vec<Response>) -> (r: Self)
        ensures
            r@ == (ExecutorModel {
                state: State::FREE,
                responses: responses.deep_view(),
                channel: None,
                session: SessionModel::CLOSED,
            }),
            wf(r@),
    {
        Executor {
            link: Link { state: State::FREE, channel_sender: None, session: Session::CLOSED },
            responses,
        }
    }

    /// The lifecycle state as it stands. Whoever holds an executor may
    /// count on its invariant.
    pub fn current_state(&self) -> (r: State)
        ensures
            r == self@.state,
            wf(self@),
    {
        proof {
            use_type_invariant(&self.link);
        }
        self.link.state
    }

    /// The responses gathered so far, oldest first.
    pub fn responses(&self) -> (r: &Vec<Response>)
        ensures
            r.deep_view() == self@.responses,
    {
        &self.responses
    }

    /// Folds or unfolds the response at an index on screen. The record
    /// itself stays as it was received.
    pub fn set_response_folded(&mut self, index: usize, is_folded: bool)
        requires
            index < old(self)@.responses.len(),
        ensures
            final(self)@ == (ExecutorModel {
                responses: old(self)@.responses.update(
                    index as int,
                    ResponseModel { is_folded, ..old(self)@.responses[index as int] },
                ),
                ..old(self)@
            }),
    {
        self.responses[index].is_folded = is_folded;
        assert(self.responses.deep_view() =~= old(self)@.responses.update(
            index as int,
            ResponseModel { is_folded, ..old(self)@.responses[index as int] },
        ));
    }

    /// Chooses the side of the response at an index that is on screen.
    pub fn set_response_view(&mut self, index: usize, selected_view: ResponseView)
        requires
            index < old(self)@.responses.len(),
        ensures
            final(self)@ == (ExecutorModel {
                responses: old(self)@.responses.update(
                    index as int,
                    ResponseModel { selected_view, ..old(self)@.responses[index as int] },
                ),
                ..old(self)@
            }),
    {
        self.responses[index].selected_view = selected_view;
        assert(self.responses.deep_view() =~= old(self)@.responses.update(
            index as int,
            ResponseModel { selected_view, ..old(self)@.responses[index as int] },
        ));
    }

    /// Chooses how the JSON body of the response at an index is laid out.
    pub fn set_response_json_view(&mut self, index: usize, view_type: JsonViewType)
        requires
            index < old(self)@.responses.len(),
        ensures
            final(self)@ == (ExecutorModel {
                responses: old(self)@.responses.update(
                    index as int,
                    ResponseModel {
                        data: ResponseDataModel {
                            json: JsonViewModel {
                                view_type,
                                ..old(self)@.responses[index as int].data.json
                            },
                            ..old(self)@.responses[index as int].data
                        },
                        ..old(self)@.responses[index as int]
                    },
                ),
                ..old(self)@
            }),
    {
        self.responses[index].data.json.view_type = view_type;
        assert(self.responses.deep_view() =~= old(self)@.responses.update(
            index as int,
            ResponseModel {
                data: ResponseDataModel {
                    json: JsonViewModel {
                        view_type,
                        ..old(self)@.responses[index as int].data.json
                    },
                    ..old(self)@.responses[index as int].data
                },
                ..old(self)@.responses[index as int]
            },
        ));
    }

    /// Ends the session: the executor is free and has no channel.
    fn finish(&mut self)
        ensures
            final(self)@ == ended(old(self)@),
    {
        self.link = Link { state: State::FREE, channel_sender: None, session: Session::CLOSED };
    }

    /// Appends a response.
    fn push(&mut self, response: Response)
        ensures
            final(self)@ == with_response(old(self)@, response@),
    {
        self.responses.push(response);
        assert(self.responses.deep_view() =~= old(self).responses.deep_view().push(response@));
    }

    /// Takes the link out, leaving the link of a free executor in its place.
    fn unlink(&mut self) -> (r: Link)
        ensures
            r == old(self).link,
            final(self).responses == old(self).responses,
            final(self)@ == ended(old(self)@),
            wf(old(self)@),
    {
        proof {
            use_type_invariant(&self.link);
        }
        let mut link = Link { state: State::FREE, channel_sender: None, session: Session::CLOSED };
        core::mem::swap(&mut self.link, &mut link);
        link
    }

    /// Offers a message to the command channel; without a channel the
    /// executor is set free.
    fn send_ws(&mut self, message: Message)
        ensures
            final(self)@ == (match old(self)@.channel {
                Some(queue) => ExecutorModel {
                    channel: Some(queue_send(queue, message@)),
                    ..old(self)@
                },
                None => ExecutorModel { state: State::FREE, ..old(self)@ },
            }),
    {
        let link = self.unlink();
        match link.channel_sender {
            Some(mut channel) => {
                let _ = channel.try_send(message);
                self.link = Link { state: link.state, channel_sender: Some(channel), session: link.session };
            },
            None => {
                self.link = Link { state: State::FREE, channel_sender: None, session: link.session };
            },
        }
    }

    /// Takes the oldest message off the command channel, if one waits.
    fn try_recv(&mut self) -> (r: Option<Message>)
        ensures
            match old(self)@.channel {
                Some(queue) => if queue.len() > 0 {
                    r matches Some(message) && message@ == queue[0] && final(self)@ == (
                    ExecutorModel { channel: Some(queue.drop_first()), ..old(self)@ })
                } else {
                    r is None && final(self)@ == old(self)@
                },
                None => r is None && final(self)@ == old(self)@,
            },
    {
        let link = self.unlink();
        match link.channel_sender {
            Some(mut channel) => {
                let message = channel.try_recv();
                self.link = Link { state: link.state, channel_sender: Some(channel), session: link.session };
                message
            },
            None => {
                self.link = Link { state: link.state, channel_sender: None, session: link.session };
                None
            },
        }
    }

    /// Fires a request at the given time. See `execute`.
    pub fn execute_at(
        &mut self,
        data: &RequestData,
        connection_only: bool,
        events: &mut Events,
        now: i64,
    ) -> (r: Activation)
        ensures
            (final(self)@, r@) == spec_execute(old(self)@, data@, connection_only),
            final(events)@ == execute_log(old(self)@.state, data@.protocol, old(events)@, now),
            old(self)@.state == State::BUSY ==> final(self)@ == old(self)@ && r@ is NONE
                && final(events)@ == old(events)@,
            final(self)@.responses == old(self)@.responses,
            wf(old(self)@),
            wf(final(self)@),
    {
        proof {
            use_type_invariant(&self.link);
            law_execute_keeps_invariant(old(self)@, data@, connection_only);
        }
        match self.link.state {
            State::CONNECTED => {
                events.record(
                    EventKind::Info,
                    &"Detected connected websocket session, sending request...".to_string(),
                    now,
                );
                self.send_ws(Message::execute(data));
                Activation::NONE
            },
            State::FREE => {
                if data.protocol.is_http() {
                    events.record(
                        EventKind::Info,
                        &"Detected free executor, sending http request...".to_string(),
                        now,
                    );
                    self.link = Link {
                        state: State::BUSY,
                        channel_sender: Some(CommandChannel::new()),
                        session: Session::HTTP,
                    };
                    Activation::HTTP(CommandExecute::from(data))
                } else {
                    events.record(
                        EventKind::Info,
                        &"Detected free executor, sending websocket request...".to_string(),
                        now,
                    );
                    let mut command = CommandExecute::from(data);
                    if connection_only {
                        command.message = String::new();
                    }
                    self.link = Link {
                        state: State::CONNECTED,
                        channel_sender: Some(CommandChannel::new()),
                        session: Session::CONNECTING(command.clone()),
                    };
                    Activation::WS(command)
                }
            },
            State::BUSY => Activation::NONE,
        }
    }

    /// Fires a request.
    ///
    /// In a connected session the request joins the command channel, to be
    /// written to the socket; a full channel drops it. A free executor
    /// becomes busy and asks for an HTTP exchange, or becomes connected and
    /// asks for a WebSocket session, as the protocol says; with
    /// `connection_only` the session opens without a first message. A busy
    /// executor does nothing.
    pub fn execute(&mut self, data: &RequestData, connection_only: bool, events: &mut Events) -> (r:
        Activation)
        ensures
            (final(self)@, r@) == spec_execute(old(self)@, data@, connection_only),
            exists|now: i64|
                final(events)@ == execute_log(old(self)@.state, data@.protocol, old(events)@, now),
            old(self)@.state == State::BUSY ==> final(self)@ == old(self)@ && r@ is NONE
                && final(events)@ == old(events)@,
            final(self)@.responses == old(self)@.responses,
            wf(old(self)@),
            wf(final(self)@),
    {
        self.execute_at(data, connection_only, events, clock::now_millis())
    }

    /// Asks the running session to stop, without waiting for it: the
    /// request joins the command channel. A free executor stays as it is.
    pub fn terminate(&mut self)
        ensures
            final(self)@ == spec_terminate(old(self)@),
            old(self)@.state == State::FREE ==> final(self)@ == old(self)@,
            wf(old(self)@),
            wf(final(self)@),
    {
        proof {
            use_type_invariant(&self.link);
            law_terminate_keeps_invariant(old(self)@);
        }
        self.send_ws(Message::terminate());
    }

    /// Takes in, at the given time, what happened to the HTTP exchange. See
    /// `http_thread`.
    pub fn http_thread_at(&mut self, event: HttpEvent, events: &mut Events, now: i64)
        ensures
            final(self)@ == spec_http_step(old(self)@, event@, now),
            final(events)@ == http_log(old(self)@, event@, old(events)@, now),
            old(self)@.state == State::BUSY && !(event@ is COMMAND) ==> final(self)@.state
                == State::FREE && final(self)@.responses.len() == old(self)@.responses.len() + 1,
            wf(old(self)@),
            wf(final(self)@),
    {
        proof {
            use_type_invariant(&self.link);
            law_http_step_keeps_invariant(old(self)@, event@, now);
        }
        match self.link.session {
            Session::HTTP => {},
            _ => {
                return ;
            },
        }
        let outcome = match event {
            HttpEvent::COMMAND => {
                let waiting = self.try_recv();
                if waiting.is_some() {
                    self.finish();
                }
                return ;
            },
            HttpEvent::REPLY(reply) => {
                let outcome = Response::from_http_response_at(reply, now);
                if outcome.is_ok() {
                    events.record(EventKind::Info, &"Received success response".to_string(), now);
                }
                outcome
            },
            HttpEvent::FAILURE(status) => {
                let outcome = Response::from_http_error_at(status, now);
                if outcome.is_ok() {
                    events.record(
                        EventKind::Info,
                        &"Received success error response".to_string(),
                        now,
                    );
                }
                outcome
            },
        };
        let response = match outcome {
            Ok(response) => response,
            Err((response, message)) => {
                events.record(EventKind::Error, &message, now);
                response
            },
        };
        self.push(response);
        self.finish();
    }

    /// Takes in what happened to the HTTP exchange.
    ///
    /// When the exchange has come back, with a response or with a failure,
    /// exactly one record is appended and the executor is free again. When
    /// a command waits on the channel instead, the exchange is given up:
    /// the executor is free again and no record is made. Only the first of
    /// the two counts: once the session has ended, nothing changes.
    pub fn http_thread(&mut self, event: HttpEvent, events: &mut Events)
        ensures
            exists|now: i64|
                final(self)@ == spec_http_step(old(self)@, event@, now) && final(events)@
                    == http_log(old(self)@, event@, old(events)@, now),
            old(self)@.state == State::BUSY && !(event@ is COMMAND) ==> final(self)@.state
                == State::FREE && final(self)@.responses.len() == old(self)@.responses.len() + 1,
            wf(old(self)@),
            wf(final(self)@),
    {
        self.http_thread_at(event, events, clock::now_millis());
    }

    /// Looks at the command channel of an open WebSocket session.
    fn ws_tick(&mut self, events: &mut Events, now: i64) -> (r: WsAction)
        ensures
            (final(self)@, r@) == spec_ws_tick(old(self)@),
            final(events)@ == ws_tick_log(old(self)@, old(events)@, now),
    {
        match self.try_recv() {
            Some(Message::COMMAND(Command::EXECUTE(command_execute))) => {
                events.record(EventKind::Info, &"Websocket: sending message".to_string(), now);
                WsAction::SEND(command_execute)
            },
            Some(Message::COMMAND(Command::TERRMINATE)) => {
                events.record(
                    EventKind::Info,
                    &"Websocket: requested WS termination.".to_string(),
                    now,
                );
                self.finish();
                WsAction::STOP
            },
            Some(Message::RESULT(_)) => {
                events.record(
                    EventKind::Warning,
                    &"Error: Received in command channel Result type: Result".to_string(),
                    now,
                );
                WsAction::WAIT
            },
            None => WsAction::WAIT,
        }
    }

    /// Takes in, at the given time, what happened to the WebSocket session.
    /// See `ws_thread`.
    pub fn ws_thread_at(&mut self, event: WsEvent, events: &mut Events, now: i64) -> (r: WsAction)
        ensures
            (final(self)@, r@) == spec_ws_step(old(self)@, event@, now),
            final(events)@ == ws_log(old(self)@, event@, old(events)@, now),
            wf(old(self)@),
            wf(final(self)@),
    {
        proof {
            use_type_invariant(&self.link);
            law_ws_step_keeps_invariant(old(self)@, event@, now);
        }
        let link = self.unlink();
        match link.session {
            Session::CONNECTING(command) => match event {
                WsEvent::CONNECTED => {
                    events.record(
                        EventKind::Info,
                        &"Websocket: start messages loop...".to_string(),
                        now,
                    );
                    self.link = Link {
                        state: link.state,
                        channel_sender: link.channel_sender,
                        session: Session::OPEN,
                    };
                    if command.message.as_str().unicode_len() > 0 {
                        WsAction::SEND(command)
                    } else {
                        WsAction::WAIT
                    }
                },
                WsEvent::REFUSED(why) => {
                    let message = "Error: Could not connect to WS. Error: ".to_string().concat(
                        why.as_str(),
                    );
                    events.record(EventKind::Error, &message, now);
                    WsAction::STOP
                },
                _ => {
                    self.link = Link {
                        state: link.state,
                        channel_sender: link.channel_sender,
                        session: Session::CONNECTING(command),
                    };
                    WsAction::WAIT
                },
            },
            Session::OPEN => {
                self.link = Link {
                    state: link.state,
                    channel_sender: link.channel_sender,
                    session: Session::OPEN,
                };
                match event {
                    WsEvent::TEXT(text) => {
                        events.record(
                            EventKind::Info,
                            &"Websocket: received response".to_string(),
                            now,
                        );
                        self.push(Response::from_utf8_bytes_at(text, now));
                        WsAction::WAIT
                    },
                    WsEvent::CLOSE => {
                        events.record(
                            EventKind::Warning,
                            &"Peer close connection.".to_string(),
                            now,
                        );
                        self.push(Response::closed_connection_at(now));
                        self.finish();
                        WsAction::STOP
                    },
                    WsEvent::FAILED(why) => {
                        let prefix =
                            "Error: During WS connection on new message error occured. Error: ";
                        let message = prefix.to_string().concat(why.as_str());
                        events.record(EventKind::Error, &message, now);
                        self.push(Response::closed_connection_at(now));
                        self.finish();
                        WsAction::STOP
                    },
                    WsEvent::TICK => self.ws_tick(events, now),
                    WsEvent::UNSENT(command, why) => {
                        let prefix = "Error: Could not send message to WS channel. Message: ";
                        let message = prefix.to_string().concat(command.body.as_str()).concat(
                            ". Error: ",
                        ).concat(why.as_str());
                        events.record(EventKind::Error, &message, now);
                        WsAction::WAIT
                    },
                    _ => WsAction::WAIT,
                }
            },
            other => {
                self.link = Link { state: link.state, channel_sender: link.channel_sender, session: other };
                WsAction::STOP
            },
        }
    }

    /// Takes in what happened to the WebSocket session, and answers what
    /// the session has to do next.
    ///
    /// While connecting: success opens the session, and the first message,
    /// if there is one, is to be written; failure sets the executor free.
    /// Once open: a text frame becomes a record; a close from the peer or a
    /// failed read becomes the record of a closed connection and sets the
    /// executor free; a tick takes the oldest message off the command
    /// channel, a request to be written or the request to stop; a failed
    /// write is logged and the session goes on.
    pub fn ws_thread(&mut self, event: WsEvent, events: &mut Events) -> (r: WsAction)
        ensures
            exists|now: i64|
                (final(self)@, r@) == spec_ws_step(old(self)@, event@, now) && final(events)@
                    == ws_log(old(self)@, event@, old(events)@, now),
            wf(old(self)@),
            wf(final(self)@),
    {
        self.ws_thread_at(event, events, clock::now_millis())
    }
}

} // verus!
