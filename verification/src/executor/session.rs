use vstd::prelude::*;
use crate::executor::command::{CommandExecute, CommandExecuteModel};
use crate::states::main_page::response::{HttpReply, HttpReplyModel};

verus! {

/// Where the session of an executor stands. A WebSocket session is first
/// connecting, holding the request it was started with, then open.
#[derive(Debug)]
pub enum Session {
    /// No session runs.
    CLOSED,
    /// One HTTP exchange is under way.
    HTTP,
    /// The WebSocket handshake is under way.
    CONNECTING(CommandExecute),
    /// The WebSocket is open.
    OPEN,
}

/// The stage of a session as a value.
pub enum SessionModel {
    CLOSED,
    HTTP,
    CONNECTING(CommandExecuteModel),
    OPEN,
}

impl View for Session {
    type V = SessionModel;

    open spec fn view(&self) -> SessionModel {
        match *self {
            Session::CLOSED => SessionModel::CLOSED,
            Session::HTTP => SessionModel::HTTP,
            Session::CONNECTING(command) => SessionModel::CONNECTING(command@),
            Session::OPEN => SessionModel::OPEN,
        }
    }
}

/// What the caller of `execute` has to start.
#[derive(Debug)]
pub enum Activation {
    /// Nothing: no session was started.
    NONE,
    /// One HTTP exchange for this request.
    HTTP(CommandExecute),
    /// One WebSocket session for this request.
    WS(CommandExecute),
}

/// An activation as a value.
pub enum ActivationModel {
    NONE,
    HTTP(CommandExecuteModel),
    WS(CommandExecuteModel),
}

impl View for Activation {
    type V = ActivationModel;

    open spec fn view(&self) -> ActivationModel {
        match *self {
            Activation::NONE => ActivationModel::NONE,
            Activation::HTTP(command) => ActivationModel::HTTP(command@),
            Activation::WS(command) => ActivationModel::WS(command@),
        }
    }
}

/// What can happen to an HTTP session.
#[derive(Debug)]
pub enum HttpEvent {
    /// A command waits on the channel.
    COMMAND,
    /// The exchange came back with a response.
    REPLY(HttpReply),
    /// The exchange failed; at most a status code is known.
    FAILURE(Option<u16>),
}

/// An HTTP event as a value.
pub enum HttpEventModel {
    COMMAND,
    REPLY(HttpReplyModel),
    FAILURE(Option<u16>),
}

impl View for HttpEvent {
    type V = HttpEventModel;

    open spec fn view(&self) -> HttpEventModel {
        match *self {
            HttpEvent::COMMAND => HttpEventModel::COMMAND,
            HttpEvent::REPLY(reply) => HttpEventModel::REPLY(reply@),
            HttpEvent::FAILURE(status) => HttpEventModel::FAILURE(status),
        }
    }
}

/// What can happen to a WebSocket session.
#[derive(Debug)]
pub enum WsEvent {
    /// The handshake succeeded.
    CONNECTED,
    /// The handshake failed, for the reason given.
    REFUSED(String),
    /// A text frame came in.
    TEXT(String),
    /// The peer closed the connection.
    CLOSE,
    /// A frame of another kind came in, or the stream had nothing.
    OTHER,
    /// Reading failed, for the reason given.
    FAILED(String),
    /// It is time to look at the command channel.
    TICK,
    /// A request could not be written, for the reason given.
    UNSENT(CommandExecute, String),
}

/// A WebSocket event as a value.
pub enum WsEventModel {
    CONNECTED,
    REFUSED(Seq<char>),
    TEXT(Seq<char>),
    CLOSE,
    OTHER,
    FAILED(Seq<char>),
    TICK,
    UNSENT(CommandExecuteModel, Seq<char>),
}

impl View for WsEvent {
    type V = WsEventModel;

    open spec fn view(&self) -> WsEventModel {
        match *self {
            WsEvent::CONNECTED => WsEventModel::CONNECTED,
            WsEvent::REFUSED(why) => WsEventModel::REFUSED(why@),
            WsEvent::TEXT(text) => WsEventModel::TEXT(text@),
            WsEvent::CLOSE => WsEventModel::CLOSE,
            WsEvent::OTHER => WsEventModel::OTHER,
            WsEvent::FAILED(why) => WsEventModel::FAILED(why@),
            WsEvent::TICK => WsEventModel::TICK,
            WsEvent::UNSENT(command, why) => WsEventModel::UNSENT(command@, why@),
        }
    }
}

/// What a WebSocket session has to do next.
#[derive(Debug)]
pub enum WsAction {
    /// Go on waiting for events.
    WAIT,
    /// Write the message of this request to the socket, then go on.
    SEND(CommandExecute),
    /// Drop the socket and end.
    STOP,
}

/// An action as a value.
pub enum WsActionModel {
    WAIT,
    SEND(CommandExecuteModel),
    STOP,
}

impl View for WsAction {
    type V = WsActionModel;

    open spec fn view(&self) -> WsActionModel {
        match *self {
            WsAction::WAIT => WsActionModel::WAIT,
            WsAction::SEND(command) => WsActionModel::SEND(command@),
            WsAction::STOP => WsActionModel::STOP,
        }
    }
}

} // verus!
