use vstd::prelude::*;
use crate::settings::method_settings::Method;
use crate::settings::protocol_settings::{protocol_name, protocol_scheme, Protocol};
use crate::states::main_page::generics::{clone_headers, Header, HeaderModel};
use crate::states::main_page::request::request_data::{RequestData, RequestDataModel};

verus! {

/// What a session answers on the command channel. Nothing is sent with it:
/// results go to the response list.
#[derive(Clone, Copy, Debug, PartialEq, Eq, Structural)]
pub struct Result {}

/// A request as it is handed to a session: a snapshot, taken when the
/// request is fired, that later edits do not reach.
#[derive(Debug)]
pub struct CommandExecute {
    pub uri: String,
    pub protocol: Protocol,
    pub method: Method,
    pub headers: Vec<Header>,
    pub body: String,
    pub message: String,
}

/// A snapshot of a request as a value.
pub struct CommandExecuteModel {
    pub uri: Seq<char>,
    pub protocol: Protocol,
    pub method: Method,
    pub headers: Seq<HeaderModel>,
    pub body: Seq<char>,
    pub message: Seq<char>,
}

impl View for CommandExecute {
    type V = CommandExecuteModel;

    open spec fn view(&self) -> CommandExecuteModel {
        CommandExecuteModel {
            uri: self.uri@,
            protocol: self.protocol,
            method: self.method,
            headers: self.headers.deep_view(),
            body: self.body@,
            message: self.message@,
        }
    }
}

/// The snapshot of what the user has written: the raw body and the message
/// go along, with the URI, the protocol, the method and the headers.
pub open spec fn command_of(data: RequestDataModel) -> CommandExecuteModel {
    CommandExecuteModel {
        uri: data.uri,
        protocol: data.protocol,
        method: data.method,
        headers: data.headers,
        body: data.body.raw.message,
        message: data.message.message,
    }
}

/// A snapshot with its message taken out.
pub open spec fn without_message(command: CommandExecuteModel) -> CommandExecuteModel {
    CommandExecuteModel { message: Seq::empty(), ..command }
}

/// The address of an HTTP exchange: the protocol's name, `://`, the URI.
pub open spec fn http_url_of(command: CommandExecuteModel) -> Seq<char> {
    protocol_name(command.protocol) + "://"@ + command.uri
}

/// The address of a WebSocket: the protocol's scheme, `://`, the URI.
pub open spec fn ws_url_of(command: CommandExecuteModel) -> Seq<char> {
    protocol_scheme(command.protocol) + "://"@ + command.uri
}

impl Clone for CommandExecute {
    fn clone(&self) -> (r: Self)
        ensures
            r@ == self@,
    {
        CommandExecute {
            uri: self.uri.clone(),
            protocol: self.protocol,
            method: self.method,
            headers: clone_headers(&self.headers),
            body: self.body.clone(),
            message: self.message.clone(),
        }
    }
}

impl CommandExecute {
    /// Takes the snapshot of a request.
    pub fn from(value: &RequestData) -> (r: Self)
        ensures
            r@ == command_of(value@),
    {
        CommandExecute {
            uri: value.uri.clone(),
            protocol: value.protocol,
            method: value.method,
            headers: clone_headers(&value.headers),
            body: value.body.raw.message.clone(),
            message: value.message.message.clone(),
        }
    }

    /// The address an HTTP exchange goes to.
    pub fn http_url(&self) -> (r: String)
        ensures
            r@ == http_url_of(self@),
    {
        self.protocol.to_string().concat("://").concat(self.uri.as_str())
    }

    /// The address a WebSocket is opened at.
    pub fn ws_url(&self) -> (r: String)
        ensures
            r@ == ws_url_of(self@),
    {
        self.protocol.scheme().concat("://").concat(self.uri.as_str())
    }
}

/// What the controller asks of a running session.
#[derive(Debug)]
pub enum Command {
    /// Send what this request holds.
    EXECUTE(CommandExecute),
    /// Stop.
    TERRMINATE,
}

/// A command as a value.
pub enum CommandModel {
    EXECUTE(CommandExecuteModel),
    TERRMINATE,
}

impl View for Command {
    type V = CommandModel;

    open spec fn view(&self) -> CommandModel {
        match *self {
            Command::EXECUTE(command) => CommandModel::EXECUTE(command@),
            Command::TERRMINATE => CommandModel::TERRMINATE,
        }
    }
}

/// A command with its message taken out; a request to stop has none.
pub open spec fn command_without_message(command: CommandModel) -> CommandModel {
    match command {
        CommandModel::EXECUTE(inner) => CommandModel::EXECUTE(without_message(inner)),
        CommandModel::TERRMINATE => CommandModel::TERRMINATE,
    }
}

impl Command {
    /// The command to send what a request holds.
    pub fn execute(data: &RequestData) -> (r: Self)
        ensures
            r@ == CommandModel::EXECUTE(command_of(data@)),
    {
        Command::EXECUTE(CommandExecute::from(data))
    }

    /// The command to stop.
    pub fn termiate() -> (r: Self)
        ensures
            r@ == CommandModel::TERRMINATE,
    {
        Command::TERRMINATE
    }

    /// Empties the message, so that a session opens without sending one.
    pub fn drop_message(&mut self)
        ensures
            final(self)@ == command_without_message(old(self)@),
    {
        match self {
            Command::EXECUTE(command_execute) => {
                command_execute.message = String::new();
            },
            Command::TERRMINATE => {},
        }
    }
}

/// What travels on the channel between the controller and a session.
#[derive(Debug)]
pub enum Message {
    /// From the controller to the session.
    COMMAND(Command),
    /// From the session back; no session sends one.
    RESULT(Result),
}

/// A message as a value.
pub enum MessageModel {
    COMMAND(CommandModel),
    RESULT,
}

impl View for Message {
    type V = MessageModel;

    open spec fn view(&self) -> MessageModel {
        match *self {
            Message::COMMAND(command) => MessageModel::COMMAND(command@),
            Message::RESULT(_) => MessageModel::RESULT,
        }
    }
}

impl DeepView for Message {
    type V = MessageModel;

    open spec fn deep_view(&self) -> MessageModel {
        self@
    }
}

/// The message that asks a session to send what a request holds.
pub open spec fn execute_message(data: RequestDataModel) -> MessageModel {
    MessageModel::COMMAND(CommandModel::EXECUTE(command_of(data)))
}

/// The message that asks a session to stop.
pub open spec fn terminate_message() -> MessageModel {
    MessageModel::COMMAND(CommandModel::TERRMINATE)
}

impl Message {
    /// The message that asks a session to send what a request holds.
    pub fn execute(data: &RequestData) -> (r: Self)
        ensures
            r@ == execute_message(data@),
    {
        Message::COMMAND(Command::execute(data))
    }

    /// The message that asks a session to stop.
    pub fn terminate() -> (r: Self)
        ensures
            r@ == terminate_message(),
    {
        Message::COMMAND(Command::termiate())
    }

    /// The command a message carries, if it carries one.
    pub fn get_command(self) -> (r: Option<Command>)
        ensures
            match self {
                Message::COMMAND(command) => r == Some(command),
                Message::RESULT(_) => r is None,
            },
    {
        match self {
            Message::COMMAND(command) => Some(command),
            Message::RESULT(_) => None,
        }
    }

    /// The result a message carries, if it carries one.
    pub fn get_result(self) -> (r: Option<Result>)
        ensures
            match self {
                Message::COMMAND(_) => r is None,
                Message::RESULT(result) => r == Some(result),
            },
    {
        match self {
            Message::COMMAND(_) => None,
            Message::RESULT(result) => Some(result),
        }
    }
}

} // verus!
