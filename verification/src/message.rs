//! Commands and messages: the values that flow between the model, the
//! effect dispatcher and the program driver.

use std::future::Future;
use std::pin::Pin;
use tokio::sync::mpsc;
use tokio_util::sync::CancellationToken;
use vstd::prelude::*;
use vstd::string::StringExecFns;

verus! {

/// `tokio_util::sync::CancellationToken`, carried as an opaque value.
#[verifier::external_type_specification]
#[verifier::external_body]
pub struct ExCancellationToken(tokio_util::sync::CancellationToken);

/// `tokio::sync::mpsc::Sender`, carried as an opaque value.
#[verifier::external_type_specification]
#[verifier::external_body]
#[verifier::reject_recursive_types(T)]
pub struct ExSender<T>(tokio::sync::mpsc::Sender<T>);

/// `tokio::sync::mpsc::Receiver`, carried as an opaque value.
#[verifier::external_type_specification]
#[verifier::external_body]
#[verifier::reject_recursive_types(T)]
pub struct ExReceiver<T>(tokio::sync::mpsc::Receiver<T>);

/// `crossterm::event::Event`, carried as an opaque value.
#[verifier::external_type_specification]
#[verifier::external_body]
pub struct ExEvent(crossterm::event::Event);

/// `tokio::task::JoinError`, carried as an opaque value.
#[verifier::external_type_specification]
#[verifier::external_body]
pub struct ExJoinError(tokio::task::JoinError);

/// `tokio::sync::mpsc::error::SendError`: the value that could not be sent.
#[verifier::external_type_specification]
#[verifier::reject_recursive_types(T)]
pub struct ExSendError<T>(tokio::sync::mpsc::error::SendError<T>);

/// The future an asynchronous effect resolves through.
pub type EffectFuture = Pin<Box<dyn Future<Output = Option<Message>> + Send>>;

/// A cooperative effect: given a command sender and the cancellation signal
/// of its group, it yields at most one message.
pub type AsyncCommand = dyn FnOnce(mpsc::Sender<Command>, CancellationToken) -> EffectFuture + Send;

/// A synchronous effect, meant to run on a dedicated worker.
pub type BlockingCommand = dyn FnOnce(mpsc::Sender<Command>, CancellationToken) -> Option<
    Message,
> + Send;

/// Carrier of a boxed cooperative effect. The closure is opaque to the
/// verifier; whoever executes the effect takes it out of `run`.
#[verifier::external_body]
pub struct AsyncEffect {
    pub run: Box<AsyncCommand>,
}

/// Carrier of a boxed synchronous effect.
#[verifier::external_body]
pub struct BlockingEffect {
    pub run: Box<BlockingCommand>,
}

/// Carrier of a lazy, possibly unbounded sequence of messages.
#[verifier::external_body]
pub struct MessageStream {
    pub items: Pin<Box<dyn futures::Stream<Item = Message> + Send>>,
}

/// Carrier of an application-defined value, type-erased at the boundary.
#[verifier::external_body]
pub struct Payload {
    pub value: Box<dyn std::any::Any + Send>,
}

/// The effect of a command.
pub enum CommandFn {
    Async(AsyncEffect),
    Blocking(BlockingEffect),
}

/// A side effect to be executed by the dispatcher, together with the name
/// of the group it is cancelled with.
pub struct Command {
    pub name: String,
    pub func: CommandFn,
}

/// A value delivered to the model, or a control signal for the dispatcher.
pub enum Message {
    /// Enqueue all commands, with no ordering between them.
    Batch(Vec<Command>),
    /// Run the commands strictly one after another.
    Sequence(Vec<Command>),
    /// Route every message of the stream until it ends.
    Stream(MessageStream),
    /// An input event from the terminal.
    TermEvent(crossterm::event::Event),
    /// Request an orderly shutdown.
    Quit,
    /// Cancel every registered effect group.
    CancelAll,
    /// Cancel the effect group of this name.
    Cancel(String),
    /// Acknowledges a cancel request; `None` acknowledges `CancelAll`.
    CancellationComplete(Option<String>),
    /// An application-defined payload.
    Custom(Payload),
}

pub type OptionalCommand = Option<Command>;

/// Whether the driver keeps running after a message has been applied.
#[derive(Clone, Copy, PartialEq, Eq, Debug, Structural)]
pub enum QuitBehavior {
    Quit,
    Continue,
}

/// A failure of the message plumbing.
#[derive(Debug)]
pub enum MessageError {
    /// A channel send found the receiver closed; carries the send error's text.
    SendFailure(String),
    /// A dispatched task panicked or was aborted.
    JoinFailure(tokio::task::JoinError),
}

/// Calls `to_string` on a `SendError`, whose `Display` writes the fixed
/// text "channel closed" whatever the value.
#[verifier::external_body]
fn send_error_text<T>(error: &mpsc::error::SendError<T>) -> (text: String)
    ensures
        text@ == "channel closed"@,
{
    error.to_string()
}

/// Calls `to_string` on a `JoinError`. The text names the task and says
/// whether it panicked or was cancelled; nothing is claimed of it.
#[verifier::external_body]
fn join_error_text(error: &tokio::task::JoinError) -> String {
    error.to_string()
}

impl MessageError {
    /// The failure that a refused send is reported as: it carries the send
    /// error's text.
    pub fn send_failure<T>(error: &mpsc::error::SendError<T>) -> (e: MessageError)
        ensures
            e matches MessageError::SendFailure(text) && text@ == "channel closed"@,
    {
        MessageError::SendFailure(send_error_text(error))
    }

    /// The text of this failure: that of the error it carries.
    pub fn message(&self) -> (text: String)
        ensures
            self matches MessageError::SendFailure(t) ==> text@ == t@,
    {
        match self {
            MessageError::SendFailure(t) => t.clone(),
            MessageError::JoinFailure(e) => join_error_text(e),
        }
    }
}

/// The message that an effect made by `AsyncEffect::ready` yields at its
/// first poll. Of an effect made from a coroutine it says nothing.
pub uninterp spec fn ready_message(effect: AsyncEffect) -> Option<Message>;

impl AsyncEffect {
    /// Boxes `f` as a cooperative effect. Wraps `Box::new` and `Box::pin`;
    /// nothing is claimed of the closure.
    #[verifier::external_body]
    pub(crate) fn new<F: Future<Output = Option<Message>> + Send + 'static>(
        f: impl FnOnce(mpsc::Sender<Command>, CancellationToken) -> F + Send + 'static,
    ) -> AsyncEffect {
        AsyncEffect { run: Box::new(|sender, token| Box::pin(f(sender, token))) }
    }

    /// An effect that yields `msg` at once, whatever sender and signal it
    /// is run with. Wraps `std::future::ready`, whose future resolves to
    /// its argument at the first poll.
    #[verifier::external_body]
    pub(crate) fn ready(msg: Message) -> (effect: AsyncEffect)
        ensures
            ready_message(effect) == Some(msg),
    {
        AsyncEffect { run: Box::new(move |_, _| Box::pin(std::future::ready(Some(msg)))) }
    }
}

impl BlockingEffect {
    /// Boxes `f` as a synchronous effect. Wraps `Box::new`; nothing is
    /// claimed of the closure.
    #[verifier::external_body]
    pub(crate) fn new(
        f: impl FnOnce(mpsc::Sender<Command>, CancellationToken) -> Option<Message> + Send + 'static,
    ) -> BlockingEffect {
        BlockingEffect { run: Box::new(f) }
    }
}

impl Payload {
    /// Boxes `value`. Wraps `Box::new`.
    #[verifier::external_body]
    pub(crate) fn new<T: std::any::Any + Send>(value: T) -> Payload {
        Payload { value: Box::new(value) }
    }
}

impl Command {
    /// A command in the default group that runs the coroutine `f`.
    pub fn new_async<F: Future<Output = Option<Message>> + Send + 'static>(
        f: impl FnOnce(mpsc::Sender<Command>, CancellationToken) -> F + Send + 'static,
    ) -> (cmd: Self)
        ensures
            cmd.name@ == Seq::<char>::empty(),
            cmd.func is Async,
    {
        Command { name: String::new(), func: CommandFn::Async(AsyncEffect::new(f)) }
    }

    /// A command in the default group that runs `f` on a blocking worker.
    pub fn new_blocking(
        f: impl FnOnce(mpsc::Sender<Command>, CancellationToken) -> Option<Message> + Send + 'static,
    ) -> (cmd: Self)
        ensures
            cmd.name@ == Seq::<char>::empty(),
            cmd.func is Blocking,
    {
        Command { name: String::new(), func: CommandFn::Blocking(BlockingEffect::new(f)) }
    }

    /// A cooperative command in the default group that yields `msg` at once.
    pub fn simple(msg: Message) -> (cmd: Self)
        ensures
            cmd.name@ == Seq::<char>::empty(),
            cmd.func matches CommandFn::Async(effect) && ready_message(effect) == Some(msg),
    {
        Command { name: String::new(), func: CommandFn::Async(AsyncEffect::ready(msg)) }
    }

    /// `simple(Message::Quit)`.
    pub fn quit() -> (cmd: Self)
        ensures
            cmd.name@ == Seq::<char>::empty(),
            cmd.func matches CommandFn::Async(effect) && ready_message(effect) == Some(Message::Quit),
    {
        Self::simple(Message::Quit)
    }

    /// The same effect, in the group `name`.
    pub fn with_name(self, name: &str) -> (cmd: Self)
        ensures
            cmd.name@ == name@,
            cmd.func == self.func,
    {
        Command { name: name.to_owned(), func: self.func }
    }
}

impl Message {
    /// Wraps an application value as `Custom`.
    pub fn custom<T: std::any::Any + Send>(msg: T) -> (m: Self)
        ensures
            m is Custom,
    {
        Message::Custom(Payload::new(msg))
    }
}

/// The text that `{:?}` gives for a string: the string between double
/// quotes, with quotes, backslashes and control characters escaped.
pub uninterp spec fn quoted(text: Seq<char>) -> Seq<char>;

/// Formats a string with `{:?}`.
#[verifier::external_body]
fn quote(text: &str) -> (quoted_text: String)
    ensures
        quoted_text@ == quoted(text@),
{
    format!("{:?}", text)
}

/// Formats a terminal event with `{:?}`. Nothing is claimed of the text.
#[verifier::external_body]
fn event_text(event: &crossterm::event::Event) -> String {
    format!("{:?}", event)
}

/// The debug text of an effect: its kind, with the function left out.
pub open spec fn command_fn_text(func: CommandFn) -> Seq<char> {
    match func {
        CommandFn::Async(_) => "Async(\"Fn\")"@,
        CommandFn::Blocking(_) => "Blocking(\"Fn\")"@,
    }
}

/// The debug text of a command, given its name as `{:?}` shows it.
pub open spec fn command_text_with(quoted_name: Seq<char>, func: CommandFn) -> Seq<char> {
    "Command { name: "@ + quoted_name + ", func: "@ + command_fn_text(func) + " }"@
}

/// The debug text of a command.
pub open spec fn command_text(cmd: Command) -> Seq<char> {
    command_text_with(quoted(cmd.name@), cmd.func)
}

/// The debug texts of commands, separated by `", "`.
pub open spec fn commands_text(cmds: Seq<Command>) -> Seq<char>
    decreases cmds.len(),
{
    if cmds.len() == 0 {
        Seq::empty()
    } else if cmds.len() == 1 {
        command_text(cmds[0])
    } else {
        commands_text(cmds.drop_last()) + ", "@ + command_text(cmds.last())
    }
}

/// The debug text of a message, given the text of what it carries. A
/// stream and a custom payload are not shown.
pub open spec fn message_text_with(msg: Message, carried: Seq<char>) -> Seq<char> {
    match msg {
        Message::Batch(_) => "Batch(["@ + carried + "])"@,
        Message::Sequence(_) => "Sequence(["@ + carried + "])"@,
        Message::Stream(_) => "Stream(\"<stream>\")"@,
        Message::TermEvent(_) => "TermEvent("@ + carried + ")"@,
        Message::Quit => "Quit"@,
        Message::CancelAll => "CancelAll"@,
        Message::Cancel(_) => "Cancel("@ + carried + ")"@,
        Message::CancellationComplete(Some(_)) => "CancellationComplete(Some("@ + carried + "))"@,
        Message::CancellationComplete(None) => "CancellationComplete(None)"@,
        Message::Custom(_) => "Custom(Any { .. })"@,
    }
}

/// The text of what a message carries: the debug texts of its commands,
/// its name as `{:?}` shows it, or the debug text of its terminal event,
/// which is given.
pub open spec fn carried_text(msg: Message, event: Seq<char>) -> Seq<char> {
    match msg {
        Message::Batch(cmds) => commands_text(cmds@),
        Message::Sequence(cmds) => commands_text(cmds@),
        Message::TermEvent(_) => event,
        Message::Cancel(name) => quoted(name@),
        Message::CancellationComplete(Some(name)) => quoted(name@),
        _ => Seq::empty(),
    }
}

/// The debug text of a message, given the debug text of the terminal
/// event, which only `TermEvent` shows.
pub open spec fn message_text(msg: Message, event: Seq<char>) -> Seq<char> {
    message_text_with(msg, carried_text(msg, event))
}

impl CommandFn {
    /// The debug text of this effect.
    pub fn debug_text(&self) -> (text: String)
        ensures
            text@ == command_fn_text(*self),
    {
        match self {
            CommandFn::Async(_) => "Async(\"Fn\")".to_owned(),
            CommandFn::Blocking(_) => "Blocking(\"Fn\")".to_owned(),
        }
    }
}

impl Command {
    /// The debug text of this command, given its name as `{:?}` shows it.
    pub fn debug_text_with(&self, quoted_name: &str) -> (text: String)
        ensures
            text@ == command_text_with(quoted_name@, self.func),
    {
        let mut text = "Command { name: ".to_owned();
        text.append(quoted_name);
        text.append(", func: ");
        text.append(self.func.debug_text().as_str());
        text.append(" }");
        text
    }

    /// The debug text of this command.
    pub fn debug_text(&self) -> (text: String)
        ensures
            text@ == command_text(*self),
    {
        let quoted_name = quote(self.name.as_str());
        self.debug_text_with(quoted_name.as_str())
    }
}

/// The debug texts of `cmds`, separated by `", "`.
fn commands_debug_text(cmds: &Vec<Command>) -> (text: String)
    ensures
        text@ == commands_text(cmds@),
{
    let mut text = String::new();
    let mut i: usize = 0;
    while i < cmds.len()
        invariant
            i <= cmds@.len(),
            text@ == commands_text(cmds@.take(i as int)),
        decreases cmds@.len() - i,
    {
        let ghost before = text@;
        if i > 0 {
            text.append(", ");
        }
        text.append(cmds[i].debug_text().as_str());
        proof {
            let next = cmds@.take(i + 1);
            assert(next.drop_last() =~= cmds@.take(i as int));
            assert(next.last() == cmds@[i as int]);
            if i == 0 {
                assert(before =~= Seq::<char>::empty());
                assert(next[0] == cmds@[0]);
                assert(text@ =~= command_text(cmds@[0]));
            }
        }
        i += 1;
    }
    assert(cmds@.take(i as int) =~= cmds@);
    text
}

impl Message {
    /// The debug text of this message, given the text of what it carries.
    pub fn debug_text_with(&self, carried: &str) -> (text: String)
        ensures
            text@ == message_text_with(*self, carried@),
    {
        let mut text = String::new();
        match self {
            Message::Batch(_) => {
                text.append("Batch([");
                text.append(carried);
                text.append("])");
            },
            Message::Sequence(_) => {
                text.append("Sequence([");
                text.append(carried);
                text.append("])");
            },
            Message::Stream(_) => {
                text.append("Stream(\"<stream>\")");
            },
            Message::TermEvent(_) => {
                text.append("TermEvent(");
                text.append(carried);
                text.append(")");
            },
            Message::Quit => {
                text.append("Quit");
            },
            Message::CancelAll => {
                text.append("CancelAll");
            },
            Message::Cancel(_) => {
                text.append("Cancel(");
                text.append(carried);
                text.append(")");
            },
            Message::CancellationComplete(Some(_)) => {
                text.append("CancellationComplete(Some(");
                text.append(carried);
                text.append("))");
            },
            Message::CancellationComplete(None) => {
                text.append("CancellationComplete(None)");
            },
            Message::Custom(_) => {
                text.append("Custom(Any { .. })");
            },
        }
        assert(text@ =~= message_text_with(*self, carried@));
        text
    }

    /// The debug text of this message.
    pub fn debug_text(&self) -> (text: String)
        ensures
            exists|event: Seq<char>| text@ == #[trigger] message_text(*self, event),
    {
        let carried = match self {
            Message::Batch(cmds) => commands_debug_text(cmds),
            Message::Sequence(cmds) => commands_debug_text(cmds),
            Message::TermEvent(event) => event_text(event),
            Message::Cancel(name) => quote(name.as_str()),
            Message::CancellationComplete(Some(name)) => quote(name.as_str()),
            _ => String::new(),
        };
        let text = self.debug_text_with(carried.as_str());
        assert(carried@ =~= carried_text(*self, carried@));
        assert(text@ == message_text(*self, carried@));
        text
    }
}

} // verus!
