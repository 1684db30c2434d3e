//! The program driver: it owns the model, applies messages to it one at a
//! time, and renders after each update.

use crate::dispatch::{failure_of, join_result};
use crate::future_ext::CancelledByShutdown;
use crate::message::{Command, Message, MessageError, OptionalCommand, QuitBehavior};
use crate::registry::{all_fired, clone_token, fire_token, fresh_token, Registry};
use std::rc::Rc;
use tokio::sync::mpsc;
use tokio_util::sync::CancellationToken;
use vstd::prelude::*;

verus! {

/// The capacity of the command channel and of the message channel.
pub const CHANNEL_CAPACITY: usize = 32;

/// An application: a state that is initialized once, updated by one
/// message at a time, and rendered into a writer.
pub trait Model {
    type Writer;

    type Error;

    fn init(&mut self) -> Result<OptionalCommand, Self::Error>;

    fn update(&mut self, msg: Rc<Message>) -> Result<OptionalCommand, Self::Error>;

    fn view(&self, writer: &mut Self::Writer) -> Result<(), Self::Error>;
}

/// Why a program stopped abnormally.
pub enum ProgramError<M: Model> {
    /// The message plumbing failed.
    MessageFailure(MessageError),
    /// The model's `init`, `update` or `view` failed; carries its error.
    ApplicationFailure(M::Error),
}

/// What the event reader task is started with.
pub struct EventReaderParts {
    /// Where the reader sends the events it reads.
    pub msg_tx: mpsc::Sender<Message>,
    /// The signal that ends the reader.
    pub cancellation_token: CancellationToken,
}

/// What the dispatcher task is started with.
pub struct DispatcherParts {
    /// The commands to dispatch.
    pub cmd_rx: mpsc::Receiver<Command>,
    /// Where the messages that effects produce are delivered.
    pub msg_tx: mpsc::Sender<Message>,
    /// Handed to every effect, to enqueue further commands.
    pub cmd_tx: mpsc::Sender<Command>,
    /// The signal that asks the dispatcher to drain and stop.
    pub cancellation_token: CancellationToken,
}

/// What `initialize` decided: the background tasks to spawn, and what the
/// model's `init` returned.
pub struct Startup<M: Model> {
    /// Present when the event reader is enabled.
    pub event_reader: Option<EventReaderParts>,
    /// Present unless the dispatcher was handed out before.
    pub dispatcher: Option<DispatcherParts>,
    /// The command to send first, or the failure of `init`.
    pub init: Result<OptionalCommand, ProgramError<M>>,
}

/// What applying one message came to.
pub enum Handled {
    /// The message was `Quit`; the model did not see it.
    Quit,
    /// The model was updated and may have asked for a command to be sent.
    Continue(OptionalCommand),
}

impl Handled {
    /// Whether the driver goes on after this message.
    pub fn behavior(&self) -> (behavior: QuitBehavior)
        ensures
            behavior == if self is Quit {
                QuitBehavior::Quit
            } else {
                QuitBehavior::Continue
            },
    {
        match self {
            Handled::Quit => QuitBehavior::Quit,
            Handled::Continue(_) => QuitBehavior::Continue,
        }
    }
}

/// The bound that a command channel was made with: the number that
/// `Sender::max_capacity` reports for this sender and for every clone of it.
pub uninterp spec fn command_capacity(sender: mpsc::Sender<Command>) -> nat;

/// The bound that a message channel was made with: the number that
/// `Sender::max_capacity` reports for this sender and for every clone of it.
pub uninterp spec fn message_capacity(sender: mpsc::Sender<Message>) -> nat;

/// Calls `tokio::sync::mpsc::channel` for commands. The call panics unless
/// the capacity is positive and at most `usize::MAX >> 3`; the channel it
/// makes is bounded by that capacity.
#[verifier::external_body]
fn command_channel(capacity: usize) -> (ends: (mpsc::Sender<Command>, mpsc::Receiver<Command>))
    requires
        0 < capacity <= usize::MAX / 8,
    ensures
        command_capacity(ends.0) == capacity,
{
    mpsc::channel(capacity)
}

/// Calls `tokio::sync::mpsc::channel` for messages, under the same
/// condition and with the same bound.
#[verifier::external_body]
fn message_channel(capacity: usize) -> (ends: (mpsc::Sender<Message>, mpsc::Receiver<Message>))
    requires
        0 < capacity <= usize::MAX / 8,
    ensures
        message_capacity(ends.0) == capacity,
{
    mpsc::channel(capacity)
}

/// One step of an update that folds queued messages into one render.
pub enum Drain {
    /// Send the command on the command channel, then call `drain`.
    Send(Command),
    /// Call `drain`.
    Again,
    /// The update is over.
    Done(QuitBehavior),
}

/// The step that follows what the model's `update` returned.
pub open spec fn drain_outcome<M: Model>(result: Result<OptionalCommand, M::Error>) -> Result<
    Drain,
    ProgramError<M>,
> {
    match result {
        Ok(Some(cmd)) => Ok(Drain::Send(cmd)),
        Ok(None) => Ok(Drain::Again),
        Err(e) => Err(ProgramError::ApplicationFailure(e)),
    }
}

/// What the end of a background task means for the program.
pub open spec fn join_outcome<M: Model>(
    outcome: Result<Result<(), MessageError>, tokio::task::JoinError>,
) -> Result<(), ProgramError<M>> {
    match failure_of(outcome) {
        Some(e) => Err(ProgramError::MessageFailure(e)),
        None => Ok(()),
    }
}

/// Reports the end of a background task: a task that failed, or could not
/// be joined, is a failure of the message plumbing.
pub fn after_join<M: Model>(outcome: Result<Result<(), MessageError>, tokio::task::JoinError>) -> (result:
    Result<(), ProgramError<M>>)
    ensures
        result == join_outcome::<M>(outcome),
{
    match join_result(outcome) {
        Err(e) => Err(ProgramError::MessageFailure(e)),
        Ok(()) => Ok(()),
    }
}

/// Calls `Sender::clone`. The clone feeds the same channel, which is all
/// that a sender stands for here.
#[verifier::external_body]
fn clone_sender<T>(sender: &mpsc::Sender<T>) -> (copy: mpsc::Sender<T>)
    ensures
        copy == *sender,
{
    sender.clone()
}

/// Calls `Receiver::try_recv`: a queued value if there is one, `None` when
/// the channel is empty or disconnected. What is queued depends on the
/// senders, so nothing is claimed of the result.
#[verifier::external_body]
fn try_recv<T>(receiver: &mut mpsc::Receiver<T>) -> (value: Option<T>) {
    receiver.try_recv().ok()
}

/// The driver of one model.
pub struct Program<M: Model> {
    model: M,
    cmd_tx: mpsc::Sender<Command>,
    cmd_rx: Option<mpsc::Receiver<Command>>,
    msg_tx: mpsc::Sender<Message>,
    msg_rx: mpsc::Receiver<Message>,
    spawn_event_handler: bool,
    handler_cancellation_token: CancellationToken,
    handler_fired: bool,
}

/// What `model.init` returned, as the driver reports it.
pub open spec fn init_outcome<M: Model>(result: Result<OptionalCommand, M::Error>) -> Result<
    OptionalCommand,
    ProgramError<M>,
> {
    match result {
        Ok(cmd) => Ok(cmd),
        Err(e) => Err(ProgramError::ApplicationFailure(e)),
    }
}

/// What `model.update` returned, as the driver reports it.
pub open spec fn update_outcome<M: Model>(result: Result<OptionalCommand, M::Error>) -> Result<
    Handled,
    ProgramError<M>,
> {
    match result {
        Ok(cmd) => Ok(Handled::Continue(cmd)),
        Err(e) => Err(ProgramError::ApplicationFailure(e)),
    }
}

/// Reports what `model.init` returned: its error is an application failure.
pub fn after_init<M: Model>(result: Result<OptionalCommand, M::Error>) -> (outcome: Result<
    OptionalCommand,
    ProgramError<M>,
>)
    ensures
        outcome == init_outcome::<M>(result),
{
    match result {
        Ok(cmd) => Ok(cmd),
        Err(e) => Err(ProgramError::ApplicationFailure(e)),
    }
}

/// Reports what `model.update` returned: its error is an application
/// failure, and otherwise the driver continues with the command, if any.
pub fn after_update<M: Model>(result: Result<OptionalCommand, M::Error>) -> (outcome: Result<
    Handled,
    ProgramError<M>,
>)
    ensures
        outcome == update_outcome::<M>(result),
{
    match result {
        Ok(cmd) => Ok(Handled::Continue(cmd)),
        Err(e) => Err(ProgramError::ApplicationFailure(e)),
    }
}

/// Reports a failed channel send as a failure of the message plumbing.
pub fn send_failure<M: Model, T>(error: &mpsc::error::SendError<T>) -> (e: ProgramError<M>)
    ensures
        is_send_failure(e),
{
    ProgramError::MessageFailure(MessageError::send_failure(error))
}

/// Whether `e` reports a send on a closed channel.
pub open spec fn is_send_failure<M: Model>(e: ProgramError<M>) -> bool {
    e matches ProgramError::MessageFailure(MessageError::SendFailure(text)) && text@
        == "channel closed"@
}

/// What the event reader does with one outcome of its raced read.
pub enum ReaderStep {
    /// Send the message on the message channel, then read on.
    Forward(Message),
    /// Read on.
    Skip,
    /// End the reader.
    Stop,
}

/// Decides on one outcome of the event reader's raced read: an event is
/// forwarded as `TermEvent`, a failed read is skipped, and the reader ends
/// when its source is exhausted or shutdown won the race.
pub fn read_event<E>(
    polled: Result<Option<Result<crossterm::event::Event, E>>, CancelledByShutdown>,
) -> (step: ReaderStep)
    ensures
        step == (match polled {
            Ok(Some(Ok(event))) => ReaderStep::Forward(Message::TermEvent(event)),
            Ok(Some(Err(_))) => ReaderStep::Skip,
            Ok(None) => ReaderStep::Stop,
            Err(_) => ReaderStep::Stop,
        }),
{
    match polled {
        Ok(Some(Ok(event))) => ReaderStep::Forward(Message::TermEvent(event)),
        Ok(Some(Err(_))) => ReaderStep::Skip,
        Ok(None) => ReaderStep::Stop,
        Err(_) => ReaderStep::Stop,
    }
}

impl<M: Model> Program<M> {
    /// The model as it stands.
    pub closed spec fn model(&self) -> M {
        self.model
    }

    /// Whether `initialize` asks for the event reader.
    pub closed spec fn event_handler_enabled(&self) -> bool {
        self.spawn_event_handler
    }

    /// The receiving end of the command channel, until it is handed to the
    /// dispatcher.
    pub closed spec fn cmd_receiver(&self) -> Option<mpsc::Receiver<Command>> {
        self.cmd_rx
    }

    /// Whether the receiving end of the command channel is still here, to
    /// be handed to the dispatcher.
    pub open spec fn dispatcher_available(&self) -> bool {
        self.cmd_receiver() is Some
    }

    /// The sending end of the command channel.
    pub closed spec fn cmd_sender(&self) -> mpsc::Sender<Command> {
        self.cmd_tx
    }

    /// The sending end of the message channel.
    pub closed spec fn msg_sender(&self) -> mpsc::Sender<Message> {
        self.msg_tx
    }

    /// The receiving end of the message channel.
    pub closed spec fn msg_receiver(&self) -> mpsc::Receiver<Message> {
        self.msg_rx
    }

    /// The signal that stops the background tasks.
    pub closed spec fn handler_token(&self) -> CancellationToken {
        self.handler_cancellation_token
    }

    /// Whether this program has fired the signal that stops the background
    /// tasks.
    pub closed spec fn handler_fired(&self) -> bool {
        self.handler_fired
    }

    /// Whether two states of a program have the same channels, the same
    /// signal for the background tasks, in the same state, and the same
    /// setting for the event reader.
    pub open spec fn same_wiring(&self, other: &Self) -> bool {
        &&& self.event_handler_enabled() == other.event_handler_enabled()
        &&& self.cmd_sender() == other.cmd_sender()
        &&& self.msg_sender() == other.msg_sender()
        &&& self.handler_token() == other.handler_token()
        &&& self.handler_fired() == other.handler_fired()
    }

    /// A program around `model`, with both channels created, each bounded
    /// at `CHANNEL_CAPACITY`, and nothing spawned. The event reader is
    /// enabled, and the signal of the background tasks is not fired.
    pub fn new(model: M) -> (program: Self)
        ensures
            program.model() == model,
            program.event_handler_enabled(),
            program.dispatcher_available(),
            !program.handler_fired(),
            command_capacity(program.cmd_sender()) == CHANNEL_CAPACITY,
            message_capacity(program.msg_sender()) == CHANNEL_CAPACITY,
    {
        let (cmd_tx, cmd_rx) = command_channel(CHANNEL_CAPACITY);
        let (msg_tx, msg_rx) = message_channel(CHANNEL_CAPACITY);
        Program {
            model,
            cmd_tx,
            cmd_rx: Some(cmd_rx),
            msg_tx,
            msg_rx,
            spawn_event_handler: true,
            handler_cancellation_token: fresh_token(),
            handler_fired: false,
        }
    }

    /// The receiving end of the message channel, for the caller to wait on.
    /// Nothing else of the program can be changed through it.
    pub fn msg_rx(&mut self) -> (rx: &mut mpsc::Receiver<Message>)
        ensures
            *rx == old(self).msg_receiver(),
            final(self).msg_receiver() == *final(rx),
            final(self).model() == old(self).model(),
            final(self).cmd_receiver() == old(self).cmd_receiver(),
            final(self).same_wiring(old(self)),
    {
        &mut self.msg_rx
    }

    /// Enables or disables the event reader.
    pub fn with_spawn_event_handler(self, spawn_event_handler: bool) -> (program: Self)
        ensures
            program.event_handler_enabled() == spawn_event_handler,
            program.model() == self.model(),
            program.cmd_receiver() == self.cmd_receiver(),
            program.cmd_sender() == self.cmd_sender(),
            program.msg_sender() == self.msg_sender(),
            program.handler_token() == self.handler_token(),
            program.handler_fired() == self.handler_fired(),
            program.msg_receiver() == self.msg_receiver(),
    {
        Program {
            model: self.model,
            cmd_tx: self.cmd_tx,
            cmd_rx: self.cmd_rx,
            msg_tx: self.msg_tx,
            msg_rx: self.msg_rx,
            spawn_event_handler,
            handler_cancellation_token: self.handler_cancellation_token,
            handler_fired: self.handler_fired,
        }
    }

    /// A sender into the command channel, for input bridges and tests.
    pub fn cmd_tx(&self) -> (sender: mpsc::Sender<Command>)
        ensures
            sender == self.cmd_sender(),
    {
        clone_sender(&self.cmd_tx)
    }

    /// Renders the model into `writer`: one call of the model's `view` on
    /// the model as it stands. What the call returns is returned as it is,
    /// the model's own error included, and the writer is left as the call
    /// left it.
    pub fn view(&self, writer: &mut M::Writer) -> (result: Result<(), M::Error>)
        ensures
            exists|handed: &mut M::Writer|
                mut_ref_current(handed) == *old(writer) && mut_ref_future(handed) == *final(writer)
                    && #[trigger] call_ensures(M::view, (&self.model(), handed), result),
    {
        let render = M::view;
        let result = render(&self.model, writer);
        assert(self.model() == self.model);
        result
    }

    /// Gives up the program for its model, without stopping anything.
    pub fn into_model(self) -> (model: M)
        ensures
            model == self.model(),
    {
        self.model
    }

    /// What the event reader is started with.
    pub fn spawn_event_reader(&self) -> (parts: EventReaderParts)
        ensures
            parts.msg_tx == self.msg_sender(),
            parts.cancellation_token == self.handler_token(),
    {
        EventReaderParts {
            msg_tx: clone_sender(&self.msg_tx),
            cancellation_token: clone_token(&self.handler_cancellation_token),
        }
    }

    /// Hands out what the dispatcher is started with. The receiving end of
    /// the command channel exists once, so only the first call gives
    /// anything.
    pub fn spawn_message_handler(&mut self) -> (parts: Option<DispatcherParts>)
        ensures
            parts is Some == old(self).dispatcher_available(),
            !final(self).dispatcher_available(),
            parts matches Some(p) ==> Some(p.cmd_rx) == old(self).cmd_receiver() && p.msg_tx == old(
                self).msg_sender() && p.cmd_tx == old(self).cmd_sender() && p.cancellation_token
                == old(self).handler_token(),
            final(self).model() == old(self).model(),
            final(self).same_wiring(old(self)),
            final(self).msg_receiver() == old(self).msg_receiver(),
    {
        match self.cmd_rx.take() {
            Some(cmd_rx) => Some(
                DispatcherParts {
                    cmd_rx,
                    msg_tx: clone_sender(&self.msg_tx),
                    cmd_tx: clone_sender(&self.cmd_tx),
                    cancellation_token: clone_token(&self.handler_cancellation_token),
                },
            ),
            None => None,
        }
    }

    /// Starts the program: decides which background tasks to spawn, then
    /// calls the model's `init`. The tasks are to be spawned whatever `init`
    /// returned.
    pub fn initialize(&mut self) -> (startup: Startup<M>)
        ensures
            startup.event_reader is Some == old(self).event_handler_enabled(),
            startup.event_reader matches Some(p) ==> p.msg_tx == old(self).msg_sender()
                && p.cancellation_token == old(self).handler_token(),
            startup.dispatcher is Some == old(self).dispatcher_available(),
            startup.dispatcher matches Some(p) ==> Some(p.cmd_rx) == old(self).cmd_receiver()
                && p.msg_tx == old(self).msg_sender() && p.cmd_tx == old(self).cmd_sender()
                && p.cancellation_token == old(self).handler_token(),
            exists|handed: &mut M, result: Result<OptionalCommand, M::Error>|
                mut_ref_current(handed) == old(self).model() && mut_ref_future(handed) == final(
                    self).model() && #[trigger] call_ensures(M::init, (handed,), result)
                    && startup.init == init_outcome::<M>(result),
            !final(self).dispatcher_available(),
            final(self).same_wiring(old(self)),
            final(self).msg_receiver() == old(self).msg_receiver(),
    {
        let event_reader = if self.spawn_event_handler {
            Some(self.spawn_event_reader())
        } else {
            None
        };
        let dispatcher = self.spawn_message_handler();
        assert(self.model() == self.model);
        let start = M::init;
        let init = after_init::<M>(start(&mut self.model));
        assert(self.model() == self.model);
        Startup { event_reader, dispatcher, init }
    }

    /// Applies one message. `Quit` is answered at once and never reaches
    /// the model; every other message is handed to the model's `update`
    /// exactly once.
    pub fn handle_update(&mut self, msg: Message) -> (outcome: Result<Handled, ProgramError<M>>)
        ensures
            msg is Quit ==> outcome == Ok::<Handled, ProgramError<M>>(Handled::Quit) && final(self).model() == old(self).model(),
            !(msg is Quit) ==> exists|
                handed: &mut M,
                shown: Rc<Message>,
                result: Result<OptionalCommand, M::Error>,
            |
                mut_ref_current(handed) == old(self).model() && mut_ref_future(handed) == final(
                    self).model() && *shown == msg && #[trigger] call_ensures(
                    M::update,
                    (handed, shown),
                    result,
                ) && outcome == update_outcome::<M>(result),
            final(self).cmd_receiver() == old(self).cmd_receiver(),
            final(self).same_wiring(old(self)),
            final(self).msg_receiver() == old(self).msg_receiver(),
    {
        if let Message::Quit = msg {
            return Ok(Handled::Quit);
        }
        assert(self.model() == self.model);
        let apply = M::update;
        let outcome = after_update::<M>(apply(&mut self.model, Rc::new(msg)));
        assert(self.model() == self.model);
        outcome
    }

    /// Begins an update with `msg`. `Quit` ends the update at once and
    /// never reaches the model. Any other message is handed to the model's
    /// `update`, once: its command is to be sent, without one the update
    /// goes on with what is queued, and its error is handed on.
    pub fn update(&mut self, msg: Message) -> (outcome: Result<Drain, ProgramError<M>>)
        ensures
            msg is Quit ==> outcome == Ok::<Drain, ProgramError<M>>(Drain::Done(QuitBehavior::Quit))
                && final(self).model() == old(self).model(),
            !(msg is Quit) ==> exists|
                handed: &mut M,
                shown: Rc<Message>,
                result: Result<OptionalCommand, M::Error>,
            |
                mut_ref_current(handed) == old(self).model() && mut_ref_future(handed) == final(
                    self).model() && *shown == msg && #[trigger] call_ensures(
                    M::update,
                    (handed, shown),
                    result,
                ) && outcome == drain_outcome::<M>(result),
            final(self).cmd_receiver() == old(self).cmd_receiver(),
            final(self).same_wiring(old(self)),
            final(self).msg_receiver() == old(self).msg_receiver(),
    {
        match self.handle_update(msg) {
            Err(e) => Err(e),
            Ok(Handled::Quit) => Ok(Drain::Done(QuitBehavior::Quit)),
            Ok(Handled::Continue(Some(cmd))) => Ok(Drain::Send(cmd)),
            Ok(Handled::Continue(None)) => Ok(Drain::Again),
        }
    }

    /// Goes on with an update: takes the next message that is already
    /// queued and applies it as `update` does. When none is queued the
    /// update is over, and the driver continues.
    pub fn drain(&mut self) -> (outcome: Result<Drain, ProgramError<M>>)
        ensures
            (final(self).model() == old(self).model() && (outcome == Ok::<Drain, ProgramError<M>>(
                Drain::Done(QuitBehavior::Continue),
            ) || outcome == Ok::<Drain, ProgramError<M>>(Drain::Done(QuitBehavior::Quit)))) || exists|
                handed: &mut M,
                shown: Rc<Message>,
                result: Result<OptionalCommand, M::Error>,
            |
                mut_ref_current(handed) == old(self).model() && mut_ref_future(handed) == final(
                    self).model() && !(*shown is Quit) && #[trigger] call_ensures(
                    M::update,
                    (handed, shown),
                    result,
                ) && outcome == drain_outcome::<M>(result),
            final(self).cmd_receiver() == old(self).cmd_receiver(),
            final(self).same_wiring(old(self)),
    {
        let polled = self.poll_msg();
        self.after_poll(polled)
    }

    /// Goes on with an update, given what a look at the message channel
    /// gave. With nothing queued the update is over, and the driver
    /// continues; a queued message is applied as `update` does.
    pub fn after_poll(&mut self, polled: Option<Message>) -> (outcome: Result<Drain, ProgramError<M>>)
        ensures
            polled is None ==> outcome == Ok::<Drain, ProgramError<M>>(
                Drain::Done(QuitBehavior::Continue),
            ) && final(self).model() == old(self).model(),
            polled matches Some(msg) ==> (msg is Quit ==> outcome == Ok::<Drain, ProgramError<M>>(
                Drain::Done(QuitBehavior::Quit),
            ) && final(self).model() == old(self).model()),
            polled matches Some(msg) ==> (!(msg is Quit) ==> exists|
                handed: &mut M,
                shown: Rc<Message>,
                result: Result<OptionalCommand, M::Error>,
            |
                mut_ref_current(handed) == old(self).model() && mut_ref_future(handed) == final(
                    self).model() && *shown == msg && #[trigger] call_ensures(
                    M::update,
                    (handed, shown),
                    result,
                ) && outcome == drain_outcome::<M>(result)),
            final(self).cmd_receiver() == old(self).cmd_receiver(),
            final(self).same_wiring(old(self)),
            final(self).msg_receiver() == old(self).msg_receiver(),
    {
        match polled {
            None => Ok(Drain::Done(QuitBehavior::Continue)),
            Some(msg) => self.update(msg),
        }
    }

    /// Takes a message that is already queued, without waiting.
    pub fn poll_msg(&mut self) -> (msg: Option<Message>)
        ensures
            final(self).model() == old(self).model(),
            final(self).cmd_receiver() == old(self).cmd_receiver(),
            final(self).same_wiring(old(self)),
    {
        try_recv(&mut self.msg_rx)
    }

    /// Stops the program: fires every registered signal and the signal of
    /// the background tasks. The caller then waits for the tasks to end and
    /// takes the model with `into_model`.
    pub fn shutdown(&mut self, registry: &mut Registry)
        requires
            old(registry).wf(),
        ensures
            final(registry).wf(),
            final(registry)@ == all_fired(old(registry)@),
            final(self).handler_fired(),
            final(self).model() == old(self).model(),
            final(self).cmd_receiver() == old(self).cmd_receiver(),
            final(self).event_handler_enabled() == old(self).event_handler_enabled(),
            final(self).cmd_sender() == old(self).cmd_sender(),
            final(self).msg_sender() == old(self).msg_sender(),
            final(self).msg_receiver() == old(self).msg_receiver(),
            final(self).handler_token() == old(self).handler_token(),
    {
        registry.cancel_all();
        self.handler_fired = fire_token(&self.handler_cancellation_token);
    }
}

} // verus!
