//! The decisions of the effect dispatcher: how a command is launched, how
//! the message an effect produced is routed, and when the dispatcher may
//! stop. The caller spawns the tasks and performs the channel operations
//! that these functions decide on.

use crate::message::{AsyncEffect, BlockingEffect, Command, CommandFn, Message, MessageError, MessageStream};
use crate::registry::{all_fired, fired_one, Registry, SignalState};
use tokio_util::sync::CancellationToken;
use vstd::prelude::*;

verus! {

/// Counts the dispatched tasks that have not completed yet.
pub struct FuturesUnorderedCounter {
    pub count: usize,
}

impl FuturesUnorderedCounter {
    /// A counter with nothing in flight.
    pub fn new() -> (c: Self)
        ensures
            c.count == 0,
    {
        FuturesUnorderedCounter { count: 0 }
    }

    /// Records one more task in flight.
    pub fn push(&mut self)
        requires
            old(self).count < usize::MAX,
        ensures
            final(self).count == old(self).count + 1,
    {
        self.count += 1;
    }

    /// Records what waiting for the next task gave: a completion takes one
    /// task out of flight, an exhausted set changes nothing.
    pub fn next(&mut self, completed: bool)
        requires
            completed ==> old(self).count > 0,
        ensures
            final(self).count == if completed {
                old(self).count - 1
            } else {
                old(self).count as int
            },
    {
        if completed {
            self.count -= 1;
        }
    }

    /// Whether nothing is in flight.
    pub fn is_empty(&self) -> (b: bool)
        ensures
            b == (self.count == 0),
    {
        self.count == 0
    }
}

/// How to start an effect: on which kind of worker, and with which
/// cancellation signal.
pub enum Launch {
    /// Run the coroutine as a cooperative task.
    Async(AsyncEffect, CancellationToken),
    /// Run the function on a blocking worker.
    Blocking(BlockingEffect, CancellationToken),
}

/// The launch of an effect with a given signal.
pub open spec fn launch_of(func: CommandFn, token: CancellationToken) -> Launch {
    match func {
        CommandFn::Async(effect) => Launch::Async(effect, token),
        CommandFn::Blocking(effect) => Launch::Blocking(effect, token),
    }
}

/// What to do with the message an effect produced.
pub enum Route {
    /// The effect produced nothing.
    Nothing,
    /// Send each command on the command channel, in this order.
    Forward(Vec<Command>),
    /// Start a worker that runs the commands strictly one at a time.
    RunSequence(Vec<Command>),
    /// Start a worker that routes every message of the stream.
    DrainStream(MessageStream),
    /// Send the message on the message channel.
    Deliver(Message),
}

/// The route of each kind of message.
pub open spec fn route_of(msg: Option<Message>) -> Route {
    match msg {
        None => Route::Nothing,
        Some(Message::Batch(cmds)) => Route::Forward(cmds),
        Some(Message::Sequence(cmds)) => Route::RunSequence(cmds),
        Some(Message::Stream(stream)) => Route::DrainStream(stream),
        Some(Message::CancelAll) => Route::Deliver(Message::CancellationComplete(None)),
        Some(Message::Cancel(name)) => Route::Deliver(Message::CancellationComplete(Some(name))),
        Some(other) => Route::Deliver(other),
    }
}

/// The registry after a message has been routed: only the two cancel
/// requests touch it.
pub open spec fn signals_after(msg: Option<Message>, signals: Map<Seq<char>, SignalState>) -> Map<
    Seq<char>,
    SignalState,
> {
    match msg {
        Some(Message::CancelAll) => all_fired(signals),
        Some(Message::Cancel(name)) => fired_one(signals, name@),
        _ => signals,
    }
}

/// Routes the message that an effect produced. `CancelAll` fires every
/// registered signal and `Cancel(name)` the signal of `name`, if there is
/// one; each is acknowledged by exactly one `CancellationComplete`. Every
/// other message leaves the registry alone.
pub fn handle_msg(msg: Option<Message>, registry: &mut Registry) -> (route: Route)
    requires
        old(registry).wf(),
    ensures
        final(registry).wf(),
        route == route_of(msg),
        final(registry)@ == signals_after(msg, old(registry)@),
{
    match msg {
        None => Route::Nothing,
        Some(Message::Batch(cmds)) => Route::Forward(cmds),
        Some(Message::Sequence(cmds)) => Route::RunSequence(cmds),
        Some(Message::Stream(stream)) => Route::DrainStream(stream),
        Some(Message::CancelAll) => {
            registry.cancel_all();
            Route::Deliver(Message::CancellationComplete(None))
        },
        Some(Message::Cancel(name)) => {
            registry.cancel(name.as_str());
            Route::Deliver(Message::CancellationComplete(Some(name)))
        },
        Some(other) => Route::Deliver(other),
    }
}

/// Launches a command whose group is registered: the effect gets a clone of
/// its group's signal and is counted as in flight.
pub fn handle_cmd(cmd: Command, futs: &mut FuturesUnorderedCounter, registry: &Registry) -> (launch:
    Launch)
    requires
        registry.wf(),
        registry@.dom().contains(cmd.name@),
        old(futs).count < usize::MAX,
    ensures
        launch == launch_of(cmd.func, registry@[cmd.name@].token),
        final(futs).count == old(futs).count + 1,
{
    let token = registry.token(cmd.name.as_str()).unwrap();
    futs.push();
    match cmd.func {
        CommandFn::Async(effect) => Launch::Async(effect, token),
        CommandFn::Blocking(effect) => Launch::Blocking(effect, token),
    }
}

/// Whether the dispatcher goes on.
pub enum Flow {
    /// Keep waiting for commands and completions.
    Continue,
    /// Leave the loop with this result.
    Stop(Result<(), MessageError>),
}

/// What a request for shutdown leads to, given the number of tasks in
/// flight.
pub open spec fn shutdown_flow(in_flight: nat) -> Flow {
    if in_flight == 0 {
        Flow::Stop(Ok(()))
    } else {
        Flow::Continue
    }
}

/// The dispatcher's own state: the tasks it has launched and not yet seen
/// complete.
pub struct Dispatcher {
    futs: FuturesUnorderedCounter,
    launched: Ghost<nat>,
    completed: Ghost<nat>,
}

/// What a completed task reports: its own result, or the reason it could
/// not be joined.
pub open spec fn failure_of(outcome: Result<Result<(), MessageError>, tokio::task::JoinError>) -> Option<
    MessageError,
> {
    match outcome {
        Err(join) => Some(MessageError::JoinFailure(join)),
        Ok(Err(e)) => Some(e),
        Ok(Ok(())) => None,
    }
}

/// The result of waiting for a spawned task: the task's own result, or
/// the failure to join it.
pub open spec fn joined(outcome: Result<Result<(), MessageError>, tokio::task::JoinError>) -> Result<
    (),
    MessageError,
> {
    match failure_of(outcome) {
        Some(e) => Err(e),
        None => Ok(()),
    }
}

/// Reports what waiting for a spawned task gave: a task that panicked or
/// was aborted is a join failure, any other task speaks for itself.
pub fn join_result(outcome: Result<Result<(), MessageError>, tokio::task::JoinError>) -> (result:
    Result<(), MessageError>)
    ensures
        result == joined(outcome),
{
    match outcome {
        Err(join) => Err(MessageError::JoinFailure(join)),
        Ok(Err(e)) => Err(e),
        Ok(Ok(())) => Ok(()),
    }
}

impl Dispatcher {
    /// The number of tasks in flight.
    pub closed spec fn in_flight(&self) -> nat {
        self.futs.count as nat
    }

    /// The number of tasks launched so far.
    pub closed spec fn launched(&self) -> nat {
        self.launched@
    }

    /// The number of completions seen so far.
    pub closed spec fn completed(&self) -> nat {
        self.completed@
    }

    /// The dispatcher's invariant: what is in flight is what was launched
    /// and has not completed.
    pub closed spec fn wf(&self) -> bool {
        self.launched@ == self.completed@ + self.futs.count
    }

    /// A dispatcher that has launched nothing.
    pub fn new() -> (d: Self)
        ensures
            d.wf(),
            d.in_flight() == 0,
            d.launched() == 0,
            d.completed() == 0,
    {
        Dispatcher { futs: FuturesUnorderedCounter::new(), launched: Ghost(0), completed: Ghost(0) }
    }

    /// The number of tasks in flight.
    pub fn pending(&self) -> (n: usize)
        ensures
            n == self.in_flight(),
    {
        self.futs.count
    }

    /// A command arrived: its group gets a signal if it has none yet, and
    /// the effect is launched with a clone of the group's signal. Groups
    /// registered before keep their signal and its state.
    pub fn on_command(&mut self, cmd: Command, registry: &mut Registry) -> (launch: Launch)
        requires
            old(self).wf(),
            old(registry).wf(),
            old(self).in_flight() < usize::MAX,
        ensures
            final(self).wf(),
            final(registry).wf(),
            final(registry)@.dom() == old(registry)@.dom().insert(cmd.name@),
            forall|n: Seq<char>|
                old(registry)@.dom().contains(n) ==> final(registry)@[n] == old(registry)@[n],
            !old(registry)@.dom().contains(cmd.name@) ==> !final(registry)@[cmd.name@].fired,
            launch == launch_of(cmd.func, final(registry)@[cmd.name@].token),
            final(self).in_flight() == old(self).in_flight() + 1,
            final(self).launched() == old(self).launched() + 1,
            final(self).completed() == old(self).completed(),
    {
        registry.register(cmd.name.as_str());
        let launch = handle_cmd(cmd, &mut self.futs, registry);
        proof {
            self.launched@ = self.launched@ + 1;
        }
        launch
    }

    /// A launched task completed. A failure stops the dispatcher at once
    /// with that failure. Otherwise the dispatcher stops only when shutdown
    /// has been requested and nothing is in flight any more.
    pub fn on_task_done(
        &mut self,
        outcome: Result<Result<(), MessageError>, tokio::task::JoinError>,
        shutdown_requested: bool,
    ) -> (flow: Flow)
        requires
            old(self).wf(),
            old(self).in_flight() > 0,
        ensures
            final(self).wf(),
            final(self).in_flight() == old(self).in_flight() - 1,
            final(self).launched() == old(self).launched(),
            final(self).completed() == old(self).completed() + 1,
            flow == match failure_of(outcome) {
                Some(e) => Flow::Stop(Err(e)),
                None => if shutdown_requested {
                    shutdown_flow(final(self).in_flight())
                } else {
                    Flow::Continue
                },
            },
    {
        self.futs.next(true);
        proof {
            self.completed@ = self.completed@ + 1;
        }
        match join_result(outcome) {
            Err(e) => Flow::Stop(Err(e)),
            Ok(()) => {
                if shutdown_requested && self.futs.is_empty() {
                    Flow::Stop(Ok(()))
                } else {
                    Flow::Continue
                }
            },
        }
    }

    /// Shutdown was requested: the dispatcher stops if nothing is in
    /// flight, and otherwise goes on until the last task has completed.
    pub fn on_shutdown(&self) -> (flow: Flow)
        ensures
            flow == shutdown_flow(self.in_flight()),
    {
        if self.futs.is_empty() {
            Flow::Stop(Ok(()))
        } else {
            Flow::Continue
        }
    }
}

/// One step of a sequence.
pub enum SequenceStep {
    /// Run this effect to its end, deliver the message it produced, if any,
    /// and only then ask for the next step.
    Run(Launch),
    /// The next command's group has no signal; the command is handed back.
    Unregistered(Command),
    /// Every command has run.
    Finished,
}

/// The step that a list of remaining commands asks for.
pub open spec fn sequence_step(cmds: Seq<Command>, signals: Map<Seq<char>, SignalState>) -> SequenceStep {
    if cmds.len() == 0 {
        SequenceStep::Finished
    } else if signals.dom().contains(cmds[0].name@) {
        SequenceStep::Run(launch_of(cmds[0].func, signals[cmds[0].name@].token))
    } else {
        SequenceStep::Unregistered(cmds[0])
    }
}

/// Takes the next command of a sequence: always the first of those that
/// remain, so that the commands run in the order given.
pub fn handle_sequence_cmd(cmds: &mut Vec<Command>, registry: &Registry) -> (step: SequenceStep)
    requires
        registry.wf(),
    ensures
        step == sequence_step(old(cmds)@, registry@),
        final(cmds)@ == if old(cmds)@.len() == 0 {
            old(cmds)@
        } else {
            old(cmds)@.drop_first()
        },
{
    if cmds.len() == 0 {
        return SequenceStep::Finished;
    }
    let command = cmds.remove(0);
    assert(cmds@ == old(cmds)@.drop_first());
    match registry.token(command.name.as_str()) {
        Some(token) => {
            match command.func {
                CommandFn::Async(effect) => SequenceStep::Run(Launch::Async(effect, token)),
                CommandFn::Blocking(effect) => SequenceStep::Run(Launch::Blocking(effect, token)),
            }
        },
        None => SequenceStep::Unregistered(command),
    }
}

/// What follows an effect of a sequence.
pub enum SequenceFlow {
    /// Send the message on the message channel, then take the next step.
    Deliver(Message),
    /// The effect produced nothing: take the next step.
    Next,
    /// End the sequence with this failure.
    Stop(MessageError),
}

/// What follows each result of an effect of a sequence.
pub open spec fn sequence_flow(outcome: Result<Option<Message>, tokio::task::JoinError>) -> SequenceFlow {
    match outcome {
        Ok(Some(msg)) => SequenceFlow::Deliver(msg),
        Ok(None) => SequenceFlow::Next,
        Err(join) => SequenceFlow::Stop(MessageError::JoinFailure(join)),
    }
}

/// Decides what follows an effect of a sequence, given what the effect
/// produced or, for an effect on a blocking worker, why the worker could
/// not be joined. A message is delivered before the next command starts;
/// a worker that panicked ends the sequence.
pub fn after_effect(outcome: Result<Option<Message>, tokio::task::JoinError>) -> (flow: SequenceFlow)
    ensures
        flow == sequence_flow(outcome),
{
    match outcome {
        Ok(Some(msg)) => SequenceFlow::Deliver(msg),
        Ok(None) => SequenceFlow::Next,
        Err(join) => SequenceFlow::Stop(MessageError::JoinFailure(join)),
    }
}

/// Reports how a send on a channel went: a refused send is a send failure
/// that carries the send error's text.
pub fn after_send<T>(outcome: Result<(), tokio::sync::mpsc::error::SendError<T>>) -> (result: Result<
    (),
    MessageError,
>)
    ensures
        outcome is Ok ==> result is Ok,
        outcome is Err ==> (result matches Err(MessageError::SendFailure(text)) && text@
            == "channel closed"@),
{
    match outcome {
        Ok(()) => Ok(()),
        Err(error) => Err(MessageError::send_failure(&error)),
    }
}

/// The commands of a sequence that remain after `n` steps.
pub open spec fn remaining_after(cmds: Seq<Command>, n: nat) -> Seq<Command>
    decreases n,
{
    if n == 0 {
        cmds
    } else {
        let rest = remaining_after(cmds, (n - 1) as nat);
        if rest.len() == 0 {
            rest
        } else {
            rest.drop_first()
        }
    }
}

impl Dispatcher {
    /// Every launched task has either completed or is still in flight.
    pub proof fn lemma_accounting(&self)
        requires
            self.wf(),
        ensures
            self.launched() == self.completed() + self.in_flight(),
    {
    }

    /// The dispatcher stops in good order only when it is drained: when
    /// shutdown is requested it goes on until every task it launched has
    /// completed.
    pub proof fn lemma_orderly_stop_is_drained(&self)
        requires
            self.wf(),
        ensures
            self.in_flight() == 0 <==> self.completed() == self.launched(),
            self.in_flight() > 0 ==> shutdown_flow(self.in_flight()) == Flow::Continue,
            self.in_flight() == 0 ==> shutdown_flow(self.in_flight()) == Flow::Stop(Ok(())),
    {
    }
}

/// A sequence runs in the order given: the step after `k` earlier ones
/// takes the command at position `k`, and after as many steps as there are
/// commands the sequence is finished.
pub proof fn lemma_sequence_in_order(cmds: Seq<Command>, signals: Map<Seq<char>, SignalState>, k: nat)
    ensures
        k <= cmds.len() ==> remaining_after(cmds, k) == cmds.skip(k as int),
        k < cmds.len() ==> sequence_step(remaining_after(cmds, k), signals) == (if signals.dom().contains(
            cmds[k as int].name@,
        ) {
            SequenceStep::Run(launch_of(cmds[k as int].func, signals[cmds[k as int].name@].token))
        } else {
            SequenceStep::Unregistered(cmds[k as int])
        }),
        k >= cmds.len() ==> sequence_step(remaining_after(cmds, k), signals) == SequenceStep::Finished,
    decreases k,
{
    if k == 0 {
        assert(cmds.skip(0) =~= cmds);
    } else {
        lemma_sequence_in_order(cmds, signals, (k - 1) as nat);
        if k <= cmds.len() {
            assert(cmds.skip(k - 1).drop_first() =~= cmds.skip(k as int));
        }
    }
}

/// Routing a message never removes or replaces a signal, and never unfires
/// one: a signal is a latch.
pub proof fn lemma_signals_latch(msg: Option<Message>, signals: Map<Seq<char>, SignalState>, name: Seq<char>)
    requires
        signals.dom().contains(name),
    ensures
        signals_after(msg, signals).dom() == signals.dom(),
        signals_after(msg, signals)[name].token == signals[name].token,
        signals[name].fired ==> signals_after(msg, signals)[name].fired,
{
    assert(signals_after(msg, signals).dom() =~= signals.dom());
}

/// After `CancelAll` every registered signal is fired, and a later
/// `Cancel` of a registered group changes no signal, yet is acknowledged.
pub proof fn lemma_cancel_after_cancel_all(signals: Map<Seq<char>, SignalState>, group: String)
    requires
        signals.dom().contains(group@),
    ensures
        forall|n: Seq<char>|
            signals.dom().contains(n) ==> (#[trigger] signals_after(Some(Message::CancelAll), signals)[n]).fired,
        signals_after(Some(Message::Cancel(group)), signals_after(Some(Message::CancelAll), signals))
            == signals_after(Some(Message::CancelAll), signals),
        route_of(Some(Message::Cancel(group))) == Route::Deliver(
            Message::CancellationComplete(Some(group)),
        ),
{
    let fired = signals_after(Some(Message::CancelAll), signals);
    assert(signals_after(Some(Message::Cancel(group)), fired) =~= fired);
}

/// A group registered after `CancelAll` starts with an unfired signal:
/// `CancelAll` fires only what is registered when it is routed.
pub proof fn lemma_cancel_all_spares_later_groups(signals: Map<Seq<char>, SignalState>, name: Seq<char>)
    requires
        !signals.dom().contains(name),
    ensures
        !signals_after(Some(Message::CancelAll), signals).dom().contains(name),
{
}

/// Each cancel request is answered by exactly one acknowledgement that
/// carries the request's argument, and routing makes up no other one.
pub proof fn lemma_cancel_acknowledged(msg: Option<Message>)
    ensures
        msg == Some(Message::CancelAll) ==> route_of(msg) == Route::Deliver(
            Message::CancellationComplete(None),
        ),
        msg matches Some(Message::Cancel(name)) ==> route_of(msg) == Route::Deliver(
            Message::CancellationComplete(Some(name)),
        ),
        route_of(msg) matches Route::Deliver(Message::CancellationComplete(ack)) ==> msg == Some(
            Message::CancelAll,
        ) && ack.is_none() || msg == Some(Message::CancellationComplete(ack)) || (ack matches Some(name)
            && msg == Some(Message::Cancel(name))),
{
}

} // verus!
