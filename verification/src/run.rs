//! The run loop of a program, as a state machine. Each step makes the
//! calls to the model that are due and answers with the one thing the
//! caller has to do next: send a command, wait for a message, or stop.

use crate::dispatch::{failure_of, join_result};
use crate::message::{Command, Message, MessageError, OptionalCommand};
use crate::program::{
    is_send_failure, send_failure, DispatcherParts, EventReaderParts, Handled, Model, Program, ProgramError,
};
use crate::registry::{all_fired, Registry};
use std::rc::Rc;
use tokio::sync::mpsc::error::SendError;
use vstd::prelude::*;

verus! {

/// Where a run stands.
#[derive(Clone, Copy, PartialEq, Eq, Debug, Structural)]
pub enum Phase {
    /// Nothing has happened yet.
    Created,
    /// The model is initialized; its first command is being sent.
    Starting,
    /// The model is rendered; the next message is awaited.
    Idle,
    /// An update is under way; a command of the model is being sent.
    Updating,
    /// An update is under way; the next queued message is to be looked for.
    Draining,
    /// `Quit` was seen and the model is rendered, or the message channel is
    /// closed; shutdown is due.
    Stopping,
    /// The run is over.
    Done,
}

/// What the caller has to do next.
pub enum Next<M: Model> {
    /// Send the command on the command channel, then report with `sent`.
    Send(Command),
    /// Wait for a message, then report with `received`.
    Receive,
    /// Call `resume`.
    Resume,
    /// Shut the program down with `finish`, wait for the background tasks
    /// and return the model.
    Shutdown,
    /// Return the error.
    Fail(ProgramError<M>),
}

impl<M: Model> Next<M> {
    /// Whether this answer follows a successful render, so that what was
    /// rendered can be looked at now.
    pub fn follows_render(&self) -> (b: bool)
        ensures
            b == (self is Receive || self is Shutdown),
    {
        match self {
            Next::Receive => true,
            Next::Shutdown => true,
            _ => false,
        }
    }
}

/// A call that the run loop made to the model.
pub enum ModelCall {
    Init,
    Update(Message),
    View,
}

/// The messages handed to the model's `update`, in the order of the calls.
pub open spec fn updates_of(log: Seq<ModelCall>) -> Seq<Message>
    decreases log.len(),
{
    if log.len() == 0 {
        Seq::empty()
    } else {
        match log.last() {
            ModelCall::Update(msg) => updates_of(log.drop_last()).push(msg),
            _ => updates_of(log.drop_last()),
        }
    }
}

/// The number of calls to the model's `view`.
pub open spec fn views_of(log: Seq<ModelCall>) -> nat
    decreases log.len(),
{
    if log.len() == 0 {
        0
    } else {
        views_of(log.drop_last()) + if log.last() is View {
            1nat
        } else {
            0nat
        }
    }
}

/// `init` is the first call, and is not called again.
pub open spec fn init_first(log: Seq<ModelCall>) -> bool {
    forall|i: int| 0 <= i < log.len() ==> ((#[trigger] log[i]) is Init <==> i == 0)
}

/// What one more call adds to a log.
pub proof fn lemma_log_push(log: Seq<ModelCall>, call: ModelCall)
    ensures
        updates_of(log.push(call)) == (match call {
            ModelCall::Update(msg) => updates_of(log).push(msg),
            _ => updates_of(log),
        }),
        views_of(log.push(call)) == views_of(log) + (if call is View {
            1nat
        } else {
            0nat
        }),
{
    assert(log.push(call).drop_last() =~= log);
}

/// A call after the first that is not `init` keeps `init` first and alone.
pub proof fn lemma_init_stays_first(log: Seq<ModelCall>, call: ModelCall)
    requires
        init_first(log),
        log.len() > 0,
        !(call is Init),
    ensures
        init_first(log.push(call)),
{
    assert forall|i: int| 0 <= i < log.push(call).len() implies ((#[trigger] log.push(call)[i]) is Init
        <==> i == 0) by {
        if i < log.len() {
            assert(log.push(call)[i] == log[i]);
        }
    }
}

/// After `init` and the first render the model has seen no message and
/// has been rendered once.
pub proof fn lemma_first_render()
    ensures
        updates_of(seq![ModelCall::Init]) == Seq::<Message>::empty(),
        updates_of(seq![ModelCall::Init].push(ModelCall::View)) == Seq::<Message>::empty(),
        views_of(seq![ModelCall::Init]) == 0,
        views_of(seq![ModelCall::Init].push(ModelCall::View)) == 1,
{
    lemma_log_push(Seq::empty(), ModelCall::Init);
    assert(seq![ModelCall::Init] =~= Seq::<ModelCall>::empty().push(ModelCall::Init));
    lemma_log_push(seq![ModelCall::Init], ModelCall::View);
}

/// A run of one program.
pub struct Run<M: Model> {
    program: Program<M>,
    phase: Phase,
    log: Ghost<Seq<ModelCall>>,
    taken: Ghost<Seq<Message>>,
    rounds: Ghost<nat>,
}

/// The answer that follows what the model's `update` returned: its
/// command is to be sent, without one the next queued message is looked
/// for, and its error ends the run.
pub open spec fn answer_to_update<M: Model>(result: Result<OptionalCommand, M::Error>) -> Next<M> {
    match result {
        Ok(Some(cmd)) => Next::Send(cmd),
        Ok(None) => Next::Resume,
        Err(e) => Next::Fail(ProgramError::ApplicationFailure(e)),
    }
}

/// The answer that follows what the model's `view` returned: after a
/// render the run waits for a message, or shuts down when `Quit` was taken,
/// and the model's error ends the run.
pub open spec fn answer_to_view<M: Model>(result: Result<(), M::Error>, quitting: bool) -> Next<M> {
    match result {
        Ok(()) => if quitting {
            Next::Shutdown
        } else {
            Next::Receive
        },
        Err(e) => Next::Fail(ProgramError::ApplicationFailure(e)),
    }
}

/// The answer that follows the end of the dispatcher task: its failure
/// ends the run as a failure of the message plumbing, and after an orderly
/// end the run goes on waiting.
pub open spec fn answer_to_dispatcher<M: Model>(
    outcome: Result<Result<(), MessageError>, tokio::task::JoinError>,
) -> Next<M> {
    match failure_of(outcome) {
        Some(e) => Next::Fail(ProgramError::MessageFailure(e)),
        None => Next::Receive,
    }
}

impl<M: Model> Program<M> {
    /// Begins a run of this program.
    pub fn run(self) -> (run: Run<M>)
        ensures
            run.inv(),
            run.state() == Phase::Created,
            run.program() == self,
    {
        Run {
            program: self,
            phase: Phase::Created,
            log: Ghost(Seq::empty()),
            taken: Ghost(Seq::empty()),
            rounds: Ghost(0),
        }
    }
}

impl<M: Model> Run<M> {
    /// The program that is run.
    pub closed spec fn program(&self) -> Program<M> {
        self.program
    }

    /// The model as it stands.
    pub open spec fn model(&self) -> M {
        self.program().model()
    }

    /// Where the run stands.
    pub closed spec fn state(&self) -> Phase {
        self.phase
    }

    /// The calls made to the model so far, in order.
    pub closed spec fn log(&self) -> Seq<ModelCall> {
        self.log@
    }

    /// The messages taken from the message channel so far, in order.
    pub closed spec fn taken(&self) -> Seq<Message> {
        self.taken@
    }

    /// The number of updates begun so far; one update may take several
    /// messages that were queued together.
    pub closed spec fn rounds(&self) -> nat {
        self.rounds@
    }

    /// What holds of every run: `init` comes first and only once; until
    /// `Quit` is taken the model has seen every message taken from the
    /// channel, once and in order; and the model is rendered once after
    /// `init` and once after each update.
    pub open spec fn inv(&self) -> bool {
        &&& init_first(self.log())
        &&& match self.state() {
            Phase::Created => self.log().len() == 0 && self.taken().len() == 0 && self.rounds() == 0,
            Phase::Starting => self.log() == seq![ModelCall::Init] && self.taken().len() == 0
                && self.rounds() == 0,
            Phase::Idle => {
                &&& self.log().len() > 0
                &&& updates_of(self.log()) == self.taken()
                &&& views_of(self.log()) == self.rounds() + 1
                &&& self.log().last() is View
            },
            Phase::Updating | Phase::Draining => {
                &&& self.log().len() > 0
                &&& updates_of(self.log()) == self.taken()
                &&& views_of(self.log()) == self.rounds()
                &&& self.rounds() > 0
                &&& self.log().last() is Update
            },
            Phase::Stopping => {
                &&& self.log().len() > 0
                &&& updates_of(self.log()) == self.taken() || (self.taken().len() > 0
                    && self.taken().last() is Quit && updates_of(self.log())
                    == self.taken().drop_last())
                &&& views_of(self.log()) == self.rounds() + 1
                &&& self.log().last() is View
            },
            Phase::Done => self.log().len() > 0,
        }
    }

    /// Whether a step left the program's channels, signal and settings as
    /// they were.
    pub open spec fn same_wiring(&self, before: &Self) -> bool {
        &&& self.program().same_wiring(&before.program())
        &&& self.program().cmd_receiver() == before.program().cmd_receiver()
    }

    /// Where the run stands.
    pub fn phase(&self) -> (phase: Phase)
        ensures
            phase == self.state(),
    {
        self.phase
    }

    /// The receiving end of the message channel, for the caller to wait on
    /// when the run answers `Receive`. The run itself is not changed
    /// through it.
    pub fn msg_rx(&mut self) -> (rx: &mut tokio::sync::mpsc::Receiver<Message>)
        ensures
            final(self).state() == old(self).state(),
            final(self).log() == old(self).log(),
            final(self).taken() == old(self).taken(),
            final(self).rounds() == old(self).rounds(),
            final(self).model() == old(self).model(),
            final(self).same_wiring(old(self)),
    {
        self.program.msg_rx()
    }

    /// Renders the model, once, and answers by what `view` returned.
    fn render(&mut self, writer: &mut M::Writer, then: Phase) -> (next: Next<M>)
        requires
            then == Phase::Idle || then == Phase::Stopping,
            init_first(old(self).log()),
            old(self).log().len() > 0,
        ensures
            init_first(final(self).log()),
            final(self).log() == old(self).log().push(ModelCall::View),
            final(self).taken() == old(self).taken(),
            final(self).rounds() == old(self).rounds(),
            final(self).program() == old(self).program(),
            exists|handed: &mut M::Writer, drawn: Result<(), M::Error>|
                mut_ref_current(handed) == *old(writer) && mut_ref_future(handed) == *final(writer)
                    && #[trigger] call_ensures(M::view, (&old(self).model(), handed), drawn) && next
                    == answer_to_view::<M>(drawn, then == Phase::Stopping),
            final(self).state() == if next is Fail {
                Phase::Done
            } else {
                then
            },
    {
        let result = self.program.view(writer);
        proof {
            lemma_init_stays_first(self.log@, ModelCall::View);
            self.log@ = self.log@.push(ModelCall::View);
            assert(old(self).model() == self.program.model());
        }
        match result {
            Err(e) => {
                self.phase = Phase::Done;
                Next::Fail(ProgramError::ApplicationFailure(e))
            },
            Ok(()) => {
                self.phase = then;
                match then {
                    Phase::Stopping => Next::Shutdown,
                    _ => Next::Receive,
                }
            },
        }
    }

    /// Applies a message that was just taken from the channel.
    fn apply(&mut self, msg: Message, writer: &mut M::Writer) -> (next: Next<M>)
        requires
            init_first(old(self).log()),
            old(self).log().len() > 0,
            updates_of(old(self).log()) == old(self).taken(),
            old(self).rounds() > 0,
            views_of(old(self).log()) == old(self).rounds(),
        ensures
            final(self).inv(),
            final(self).rounds() == old(self).rounds(),
            final(self).state() == next_phase(next),
            final(self).same_wiring(old(self)),
            final(self).taken() == old(self).taken().push(msg),
            msg is Quit ==> final(self).log() == old(self).log().push(ModelCall::View) && final(
                self).model() == old(self).model() && exists|
                handed: &mut M::Writer,
                drawn: Result<(), M::Error>,
            |
                mut_ref_current(handed) == *old(writer) && mut_ref_future(handed) == *final(writer)
                    && #[trigger] call_ensures(M::view, (&old(self).model(), handed), drawn) && next
                    == answer_to_view::<M>(drawn, true),
            !(msg is Quit) ==> final(self).log() == old(self).log().push(ModelCall::Update(msg))
                && *final(writer) == *old(writer) && exists|
                handed: &mut M,
                shown: Rc<Message>,
                result: Result<OptionalCommand, M::Error>,
            |
                mut_ref_current(handed) == old(self).model() && mut_ref_future(handed) == final(
                    self).model() && *shown == msg && #[trigger] call_ensures(
                    M::update,
                    (handed, shown),
                    result,
                ) && next == answer_to_update::<M>(result),
    {
        let ghost seen = msg;
        let ghost quit = msg is Quit;
        proof {
            self.taken@ = self.taken@.push(seen);
        }
        let handled = self.program.handle_update(msg);
        proof {
            if !quit {
                lemma_log_push(self.log@, ModelCall::Update(seen));
                lemma_init_stays_first(self.log@, ModelCall::Update(seen));
                self.log@ = self.log@.push(ModelCall::Update(seen));
            }
        }
        match handled {
            Err(e) => {
                self.phase = Phase::Done;
                Next::Fail(e)
            },
            Ok(Handled::Quit) => {
                proof {
                    lemma_log_push(self.log@, ModelCall::View);
                    assert(self.taken@.drop_last() =~= old(self).taken());
                }
                self.render(writer, Phase::Stopping)
            },
            Ok(Handled::Continue(Some(cmd))) => {
                self.phase = Phase::Updating;
                Next::Send(cmd)
            },
            Ok(Handled::Continue(None)) => {
                self.phase = Phase::Draining;
                Next::Resume
            },
        }
    }

    /// Starts the run: the background tasks to spawn are handed out, and
    /// the model's `init` is called, once. If `init` fails, the run ends
    /// with its error and the writer untouched. If it asks for a command,
    /// that command is to be sent before the first render. Otherwise the
    /// model is rendered, once, and the run waits for a message.
    pub fn start(&mut self, writer: &mut M::Writer) -> (started: (
        Option<EventReaderParts>,
        Option<DispatcherParts>,
        Next<M>,
    ))
        requires
            old(self).inv(),
            old(self).state() == Phase::Created,
        ensures
            final(self).inv(),
            started.0 is Some == old(self).program().event_handler_enabled(),
            started.0 matches Some(p) ==> p.msg_tx == old(self).program().msg_sender()
                && p.cancellation_token == old(self).program().handler_token(),
            started.1 is Some == old(self).program().dispatcher_available(),
            started.1 matches Some(p) ==> Some(p.cmd_rx) == old(self).program().cmd_receiver()
                && p.msg_tx == old(self).program().msg_sender() && p.cmd_tx == old(
                self).program().cmd_sender() && p.cancellation_token == old(
                self).program().handler_token(),
            final(self).program().same_wiring(&old(self).program()),
            !final(self).program().dispatcher_available(),
            final(self).state() == if started.2 is Send {
                Phase::Starting
            } else {
                next_phase(started.2)
            },
            final(self).taken() == old(self).taken(),
            final(self).rounds() == 0,
            exists|handed: &mut M, result: Result<OptionalCommand, M::Error>|
                mut_ref_current(handed) == old(self).model() && mut_ref_future(handed) == final(
                    self).model() && #[trigger] call_ensures(M::init, (handed,), result) && match result {
                    Err(e) => started.2 == Next::<M>::Fail(ProgramError::ApplicationFailure(e))
                        && final(self).log() == seq![ModelCall::Init] && *final(writer) == *old(
                        writer),
                    Ok(Some(cmd)) => started.2 == Next::<M>::Send(cmd) && final(self).log()
                        == seq![ModelCall::Init] && *final(writer) == *old(writer),
                    Ok(None) => final(self).log() == seq![ModelCall::Init, ModelCall::View]
                        && exists|lent: &mut M::Writer, drawn: Result<(), M::Error>|
                        mut_ref_current(lent) == *old(writer) && mut_ref_future(lent) == *final(
                            writer) && #[trigger] call_ensures(M::view, (&final(self).model(), lent), drawn)
                            && started.2 == answer_to_view::<M>(drawn, false),
                },
    {
        let startup = self.program.initialize();
        proof {
            self.log@ = seq![ModelCall::Init];
        }
        let next = match startup.init {
            Err(e) => {
                self.phase = Phase::Done;
                Next::Fail(e)
            },
            Ok(Some(cmd)) => {
                self.phase = Phase::Starting;
                Next::Send(cmd)
            },
            Ok(None) => {
                let next = self.render(writer, Phase::Idle);
                proof {
                    lemma_first_render();
                    assert(self.log@ =~= seq![ModelCall::Init, ModelCall::View]);
                    assert(self.taken@ =~= Seq::<Message>::empty());
                }
                next
            },
        };
        (startup.event_reader, startup.dispatcher, next)
    }

    /// The command was sent, or could not be. A failed send ends the run
    /// as a failure of the message plumbing, with nothing else done. After
    /// the first command the model is rendered, once; within an update the
    /// run goes on as `resume` does.
    pub fn sent(&mut self, outcome: Result<(), SendError<Command>>, writer: &mut M::Writer) -> (next:
        Next<M>)
        requires
            old(self).inv(),
            old(self).state() == Phase::Starting || old(self).state() == Phase::Updating,
        ensures
            final(self).inv(),
            final(self).state() == next_phase(next),
            final(self).rounds() == old(self).rounds(),
            final(self).same_wiring(old(self)),
            outcome is Err ==> (next matches Next::Fail(e) && is_send_failure(e)) && final(self).log()
                == old(self).log() && final(self).taken() == old(self).taken() && final(self).model()
                == old(self).model() && *final(writer) == *old(writer),
            outcome is Ok && old(self).state() == Phase::Starting ==> final(self).taken() == old(
                self).taken() && final(self).log() == old(self).log().push(ModelCall::View) && final(
                self).model() == old(self).model() && exists|
                handed: &mut M::Writer,
                drawn: Result<(), M::Error>,
            |
                mut_ref_current(handed) == *old(writer) && mut_ref_future(handed) == *final(writer)
                    && #[trigger] call_ensures(M::view, (&old(self).model(), handed), drawn) && next
                    == answer_to_view::<M>(drawn, false),
            outcome is Ok && old(self).state() == Phase::Updating ==> (final(self).taken() == old(
                self).taken() && final(self).log() == old(self).log().push(ModelCall::View) && final(
                self).model() == old(self).model() && exists|
                handed: &mut M::Writer,
                drawn: Result<(), M::Error>,
            |
                mut_ref_current(handed) == *old(writer) && mut_ref_future(handed) == *final(writer)
                    && #[trigger] call_ensures(M::view, (&old(self).model(), handed), drawn) && next
                    == answer_to_view::<M>(drawn, false)) || exists|msg: Message|
                final(self).taken() == #[trigger] old(self).taken().push(msg) && (msg is Quit ==> final(
                    self).log() == old(self).log().push(ModelCall::View) && final(self).model() == old(
                    self).model() && exists|handed: &mut M::Writer, drawn: Result<(), M::Error>|
                    mut_ref_current(handed) == *old(writer) && mut_ref_future(handed) == *final(
                        writer) && #[trigger] call_ensures(M::view, (&old(self).model(), handed), drawn)
                        && next == answer_to_view::<M>(drawn, true)) && (!(msg is Quit) ==> final(
                    self).log() == old(self).log().push(ModelCall::Update(msg)) && *final(writer)
                    == *old(writer) && exists|
                    handed: &mut M,
                    shown: Rc<Message>,
                    result: Result<OptionalCommand, M::Error>,
                |
                    mut_ref_current(handed) == old(self).model() && mut_ref_future(handed) == final(
                        self).model() && *shown == msg && #[trigger] call_ensures(
                        M::update,
                        (handed, shown),
                        result,
                    ) && next == answer_to_update::<M>(result)),
    {
        match outcome {
            Err(error) => {
                self.phase = Phase::Done;
                Next::Fail(send_failure::<M, Command>(&error))
            },
            Ok(()) => {
                if self.phase == Phase::Starting {
                    let next = self.render(writer, Phase::Idle);
                    proof {
                        lemma_first_render();
                        assert(self.taken@ =~= Seq::<Message>::empty());
                    }
                    next
                } else {
                    self.phase = Phase::Draining;
                    let ghost draining = *self;
                    assert(draining.taken() == old(self).taken() && draining.log() == old(self).log()
                        && draining.model() == old(self).model() && draining.rounds() == old(
                        self).rounds());
                    self.resume(writer)
                }
            },
        }
    }

    /// Goes on with an update. When no message is queued, the update ends:
    /// the model is rendered, once, and the run waits for a message. When
    /// one is queued, it is taken and applied: `Quit` is not shown to the
    /// model, which is rendered, once, before shutdown; any other message
    /// is handed to the model's `update`, once, with no render.
    pub fn resume(&mut self, writer: &mut M::Writer) -> (next: Next<M>)
        requires
            old(self).inv(),
            old(self).state() == Phase::Draining,
        ensures
            final(self).inv(),
            final(self).state() == next_phase(next),
            final(self).rounds() == old(self).rounds(),
            final(self).same_wiring(old(self)),
            (final(self).taken() == old(self).taken() && final(self).log() == old(self).log().push(
                ModelCall::View,
            ) && final(self).model() == old(self).model() && exists|
                handed: &mut M::Writer,
                drawn: Result<(), M::Error>,
            |
                mut_ref_current(handed) == *old(writer) && mut_ref_future(handed) == *final(writer)
                    && #[trigger] call_ensures(M::view, (&old(self).model(), handed), drawn) && next
                    == answer_to_view::<M>(drawn, false)) || exists|msg: Message|
                final(self).taken() == #[trigger] old(self).taken().push(msg) && (msg is Quit ==> final(
                    self).log() == old(self).log().push(ModelCall::View) && final(self).model() == old(
                    self).model() && exists|handed: &mut M::Writer, drawn: Result<(), M::Error>|
                    mut_ref_current(handed) == *old(writer) && mut_ref_future(handed) == *final(
                        writer) && #[trigger] call_ensures(M::view, (&old(self).model(), handed), drawn)
                        && next == answer_to_view::<M>(drawn, true)) && (!(msg is Quit) ==> final(
                    self).log() == old(self).log().push(ModelCall::Update(msg)) && *final(writer)
                    == *old(writer) && exists|
                    handed: &mut M,
                    shown: Rc<Message>,
                    result: Result<OptionalCommand, M::Error>,
                |
                    mut_ref_current(handed) == old(self).model() && mut_ref_future(handed) == final(
                        self).model() && *shown == msg && #[trigger] call_ensures(
                        M::update,
                        (handed, shown),
                        result,
                    ) && next == answer_to_update::<M>(result)),
    {
        let polled = self.program.poll_msg();
        let ghost looked = *self;
        assert(looked.taken() == old(self).taken() && looked.log() == old(self).log()
            && looked.model() == old(self).model() && looked.rounds() == old(self).rounds());
        self.polled(polled, writer)
    }

    /// Goes on with an update, given what a look at the message channel
    /// gave. With nothing queued the update ends: the model is rendered,
    /// once, and the run waits for a message. A queued message is applied:
    /// `Quit` is not shown to the model, which is rendered, once, before
    /// shutdown; any other message is handed to the model's `update`, once,
    /// with no render.
    pub fn polled(&mut self, polled: Option<Message>, writer: &mut M::Writer) -> (next: Next<M>)
        requires
            old(self).inv(),
            old(self).state() == Phase::Draining,
        ensures
            final(self).inv(),
            final(self).state() == next_phase(next),
            final(self).rounds() == old(self).rounds(),
            final(self).same_wiring(old(self)),
            polled is None ==> final(self).taken() == old(self).taken() && final(self).log() == old(
                self).log().push(ModelCall::View) && final(self).model() == old(self).model()
                && exists|handed: &mut M::Writer, drawn: Result<(), M::Error>|
                mut_ref_current(handed) == *old(writer) && mut_ref_future(handed) == *final(writer)
                    && #[trigger] call_ensures(M::view, (&old(self).model(), handed), drawn) && next
                    == answer_to_view::<M>(drawn, false),
            polled matches Some(m) ==> final(self).taken() == old(self).taken().push(m),
            polled matches Some(m) ==> (m is Quit ==> final(self).log() == old(self).log().push(
                ModelCall::View,
            ) && final(self).model() == old(self).model() && exists|
                handed: &mut M::Writer,
                drawn: Result<(), M::Error>,
            |
                mut_ref_current(handed) == *old(writer) && mut_ref_future(handed) == *final(writer)
                    && #[trigger] call_ensures(M::view, (&old(self).model(), handed), drawn) && next
                    == answer_to_view::<M>(drawn, true)),
            polled matches Some(m) ==> (!(m is Quit) ==> final(self).log() == old(self).log().push(
                ModelCall::Update(m),
            ) && *final(writer) == *old(writer) && exists|
                handed: &mut M,
                shown: Rc<Message>,
                result: Result<OptionalCommand, M::Error>,
            |
                mut_ref_current(handed) == old(self).model() && mut_ref_future(handed) == final(
                    self).model() && *shown == m && #[trigger] call_ensures(
                    M::update,
                    (handed, shown),
                    result,
                ) && next == answer_to_update::<M>(result)),
    {
        match polled {
            None => {
                proof {
                    lemma_log_push(self.log@, ModelCall::View);
                }
                self.render(writer, Phase::Idle)
            },
            Some(msg) => self.apply(msg, writer),
        }
    }

    /// A message arrived, or the message channel is closed. A closed
    /// channel ends the run as `Quit` does, with shutdown, but with no
    /// further call to the model. A message begins an update:
    /// `Quit` is not shown to the model, which is rendered, once, before
    /// shutdown; any other message is handed to the model's `update`, once,
    /// with no render.
    pub fn received(&mut self, msg: Option<Message>, writer: &mut M::Writer) -> (next: Next<M>)
        requires
            old(self).inv(),
            old(self).state() == Phase::Idle,
        ensures
            final(self).inv(),
            final(self).state() == next_phase(next),
            final(self).same_wiring(old(self)),
            msg is None ==> next is Shutdown && final(self).log() == old(self).log() && final(self).taken()
                == old(self).taken() && final(self).rounds() == old(self).rounds() && final(
                self).model() == old(self).model() && *final(writer) == *old(writer),
            msg matches Some(m) ==> final(self).rounds() == old(self).rounds() + 1 && final(
                self).taken() == old(self).taken().push(m),
            msg matches Some(m) ==> (m is Quit ==> final(self).log() == old(self).log().push(
                ModelCall::View,
            ) && final(self).model() == old(self).model() && exists|
                handed: &mut M::Writer,
                drawn: Result<(), M::Error>,
            |
                mut_ref_current(handed) == *old(writer) && mut_ref_future(handed) == *final(writer)
                    && #[trigger] call_ensures(M::view, (&old(self).model(), handed), drawn) && next
                    == answer_to_view::<M>(drawn, true)),
            msg matches Some(m) ==> (!(m is Quit) ==> final(self).log() == old(self).log().push(
                ModelCall::Update(m),
            ) && *final(writer) == *old(writer) && exists|
                handed: &mut M,
                shown: Rc<Message>,
                result: Result<OptionalCommand, M::Error>,
            |
                mut_ref_current(handed) == old(self).model() && mut_ref_future(handed) == final(
                    self).model() && *shown == m && #[trigger] call_ensures(
                    M::update,
                    (handed, shown),
                    result,
                ) && next == answer_to_update::<M>(result)),
    {
        match msg {
            None => {
                self.phase = Phase::Stopping;
                Next::Shutdown
            },
            Some(msg) => {
                proof {
                    self.rounds@ = self.rounds@ + 1;
                }
                self.apply(msg, writer)
            },
        }
    }

    /// The dispatcher task ended while the run was waiting for a message.
    /// If it failed, or one of its effects did, the run ends with that
    /// failure as a failure of the message plumbing; the model sees no
    /// further message. After an orderly end the run goes on waiting.
    pub fn dispatcher_stopped(
        &mut self,
        outcome: Result<Result<(), MessageError>, tokio::task::JoinError>,
    ) -> (next: Next<M>)
        requires
            old(self).inv(),
            old(self).state() == Phase::Idle,
        ensures
            final(self).inv(),
            next == answer_to_dispatcher::<M>(outcome),
            final(self).state() == next_phase(next),
            final(self).log() == old(self).log(),
            final(self).taken() == old(self).taken(),
            final(self).rounds() == old(self).rounds(),
            final(self).program() == old(self).program(),
    {
        match join_result(outcome) {
            Err(e) => {
                self.phase = Phase::Done;
                Next::Fail(ProgramError::MessageFailure(e))
            },
            Ok(()) => Next::Receive,
        }
    }

    /// Ends a run that saw `Quit` or found the message channel closed:
    /// fires every registered signal and the
    /// signal of the background tasks. The caller then waits for the tasks
    /// to end and takes the model.
    pub fn finish(&mut self, registry: &mut Registry)
        requires
            old(self).inv(),
            old(self).state() == Phase::Stopping,
            old(registry).wf(),
        ensures
            final(registry).wf(),
            final(registry)@ == all_fired(old(registry)@),
            final(self).inv(),
            final(self).state() == Phase::Done,
            final(self).program().handler_fired(),
            final(self).program().handler_token() == old(self).program().handler_token(),
            final(self).model() == old(self).model(),
            final(self).log() == old(self).log(),
            final(self).taken() == old(self).taken(),
            final(self).rounds() == old(self).rounds(),
    {
        self.program.shutdown(registry);
        self.phase = Phase::Done;
    }

    /// Gives up the run for its program, as it stands.
    pub fn into_program(self) -> (program: Program<M>)
        ensures
            program == self.program(),
    {
        self.program
    }

    /// A sender into the command channel of the program that is run.
    pub fn cmd_tx(&self) -> (sender: tokio::sync::mpsc::Sender<Command>)
        ensures
            sender == self.program().cmd_sender(),
    {
        self.program.cmd_tx()
    }
}

/// The phase in which each answer leaves the run.
pub open spec fn next_phase<M: Model>(next: Next<M>) -> Phase {
    match next {
        Next::Send(_) => Phase::Updating,
        Next::Receive => Phase::Idle,
        Next::Resume => Phase::Draining,
        Next::Shutdown => Phase::Stopping,
        Next::Fail(_) => Phase::Done,
    }
}

impl<M: Model> Run<M> {
    /// `init` is called exactly once, before any update and any render:
    /// a run that has started has `init` as its first call and nowhere
    /// else, and a run that has not started has called nothing.
    pub proof fn lemma_init_precedes(&self)
        requires
            self.inv(),
        ensures
            self.state() == Phase::Created ==> self.log().len() == 0,
            self.state() != Phase::Created ==> self.log().len() > 0 && self.log()[0] is Init,
            forall|i: int| 0 < i < self.log().len() ==> !(#[trigger] self.log()[i] is Init),
    {
    }

    /// While a run goes on, the model has been updated exactly once for
    /// each message taken from the channel, in the order in which they were
    /// taken. The one exception is `Quit`, which ends the run unseen by the
    /// model; a run that ends because the channel is closed has no such
    /// message.
    pub proof fn lemma_one_update_per_message(&self)
        requires
            self.inv(),
            self.state() != Phase::Created,
            self.state() != Phase::Done,
        ensures
            self.state() != Phase::Stopping ==> updates_of(self.log()) == self.taken(),
            self.state() == Phase::Stopping ==> self.taken() == updates_of(self.log())
                || self.taken() == updates_of(self.log()).push(Message::Quit),
    {
        if self.state() == Phase::Starting {
            lemma_first_render();
            assert(self.taken() =~= Seq::<Message>::empty());
        }
        if self.state() == Phase::Stopping && self.taken().len() > 0 {
            assert(self.taken() =~= self.taken().drop_last().push(self.taken().last()));
        }
    }

    /// An answer that follows a render leaves the run with `view` as the
    /// last call to the model.
    pub proof fn lemma_follows_render(&self, next: Next<M>)
        requires
            self.inv(),
            self.state() == next_phase(next),
            next is Receive || next is Shutdown,
        ensures
            self.log().len() > 0,
            self.log().last() is View,
    {
    }

    /// The model is rendered exactly once after `init` and exactly once
    /// after each update, however many queued messages the update took.
    pub proof fn lemma_one_render_per_update(&self)
        requires
            self.inv(),
        ensures
            self.state() == Phase::Idle || self.state() == Phase::Stopping ==> views_of(self.log())
                == self.rounds() + 1,
            self.state() == Phase::Updating || self.state() == Phase::Draining ==> views_of(
                self.log(),
            ) == self.rounds(),
            self.state() == Phase::Starting || self.state() == Phase::Created ==> views_of(
                self.log(),
            ) == 0,
    {
        lemma_first_render();
    }
}

} // verus!
