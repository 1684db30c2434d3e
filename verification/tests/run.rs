use elm_ui::message::{Command, Message, MessageError, OptionalCommand, QuitBehavior};
use elm_ui::program::{
    after_init, after_join, after_update, read_event, send_failure, Drain, Handled, Model, Program,
    ProgramError, ReaderStep, CHANNEL_CAPACITY,
};
use elm_ui::future_ext::CancelledByShutdown;
use elm_ui::registry::Registry;
use elm_ui::run::{Next, Phase, Run};
use std::cell::RefCell;
use std::collections::VecDeque;
use std::rc::Rc;
use tokio::sync::mpsc;

type Log = Rc<RefCell<Vec<String>>>;

struct Recorder {
    log: Log,
    init: Option<Result<OptionalCommand, String>>,
    replies: VecDeque<Result<OptionalCommand, String>>,
    view_fails: bool,
}

fn recorder(init: Result<OptionalCommand, String>) -> (Recorder, Log) {
    let log: Log = Rc::new(RefCell::new(Vec::new()));
    let model =
        Recorder { log: log.clone(), init: Some(init), replies: VecDeque::new(), view_fails: false };
    (model, log)
}

fn describe(msg: &Message) -> String {
    match msg {
        Message::Custom(p) => match p.value.downcast_ref::<u32>() {
            Some(n) => format!("update {}", n),
            None => "update ?".to_owned(),
        },
        Message::CancellationComplete(name) => format!("update ack {:?}", name),
        Message::Quit => "update quit".to_owned(),
        _ => "update other".to_owned(),
    }
}

impl Model for Recorder {
    type Writer = u32;
    type Error = String;

    fn init(&mut self) -> Result<OptionalCommand, String> {
        self.log.borrow_mut().push("init".to_owned());
        self.init.take().unwrap()
    }

    fn update(&mut self, msg: Rc<Message>) -> Result<OptionalCommand, String> {
        self.log.borrow_mut().push(describe(&msg));
        self.replies.pop_front().unwrap_or(Ok(None))
    }

    fn view(&self, writer: &mut u32) -> Result<(), String> {
        self.log.borrow_mut().push("view".to_owned());
        if self.view_fails {
            return Err("cannot draw".to_owned());
        }
        *writer += 1;
        Ok(())
    }
}

fn begin(model: Recorder) -> Run<Recorder> {
    let run = Program::new(model).with_spawn_event_handler(false).run();
    assert_eq!(run.phase(), Phase::Created);
    run
}

fn entries(log: &Log) -> Vec<String> {
    log.borrow().clone()
}

fn closed_send() -> mpsc::error::SendError<Command> {
    let (tx, rx) = mpsc::channel::<Command>(1);
    drop(rx);
    tx.try_send(Command::quit()).map_err(|e| mpsc::error::SendError(e.into_inner())).unwrap_err()
}

#[test]
fn start_initializes_then_renders_once() {
    let (model, log) = recorder(Ok(None));
    let mut run = begin(model);
    let mut frames = 0;
    let (reader, dispatcher, next) = run.start(&mut frames);
    assert!(reader.is_none());
    assert!(dispatcher.is_some());
    assert!(matches!(next, Next::Receive));
    assert_eq!(run.phase(), Phase::Idle);
    assert_eq!(entries(&log), vec!["init", "view"]);
    assert_eq!(frames, 1);
}

#[test]
fn start_hands_out_the_event_reader_when_enabled() {
    let (model, _log) = recorder(Ok(None));
    let mut run = Program::new(model).run();
    let (reader, dispatcher, _next) = run.start(&mut 0);
    assert!(reader.is_some());
    assert!(dispatcher.is_some());
    let reader = reader.unwrap();
    assert!(reader.cancellation_token == dispatcher.unwrap().cancellation_token);
    assert!(!reader.cancellation_token.is_cancelled());
}

#[test]
fn the_first_command_is_sent_before_the_first_render() {
    let (model, log) = recorder(Ok(Some(Command::quit().with_name("first"))));
    let mut run = begin(model);
    let mut frames = 0;
    let (_, _, next) = run.start(&mut frames);
    match next {
        Next::Send(cmd) => assert_eq!(cmd.name, "first"),
        _ => panic!("expected the first command"),
    }
    assert_eq!(run.phase(), Phase::Starting);
    assert_eq!(entries(&log), vec!["init"]);
    assert!(matches!(run.sent(Ok(()), &mut frames), Next::Receive));
    assert_eq!(run.phase(), Phase::Idle);
    assert_eq!(entries(&log), vec!["init", "view"]);
}

#[test]
fn a_failed_init_ends_the_run_unrendered() {
    let (model, log) = recorder(Err("no luck".to_owned()));
    let mut run = begin(model);
    let mut frames = 0;
    let (_, dispatcher, next) = run.start(&mut frames);
    assert!(dispatcher.is_some());
    match next {
        Next::Fail(ProgramError::ApplicationFailure(e)) => assert_eq!(e, "no luck"),
        _ => panic!("expected an application failure"),
    }
    assert_eq!(run.phase(), Phase::Done);
    assert_eq!(entries(&log), vec!["init"]);
    assert_eq!(frames, 0);
}

#[test]
fn a_failed_first_render_ends_the_run() {
    let (mut model, log) = recorder(Ok(None));
    model.view_fails = true;
    let mut run = begin(model);
    let (_, _, next) = run.start(&mut 0);
    match next {
        Next::Fail(ProgramError::ApplicationFailure(e)) => assert_eq!(e, "cannot draw"),
        _ => panic!("expected an application failure"),
    }
    assert_eq!(run.phase(), Phase::Done);
    assert_eq!(entries(&log), vec!["init", "view"]);
}

#[test]
fn a_failed_send_ends_the_run() {
    let (model, log) = recorder(Ok(Some(Command::quit())));
    let mut run = begin(model);
    let (_, _, next) = run.start(&mut 0);
    assert!(matches!(next, Next::Send(_)));
    match run.sent(Err(closed_send()), &mut 0) {
        Next::Fail(ProgramError::MessageFailure(MessageError::SendFailure(text))) => {
            assert_eq!(text, "channel closed")
        }
        _ => panic!("expected a send failure"),
    }
    assert_eq!(run.phase(), Phase::Done);
    assert_eq!(entries(&log), vec!["init"]);
}

#[test]
fn one_message_gives_one_update_and_one_render() {
    let (model, log) = recorder(Ok(None));
    let mut run = begin(model);
    let mut frames = 0;
    run.start(&mut frames);
    assert!(matches!(run.received(Some(Message::custom(1u32)), &mut frames), Next::Resume));
    assert_eq!(run.phase(), Phase::Draining);
    assert_eq!(entries(&log), vec!["init", "view", "update 1"]);
    assert!(matches!(run.resume(&mut frames), Next::Receive));
    assert_eq!(run.phase(), Phase::Idle);
    assert_eq!(entries(&log), vec!["init", "view", "update 1", "view"]);
    assert_eq!(frames, 2);
}

#[test]
fn queued_messages_are_folded_into_one_render_in_order() {
    let (model, log) = recorder(Ok(None));
    let mut run = begin(model);
    let mut frames = 0;
    let (_, dispatcher, _) = run.start(&mut frames);
    let msg_tx = dispatcher.unwrap().msg_tx;
    msg_tx.try_send(Message::custom(2u32)).ok().unwrap();
    msg_tx.try_send(Message::custom(3u32)).ok().unwrap();
    assert!(matches!(run.received(Some(Message::custom(1u32)), &mut frames), Next::Resume));
    assert!(matches!(run.resume(&mut frames), Next::Resume));
    assert!(matches!(run.resume(&mut frames), Next::Resume));
    assert!(matches!(run.resume(&mut frames), Next::Receive));
    assert_eq!(
        entries(&log),
        vec!["init", "view", "update 1", "update 2", "update 3", "view"]
    );
    assert_eq!(frames, 2);
}

#[test]
fn a_command_of_the_model_is_sent_before_the_update_goes_on() {
    let (mut model, log) = recorder(Ok(None));
    model.replies.push_back(Ok(Some(Command::quit().with_name("reply"))));
    let mut run = begin(model);
    let mut frames = 0;
    let (_, dispatcher, _) = run.start(&mut frames);
    let msg_tx = dispatcher.unwrap().msg_tx;
    msg_tx.try_send(Message::custom(2u32)).ok().unwrap();
    match run.received(Some(Message::custom(1u32)), &mut frames) {
        Next::Send(cmd) => assert_eq!(cmd.name, "reply"),
        _ => panic!("expected the model's command"),
    }
    assert_eq!(run.phase(), Phase::Updating);
    assert_eq!(entries(&log), vec!["init", "view", "update 1"]);
    assert!(matches!(run.sent(Ok(()), &mut frames), Next::Resume));
    assert_eq!(entries(&log), vec!["init", "view", "update 1", "update 2"]);
    assert!(matches!(run.resume(&mut frames), Next::Receive));
    assert_eq!(entries(&log), vec!["init", "view", "update 1", "update 2", "view"]);
}

#[test]
fn a_failed_send_within_an_update_ends_the_run_unrendered() {
    let (mut model, log) = recorder(Ok(None));
    model.replies.push_back(Ok(Some(Command::quit())));
    let mut run = begin(model);
    run.start(&mut 0);
    assert!(matches!(run.received(Some(Message::custom(1u32)), &mut 0), Next::Send(_)));
    assert!(matches!(
        run.sent(Err(closed_send()), &mut 0),
        Next::Fail(ProgramError::MessageFailure(MessageError::SendFailure(_)))
    ));
    assert_eq!(entries(&log), vec!["init", "view", "update 1"]);
}

#[test]
fn quit_is_rendered_but_never_shown_to_the_model() {
    let (model, log) = recorder(Ok(None));
    let mut run = begin(model);
    let mut frames = 0;
    let (_, dispatcher, _) = run.start(&mut frames);
    let handler = dispatcher.unwrap().cancellation_token;
    assert!(matches!(run.received(Some(Message::Quit), &mut frames), Next::Shutdown));
    assert_eq!(run.phase(), Phase::Stopping);
    assert_eq!(entries(&log), vec!["init", "view", "view"]);
    let mut registry = Registry::new();
    registry.register("g");
    let token = registry.token("g").unwrap();
    assert!(!handler.is_cancelled());
    run.finish(&mut registry);
    assert_eq!(run.phase(), Phase::Done);
    let model = run.into_program().into_model();
    assert!(handler.is_cancelled());
    assert!(token.is_cancelled());
    assert_eq!(registry.is_fired("g"), Some(true));
    assert!(model.replies.is_empty());
}

#[test]
fn quit_ends_an_update_and_leaves_later_messages_queued() {
    let (model, log) = recorder(Ok(None));
    let mut run = begin(model);
    let mut frames = 0;
    let (_, dispatcher, _) = run.start(&mut frames);
    let msg_tx = dispatcher.unwrap().msg_tx;
    msg_tx.try_send(Message::Quit).ok().unwrap();
    msg_tx.try_send(Message::custom(9u32)).ok().unwrap();
    assert!(matches!(run.received(Some(Message::custom(1u32)), &mut frames), Next::Resume));
    assert!(matches!(run.resume(&mut frames), Next::Shutdown));
    assert_eq!(entries(&log), vec!["init", "view", "update 1", "view"]);
    assert!(run.msg_rx().try_recv().is_ok());
}

#[test]
fn a_closed_message_channel_ends_the_run() {
    let (model, log) = recorder(Ok(None));
    let mut run = begin(model);
    let (_, dispatcher, _) = run.start(&mut 0);
    let handler = dispatcher.unwrap().cancellation_token;
    assert!(matches!(run.received(None, &mut 0), Next::Shutdown));
    assert_eq!(run.phase(), Phase::Stopping);
    assert_eq!(entries(&log), vec!["init", "view"]);
    let mut registry = Registry::new();
    registry.register("g");
    run.finish(&mut registry);
    assert_eq!(run.phase(), Phase::Done);
    assert!(handler.is_cancelled());
    assert_eq!(registry.is_fired("g"), Some(true));
    assert_eq!(entries(&log), vec!["init", "view"]);
    let model = run.into_program().into_model();
    assert!(model.init.is_none());
}

#[test]
fn a_failed_update_ends_the_run_unrendered() {
    let (mut model, log) = recorder(Ok(None));
    model.replies.push_back(Err("bad message".to_owned()));
    let mut run = begin(model);
    run.start(&mut 0);
    match run.received(Some(Message::custom(1u32)), &mut 0) {
        Next::Fail(ProgramError::ApplicationFailure(e)) => assert_eq!(e, "bad message"),
        _ => panic!("expected an application failure"),
    }
    assert_eq!(run.phase(), Phase::Done);
    assert_eq!(entries(&log), vec!["init", "view", "update 1"]);
}

#[test]
fn a_failed_render_after_an_update_ends_the_run() {
    let (model, log) = recorder(Ok(None));
    let mut program = Program::new(model).with_spawn_event_handler(false);
    let startup = program.initialize();
    assert!(matches!(startup.init, Ok(None)));
    let mut model = program.into_model();
    model.view_fails = true;
    model.init = Some(Ok(None));
    log.borrow_mut().clear();
    let mut run = Program::new(model).with_spawn_event_handler(false).run();
    assert!(matches!(run.start(&mut 0).2, Next::Fail(ProgramError::ApplicationFailure(_))));
    assert_eq!(entries(&log), vec!["init", "view"]);
}

#[test]
fn handle_update_answers_quit_without_the_model() {
    let (model, log) = recorder(Ok(None));
    let mut program = Program::new(model);
    assert!(matches!(program.handle_update(Message::Quit), Ok(Handled::Quit)));
    assert!(entries(&log).is_empty());
    assert!(matches!(program.handle_update(Message::CancelAll), Ok(Handled::Continue(None))));
    assert_eq!(entries(&log), vec!["update other"]);
}

#[test]
fn the_program_has_two_channels_of_capacity_32() {
    assert_eq!(CHANNEL_CAPACITY, 32);
    let (model, _log) = recorder(Ok(None));
    let mut program = Program::new(model);
    assert_eq!(program.cmd_tx().max_capacity(), 32);
    assert_eq!(program.cmd_tx().capacity(), 32);
    let parts = program.spawn_message_handler().unwrap();
    assert_eq!(parts.msg_tx.max_capacity(), 32);
    assert!(parts.cmd_tx.same_channel(&program.cmd_tx()));
    assert!(program.spawn_message_handler().is_none());
    let reader = program.spawn_event_reader();
    assert!(reader.msg_tx.same_channel(&parts.msg_tx));
    assert!(reader.cancellation_token == parts.cancellation_token);
}

#[test]
fn poll_msg_takes_what_is_queued_and_never_waits() {
    let (model, _log) = recorder(Ok(None));
    let mut program = Program::new(model);
    assert!(program.poll_msg().is_none());
    let parts = program.spawn_message_handler().unwrap();
    parts.msg_tx.try_send(Message::CancelAll).ok().unwrap();
    parts.msg_tx.try_send(Message::Quit).ok().unwrap();
    assert!(matches!(program.poll_msg(), Some(Message::CancelAll)));
    assert!(matches!(program.poll_msg(), Some(Message::Quit)));
    assert!(program.poll_msg().is_none());
}

#[test]
fn initialize_spawns_even_when_init_fails() {
    let (model, log) = recorder(Err("no luck".to_owned()));
    let mut program = Program::new(model);
    let startup = program.initialize();
    assert!(startup.event_reader.is_some());
    assert!(startup.dispatcher.is_some());
    assert!(matches!(startup.init, Err(ProgramError::ApplicationFailure(_))));
    assert_eq!(entries(&log), vec!["init"]);
    assert!(program.spawn_message_handler().is_none());
}

#[test]
fn view_hands_on_the_models_error() {
    let (mut model, _log) = recorder(Ok(None));
    model.view_fails = true;
    let program = Program::new(model);
    assert_eq!(program.view(&mut 0), Err("cannot draw".to_owned()));
}

#[test]
fn shutdown_fires_every_signal_and_returns_the_model() {
    let (model, _log) = recorder(Ok(None));
    let mut program = Program::new(model);
    let parts = program.spawn_message_handler().unwrap();
    let mut registry = Registry::new();
    registry.register("");
    registry.register("x");
    program.shutdown(&mut registry);
    let model = program.into_model();
    assert!(model.init.is_some());
    assert!(parts.cancellation_token.is_cancelled());
    assert_eq!(registry.is_fired(""), Some(true));
    assert_eq!(registry.is_fired("x"), Some(true));
}

#[test]
fn results_of_the_model_are_reported() {
    assert!(matches!(after_init::<Recorder>(Ok(None)), Ok(None)));
    assert!(matches!(
        after_init::<Recorder>(Err("e".to_owned())),
        Err(ProgramError::ApplicationFailure(_))
    ));
    assert!(matches!(
        after_update::<Recorder>(Ok(Some(Command::quit()))),
        Ok(Handled::Continue(Some(_)))
    ));
    assert!(matches!(
        after_update::<Recorder>(Err("e".to_owned())),
        Err(ProgramError::ApplicationFailure(_))
    ));
    match send_failure::<Recorder, Command>(&closed_send()) {
        ProgramError::MessageFailure(MessageError::SendFailure(text)) => {
            assert_eq!(text, "channel closed")
        }
        _ => panic!("expected a send failure"),
    }
}

#[test]
fn the_event_reader_forwards_events_and_skips_failed_reads() {
    let event = crossterm::event::Event::Resize(3, 4);
    match read_event::<String>(Ok(Some(Ok(event)))) {
        ReaderStep::Forward(Message::TermEvent(e)) => {
            assert_eq!(e, crossterm::event::Event::Resize(3, 4))
        }
        _ => panic!("expected the event to be forwarded"),
    }
    assert!(matches!(read_event(Ok(Some(Err("broken".to_owned())))), ReaderStep::Skip));
    assert!(matches!(read_event::<String>(Ok(None)), ReaderStep::Stop));
    assert!(matches!(read_event::<String>(Err(CancelledByShutdown)), ReaderStep::Stop));
}

#[test]
fn only_quit_stops_the_driver() {
    assert_eq!(Handled::Quit.behavior(), QuitBehavior::Quit);
    assert_eq!(Handled::Continue(None).behavior(), QuitBehavior::Continue);
    assert_eq!(Handled::Continue(Some(Command::quit())).behavior(), QuitBehavior::Continue);
}

#[test]
fn a_snapshot_is_due_after_each_successful_render() {
    assert!(Next::<Recorder>::Receive.follows_render());
    assert!(Next::<Recorder>::Shutdown.follows_render());
    assert!(!Next::<Recorder>::Resume.follows_render());
    assert!(!Next::<Recorder>::Send(Command::quit()).follows_render());
    let failed = Next::<Recorder>::Fail(ProgramError::ApplicationFailure("e".to_owned()));
    assert!(!failed.follows_render());
}

fn aborted() -> tokio::task::JoinError {
    let runtime = tokio::runtime::Builder::new_current_thread().enable_all().build().unwrap();
    runtime.block_on(async {
        let task = tokio::spawn(std::future::pending::<()>());
        task.abort();
        task.await.unwrap_err()
    })
}

#[test]
fn a_failed_dispatcher_ends_the_run_with_a_message_failure() {
    let (model, log) = recorder(Ok(None));
    let mut run = begin(model);
    let mut frames = 0;
    run.start(&mut frames);
    let failed = Ok(Err(MessageError::SendFailure("channel closed".to_owned())));
    match run.dispatcher_stopped(failed) {
        Next::Fail(ProgramError::MessageFailure(MessageError::SendFailure(text))) => {
            assert_eq!(text, "channel closed")
        }
        _ => panic!("expected a message failure"),
    }
    assert_eq!(run.phase(), Phase::Done);
    assert_eq!(entries(&log), vec!["init", "view"]);
    assert_eq!(frames, 1);
}

#[test]
fn a_dispatcher_that_could_not_be_joined_ends_the_run() {
    let (model, _log) = recorder(Ok(None));
    let mut run = begin(model);
    run.start(&mut 0);
    match run.dispatcher_stopped(Err(aborted())) {
        Next::Fail(ProgramError::MessageFailure(MessageError::JoinFailure(e))) => {
            assert!(e.is_cancelled())
        }
        _ => panic!("expected a message failure"),
    }
    assert_eq!(run.phase(), Phase::Done);
}

#[test]
fn an_orderly_end_of_the_dispatcher_leaves_the_run_waiting() {
    let (model, log) = recorder(Ok(None));
    let mut run = begin(model);
    run.start(&mut 0);
    assert!(matches!(run.dispatcher_stopped(Ok(Ok(()))), Next::Receive));
    assert_eq!(run.phase(), Phase::Idle);
    assert!(matches!(run.received(Some(Message::custom(4u32)), &mut 0), Next::Resume));
    assert_eq!(entries(&log), vec!["init", "view", "update 4"]);
}

#[test]
fn the_end_of_a_task_is_reported_by_value() {
    assert!(after_join::<Recorder>(Ok(Ok(()))).is_ok());
    assert!(matches!(
        after_join::<Recorder>(Ok(Err(MessageError::SendFailure("x".to_owned())))),
        Err(ProgramError::MessageFailure(MessageError::SendFailure(_)))
    ));
    assert!(matches!(
        after_join::<Recorder>(Err(aborted())),
        Err(ProgramError::MessageFailure(MessageError::JoinFailure(_)))
    ));
}

#[test]
fn an_update_drains_what_is_queued_in_order() {
    let (model, log) = recorder(Ok(None));
    let mut program = Program::new(model);
    let parts = program.spawn_message_handler().unwrap();
    parts.msg_tx.try_send(Message::custom(1u32)).ok().unwrap();
    parts.msg_tx.try_send(Message::custom(2u32)).ok().unwrap();
    assert!(matches!(program.update(Message::custom(0u32)), Ok(Drain::Again)));
    assert!(matches!(program.drain(), Ok(Drain::Again)));
    assert!(matches!(program.drain(), Ok(Drain::Again)));
    assert!(matches!(program.drain(), Ok(Drain::Done(QuitBehavior::Continue))));
    assert_eq!(entries(&log), vec!["update 0", "update 1", "update 2"]);
    assert!(program.poll_msg().is_none());
}

#[test]
fn an_update_stops_at_quit_and_leaves_the_rest_queued() {
    let (model, log) = recorder(Ok(None));
    let mut program = Program::new(model);
    let parts = program.spawn_message_handler().unwrap();
    parts.msg_tx.try_send(Message::custom(1u32)).ok().unwrap();
    parts.msg_tx.try_send(Message::Quit).ok().unwrap();
    parts.msg_tx.try_send(Message::custom(2u32)).ok().unwrap();
    assert!(matches!(program.update(Message::custom(0u32)), Ok(Drain::Again)));
    assert!(matches!(program.drain(), Ok(Drain::Again)));
    assert!(matches!(program.drain(), Ok(Drain::Done(QuitBehavior::Quit))));
    assert_eq!(entries(&log), vec!["update 0", "update 1"]);
    assert!(program.poll_msg().is_some());
}

#[test]
fn an_update_hands_on_the_command_and_then_the_error() {
    let (mut model, log) = recorder(Ok(None));
    model.replies.push_back(Ok(Some(Command::quit().with_name("c0"))));
    model.replies.push_back(Err("bad".to_owned()));
    let mut program = Program::new(model);
    let parts = program.spawn_message_handler().unwrap();
    parts.msg_tx.try_send(Message::custom(1u32)).ok().unwrap();
    parts.msg_tx.try_send(Message::custom(2u32)).ok().unwrap();
    match program.update(Message::custom(0u32)) {
        Ok(Drain::Send(cmd)) => assert_eq!(cmd.name, "c0"),
        _ => panic!("expected the model's command"),
    }
    match program.drain() {
        Err(ProgramError::ApplicationFailure(e)) => assert_eq!(e, "bad"),
        _ => panic!("expected the model's error"),
    }
    assert_eq!(entries(&log), vec!["update 0", "update 1"]);
    assert!(matches!(program.update(Message::Quit), Ok(Drain::Done(QuitBehavior::Quit))));
    assert_eq!(entries(&log), vec!["update 0", "update 1"]);
}

#[test]
fn a_look_at_an_empty_queue_ends_the_update_with_a_render() {
    let (model, log) = recorder(Ok(None));
    let mut run = begin(model);
    let mut frames = 0;
    run.start(&mut frames);
    assert!(matches!(run.received(Some(Message::custom(1u32)), &mut frames), Next::Resume));
    assert!(matches!(run.polled(None, &mut frames), Next::Receive));
    assert_eq!(run.phase(), Phase::Idle);
    assert_eq!(entries(&log), vec!["init", "view", "update 1", "view"]);
    assert_eq!(frames, 2);
}

#[test]
fn a_polled_message_is_applied_and_a_polled_quit_is_not() {
    let (model, log) = recorder(Ok(None));
    let mut run = begin(model);
    let mut frames = 0;
    run.start(&mut frames);
    assert!(matches!(run.received(Some(Message::custom(1u32)), &mut frames), Next::Resume));
    assert!(matches!(run.polled(Some(Message::custom(2u32)), &mut frames), Next::Resume));
    assert_eq!(entries(&log), vec!["init", "view", "update 1", "update 2"]);
    assert_eq!(frames, 1);
    assert!(matches!(run.polled(Some(Message::Quit), &mut frames), Next::Shutdown));
    assert_eq!(entries(&log), vec!["init", "view", "update 1", "update 2", "view"]);
    assert_eq!(frames, 2);
}

#[test]
fn after_poll_tells_an_empty_queue_from_a_quit() {
    let (model, log) = recorder(Ok(None));
    let mut program = Program::new(model);
    assert!(matches!(program.after_poll(None), Ok(Drain::Done(QuitBehavior::Continue))));
    assert!(matches!(program.after_poll(Some(Message::Quit)), Ok(Drain::Done(QuitBehavior::Quit))));
    assert!(entries(&log).is_empty());
    assert!(matches!(program.after_poll(Some(Message::custom(8u32))), Ok(Drain::Again)));
    assert_eq!(entries(&log), vec!["update 8"]);
}
