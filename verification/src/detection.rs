//! The detection loop as a state machine: from the current state and the
//! event that just happened to the next state and the action to perform.
//!
//! The program that owns the sensor, the capture utility and the network
//! performs each action and hands back the event that ended it.

use vstd::prelude::*;

use crate::capture::{
    capture_args, capture_command, capture_result, capture_succeeded, image_path,
    image_path_text, CaptureReport,
};
use crate::config::{qualifies, Config, Edge};
use crate::error::FatalError;
use crate::notify::{
    capture_failed_text, choose_notification, detected_text, notification_for, Notification,
    NotificationView, SendReport,
};
use crate::timestamp::Timestamp;

verus! {

/// Something that happened outside and ends the action in flight.
#[derive(Clone, Copy, Debug, PartialEq, Eq)]
pub enum Event {
    /// The sensor line changed at the moment `at`.
    Edge { edge: Edge, at: Timestamp },
    /// Waiting for the sensor failed for good.
    PollFailed,
    /// The capture utility has ended.
    Captured(CaptureReport),
    /// The image file was read for attachment, or could not be.
    Attached(bool),
    /// The notification attempt has ended.
    Sent(SendReport),
}

/// The step of a handling cycle that is in flight.
#[derive(Clone, Debug, PartialEq, Eq)]
pub enum Stage {
    /// The capture utility is writing to `path`.
    Capturing { path: String },
    /// The image at `path` is being read for attachment.
    Attaching { path: String },
    /// The notification is on its way.
    Sending,
}

/// The state of the detection loop.
#[derive(Clone, Debug, PartialEq, Eq)]
pub enum State {
    /// Blocked on the sensor.
    Idle,
    /// Working on one detection.
    Handling(Stage),
    /// Polling has failed; the process is to end.
    Stopped,
}

/// What the surrounding program is to do next.
#[derive(Clone, Debug, PartialEq, Eq)]
pub enum Action {
    /// Block until the sensor reports an edge.
    AwaitEdge,
    /// Run the capture utility with these arguments and wait for its end.
    Capture { args: Vec<String> },
    /// Read the image at `path` for attachment.
    Attach { path: String },
    /// Post this notification.
    Send(Notification),
    /// End the process with this status.
    Exit { code: u8 },
    /// The event did not belong to the state and was dropped: go on
    /// waiting for the end of the action in flight.
    Ignored,
}

/// A stage over sequences of characters.
pub enum StageView {
    Capturing { path: Seq<char> },
    Attaching { path: Seq<char> },
    Sending,
}

/// A state over sequences of characters.
pub enum StateView {
    Idle,
    Handling(StageView),
    Stopped,
}

/// An action over sequences of characters.
pub enum ActionView {
    AwaitEdge,
    Capture { args: Seq<Seq<char>> },
    Attach { path: Seq<char> },
    Send(NotificationView),
    Exit { code: int },
    Ignored,
}

impl View for Stage {
    type V = StageView;

    open spec fn view(&self) -> StageView {
        match self {
            Stage::Capturing { path } => StageView::Capturing { path: path@ },
            Stage::Attaching { path } => StageView::Attaching { path: path@ },
            Stage::Sending => StageView::Sending,
        }
    }
}

impl View for State {
    type V = StateView;

    open spec fn view(&self) -> StateView {
        match self {
            State::Idle => StateView::Idle,
            State::Handling(stage) => StateView::Handling(stage@),
            State::Stopped => StateView::Stopped,
        }
    }
}

impl View for Action {
    type V = ActionView;

    open spec fn view(&self) -> ActionView {
        match self {
            Action::AwaitEdge => ActionView::AwaitEdge,
            Action::Capture { args } => ActionView::Capture { args: args.deep_view() },
            Action::Attach { path } => ActionView::Attach { path: path@ },
            Action::Send(notification) => ActionView::Send(notification@),
            Action::Exit { code } => ActionView::Exit { code: *code as int },
            Action::Ignored => ActionView::Ignored,
        }
    }
}

/// The action that ends the process after polling has failed.
pub open spec fn exit_action() -> ActionView {
    ActionView::Exit { code: FatalError::Polling.exit_status() }
}

/// One step of the idle loop: a qualifying edge starts a capture to the
/// path named after its moment, any other edge is waited out, a polling
/// failure stops the loop.
pub open spec fn next_idle(config: Config, event: Event) -> (StateView, ActionView) {
    match event {
        Event::Edge { edge, at } => {
            if qualifies(config.trigger, edge) {
                let path = image_path_text(config.image_dir@, at@);
                (
                    StateView::Handling(StageView::Capturing { path }),
                    ActionView::Capture { args: capture_args(path, config.options) },
                )
            } else {
                (StateView::Idle, ActionView::AwaitEdge)
            }
        },
        Event::PollFailed => (StateView::Stopped, exit_action()),
        _ => (StateView::Idle, ActionView::Ignored),
    }
}

/// One step of a handling cycle. A failed capture goes straight to the
/// fallback notification; a successful one goes on to attach the image and
/// then to send it, or the text that says it could not be attached. Whatever
/// the notification attempt brought, the loop is idle again after it.
pub open spec fn next_handling(stage: StageView, event: Event) -> (StateView, ActionView) {
    match (stage, event) {
        (StageView::Capturing { path }, Event::Captured(report)) => {
            if capture_succeeded(report) {
                (
                    StateView::Handling(StageView::Attaching { path }),
                    ActionView::Attach { path },
                )
            } else {
                (
                    StateView::Handling(StageView::Sending),
                    ActionView::Send(notification_for(false, false, path)),
                )
            }
        },
        (StageView::Attaching { path }, Event::Attached(attached)) => (
            StateView::Handling(StageView::Sending),
            ActionView::Send(notification_for(true, attached, path)),
        ),
        (StageView::Sending, Event::Sent(_)) => (StateView::Idle, ActionView::AwaitEdge),
        _ => (StateView::Handling(stage), ActionView::Ignored),
    }
}

/// The transition function of the detection loop.
pub open spec fn next(config: Config, state: StateView, event: Event) -> (StateView, ActionView) {
    match state {
        StateView::Idle => next_idle(config, event),
        StateView::Handling(stage) => next_handling(stage, event),
        StateView::Stopped => (StateView::Stopped, exit_action()),
    }
}

/// The run of the loop from `start` over `events`: the state it ends in and
/// the actions it asked for, one per event.
pub open spec fn run(config: Config, start: StateView, events: Seq<Event>) -> (
    StateView,
    Seq<ActionView>,
)
    decreases events.len(),
{
    if events.len() == 0 {
        (start, Seq::<ActionView>::empty())
    } else {
        let (middle, actions) = run(config, start, events.drop_last());
        let (end, action) = next(config, middle, events.last());
        (end, actions.push(action))
    }
}

/// The number of capture attempts among `actions`.
pub open spec fn capture_count(actions: Seq<ActionView>) -> nat
    decreases actions.len(),
{
    if actions.len() == 0 {
        0
    } else {
        capture_count(actions.drop_last()) + if actions.last() is Capture {
            1nat
        } else {
            0nat
        }
    }
}

/// The number of notification attempts among `actions`.
pub open spec fn send_count(actions: Seq<ActionView>) -> nat
    decreases actions.len(),
{
    if actions.len() == 0 {
        0
    } else {
        send_count(actions.drop_last()) + if actions.last() is Send {
            1nat
        } else {
            0nat
        }
    }
}

/// Whether a capture has been started whose notification is still to be
/// asked for.
pub open spec fn notification_owed(state: StateView) -> bool {
    state matches StateView::Handling(stage) && !(stage is Sending)
}

/// Whether `event` is a qualifying edge that reaches the loop while it is
/// idle.
pub open spec fn edge_taken(config: Config, state: StateView, event: Event) -> bool {
    state is Idle && match event {
        Event::Edge { edge, .. } => qualifies(config.trigger, edge),
        _ => false,
    }
}

/// A capture is attempted exactly when a qualifying edge reaches the idle
/// loop: no edge is missed there, and nothing else starts a capture.
pub proof fn lemma_capture_on_qualifying_edge(config: Config, state: StateView, event: Event)
    ensures
        next(config, state, event).1 is Capture <==> edge_taken(config, state, event),
{
}

/// The number of qualifying edges that reach the loop while it is idle, in
/// the run from `start` over `events`.
pub open spec fn taken_count(config: Config, start: StateView, events: Seq<Event>) -> nat
    decreases events.len(),
{
    if events.len() == 0 {
        0
    } else {
        let before = events.drop_last();
        taken_count(config, start, before) + if edge_taken(
            config,
            run(config, start, before).0,
            events.last(),
        ) {
            1nat
        } else {
            0nat
        }
    }
}

/// Over any run from the idle state, each qualifying edge that reaches the
/// idle loop is answered by exactly one capture attempt, and each capture
/// attempt by exactly one notification attempt: the counts are equal, but
/// for the one capture whose notification is still owed.
pub proof fn lemma_one_capture_one_notification(config: Config, events: Seq<Event>)
    ensures
        ({
            let (end, actions) = run(config, StateView::Idle, events);
            &&& actions.len() == events.len()
            &&& capture_count(actions) == taken_count(config, StateView::Idle, events)
            &&& capture_count(actions) == send_count(actions) + if notification_owed(end) {
                1nat
            } else {
                0nat
            }
        }),
    decreases events.len(),
{
    if events.len() > 0 {
        lemma_one_capture_one_notification(config, events.drop_last());
        let (middle, actions) = run(config, StateView::Idle, events.drop_last());
        let (end, action) = next(config, middle, events.last());
        lemma_capture_on_qualifying_edge(config, middle, events.last());
        assert(actions.push(action).drop_last() =~= actions);
    }
}

/// A capture that fails, whether the utility could not be started or did
/// not exit with status zero, is followed by the fallback text without an
/// attachment.
pub proof fn lemma_failed_capture_sends_fallback(
    config: Config,
    path: Seq<char>,
    report: CaptureReport,
)
    requires
        !capture_succeeded(report),
    ensures
        next(
            config,
            StateView::Handling(StageView::Capturing { path }),
            Event::Captured(report),
        ) == (
            StateView::Handling(StageView::Sending),
            ActionView::Send(NotificationView::Text(capture_failed_text())),
        ),
{
}

/// A capture that succeeds is followed by the multipart notification, and
/// the path that was handed to the capture utility is the path that is
/// attached and sent.
pub proof fn lemma_captured_image_is_sent(
    config: Config,
    edge: Edge,
    at: Timestamp,
    report: CaptureReport,
)
    requires
        qualifies(config.trigger, edge),
        capture_succeeded(report),
    ensures
        ({
            let path = image_path_text(config.image_dir@, at@);
            let (capturing, capture) = next(config, StateView::Idle, Event::Edge { edge, at });
            let (attaching, attach) = next(config, capturing, Event::Captured(report));
            let (sending, notify) = next(config, attaching, Event::Attached(true));
            &&& capture == ActionView::Capture { args: capture_args(path, config.options) }
            &&& capture_args(path, config.options)[1] == path
            &&& attach == ActionView::Attach { path }
            &&& notify == ActionView::Send(
                NotificationView::Image { message: detected_text(), path },
            )
            &&& sending == StateView::Handling(StageView::Sending)
        }),
{
}

/// Whatever the notification attempt brings, an answer of any status or no
/// answer at all, the loop is idle again and waits for the next edge.
pub proof fn lemma_loop_resumes_after_send(config: Config, report: SendReport)
    ensures
        next(config, StateView::Handling(StageView::Sending), Event::Sent(report)) == (
            StateView::Idle,
            ActionView::AwaitEdge,
        ),
{
}

/// Takes the loop one step: the state after `event`, and what to do next.
pub fn step(config: &Config, state: &State, event: Event) -> (taken: (State, Action))
    ensures
        (taken.0@, taken.1@) == next(*config, state@, event),
{
    match state {
        State::Idle => match event {
            Event::Edge { edge, at } => {
                if config.trigger.admits(edge) {
                    let path = image_path(config.image_dir.as_str(), &at);
                    let args = capture_command(path.as_str(), &config.options);
                    (State::Handling(Stage::Capturing { path }), Action::Capture { args })
                } else {
                    (State::Idle, Action::AwaitEdge)
                }
            },
            Event::PollFailed => (
                State::Stopped,
                Action::Exit { code: FatalError::Polling.exit_code() },
            ),
            _ => (State::Idle, Action::Ignored),
        },
        State::Handling(stage) => match stage {
            Stage::Capturing { path } => match event {
                Event::Captured(report) => {
                    if capture_result(report).is_ok() {
                        (
                            State::Handling(Stage::Attaching { path: path.clone() }),
                            Action::Attach { path: path.clone() },
                        )
                    } else {
                        (
                            State::Handling(Stage::Sending),
                            Action::Send(choose_notification(false, false, path.as_str())),
                        )
                    }
                },
                _ => (
                    State::Handling(Stage::Capturing { path: path.clone() }),
                    Action::Ignored,
                ),
            },
            Stage::Attaching { path } => match event {
                Event::Attached(attached) => (
                    State::Handling(Stage::Sending),
                    Action::Send(choose_notification(true, attached, path.as_str())),
                ),
                _ => (
                    State::Handling(Stage::Attaching { path: path.clone() }),
                    Action::Ignored,
                ),
            },
            Stage::Sending => match event {
                Event::Sent(_) => (State::Idle, Action::AwaitEdge),
                _ => (State::Handling(Stage::Sending), Action::Ignored),
            },
        },
        State::Stopped => (
            State::Stopped,
            Action::Exit { code: FatalError::Polling.exit_code() },
        ),
    }
}

/// A detection loop: its settings and where it stands.
#[derive(Clone, Debug)]
pub struct DetectionLoop {
    pub config: Config,
    pub state: State,
}

impl DetectionLoop {
    /// A loop that waits for its first edge.
    pub fn new(config: Config) -> (made: DetectionLoop)
        ensures
            made.config == config,
            made.state@ == StateView::Idle,
    {
        DetectionLoop { config, state: State::Idle }
    }

    /// Feeds one event to the loop and returns what to do next.
    pub fn step(&mut self, event: Event) -> (action: Action)
        ensures
            final(self).config == old(self).config,
            (final(self).state@, action@) == next(old(self).config, old(self).state@, event),
    {
        let taken = step(&self.config, &self.state, event);
        self.state = taken.0;
        taken.1
    }
}

} // verus!
