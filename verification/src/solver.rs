//! Solving one level: log in as the user of the level before it, run the one
//! command of the level, and take the password from what it prints.
//!
//! The library opens no session itself. It plans the run, and then answers each
//! event of the session with the next thing to do, so that the caller only has
//! to do as it is told.
use crate::commands::{command_of, level_command};
use crate::credentials::{password_of, user_of};
use crate::error::{viewed, WargameError};
use crate::session::{login_of, CommandResult, CommandResultView, Login, LoginView};
use crate::settings::{WargameConfig, WargameConfigView};
use vstd::prelude::*;

verus! {

/// What solving a level takes: the login of the session, and the command to
/// run in it.
#[derive(Clone, Debug, PartialEq, Eq)]
pub struct LevelPlan {
    /// The login of the session, at the level before.
    pub login: Login,
    /// The command that prints the password of the level.
    pub command: String,
}

/// A plan, as contracts speak of it.
pub ghost struct LevelPlanView {
    pub login: LoginView,
    pub command: Seq<char>,
}

impl View for LevelPlan {
    type V = LevelPlanView;

    open spec fn view(&self) -> LevelPlanView {
        LevelPlanView { login: self.login@, command: self.command@ }
    }
}

/// The plan for a level. A level without a command has none. The session is
/// that of the level before: its password is the one handed in, or else the
/// one that the settings hold for that level.
pub open spec fn plan_of(
    config: WargameConfigView,
    level: nat,
    password: Option<Seq<char>>,
) -> Result<LevelPlanView, WargameError> {
    match command_of(config.name, level) {
        None => Err(WargameError::UnknownLevel),
        Some(command) => {
            let before = (level - 1) as nat;
            match password {
                Some(password) => Ok(
                    LevelPlanView { login: login_of(config, before, password), command },
                ),
                None => match password_of(config, before) {
                    Ok(password) => Ok(
                        LevelPlanView { login: login_of(config, before, password), command },
                    ),
                    Err(error) => Err(error),
                },
            }
        },
    }
}

/// Plans the run that yields the password of a level. With a password handed
/// in, the settings are not asked for one.
pub fn plan_level(config: &WargameConfig, level: u8, password: Option<String>) -> (plan: Result<
    LevelPlan,
    WargameError,
>)
    ensures
        viewed(plan) == plan_of(config@, level as nat, password.deep_view()),
{
    let command = match level_command(config.name.as_str(), level) {
        Some(command) => command,
        None => {
            return Err(WargameError::UnknownLevel);
        },
    };
    let before = level - 1;
    let password = match password {
        Some(password) => password,
        None => match config.password(before) {
            Ok(password) => password,
            Err(error) => {
                return Err(error);
            },
        },
    };
    Ok(
        LevelPlan {
            login: Login::from_settings_with_password(config, before, password),
            command: command.to_owned(),
        },
    )
}

/// How a run ended: with the password of the level, or with the failure that
/// stopped it.
pub type Outcome = Result<String, WargameError>;

/// How a run ended, as contracts speak of it.
pub type OutcomeView = Result<Seq<char>, WargameError>;

/// How far a run has come.
#[derive(Debug, PartialEq, Eq)]
pub enum Stage {
    /// The session is being opened.
    Connecting,
    /// The session is open and the command is running.
    Executing,
    /// The session is being closed; the outcome is already known.
    Closing(Outcome),
    /// The run is over.
    Finished(Outcome),
}

/// What happened to the last thing that the caller was told to do.
#[derive(Debug, PartialEq, Eq)]
pub enum Event {
    /// The session is open.
    Connected,
    /// The server refused the user and password.
    AuthenticationFailed,
    /// The server could not be reached.
    ConnectionFailed,
    /// The command ran and left this behind.
    Executed(CommandResult),
    /// The command could not be run.
    ExecutionFailed,
    /// The session is closed.
    Closed,
}

/// What the caller is to do next.
#[derive(Debug, PartialEq, Eq)]
pub enum Action {
    /// Open a session with this login.
    Connect(Login),
    /// Run this command in the session.
    Execute(String),
    /// Close the session.
    Close,
    /// Stop: this is the outcome of the run.
    Finish(Outcome),
}

/// A stage, as contracts speak of it.
pub ghost enum StageView {
    Connecting,
    Executing,
    Closing(OutcomeView),
    Finished(OutcomeView),
}

/// An event, as contracts speak of it.
pub ghost enum EventView {
    Connected,
    AuthenticationFailed,
    ConnectionFailed,
    Executed(CommandResultView),
    ExecutionFailed,
    Closed,
}

/// An action, as contracts speak of it.
pub ghost enum ActionView {
    Connect(LoginView),
    Execute(Seq<char>),
    Close,
    Finish(OutcomeView),
}

impl View for Stage {
    type V = StageView;

    open spec fn view(&self) -> StageView {
        match self {
            Stage::Connecting => StageView::Connecting,
            Stage::Executing => StageView::Executing,
            Stage::Closing(outcome) => StageView::Closing(viewed(*outcome)),
            Stage::Finished(outcome) => StageView::Finished(viewed(*outcome)),
        }
    }
}

impl View for Event {
    type V = EventView;

    open spec fn view(&self) -> EventView {
        match self {
            Event::Connected => EventView::Connected,
            Event::AuthenticationFailed => EventView::AuthenticationFailed,
            Event::ConnectionFailed => EventView::ConnectionFailed,
            Event::Executed(result) => EventView::Executed(result@),
            Event::ExecutionFailed => EventView::ExecutionFailed,
            Event::Closed => EventView::Closed,
        }
    }
}

impl View for Action {
    type V = ActionView;

    open spec fn view(&self) -> ActionView {
        match self {
            Action::Connect(login) => ActionView::Connect(login@),
            Action::Execute(command) => ActionView::Execute(command@),
            Action::Close => ActionView::Close,
            Action::Finish(outcome) => ActionView::Finish(viewed(*outcome)),
        }
    }
}

/// How a run starts: by opening the session of the plan.
pub open spec fn first_step(plan: LevelPlanView) -> (StageView, ActionView) {
    (StageView::Connecting, ActionView::Connect(plan.login))
}

/// How a run goes on after an event.
///
/// While the session is being opened, only its opening lets the command run;
/// a refusal ends the run as a failure to authenticate, and anything else as a
/// failure to connect. While the command runs, its result decides the outcome,
/// and anything else makes the run a failure of the command; either way the
/// session is closed next. Once the session has been asked to close, the run
/// ends with the outcome that was decided, and stays ended.
pub open spec fn next_step(plan: LevelPlanView, stage: StageView, event: EventView) -> (
    StageView,
    ActionView,
) {
    match stage {
        StageView::Connecting => match event {
            EventView::Connected => (StageView::Executing, ActionView::Execute(plan.command)),
            EventView::AuthenticationFailed => (
                StageView::Finished(Err(WargameError::AuthenticationFailure)),
                ActionView::Finish(Err(WargameError::AuthenticationFailure)),
            ),
            _ => (
                StageView::Finished(Err(WargameError::ConnectionFailure)),
                ActionView::Finish(Err(WargameError::ConnectionFailure)),
            ),
        },
        StageView::Executing => match event {
            EventView::Executed(result) => (
                StageView::Closing(Ok(result.password())),
                ActionView::Close,
            ),
            _ => (
                StageView::Closing(Err(WargameError::CommandExecutionFailure)),
                ActionView::Close,
            ),
        },
        StageView::Closing(outcome) => (StageView::Finished(outcome), ActionView::Finish(outcome)),
        StageView::Finished(outcome) => (StageView::Finished(outcome), ActionView::Finish(outcome)),
    }
}

/// Starts a run.
pub fn start(plan: &LevelPlan) -> (step: (Stage, Action))
    ensures
        (step.0@, step.1@) == first_step(plan@),
{
    (Stage::Connecting, Action::Connect(copy_login(&plan.login)))
}

/// Answers an event of the session with the next stage of the run and the next
/// thing to do.
pub fn step(plan: &LevelPlan, stage: Stage, event: Event) -> (step: (Stage, Action))
    ensures
        (step.0@, step.1@) == next_step(plan@, stage@, event@),
{
    match stage {
        Stage::Connecting => match event {
            Event::Connected => (Stage::Executing, Action::Execute(plan.command.clone())),
            Event::AuthenticationFailed => (
                Stage::Finished(Err(WargameError::AuthenticationFailure)),
                Action::Finish(Err(WargameError::AuthenticationFailure)),
            ),
            _ => (
                Stage::Finished(Err(WargameError::ConnectionFailure)),
                Action::Finish(Err(WargameError::ConnectionFailure)),
            ),
        },
        Stage::Executing => match event {
            Event::Executed(result) => (Stage::Closing(Ok(result.password())), Action::Close),
            _ => (Stage::Closing(Err(WargameError::CommandExecutionFailure)), Action::Close),
        },
        Stage::Closing(outcome) => {
            let kept = copy_outcome(&outcome);
            (Stage::Finished(outcome), Action::Finish(kept))
        },
        Stage::Finished(outcome) => {
            let kept = copy_outcome(&outcome);
            (Stage::Finished(outcome), Action::Finish(kept))
        },
    }
}

/// A second copy of a login.
fn copy_login(login: &Login) -> (copy: Login)
    ensures
        copy@ == login@,
{
    Login {
        host: login.host.clone(),
        port: login.port,
        user: login.user.clone(),
        password: login.password.clone(),
    }
}

/// A second copy of an outcome.
fn copy_outcome(outcome: &Outcome) -> (copy: Outcome)
    ensures
        viewed(copy) == viewed(*outcome),
{
    match outcome {
        Ok(password) => Ok(password.clone()),
        Err(error) => Err(*error),
    }
}

/// A whole run: the stage that it has reached after a sequence of events, and
/// everything that the caller was told to do on the way, in order.
pub open spec fn run(plan: LevelPlanView, events: Seq<EventView>) -> (StageView, Seq<ActionView>)
    decreases events.len(),
{
    if events.len() == 0 {
        (first_step(plan).0, seq![first_step(plan).1])
    } else {
        let before = run(plan, events.drop_last());
        let step = next_step(plan, before.0, events.last());
        (step.0, before.1.push(step.1))
    }
}

/// What a run can look like at each stage: it opens the session, runs the
/// command of the plan, closes the session and finishes, in this order, and
/// leaves out the command and the closing only where the session never opened.
pub open spec fn in_order(plan: LevelPlanView, stage: StageView, actions: Seq<ActionView>) -> bool {
    let connect = ActionView::Connect(plan.login);
    let execute = ActionView::Execute(plan.command);
    match stage {
        StageView::Connecting => actions == seq![connect],
        StageView::Executing => actions == seq![connect, execute],
        StageView::Closing(_) => actions == seq![connect, execute, ActionView::Close],
        StageView::Finished(outcome) => {
            ||| {
                &&& actions.len() >= 2
                &&& actions[0] == connect
                &&& forall|i: int|
                    1 <= i < actions.len() ==> #[trigger] actions[i] == ActionView::Finish(outcome)
            }
            ||| {
                &&& actions.len() >= 4
                &&& actions[0] == connect
                &&& actions[1] == execute
                &&& actions[2] == ActionView::Close
                &&& forall|i: int|
                    3 <= i < actions.len() ==> #[trigger] actions[i] == ActionView::Finish(outcome)
            }
        },
    }
}

/// Every run does its steps in order, whatever the events are.
pub proof fn lemma_run_in_order(plan: LevelPlanView, events: Seq<EventView>)
    ensures
        in_order(plan, run(plan, events).0, run(plan, events).1),
    decreases events.len(),
{
    if events.len() > 0 {
        lemma_run_in_order(plan, events.drop_last());
        let before = run(plan, events.drop_last());
        let step = next_step(plan, before.0, events.last());
        let actions = run(plan, events).1;
        let connect = ActionView::Connect(plan.login);
        let execute = ActionView::Execute(plan.command);
        match before.0 {
            StageView::Connecting => {
                assert(actions =~= seq![connect, step.1]);
            },
            StageView::Executing => {
                assert(actions =~= seq![connect, execute, ActionView::Close]);
            },
            _ => {},
        }
    }
}

/// The session is closed on every way out: where a run has told the caller to
/// run the command, it tells it to close the session before it finishes.
pub proof fn lemma_session_is_closed(
    plan: LevelPlanView,
    events: Seq<EventView>,
    opened: int,
    finished: int,
)
    requires
        0 <= opened < finished < run(plan, events).1.len(),
        run(plan, events).1[opened] is Execute,
        run(plan, events).1[finished] is Finish,
    ensures
        exists|closed: int|
            opened < closed < finished && (#[trigger] run(plan, events).1[closed]) is Close,
{
    lemma_run_in_order(plan, events);
    // The command is the second thing that a run asks for, and the closing of
    // the session the third.
    assert(opened == 1);
    assert(run(plan, events).1[2] is Close);
}

/// A run asks for one command only, and it is the command of the plan.
pub proof fn lemma_one_command(plan: LevelPlanView, events: Seq<EventView>, i: int)
    requires
        0 <= i < run(plan, events).1.len(),
        run(plan, events).1[i] is Execute,
    ensures
        i == 1,
        run(plan, events).1[i] == ActionView::Execute(plan.command),
{
    lemma_run_in_order(plan, events);
}

/// A run whose session opens and whose command runs ends with the password
/// that the command printed, whatever the plan and whatever the status of the
/// command: the caller opens the session, runs the command, closes the session
/// and is handed the password.
pub proof fn lemma_run_gives_the_password(plan: LevelPlanView, result: CommandResultView)
    ensures
        run(plan, seq![EventView::Connected, EventView::Executed(result), EventView::Closed]) == (
            StageView::Finished(Ok(result.password())),
            seq![
                ActionView::Connect(plan.login),
                ActionView::Execute(plan.command),
                ActionView::Close,
                ActionView::Finish(Ok(result.password())),
            ],
        ),
{
    let e1 = seq![EventView::Connected];
    let e2 = seq![EventView::Connected, EventView::Executed(result)];
    let e3 = seq![EventView::Connected, EventView::Executed(result), EventView::Closed];
    assert(e1.drop_last() =~= Seq::<EventView>::empty());
    assert(e2.drop_last() =~= e1);
    assert(e3.drop_last() =~= e2);
    assert(run(plan, Seq::<EventView>::empty()).1 == seq![ActionView::Connect(plan.login)]);
    assert(run(plan, e1).1 =~= seq![
        ActionView::Connect(plan.login),
        ActionView::Execute(plan.command),
    ]);
    assert(run(plan, e2).1 =~= seq![
        ActionView::Connect(plan.login),
        ActionView::Execute(plan.command),
        ActionView::Close,
    ]);
    assert(run(plan, e3).1 =~= seq![
        ActionView::Connect(plan.login),
        ActionView::Execute(plan.command),
        ActionView::Close,
        ActionView::Finish(Ok(result.password())),
    ]);
}

/// The password that one level gives away opens the session of the next:
/// handed in to the plan of the level after, it is the password of the login,
/// and the user is that of the level which gave it away.
pub proof fn lemma_password_opens_the_next_level(
    config: WargameConfigView,
    level: nat,
    password: Seq<char>,
)
    requires
        command_of(config.name, level + 1) is Some,
    ensures
        plan_of(config, level + 1, Some(password)) == Ok::<LevelPlanView, WargameError>(
            LevelPlanView {
                login: login_of(config, level, password),
                command: command_of(config.name, level + 1)->0,
            },
        ),
        login_of(config, level, password).user == user_of(config.name, level),
        login_of(config, level, password).password == password,
{
}

} // verus!
