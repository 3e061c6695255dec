//! The session, the driver process that serves it, and the facade that owns
//! both.
use vstd::prelude::*;
use vstd::string::*;
use crate::actions::{Action, ActionView};
use crate::element::Element;
use crate::http::{
    capabilities_text, framed, locator_json, script_json, session_path, str_views, timeout_body,
    frame_body, Capability, Http, Method, MethodView,
};
use crate::json::{pair_views, rendered, text_items, text_views};
use crate::option::{Browser, BrowserOption};
use crate::reply::{answer, explains, read_session, text_member, Reply};
use crate::text::{
    concat, contains, decimal, occurs_in, signed_decimal, signed_to_text, unsigned_to_text,
};
use crate::{SError, SErrorView, SResult};

verus! {

/// A session of the endpoint, by the identifier that the endpoint gave it.
#[derive(Debug)]
pub struct Session {
    pub session_id: String,
}

impl Session {
    /// A second handle on the same session.
    pub fn duplicate(&self) -> (session: Session)
        ensures
            session.session_id@ == self.session_id@,
    {
        Session { session_id: self.session_id.clone() }
    }
}

/// What a new window is opened as.
#[derive(Clone, Copy, Debug, PartialEq, Eq, Structural)]
pub enum NewWindowType {
    Tab,
    Window,
}

impl NewWindowType {
    /// The name of the kind of window on the wire.
    pub open spec fn name(self) -> Seq<char> {
        match self {
            NewWindowType::Tab => "tab"@,
            NewWindowType::Window => "window"@,
        }
    }

    /// The name of the kind of window on the wire.
    pub fn to_string(&self) -> (name: String)
        ensures
            name@ == self.name(),
    {
        match self {
            NewWindowType::Tab => String::from_str("tab"),
            NewWindowType::Window => String::from_str("window"),
        }
    }
}

/// The frame to switch to: the top-level context, a frame by its number, or
/// a frame by the reference of its element.
pub enum SwitchToFrame {
    Null,
    Number(usize),
    Element(String),
}

/// A timeout of the session, in milliseconds.
#[derive(Clone, Copy, Debug, PartialEq, Eq, Structural)]
pub enum TimeoutType {
    Script(u32),
    PageLoad(u32),
    Implicit(u32),
}

/// How to look for an element.
pub enum By<'a> {
    Css(&'a str),
    LinkText(&'a str),
    ParitialLinkText(&'a str),
    TagName(&'a str),
    XPath(&'a str),
    Class(&'a str),
    Id(&'a str),
}

impl<'a> By<'a> {
    /// The location strategy on the wire. A class and an id are looked for
    /// with a css selector.
    pub open spec fn using(self) -> Seq<char> {
        match self {
            By::Css(_) => "css selector"@,
            By::LinkText(_) => "link text"@,
            By::ParitialLinkText(_) => "partial link text"@,
            By::TagName(_) => "tag name"@,
            By::XPath(_) => "xpath"@,
            By::Class(_) => "css selector"@,
            By::Id(_) => "css selector"@,
        }
    }

    /// The selector on the wire: for a class the name behind a dot, for an id
    /// the name behind a hash sign.
    pub open spec fn value(self) -> Seq<char> {
        match self {
            By::Css(v) => v@,
            By::LinkText(v) => v@,
            By::ParitialLinkText(v) => v@,
            By::TagName(v) => v@,
            By::XPath(v) => v@,
            By::Class(v) => "."@ + v@,
            By::Id(v) => "#"@ + v@,
        }
    }
}

/// A program to start, with its arguments.
#[derive(Debug)]
pub struct Command {
    pub program: String,
    pub arguments: Vec<String>,
}

/// The mathematical content of a [`Command`].
pub struct CommandView {
    pub program: Seq<char>,
    pub arguments: Seq<Seq<char>>,
}

impl View for Command {
    type V = CommandView;

    open spec fn view(&self) -> CommandView {
        CommandView { program: self.program@, arguments: text_views(self.arguments@) }
    }
}

/// The family of systems that the client runs on: it decides how the
/// monitor is written.
#[derive(Clone, Copy, Debug, PartialEq, Eq, Structural)]
pub enum Platform {
    Posix,
    Windows,
}

/// How a driver is told its port: Firefox and Safari drivers take the flag
/// and the number as two arguments, Chrome and Edge drivers as one.
pub open spec fn port_flags(browser: Browser, port: u16) -> Seq<Seq<char>> {
    match browser {
        Browser::Firefox => seq!["--port"@, decimal(port as nat)],
        Browser::Safari => seq!["--port"@, decimal(port as nat)],
        Browser::Chrome => seq!["--port="@ + decimal(port as nat)],
        Browser::Edge => seq!["--port="@ + decimal(port as nat)],
    }
}

/// The script of the monitor: as long as the process `own` lives it waits,
/// half a second at a time; then it kills the process `driver`.
pub open spec fn monitor_script(platform: Platform, own: u32, driver: u32) -> Seq<char> {
    match platform {
        Platform::Posix => "while kill -0 "@ + decimal(own as nat)
            + " 2>/dev/null; do sleep 0.5; done; kill "@ + decimal(driver as nat),
        Platform::Windows => "while ((Get-Process -Id "@ + decimal(own as nat)
            + " -ErrorAction SilentlyContinue) -ne $null) { Start-Sleep -Milliseconds 500 }; Stop-Process -Id "@
            + decimal(driver as nat) + " -Force"@,
    }
}

/// The command that runs the monitor: the shell of the platform, told to
/// run the script.
pub open spec fn monitor_command(platform: Platform, own: u32, driver: u32) -> CommandView {
    match platform {
        Platform::Posix => CommandView {
            program: "/bin/sh"@,
            arguments: seq!["-c"@, monitor_script(platform, own, driver)],
        },
        Platform::Windows => CommandView {
            program: "powershell.exe"@,
            arguments: seq!["-Command"@, monitor_script(platform, own, driver)],
        },
    }
}

/// What a look at the driver process showed.
#[derive(Debug)]
pub enum ProcessStatus {
    Running,
    /// It has ended, with this exit code if it has one.
    Exited(Option<i32>),
    /// The look itself failed, for this reason.
    Unknown(String),
}

/// What a bounded read of the driver's error output gave.
#[derive(Debug)]
pub enum StderrRead {
    /// There is no error output to read.
    Absent,
    /// The output ended; this is all of it.
    Complete(String),
    /// The time ran out; this is what had come.
    TimedOut(String),
    /// The read failed, for this reason.
    Broken(String),
}

/// The exit code to report: -1 where the process gave none.
pub open spec fn reported_code(code: Option<i32>) -> int {
    match code {
        Some(c) => c as int,
        None => -1,
    }
}

/// The message for a driver that had ended when the supervisor looked: the
/// error output where it could be read, and the exit code otherwise.
pub open spec fn exit_message(code: Option<i32>, stderr: Option<Seq<char>>) -> Seq<char> {
    match stderr {
        Some(text) => "start driver fail,reason: "@ + text,
        None => "start driver fail,exit "@ + signed_decimal(reported_code(code)),
    }
}

/// What a bounded read of the error output brought to light: what was
/// read, whether to the end or until the time ran out.
pub open spec fn surfaced(stderr: StderrRead) -> Option<Seq<char>> {
    match stderr {
        StderrRead::Complete(text) => Some(text@),
        StderrRead::TimedOut(text) => Some(text@),
        _ => None,
    }
}

/// What is left to do to stop the processes of a driver.
#[derive(Clone, Copy, Debug, PartialEq, Eq, Structural)]
pub enum ProcessStep {
    KillMonitor,
    KillDriver,
    WaitMonitor,
    WaitDriver,
}

/// The steps that stop the driver and, where it was started, the monitor,
/// and leave no zombie: both are killed, the monitor first, and then both
/// are waited for, the monitor first.
pub open spec fn stop_steps(monitor_started: bool) -> Seq<ProcessStep> {
    if monitor_started {
        seq![
            ProcessStep::KillMonitor,
            ProcessStep::KillDriver,
            ProcessStep::WaitMonitor,
            ProcessStep::WaitDriver,
        ]
    } else {
        seq![ProcessStep::KillDriver, ProcessStep::WaitDriver]
    }
}

/// The two processes that serve a local session, and the port that the
/// driver listens on.
#[derive(Debug)]
pub struct DriverProcess {
    /// The process id of the driver.
    pub driver: u32,
    /// The process id of the monitor.
    pub monitor: u32,
    pub port: u16,
}

fn exit_code_text(code: Option<i32>) -> (text: String)
    ensures
        text@ == signed_decimal(reported_code(code)),
{
    match code {
        Some(c) => signed_to_text(c as i64),
        None => signed_to_text(-1),
    }
}

impl DriverProcess {
    /// The command that starts the driver `exec` of `browser` on `port`.
    pub fn start_driver(exec: &str, browser: Browser, port: u16) -> (command: Command)
        ensures
            command@ == (CommandView { program: exec@, arguments: port_flags(browser, port) }),
    {
        let digits = unsigned_to_text(port as u64);
        let mut arguments: Vec<String> = Vec::new();
        match browser {
            Browser::Firefox => {
                arguments.push(String::from_str("--port"));
                arguments.push(digits);
            },
            Browser::Safari => {
                arguments.push(String::from_str("--port"));
                arguments.push(digits);
            },
            Browser::Chrome => {
                arguments.push(concat("--port=", digits.as_str()));
            },
            Browser::Edge => {
                arguments.push(concat("--port=", digits.as_str()));
            },
        }
        assert(text_views(arguments@) =~= port_flags(browser, port));
        Command { program: String::from_str(exec), arguments }
    }

    /// The command that starts the monitor: it kills the process
    /// `driver_pid` once the process `own_pid`, the client itself, is gone.
    pub fn start_monitor(platform: Platform, own_pid: u32, driver_pid: u32) -> (command: Command)
        ensures
            command@ == monitor_command(platform, own_pid, driver_pid),
    {
        let own = unsigned_to_text(own_pid as u64);
        let driver = unsigned_to_text(driver_pid as u64);
        let mut arguments: Vec<String> = Vec::new();
        match platform {
            Platform::Posix => {
                let mut script = framed(
                    "while kill -0 ",
                    own.as_str(),
                    " 2>/dev/null; do sleep 0.5; done; kill ",
                );
                script.append(driver.as_str());
                arguments.push(String::from_str("-c"));
                arguments.push(script);
                assert(text_views(arguments@) =~= seq![
                    "-c"@,
                    monitor_script(platform, own_pid, driver_pid),
                ]);
                Command { program: String::from_str("/bin/sh"), arguments }
            },
            Platform::Windows => {
                let mut script = framed(
                    "while ((Get-Process -Id ",
                    own.as_str(),
                    " -ErrorAction SilentlyContinue) -ne $null) { Start-Sleep -Milliseconds 500 }; Stop-Process -Id ",
                );
                script.append(driver.as_str());
                script.append(" -Force");
                arguments.push(String::from_str("-Command"));
                arguments.push(script);
                assert(text_views(arguments@) =~= seq![
                    "-Command"@,
                    monitor_script(platform, own_pid, driver_pid),
                ]);
                Command { program: String::from_str("powershell.exe"), arguments }
            },
        }
    }

    /// The error for a driver executable that could not be started.
    pub fn spawn_failed(reason: &str) -> (e: SError)
        ensures
            e@ == SErrorView::Driver(reason@),
    {
        SError::Driver(String::from_str(reason))
    }

    /// What a bounded read of the error output amounts to: what was read,
    /// also where the time ran out, and nothing where there is no output; a
    /// failed read is an error of the `Driver` kind.
    pub fn get_err(read: StderrRead) -> (r: SResult<String>)
        ensures
            match read {
                StderrRead::Absent => r is Ok && r->Ok_0@ == Seq::<char>::empty(),
                StderrRead::Complete(text) => r is Ok && r->Ok_0@ == text@,
                StderrRead::TimedOut(text) => r is Ok && r->Ok_0@ == text@,
                StderrRead::Broken(reason) => r is Err && r->Err_0@ == SErrorView::Driver(reason@),
            },
    {
        match read {
            StderrRead::Absent => Ok(String::new()),
            StderrRead::Complete(text) => Ok(text),
            StderrRead::TimedOut(text) => Ok(text),
            StderrRead::Broken(reason) => Err(SError::Driver(reason)),
        }
    }

    /// The handle on a driver that runs, or the error for one that had ended
    /// when the supervisor looked after the start.
    ///
    /// A driver that has ended is an error of the `Driver` kind: it carries
    /// what was read of the error output, also where the time ran out, and
    /// the exit code where nothing could be read. In every other case the
    /// handle is given.
    pub fn new(driver: u32, monitor: u32, port: u16, status: &ProcessStatus, stderr: StderrRead) -> (r:
        SResult<DriverProcess>)
        ensures
            match *status {
                ProcessStatus::Exited(code) => r is Err && r->Err_0@ == SErrorView::Driver(
                    exit_message(code, surfaced(stderr)),
                ),
                _ => r is Ok && r->Ok_0 == (DriverProcess { driver, monitor, port }),
            },
    {
        match status {
            ProcessStatus::Exited(code) => {
                match stderr {
                    StderrRead::Complete(text) => Err(
                        SError::Driver(concat("start driver fail,reason: ", text.as_str())),
                    ),
                    StderrRead::TimedOut(text) => Err(
                        SError::Driver(concat("start driver fail,reason: ", text.as_str())),
                    ),
                    _ => {
                        let digits = exit_code_text(*code);
                        Err(SError::Driver(concat("start driver fail,exit ", digits.as_str())))
                    },
                }
            },
            _ => Ok(DriverProcess { driver, monitor, port }),
        }
    }

    /// The steps that stop what was started when the start is given up: the
    /// driver, and the monitor where it was started too, the monitor first.
    pub fn abandon(monitor_started: bool) -> (steps: Vec<ProcessStep>)
        ensures
            steps@ == stop_steps(monitor_started),
    {
        let mut steps: Vec<ProcessStep> = Vec::new();
        if monitor_started {
            steps.push(ProcessStep::KillMonitor);
        }
        steps.push(ProcessStep::KillDriver);
        if monitor_started {
            steps.push(ProcessStep::WaitMonitor);
        }
        steps.push(ProcessStep::WaitDriver);
        assert(steps@ =~= stop_steps(monitor_started));
        steps
    }

    /// The steps that stop both processes and leave no zombie: both are
    /// killed, the monitor first, and then both are waited for, the monitor
    /// first.
    pub fn teardown() -> (steps: Vec<ProcessStep>)
        ensures
            steps@ == stop_steps(true),
    {
        DriverProcess::abandon(true)
    }
}

/// Where the wait for a started driver stands.
#[derive(Debug)]
pub enum Readiness {
    /// The port is to be tried; so many tries are left, this one included.
    Probing(u8),
    /// The connection was refused: the process is to be looked at.
    Checking(u8),
    /// The process runs: a pause is due before the next try.
    Sleeping(u8),
    /// The tries are used up, or were not refused: the caller goes on.
    Ready,
    /// The driver has ended, or could not be looked at.
    Failed(String),
}

/// The mathematical content of a [`Readiness`].
pub enum ReadinessView {
    Probing(u8),
    Checking(u8),
    Sleeping(u8),
    Ready,
    Failed(Seq<char>),
}

impl View for Readiness {
    type V = ReadinessView;

    open spec fn view(&self) -> ReadinessView {
        match self {
            Readiness::Probing(left) => ReadinessView::Probing(*left),
            Readiness::Checking(left) => ReadinessView::Checking(*left),
            Readiness::Sleeping(left) => ReadinessView::Sleeping(*left),
            Readiness::Ready => ReadinessView::Ready,
            Readiness::Failed(reason) => ReadinessView::Failed(reason@),
        }
    }
}

/// What the supervisor does next while it waits for the driver.
#[derive(Debug)]
pub enum Poll {
    /// Try a plain GET on the port.
    Probe,
    /// Look whether the process has ended.
    Check,
    /// Pause for so many milliseconds.
    Sleep(u64),
    /// Go on to the session.
    Proceed,
    /// Give up with this error.
    Fail(SError),
}

/// The mathematical content of a [`Poll`].
pub enum PollView {
    Probe,
    Check,
    Sleep(u64),
    Proceed,
    Fail(SErrorView),
}

impl View for Poll {
    type V = PollView;

    open spec fn view(&self) -> PollView {
        match self {
            Poll::Probe => PollView::Probe,
            Poll::Check => PollView::Check,
            Poll::Sleep(ms) => PollView::Sleep(*ms),
            Poll::Proceed => PollView::Proceed,
            Poll::Fail(e) => PollView::Fail(e@),
        }
    }
}

/// The state after a try is over: the next try, or the end of the wait when
/// none is left.
pub open spec fn after_try(left: u8) -> ReadinessView {
    if left <= 1 {
        ReadinessView::Ready
    } else {
        ReadinessView::Probing((left - 1) as u8)
    }
}

/// The state after a try of the port. `failure` is the message of the
/// failed try, and nothing where the port answered. Only a refused
/// connection, a failure whose message holds `refuse`, makes the supervisor
/// look at the process.
pub open spec fn after_probe(state: ReadinessView, failure: Option<Seq<char>>) -> ReadinessView {
    match state {
        ReadinessView::Probing(left) => if failure is Some && occurs_in(
            failure->Some_0,
            "refuse"@,
        ) {
            ReadinessView::Checking(left)
        } else {
            after_try(left)
        },
        _ => state,
    }
}

/// The content of a process status.
pub enum StatusView {
    Running,
    Exited(Option<i32>),
    Unknown(Seq<char>),
}

impl View for ProcessStatus {
    type V = StatusView;

    open spec fn view(&self) -> StatusView {
        match self {
            ProcessStatus::Running => StatusView::Running,
            ProcessStatus::Exited(code) => StatusView::Exited(*code),
            ProcessStatus::Unknown(reason) => StatusView::Unknown(reason@),
        }
    }
}

/// The state after a look at the process: a driver that has ended fails the
/// wait with its exit code, one that runs earns a pause, and a look that
/// failed fails the wait with its reason.
pub open spec fn after_check(state: ReadinessView, status: StatusView) -> ReadinessView {
    match state {
        ReadinessView::Checking(left) => match status {
            StatusView::Running => ReadinessView::Sleeping(left),
            StatusView::Exited(code) => ReadinessView::Failed(
                "start driver fail, exit code : "@ + signed_decimal(reported_code(code)),
            ),
            StatusView::Unknown(reason) => ReadinessView::Failed(reason),
        },
        _ => state,
    }
}

/// The state after a pause.
pub open spec fn after_sleep(state: ReadinessView) -> ReadinessView {
    match state {
        ReadinessView::Sleeping(left) => after_try(left),
        _ => state,
    }
}

/// What is due in a state.
pub open spec fn due(state: ReadinessView) -> PollView {
    match state {
        ReadinessView::Probing(_) => PollView::Probe,
        ReadinessView::Checking(_) => PollView::Check,
        ReadinessView::Sleeping(_) => PollView::Sleep(500),
        ReadinessView::Ready => PollView::Proceed,
        ReadinessView::Failed(reason) => PollView::Fail(SErrorView::Driver(reason)),
    }
}

/// How much of the wait is left at most, in steps.
pub open spec fn steps_left(state: ReadinessView) -> nat {
    match state {
        ReadinessView::Probing(left) => 3 * (left as nat),
        ReadinessView::Checking(left) => if left == 0 {
            0
        } else {
            (3 * (left as nat) - 1) as nat
        },
        ReadinessView::Sleeping(left) => if left == 0 {
            0
        } else {
            (3 * (left as nat) - 2) as nat
        },
        ReadinessView::Ready => 0,
        ReadinessView::Failed(_) => 0,
    }
}

fn next_try(left: u8) -> (state: Readiness)
    ensures
        state@ == after_try(left),
{
    if left <= 1 {
        Readiness::Ready
    } else {
        Readiness::Probing(left - 1)
    }
}

impl Readiness {
    /// The wait at its start: three tries are left.
    pub fn start() -> (state: Readiness)
        ensures
            state@ == ReadinessView::Probing(3),
    {
        Readiness::Probing(3)
    }

    /// What is due in this state.
    pub fn action(&self) -> (poll: Poll)
        ensures
            poll@ == due(self@),
    {
        match self {
            Readiness::Probing(_) => Poll::Probe,
            Readiness::Checking(_) => Poll::Check,
            Readiness::Sleeping(_) => Poll::Sleep(500),
            Readiness::Ready => Poll::Proceed,
            Readiness::Failed(reason) => Poll::Fail(SError::Driver(reason.clone())),
        }
    }

    /// The state after a try of the port; `failure` is the message of a
    /// failed try.
    pub fn probed(self, failure: Option<&str>) -> (state: Readiness)
        ensures
            state@ == after_probe(
                self@,
                match failure {
                    Some(message) => Some(message@),
                    None => None,
                },
            ),
    {
        match self {
            Readiness::Probing(left) => {
                let refused = match failure {
                    Some(message) => contains(message, "refuse"),
                    None => false,
                };
                if refused {
                    Readiness::Checking(left)
                } else {
                    next_try(left)
                }
            },
            other => other,
        }
    }

    /// The state after a look at the process.
    pub fn checked(self, status: ProcessStatus) -> (state: Readiness)
        ensures
            state@ == after_check(self@, status@),
    {
        match self {
            Readiness::Checking(left) => match status {
                ProcessStatus::Running => Readiness::Sleeping(left),
                ProcessStatus::Exited(code) => {
                    let digits = exit_code_text(code);
                    Readiness::Failed(concat("start driver fail, exit code : ", digits.as_str()))
                },
                ProcessStatus::Unknown(reason) => Readiness::Failed(reason),
            },
            other => other,
        }
    }

    /// The state after a pause.
    pub fn slept(self) -> (state: Readiness)
        ensures
            state@ == after_sleep(self@),
    {
        match self {
            Readiness::Sleeping(left) => next_try(left),
            other => other,
        }
    }
}

/// The wait for the driver ends: while a try, a look or a pause is due,
/// whatever comes of it leaves strictly less of the wait, so that the port
/// is tried three times at most.
pub proof fn polling_ends(state: ReadinessView, failure: Option<Seq<char>>, status: StatusView)
    ensures
        state is Probing && state->Probing_0 > 0 ==> steps_left(after_probe(state, failure))
            < steps_left(state),
        state is Checking && state->Checking_0 > 0 ==> steps_left(after_check(state, status))
            < steps_left(state),
        state is Sleeping && state->Sleeping_0 > 0 ==> steps_left(after_sleep(state))
            < steps_left(state),
        steps_left(ReadinessView::Probing(3)) == 9,
{
}

/// Where a facade stands between its making and its end. `process` says
/// whether it owns the processes of a local driver.
#[derive(Clone, Copy, Debug, PartialEq, Eq, Structural)]
pub enum Facade {
    Uninitialized,
    Connecting { process: bool },
    Ready { process: bool },
    Closed { process: bool },
}

/// What the owner of a facade does next.
#[derive(Clone, Copy, Debug, PartialEq, Eq, Structural)]
pub enum Next {
    Nothing,
    StartProcess,
    CreateSession,
    TeardownProcess,
}

/// What the disposal of a facade asks for: the deletion of the session, as
/// an attempt whose failure changes nothing, and then the teardown of the
/// processes.
#[derive(Clone, Copy, Debug, PartialEq, Eq, Structural)]
pub struct Disposal {
    pub delete_session: bool,
    pub teardown_process: bool,
}

impl Facade {
    /// Whether the facade owns the processes of a local driver.
    pub open spec fn owns_process(self) -> bool {
        match self {
            Facade::Uninitialized => false,
            Facade::Connecting { process } => process,
            Facade::Ready { process } => process,
            Facade::Closed { process } => process,
        }
    }

    /// The start: a local driver is started first, a remote endpoint is
    /// asked for a session at once.
    pub open spec fn launched(self, local: bool) -> (Facade, Next) {
        match self {
            Facade::Uninitialized => (
                Facade::Connecting { process: false },
                if local {
                    Next::StartProcess
                } else {
                    Next::CreateSession
                },
            ),
            _ => (self, Next::Nothing),
        }
    }

    /// After the start of the local driver: with a driver that runs the
    /// session is asked for; without one the facade is closed and owns
    /// nothing. What a start that was given up had started already is
    /// stopped by the steps of `DriverProcess::abandon`, before the facade
    /// hears of it.
    pub open spec fn process_came(self, started: bool) -> (Facade, Next) {
        match self {
            Facade::Connecting { process: false } => if started {
                (Facade::Connecting { process: true }, Next::CreateSession)
            } else {
                (Facade::Closed { process: false }, Next::Nothing)
            },
            _ => (self, Next::Nothing),
        }
    }

    /// After the request for a session: with a session the facade is ready;
    /// without one it is closed, and a driver that was started is torn down
    /// first.
    pub open spec fn session_came(self, created: bool) -> (Facade, Next) {
        match self {
            Facade::Connecting { process } => if created {
                (Facade::Ready { process }, Next::Nothing)
            } else {
                (
                    Facade::Closed { process: false },
                    if process {
                        Next::TeardownProcess
                    } else {
                        Next::Nothing
                    },
                )
            },
            _ => (self, Next::Nothing),
        }
    }

    /// After `quit`: a ready facade is closed and its session is to be
    /// deleted; any other facade stays as it is and nothing is sent.
    pub open spec fn quitted(self) -> (Facade, bool) {
        match self {
            Facade::Ready { process } => (Facade::Closed { process }, true),
            _ => (self, false),
        }
    }

    /// After the disposal: the facade is closed and owns nothing. The
    /// session of a ready facade is to be deleted, and the processes that it
    /// owned are to be torn down whatever comes of that.
    pub open spec fn disposed(self) -> (Facade, Disposal) {
        (
            Facade::Closed { process: false },
            Disposal { delete_session: self is Ready, teardown_process: self.owns_process() },
        )
    }

    /// A facade before anything was asked of it.
    pub fn new() -> (f: Facade)
        ensures
            f == Facade::Uninitialized,
    {
        Facade::Uninitialized
    }

    /// Takes the first step: `local` says whether a driver is to be started.
    pub fn launch(self, local: bool) -> (r: (Facade, Next))
        ensures
            r == self.launched(local),
    {
        match self {
            Facade::Uninitialized => (
                Facade::Connecting { process: false },
                if local {
                    Next::StartProcess
                } else {
                    Next::CreateSession
                },
            ),
            _ => (self, Next::Nothing),
        }
    }

    /// Takes note of how the start of the local driver went.
    pub fn process_started(self, started: bool) -> (r: (Facade, Next))
        ensures
            r == self.process_came(started),
    {
        match self {
            Facade::Connecting { process: false } => if started {
                (Facade::Connecting { process: true }, Next::CreateSession)
            } else {
                (Facade::Closed { process: false }, Next::Nothing)
            },
            _ => (self, Next::Nothing),
        }
    }

    /// Takes note of how the request for a session went.
    pub fn session_created(self, created: bool) -> (r: (Facade, Next))
        ensures
            r == self.session_came(created),
    {
        match self {
            Facade::Connecting { process } => if created {
                (Facade::Ready { process }, Next::Nothing)
            } else {
                (
                    Facade::Closed { process: false },
                    if process {
                        Next::TeardownProcess
                    } else {
                        Next::Nothing
                    },
                )
            },
            _ => (self, Next::Nothing),
        }
    }

    /// Closes the facade; gives whether the session is to be deleted.
    pub fn quit(self) -> (r: (Facade, bool))
        ensures
            r == self.quitted(),
    {
        match self {
            Facade::Ready { process } => (Facade::Closed { process }, true),
            _ => (self, false),
        }
    }

    /// Disposes of the facade.
    pub fn dispose(self) -> (r: (Facade, Disposal))
        ensures
            r == self.disposed(),
    {
        let delete_session = match self {
            Facade::Ready { .. } => true,
            _ => false,
        };
        let teardown_process = match self {
            Facade::Uninitialized => false,
            Facade::Connecting { process } => process,
            Facade::Ready { process } => process,
            Facade::Closed { process } => process,
        };
        (Facade::Closed { process: false }, Disposal { delete_session, teardown_process })
    }
}

/// Teardown may be asked for any number of times: a second `quit` sends
/// nothing and changes nothing; a disposal, from whatever state and whether
/// or not a `quit` went before, tears down the processes that are owned and
/// leaves a closed facade that owns nothing; and a second disposal asks for
/// nothing more.
pub proof fn teardown_is_idempotent(f: Facade)
    ensures
        f.quitted().0.quitted() == (f.quitted().0, false),
        f.disposed().1.teardown_process == f.owns_process(),
        f.quitted().0.disposed().1.teardown_process == f.owns_process(),
        f.disposed().0 == (Facade::Closed { process: false }),
        f.disposed().0.disposed() == (
            Facade::Closed { process: false },
            Disposal { delete_session: false, teardown_process: false },
        ),
{
}

/// There is no way back from a closed facade: whatever is asked of it, it
/// stays closed, and no session is asked for or deleted.
pub proof fn closed_is_final(f: Facade, flag: bool)
    requires
        f is Closed,
    ensures
        f.launched(flag) == (f, Next::Nothing),
        f.process_came(flag) == (f, Next::Nothing),
        f.session_came(flag) == (f, Next::Nothing),
        f.quitted() == (f, false),
        f.disposed().0 is Closed,
        !f.disposed().1.delete_session,
{
}

/// A failed start leaves nothing behind: while the facade is connecting, a
/// driver that does not start, or a session that is refused, closes it, and
/// it owns no process afterwards; a driver that had started is torn down on
/// the way.
pub proof fn failed_start_leaves_nothing(f: Facade)
    requires
        f is Connecting,
    ensures
        f.session_came(false).0 == (Facade::Closed { process: false }),
        f.session_came(false).1 == if f.owns_process() {
            Next::TeardownProcess
        } else {
            Next::Nothing
        },
        !f.owns_process() ==> f.process_came(false) == (
            Facade::Closed { process: false },
            Next::Nothing,
        ),
{
}

/// How a session is to be reached.
#[derive(Debug)]
pub enum Launch {
    /// At a remote endpoint.
    Remote { url: String, timeout: u64, browser: Browser },
    /// Through a driver that is started here.
    Local { driver: String, timeout: u64, browser: Browser },
}

/// The mathematical content of a [`Launch`].
pub enum LaunchView {
    Remote { url: Seq<char>, timeout: u64, browser: Browser },
    Local { driver: Seq<char>, timeout: u64, browser: Browser },
}

impl View for Launch {
    type V = LaunchView;

    open spec fn view(&self) -> LaunchView {
        match self {
            Launch::Remote { url, timeout, browser } => LaunchView::Remote {
                url: url@,
                timeout: *timeout,
                browser: *browser,
            },
            Launch::Local { driver, timeout, browser } => LaunchView::Local {
                driver: driver@,
                timeout: *timeout,
                browser: *browser,
            },
        }
    }
}

/// Whether the failure of a new session tells of a browser that ended at
/// once, so that the driver's error output says more: the status is 500 and
/// the body speaks of a process that closed unexpectedly.
pub open spec fn blames_process(e: SErrorView) -> bool {
    e is Http && e->Http_0 == 500 && occurs_in(
        e->Http_1,
        "Process unexpectedly closed with status 1"@,
    )
}

/// The error that the making of a local session ends with, given the failure
/// `e` of the request and, where it blames the process, the error output of
/// the driver.
pub open spec fn start_failure(e: SErrorView, captured: Option<Seq<char>>) -> SErrorView {
    if blames_process(e) {
        match captured {
            Some(text) => SErrorView::Driver("Driver error msg: "@ + text),
            None => SErrorView::Driver(e->Http_1),
        }
    } else {
        e
    }
}

/// The address of a driver that was started here.
pub open spec fn local_address(port: u16) -> Seq<char> {
    "http://127.0.0.1:"@ + decimal(port as nat)
}

/// A session with its transport: the facade that every operation goes
/// through.
pub struct Driver {
    pub session: Session,
    pub http: Http,
    pub browser: Browser,
    pub facade: Facade,
}

/// The mathematical content of a [`Driver`].
pub struct DriverView {
    pub session_id: Seq<char>,
    pub url: Seq<char>,
    pub timeout: u64,
    pub browser: Browser,
    pub facade: Facade,
}

impl View for Driver {
    type V = DriverView;

    open spec fn view(&self) -> DriverView {
        DriverView {
            session_id: self.session.session_id@,
            url: self.http.url@,
            timeout: self.http.timeout,
            browser: self.browser,
            facade: self.facade,
        }
    }
}

/// The handles on the elements with the references `found`, for the session
/// `session_id` at `url`.
pub open spec fn handles(
    found: Seq<(Seq<char>, Seq<char>)>,
    url: Seq<char>,
    timeout: u64,
    session_id: Seq<char>,
) -> Seq<crate::element::ElementView> {
    Seq::new(
        found.len(),
        |i: int|
            crate::element::ElementView {
                url,
                timeout,
                session_id,
                identify: found[i].0,
                id: found[i].1,
            },
    )
}

/// Makes the handles on the elements with the references `found`.
pub fn make_elements(http: &Http, session: &Session, found: Vec<(String, String)>) -> (elements:
    Vec<Element>)
    ensures
        crate::element::element_views(elements@) == handles(
            pair_views(found@),
            http.url@,
            http.timeout,
            session.session_id@,
        ),
{
    let mut elements: Vec<Element> = Vec::new();
    let mut i: usize = 0;
    while i < found.len()
        invariant
            i <= found.len(),
            crate::element::element_views(elements@) == handles(
                pair_views(found@),
                http.url@,
                http.timeout,
                session.session_id@,
            ).take(i as int),
        decreases found.len() - i,
    {
        let element = Element {
            http: http.duplicate(),
            session: session.duplicate(),
            identify: found[i].0.clone(),
            id: found[i].1.clone(),
        };
        let ghost before = crate::element::element_views(elements@);
        elements.push(element);
        assert(crate::element::element_views(elements@) =~= before.push(element@));
        assert(crate::element::element_views(elements@) =~= handles(
            pair_views(found@),
            http.url@,
            http.timeout,
            session.session_id@,
        ).take(i as int + 1));
        i += 1;
    }
    assert(crate::element::element_views(elements@) =~= handles(
        pair_views(found@),
        http.url@,
        http.timeout,
        session.session_id@,
    ));
    elements
}

impl Driver {
    /// Decides how the session is to be reached: a remote address takes
    /// precedence over a driver to start.
    pub fn new<T: BrowserOption>(option: &T) -> (launch: Launch)
        requires
            option.spec_url() is Some || option.spec_driver() is Some,
        ensures
            launch@ == match option.spec_url() {
                Some(url) => LaunchView::Remote {
                    url,
                    timeout: option.spec_timeout(),
                    browser: option.spec_browser(),
                },
                None => LaunchView::Local {
                    driver: option.spec_driver()->Some_0,
                    timeout: option.spec_timeout(),
                    browser: option.spec_browser(),
                },
            },
    {
        match option.url() {
            Some(url) => Launch::Remote {
                url: String::from_str(url),
                timeout: option.timeout(),
                browser: option.browser(),
            },
            None => {
                let driver = option.driver();
                Launch::Local {
                    driver: String::from_str(driver.unwrap()),
                    timeout: option.timeout(),
                    browser: option.browser(),
                }
            },
        }
    }

    /// Decides how the session is to be reached, where the options say how:
    /// nothing where they name neither an address nor a driver.
    pub fn plan<T: BrowserOption>(option: &T) -> (launch: Option<Launch>)
        ensures
            match launch {
                Some(l) => (option.spec_url() is Some || option.spec_driver() is Some) && l@
                    == match option.spec_url() {
                    Some(url) => LaunchView::Remote {
                        url,
                        timeout: option.spec_timeout(),
                        browser: option.spec_browser(),
                    },
                    None => LaunchView::Local {
                        driver: option.spec_driver()->Some_0,
                        timeout: option.spec_timeout(),
                        browser: option.spec_browser(),
                    },
                },
                None => option.spec_url() is None && option.spec_driver() is None,
            },
    {
        let reachable = match option.url() {
            Some(_) => true,
            None => match option.driver() {
                Some(_) => true,
                None => false,
            },
        };
        if reachable {
            Some(Driver::new(option))
        } else {
            None
        }
    }

    /// Whether an address asks for TLS.
    pub fn is_secure(url: &str) -> (secure: bool)
        ensures
            secure == occurs_in(url@, "https://"@),
    {
        contains(url, "https://")
    }

    /// The transport for a driver that was started here on `port`.
    pub fn local_http(port: u16, timeout: u64) -> (http: Http)
        ensures
            http.url@ == local_address(port),
            http.timeout == timeout,
    {
        let digits = unsigned_to_text(port as u64);
        Http { url: concat("http://127.0.0.1:", digits.as_str()), timeout }
    }

    /// The request that asks for the session. With `remote`, the record of
    /// what is asked for names the browser beside the options; the body holds
    /// the options alone, and is the same either way.
    pub fn session_request<T: BrowserOption>(http: &Http, option: T, remote: bool) -> (m: Method)
        ensures
            m@ == MethodView::Post(
                http.url@ + "/session"@,
                capabilities_text(Some(option.capability())),
            ),
    {
        let browser_name = if remote {
            Some(option.browser().to_string())
        } else {
            None
        };
        let cap = Capability {
            browser_name,
            platform_name: None,
            always_match: Some(option),
            first_match: Vec::new(),
        };
        http.new_session(cap)
    }

    /// Ends the connecting of a facade with the reply to the request for a
    /// session: the driver for the session that the endpoint made, its
    /// facade ready and owning what the connecting facade owned; or why there
    /// is none, and what is left to do, which is the teardown of the
    /// processes where the facade owned them.
    pub fn connect(http: Http, browser: Browser, facade: Facade, reply: Reply) -> (r: Result<
        Driver,
        (SError, Next),
    >)
        requires
            facade is Connecting,
        ensures
            match r {
                Ok(d) => answer(reply@) is Ok && text_member(answer(reply@)->Ok_0, "sessionId"@)
                    == Some(d@.session_id) && d@ == (DriverView {
                    session_id: d@.session_id,
                    url: http.url@,
                    timeout: http.timeout,
                    browser,
                    facade: facade.session_came(true).0,
                }) && d@.facade is Ready,
                Err(failure) => explains(
                    failure.0@,
                    reply@,
                    answer(reply@) is Ok && text_member(answer(reply@)->Ok_0, "sessionId"@)
                        is Some,
                    "expected a member that is a string"@,
                ) && failure.1 == facade.session_came(false).1,
            },
    {
        match read_session(reply) {
            Ok(session) => {
                let (ready, _) = facade.session_created(true);
                Ok(Driver { session, http, browser, facade: ready })
            },
            Err(e) => {
                let (_, next) = facade.session_created(false);
                Err((e, next))
            },
        }
    }

    /// Whether the failure of the request for a local session calls for the
    /// driver's error output.
    pub fn needs_stderr(e: &SError) -> (needed: bool)
        ensures
            needed == blames_process(e@),
    {
        match e {
            SError::Http(status, err) => *status == 500 && contains(
                err.as_str(),
                "Process unexpectedly closed with status 1",
            ),
            _ => false,
        }
    }

    /// The error that the making of a local session ends with. `captured` is
    /// the driver's error output, or why it could not be read.
    pub fn start_error(e: SError, captured: SResult<String>) -> (r: SError)
        ensures
            r@ == start_failure(
                e@,
                match captured {
                    Ok(text) => Some(text@),
                    Err(_) => None,
                },
            ),
    {
        if Driver::needs_stderr(&e) {
            match e {
                SError::Http(_, err) => match captured {
                    Ok(text) => SError::Driver(concat("Driver error msg: ", text.as_str())),
                    Err(_) => SError::Driver(err),
                },
                other => other,
            }
        } else {
            e
        }
    }

    /// The browser of the session.
    pub fn browser(&self) -> (b: Browser)
        ensures
            b == self.browser,
    {
        self.browser
    }

    /// Ends the session: the request that deletes it, once. A driver that is
    /// closed already sends nothing.
    pub fn quit(&mut self) -> (m: Option<Method>)
        ensures
            final(self)@ == (DriverView { facade: old(self)@.facade.quitted().0, ..old(self)@ }),
            match m {
                Some(request) => old(self)@.facade.quitted().1 && request@ == MethodView::Delete(
                    session_path(old(self)@.url, old(self)@.session_id, ""@),
                ),
                None => !old(self)@.facade.quitted().1,
            },
    {
        let (facade, delete) = self.facade.quit();
        self.facade = facade;
        if delete {
            Some(self.http.delete_session(self.session.session_id.as_str()))
        } else {
            None
        }
    }

    /// Disposes of the driver: the request that deletes the session, where
    /// it still stands, and whether the processes are to be torn down.
    pub fn dispose(&mut self) -> (r: (Option<Method>, bool))
        ensures
            final(self)@ == (DriverView { facade: old(self)@.facade.disposed().0, ..old(self)@ }),
            r.1 == old(self)@.facade.disposed().1.teardown_process,
            match r.0 {
                Some(request) => old(self)@.facade.disposed().1.delete_session && request@
                    == MethodView::Delete(
                    session_path(old(self)@.url, old(self)@.session_id, ""@),
                ),
                None => !old(self)@.facade.disposed().1.delete_session,
            },
    {
        let (facade, disposal) = self.facade.dispose();
        self.facade = facade;
        let request = if disposal.delete_session {
            Some(self.http.delete_session(self.session.session_id.as_str()))
        } else {
            None
        };
        (request, disposal.teardown_process)
    }

    /// The empty chain of ticks for this session.
    pub fn actions(&self) -> (a: Action)
        ensures
            a@ == (ActionView {
                pointer: Seq::empty(),
                keyboard: Seq::empty(),
                wheel: Seq::empty(),
                session_id: self@.session_id,
                url: self@.url,
                timeout: self@.timeout,
            }),
    {
        Action::new(self.http.duplicate(), self.session.duplicate())
    }

    /// Reads the reply to a find of one element.
    pub fn found_element(&self, reply: Reply) -> (r: SResult<Element>)
        ensures
            crate::element::reads_element(r, reply@, self@.url, self@.timeout, self@.session_id),
    {
        crate::element::read_element(&self.http, &self.session, reply)
    }

    /// Reads the reply to a find of several elements.
    pub fn found_elements(&self, reply: Reply) -> (r: SResult<Vec<Element>>)
        ensures
            crate::element::reads_elements(r, reply@, self@.url, self@.timeout, self@.session_id),
    {
        crate::element::read_elements(&self.http, &self.session, reply)
    }

    /// The request that loads `url`.
    pub fn get(&self, url: &str) -> (m: Method)
        ensures
            m@ == MethodView::Post(
                session_path(self@.url, self@.session_id, "/url"@),
                "{\"url\":\""@ + url@ + "\"}"@,
            ),
    {
        self.http.navigate(self.session.session_id.as_str(), url)
    }

    /// The request for the address of the page.
    pub fn get_current_url(&self) -> (m: Method)
        ensures
            m@ == MethodView::Get(session_path(self@.url, self@.session_id, "/url"@)),
    {
        self.http.get_current_url(self.session.session_id.as_str())
    }

    /// The request that goes one page forward.
    pub fn forward(&self) -> (m: Method)
        ensures
            m@ == MethodView::Post(session_path(self@.url, self@.session_id, "/forward"@), ""@),
    {
        self.http.forward(self.session.session_id.as_str())
    }

    /// The request that loads the page again.
    pub fn refresh(&self) -> (m: Method)
        ensures
            m@ == MethodView::Post(session_path(self@.url, self@.session_id, "/refresh"@), ""@),
    {
        self.http.refresh(self.session.session_id.as_str())
    }

    /// The request that goes one page back.
    pub fn back(&self) -> (m: Method)
        ensures
            m@ == MethodView::Post(session_path(self@.url, self@.session_id, "/back"@), ""@),
    {
        self.http.back(self.session.session_id.as_str())
    }

    /// The request for the title of the page.
    pub fn get_title(&self) -> (m: Method)
        ensures
            m@ == MethodView::Get(session_path(self@.url, self@.session_id, "/title"@)),
    {
        self.http.get_title(self.session.session_id.as_str())
    }

    /// The request that sets a timeout of the session.
    pub fn set_timeouts(&self, timeout: TimeoutType) -> (m: Method)
        ensures
            m@ == MethodView::Post(
                session_path(self@.url, self@.session_id, "/timeouts"@),
                timeout_body(timeout),
            ),
    {
        self.http.set_timeouts(self.session.session_id.as_str(), timeout)
    }

    /// The request for the timeouts of the session.
    pub fn get_timeouts(&self) -> (m: Method)
        ensures
            m@ == MethodView::Get(session_path(self@.url, self@.session_id, "/timeouts"@)),
    {
        self.http.get_timouts(self.session.session_id.as_str())
    }

    /// The request for the handle of the window.
    pub fn get_window_handle(&self) -> (m: Method)
        ensures
            m@ == MethodView::Get(session_path(self@.url, self@.session_id, "/window"@)),
    {
        self.http.get_window_handle(self.session.session_id.as_str())
    }

    /// The request for the handles of all windows.
    pub fn get_window_handles(&self) -> (m: Method)
        ensures
            m@ == MethodView::Get(session_path(self@.url, self@.session_id, "/window/handles"@)),
    {
        self.http.get_window_handles(self.session.session_id.as_str())
    }

    /// The request that closes the window.
    pub fn close_window(&self) -> (m: Method)
        ensures
            m@ == MethodView::Delete(session_path(self@.url, self@.session_id, "/window"@)),
    {
        self.http.close_window(self.session.session_id.as_str())
    }

    /// The request that switches to the window with `handle`.
    pub fn switch_to_window(&self, handle: &str) -> (m: Method)
        ensures
            m@ == MethodView::Post(
                session_path(self@.url, self@.session_id, "/window"@),
                "{\"handle\":\""@ + handle@ + "\"}"@,
            ),
    {
        self.http.switch_to_window(self.session.session_id.as_str(), handle)
    }

    /// The request that switches to a frame.
    pub fn switch_to_frame(&self, id: SwitchToFrame) -> (m: Method)
        ensures
            m@ == MethodView::Post(
                session_path(self@.url, self@.session_id, "/frame"@),
                frame_body(id),
            ),
    {
        self.http.switch_to_frame(self.session.session_id.as_str(), id)
    }

    /// The request that switches to the frame above the current one.
    pub fn switch_to_parent_frame(&self) -> (m: Method)
        ensures
            m@ == MethodView::Post(
                session_path(self@.url, self@.session_id, "/frame/parent"@),
                "{}"@,
            ),
    {
        self.http.switch_to_parent_frame(self.session.session_id.as_str())
    }

    /// The request for the place and the size of the window.
    pub fn get_window_rect(&self) -> (m: Method)
        ensures
            m@ == MethodView::Get(session_path(self@.url, self@.session_id, "/window/rect"@)),
    {
        self.http.get_window_rect(self.session.session_id.as_str())
    }

    /// The request that places and sizes the window; `rect` is the rectangle
    /// as JSON text.
    pub fn set_window_rect(&self, rect: &str) -> (m: Method)
        ensures
            m@ == MethodView::Post(
                session_path(self@.url, self@.session_id, "/window/rect"@),
                rect@,
            ),
    {
        self.http.set_window_rect(self.session.session_id.as_str(), rect)
    }

    /// The request that asks for the window to be maximized.
    pub fn maximize_window(&self) -> (m: Method)
        ensures
            m@ == MethodView::Post(
                session_path(self@.url, self@.session_id, "/window/maximize"@),
                ""@,
            ),
    {
        self.http.maximize_window(self.session.session_id.as_str())
    }

    /// The request that asks for the window to be minimized.
    pub fn minimize_window(&self) -> (m: Method)
        ensures
            m@ == MethodView::Post(
                session_path(self@.url, self@.session_id, "/window/minimize"@),
                ""@,
            ),
    {
        self.http.minimize_window(self.session.session_id.as_str())
    }

    /// The request that asks for the window to be shown on the full screen.
    pub fn fullscreen_window(&self) -> (m: Method)
        ensures
            m@ == MethodView::Post(
                session_path(self@.url, self@.session_id, "/window/fullscreen"@),
                ""@,
            ),
    {
        self.http.fullscreen_window(self.session.session_id.as_str())
    }

    /// The request that looks for one element in the page.
    pub fn find_element(&self, by: By<'_>) -> (m: Method)
        ensures
            m@ == MethodView::Post(
                session_path(self@.url, self@.session_id, "/element"@),
                rendered(locator_json(by)),
            ),
    {
        self.http.find_element(self.session.session_id.as_str(), by)
    }

    /// The request that looks for all matching elements in the page.
    pub fn find_elements(&self, by: By<'_>) -> (m: Method)
        ensures
            m@ == MethodView::Post(
                session_path(self@.url, self@.session_id, "/elements"@),
                rendered(locator_json(by)),
            ),
    {
        self.http.find_elements(self.session.session_id.as_str(), by)
    }

    /// The request for the element that has the focus.
    pub fn get_active_element(&self) -> (m: Method)
        ensures
            m@ == MethodView::Get(session_path(self@.url, self@.session_id, "/element/active"@)),
    {
        self.http.get_active_element(self.session.session_id.as_str())
    }

    /// The request for the source of the page.
    pub fn get_page_source(&self) -> (m: Method)
        ensures
            m@ == MethodView::Get(session_path(self@.url, self@.session_id, "/source"@)),
    {
        self.http.get_page_source(self.session.session_id.as_str())
    }

    /// The request that runs a script and waits for its result.
    pub fn execute_script(&self, script: &str, args: &[&str]) -> (m: Method)
        ensures
            m@ == MethodView::Post(
                session_path(self@.url, self@.session_id, "/execute/sync"@),
                rendered(script_json(script@, text_items(str_views(args@)))),
            ),
    {
        self.http.execute_script(self.session.session_id.as_str(), script, args)
    }

    /// The request that dismisses the open dialog.
    pub fn dismiss_alert(&self) -> (m: Method)
        ensures
            m@ == MethodView::Post(
                session_path(self@.url, self@.session_id, "/alert/dismiss"@),
                "{}"@,
            ),
    {
        self.http.dismiss_alert(self.session.session_id.as_str())
    }

    /// The request that accepts the open dialog.
    pub fn accept_alert(&self) -> (m: Method)
        ensures
            m@ == MethodView::Post(
                session_path(self@.url, self@.session_id, "/alert/accept"@),
                "{}"@,
            ),
    {
        self.http.accept_alert(self.session.session_id.as_str())
    }

    /// The request for the text of the open dialog.
    pub fn get_alert_text(&self) -> (m: Method)
        ensures
            m@ == MethodView::Get(session_path(self@.url, self@.session_id, "/alert/text"@)),
    {
        self.http.get_alert_text(self.session.session_id.as_str())
    }

    /// The request that types `text` into the open prompt; the prompt stays
    /// open until it is accepted.
    pub fn send_alert_text(&self, text: &str) -> (m: Method)
        ensures
            m@ == MethodView::Post(
                session_path(self@.url, self@.session_id, "/alert/text"@),
                "{\"text\":\""@ + text@ + "\"}"@,
            ),
    {
        self.http.send_alert_text(self.session.session_id.as_str(), text)
    }

    /// The request for a picture of the page.
    pub fn take_screenshot(&self) -> (m: Method)
        ensures
            m@ == MethodView::Get(session_path(self@.url, self@.session_id, "/screenshot"@)),
    {
        self.http.take_screenshot(self.session.session_id.as_str())
    }

    /// The request that opens a window.
    pub fn new_window(&self, window_type: NewWindowType) -> (m: Method)
        ensures
            m@ == MethodView::Post(
                session_path(self@.url, self@.session_id, "/window/new"@),
                "{\"type\":\""@ + window_type.name() + "\"}"@,
            ),
    {
        let name = window_type.to_string();
        self.http.new_window(self.session.session_id.as_str(), name.as_str())
    }
}

} // verus!
