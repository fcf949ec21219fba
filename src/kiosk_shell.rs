use vstd::prelude::*;

use crate::text::{
    ascii_lower, ascii_lower_equals, is_file_name_in, lower_of, lowercase, path_file_name, str_equal,
};

verus! {

/// Whether the entered text opens the close and settings actions: always where
/// no password is configured, else only the exact password.
pub open spec fn password_ok(password: Option<String>, input: Seq<char>) -> bool {
    match password {
        None => true,
        Some(p) => p@ == input,
    }
}

/// Checks the text entered in the kiosk window against the configured password.
pub fn check_password(password: &Option<String>, input: &str) -> (r: bool)
    ensures
        r == password_ok(*password, input@),
{
    match password {
        None => true,
        Some(p) => str_equal(p.as_str(), input),
    }
}

/// With no password configured, every entered text passes, the empty one too.
pub proof fn lemma_no_password_accepts_all(input: Seq<char>)
    ensures
        password_ok(None, input),
{
}

/// With a password configured, an entered text passes exactly when it holds
/// the same characters: case counts and nothing is trimmed.
pub proof fn lemma_password_exact(password: String, input: Seq<char>)
    ensures
        password_ok(Some(password), input) <==> password@ == input,
{
}

/// The processes that the watcher ends: the desktop shell and the browser,
/// named in any ASCII case.
pub open spec fn denied_name(name: Seq<char>) -> bool {
    ascii_lower(name) == "explorer.exe"@ || ascii_lower(name) == "msedge.exe"@
}

/// Whether the watcher ends a process of this name.
pub fn is_denied_process(name: &str) -> (r: bool)
    ensures
        r == denied_name(name@),
{
    ascii_lower_equals(name, "explorer.exe") || ascii_lower_equals(name, "msedge.exe")
}

/// The positions, in ascending order, of the denied names in a process list.
pub open spec fn kill_list(names: Seq<String>) -> Seq<usize>
    decreases names.len(),
{
    if names.len() == 0 {
        Seq::empty()
    } else {
        let before = kill_list(names.drop_last());
        if denied_name(names.last()@) {
            before.push((names.len() - 1) as usize)
        } else {
            before
        }
    }
}

/// What one pass of the environment watcher does.
pub enum WatcherStep {
    /// The run flag was cleared: leave the loop without acting.
    Stop,
    /// End the processes at these positions of the list, bring the window of
    /// this title to the front where one is given, then sleep and look again.
    Enforce { kill: Vec<usize>, focus: Option<String> },
}

/// One pass of the watcher over a snapshot of the running processes' names,
/// with the managed application's identity taken when the watcher started.
pub fn watcher_step(running: bool, process_names: &Vec<String>, client: &Option<String>) -> (r:
    WatcherStep)
    ensures
        !running <==> r is Stop,
        match r {
            WatcherStep::Stop => true,
            WatcherStep::Enforce { kill, focus } => kill@ == kill_list(process_names@) && focus
                == *client,
        },
{
    if !running {
        return WatcherStep::Stop;
    }
    let mut kill: Vec<usize> = Vec::new();
    let mut i: usize = 0;
    while i < process_names.len()
        invariant
            i <= process_names@.len(),
            kill@ == kill_list(process_names@.subrange(0, i as int)),
        decreases process_names@.len() - i,
    {
        assert(process_names@.subrange(0, i + 1).drop_last() =~= process_names@.subrange(
            0,
            i as int,
        ));
        if is_denied_process(process_names[i].as_str()) {
            kill.push(i);
        }
        i = i + 1;
    }
    assert(process_names@.subrange(0, i as int) =~= process_names@);
    let focus = match client {
        Some(c) => Some(c.clone()),
        None => None,
    };
    WatcherStep::Enforce { kill, focus }
}

/// The identity given by a file name: the name in lower case.
pub fn identity_of_name(name: Option<String>) -> (r: Option<String>)
    ensures
        name is None <==> r is None,
        r is Some ==> r.unwrap()@ == lower_of(name.unwrap()@),
{
    match name {
        None => None,
        Some(n) => Some(lowercase(n.as_str())),
    }
}

/// The managed application's identity: the lower-cased file name of its
/// configured path, where that path has one.
pub fn client_identity(client_application: &Option<String>) -> (r: Option<String>)
    ensures
        client_application is None ==> r is None,
        r is Some ==> exists|n: Seq<char>|
            #![trigger lower_of(n)]
            is_file_name_in(n, client_application.unwrap()@) && r.unwrap()@ == lower_of(n),
{
    match client_application {
        None => None,
        Some(path) => identity_of_name(path_file_name(path.as_str())),
    }
}

/// The phases of a kiosk session.
#[derive(PartialEq, Eq, Structural, Debug, Clone, Copy)]
pub enum ShellPhase {
    Idle,
    Running,
    ShuttingDown,
    Terminated,
}

/// The state of a kiosk session: its phase and the run flag that the watcher reads.
#[derive(PartialEq, Eq, Structural, Debug, Clone, Copy)]
pub struct ShellState {
    pub phase: ShellPhase,
    pub running: bool,
}

/// What reaches the kiosk session: its start, the window's actions (with the
/// entered text and the configuration as loaded at that moment), and the ends
/// of the steps that it waits for.
pub enum ShellEvent {
    Launch,
    Close { input: String, password: Option<String> },
    Settings { input: String, password: Option<String> },
    StartApp { client_application: Option<String> },
    Reboot,
    SessionEnded,
    WatcherJoined,
    ProcessExited,
}

/// What the session asks its driver to do.
pub enum ShellAction {
    Nothing,
    /// Start the watcher and show the full-screen window.
    StartWatcher,
    /// Hide the kiosk window, which ends the window's session.
    HideWindow,
    /// Run a settings session to its end, then hide the kiosk window.
    OpenSettingsThenHide,
    /// Replace the supervised process by one started from this path, then look
    /// for an update.
    ReplaceProcess { path: String },
    /// Ask the system to restart.
    RequestReboot,
    /// Join the watcher, which now sees the cleared run flag.
    JoinWatcher,
    /// Wait for the supervised process to exit.
    WaitProcess,
    /// The session is over.
    Finish,
}

/// The path that a start of the managed application uses: the configured one,
/// else the empty path.
pub open spec fn launch_path_of(client_application: Option<String>) -> Seq<char> {
    match client_application {
        Some(p) => p@,
        None => Seq::empty(),
    }
}

/// The run flag is set exactly while the session is running.
pub open spec fn shell_well_formed(s: ShellState) -> bool {
    s.running <==> s.phase == ShellPhase::Running
}

/// The state that follows `s` on event `e`.
pub open spec fn next_state(s: ShellState, e: ShellEvent) -> ShellState {
    match e {
        ShellEvent::Launch => if s.phase == ShellPhase::Idle {
            ShellState { phase: ShellPhase::Running, running: true }
        } else {
            s
        },
        ShellEvent::SessionEnded => if s.phase == ShellPhase::Running {
            ShellState { phase: ShellPhase::ShuttingDown, running: false }
        } else {
            s
        },
        ShellEvent::ProcessExited => if s.phase == ShellPhase::ShuttingDown {
            ShellState { phase: ShellPhase::Terminated, running: false }
        } else {
            s
        },
        _ => s,
    }
}

/// Whether the run flag has been cleared for good.
pub open spec fn shut_down(s: ShellState) -> bool {
    s.phase == ShellPhase::ShuttingDown || s.phase == ShellPhase::Terminated
}

impl ShellState {
    /// A session that has not started yet.
    pub fn new() -> (r: Self)
        ensures
            r.phase == ShellPhase::Idle,
            !r.running,
            shell_well_formed(r),
    {
        ShellState { phase: ShellPhase::Idle, running: false }
    }

    /// Handles one event: moves to the next state and says what to do.
    pub fn step(&mut self, e: ShellEvent) -> (r: ShellAction)
        requires
            shell_well_formed(*old(self)),
        ensures
            *final(self) == next_state(*old(self), e),
            shell_well_formed(*final(self)),
            match e {
                ShellEvent::Launch => if old(self).phase == ShellPhase::Idle {
                    r is StartWatcher
                } else {
                    r is Nothing
                },
                ShellEvent::Close { input, password } => if old(self).phase == ShellPhase::Running
                    && password_ok(password, input@) {
                    r is HideWindow
                } else {
                    r is Nothing
                },
                ShellEvent::Settings { input, password } => if old(self).phase
                    == ShellPhase::Running && password_ok(password, input@) {
                    r is OpenSettingsThenHide
                } else {
                    r is Nothing
                },
                ShellEvent::StartApp { client_application } => if old(self).running {
                    r matches ShellAction::ReplaceProcess { path } && path@ == launch_path_of(
                        client_application,
                    )
                } else {
                    r is Nothing
                },
                ShellEvent::Reboot => r is RequestReboot,
                ShellEvent::SessionEnded => if old(self).phase == ShellPhase::Running {
                    r is JoinWatcher
                } else {
                    r is Nothing
                },
                ShellEvent::WatcherJoined => if old(self).phase == ShellPhase::ShuttingDown {
                    r is WaitProcess
                } else {
                    r is Nothing
                },
                ShellEvent::ProcessExited => if old(self).phase == ShellPhase::ShuttingDown {
                    r is Finish
                } else {
                    r is Nothing
                },
            },
    {
        match e {
            ShellEvent::Launch => {
                if self.phase == ShellPhase::Idle {
                    self.phase = ShellPhase::Running;
                    self.running = true;
                    ShellAction::StartWatcher
                } else {
                    ShellAction::Nothing
                }
            },
            ShellEvent::Close { input, password } => {
                if self.phase == ShellPhase::Running && check_password(&password, input.as_str()) {
                    ShellAction::HideWindow
                } else {
                    ShellAction::Nothing
                }
            },
            ShellEvent::Settings { input, password } => {
                if self.phase == ShellPhase::Running && check_password(&password, input.as_str()) {
                    ShellAction::OpenSettingsThenHide
                } else {
                    ShellAction::Nothing
                }
            },
            ShellEvent::StartApp { client_application } => {
                if !self.running {
                    ShellAction::Nothing
                } else {
                    let path = match client_application {
                        Some(p) => p,
                        None => String::new(),
                    };
                    ShellAction::ReplaceProcess { path }
                }
            },
            ShellEvent::Reboot => ShellAction::RequestReboot,
            ShellEvent::SessionEnded => {
                if self.phase == ShellPhase::Running {
                    self.phase = ShellPhase::ShuttingDown;
                    self.running = false;
                    ShellAction::JoinWatcher
                } else {
                    ShellAction::Nothing
                }
            },
            ShellEvent::WatcherJoined => {
                if self.phase == ShellPhase::ShuttingDown {
                    ShellAction::WaitProcess
                } else {
                    ShellAction::Nothing
                }
            },
            ShellEvent::ProcessExited => {
                if self.phase == ShellPhase::ShuttingDown {
                    self.phase = ShellPhase::Terminated;
                    ShellAction::Finish
                } else {
                    ShellAction::Nothing
                }
            },
        }
    }
}

/// Once the run flag is cleared it stays cleared, whatever event follows; so
/// every later pass of the watcher stops before it ends a process or moves focus.
pub proof fn lemma_run_flag_stays_cleared(s: ShellState, e: ShellEvent)
    requires
        shell_well_formed(s),
        shut_down(s),
    ensures
        shut_down(next_state(s, e)),
        !next_state(s, e).running,
{
}

/// Which session the program opens at its start.
#[derive(PartialEq, Eq, Structural, Debug, Clone, Copy)]
pub enum StartupSession {
    /// Start the managed application and supervise it in a kiosk session.
    Kiosk,
    /// No application to run: open the settings session.
    Settings,
}

/// Opens the kiosk session exactly when an application is configured and its
/// path exists; else the settings session.
pub fn startup_session(client_application: &Option<String>, path_exists: bool) -> (r:
    StartupSession)
    ensures
        r == StartupSession::Kiosk <==> (client_application is Some && path_exists),
{
    match client_application {
        Some(_) => if path_exists {
            StartupSession::Kiosk
        } else {
            StartupSession::Settings
        },
        None => StartupSession::Settings,
    }
}

} // verus!
