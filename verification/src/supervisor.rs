//! The supervision cycle as a state machine. The supervisor names the next
//! thing to do in the outside world, the caller does it and reports what
//! happened, and the supervisor moves on.

use crate::configs::{
    adapters_view, resolve, Adapter, AdapterView, ConfigError, LaunchParams, Launcher, LauncherConfig, ProcessHandle,
};
use vstd::prelude::*;
use vstd::string::StringExecFns;

verus! {

/// Where the supervisor stands in its cycle.
#[derive(Debug, Clone, Copy, PartialEq, Eq, Structural)]
pub enum Cursor {
    /// At the top of a tick, before the shutdown signal is polled.
    TickStart,
    /// Inside a tick, at the adapter with this index.
    At(usize),
    /// A shutdown request was seen: nothing is supervised any more.
    ShutDown,
}

/// What the outside world reports back.
#[derive(Debug, Clone, Copy, PartialEq, Eq, Structural)]
pub enum Event {
    /// The poll found a pending stop request.
    ShutdownRequested,
    /// The poll found no stop request.
    NoShutdown,
    /// The queried process has exited.
    Exited,
    /// The queried process has not exited yet.
    StillRunning,
    /// The query itself failed: nothing is known of the process.
    StatusUnknown,
    /// The process was started and is held under this handle.
    Spawned(ProcessHandle),
    /// The process could not be started.
    SpawnFailed,
}

/// How loudly something is reported to the log.
#[derive(Debug, Clone, Copy, PartialEq, Eq, Structural)]
pub enum Severity {
    Info,
    Warning,
    Error,
}

impl Event {
    /// The severity at which a report is logged: an exit is information, an
    /// unknown status a warning, a failed launch an error. The other reports
    /// are not logged.
    pub open spec fn logged_at(self) -> Option<Severity> {
        match self {
            Event::Exited => Some(Severity::Info),
            Event::StatusUnknown => Some(Severity::Warning),
            Event::SpawnFailed => Some(Severity::Error),
            _ => None,
        }
    }

    /// The severity at which this report is logged, if it is logged at all.
    pub fn severity(&self) -> (severity: Option<Severity>)
        ensures
            severity == self.logged_at(),
    {
        match self {
            Event::Exited => Some(Severity::Info),
            Event::StatusUnknown => Some(Severity::Warning),
            Event::SpawnFailed => Some(Severity::Error),
            _ => None,
        }
    }
}

/// How to start an adapter's process.
#[derive(Debug, PartialEq, Eq)]
pub struct SpawnRequest {
    /// Name of the executable.
    pub executable: String,
    /// Arguments, in order.
    pub args: Vec<String>,
    /// Environment variable to add for the process, as name and value.
    pub env: Option<(String, String)>,
}

/// A spawn request as the contracts see it.
pub ghost struct SpawnRequestView {
    pub executable: Seq<char>,
    pub args: Seq<Seq<char>>,
    pub env: Option<(Seq<char>, Seq<char>)>,
}

impl View for SpawnRequest {
    type V = SpawnRequestView;

    open spec fn view(&self) -> SpawnRequestView {
        SpawnRequestView {
            executable: self.executable@,
            args: self.args@.map_values(|s: String| s@),
            env: match self.env {
                Some(pair) => Some((pair.0@, pair.1@)),
                None => None,
            },
        }
    }
}

/// What the supervisor asks of the outside world.
#[derive(Debug, PartialEq, Eq)]
pub enum Action {
    /// Poll the shutdown signal, without blocking.
    PollShutdown,
    /// Query, without blocking, whether the process of the adapter at
    /// `index` has exited.
    CheckStatus { index: usize, handle: ProcessHandle },
    /// Start a process for the adapter at `index`.
    Spawn { index: usize, request: SpawnRequest },
    /// Stop supervising, with this outcome. Running processes are left alone.
    Stop(Result<(), ConfigError>),
}

/// An action as the contracts see it.
pub ghost enum ActionView {
    PollShutdown,
    CheckStatus { index: usize, handle: ProcessHandle },
    Spawn { index: usize, request: SpawnRequestView },
    Stop(Result<(), Seq<char>>),
}

impl View for Action {
    type V = ActionView;

    open spec fn view(&self) -> ActionView {
        match self {
            Action::PollShutdown => ActionView::PollShutdown,
            Action::CheckStatus { index, handle } => ActionView::CheckStatus {
                index: *index,
                handle: *handle,
            },
            Action::Spawn { index, request } => ActionView::Spawn {
                index: *index,
                request: request@,
            },
            Action::Stop(Ok(())) => ActionView::Stop(Ok(())),
            Action::Stop(Err(e)) => ActionView::Stop(Err(e@)),
        }
    }
}

impl ActionView {
    /// The severity at which an action is logged: a stop with an error is an
    /// error. No other action is logged.
    pub open spec fn logged_at(self) -> Option<Severity> {
        match self {
            ActionView::Stop(Err(_)) => Some(Severity::Error),
            _ => None,
        }
    }
}

impl Action {
    /// The severity at which this action is logged, if it is logged at all.
    pub fn severity(&self) -> (severity: Option<Severity>)
        ensures
            severity == self@.logged_at(),
    {
        match self {
            Action::Stop(Err(_)) => Some(Severity::Error),
            _ => None,
        }
    }
}

/// Message of the error raised when there is nothing to supervise.
pub open spec fn no_adapters_message() -> Seq<char> {
    "No adapters found.  Nothing to be launched!"@
}

/// Message of the error raised for an adapter whose type is unknown.
pub open spec fn unresolved_message(name: Seq<char>) -> Seq<char> {
    "Unable to find executable file for adapter "@ + name
}

/// The environment override of a table entry: none where the entry names no
/// variable.
pub open spec fn env_override(params: LaunchParams) -> Option<(Seq<char>, Seq<char>)> {
    if params.1.0.len() == 0 {
        None
    } else {
        Some(params.1)
    }
}

/// The launch of an adapter: the resolved executable, run with `-c` and the
/// adapter's configuration path, under the resolved environment override.
pub open spec fn spawn_request(params: LaunchParams, config: Seq<char>) -> SpawnRequestView {
    SpawnRequestView {
        executable: params.0,
        args: seq!["-c"@, config],
        env: env_override(params),
    }
}

/// What is due for one adapter: a running one has its process queried, an
/// idle one is launched, and an idle one of unknown type ends supervision.
pub open spec fn reconcile(index: usize, adapter: AdapterView) -> ActionView {
    match adapter.child {
        Some(handle) => ActionView::CheckStatus { index, handle },
        None => match resolve(adapter.typ) {
            Some(params) => ActionView::Spawn {
                index,
                request: spawn_request(params, adapter.config),
            },
            None => ActionView::Stop(Err(unresolved_message(adapter.name))),
        },
    }
}

/// Decides what is due for `adapter`, which stands at `index`.
pub fn plan(index: usize, adapter: &Adapter) -> (action: Action)
    ensures
        action@ == reconcile(index, adapter@),
{
    match adapter.child {
        Some(handle) => Action::CheckStatus { index, handle },
        None => match LauncherConfig::get_executable_name(adapter.typ.as_str()) {
            Some((executable, (key, value))) => {
                let mut args: Vec<String> = Vec::new();
                args.push(String::from_str("-c"));
                args.push(adapter.config.clone());
                let env = if key.as_str().is_empty() {
                    None
                } else {
                    Some((key, value))
                };
                let request = SpawnRequest { executable, args, env };
                assert(request@.args =~= seq!["-c"@, adapter.config@]);
                Action::Spawn { index, request }
            },
            None => {
                let mut message = String::from_str("Unable to find executable file for adapter ");
                message.append(adapter.name.as_str());
                Action::Stop(Err(ConfigError::new(message)))
            },
        },
    }
}

/// The supervisor as the contracts see it.
pub ghost struct SupervisorView {
    /// Launcher settings, carried through untouched.
    pub launcher: Launcher,
    /// The adapters, in declaration order.
    pub adapters: Seq<AdapterView>,
    /// The place in the cycle.
    pub cursor: Cursor,
}

impl SupervisorView {
    /// There is something to supervise, and the cursor points into it.
    pub open spec fn wf(self) -> bool {
        &&& 0 < self.adapters.len() <= usize::MAX
        &&& self.cursor matches Cursor::At(i) ==> i < self.adapters.len()
    }

    /// The action that the supervisor is waiting on.
    pub open spec fn pending(self) -> ActionView {
        match self.cursor {
            Cursor::TickStart => ActionView::PollShutdown,
            Cursor::At(i) => reconcile(i, self.adapters[i as int]),
            Cursor::ShutDown => ActionView::Stop(Ok(())),
        }
    }

    /// The place after the adapter at `index`: the next adapter, or the top
    /// of the next tick after the last one.
    pub open spec fn after(self, index: usize) -> Cursor {
        if index + 1 < self.adapters.len() {
            Cursor::At((index + 1) as usize)
        } else {
            Cursor::TickStart
        }
    }

    /// The same state with the adapter at `index` backed by `child`.
    pub open spec fn with_child(self, index: usize, child: Option<ProcessHandle>) -> SupervisorView {
        SupervisorView {
            adapters: self.adapters.update(
                index as int,
                self.adapters[index as int].with_child(child),
            ),
            ..self
        }
    }

    /// The same state at another place in the cycle.
    pub open spec fn at(self, cursor: Cursor) -> SupervisorView {
        SupervisorView { cursor, ..self }
    }

    /// The state after `event`. An event that does not answer the pending
    /// action changes nothing, and nothing changes once supervision has
    /// stopped.
    pub open spec fn transition(self, event: Event) -> SupervisorView {
        match (self.pending(), event) {
            (ActionView::PollShutdown, Event::ShutdownRequested) => self.at(Cursor::ShutDown),
            (ActionView::PollShutdown, Event::NoShutdown) => self.at(Cursor::At(0)),
            (ActionView::CheckStatus { index, .. }, Event::Exited) => self.with_child(
                index,
                None,
            ).at(self.after(index)),
            (ActionView::CheckStatus { index, .. }, Event::StillRunning) => self.at(
                self.after(index),
            ),
            (ActionView::CheckStatus { index, .. }, Event::StatusUnknown) => self.at(
                self.after(index),
            ),
            (ActionView::Spawn { index, .. }, Event::Spawned(handle)) => self.with_child(
                index,
                Some(handle),
            ).at(self.after(index)),
            (ActionView::Spawn { index, .. }, Event::SpawnFailed) => self.at(self.after(index)),
            _ => self,
        }
    }
}

/// The supervision loop's state: the adapters with their processes, and the
/// place in the cycle.
#[derive(Debug)]
pub struct Supervisor {
    config: LauncherConfig,
    cursor: Cursor,
}

impl View for Supervisor {
    type V = SupervisorView;

    closed spec fn view(&self) -> SupervisorView {
        SupervisorView {
            launcher: self.config.launcher,
            adapters: adapters_view(self.config.adapters@),
            cursor: self.cursor,
        }
    }
}

impl Supervisor {
    #[verifier::type_invariant]
    spec fn inv(self) -> bool {
        self@.wf()
    }

    /// Takes charge of the configured adapters. With no adapter there is
    /// nothing to supervise, and that is an error; otherwise the supervisor
    /// stands at the top of its first tick.
    pub fn start(config: LauncherConfig) -> (r: Result<Supervisor, ConfigError>)
        ensures
            r is Err <==> config.adapters@.len() == 0,
            r matches Err(e) ==> e@ == no_adapters_message(),
            r matches Ok(s) ==> s@ == (SupervisorView {
                launcher: config.launcher,
                adapters: adapters_view(config.adapters@),
                cursor: Cursor::TickStart,
            }) && s@.wf(),
    {
        if config.adapters.len() == 0 {
            return Err(
                ConfigError::new(String::from_str("No adapters found.  Nothing to be launched!")),
            );
        }
        Ok(Supervisor { config, cursor: Cursor::TickStart })
    }

    /// The action that the supervisor is waiting on.
    pub fn next_action(&self) -> (action: Action)
        ensures
            self@.wf(),
            action@ == self@.pending(),
    {
        proof {
            use_type_invariant(self);
        }
        match self.cursor {
            Cursor::TickStart => Action::PollShutdown,
            Cursor::At(i) => plan(i, &self.config.adapters[i]),
            Cursor::ShutDown => Action::Stop(Ok(())),
        }
    }

    /// The adapters, with the processes that back them.
    pub fn adapters(&self) -> (adapters: &Vec<Adapter>)
        ensures
            adapters_view(adapters@) == self@.adapters,
    {
        &self.config.adapters
    }

    /// Where the supervisor stands in its cycle.
    pub fn cursor(&self) -> (cursor: Cursor)
        ensures
            cursor == self@.cursor,
    {
        self.cursor
    }

    /// Gives the configuration back, each adapter with the process that
    /// backs it now.
    pub fn into_config(self) -> (config: LauncherConfig)
        ensures
            config.launcher == self@.launcher,
            adapters_view(config.adapters@) == self@.adapters,
    {
        self.config
    }

    /// The place after the adapter at `index`.
    fn advance(&self, index: usize) -> (cursor: Cursor)
        requires
            index < self@.adapters.len(),
        ensures
            cursor == self@.after(index),
    {
        proof {
            use_type_invariant(self);
        }
        if index + 1 < self.config.adapters.len() {
            Cursor::At(index + 1)
        } else {
            Cursor::TickStart
        }
    }

    /// Takes in what the outside world reports of the pending action, and
    /// names the action that is due next.
    pub fn step(&mut self, event: Event) -> (action: Action)
        ensures
            final(self)@ == old(self)@.transition(event),
            final(self)@.wf(),
            action@ == final(self)@.pending(),
    {
        proof {
            use_type_invariant(&*self);
        }
        match self.cursor {
            Cursor::TickStart => match event {
                Event::ShutdownRequested => {
                    self.cursor = Cursor::ShutDown;
                },
                Event::NoShutdown => {
                    self.cursor = Cursor::At(0);
                },
                _ => {},
            },
            Cursor::At(i) => {
                let running = self.config.adapters[i].child.is_some();
                let resolves = running || LauncherConfig::get_executable_name(
                    self.config.adapters[i].typ.as_str(),
                ).is_some();
                let next = self.advance(i);
                if running {
                    match event {
                        Event::Exited => {
                            self.config.adapters[i].child = None;
                            self.cursor = next;
                            assert(self@.adapters =~= old(self)@.with_child(i, None).adapters);
                        },
                        Event::StillRunning | Event::StatusUnknown => {
                            self.cursor = next;
                        },
                        _ => {},
                    }
                } else if resolves {
                    match event {
                        Event::Spawned(handle) => {
                            self.config.adapters[i].child = Some(handle);
                            self.cursor = next;
                            assert(self@.adapters =~= old(self)@.with_child(i, Some(handle)).adapters);
                        },
                        Event::SpawnFailed => {
                            self.cursor = next;
                        },
                        _ => {},
                    }
                }
            },
            Cursor::ShutDown => {},
        }
        self.next_action()
    }
}

} // verus!
