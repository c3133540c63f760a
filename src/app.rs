use vstd::prelude::*;

use crate::cli::Args;
use crate::client_manager::ClientManager;
use crate::session::{notes_are, Action, Session, Step, MSG_SERVER, MSG_SHUTDOWN, MSG_STOP};
use vstd::string::*;

verus! {

/// Whether informational messages reach standard output.
#[derive(Clone, Copy)]
pub struct VerbosityConfig {
    pub suppress_output: bool,
}

impl VerbosityConfig {
    pub fn from_args(args: &Args) -> (r: Self)
        ensures
            r.suppress_output == (args.server && !args.verbose),
    {
        VerbosityConfig { suppress_output: args.server && !args.verbose }
    }

    /// Whether an informational line is to be printed.
    pub fn shows_info(&self) -> (r: bool)
        ensures
            r == !self.suppress_output,
    {
        !self.suppress_output
    }
}

/// The execution modes of one invocation.
pub enum AppMode {
    /// Run as the playback server.
    Server,
    /// Ask a running server to stop playback.
    StopPlayback,
    /// Ask a running server to terminate.
    Shutdown,
    /// Convert the input and deliver it to the server.
    PlayInput(String),
    /// Convert the input and render it to WAV files: input, output path.
    Render(String, String),
    /// A server operation was asked for where no IPC endpoint exists.
    Unsupported,
}

/// The text of an optional argument, empty when absent.
pub open spec fn text_or_empty(o: Option<String>) -> Seq<char> {
    match o {
        Some(s) => s@,
        None => Seq::empty(),
    }
}

/// The mode that `args` selects: an output path wins over everything, then
/// `--server`, `--stop` and `--shutdown` in that order, then playing the input.
pub open spec fn mode_selected(args: Args, ipc_supported: bool, m: AppMode) -> bool {
    if args.output is Some {
        m matches AppMode::Render(i, o) && i@ == text_or_empty(args.input) && o@
            == args.output->0@
    } else if args.server || args.stop || args.shutdown {
        if !ipc_supported {
            m is Unsupported
        } else if args.server {
            m is Server
        } else if args.stop {
            m is StopPlayback
        } else {
            m is Shutdown
        }
    } else {
        m matches AppMode::PlayInput(i) && i@ == text_or_empty(args.input)
    }
}

fn text_or_empty_exec(o: &Option<String>) -> (r: String)
    ensures
        r@ == text_or_empty(*o),
{
    match o {
        Some(s) => s.clone(),
        None => String::new(),
    }
}

/// The front end: selects a mode and talks to the server through its client.
pub struct App {
    pub client: ClientManager,
}

impl App {
    pub fn new() -> (r: Self) {
        App { client: ClientManager::new() }
    }

    /// Selects the execution mode; `ipc_supported` tells whether this platform
    /// has the server's IPC endpoint.
    pub fn determine_mode(&self, args: &Args, ipc_supported: bool) -> (r: AppMode)
        ensures
            mode_selected(*args, ipc_supported, r),
    {
        if let Some(out) = &args.output {
            return AppMode::Render(text_or_empty_exec(&args.input), out.clone());
        }
        if args.server || args.stop || args.shutdown {
            if !ipc_supported {
                return AppMode::Unsupported;
            }
            if args.server {
                return AppMode::Server;
            }
            if args.stop {
                return AppMode::StopPlayback;
            }
            return AppMode::Shutdown;
        }
        AppMode::PlayInput(text_or_empty_exec(&args.input))
    }

    /// Starts an invocation: the controller for the mode that `args` select,
    /// with the verbosity that they ask for.
    pub fn run(&self, args: &Args, ipc_supported: bool) -> (r: Session)
        ensures
            mode_selected(*args, ipc_supported, r.mode),
            r.verbosity.suppress_output == (args.server && !args.verbose),
            r.phase is Start,
            r.sends == 0,
            r.spawns == 0,
            r.wf(),
    {
        let verbosity = VerbosityConfig::from_args(args);
        Session::new(self.determine_mode(args, ipc_supported), verbosity)
    }

    /// Running as the server: announce it, then run it.
    pub fn run_server_mode(&self, verbosity: &VerbosityConfig) -> (st: Step)
        ensures
            notes_are(*verbosity, st.notes, seq![MSG_SERVER@]),
            st.action is RunServer,
    {
        Step { notes: info_line(verbosity, MSG_SERVER), action: Action::RunServer }
    }

    /// Asking the server to stop playback.
    pub fn handle_stop_command(&self, verbosity: &VerbosityConfig) -> (st: Step)
        ensures
            notes_are(*verbosity, st.notes, seq![MSG_STOP@]),
            st.action is SendStop,
    {
        Step { notes: info_line(verbosity, MSG_STOP), action: Action::SendStop }
    }

    /// Asking the server to shut down.
    pub fn handle_shutdown_command(&self, verbosity: &VerbosityConfig) -> (st: Step)
        ensures
            notes_are(*verbosity, st.notes, seq![MSG_SHUTDOWN@]),
            st.action is SendShutdown,
    {
        Step { notes: info_line(verbosity, MSG_SHUTDOWN), action: Action::SendShutdown }
    }
}

/// The informational line `msg`, unless output is suppressed.
pub fn info_line(verbosity: &VerbosityConfig, msg: &str) -> (r: Vec<String>)
    ensures
        notes_are(*verbosity, r, seq![msg@]),
{
    let mut r: Vec<String> = Vec::new();
    if verbosity.shows_info() {
        r.push(String::from_str(msg));
    }
    r
}

/// Mode-selection precedence: an output path selects rendering whatever else
/// is given; otherwise `--server` wins over `--stop`, which wins over
/// `--shutdown`; with none of them the input is played.
pub proof fn lemma_mode_precedence(args: Args, ipc_supported: bool, m: AppMode)
    requires
        mode_selected(args, ipc_supported, m),
    ensures
        args.output is Some ==> m is Render,
        args.output is None && ipc_supported && args.server ==> m is Server,
        args.output is None && ipc_supported && !args.server && args.stop ==> m is StopPlayback,
        args.output is None && ipc_supported && !args.server && !args.stop && args.shutdown
            ==> m is Shutdown,
        args.output is None && !args.server && !args.stop && !args.shutdown ==> m is PlayInput,
        args.output is None && !ipc_supported && (args.server || args.stop || args.shutdown)
            ==> m is Unsupported,
{
}

} // verus!
