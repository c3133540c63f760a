use vstd::prelude::*;
use vstd::string::*;

use crate::app::{info_line, App, AppMode, VerbosityConfig};
use crate::client_manager::{endpoint_absent, ClientManager};
use crate::converter::{generate_json_from_input, Conversion};
use crate::error::{message_of, AppError, Stage};
use crate::input::{classify_input, request_of, FileKind, InputRequest, InputType};
use crate::render::{render_base, wav_base};

verus! {

pub const MSG_SERVER: &'static str = "Running in server mode (idle state)";
pub const MSG_STOP: &'static str = "Sending stop command to server...";
pub const MSG_SHUTDOWN: &'static str = "Sending shutdown command to server...";
pub const MSG_MML: &'static str = "Processing MML input...";
pub const MSG_STEP1: &'static str = "Step 1: Converting MML to SMF...";
pub const MSG_STEP2: &'static str = "Step 2: Converting SMF to YM2151 log...";
pub const MSG_JSON: &'static str = "Using YM2151 JSON file input...";
pub const MSG_SENDING: &'static str = "Sending JSON directly to server...";
pub const MSG_SPAWN: &'static str = "Starting server process...";
pub const MSG_SPAWNED: &'static str = "Server process spawned successfully";
pub const MSG_DONE: &'static str = "Operation completed.";

/// Milliseconds to wait after starting a server before sending again.
pub const SPAWN_WAIT_MS: u64 = 500;

/// Where an invocation stands: which outside result it waits for.
#[derive(PartialEq, Eq, Structural, Clone, Copy)]
pub enum Phase {
    Start,
    Loading(FileKind),
    MakingSmf,
    MakingLog,
    FirstSend,
    Spawning,
    Waiting,
    SecondSend,
    Controlling,
    Rendering,
    Done,
}

/// The outcome of the last action, handed back by whoever performed it.
/// Error texts are the failures as reported (for a send, its debug rendering).
pub enum Event {
    Begin,
    TextRead(Option<String>),
    BytesRead(Option<Vec<u8>>),
    SmfMade(Result<Vec<u8>, String>),
    LogMade(Result<String, String>),
    Sent(Result<(), String>),
    Spawned(Result<(), String>),
    Slept,
    Completed(Result<(), String>),
}

/// What to perform next.
pub enum Action {
    RunServer,
    SendStop,
    SendShutdown,
    ReadText(String),
    ReadBytes(String),
    MakeSmf(String),
    MakeLog(Vec<u8>),
    SendJson(String),
    SpawnServer,
    Sleep(u64),
    /// Render this event log to the WAV files of this base path.
    Render(String, String),
    Finish(Result<(), AppError>),
}

/// An action, and the informational lines to print before it.
pub struct Step {
    pub notes: Vec<String>,
    pub action: Action,
}

/// The dispatch controller of one invocation.
pub struct Session {
    pub mode: AppMode,
    pub verbosity: VerbosityConfig,
    pub phase: Phase,
    pub payload: String,
    pub sends: u8,
    pub spawns: u8,
}

/// The input argument of a mode that has one.
pub open spec fn input_of(m: AppMode) -> Seq<char> {
    match m {
        AppMode::PlayInput(i) => i@,
        AppMode::Render(i, _) => i@,
        _ => Seq::empty(),
    }
}

/// The printed lines are `msgs`, or none when output is suppressed.
pub open spec fn notes_are(v: VerbosityConfig, notes: Vec<String>, msgs: Seq<Seq<char>>) -> bool {
    if v.suppress_output {
        notes@.len() == 0
    } else {
        notes@.len() == msgs.len() && forall|i: int| 0 <= i < msgs.len() ==> #[trigger] notes@[i]@ == msgs[i]
    }
}

/// Payload and counters are unchanged.
pub open spec fn kept(s: Session, t: Session) -> bool {
    t.payload == s.payload && t.sends == s.sends && t.spawns == s.spawns
}

/// The invocation ends here with no informational line.
pub open spec fn ends(s: Session, t: Session, st: Step) -> bool {
    kept(s, t) && t.phase is Done && st.notes@.len() == 0
}

/// The event log is ready: play it (the first send) or render it.
pub open spec fn ready(s: Session, json: Seq<char>, t: Session, st: Step, pre: Seq<Seq<char>>) -> bool {
    match s.mode {
        AppMode::Render(_, o) => {
            &&& kept(s, t)
            &&& t.phase is Rendering
            &&& notes_are(s.verbosity, st.notes, pre)
            &&& (st.action matches Action::Render(j, b) && j@ == json && b@ == render_base(o@))
        },
        _ => {
            &&& t.phase is FirstSend
            &&& t.payload@ == json
            &&& t.sends == s.sends + 1
            &&& t.spawns == s.spawns
            &&& notes_are(s.verbosity, st.notes, pre.push(MSG_SENDING@))
            &&& (st.action matches Action::SendJson(p) && p@ == json)
        },
    }
}

/// The first conversion of a loaded input (see `generate_json_from_input`).
pub open spec fn converts(s: Session, input: InputType, t: Session, st: Step) -> bool {
    match input {
        InputType::MidFile(b) => kept(s, t) && t.phase is MakingLog && notes_are(
            s.verbosity,
            st.notes,
            seq![MSG_STEP2@],
        ) && (st.action matches Action::MakeLog(x) && x@ == b@),
        InputType::JsonFile(j) => ready(s, j@, t, st, seq![MSG_JSON@]),
        InputType::MmlString(m) => mml_conversion(s, m@, t, st),
        InputType::MmlFile(m) => mml_conversion(s, m@, t, st),
    }
}

/// MML text goes to the MML to SMF stage.
pub open spec fn mml_conversion(s: Session, m: Seq<char>, t: Session, st: Step) -> bool {
    kept(s, t) && t.phase is MakingSmf && notes_are(
        s.verbosity,
        st.notes,
        seq![MSG_MML@, MSG_STEP1@],
    ) && (st.action matches Action::MakeSmf(x) && x@ == m)
}

/// The first step: what the mode asks for.
pub open spec fn begins(s: Session, t: Session, st: Step) -> bool {
    match s.mode {
        AppMode::Server => kept(s, t) && t.phase is Controlling && notes_are(
            s.verbosity,
            st.notes,
            seq![MSG_SERVER@],
        ) && st.action is RunServer,
        AppMode::StopPlayback => kept(s, t) && t.phase is Controlling && notes_are(
            s.verbosity,
            st.notes,
            seq![MSG_STOP@],
        ) && st.action is SendStop,
        AppMode::Shutdown => kept(s, t) && t.phase is Controlling && notes_are(
            s.verbosity,
            st.notes,
            seq![MSG_SHUTDOWN@],
        ) && st.action is SendShutdown,
        AppMode::Unsupported => ends(s, t, st) && (st.action matches Action::Finish(
            Err(AppError::UnsupportedPlatform),
        )),
        _ => {
            let i = input_of(s.mode);
            if i.len() == 0 {
                ends(s, t, st) && (st.action matches Action::Finish(Err(AppError::MissingInput)))
            } else {
                match request_of(i) {
                    InputRequest::Inline => mml_conversion(s, i, t, st),
                    InputRequest::ReadText(k) => kept(s, t) && t.phase == Phase::Loading(k)
                        && st.notes@.len() == 0 && (st.action matches Action::ReadText(p) && p@
                        == i),
                    InputRequest::ReadBytes(k) => kept(s, t) && t.phase == Phase::Loading(k)
                        && st.notes@.len() == 0 && (st.action matches Action::ReadBytes(p) && p@
                        == i),
                }
            }
        },
    }
}

/// The error that a failed control operation of mode `m` reports, with cause `e`.
pub open spec fn control_failure(m: AppMode, a: Action, e: Seq<char>) -> bool {
    match m {
        AppMode::Server => a matches Action::Finish(Err(AppError::Server(x))) && x@ == e,
        AppMode::StopPlayback => a matches Action::Finish(Err(AppError::StopFailed(x))) && x@ == e,
        _ => a matches Action::Finish(Err(AppError::ShutdownFailed(x))) && x@ == e,
    }
}

/// An event that the phase does not wait for ends the invocation.
pub open spec fn unexpected(s: Session, t: Session, st: Step) -> bool {
    ends(s, t, st) && (st.action matches Action::Finish(Err(AppError::UnexpectedEvent)))
}

/// One transition of the controller: from `s` on event `e` to `t`, doing `st`.
pub open spec fn transition(s: Session, e: Event, t: Session, st: Step) -> bool {
    &&& t.mode == s.mode
    &&& t.verbosity == s.verbosity
    &&& match (s.phase, e) {
        (Phase::Start, Event::Begin) => begins(s, t, st),
        (Phase::Loading(FileKind::Mml), Event::TextRead(Some(x))) => converts(
            s,
            InputType::MmlFile(x),
            t,
            st,
        ),
        (Phase::Loading(FileKind::Json), Event::TextRead(Some(x))) => converts(
            s,
            InputType::JsonFile(x),
            t,
            st,
        ),
        (Phase::Loading(FileKind::Mid), Event::BytesRead(Some(b))) => converts(
            s,
            InputType::MidFile(b),
            t,
            st,
        ),
        (Phase::Loading(k), Event::TextRead(None)) => if k == FileKind::Mid {
            unexpected(s, t, st)
        } else {
            ends(s, t, st) && (st.action matches Action::Finish(
                Err(AppError::ReadFailed(k2, p)),
            ) && k2 == k && p@ == input_of(s.mode))
        },
        (Phase::Loading(FileKind::Mid), Event::BytesRead(None)) => ends(s, t, st)
            && (st.action matches Action::Finish(Err(AppError::ReadFailed(k2, p))) && k2
            == FileKind::Mid && p@ == input_of(s.mode)),
        (Phase::MakingSmf, Event::SmfMade(Ok(b))) => kept(s, t) && t.phase is MakingLog
            && notes_are(s.verbosity, st.notes, seq![MSG_STEP2@]) && (st.action matches Action::MakeLog(x) && x@ == b@),
        (Phase::MakingSmf, Event::SmfMade(Err(m))) => ends(s, t, st)
            && (st.action matches Action::Finish(Err(AppError::Conversion(g, x))) && g
            == Stage::MmlToSmf && x@ == m@),
        (Phase::MakingLog, Event::LogMade(Ok(j))) => ready(s, j@, t, st, seq![]),
        (Phase::MakingLog, Event::LogMade(Err(m))) => ends(s, t, st)
            && (st.action matches Action::Finish(Err(AppError::Conversion(g, x))) && g
            == Stage::SmfToLog && x@ == m@),
        (Phase::FirstSend, Event::Sent(Ok(()))) => kept(s, t) && t.phase is Done && notes_are(
            s.verbosity,
            st.notes,
            seq![MSG_DONE@],
        ) && (st.action matches Action::Finish(Ok(()))),
        (Phase::FirstSend, Event::Sent(Err(m))) => if endpoint_absent(m@) {
            &&& t.phase is Spawning
            &&& t.payload == s.payload
            &&& t.sends == s.sends
            &&& t.spawns == s.spawns + 1
            &&& notes_are(s.verbosity, st.notes, seq![MSG_SPAWN@])
            &&& st.action is SpawnServer
        } else {
            ends(s, t, st) && (st.action matches Action::Finish(Err(AppError::Transport(x)))
                && x@ == m@)
        },
        (Phase::Spawning, Event::Spawned(Ok(()))) => kept(s, t) && t.phase is Waiting
            && notes_are(s.verbosity, st.notes, seq![MSG_SPAWNED@])
            && (st.action matches Action::Sleep(ms) && ms == SPAWN_WAIT_MS),
        (Phase::Spawning, Event::Spawned(Err(m))) => ends(s, t, st)
            && (st.action matches Action::Finish(Err(AppError::Spawn(x))) && x@ == m@),
        (Phase::Waiting, Event::Slept) => {
            &&& t.phase is SecondSend
            &&& t.payload == s.payload
            &&& t.sends == s.sends + 1
            &&& t.spawns == s.spawns
            &&& notes_are(s.verbosity, st.notes, seq![MSG_SENDING@])
            &&& (st.action matches Action::SendJson(p) && p@ == s.payload@)
        },
        (Phase::SecondSend, Event::Sent(Ok(()))) => kept(s, t) && t.phase is Done && notes_are(
            s.verbosity,
            st.notes,
            seq![MSG_DONE@],
        ) && (st.action matches Action::Finish(Ok(()))),
        (Phase::SecondSend, Event::Sent(Err(m))) => ends(s, t, st)
            && (st.action matches Action::Finish(Err(AppError::Transport(x))) && x@ == m@),
        (Phase::Controlling, Event::Completed(Ok(()))) => ends(s, t, st)
            && (st.action matches Action::Finish(Ok(()))),
        (Phase::Controlling, Event::Completed(Err(m))) => ends(s, t, st) && control_failure(
            s.mode,
            st.action,
            m@,
        ),
        (Phase::Rendering, Event::Completed(Ok(()))) => ends(s, t, st)
            && (st.action matches Action::Finish(Ok(()))),
        (Phase::Rendering, Event::Completed(Err(m))) => ends(s, t, st)
            && (st.action matches Action::Finish(Err(AppError::RenderFailed(x))) && x@ == m@),
        _ => unexpected(s, t, st),
    }
}

fn no_notes() -> (r: Vec<String>)
    ensures
        r@.len() == 0,
{
    Vec::new()
}

fn note1(v: VerbosityConfig, a: &str) -> (r: Vec<String>)
    ensures
        notes_are(v, r, seq![a@]),
{
    info_line(&v, a)
}

fn note2(v: VerbosityConfig, a: &str, b: &str) -> (r: Vec<String>)
    ensures
        notes_are(v, r, seq![a@, b@]),
{
    let mut r: Vec<String> = Vec::new();
    if v.shows_info() {
        r.push(String::from_str(a));
        r.push(String::from_str(b));
    }
    r
}

fn input_text(m: &AppMode) -> (r: String)
    ensures
        r@ == input_of(*m),
{
    match m {
        AppMode::PlayInput(i) => i.clone(),
        AppMode::Render(i, _) => i.clone(),
        _ => String::new(),
    }
}

impl Session {
    /// Counts of sends and spawns that each phase allows: at most two sends
    /// and one spawn, and a second send only after a spawn.
    pub open spec fn wf(&self) -> bool {
        match self.phase {
            Phase::FirstSend => self.sends == 1 && self.spawns == 0,
            Phase::Spawning => self.sends == 1 && self.spawns == 1,
            Phase::Waiting => self.sends == 1 && self.spawns == 1,
            Phase::SecondSend => self.sends == 2 && self.spawns == 1,
            Phase::Done => self.sends <= 2 && self.spawns <= 1 && (self.spawns == 0 ==> self.sends
                <= 1),
            _ => self.sends == 0 && self.spawns == 0,
        }
    }

    /// A controller for `mode`, before its first step.
    pub fn new(mode: AppMode, verbosity: VerbosityConfig) -> (r: Self)
        ensures
            r.mode == mode,
            r.verbosity == verbosity,
            r.phase is Start,
            r.payload@.len() == 0,
            r.sends == 0,
            r.spawns == 0,
            r.wf(),
    {
        Session { mode, verbosity, phase: Phase::Start, payload: String::new(), sends: 0, spawns: 0 }
    }

    fn end_with(&mut self, res: Result<(), AppError>) -> (st: Step)
        requires
            old(self).wf(),
        ensures
            final(self).wf(),
            final(self).mode == old(self).mode,
            final(self).verbosity == old(self).verbosity,
            ends(*old(self), *final(self), st),
            st.action == Action::Finish(res),
    {
        self.phase = Phase::Done;
        Step { notes: no_notes(), action: Action::Finish(res) }
    }

    fn ready_step(&mut self, json: String, json_notice: bool) -> (st: Step)
        requires
            old(self).wf(),
            old(self).sends == 0,
            old(self).spawns == 0,
        ensures
            final(self).wf(),
            final(self).mode == old(self).mode,
            final(self).verbosity == old(self).verbosity,
            ready(
                *old(self),
                json@,
                *final(self),
                st,
                if json_notice {
                    seq![MSG_JSON@]
                } else {
                    seq![]
                },
            ),
    {
        let v = self.verbosity;
        if let AppMode::Render(_, o) = &self.mode {
            let base = wav_base(o.as_str());
            self.phase = Phase::Rendering;
            let notes = if json_notice {
                note1(v, MSG_JSON)
            } else {
                no_notes()
            };
            proof {
                if !json_notice && !v.suppress_output {
                    assert(notes_are(v, notes, seq![]));
                }
            }
            return Step { notes, action: Action::Render(json, base) };
        }
        let notes = if json_notice {
            note2(v, MSG_JSON, MSG_SENDING)
        } else {
            note1(v, MSG_SENDING)
        };
        assert(seq![MSG_JSON@].push(MSG_SENDING@) =~= seq![MSG_JSON@, MSG_SENDING@]);
        assert(Seq::<Seq<char>>::empty().push(MSG_SENDING@) =~= seq![MSG_SENDING@]);
        self.payload = json.clone();
        self.phase = Phase::FirstSend;
        self.sends = self.sends + 1;
        Step { notes, action: Action::SendJson(json) }
    }

    fn convert_step(&mut self, input: InputType) -> (st: Step)
        requires
            old(self).wf(),
            old(self).sends == 0,
            old(self).spawns == 0,
        ensures
            final(self).wf(),
            final(self).mode == old(self).mode,
            final(self).verbosity == old(self).verbosity,
            converts(*old(self), input, *final(self), st),
    {
        let v = self.verbosity;
        let ghost input0 = input;
        match generate_json_from_input(input) {
            Conversion::MmlToSmf(m) => {
                self.phase = Phase::MakingSmf;
                Step { notes: note2(v, MSG_MML, MSG_STEP1), action: Action::MakeSmf(m) }
            },
            Conversion::SmfToLog(b) => {
                self.phase = Phase::MakingLog;
                Step { notes: note1(v, MSG_STEP2), action: Action::MakeLog(b) }
            },
            Conversion::Ready(j) => self.ready_step(j, true),
        }
    }

    fn begin(&mut self) -> (st: Step)
        requires
            old(self).wf(),
            old(self).phase is Start,
        ensures
            final(self).wf(),
            final(self).mode == old(self).mode,
            final(self).verbosity == old(self).verbosity,
            begins(*old(self), *final(self), st),
    {
        let v = self.verbosity;
        let app = App::new();
        if matches!(self.mode, AppMode::Server) {
            self.phase = Phase::Controlling;
            return app.run_server_mode(&v);
        }
        if matches!(self.mode, AppMode::StopPlayback) {
            self.phase = Phase::Controlling;
            return app.handle_stop_command(&v);
        }
        if matches!(self.mode, AppMode::Shutdown) {
            self.phase = Phase::Controlling;
            return app.handle_shutdown_command(&v);
        }
        if matches!(self.mode, AppMode::Unsupported) {
            return self.end_with(Err(AppError::UnsupportedPlatform));
        }
        let i = input_text(&self.mode);
        if i.unicode_len() == 0 {
            return self.end_with(Err(AppError::MissingInput));
        }
        match classify_input(i.as_str()) {
            InputRequest::Inline => self.convert_step(InputType::MmlString(i)),
            InputRequest::ReadText(k) => {
                self.phase = Phase::Loading(k);
                Step { notes: no_notes(), action: Action::ReadText(i) }
            },
            InputRequest::ReadBytes(k) => {
                self.phase = Phase::Loading(k);
                Step { notes: no_notes(), action: Action::ReadBytes(i) }
            },
        }
    }

    /// Takes the outcome of the last action and says what to do next.
    /// A server is started only when the first send failed because nothing
    /// listens on the endpoint, and the payload is sent again only once,
    /// after that start and the wait.
    pub fn step(&mut self, event: Event) -> (st: Step)
        requires
            old(self).wf(),
        ensures
            final(self).wf(),
            transition(*old(self), event, *final(self), st),
    {
        let v = self.verbosity;
        let phase = self.phase;
        match event {
            Event::Begin => {
                if phase == Phase::Start {
                    self.begin()
                } else {
                    self.end_with(Err(AppError::UnexpectedEvent))
                }
            },
            Event::TextRead(r) => {
                match (phase, r) {
                    (Phase::Loading(FileKind::Mml), Some(x)) => self.convert_step(InputType::MmlFile(x)),
                    (Phase::Loading(FileKind::Json), Some(x)) => self.convert_step(InputType::JsonFile(x)),
                    (Phase::Loading(k), None) => {
                        if k == FileKind::Mid {
                            self.end_with(Err(AppError::UnexpectedEvent))
                        } else {
                            let p = input_text(&self.mode);
                            self.end_with(Err(AppError::ReadFailed(k, p)))
                        }
                    },
                    _ => self.end_with(Err(AppError::UnexpectedEvent)),
                }
            },
            Event::BytesRead(r) => {
                match (phase, r) {
                    (Phase::Loading(FileKind::Mid), Some(b)) => self.convert_step(InputType::MidFile(b)),
                    (Phase::Loading(FileKind::Mid), None) => {
                        let p = input_text(&self.mode);
                        self.end_with(Err(AppError::ReadFailed(FileKind::Mid, p)))
                    },
                    _ => self.end_with(Err(AppError::UnexpectedEvent)),
                }
            },
            Event::SmfMade(r) => {
                if phase != Phase::MakingSmf {
                    return self.end_with(Err(AppError::UnexpectedEvent));
                }
                match r {
                    Ok(b) => {
                        self.phase = Phase::MakingLog;
                        Step { notes: note1(v, MSG_STEP2), action: Action::MakeLog(b) }
                    },
                    Err(m) => self.end_with(Err(AppError::Conversion(Stage::MmlToSmf, m))),
                }
            },
            Event::LogMade(r) => {
                if phase != Phase::MakingLog {
                    return self.end_with(Err(AppError::UnexpectedEvent));
                }
                match r {
                    Ok(j) => self.ready_step(j, false),
                    Err(m) => self.end_with(Err(AppError::Conversion(Stage::SmfToLog, m))),
                }
            },
            Event::Sent(r) => {
                if phase != Phase::FirstSend && phase != Phase::SecondSend {
                    return self.end_with(Err(AppError::UnexpectedEvent));
                }
                match r {
                    Ok(()) => {
                        self.phase = Phase::Done;
                        Step { notes: note1(v, MSG_DONE), action: Action::Finish(Ok(())) }
                    },
                    Err(m) => {
                        if phase == Phase::FirstSend && ClientManager::new().is_server_not_running_error(m.as_str()) {
                            self.phase = Phase::Spawning;
                            self.spawns = self.spawns + 1;
                            Step { notes: note1(v, MSG_SPAWN), action: Action::SpawnServer }
                        } else {
                            self.end_with(Err(AppError::Transport(m)))
                        }
                    },
                }
            },
            Event::Spawned(r) => {
                if phase != Phase::Spawning {
                    return self.end_with(Err(AppError::UnexpectedEvent));
                }
                match r {
                    Ok(()) => {
                        self.phase = Phase::Waiting;
                        Step { notes: note1(v, MSG_SPAWNED), action: Action::Sleep(SPAWN_WAIT_MS) }
                    },
                    Err(m) => self.end_with(Err(AppError::Spawn(m))),
                }
            },
            Event::Slept => {
                if phase != Phase::Waiting {
                    return self.end_with(Err(AppError::UnexpectedEvent));
                }
                self.phase = Phase::SecondSend;
                self.sends = self.sends + 1;
                Step { notes: note1(v, MSG_SENDING), action: Action::SendJson(self.payload.clone()) }
            },
            Event::Completed(r) => {
                if phase == Phase::Controlling {
                    match r {
                        Ok(()) => self.end_with(Ok(())),
                        Err(m) => {
                            if matches!(self.mode, AppMode::Server) {
                                self.end_with(Err(AppError::Server(m)))
                            } else if matches!(self.mode, AppMode::StopPlayback) {
                                self.end_with(Err(AppError::StopFailed(m)))
                            } else {
                                self.end_with(Err(AppError::ShutdownFailed(m)))
                            }
                        },
                    }
                } else if phase == Phase::Rendering {
                    match r {
                        Ok(()) => self.end_with(Ok(())),
                        Err(m) => self.end_with(Err(AppError::RenderFailed(m))),
                    }
                } else {
                    self.end_with(Err(AppError::UnexpectedEvent))
                }
            },
        }
    }
}

/// A run of the controller: on `events[i]`, `states[i]` goes to
/// `states[i + 1]` and does `steps[i]`.
pub open spec fn is_run(states: Seq<Session>, events: Seq<Event>, steps: Seq<Step>) -> bool {
    &&& states.len() == events.len() + 1
    &&& steps.len() == events.len()
    &&& forall|i: int|
        0 <= i < events.len() ==> #[trigger] transition(states[i], events[i], states[i + 1], steps[i])
}

/// How many of `steps` send the payload.
pub open spec fn count_sends(steps: Seq<Step>) -> nat
    decreases steps.len(),
{
    if steps.len() == 0 {
        0
    } else {
        count_sends(steps.drop_last()) + if steps.last().action is SendJson {
            1nat
        } else {
            0nat
        }
    }
}

/// How many of `steps` start a server.
pub open spec fn count_spawns(steps: Seq<Step>) -> nat
    decreases steps.len(),
{
    if steps.len() == 0 {
        0
    } else {
        count_spawns(steps.drop_last()) + if steps.last().action is SpawnServer {
            1nat
        } else {
            0nat
        }
    }
}

/// Each transition keeps the counts well-formed and counts what it does.
pub proof fn lemma_transition_counts(s: Session, e: Event, t: Session, st: Step)
    requires
        s.wf(),
        transition(s, e, t, st),
    ensures
        t.wf(),
        t.sends == s.sends + if st.action is SendJson {
            1int
        } else {
            0int
        },
        t.spawns == s.spawns + if st.action is SpawnServer {
            1int
        } else {
            0int
        },
{
}

/// Launch-or-connect is bounded: in any run from a fresh controller, the
/// payload is sent at most twice and a server is started at most once.
pub proof fn lemma_launch_or_connect_bounded(
    states: Seq<Session>,
    events: Seq<Event>,
    steps: Seq<Step>,
)
    requires
        is_run(states, events, steps),
        states[0].phase is Start,
        states[0].sends == 0,
        states[0].spawns == 0,
    ensures
        count_sends(steps) <= 2,
        count_spawns(steps) <= 1,
{
    lemma_run_counts(states, events, steps);
    let last = states[events.len() as int];
    assert(last.wf());
}

proof fn lemma_run_counts(states: Seq<Session>, events: Seq<Event>, steps: Seq<Step>)
    requires
        is_run(states, events, steps),
        states[0].phase is Start,
        states[0].sends == 0,
        states[0].spawns == 0,
    ensures
        states[events.len() as int].wf(),
        states[events.len() as int].sends == count_sends(steps),
        states[events.len() as int].spawns == count_spawns(steps),
    decreases events.len(),
{
    let n = events.len() as int;
    if n > 0 {
        let states0 = states.drop_last();
        let events0 = events.drop_last();
        let steps0 = steps.drop_last();
        assert forall|i: int| 0 <= i < events0.len() implies #[trigger] transition(
            states0[i],
            events0[i],
            states0[i + 1],
            steps0[i],
        ) by {
            assert(transition(states[i], events[i], states[i + 1], steps[i]));
        }
        lemma_run_counts(states0, events0, steps0);
        assert(transition(states[n - 1], events[n - 1], states[n], steps[n - 1]));
        lemma_transition_counts(states[n - 1], events[n - 1], states[n], steps[n - 1]);
    }
}

/// A server is started only right after a first send that failed because
/// nothing listened on the endpoint; any other send failure ends the run.
pub proof fn lemma_spawn_only_when_absent(s: Session, e: Event, t: Session, st: Step)
    requires
        transition(s, e, t, st),
    ensures
        st.action is SpawnServer ==> s.phase is FirstSend && (e matches Event::Sent(Err(m))
            && endpoint_absent(m@)),
        (s.phase is FirstSend && (e matches Event::Sent(Err(m)) && !endpoint_absent(m@)))
            ==> st.action matches Action::Finish(Err(AppError::Transport(_))),
{
}

/// With output suppressed no step prints an informational line; failures are
/// still reported, in the `Finish` action.
pub proof fn lemma_quiet_when_suppressed(s: Session, e: Event, t: Session, st: Step)
    requires
        s.verbosity.suppress_output,
        transition(s, e, t, st),
    ensures
        st.notes@.len() == 0,
{
}

/// A file with a recognized extension that cannot be read ends the run with
/// an error naming its path; it is never taken as MML text instead.
pub proof fn lemma_unreadable_file_fails(s: Session, e: Event, t: Session, st: Step)
    requires
        transition(s, e, t, st),
        s.phase matches Phase::Loading(k) && ((k == FileKind::Mid && e == Event::BytesRead(None))
            || (k != FileKind::Mid && e == Event::TextRead(None))),
    ensures
        t.phase is Done,
        st.action matches Action::Finish(Err(AppError::ReadFailed(k, p))) && s.phase
            == Phase::Loading(k) && p@ == input_of(s.mode),
{
}

/// Verbosity decides only which informational lines are printed: two
/// controllers that differ in it alone go to the same phase, and a failure
/// is reported with the same message either way.
pub proof fn lemma_verbosity_only_gates_notes(
    s1: Session,
    s2: Session,
    e: Event,
    t1: Session,
    t2: Session,
    st1: Step,
    st2: Step,
)
    requires
        s1.mode == s2.mode,
        s1.phase == s2.phase,
        s1.payload == s2.payload,
        s1.sends == s2.sends,
        s1.spawns == s2.spawns,
        transition(s1, e, t1, st1),
        transition(s2, e, t2, st2),
    ensures
        t1.phase == t2.phase,
        t1.sends == t2.sends,
        t1.spawns == t2.spawns,
        st1.action matches Action::Finish(Err(x1)) ==> (st2.action matches Action::Finish(Err(x2))
            && message_of(x1) == message_of(x2)),
        st1.action matches Action::Finish(Ok(())) ==> st2.action matches Action::Finish(Ok(())),
{
}

} // verus!
