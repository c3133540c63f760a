use cat_play_mml::app::{App, AppMode, VerbosityConfig};
use cat_play_mml::cli::Args;
use cat_play_mml::error::{AppError, Stage};
use cat_play_mml::input::FileKind;
use cat_play_mml::session::{Action, Event, Phase, Session, Step, SPAWN_WAIT_MS};
use cat_play_mml::temp_file::TempFileManager;

fn args(input: Option<&str>) -> Args {
    Args {
        input: input.map(|s| s.to_string()),
        server: false,
        stop: false,
        shutdown: false,
        verbose: false,
        output: None,
    }
}

fn start(a: &Args, ipc: bool) -> (Session, Step) {
    let mut s = App::new().run(a, ipc);
    let st = s.step(Event::Begin);
    (s, st)
}

const LOG: &str = "{\"events\":[{\"time\":0,\"addr\":\"0x08\",\"data\":\"0x00\"}]}";

/// Runs an inline MML play up to its first send, with fake converters.
fn to_first_send(s: &mut Session, first: Step) -> Step {
    assert!(matches!(first.action, Action::MakeSmf(ref m) if m == "cde"));
    let st = s.step(Event::SmfMade(Ok(vec![0x4d, 0x54, 0x68, 0x64])));
    assert!(matches!(st.action, Action::MakeLog(ref b) if b.len() == 4));
    s.step(Event::LogMade(Ok(LOG.to_string())))
}

fn error_of(st: &Step) -> &AppError {
    match &st.action {
        Action::Finish(Err(e)) => e,
        _ => panic!("not a failure"),
    }
}

#[test]
fn play_inline_mml_server_running() {
    let (mut s, st) = start(&args(Some("cde")), true);
    let st = to_first_send(&mut s, st);
    assert!(matches!(st.action, Action::SendJson(ref p) if p == LOG));
    let st = s.step(Event::Sent(Ok(())));
    assert!(matches!(st.action, Action::Finish(Ok(()))));
    assert_eq!(st.notes, vec!["Operation completed.".to_string()]);
    assert_eq!(s.sends, 1);
    assert_eq!(s.spawns, 0);
}

#[test]
fn play_inline_mml_server_absent() {
    let (mut s, st) = start(&args(Some("cde")), true);
    let st = to_first_send(&mut s, st);
    assert!(matches!(st.action, Action::SendJson(_)));
    let st = s.step(Event::Sent(Err("Failed to connect to server".to_string())));
    assert!(matches!(st.action, Action::SpawnServer));
    let st = s.step(Event::Spawned(Ok(())));
    assert!(matches!(st.action, Action::Sleep(500)));
    assert_eq!(SPAWN_WAIT_MS, 500);
    let st = s.step(Event::Slept);
    assert!(matches!(st.action, Action::SendJson(ref p) if p == LOG));
    let st = s.step(Event::Sent(Ok(())));
    assert!(matches!(st.action, Action::Finish(Ok(()))));
    assert_eq!(s.sends, 2);
    assert_eq!(s.spawns, 1);
}

#[test]
fn second_send_failure_is_final() {
    let (mut s, st) = start(&args(Some("cde")), true);
    to_first_send(&mut s, st);
    s.step(Event::Sent(Err("Failed to connect to server".to_string())));
    s.step(Event::Spawned(Ok(())));
    s.step(Event::Slept);
    let st = s.step(Event::Sent(Err("Failed to connect to server".to_string())));
    assert!(matches!(error_of(&st), AppError::Transport(_)));
    assert!(s.phase == Phase::Done);
    assert_eq!(s.spawns, 1);
}

#[test]
fn play_transport_other_error() {
    let (mut s, st) = start(&args(Some("cde")), true);
    to_first_send(&mut s, st);
    let st = s.step(Event::Sent(Err("Broken pipe (os error 32)".to_string())));
    let e = error_of(&st);
    assert!(matches!(e, AppError::Transport(_)));
    assert_eq!(e.message(), "Failed to send JSON to server: Broken pipe (os error 32)");
    assert_eq!(s.spawns, 0);
}

#[test]
fn spawn_failure_is_reported() {
    let (mut s, st) = start(&args(Some("cde")), true);
    to_first_send(&mut s, st);
    s.step(Event::Sent(Err("0x80070002".to_string())));
    let st = s.step(Event::Spawned(Err("permission denied".to_string())));
    assert_eq!(error_of(&st).message(), "Failed to spawn server process: permission denied");
}

#[test]
fn stop_without_server() {
    let mut a = args(None);
    a.stop = true;
    let (mut s, st) = start(&a, true);
    assert!(matches!(st.action, Action::SendStop));
    let st = s.step(Event::Completed(Err("Failed to connect to server".to_string())));
    assert!(matches!(error_of(&st), AppError::StopFailed(_)));
    assert_eq!(s.spawns, 0);
    assert_eq!(s.sends, 0);
}

#[test]
fn shutdown_and_server_modes() {
    let mut a = args(None);
    a.shutdown = true;
    let (mut s, st) = start(&a, true);
    assert!(matches!(st.action, Action::SendShutdown));
    let st = s.step(Event::Completed(Err("x".to_string())));
    assert_eq!(error_of(&st).message(), "Failed to shutdown server: x");
    let mut a = args(None);
    a.server = true;
    let (mut s, st) = start(&a, true);
    assert!(matches!(st.action, Action::RunServer));
    assert!(st.notes.is_empty());
    let st = s.step(Event::Completed(Ok(())));
    assert!(matches!(st.action, Action::Finish(Ok(()))));
}

#[test]
fn render_to_wav() {
    let mut a = args(Some("cde"));
    a.output = Some("foo.wav".to_string());
    let (mut s, st) = start(&a, true);
    let st = to_first_send(&mut s, st);
    match &st.action {
        Action::Render(j, base) => {
            assert_eq!(j, LOG);
            assert_eq!(base, "foo");
        }
        _ => panic!("expected a render"),
    }
    let st = s.step(Event::Completed(Ok(())));
    assert!(matches!(st.action, Action::Finish(Ok(()))));
    assert_eq!(s.sends, 0);
}

#[test]
fn render_failure_is_reported() {
    let mut a = args(Some("cde"));
    a.output = Some("out".to_string());
    let (mut s, st) = start(&a, true);
    to_first_send(&mut s, st);
    let st = s.step(Event::Completed(Err("disk full".to_string())));
    assert_eq!(error_of(&st).message(), "Failed to render WAV output: disk full");
}

#[test]
fn unsupported_platform() {
    let mut a = args(None);
    a.server = true;
    let (s, st) = start(&a, false);
    let e = error_of(&st);
    assert!(matches!(e, AppError::UnsupportedPlatform));
    assert!(e.message().contains("--server/--stop/--shutdown"));
    assert!(s.phase == Phase::Done);
}

#[test]
fn missing_input_is_misuse() {
    let (_, st) = start(&args(None), true);
    let e = error_of(&st);
    assert!(matches!(e, AppError::MissingInput));
    assert!(e.message().contains("INPUT"));
    let mut a = args(Some(""));
    a.output = Some("x.wav".to_string());
    let (_, st) = start(&a, true);
    assert!(matches!(error_of(&st), AppError::MissingInput));
}

#[test]
fn missing_mml_file_does_not_fall_back() {
    let (mut s, st) = start(&args(Some("missing.mml")), true);
    assert!(matches!(st.action, Action::ReadText(ref p) if p == "missing.mml"));
    assert!(s.phase == Phase::Loading(FileKind::Mml));
    let st = s.step(Event::TextRead(None));
    let e = error_of(&st);
    assert!(matches!(e, AppError::ReadFailed(FileKind::Mml, _)));
    assert_eq!(e.message(), "Failed to read MML file: missing.mml");
}

#[test]
fn json_file_is_sent_as_is() {
    let (mut s, st) = start(&args(Some("x.JSON")), true);
    assert!(matches!(st.action, Action::ReadText(_)));
    let st = s.step(Event::TextRead(Some("not even json".to_string())));
    assert!(matches!(st.action, Action::SendJson(ref p) if p == "not even json"));
    assert_eq!(
        st.notes,
        vec!["Using YM2151 JSON file input...".to_string(), "Sending JSON directly to server...".to_string()]
    );
}

#[test]
fn mml_file_goes_through_smf() {
    let (mut s, _) = start(&args(Some("tune.mml")), true);
    let st = s.step(Event::TextRead(Some("cde".to_string())));
    assert!(matches!(st.action, Action::MakeSmf(ref m) if m == "cde"));
    let st = s.step(Event::SmfMade(Err("bad note".to_string())));
    let e = error_of(&st);
    assert!(matches!(e, AppError::Conversion(Stage::MmlToSmf, _)));
    assert_eq!(e.message(), "Failed to convert MML to SMF: bad note");
}

#[test]
fn midi_file_goes_to_log() {
    let (mut s, st) = start(&args(Some("song.mid")), true);
    assert!(matches!(st.action, Action::ReadBytes(_)));
    let st = s.step(Event::BytesRead(Some(vec![1, 2, 3])));
    assert!(matches!(st.action, Action::MakeLog(ref b) if b == &vec![1u8, 2, 3]));
    let st = s.step(Event::LogMade(Err("no tracks".to_string())));
    assert_eq!(error_of(&st).message(), "Failed to convert SMF to YM2151 log: no tracks");
}

#[test]
fn unreadable_midi_file() {
    let (mut s, _) = start(&args(Some("song.mid")), true);
    let st = s.step(Event::BytesRead(None));
    assert_eq!(error_of(&st).message(), "Failed to read MIDI file: song.mid");
}

#[test]
fn unexpected_event_ends_run() {
    let (mut s, _) = start(&args(Some("cde")), true);
    let st = s.step(Event::Slept);
    assert!(matches!(error_of(&st), AppError::UnexpectedEvent));
    let st = s.step(Event::Begin);
    assert!(matches!(error_of(&st), AppError::UnexpectedEvent));
}

#[test]
fn suppressed_play_prints_nothing() {
    let mut s = Session::new(AppMode::PlayInput("cde".to_string()), VerbosityConfig { suppress_output: true });
    let events = vec![
        Event::Begin,
        Event::SmfMade(Ok(vec![0])),
        Event::LogMade(Ok(LOG.to_string())),
        Event::Sent(Err("Failed to connect to server".to_string())),
        Event::Spawned(Ok(())),
        Event::Slept,
        Event::Sent(Err("Broken pipe".to_string())),
    ];
    let mut last = None;
    for e in events {
        let st = s.step(e);
        assert!(st.notes.is_empty());
        last = Some(st);
    }
    assert!(matches!(error_of(&last.unwrap()), AppError::Transport(_)));
}

#[test]
fn verbose_play_prints_progress() {
    let (mut s, st) = start(&args(Some("cde")), true);
    assert_eq!(st.notes, vec!["Processing MML input...".to_string(), "Step 1: Converting MML to SMF...".to_string()]);
    let st = s.step(Event::SmfMade(Ok(vec![0])));
    assert_eq!(st.notes, vec!["Step 2: Converting SMF to YM2151 log...".to_string()]);
}

#[test]
fn verbosity_from_args() {
    let mut a = args(None);
    assert!(!VerbosityConfig::from_args(&a).suppress_output);
    a.server = true;
    assert!(VerbosityConfig::from_args(&a).suppress_output);
    a.verbose = true;
    assert!(!VerbosityConfig::from_args(&a).suppress_output);
    assert!(VerbosityConfig { suppress_output: false }.shows_info());
}

#[test]
fn mode_precedence() {
    let app = App::new();
    let mut a = args(Some("cde"));
    a.output = Some("o.wav".to_string());
    a.server = true;
    a.stop = true;
    assert!(matches!(app.determine_mode(&a, true), AppMode::Render(ref i, ref o) if i == "cde" && o == "o.wav"));
    let mut a = args(None);
    a.server = true;
    a.stop = true;
    assert!(matches!(app.determine_mode(&a, true), AppMode::Server));
    let mut a = args(None);
    a.stop = true;
    a.shutdown = true;
    assert!(matches!(app.determine_mode(&a, true), AppMode::StopPlayback));
    assert!(matches!(app.determine_mode(&a, false), AppMode::Unsupported));
    assert!(matches!(app.determine_mode(&args(Some("cde")), false), AppMode::PlayInput(ref i) if i == "cde"));
    assert!(matches!(app.determine_mode(&args(None), true), AppMode::PlayInput(ref i) if i.is_empty()));
}

#[test]
fn temp_file_is_cleaned_once() {
    let mut t = TempFileManager::new();
    assert!(t.take_for_cleanup().is_none());
    assert!(t.record("/tmp/a.json".to_string()).is_none());
    assert_eq!(t.record("/tmp/b.json".to_string()), Some("/tmp/a.json".to_string()));
    assert_eq!(t.take_for_cleanup(), Some("/tmp/b.json".to_string()));
    assert!(t.take_for_cleanup().is_none());
}
