use vstd::prelude::*;
use vstd::string::*;

use crate::input::FileKind;

verus! {

/// The conversion stages, each run by an outside converter.
#[derive(PartialEq, Eq, Structural, Clone, Copy)]
pub enum Stage {
    MmlToSmf,
    SmfToLog,
}

/// Why an invocation failed. A `String` field holds the cause as reported by
/// whatever failed (a path for a read).
pub enum AppError {
    MissingInput,
    UnsupportedPlatform,
    ReadFailed(FileKind, String),
    Conversion(Stage, String),
    Transport(String),
    Spawn(String),
    Server(String),
    StopFailed(String),
    ShutdownFailed(String),
    RenderFailed(String),
    UnexpectedEvent,
}

pub const MISSING_INPUT: &'static str = "INPUT is required unless using --server, --stop, or --shutdown";
pub const UNSUPPORTED: &'static str = "--server/--stop/--shutdown are only supported on Windows, where the server's named pipe exists";
pub const READ_MML: &'static str = "Failed to read MML file: ";
pub const READ_MID: &'static str = "Failed to read MIDI file: ";
pub const READ_JSON: &'static str = "Failed to read JSON file: ";
pub const MML_TO_SMF: &'static str = "Failed to convert MML to SMF: ";
pub const SMF_TO_LOG: &'static str = "Failed to convert SMF to YM2151 log: ";
pub const SEND_FAILED: &'static str = "Failed to send JSON to server: ";
pub const SPAWN_FAILED: &'static str = "Failed to spawn server process: ";
pub const SERVER_FAILED: &'static str = "Server failed: ";
pub const STOP_FAILED: &'static str = "Failed to stop playback: ";
pub const SHUTDOWN_FAILED: &'static str = "Failed to shutdown server: ";
pub const RENDER_FAILED: &'static str = "Failed to render WAV output: ";
pub const UNEXPECTED: &'static str = "Unexpected event for the current state";

/// The single line that reports `e`: its stage first, then the cause.
pub open spec fn message_of(e: AppError) -> Seq<char> {
    match e {
        AppError::MissingInput => MISSING_INPUT@,
        AppError::UnsupportedPlatform => UNSUPPORTED@,
        AppError::ReadFailed(FileKind::Mml, p) => READ_MML@ + p@,
        AppError::ReadFailed(FileKind::Mid, p) => READ_MID@ + p@,
        AppError::ReadFailed(FileKind::Json, p) => READ_JSON@ + p@,
        AppError::Conversion(Stage::MmlToSmf, m) => MML_TO_SMF@ + m@,
        AppError::Conversion(Stage::SmfToLog, m) => SMF_TO_LOG@ + m@,
        AppError::Transport(m) => SEND_FAILED@ + m@,
        AppError::Spawn(m) => SPAWN_FAILED@ + m@,
        AppError::Server(m) => SERVER_FAILED@ + m@,
        AppError::StopFailed(m) => STOP_FAILED@ + m@,
        AppError::ShutdownFailed(m) => SHUTDOWN_FAILED@ + m@,
        AppError::RenderFailed(m) => RENDER_FAILED@ + m@,
        AppError::UnexpectedEvent => UNEXPECTED@,
    }
}

fn prefixed(prefix: &str, m: &String) -> (r: String)
    ensures
        r@ == prefix@ + m@,
{
    String::from_str(prefix).concat(m.as_str())
}

impl AppError {
    /// The message that reports this error.
    pub fn message(&self) -> (r: String)
        ensures
            r@ == message_of(*self),
    {
        match self {
            AppError::MissingInput => String::from_str(MISSING_INPUT),
            AppError::UnsupportedPlatform => String::from_str(UNSUPPORTED),
            AppError::ReadFailed(FileKind::Mml, p) => prefixed(READ_MML, p),
            AppError::ReadFailed(FileKind::Mid, p) => prefixed(READ_MID, p),
            AppError::ReadFailed(FileKind::Json, p) => prefixed(READ_JSON, p),
            AppError::Conversion(Stage::MmlToSmf, m) => prefixed(MML_TO_SMF, m),
            AppError::Conversion(Stage::SmfToLog, m) => prefixed(SMF_TO_LOG, m),
            AppError::Transport(m) => prefixed(SEND_FAILED, m),
            AppError::Spawn(m) => prefixed(SPAWN_FAILED, m),
            AppError::Server(m) => prefixed(SERVER_FAILED, m),
            AppError::StopFailed(m) => prefixed(STOP_FAILED, m),
            AppError::ShutdownFailed(m) => prefixed(SHUTDOWN_FAILED, m),
            AppError::RenderFailed(m) => prefixed(RENDER_FAILED, m),
            AppError::UnexpectedEvent => String::from_str(UNEXPECTED),
        }
    }
}

} // verus!
