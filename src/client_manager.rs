use vstd::prelude::*;

use crate::text::{seq_contains, str_contains};

verus! {

/// Marker of a refused connection, written by the IPC client itself.
pub const CONNECT_FAILED: &'static str = "Failed to connect to server";

/// Windows' localized message for a pipe that cannot be opened.
pub const PIPE_UNAVAILABLE: &'static str = "パイプを開くことができません";

/// Windows' localized message for a missing file (the pipe name).
pub const FILE_NOT_FOUND: &'static str = "ファイルが見つかりません";

/// The HRESULT of ERROR_FILE_NOT_FOUND.
pub const FILE_NOT_FOUND_CODE: &'static str = "0x80070002";

/// The rendered error text says that nothing listens on the endpoint.
pub open spec fn endpoint_absent(text: Seq<char>) -> bool {
    seq_contains(text, CONNECT_FAILED@)
    || seq_contains(text, PIPE_UNAVAILABLE@)
    || seq_contains(text, FILE_NOT_FOUND@)
    || seq_contains(text, FILE_NOT_FOUND_CODE@)
}

/// Handles client communication with the playback server.
pub struct ClientManager;

impl ClientManager {
    pub fn new() -> (r: Self) {
        ClientManager
    }

    /// Whether the rendered (debug-formatted) transport error says that the
    /// server is not running; this is the only error that may start one.
    pub fn is_server_not_running_error(&self, error: &str) -> (r: bool)
        ensures
            r == endpoint_absent(error@),
    {
        str_contains(error, CONNECT_FAILED) || str_contains(error, PIPE_UNAVAILABLE)
            || str_contains(error, FILE_NOT_FOUND) || str_contains(error, FILE_NOT_FOUND_CODE)
    }
}

/// Each designated marker, wherever it occurs in the error text, marks the
/// endpoint as absent; a text with none of them (a pipe broken mid-write, a
/// timeout) never does.
pub proof fn lemma_endpoint_absent_markers(text: Seq<char>)
    ensures
        seq_contains(text, CONNECT_FAILED@) ==> endpoint_absent(text),
        seq_contains(text, PIPE_UNAVAILABLE@) ==> endpoint_absent(text),
        seq_contains(text, FILE_NOT_FOUND@) ==> endpoint_absent(text),
        seq_contains(text, FILE_NOT_FOUND_CODE@) ==> endpoint_absent(text),
        !seq_contains(text, CONNECT_FAILED@) && !seq_contains(text, PIPE_UNAVAILABLE@)
            && !seq_contains(text, FILE_NOT_FOUND@) && !seq_contains(text, FILE_NOT_FOUND_CODE@)
            ==> !endpoint_absent(text),
{
}

} // verus!
