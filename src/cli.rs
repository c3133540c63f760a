use vstd::prelude::*;

verus! {

/// The command line, as plain values.
pub struct Args {
    /// MML text, MML file (.mml), MIDI file (.mid), or YM2151 log (.json) to play
    pub input: Option<String>,
    /// Run as server in idle state (no initial playback)
    pub server: bool,
    /// Stop playback on running server
    pub stop: bool,
    /// Shutdown the running server
    pub shutdown: bool,
    /// Enable verbose output (useful with --server for debugging)
    pub verbose: bool,
    /// Output WAV file path (instead of playing audio)
    pub output: Option<String>,
}

} // verus!
