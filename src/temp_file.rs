use vstd::prelude::*;

verus! {

/// Remembers the temporary file that holds a payload, so that it is removed
/// exactly once.
pub struct TempFileManager {
    pub temp_path: Option<String>,
}

impl TempFileManager {
    pub fn new() -> (r: Self)
        ensures
            r.temp_path is None,
    {
        TempFileManager { temp_path: None }
    }

    /// Records the file just written; a file recorded before is handed back,
    /// to be removed.
    pub fn record(&mut self, path: String) -> (r: Option<String>)
        ensures
            final(self).temp_path == Some(path),
            r == old(self).temp_path,
    {
        let previous = self.temp_path.take();
        self.temp_path = Some(path);
        previous
    }

    /// The file to remove, if any; afterwards nothing is recorded, so a second
    /// cleanup removes nothing.
    pub fn take_for_cleanup(&mut self) -> (r: Option<String>)
        ensures
            final(self).temp_path is None,
            r == old(self).temp_path,
    {
        self.temp_path.take()
    }
}

} // verus!
