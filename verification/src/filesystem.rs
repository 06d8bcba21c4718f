use vstd::prelude::*;
use crate::error::GameResult;

verus! {

/// The filesystem subsystem handle. Reading files is platform I/O and
/// lives outside this core; the handle only anchors the configuration.
pub struct Filesystem {}

impl Filesystem {
    pub fn new(config: FilesystemConfig) -> (r: GameResult<Filesystem>)
        ensures
            r is Ok,
    {
        let _ = config;
        Ok(Self {  })
    }
}

#[derive(Debug, Clone)]
pub struct FilesystemConfig {}

impl FilesystemConfig {
    pub fn new() -> (r: Self) {
        Self {  }
    }
}

} // verus!
