use vstd::prelude::*;
use crate::error::GameResult;

verus! {

/// The audio subsystem's engine-side state: whether playback is suspended
/// by the platform. The sound device itself lives outside this core.
pub struct Audio {
    suspended: bool,
}

impl Audio {
    pub closed spec fn spec_suspended(&self) -> bool {
        self.suspended
    }

    pub fn new(config: AudioConfig) -> (r: GameResult<Audio>)
        ensures
            r is Ok,
            r matches Ok(a) ==> !a.spec_suspended(),
    {
        let _ = config;
        Ok(Self { suspended: false })
    }

    pub fn suspend(&mut self)
        ensures
            final(self).spec_suspended(),
    {
        self.suspended = true;
    }

    pub fn resume(&mut self)
        ensures
            !final(self).spec_suspended(),
    {
        self.suspended = false;
    }

    pub fn is_suspended(&self) -> (r: bool)
        ensures
            r == self.spec_suspended(),
    {
        self.suspended
    }
}

#[derive(Debug, Clone)]
pub struct AudioConfig {}

impl AudioConfig {
    pub fn new() -> (r: Self) {
        Self {  }
    }
}

} // verus!
