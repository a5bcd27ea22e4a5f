//! Engine initialization configuration.
//!
//! The engine's initialization call takes a sample rate, a voice-database
//! directory, a timeout, a license path and an auth seed.  The paths and
//! the seed are platform-encoded byte strings here, without a terminating
//! NUL; whoever makes the native call converts them.

use vstd::prelude::*;

verus! {

/// Initialization settings handed to the engine, as plain values.
#[derive(Debug, Clone)]
pub struct Config {
    pub hz_voice_db: u32,
    pub dir_voice_dbs: Vec<u8>,
    pub msec_timeout: u32,
    pub path_license: Vec<u8>,
    pub code_auth_seed: Vec<u8>,
    pub len_auth_seed: u32,
}

/// The caller's three locations, from which a full configuration is
/// built.
#[derive(Debug, Clone)]
pub struct ConfigFactory {
    pub dir_voice_dbs: Vec<u8>,
    pub path_license: Vec<u8>,
    pub code_auth_seed: Vec<u8>,
}

impl ConfigFactory {
    /// Build the full configuration: the caller's locations pass through
    /// unchanged, under the fixed defaults — a 44100 Hz voice database, a
    /// 1000 ms timeout, and a zero-length auth seed.
    pub fn build(&self) -> (c: Config)
        ensures
            c.hz_voice_db == 44100,
            c.msec_timeout == 1000,
            c.len_auth_seed == 0,
            c.dir_voice_dbs@ == self.dir_voice_dbs@,
            c.path_license@ == self.path_license@,
            c.code_auth_seed@ == self.code_auth_seed@,
    {
        let dir_voice_dbs = self.dir_voice_dbs.clone();
        let path_license = self.path_license.clone();
        let code_auth_seed = self.code_auth_seed.clone();
        proof {
            assert(dir_voice_dbs@ =~= self.dir_voice_dbs@);
            assert(path_license@ =~= self.path_license@);
            assert(code_auth_seed@ =~= self.code_auth_seed@);
        }
        Config {
            hz_voice_db: 44100,
            dir_voice_dbs,
            msec_timeout: 1000,
            path_license,
            code_auth_seed,
            len_auth_seed: 0,
        }
    }
}

} // verus!
