use vstd::prelude::*;
use crate::progress::{cracks, mode_cracks};
use crate::run::Mode;

verus! {

/// A run configuration that cannot start.
#[derive(Clone, Copy, Debug, PartialEq, Eq, Structural)]
pub enum ConfigError {
    /// A mode that cracks was given no word list.
    MissingWordlist,
    /// A mode that cracks was given no output directory.
    MissingOutputDir,
}

/// Checks that a mode that cracks has a word list and an output directory;
/// the word list is looked at first.
pub fn check_config(mode: Mode, has_wordlist: bool, has_out_dir: bool) -> (r: Result<(), ConfigError>)
    ensures
        r is Ok <==> (!cracks(mode) || (has_wordlist && has_out_dir)),
        r == Err::<(), ConfigError>(ConfigError::MissingWordlist) <==> (cracks(mode) && !has_wordlist),
        r == Err::<(), ConfigError>(ConfigError::MissingOutputDir) <==> (cracks(mode) && has_wordlist && !has_out_dir),
{
    if mode_cracks(mode) {
        if !has_wordlist {
            return Err(ConfigError::MissingWordlist);
        }
        if !has_out_dir {
            return Err(ConfigError::MissingOutputDir);
        }
    }
    Ok(())
}

} // verus!
