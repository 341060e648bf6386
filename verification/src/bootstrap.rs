//! Setting up the environment from a dotfile before any variable is loaded.

use crate::error::EnvarError;
use vstd::prelude::*;

verus! {

/// Reports the outcome of loading the dotfile. `outcome` is what the dotfile
/// loader returned: the path of the file it loaded, or its own account of why
/// it could not. The path is handed on as it is; a failure becomes a
/// [`EnvarError::DotfileError`] that carries the loader's words unchanged.
pub fn init<P>(outcome: Result<P, String>) -> (r: Result<P, EnvarError>)
    ensures
        match outcome {
            Ok(path) => r == Ok::<P, EnvarError>(path),
            Err(message) => r == Err::<P, EnvarError>(EnvarError::DotfileError { message }),
        },
{
    match outcome {
        Ok(path) => Ok(path),
        Err(message) => Err(EnvarError::DotfileError { message }),
    }
}

} // verus!
