//! Checks that both commands make before any work is done.

use crate::error::{ErrorKind, ResqryptError};
use std::path::PathBuf;
use vstd::prelude::*;

verus! {

/// `Clone` of `std::path::PathBuf` gives an equal path.
pub assume_specification[ <PathBuf as Clone>::clone ](path: &PathBuf) -> (copy: PathBuf)
    ensures
        copy == *path,
;

/// What the check of the two paths of a command yields, by kind: the input
/// must exist, and the output must not. A missing input is reported first.
pub open spec fn spec_check_paths(input_exists: bool, output_exists: bool) -> Result<
    (),
    ErrorKind,
> {
    if !input_exists {
        Err(ErrorKind::NotFound)
    } else if output_exists {
        Err(ErrorKind::AlreadyExists)
    } else {
        Ok(())
    }
}

/// Checks the two paths of a command: the input must exist, and the output
/// must not, so that nothing is overwritten. A missing input is reported
/// first.
pub fn check_paths(input: &PathBuf, input_exists: bool, output: &PathBuf, output_exists: bool) -> (res:
    Result<(), ResqryptError>)
    ensures
        !input_exists ==> res == Err::<(), ResqryptError>(ResqryptError::NotFound(*input)),
        input_exists && output_exists ==> res == Err::<(), ResqryptError>(
            ResqryptError::AlreadyExists(*output),
        ),
        input_exists && !output_exists ==> res is Ok,
        match res {
            Ok(_) => spec_check_paths(input_exists, output_exists) is Ok,
            Err(error) => spec_check_paths(input_exists, output_exists) == Err::<(), ErrorKind>(
                error.kind(),
            ),
        },
{
    if !input_exists {
        return Err(ResqryptError::NotFound(input.clone()));
    }
    if output_exists {
        return Err(ResqryptError::AlreadyExists(output.clone()));
    }
    Ok(())
}

/// Accepts a password that was typed in, unless it is empty.
pub fn accept_password(entered: String) -> (res: Result<String, ResqryptError>)
    ensures
        entered@.len() > 0 ==> res == Ok::<String, ResqryptError>(entered),
        entered@.len() == 0 ==> res is Err && res->Err_0.kind() == ErrorKind::PasswordError,
{
    if entered.as_str().is_empty() {
        return Err(ResqryptError::PasswordError("Password cannot be empty".to_string()));
    }
    Ok(entered)
}

/// Accepts a password that was typed in twice, unless the two differ.
pub fn confirm_password(password: String, confirmation: &String) -> (res: Result<
    String,
    ResqryptError,
>)
    ensures
        password@ == confirmation@ ==> res == Ok::<String, ResqryptError>(password),
        password@ != confirmation@ ==> res is Err && res->Err_0.kind()
            == ErrorKind::PasswordError,
{
    if password != *confirmation {
        return Err(ResqryptError::PasswordError("Passwords do not match".to_string()));
    }
    Ok(password)
}

} // verus!
