//! The arguments of the two commands, as plain values.

use crate::crypto::kdf::KdfParams;
use crate::error::{ErrorKind, ResqryptError};
use std::path::PathBuf;
use vstd::prelude::*;

verus! {

/// A parsed command line.
#[derive(Debug)]
pub struct Cli {
    pub command: Commands,
}

/// The two commands.
#[derive(Debug)]
pub enum Commands {
    /// Encrypt a file or directory.
    Encrypt(EncryptArgs),
    /// Decrypt a container.
    Decrypt(DecryptArgs),
}

/// Arguments of the encrypt command.
#[derive(Debug)]
pub struct EncryptArgs {
    /// Path of the file or directory to encrypt.
    pub input: PathBuf,
    /// Path of the container to write.
    pub output: PathBuf,
    /// The password, where it was given and need not be asked for.
    pub password: Option<String>,
    /// Argon2id memory cost in MiB.
    pub argon2_memory: u32,
    /// Argon2id number of passes.
    pub argon2_iterations: u32,
    /// Argon2id degree of parallelism.
    pub argon2_parallelism: u32,
    /// Whether to report sizes when done.
    pub verbose: bool,
}

/// Arguments of the decrypt command.
#[derive(Debug)]
pub struct DecryptArgs {
    /// Path of the container to read.
    pub input: PathBuf,
    /// Path of the file or directory to write.
    pub output: PathBuf,
    /// The password, where it was given and need not be asked for.
    pub password: Option<String>,
    /// Whether to report sizes when done.
    pub verbose: bool,
}

impl EncryptArgs {
    /// Whether the memory cost, given in MiB, can be stored in KiB.
    pub open spec fn memory_fits(&self) -> bool {
        self.argon2_memory <= KdfParams::MAX_MEMORY_MB
    }

    /// The cost parameters these arguments ask for.
    pub open spec fn spec_kdf_params(&self) -> KdfParams {
        KdfParams {
            memory_cost: (self.argon2_memory * 1024) as u32,
            time_cost: self.argon2_iterations,
            parallelism: self.argon2_parallelism,
        }
    }

    /// The cost parameters these arguments ask for, or a crypto error where
    /// the memory cost in KiB does not fit in 32 bits or Argon2id does not
    /// accept the costs.
    pub fn kdf_params(&self) -> (res: Result<KdfParams, ResqryptError>)
        ensures
            self.memory_fits() && self.spec_kdf_params().accepted() ==> res == Ok::<
                KdfParams,
                ResqryptError,
            >(self.spec_kdf_params()),
            !self.memory_fits() || !self.spec_kdf_params().accepted() ==> res is Err
                && res->Err_0.kind() == ErrorKind::CryptoError,
    {
        KdfParams::new(self.argon2_memory, self.argon2_iterations, self.argon2_parallelism)
    }
}

} // verus!
