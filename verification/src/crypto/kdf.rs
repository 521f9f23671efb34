//! Argon2id key derivation.

use crate::crypto::random::random_bytes;
use crate::error::{ErrorKind, ResqryptError};
use crate::kdf_defaults;
use vstd::prelude::*;

verus! {

/// `argon2::Error`, carried through as an opaque value.
#[verifier::external_type_specification]
#[verifier::external_body]
pub struct ExArgon2Error(argon2::Error);

/// The 32-byte key that Argon2id, version 0x13, derives from a password and a
/// salt at the given costs, without secret or associated data: the output of
/// `argon2::Argon2::hash_password_into`.
pub uninterp spec fn argon2id_key(
    password: Seq<u8>,
    salt: Seq<u8>,
    memory_cost: u32,
    time_cost: u32,
    parallelism: u32,
) -> Seq<u8>;

/// The longest password, in bytes, that Argon2id takes.
pub const MAX_PASSWORD_LEN: u64 = 0xFFFF_FFFF;

/// Cost parameters of Argon2id.
///
/// Parameters that [`KdfParams::new`] makes are ones that Argon2id accepts,
/// as [`KdfParams::accepted`] states: at least one lane among them.
/// Parameters read from a header are kept as the header holds them, and
/// [`derive_key`] refuses those that are not accepted.
#[derive(Debug, Clone, Copy)]
pub struct KdfParams {
    /// Memory cost in KiB.
    pub memory_cost: u32,
    /// Number of passes over the memory.
    pub time_cost: u32,
    /// Degree of parallelism.
    pub parallelism: u32,
}

/// Whether Argon2id accepts the three costs: at least 8 KiB of memory for
/// each lane, at least one pass, and between 1 and 2^24 - 1 lanes.
pub open spec fn costs_accepted(memory_cost: u32, time_cost: u32, parallelism: u32) -> bool {
    &&& memory_cost >= 8
    &&& memory_cost >= 8 * parallelism
    &&& time_cost >= 1
    &&& 1 <= parallelism <= 0xFF_FFFF
}

impl Default for KdfParams {
    fn default() -> (params: Self)
        ensures
            params.memory_cost == kdf_defaults::MEMORY_COST,
            params.time_cost == kdf_defaults::TIME_COST,
            params.parallelism == kdf_defaults::PARALLELISM,
    {
        KdfParams {
            memory_cost: kdf_defaults::MEMORY_COST,
            time_cost: kdf_defaults::TIME_COST,
            parallelism: kdf_defaults::PARALLELISM,
        }
    }
}

impl KdfParams {
    /// Whether Argon2id accepts these parameters.
    pub open spec fn accepted(&self) -> bool {
        costs_accepted(self.memory_cost, self.time_cost, self.parallelism)
    }

    /// Whether the working memory, `memory_cost` KiB, can be addressed on
    /// this machine. It always can where addresses have 64 bits.
    pub open spec fn addressable(&self) -> bool {
        self.memory_cost * 1024 <= isize::MAX
    }

    /// Tells whether Argon2id accepts these parameters.
    pub fn is_accepted(&self) -> (accepted: bool)
        ensures
            accepted == self.accepted(),
    {
        self.parallelism >= 1 && self.parallelism <= 0xFF_FFFF && self.time_cost >= 1
            && self.memory_cost >= 8 && self.memory_cost >= 8 * self.parallelism
    }

    /// The largest memory cost in MiB that can be stored, in KiB, in 32 bits.
    pub const MAX_MEMORY_MB: u32 = 4194303;

    /// What making parameters from a memory cost in MiB yields: the
    /// parameters, with the memory cost in KiB, where that fits in 32 bits and
    /// Argon2id accepts the three costs, else a crypto error.
    pub open spec fn spec_new(memory_mb: u32, iterations: u32, parallelism: u32) -> Result<
        KdfParams,
        ErrorKind,
    > {
        if memory_mb <= Self::MAX_MEMORY_MB && costs_accepted(
            (memory_mb * 1024) as u32,
            iterations,
            parallelism,
        ) {
            Ok(
                KdfParams {
                    memory_cost: (memory_mb * 1024) as u32,
                    time_cost: iterations,
                    parallelism,
                },
            )
        } else {
            Err(ErrorKind::CryptoError)
        }
    }

    /// Parameters from a memory cost given in MiB.
    ///
    /// Fails with a crypto error exactly where the memory cost in KiB does
    /// not fit in 32 bits or Argon2id does not accept the costs: no
    /// parameters are made with less than 8 KiB for each lane, without a
    /// pass, without a lane or with more than 2^24 - 1 lanes.
    pub fn new(memory_mb: u32, iterations: u32, parallelism: u32) -> (res: Result<
        Self,
        ResqryptError,
    >)
        ensures
            match res {
                Ok(params) => Self::spec_new(memory_mb, iterations, parallelism) == Ok::<
                    KdfParams,
                    ErrorKind,
                >(params),
                Err(error) => Self::spec_new(memory_mb, iterations, parallelism) == Err::<
                    KdfParams,
                    ErrorKind,
                >(error.kind()),
            },
            res matches Ok(params) ==> params.accepted() && params.parallelism >= 1,
    {
        if memory_mb > Self::MAX_MEMORY_MB {
            return Err(
                ResqryptError::CryptoError(
                    "Invalid Argon2 params: memory cost is too large".to_string(),
                ),
            );
        }
        let params = KdfParams {
            memory_cost: memory_mb * 1024,
            time_cost: iterations,
            parallelism,
        };
        match params.refusal() {
            Some(text) => Err(ResqryptError::CryptoError(text)),
            None => Ok(params),
        }
    }

    /// Why Argon2id does not accept these parameters, or `None` where it
    /// does. The rules are tried in the order in which Argon2id tries them.
    fn refusal(&self) -> (text: Option<String>)
        ensures
            text is None == self.accepted(),
    {
        if self.memory_cost < 8 || (self.memory_cost as u64) < (self.parallelism as u64) * 8 {
            Some("Invalid Argon2 params: memory cost is too small".to_string())
        } else if self.time_cost < 1 {
            Some("Invalid Argon2 params: time cost is too small".to_string())
        } else if self.parallelism < 1 {
            Some("Invalid Argon2 params: not enough threads".to_string())
        } else if self.parallelism > 0xFF_FFFF {
            Some("Invalid Argon2 params: too many threads".to_string())
        } else {
            None
        }
    }
}

/// Whether a key can be derived from `password` at `params`: the parameters
/// are accepted, the memory is addressable and the password is not too long.
pub open spec fn derivable(password: Seq<u8>, params: KdfParams) -> bool {
    params.accepted() && params.addressable() && password.len() <= MAX_PASSWORD_LEN
}

/// What deriving a key from `password` and `salt` at `params` yields: the
/// Argon2id key where one can be derived, else a crypto error.
pub open spec fn spec_derive_key(password: Seq<u8>, salt: Seq<u8>, params: KdfParams) -> Result<
    Seq<u8>,
    ErrorKind,
> {
    if derivable(password, params) {
        Ok(
            argon2id_key(
                password,
                salt,
                params.memory_cost,
                params.time_cost,
                params.parallelism,
            ),
        )
    } else {
        Err(ErrorKind::CryptoError)
    }
}

/// Runs Argon2id: `argon2::Params::new` with the given output length, then
/// `argon2::Argon2::new` for Argon2id in version 0x13, then
/// `hash_password_into` a 32-byte buffer.
///
/// `Params::new` multiplies the parallelism by 8 in 32 bits and
/// `hash_password_into` allocates the working memory in one piece, so both
/// are required to be possible. Given that, the source shows that the call
/// fails exactly where `Params::new` refuses the parameters or the password is
/// longer than 2^32 - 1 bytes (a 32-byte salt and a 32-byte output are always
/// in range), and that the key is a function of the five arguments alone.
/// A machine that runs out of memory ends the process inside the call.
#[verifier::external_body]
fn argon2id(
    password: &[u8],
    salt: &[u8; 32],
    memory_cost: u32,
    time_cost: u32,
    parallelism: u32,
    output_len: usize,
) -> (res: Result<[u8; 32], argon2::Error>)
    requires
        output_len == 32,
        parallelism * 8 <= u32::MAX,
        memory_cost * 1024 <= isize::MAX,
    ensures
        (res is Ok) == (costs_accepted(memory_cost, time_cost, parallelism) && password.len()
            <= MAX_PASSWORD_LEN),
        res matches Ok(key) ==> key@ == argon2id_key(
            password@,
            salt@,
            memory_cost,
            time_cost,
            parallelism,
        ),
{
    let params = argon2::Params::new(memory_cost, time_cost, parallelism, Some(output_len))?;
    let mut key = [0u8; 32];
    argon2::Argon2::new(argon2::Algorithm::Argon2id, argon2::Version::V0x13, params)
        .hash_password_into(password, salt, &mut key)?;
    Ok(key)
}

/// The text of an `argon2::Error`, as its `Display` gives it, behind `prefix`.
#[verifier::external_body]
fn argon2_error_text(prefix: &str, error: &argon2::Error) -> String {
    format!("{}{}", prefix, error)
}

/// A fresh random salt.
pub fn generate_salt() -> [u8; 32] {
    random_bytes::<32>()
}

/// Derives the 32-byte key from `password` and `salt` with Argon2id at the
/// costs of `params`.
///
/// Fails with a crypto error exactly where Argon2id does not accept the
/// parameters, the memory cannot be addressed or the password is too long.
pub fn derive_key(password: &[u8], salt: &[u8; 32], params: &KdfParams) -> (res: Result<
    [u8; 32],
    ResqryptError,
>)
    ensures
        match res {
            Ok(key) => spec_derive_key(password@, salt@, *params) == Ok::<Seq<u8>, ErrorKind>(
                key@,
            ),
            Err(error) => spec_derive_key(password@, salt@, *params) == Err::<Seq<u8>, ErrorKind>(
                error.kind(),
            ),
        },
{
    if params.parallelism > u32::MAX / 8 {
        return Err(
            ResqryptError::CryptoError("Invalid Argon2 params: too many threads".to_string()),
        );
    }
    if params.memory_cost as u64 > isize::MAX as u64 / 1024 {
        return Err(
            ResqryptError::CryptoError("Invalid Argon2 params: memory cost is too large".to_string()),
        );
    }
    match argon2id(
        password,
        salt,
        params.memory_cost,
        params.time_cost,
        params.parallelism,
        kdf_defaults::OUTPUT_LEN,
    ) {
        Ok(key) => Ok(key),
        Err(error) => {
            // Refused parameters are reported as such; any other failure is
            // one of the derivation itself.
            let prefix = if params.is_accepted() {
                "Key derivation failed: "
            } else {
                "Invalid Argon2 params: "
            };
            Err(ResqryptError::CryptoError(argon2_error_text(prefix, &error)))
        },
    }
}

} // verus!
