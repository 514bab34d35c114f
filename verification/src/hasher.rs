//! The credential hasher: salted Argon2id hashes in the PHC string format.
//!
//! The hasher is a plain value that holds the cost parameters. It is built
//! once and shared read-only. Every call of [`CredentialHasher::hash`] draws
//! fresh entropy for the salt from the operating system.

use vstd::prelude::*;
use argon2::password_hash::{PasswordHasher, SaltString};
use argon2::{Algorithm, Argon2, Params, Version};
use rand_core::{OsRng, RngCore};
use crate::error::{Error, ErrorView};
use crate::text::owned;

verus! {

/// The number of random bytes in a salt.
pub const SALT_BYTES: usize = 16;

/// The greatest degree of parallelism that Argon2 admits.
pub const MAX_LANES: u32 = 0xFF_FFFF;

/// The unpadded Base64 text of a salt, as `SaltString::encode_b64` gives it
/// for these bytes, or the description of its error.
pub uninterp spec fn salt_text(bytes: Seq<u8>) -> Result<Seq<char>, Seq<char>>;

/// The PHC string that Argon2id, version 19, without secret and with the
/// default output length, gives for this password and salt under these cost
/// parameters, or the description of its error.
pub uninterp spec fn argon2_phc(
    memory_kib: u32,
    iterations: u32,
    lanes: u32,
    password: Seq<char>,
    salt: Seq<char>,
) -> Result<Seq<char>, Seq<char>>;

/// The characters of both sides of a result of strings.
pub open spec fn result_chars(r: Result<String, String>) -> Result<Seq<char>, Seq<char>> {
    match r {
        Ok(s) => Ok(s@),
        Err(s) => Err(s@),
    }
}

/// The characters of a hash, or the view of the error, of a hashing result.
pub open spec fn hashed_view(r: Result<String, Error>) -> Result<Seq<char>, ErrorView> {
    match r {
        Ok(s) => Ok(s@),
        Err(e) => Err(e@),
    }
}

/// Calls `rand_core::OsRng::try_fill_bytes` on a buffer of `len` bytes.
/// Trusted: on success the buffer that comes back has that length. Nothing
/// is claimed of the bytes themselves, which differ from call to call; a
/// failure of the operating system's source comes back as its description.
#[verifier::external_body]
fn os_entropy(len: usize) -> (bytes: Result<Vec<u8>, String>)
    ensures
        bytes matches Ok(b) ==> b@.len() == len,
{
    let mut buffer = vec![0u8; len];
    match OsRng.try_fill_bytes(&mut buffer) {
        Ok(()) => Ok(buffer),
        Err(e) => Err(e.to_string()),
    }
}

/// Calls `password_hash::SaltString::encode_b64`. Trusted: the text that
/// comes back is [`salt_text`] of the bytes, a function of the bytes alone.
#[verifier::external_body]
fn encode_salt(bytes: &Vec<u8>) -> (salt: Result<String, String>)
    ensures
        result_chars(salt) == salt_text(bytes@),
{
    match SaltString::encode_b64(bytes.as_slice()) {
        Ok(salt) => Ok(salt.as_str().to_owned()),
        Err(e) => Err(e.to_string()),
    }
}

/// Calls `argon2::Argon2::hash_password` on an instance made by
/// `Argon2::new` with the default algorithm and version and
/// `Params::new(memory_kib, iterations, lanes, None)`, with the salt parsed by
/// `SaltString::from_b64`, and renders the hash as a PHC string. Trusted: the
/// outcome is [`argon2_phc`] of the arguments, a function of them alone. The
/// bound on `lanes` keeps the product that `Params::new` computes within
/// `u32`.
#[verifier::external_body]
fn argon2_encode(memory_kib: u32, iterations: u32, lanes: u32, password: &str, salt: &str) -> (encoded:
    Result<String, String>)
    requires
        lanes <= MAX_LANES,
    ensures
        result_chars(encoded) == argon2_phc(memory_kib, iterations, lanes, password@, salt@),
{
    let params = match Params::new(memory_kib, iterations, lanes, None) {
        Ok(params) => params,
        Err(e) => return Err(e.to_string()),
    };
    let salt = match SaltString::from_b64(salt) {
        Ok(salt) => salt,
        Err(e) => return Err(e.to_string()),
    };
    let argon2 = Argon2::new(Algorithm::default(), Version::default(), params);
    match argon2.hash_password(password.as_bytes(), &salt) {
        Ok(hash) => Ok(hash.to_string()),
        Err(e) => Err(e.to_string()),
    }
}

/// The cost parameters of the password hash.
#[derive(Debug, Clone, Copy, PartialEq, Eq)]
pub struct CredentialHasher {
    /// Memory in KiB; every hash allocates this much while it is computed.
    pub memory_kib: u32,
    /// Number of passes.
    pub iterations: u32,
    /// Degree of parallelism.
    pub lanes: u32,
}

impl CredentialHasher {
    /// The hash of `plaintext` under a salt made of `entropy`: the PHC string,
    /// or an internal error with the description of what failed. A degree of
    /// parallelism above [`MAX_LANES`] is refused before anything is computed.
    pub open spec fn encoded(self, plaintext: Seq<char>, entropy: Seq<u8>) -> Result<
        Seq<char>,
        ErrorView,
    > {
        if self.lanes > MAX_LANES {
            Err(ErrorView::InternalError("parallelism out of range"@))
        } else {
            match salt_text(entropy) {
                Err(detail) => Err(ErrorView::InternalError(detail)),
                Ok(salt) => match argon2_phc(
                    self.memory_kib,
                    self.iterations,
                    self.lanes,
                    plaintext,
                    salt,
                ) {
                    Ok(hash) => Ok(hash),
                    Err(detail) => Err(ErrorView::InternalError(detail)),
                },
            }
        }
    }

    /// Whether `hash` is what this hasher gives for `plaintext` under some
    /// salt of [`SALT_BYTES`] bytes.
    pub open spec fn may_produce(self, plaintext: Seq<char>, hash: Seq<char>) -> bool {
        exists|entropy: Seq<u8>|
            entropy.len() == SALT_BYTES && #[trigger] self.encoded(plaintext, entropy) == Ok::<
                Seq<char>,
                ErrorView,
            >(hash)
    }

    /// Whether `hashed` is a possible outcome of hashing `plaintext`: a hash
    /// that this hasher gives for it, or an internal error.
    pub open spec fn yields(self, plaintext: Seq<char>, hashed: Result<Seq<char>, ErrorView>) -> bool {
        match hashed {
            Ok(hash) => self.may_produce(plaintext, hash),
            Err(e) => e is InternalError,
        }
    }

    /// A hasher with the given cost parameters.
    pub fn new(memory_kib: u32, iterations: u32, lanes: u32) -> (hasher: CredentialHasher)
        ensures
            hasher == (CredentialHasher { memory_kib, iterations, lanes }),
    {
        CredentialHasher { memory_kib, iterations, lanes }
    }

    /// Hashes `plaintext` under a salt made of the given bytes. The caller
    /// answers for the bytes: [`CredentialHasher::hash`] is the entry point
    /// that draws them fresh.
    pub fn hash_with_entropy(&self, plaintext: &str, entropy: &Vec<u8>) -> (hashed: Result<
        String,
        Error,
    >)
        ensures
            hashed_view(hashed) == self.encoded(plaintext@, entropy@),
    {
        if self.lanes > MAX_LANES {
            return Err(Error::InternalError(owned("parallelism out of range")));
        }
        let salt = match encode_salt(entropy) {
            Ok(salt) => salt,
            Err(detail) => {
                return Err(Error::InternalError(detail));
            },
        };
        match argon2_encode(self.memory_kib, self.iterations, self.lanes, plaintext, salt.as_str()) {
            Ok(hash) => Ok(hash),
            Err(detail) => Err(Error::InternalError(detail)),
        }
    }

    /// Hashes `plaintext` under a salt drawn fresh from the operating system.
    /// On success the hash is one that this hasher gives for `plaintext`
    /// under a salt of [`SALT_BYTES`] bytes; every failure is internal.
    pub fn hash(&self, plaintext: &str) -> (hashed: Result<String, Error>)
        ensures
            self.yields(plaintext@, hashed_view(hashed)),
    {
        let entropy = match os_entropy(SALT_BYTES) {
            Ok(entropy) => entropy,
            Err(detail) => {
                return Err(Error::InternalError(detail));
            },
        };
        let hashed = self.hash_with_entropy(plaintext, &entropy);
        proof {
            if hashed is Ok {
                assert(self.encoded(plaintext@, entropy@) == Ok::<Seq<char>, ErrorView>(
                    hashed->Ok_0@,
                ));
            }
        }
        hashed
    }
}

} // verus!
