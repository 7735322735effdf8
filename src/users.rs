use vstd::prelude::*;

use vstd::utf8::encode_utf8;

verus! {

/// A registry account as stored: the salt as upper-case hex, the encoded
/// password hash, and whether the account is active.
#[derive(Debug, Clone, PartialEq, Eq)]
pub struct User {
    pub name: String,
    pub salt: String,
    pub hash: String,
    pub active: i32,
}

/// An account as listed in a users file.
#[derive(Debug, Clone, PartialEq, Eq)]
pub struct FileUser {
    pub name: String,
    pub password: String,
}

/// The accounts of a users file.
#[derive(Debug, Clone, PartialEq, Eq)]
pub struct FileUsers {
    pub users: Vec<FileUser>,
}

/// Why an account operation failed.
#[derive(Debug, Clone, Copy, PartialEq, Eq, Structural)]
pub enum UserError {
    /// The password could not be hashed, or a stored hash could not be read.
    Hashing,
    /// The name and password do not match a stored account.
    InvalidCredentials,
    /// The account store failed.
    Storage,
}

/// Bytes of salt drawn for each account.
pub const CREDENTIAL_LEN: usize = 512;

#[verifier::external_type_specification]
#[verifier::external_body]
pub struct ExArgon2Error(argon2::Error);

/// Relies on rand's `random`: a value drawn from the thread-local generator.
pub assume_specification<T>[ rand::random::<T> ]() -> (r: T)
    where
        rand::distributions::Standard: rand::distributions::Distribution<T>,
;

/// Draws a fresh random salt of `CREDENTIAL_LEN` bytes.
pub fn get_salt() -> (r: Vec<u8>)
    ensures
        r@.len() == CREDENTIAL_LEN,
{
    let mut salt: Vec<u8> = Vec::new();
    let mut i: usize = 0;
    while i < CREDENTIAL_LEN
        invariant
            0 <= i <= CREDENTIAL_LEN,
            salt@.len() == i,
        decreases CREDENTIAL_LEN - i,
    {
        salt.push(rand::random::<u8>());
        i = i + 1;
    }
    salt
}

/// The upper-case hex digit for a value below sixteen.
pub open spec fn hex_upper_digit(v: u8) -> char {
    if v < 10 {
        (('0' as u8) + v) as char
    } else {
        (('A' as u8) + (v - 10) as u8) as char
    }
}

/// Base16 in upper case: two digits per byte, high half first.
pub open spec fn hex_upper(b: Seq<u8>) -> Seq<char>
    decreases b.len(),
{
    if b.len() == 0 {
        Seq::empty()
    } else {
        hex_upper(b.drop_last()) + seq![
            hex_upper_digit(b.last() / 16),
            hex_upper_digit(b.last() % 16),
        ]
    }
}

/// Relies on data_encoding's `HEXUPPER.encode`: base16 with upper-case digits.
#[verifier::external_body]
fn encode_hex_upper(b: &[u8]) -> (r: String)
    ensures
        r@ == hex_upper(b@),
{
    data_encoding::HEXUPPER.encode(b)
}

/// The encoded argon2 hash of a password with a salt, under the default
/// configuration.
pub uninterp spec fn argon2_encoded(pwd: Seq<u8>, salt: Seq<u8>) -> Seq<char>;

/// Whether a password matches an encoded argon2 hash.
pub uninterp spec fn argon2_matches(encoded: Seq<char>, pwd: Seq<u8>) -> bool;

/// Relies on argon2's `hash_encoded` with `Config::default()`: the result is
/// a function of the password and the salt.
#[verifier::external_body]
fn argon2_hash_encoded(pwd: &[u8], salt: &[u8]) -> (r: Result<String, argon2::Error>)
    ensures
        r matches Ok(h) ==> h@ == argon2_encoded(pwd@, salt@),
{
    argon2::hash_encoded(pwd, salt, &argon2::Config::default())
}

/// Relies on argon2's `verify_encoded`: whether the password matches the
/// encoded hash, or an error when the hash cannot be decoded.
#[verifier::external_body]
fn argon2_verify_encoded(encoded: &str, pwd: &[u8]) -> (r: Result<bool, argon2::Error>)
    ensures
        r matches Ok(b) ==> b == argon2_matches(encoded@, pwd@),
{
    argon2::verify_encoded(encoded, pwd)
}

/// The argon2 hash of `password` with `salt`.
pub fn get_hash_from_password(password: String, salt: Vec<u8>) -> (r: Result<String, UserError>)
    ensures
        r matches Ok(h) ==> h@ == argon2_encoded(encode_utf8(password@), salt@),
        r is Err ==> r == Err::<String, UserError>(UserError::Hashing),
{
    match argon2_hash_encoded(password.as_str().as_bytes(), salt.as_slice()) {
        Ok(h) => Ok(h),
        Err(_) => Err(UserError::Hashing),
    }
}

/// Whether `password` matches the stored `hash`; an empty hash, which is what
/// an unknown account has, matches nothing.
pub fn verify_password(password: String, hash: String) -> (r: Result<bool, UserError>)
    ensures
        hash@.len() == 0 ==> r == Ok::<bool, UserError>(false),
        hash@.len() != 0 ==> (r matches Ok(b) ==> b == argon2_matches(
            hash@,
            encode_utf8(password@),
        )),
        r is Err ==> r == Err::<bool, UserError>(UserError::Hashing),
{
    if hash.as_str().is_empty() {
        return Ok(false);
    }
    match argon2_verify_encoded(hash.as_str(), password.as_str().as_bytes()) {
        Ok(b) => Ok(b),
        Err(_) => Err(UserError::Hashing),
    }
}

impl User {
    /// A new active account: a fresh salt, stored as upper-case hex, and the
    /// password's hash with that salt.
    pub fn new(username: String, password: String) -> (r: Result<User, UserError>)
        ensures
            r matches Ok(u) ==> {
                &&& u.name@ == username@
                &&& u.active == 1
                &&& u.salt@.len() == 2 * CREDENTIAL_LEN
                &&& exists|salt: Seq<u8>|
                    salt.len() == CREDENTIAL_LEN && u.salt@ == hex_upper(salt) && u.hash@
                        == argon2_encoded(encode_utf8(password@), salt)
            },
            r is Err ==> r == Err::<User, UserError>(UserError::Hashing),
    {
        let salt = get_salt();
        let salt_hex = encode_hex_upper(salt.as_slice());
        let ghost drawn = salt@;
        proof {
            lemma_hex_upper_len(drawn);
        }
        let hash = match get_hash_from_password(password, salt) {
            Ok(h) => h,
            Err(e) => {
                return Err(e);
            },
        };
        Ok(User { name: username, salt: salt_hex, hash, active: 1 })
    }

    /// Checks a password against the stored account `record`, if there is
    /// one; the account is handed back when the password matches it.
    pub fn authorize(record: Option<User>, password: String) -> (r: Result<User, UserError>)
        ensures
            record is None ==> r == Err::<User, UserError>(UserError::InvalidCredentials),
            record matches Some(u) ==> {
                &&& u.hash@.len() == 0 ==> r == Err::<User, UserError>(
                    UserError::InvalidCredentials,
                )
                &&& r is Ok ==> r == Ok::<User, UserError>(u) && argon2_matches(
                    u.hash@,
                    encode_utf8(password@),
                )
                &&& u.hash@.len() != 0 && r is Err ==> (r == Err::<User, UserError>(
                    UserError::Hashing,
                ) || (r == Err::<User, UserError>(UserError::InvalidCredentials)
                    && !argon2_matches(u.hash@, encode_utf8(password@))))
            },
    {
        match record {
            None => Err(UserError::InvalidCredentials),
            Some(u) => {
                match verify_password(password, u.hash.clone()) {
                    Ok(true) => Ok(u),
                    Ok(false) => Err(UserError::InvalidCredentials),
                    Err(e) => Err(e),
                }
            },
        }
    }
}

proof fn lemma_hex_upper_len(b: Seq<u8>)
    ensures
        hex_upper(b).len() == 2 * b.len(),
    decreases b.len(),
{
    if b.len() > 0 {
        lemma_hex_upper_len(b.drop_last());
    }
}

} // verus!
