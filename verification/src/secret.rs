//! Secrets: their type tag, the stored record, and how raw secret
//! values are generated and encoded before upload.

use vstd::prelude::*;
use vstd::string::StringExecFns;
use crate::error::CommandError;
use crate::text;
use rand::RngExt;

verus! {

/// The kind of a secret: a raw value, a TLS certificate, or a
/// username/password pair.
#[derive(Clone, Copy, PartialEq, Eq, Structural, Debug)]
pub enum SecretType {
    Raw,
    Certificate,
    Credentials,
}

impl SecretType {
    /// The lower-case name this type serializes to.
    pub open spec fn spec_name(self) -> Seq<char> {
        match self {
            SecretType::Raw => "raw"@,
            SecretType::Certificate => "certificate"@,
            SecretType::Credentials => "credentials"@,
        }
    }

    /// The type's wire name.
    pub fn as_str(&self) -> (r: &str)
        ensures
            r@ == self.spec_name(),
    {
        match self {
            SecretType::Raw => "raw",
            SecretType::Certificate => "certificate",
            SecretType::Credentials => "credentials",
        }
    }

    /// Whether this is the raw type, the only one whose value may be
    /// generated randomly.
    pub fn is_raw(&self) -> (r: bool)
        ensures
            r == (self is Raw),
    {
        match self {
            SecretType::Raw => true,
            _ => false,
        }
    }

    /// Parses a wire name back to a type; anything but the three known
    /// names is rejected, echoing the offending text.
    pub fn from_str(s: &str) -> (r: Result<SecretType, String>)
        ensures
            s@ == "raw"@ ==> r == Ok::<SecretType, String>(SecretType::Raw),
            s@ == "certificate"@ ==> r == Ok::<SecretType, String>(SecretType::Certificate),
            s@ == "credentials"@ ==> r == Ok::<SecretType, String>(SecretType::Credentials),
            s@ != "raw"@ && s@ != "certificate"@ && s@ != "credentials"@ ==> (r matches Err(e)
                && e@ == "Expected 'raw', 'certificate', or 'credentials'. Found '"@ + s@ + "'"@),
    {
        proof {
            reveal_strlit("raw");
            reveal_strlit("certificate");
            reveal_strlit("credentials");
            assert("raw"@.len() == 3);
            assert("certificate"@.len() == 11);
            assert("credentials"@.len() == 11);
            assert("certificate"@[1] == 'e');
            assert("credentials"@[1] == 'r');
        }
        if text::str_eq(s, "raw") {
            Ok(SecretType::Raw)
        } else if text::str_eq(s, "certificate") {
            Ok(SecretType::Certificate)
        } else if text::str_eq(s, "credentials") {
            Ok(SecretType::Credentials)
        } else {
            Err(
                "Expected 'raw', 'certificate', or 'credentials'. Found '".to_owned().concat(
                    s,
                ).concat("'"),
            )
        }
    }
}

/// A stored secret as the service reports it; the creation time is
/// kept as seconds since the Unix epoch.
pub struct Secret {
    pub name: String,
    pub ty: SecretType,
    pub created_at: i64,
}

/// Only a raw secret may be generated randomly; asking to generate any
/// other type is refused, naming the type in the message.
pub fn check_random_generation(ty: &SecretType, generate_requested: bool) -> (r: Result<
    (),
    CommandError,
>)
    ensures
        generate_requested && !(ty is Raw) ==> (r matches Err(e) && e.message@ == ty.spec_name()
            + " cannot be generated randomly."@ && e.help@ == Seq::<char>::empty()),
        !generate_requested || ty is Raw ==> r is Ok,
{
    if generate_requested && !ty.is_raw() {
        let msg = ty.as_str().to_owned().concat(" cannot be generated randomly.");
        Err(CommandError { message: msg, help: String::new() })
    } else {
        Ok(())
    }
}

/// An ASCII letter or digit, as a byte.
pub open spec fn is_alnum_byte(b: u8) -> bool {
    (48 <= b <= 57) || (65 <= b <= 90) || (97 <= b <= 122)
}

/// An ASCII letter or digit, as a character.
pub open spec fn is_alnum_char(c: char) -> bool {
    (48 <= c as u32 <= 57) || (65 <= c as u32 <= 90) || (97 <= c as u32 <= 122)
}

/// Relies on rand's `Alphanumeric` distribution: every sample is an
/// ASCII letter or digit.  Nothing more can be said of a random value.
#[verifier::external_body]
fn random_alphanumeric_byte() -> (b: u8)
    ensures
        is_alnum_byte(b),
{
    let mut rng = rand::rng();
    rng.sample(rand::distr::Alphanumeric)
}

/// Relies on `String::from_utf8`: bytes below 128 are valid UTF-8 and
/// decode to the same characters.
#[verifier::external_body]
fn ascii_bytes_to_string(bytes: Vec<u8>) -> (r: String)
    requires
        forall|i: int| 0 <= i < bytes@.len() ==> bytes@[i] < 128,
    ensures
        r@.len() == bytes@.len(),
        forall|i: int| 0 <= i < bytes@.len() ==> r@[i] == bytes@[i] as char,
{
    match String::from_utf8(bytes) {
        Ok(s) => s,
        Err(_) => String::new(),
    }
}

/// Draws a random secret of `num_bytes` ASCII letters and digits.
pub fn generate_secret(num_bytes: usize) -> (r: String)
    ensures
        r@.len() == num_bytes,
        forall|i: int| 0 <= i < r@.len() ==> is_alnum_char(#[trigger] r@[i]),
{
    let mut bytes: Vec<u8> = Vec::new();
    let mut i: usize = 0;
    while i < num_bytes
        invariant
            i <= num_bytes,
            bytes@.len() == i,
            forall|j: int| 0 <= j < i ==> is_alnum_byte(#[trigger] bytes@[j]),
        decreases num_bytes - i,
    {
        bytes.push(random_alphanumeric_byte());
        i = i + 1;
    }
    ascii_bytes_to_string(bytes)
}

/// The base64 text that the standard alphabet with padding assigns to
/// the UTF-8 encoding of `s`.
pub uninterp spec fn b64_of(s: Seq<char>) -> Seq<char>;

/// Relies on base64's `STANDARD` engine: the encoding is a function of
/// the input bytes alone, and emits four characters for every block of
/// up to three input bytes.
#[verifier::external_body]
fn base64_encode(s: &String) -> (r: String)
    ensures
        r@ == b64_of(s@),
        vstd::string::string_is_ascii(s) ==> r@.len() == 4 * ((s@.len() + 2) / 3),
{
    base64::Engine::encode(&base64::engine::general_purpose::STANDARD, s.as_bytes())
}

/// Encodes a secret value for upload: the base64 form of its text.
pub fn encode_secret_value(s: &String) -> (r: String)
    ensures
        r@ == b64_of(s@),
        vstd::string::string_is_ascii(s) ==> r@.len() == 4 * ((s@.len() + 2) / 3),
{
    base64_encode(s)
}

} // verus!
