//! Subresource integrity: digest algorithms, digests of outputs and their attribute values.
use crate::attrs::Attrs;
use crate::text::{str_eq, to_owned_string};
use base64::display::Base64Display;
use base64::engine::general_purpose::STANDARD;
use sha2::{Digest, Sha256, Sha384, Sha512};
use vstd::prelude::*;

verus! {

/// Integrity type for subresource protection.
#[derive(Copy, Clone, Eq, PartialEq, Structural, Hash, Debug)]
pub enum IntegrityType {
    Disabled,
    Sha256,
    Sha384,
    Sha512,
}

/// The error of parsing an integrity type.
#[derive(Copy, Clone, Eq, PartialEq, Structural, Debug)]
pub enum IntegrityTypeParseError {
    InvalidValue,
}

impl IntegrityTypeParseError {
    /// The error message.
    pub fn to_string(&self) -> (res: String)
        ensures
            res@ == "invalid value"@,
    {
        to_owned_string("invalid value")
    }
}

/// The integrity type named by an attribute value; the empty value means SHA-384.
pub open spec fn parse_integrity(s: Seq<char>) -> Option<IntegrityType> {
    if s == "none"@ {
        Some(IntegrityType::Disabled)
    } else if s == "sha256"@ {
        Some(IntegrityType::Sha256)
    } else if s == "sha384"@ || s.len() == 0 {
        Some(IntegrityType::Sha384)
    } else if s == "sha512"@ {
        Some(IntegrityType::Sha512)
    } else {
        None
    }
}

/// The textual name of an integrity type.
pub open spec fn integrity_name(t: IntegrityType) -> Seq<char> {
    match t {
        IntegrityType::Disabled => "none"@,
        IntegrityType::Sha256 => "sha256"@,
        IntegrityType::Sha384 => "sha384"@,
        IntegrityType::Sha512 => "sha512"@,
    }
}

impl IntegrityType {
    /// The default (SHA-384), unless it's disabled.
    pub fn default_unless(disabled: bool) -> (res: IntegrityType)
        ensures
            res == (if disabled { IntegrityType::Disabled } else { IntegrityType::Sha384 }),
    {
        if disabled {
            IntegrityType::Disabled
        } else {
            IntegrityType::Sha384
        }
    }

    /// Parse an integrity type: `none`, `sha256`, `sha384` (or empty), `sha512`.
    pub fn from_str(s: &str) -> (res: Result<IntegrityType, IntegrityTypeParseError>)
        ensures
            match parse_integrity(s@) {
                Some(t) => res == Ok::<IntegrityType, IntegrityTypeParseError>(t),
                None => res == Err::<IntegrityType, IntegrityTypeParseError>(
                    IntegrityTypeParseError::InvalidValue,
                ),
            },
    {
        if str_eq(s, "none") {
            Ok(IntegrityType::Disabled)
        } else if str_eq(s, "sha256") {
            Ok(IntegrityType::Sha256)
        } else if str_eq(s, "sha384") || s.is_empty() {
            Ok(IntegrityType::Sha384)
        } else if str_eq(s, "sha512") {
            Ok(IntegrityType::Sha512)
        } else {
            Err(IntegrityTypeParseError::InvalidValue)
        }
    }

    /// The integrity setting of an element: its `data-integrity` attribute if present,
    /// otherwise the default unless SRI is disabled by `no_sri`.
    pub fn from_attrs(attrs: &Attrs, no_sri: bool) -> (res: Result<IntegrityType, IntegrityTypeParseError>)
        requires
            attrs.wf(),
        ensures
            match attrs.get_spec("data-integrity"@) {
                Some(v) => match parse_integrity(v) {
                    Some(t) => res == Ok::<IntegrityType, IntegrityTypeParseError>(t),
                    None => res == Err::<IntegrityType, IntegrityTypeParseError>(
                        IntegrityTypeParseError::InvalidValue,
                    ),
                },
                None => res == Ok::<IntegrityType, IntegrityTypeParseError>(
                    if no_sri { IntegrityType::Disabled } else { IntegrityType::Sha384 },
                ),
            },
    {
        match attrs.get("data-integrity") {
            Some(v) => IntegrityType::from_str(v.as_str()),
            None => Ok(IntegrityType::default_unless(no_sri)),
        }
    }

    /// The textual name (what `Display` prints).
    pub fn as_str(&self) -> (res: &'static str)
        ensures
            res@ == integrity_name(*self),
    {
        match self {
            IntegrityType::Disabled => "none",
            IntegrityType::Sha256 => "sha256",
            IntegrityType::Sha384 => "sha384",
            IntegrityType::Sha512 => "sha512",
        }
    }
}

impl Default for IntegrityType {
    fn default() -> (res: IntegrityType)
        ensures
            res == IntegrityType::Sha384,
    {
        IntegrityType::Sha384
    }
}

/// What `sha2::Sha256::digest` returns for some data.
pub uninterp spec fn sha256_of(data: Seq<u8>) -> Seq<u8>;

/// What `sha2::Sha384::digest` returns for some data.
pub uninterp spec fn sha384_of(data: Seq<u8>) -> Seq<u8>;

/// What `sha2::Sha512::digest` returns for some data.
pub uninterp spec fn sha512_of(data: Seq<u8>) -> Seq<u8>;

/// A digit of the standard base64 alphabet: `A`-`Z`, `a`-`z`, `0`-`9`, `+`, `/`.
pub open spec fn base64_digit(v: int) -> char {
    if v < 26 {
        (65 + v) as char
    } else if v < 52 {
        (71 + v) as char
    } else if v < 62 {
        (v - 4) as char
    } else if v == 62 {
        '+'
    } else {
        '/'
    }
}

/// The four digits of a group of three bytes `n` (as one 24-bit number), the last `pad` of them
/// replaced by `=`.
pub open spec fn base64_group(n: int, pad: int) -> Seq<char> {
    seq![
        base64_digit((n / 262144) % 64),
        base64_digit((n / 4096) % 64),
        if pad >= 2 { '=' } else { base64_digit((n / 64) % 64) },
        if pad >= 1 { '=' } else { base64_digit(n % 64) },
    ]
}

/// The standard base64 encoding with padding (RFC 4648): each group of three bytes as four
/// digits, a last group of one or two bytes padded with `=`.
pub open spec fn base64_standard(data: Seq<u8>) -> Seq<char>
    decreases data.len(),
{
    if data.len() == 0 {
        Seq::empty()
    } else if data.len() == 1 {
        base64_group(data[0] * 65536, 2)
    } else if data.len() == 2 {
        base64_group(data[0] * 65536 + data[1] * 256, 1)
    } else {
        base64_group(data[0] * 65536 + data[1] * 256 + data[2], 0) + base64_standard(data.subrange(3, data.len() as int))
    }
}

/// SHA-256 of `data` (`sha2::Sha256::digest`); the digest is 32 bytes long.
#[verifier::external_body]
fn sha256_digest(data: &[u8]) -> (res: Vec<u8>)
    ensures
        res@ == sha256_of(data@),
        res@.len() == 32,
{
    Vec::from_iter(Sha256::digest(data))
}

/// SHA-384 of `data` (`sha2::Sha384::digest`); the digest is 48 bytes long.
#[verifier::external_body]
fn sha384_digest(data: &[u8]) -> (res: Vec<u8>)
    ensures
        res@ == sha384_of(data@),
        res@.len() == 48,
{
    Vec::from_iter(Sha384::digest(data))
}

/// SHA-512 of `data` (`sha2::Sha512::digest`); the digest is 64 bytes long.
#[verifier::external_body]
fn sha512_digest(data: &[u8]) -> (res: Vec<u8>)
    ensures
        res@ == sha512_of(data@),
        res@.len() == 64,
{
    Vec::from_iter(Sha512::digest(data))
}

/// The standard base64 encoding of `data` (`base64::display::Base64Display` with `STANDARD`).
#[verifier::external_body]
fn base64_encode(data: &[u8]) -> (res: String)
    ensures
        res@ == base64_standard(data@),
{
    format!("{}", Base64Display::new(data, &STANDARD))
}

/// The digest of `data` under an integrity type (empty for `Disabled`).
pub open spec fn digest_of(t: IntegrityType, data: Seq<u8>) -> Seq<u8> {
    match t {
        IntegrityType::Disabled => Seq::empty(),
        IntegrityType::Sha256 => sha256_of(data),
        IntegrityType::Sha384 => sha384_of(data),
        IntegrityType::Sha512 => sha512_of(data),
    }
}

/// The value of the `integrity` attribute for a digest: `<type>-<base64 of hash>`, or nothing
/// for the type `Disabled`.
pub open spec fn integrity_value(t: IntegrityType, hash: Seq<u8>) -> Option<Seq<char>> {
    match t {
        IntegrityType::Disabled => None,
        _ => Some(integrity_name(t) + "-"@ + base64_standard(hash)),
    }
}

/// The digest of an output.
#[derive(Clone, Debug)]
pub struct OutputDigest {
    /// The digest algorithm.
    pub integrity: IntegrityType,
    /// The raw hash/digest value.
    pub hash: Vec<u8>,
}

impl Default for OutputDigest {
    fn default() -> (res: OutputDigest)
        ensures
            res.integrity == IntegrityType::Disabled,
            res.hash@ == Seq::<u8>::empty(),
    {
        OutputDigest { integrity: IntegrityType::Disabled, hash: Vec::new() }
    }
}

impl OutputDigest {
    /// Generate the digest of existing input data.
    pub fn generate_from(integrity: IntegrityType, data: &[u8]) -> (res: OutputDigest)
        ensures
            res.integrity == integrity,
            res.hash@ == digest_of(integrity, data@),
            res.hash@.len() == match integrity {
                IntegrityType::Disabled => 0nat,
                IntegrityType::Sha256 => 32nat,
                IntegrityType::Sha384 => 48nat,
                IntegrityType::Sha512 => 64nat,
            },
    {
        let hash = match integrity {
            IntegrityType::Disabled => Vec::new(),
            IntegrityType::Sha256 => sha256_digest(data),
            IntegrityType::Sha384 => sha384_digest(data),
            IntegrityType::Sha512 => sha512_digest(data),
        };
        OutputDigest { integrity, hash }
    }

    /// The value for an SRI attribute.
    pub fn to_integrity_value(&self) -> (res: Option<String>)
        ensures
            match res {
                Some(v) => integrity_value(self.integrity, self.hash@) == Some(v@),
                None => integrity_value(self.integrity, self.hash@) is None,
            },
    {
        match self.integrity {
            IntegrityType::Disabled => None,
            _ => {
                let mut s = to_owned_string(self.integrity.as_str());
                s.append("-");
                let enc = base64_encode(self.hash.as_slice());
                s.append(enc.as_str());
                proof {
                    reveal_strlit("-");
                }
                Some(s)
            },
        }
    }

    /// Insert as an `integrity` attribute into an attribute mapping.
    pub fn insert_into(&self, attrs: &mut Attrs)
        requires
            old(attrs).wf(),
        ensures
            final(attrs).wf(),
            forall|k: Seq<char>|
                #![trigger final(attrs).get_spec(k)]
                final(attrs).get_spec(k) == if k == "integrity"@ && integrity_value(
                    self.integrity,
                    self.hash@,
                ) is Some {
                    integrity_value(self.integrity, self.hash@)
                } else {
                    old(attrs).get_spec(k)
                },
    {
        if let Some(value) = self.to_integrity_value() {
            attrs.insert(to_owned_string("integrity"), value);
        }
    }
}

impl std::str::FromStr for IntegrityType {
    type Err = IntegrityTypeParseError;

    fn from_str(s: &str) -> (res: Result<Self, Self::Err>)
        ensures
            match parse_integrity(s@) {
                Some(t) => res == Ok::<IntegrityType, IntegrityTypeParseError>(t),
                None => res == Err::<IntegrityType, IntegrityTypeParseError>(
                    IntegrityTypeParseError::InvalidValue,
                ),
            },
    {
        IntegrityType::from_str(s)
    }
}

} // verus!
