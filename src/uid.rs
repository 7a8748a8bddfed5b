//! A ten-byte identifier: five bytes of seconds since the unix epoch, then
//! five random bytes. Written as unpadded URL-safe base64 of 14 characters.
use vstd::prelude::*;
use base64::engine::general_purpose::URL_SAFE_NO_PAD;
use base64::engine::Engine;
use base64::DecodeError as B64Error;
use base64::DecodeSliceError;
use rand::RngCore;

verus! {

/// An identifier for database rows; not cryptographically secure.
#[derive(Clone, Copy, PartialEq, Eq, Hash, Debug)]
pub struct UniqueId([u8; 10]);

/// Why a text is no identifier.
#[derive(Debug, Clone, Copy, PartialEq, Eq, Structural)]
pub enum DecodeError {
    /// A character outside the alphabet, at this offset.
    InvalidByte(usize, u8),
    /// The text has this many bytes, not 14.
    InvalidLength(usize),
    InvalidLastSymbol(usize, u8),
    InvalidPadding,
    /// The text decodes to more than ten bytes.
    TooLong,
}

/// Unpadded URL-safe base64 of some bytes.
pub uninterp spec fn url_b64_encode(b: Seq<u8>) -> Seq<char>;

/// The bytes that an unpadded URL-safe base64 text stands for, if it is one.
pub uninterp spec fn url_b64_decode(s: Seq<char>) -> Option<Seq<u8>>;

/// The value of five bytes read most significant first.
pub open spec fn be40(b: Seq<u8>) -> nat {
    ((((b[0] as nat * 256 + b[1] as nat) * 256 + b[2] as nat) * 256 + b[3] as nat) * 256
        + b[4] as nat)
}

/// Relies on base64's `Engine::encode` with the URL_SAFE_NO_PAD engine.
#[verifier::external_body]
fn encode_url_b64(b: &[u8]) -> (r: String)
    ensures
        r@ == url_b64_encode(b@),
{
    URL_SAFE_NO_PAD.encode(b)
}

/// Relies on base64's `Engine::decode_slice` with the URL_SAFE_NO_PAD engine:
/// it writes the decoded bytes to the front of `out` and returns their number.
#[verifier::external_body]
fn decode_url_b64(s: &str, out: &mut [u8; 10]) -> (r: Result<usize, DecodeError>)
    ensures
        r matches Ok(n) ==> n <= 10 && url_b64_decode(s@) == Some(final(out)@.subrange(0, n as int)),
{
    URL_SAFE_NO_PAD.decode_slice(s, out).map_err(|e| match e {
        DecodeSliceError::DecodeError(B64Error::InvalidByte(i, b)) => DecodeError::InvalidByte(i, b),
        DecodeSliceError::DecodeError(B64Error::InvalidLength(n)) => DecodeError::InvalidLength(n),
        DecodeSliceError::DecodeError(B64Error::InvalidLastSymbol(i, b)) => {
            DecodeError::InvalidLastSymbol(i, b)
        },
        DecodeSliceError::DecodeError(B64Error::InvalidPadding) => DecodeError::InvalidPadding,
        DecodeSliceError::OutputSliceTooSmall => DecodeError::TooLong,
    })
}

/// Relies on `SystemTime::now`: the whole seconds since the unix epoch, or
/// none when the clock stands before it.
#[verifier::external_body]
fn unix_time_secs() -> (r: Option<u64>) {
    std::time::SystemTime::now().duration_since(std::time::UNIX_EPOCH).ok().map(|d| d.as_secs())
}

/// Relies on rand's `OsRng::fill_bytes`: five bytes from the system's source
/// of randomness.
#[verifier::external_body]
fn random_bytes() -> (r: [u8; 5]) {
    let mut b = [0u8; 5];
    rand::rngs::OsRng.fill_bytes(&mut b);
    b
}

impl View for UniqueId {
    type V = Seq<u8>;

    closed spec fn view(&self) -> Seq<u8> {
        self.0@
    }
}

impl UniqueId {
    /// An identifier from the clock and five random bytes. A clock before
    /// the unix epoch counts as the epoch itself.
    pub fn new() -> (r: UniqueId)
        ensures
            r@.len() == 10,
    {
        let secs = match unix_time_secs() {
            Some(s) => s,
            None => 0,
        };
        Self::from_parts(secs, random_bytes())
    }

    /// The identifier for `secs` seconds since the epoch, of which the low
    /// forty bits are kept, and five random bytes.
    pub fn from_parts(secs: u64, random: [u8; 5]) -> (r: UniqueId)
        ensures
            r@.len() == 10,
            be40(r@) == secs as nat % 0x100_0000_0000,
            r@.subrange(5, 10) == random@,
    {
        let mut b = [0u8; 10];
        b[0] = ((secs / 0x1_0000_0000) % 256) as u8;
        b[1] = ((secs / 0x100_0000) % 256) as u8;
        b[2] = ((secs / 0x1_0000) % 256) as u8;
        b[3] = ((secs / 0x100) % 256) as u8;
        b[4] = (secs % 256) as u8;
        let mut i: usize = 0;
        while i < 5
            invariant
                i <= 5,
                b@.len() == 10,
                b@[0] == (secs / 0x1_0000_0000) % 256,
                b@[1] == (secs / 0x100_0000) % 256,
                b@[2] == (secs / 0x1_0000) % 256,
                b@[3] == (secs / 0x100) % 256,
                b@[4] == secs % 256,
                forall|j: int| 0 <= j < i ==> b@[5 + j] == random@[j],
            decreases 5 - i,
        {
            b[5 + i] = random[i];
            i = i + 1;
        }
        proof {
            lemma_be40_of_secs(secs as nat, b@);
            assert(b@.subrange(5, 10) =~= random@);
        }
        UniqueId(b)
    }

    /// The identifier with exactly these bytes.
    pub fn from_raw(inner: [u8; 10]) -> (r: UniqueId)
        ensures
            r@ == inner@,
    {
        UniqueId(inner)
    }

    /// The identifier with exactly these bytes.
    pub fn from_bytes(bytes: [u8; 10]) -> (r: UniqueId)
        ensures
            r@ == bytes@,
    {
        UniqueId(bytes)
    }

    /// The identifier with the bytes of a slice of ten.
    pub fn from_slice_unchecked(slice: &[u8]) -> (r: UniqueId)
        requires
            slice@.len() == 10,
        ensures
            r@ == slice@,
    {
        let mut b = [0u8; 10];
        let mut i: usize = 0;
        while i < 10
            invariant
                i <= 10,
                slice@.len() == 10,
                b@.len() == 10,
                forall|j: int| 0 <= j < i ==> b@[j] == slice@[j],
            decreases 10 - i,
        {
            b[i] = slice[i];
            i = i + 1;
        }
        proof {
            assert(b@ =~= slice@);
        }
        UniqueId(b)
    }

    pub fn into_bytes(self) -> (r: [u8; 10])
        ensures
            r@ == self@,
    {
        self.0
    }

    pub fn as_slice(&self) -> (r: &[u8])
        ensures
            r@ == self@,
    {
        self.0.as_slice()
    }

    /// The seconds since the unix epoch held in the first five bytes.
    pub fn since_unix_secs(&self) -> (r: u64)
        ensures
            r == be40(self@),
    {
        let b = &self.0;
        let b0 = b[0] as u64;
        let b1 = b[1] as u64;
        let b2 = b[2] as u64;
        let b3 = b[3] as u64;
        let b4 = b[4] as u64;
        assert(b0 * 256 + b1 <= 0xffff) by (nonlinear_arith)
            requires b0 <= 255, b1 <= 255;
        let x1 = b0 * 256 + b1;
        assert(x1 * 256 + b2 <= 0xff_ffff) by (nonlinear_arith)
            requires x1 <= 0xffff, b2 <= 255;
        let x2 = x1 * 256 + b2;
        assert(x2 * 256 + b3 <= 0xffff_ffff) by (nonlinear_arith)
            requires x2 <= 0xff_ffff, b3 <= 255;
        let x3 = x2 * 256 + b3;
        assert(x3 * 256 + b4 <= 0xff_ffff_ffff) by (nonlinear_arith)
            requires x3 <= 0xffff_ffff, b4 <= 255;
        x3 * 256 + b4
    }

    /// The identifier as unpadded URL-safe base64.
    pub fn to_b64(&self) -> (r: String)
        ensures
            r@ == url_b64_encode(self@),
    {
        encode_url_b64(self.0.as_slice())
    }

    /// Reads an identifier from unpadded URL-safe base64. A text of other
    /// than 14 bytes is refused by its length; an identifier that comes back
    /// is what the text decodes to.
    pub fn parse_from_b64(b64: &str) -> (r: Result<UniqueId, DecodeError>)
        ensures
            b64.len() != 14 ==> r == Err::<UniqueId, DecodeError>(
                DecodeError::InvalidLength(b64.len()),
            ),
            r matches Ok(id) ==> b64.len() == 14 && url_b64_decode(b64@) == Some(
                id@,
            ),
    {
        let len = b64.len();
        if len != 14 {
            return Err(DecodeError::InvalidLength(len));
        }
        let mut bytes = [0u8; 10];
        match decode_url_b64(b64, &mut bytes) {
            Ok(n) => if n == 10 {
                proof {
                    assert(bytes@.subrange(0, 10) =~= bytes@);
                }
                Ok(UniqueId(bytes))
            } else {
                Err(DecodeError::InvalidLength(len))
            },
            Err(e) => Err(e),
        }
    }
}

proof fn lemma_be40_of_secs(secs: nat, b: Seq<u8>)
    requires
        b.len() == 10,
        b[0] == (secs / 0x1_0000_0000) % 256,
        b[1] == (secs / 0x100_0000) % 256,
        b[2] == (secs / 0x1_0000) % 256,
        b[3] == (secs / 0x100) % 256,
        b[4] == secs % 256,
    ensures
        be40(b) == secs % 0x100_0000_0000,
{
    let q1 = secs / 0x100;
    let q2 = secs / 0x1_0000;
    let q3 = secs / 0x100_0000;
    let q4 = secs / 0x1_0000_0000;
    assert(q2 == q1 / 256) by (nonlinear_arith) requires q1 == secs / 0x100, q2 == secs / 0x1_0000;
    assert(q3 == q2 / 256) by (nonlinear_arith) requires q2 == secs / 0x1_0000, q3 == secs / 0x100_0000;
    assert(q4 == q3 / 256) by (nonlinear_arith) requires q3 == secs / 0x100_0000, q4 == secs / 0x1_0000_0000;
    // x_k: the value of the low 8k bits, built most significant first.
    assert(q4 % 256 * 256 + q3 % 256 == q3 % 0x1_0000) by (nonlinear_arith) requires q4 == q3 / 256;
    assert(q3 % 0x1_0000 * 256 + q2 % 256 == q2 % 0x100_0000) by (nonlinear_arith) requires q3 == q2 / 256;
    assert(q2 % 0x100_0000 * 256 + q1 % 256 == q1 % 0x1_0000_0000) by (nonlinear_arith) requires q2 == q1 / 256;
    assert(q1 % 0x1_0000_0000 * 256 + secs % 256 == secs % 0x100_0000_0000) by (nonlinear_arith) requires q1 == secs / 256;
}

} // verus!
