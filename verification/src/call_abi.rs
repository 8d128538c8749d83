//! The call envelope shared by the host and contracts, and its Borsh framing.

use crate::encoding::{le_bytes, u32_le};
use vstd::prelude::*;
use vstd::utf8::{decode_utf8, encode_utf8, valid_utf8};

verus! {

/// Structured input passed from the host into a contract call.
#[derive(Debug, PartialEq, Eq)]
pub struct CallEnvelope {
    /// Exported guest method to invoke.
    pub method: String,
    /// Method-specific encoded arguments.
    pub args: Vec<u8>,
}

/// Errors returned when decoding structured contract call input.
#[derive(Debug, PartialEq, Eq)]
pub enum CallAbiError {
    /// The input was empty.
    Empty,
    /// The input was not a Borsh-encoded envelope; the decoder's message.
    Decode(String),
}

/// The value of a little-endian byte string.
pub open spec fn le_value(b: Seq<u8>) -> nat
    decreases b.len(),
{
    if b.len() == 0 {
        0
    } else {
        b[0] as nat + 256 * le_value(b.drop_first())
    }
}

/// Borsh framing of a byte string: its length as a little-endian `u32`, then
/// the bytes.
pub open spec fn borsh_bytes(b: Seq<u8>) -> Seq<u8> {
    u32_le(b.len()) + b
}

/// Whether a byte string's length fits Borsh's `u32` length prefix.
pub open spec fn fits_u32(b: Seq<u8>) -> bool {
    b.len() <= u32::MAX
}

/// Borsh encoding of an envelope: the method's UTF-8 bytes, then the
/// arguments, each length-prefixed.
pub open spec fn envelope_bytes(method: Seq<char>, args: Seq<u8>) -> Seq<u8> {
    borsh_bytes(encode_utf8(method)) + borsh_bytes(args)
}

/// Whether an envelope can be Borsh-encoded (both lengths fit in a `u32`).
pub open spec fn envelope_fits(method: Seq<char>, args: Seq<u8>) -> bool {
    fits_u32(encode_utf8(method)) && fits_u32(args)
}

/// Reads one length-prefixed byte string from the front of `b`, returning it
/// and the bytes after it.
pub open spec fn read_borsh_bytes(b: Seq<u8>) -> Option<(Seq<u8>, Seq<u8>)> {
    if b.len() < 4 {
        None
    } else {
        let n = le_value(b.subrange(0, 4));
        if b.len() < 4 + n {
            None
        } else {
            Some((b.subrange(4, 4 + n as int), b.subrange(4 + n as int, b.len() as int)))
        }
    }
}

/// Decoding of a Borsh-encoded envelope: a length-prefixed UTF-8 method
/// name, then length-prefixed arguments, with no bytes left over.
pub open spec fn decode_envelope_bytes(b: Seq<u8>) -> Option<(Seq<char>, Seq<u8>)> {
    match read_borsh_bytes(b) {
        None => None,
        Some((m, rest)) => if !valid_utf8(m) {
            None
        } else {
            match read_borsh_bytes(rest) {
                None => None,
                Some((a, tail)) => if tail.len() == 0 {
                    Some((decode_utf8(m), a))
                } else {
                    None
                },
            }
        },
    }
}

/// Trusted: `borsh::to_vec` on the pair `(method, args)`, which is how the
/// envelope's fields are laid out. Borsh's source writes a string as its UTF-8
/// bytes and a byte vector as its bytes, each after a little-endian `u32`
/// length, and fails when a length does not fit in a `u32`; the contract
/// states exactly that. The error's text is not stated.
#[verifier::external_body]
fn borsh_encode_pair(method: &String, args: &Vec<u8>) -> (encoded: Result<Vec<u8>, String>)
    ensures
        encoded is Ok <==> envelope_fits(method@, args@),
        encoded matches Ok(bytes) ==> bytes@ == envelope_bytes(method@, args@),
{
    match borsh::to_vec(&(method, args)) {
        Ok(bytes) => Ok(bytes),
        Err(error) => Err(error.to_string()),
    }
}

/// Trusted: `borsh::from_slice::<(String, Vec<u8>)>`. Borsh's source reads a
/// little-endian `u32` length and that many bytes for each field, rejects a
/// method that is not UTF-8, and rejects input with bytes left over; the
/// contract states exactly when it succeeds and what it returns. The error's
/// text is not stated.
#[verifier::external_body]
fn borsh_decode_pair(bytes: &[u8]) -> (decoded: Result<(String, Vec<u8>), String>)
    ensures
        decoded is Ok <==> decode_envelope_bytes(bytes@) is Some,
        decoded matches Ok(pair) ==> decode_envelope_bytes(bytes@) == Some((pair.0@, pair.1@)),
{
    match borsh::from_slice::<(String, Vec<u8>)>(bytes) {
        Ok(pair) => Ok(pair),
        Err(error) => Err(error.to_string()),
    }
}

impl CallEnvelope {
    /// Creates a new call envelope.
    pub fn new(method: &str, args: Vec<u8>) -> (envelope: Self)
        ensures
            envelope.method@ == method@,
            envelope.args == args,
    {
        CallEnvelope { method: String::from_str(method), args }
    }

    /// Encodes the envelope using Borsh.
    pub fn encode(&self) -> (encoded: Result<Vec<u8>, String>)
        ensures
            encoded is Ok <==> envelope_fits(self.method@, self.args@),
            encoded matches Ok(bytes) ==> bytes@ == envelope_bytes(self.method@, self.args@),
    {
        borsh_encode_pair(&self.method, &self.args)
    }

    /// Decodes a Borsh-encoded call envelope.
    pub fn decode(bytes: &[u8]) -> (decoded: Result<Self, String>)
        ensures
            decoded is Ok <==> decode_envelope_bytes(bytes@) is Some,
            decoded matches Ok(envelope) ==> decode_envelope_bytes(bytes@) == Some(
                (envelope.method@, envelope.args@),
            ),
    {
        match borsh_decode_pair(bytes) {
            Ok(pair) => Ok(CallEnvelope { method: pair.0, args: pair.1 }),
            Err(message) => Err(message),
        }
    }
}

impl CallAbiError {
    /// Returns the human-readable message of this error.
    pub fn message(&self) -> (text: String)
        ensures
            match self {
                CallAbiError::Empty => text@ == "call envelope is empty"@,
                CallAbiError::Decode(m) => text@ == "failed to decode call envelope: "@ + m@,
            },
    {
        match self {
            CallAbiError::Empty => String::from_str("call envelope is empty"),
            CallAbiError::Decode(m) => crate::text::concat_text("failed to decode call envelope: ", m.as_str()),
        }
    }
}

/// Decodes a Borsh-encoded [`CallEnvelope`] and rejects empty payloads.
pub fn decode_checked(bytes: &[u8]) -> (decoded: Result<CallEnvelope, CallAbiError>)
    ensures
        bytes@.len() == 0 ==> decoded == Err::<CallEnvelope, CallAbiError>(CallAbiError::Empty),
        bytes@.len() > 0 ==> (decoded is Ok <==> decode_envelope_bytes(bytes@) is Some),
        bytes@.len() > 0 ==> (decoded is Err ==> decoded matches Err(CallAbiError::Decode(_))),
        decoded matches Ok(envelope) ==> decode_envelope_bytes(bytes@) == Some(
            (envelope.method@, envelope.args@),
        ),
{
    if bytes.len() == 0 {
        return Err(CallAbiError::Empty);
    }
    match CallEnvelope::decode(bytes) {
        Ok(envelope) => Ok(envelope),
        Err(message) => Err(CallAbiError::Decode(message)),
    }
}

/// `256` raised to the power `n`.
pub open spec fn pow256(n: nat) -> nat
    decreases n,
{
    if n == 0 {
        1
    } else {
        256 * pow256((n - 1) as nat)
    }
}

/// Proof that `le_value` reads back what `le_bytes` wrote.
pub proof fn lemma_le_value_le_bytes(x: nat, n: nat)
    requires
        x < pow256(n),
    ensures
        le_value(le_bytes(x, n)) == x,
    decreases n,
{
    if n == 0 {
    } else {
        let rest = le_bytes(x / 256, (n - 1) as nat);
        assert(le_bytes(x, n).drop_first() =~= rest);
        let p = pow256((n - 1) as nat);
        assert(x / 256 < p) by (nonlinear_arith)
            requires
                x < 256 * p,
        ;
        lemma_le_value_le_bytes(x / 256, (n - 1) as nat);
    }
}

/// Round trip: decoding the Borsh encoding of an envelope gives back its
/// method and arguments, whenever the envelope can be encoded.
pub proof fn law_envelope_round_trip(method: Seq<char>, args: Seq<u8>)
    requires
        envelope_fits(method, args),
    ensures
        decode_envelope_bytes(envelope_bytes(method, args)) == Some((method, args)),
{
    broadcast use vstd::utf8::encode_utf8_valid_utf8, vstd::utf8::encode_utf8_decode_utf8;

    let m = encode_utf8(method);
    let b = envelope_bytes(method, args);
    assert(pow256(4) == 0x1_0000_0000) by {
        reveal_with_fuel(pow256, 5);
    }
    crate::encoding::lemma_le_bytes_len(m.len(), 4);
    crate::encoding::lemma_le_bytes_len(args.len(), 4);
    lemma_le_value_le_bytes(m.len(), 4);
    lemma_le_value_le_bytes(args.len(), 4);
    assert(b.subrange(0, 4) =~= u32_le(m.len()));
    let rest = b.subrange(4 + m.len() as int, b.len() as int);
    assert(b.subrange(4, 4 + m.len() as int) =~= m);
    assert(rest =~= borsh_bytes(args));
    assert(rest.subrange(0, 4) =~= u32_le(args.len()));
    assert(rest.subrange(4, 4 + args.len() as int) =~= args);
    assert(rest.subrange(4 + args.len() as int, rest.len() as int) =~= Seq::<u8>::empty());
}

} // verus!
