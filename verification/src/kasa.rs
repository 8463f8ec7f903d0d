//! Wire framing for the LB130(US) smart-bulb dialect: the rolling XOR
//! cipher every message body is obfuscated with, and the fixed request
//! and response markers of its JSON vocabulary.
//!
//! A message travels as a four-byte big-endian length followed by the
//! ciphered body.  The cipher chains: each output byte is the input
//! byte XORed with the previous output byte, the first with a fixed
//! initial key, and deciphering inverts that exactly.

use vstd::prelude::*;

verus! {

/// The byte at position `i` of the ciphered form of `s`: the plain byte
/// XORed with the previous ciphered byte, the first one with the key.
pub open spec fn encrypted_byte(key: u8, s: Seq<u8>, i: int) -> u8
    decreases i,
{
    if i <= 0 {
        key ^ s[0]
    } else {
        encrypted_byte(key, s, i - 1) ^ s[i]
    }
}

/// The ciphered form of `s` under the given initial key.
pub open spec fn encrypted_with(key: u8, s: Seq<u8>) -> Seq<u8> {
    Seq::new(s.len(), |i: int| encrypted_byte(key, s, i))
}

/// The deciphered form of `s`: each byte XORed with its predecessor in
/// the ciphered text, the first one with the key.
pub open spec fn decrypted_with(key: u8, s: Seq<u8>) -> Seq<u8> {
    Seq::new(
        s.len(),
        |i: int|
            (if i == 0 {
                key
            } else {
                s[i - 1]
            }) ^ s[i],
    )
}

/// The rolling XOR cipher with its initial key.
pub struct XorEncryption<const INITIAL_KEY: u8>;

impl<const INITIAL_KEY: u8> XorEncryption<INITIAL_KEY> {
    /// Ciphers the buffer in place.
    pub fn encrypt_in_place(bytes: &mut Vec<u8>)
        ensures
            final(bytes)@ == encrypted_with(INITIAL_KEY, old(bytes)@),
    {
        let ghost orig = bytes@;
        let mut key: u8 = INITIAL_KEY;
        let mut i: usize = 0;
        while i < bytes.len()
            invariant
                bytes@.len() == orig.len(),
                i <= orig.len(),
                forall|j: int| 0 <= j < i ==> bytes@[j] == encrypted_byte(INITIAL_KEY, orig, j),
                forall|j: int| i <= j < orig.len() ==> bytes@[j] == orig[j],
                key == if i == 0 {
                    INITIAL_KEY
                } else {
                    encrypted_byte(INITIAL_KEY, orig, i - 1)
                },
            decreases orig.len() - i,
        {
            let ciphered = key ^ bytes[i];
            bytes.set(i, ciphered);
            key = ciphered;
            i = i + 1;
        }
        proof {
            assert(bytes@ =~= encrypted_with(INITIAL_KEY, orig));
        }
    }

    /// Deciphers the buffer in place.
    pub fn decrypt_in_place(bytes: &mut Vec<u8>)
        ensures
            final(bytes)@ == decrypted_with(INITIAL_KEY, old(bytes)@),
    {
        let ghost orig = bytes@;
        let mut key: u8 = INITIAL_KEY;
        let mut i: usize = 0;
        while i < bytes.len()
            invariant
                bytes@.len() == orig.len(),
                i <= orig.len(),
                forall|j: int| 0 <= j < i ==> bytes@[j] == decrypted_with(INITIAL_KEY, orig)[j],
                forall|j: int| i <= j < orig.len() ==> bytes@[j] == orig[j],
                key == if i == 0 {
                    INITIAL_KEY
                } else {
                    orig[i - 1]
                },
            decreases orig.len() - i,
        {
            let ciphered = bytes[i];
            bytes.set(i, key ^ ciphered);
            key = ciphered;
            i = i + 1;
        }
        proof {
            assert(bytes@ =~= decrypted_with(INITIAL_KEY, orig));
        }
    }
}

/// Deciphering inverts ciphering exactly, for every key and every body.
pub proof fn lemma_cipher_round_trip(key: u8, s: Seq<u8>)
    ensures
        decrypted_with(key, encrypted_with(key, s)) == s,
{
    let e = encrypted_with(key, s);
    assert forall|i: int| 0 <= i < s.len() implies decrypted_with(key, e)[i] == s[i] by {
        let b = s[i];
        if i == 0 {
            let k = key;
            assert(k ^ (k ^ b) == b) by (bit_vector);
        } else {
            let a = encrypted_byte(key, s, i - 1);
            assert(a ^ (a ^ b) == b) by (bit_vector);
        }
    }
    assert(decrypted_with(key, encrypted_with(key, s)) =~= s);
}

/// The initial key of the smart-bulb dialect.
pub const WIRE_KEY: u8 = 171;

/// The four-byte big-endian encoding of a message body length.
pub open spec fn length_prefix(len: u32) -> Seq<u8> {
    seq![
        ((len >> 24) & 0xff) as u8,
        ((len >> 16) & 0xff) as u8,
        ((len >> 8) & 0xff) as u8,
        (len & 0xff) as u8,
    ]
}

/// Frames one message for the wire: the body length big-endian, then
/// the body ciphered under the dialect's key.
pub fn into_encrypted(msg: Vec<u8>) -> (r: Vec<u8>)
    requires
        msg@.len() <= u32::MAX,
    ensures
        r@ == length_prefix(msg@.len() as u32) + encrypted_with(WIRE_KEY, msg@),
        r@.len() == 4 + msg@.len(),
{
    let length: u32 = msg.len() as u32;
    let mut body = msg;
    XorEncryption::<WIRE_KEY>::encrypt_in_place(&mut body);
    proof {
        assert(((length >> 24) & 0xff) < 256) by (bit_vector);
        assert(((length >> 16) & 0xff) < 256) by (bit_vector);
        assert(((length >> 8) & 0xff) < 256) by (bit_vector);
        assert((length & 0xff) < 256) by (bit_vector);
    }
    let mut framed: Vec<u8> = Vec::new();
    framed.push(((length >> 24) & 0xff) as u8);
    framed.push(((length >> 16) & 0xff) as u8);
    framed.push(((length >> 8) & 0xff) as u8);
    framed.push((length & 0xff) as u8);
    framed.append(&mut body);
    proof {
        assert(framed@ =~= length_prefix(length) + encrypted_with(WIRE_KEY, msg@));
    }
    framed
}

/// The ways talking to the bulb can fail, by kind; the carried source
/// errors stay with the I/O shell that produces them.
#[derive(Debug, Clone, Copy, PartialEq, Eq, Structural)]
pub enum CommunicationErrorKind {
    /// The outgoing request could not be encoded.
    Serialize,
    /// The connection failed while sending.
    Write,
    /// The connection failed while receiving.
    Read,
    /// The response could not be decoded.
    Deserialize,
    /// The device answered as something other than the expected bulb.
    WrongDevice,
}

/// Whether a failure warrants dropping the connection and reconnecting:
/// exactly the transport failures, never an encoding or device
/// mismatch.
pub fn should_try_reconnecting(communication_error: &CommunicationErrorKind) -> (r: bool)
    ensures
        r <==> (*communication_error is Write || *communication_error is Read),
{
    match communication_error {
        CommunicationErrorKind::Write | CommunicationErrorKind::Read => true,
        _ => false,
    }
}

/// The fixed system-information request; it carries no arguments.
#[derive(Debug, Clone, Copy, PartialEq, Eq, Structural)]
pub struct GetSysInfo;

/// The power-state marker that travels as the byte `0`.
#[derive(Debug, Clone, Copy, PartialEq, Eq, Structural)]
pub struct Off;

impl Off {
    /// The byte this marker is written as.
    pub fn wire_byte(&self) -> (b: u8)
        ensures
            b == 0,
    {
        0
    }

    /// Reads the marker back: accepts exactly the byte it is written
    /// as.
    pub fn from_wire(value: u8) -> (r: Option<Off>)
        ensures
            r is Some <==> value == 0,
    {
        if value == 0 {
            Some(Off)
        } else {
            None
        }
    }
}

/// The power-state marker that travels as the byte `1`.
#[derive(Debug, Clone, Copy, PartialEq, Eq, Structural)]
pub struct On;

impl On {
    /// The byte this marker is written as.
    pub fn wire_byte(&self) -> (b: u8)
        ensures
            b == 1,
    {
        1
    }

    /// Reads the marker back: accepts exactly the byte it is written
    /// as.
    pub fn from_wire(value: u8) -> (r: Option<On>)
        ensures
            r is Some <==> value == 1,
    {
        if value == 1 {
            Some(On)
        } else {
            None
        }
    }
}

/// Argument of the state-change request that turns the light off.
#[derive(Debug, Clone, Copy, PartialEq, Eq, Structural)]
pub struct SetLightOff {
    pub on_off: Off,
}

/// Argument of the state-change request that restores the last on
/// state.
#[derive(Debug, Clone, Copy, PartialEq, Eq, Structural)]
pub struct SetLightLastOn {
    pub on_off: On,
}

/// The (empty) acknowledgement of a state-change request.
#[derive(Debug, Clone, Copy, PartialEq, Eq, Structural)]
pub struct SetLightStateResponse;

} // verus!
