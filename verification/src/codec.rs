//! Input codec: encodes a player's per-frame directional intent into a
//! fixed-width bit-packed token (the wire format exchanged between peers)
//! and decodes it back. Decoding is the exact inverse of encoding; a token
//! outside the encoded range is rejected rather than guessed at.

use vstd::prelude::*;

verus! {

/// Number of bytes a single encoded input token occupies on the wire.
/// This width is a per-session constant agreed on by all peers.
pub const INPUT_TOKEN_WIDTH_BYTES: usize = 1;

/// One past the largest token the codec ever produces: four direction bits.
pub const TOKEN_LIMIT: u8 = 16;

/// A player's directional intent for one frame. The four directions are
/// independently combinable (up + right is a diagonal).
#[derive(Clone, Copy, PartialEq, Eq, Structural, Debug)]
pub struct Intent {
    pub up: bool,
    pub down: bool,
    pub left: bool,
    pub right: bool,
}

/// Decoding failure: the token was not produced by this codec.
#[derive(Clone, Copy, PartialEq, Eq, Structural, Debug)]
pub enum CodecError {
    InvalidInputEncoding,
}

impl Intent {
    /// The intent with no direction pressed.
    pub open spec fn neutral_spec() -> Intent {
        Intent { up: false, down: false, left: false, right: false }
    }

    /// Returns the intent with no direction pressed.
    pub fn neutral() -> (r: Intent)
        ensures
            r == Intent::neutral_spec(),
    {
        Intent { up: false, down: false, left: false, right: false }
    }
}

/// The token a given intent encodes to: one bit per direction.
pub open spec fn encode_spec(i: Intent) -> u8 {
    ((if i.up {
        1int
    } else {
        0int
    }) + (if i.down {
        2int
    } else {
        0int
    }) + (if i.left {
        4int
    } else {
        0int
    }) + (if i.right {
        8int
    } else {
        0int
    })) as u8
}

/// Whether a token lies in the range the codec can produce.
pub open spec fn token_valid(t: u8) -> bool {
    t < TOKEN_LIMIT
}

/// The intent a valid token decodes to.
pub open spec fn decode_spec(t: u8) -> Intent {
    let v0 = t as int;
    let right = v0 >= 8;
    let v1 = if right {
        v0 - 8
    } else {
        v0
    };
    let left = v1 >= 4;
    let v2 = if left {
        v1 - 4
    } else {
        v1
    };
    let down = v2 >= 2;
    let v3 = if down {
        v2 - 2
    } else {
        v2
    };
    let up = v3 >= 1;
    Intent { up, down, left, right }
}

/// Encodes an intent into its wire token. Total: every intent combination
/// has a token, and the token is always in the valid range.
pub fn encode(intent: &Intent) -> (t: u8)
    ensures
        t == encode_spec(*intent),
        token_valid(t),
{
    let mut t: u8 = 0;
    if intent.up {
        t = t + 1;
    }
    if intent.down {
        t = t + 2;
    }
    if intent.left {
        t = t + 4;
    }
    if intent.right {
        t = t + 8;
    }
    t
}

/// Decodes a wire token back into an intent. Succeeds exactly on the tokens
/// the codec can produce; anything else is a corrupted or foreign input and
/// is reported, never silently mapped to a plausible intent.
pub fn decode(t: u8) -> (r: Result<Intent, CodecError>)
    ensures
        token_valid(t) ==> r == Ok::<Intent, CodecError>(decode_spec(t)),
        !token_valid(t) ==> r == Err::<Intent, CodecError>(CodecError::InvalidInputEncoding),
{
    if t >= TOKEN_LIMIT {
        return Err(CodecError::InvalidInputEncoding);
    }
    let mut v = t;
    let right = v >= 8;
    if right {
        v = v - 8;
    }
    let left = v >= 4;
    if left {
        v = v - 4;
    }
    let down = v >= 2;
    if down {
        v = v - 2;
    }
    let up = v >= 1;
    Ok(Intent { up, down, left, right })
}

/// Round-trip law: decoding an encoded intent gives back exactly that
/// intent, for every representable intent combination.
pub proof fn lemma_round_trip(x: Intent)
    ensures
        decode_spec(encode_spec(x)) == x,
{
}

/// Every token the codec produces is in the valid range, so an encoded
/// intent always decodes successfully.
pub proof fn lemma_encode_in_range(x: Intent)
    ensures
        token_valid(encode_spec(x)),
{
}

/// The neutral intent encodes to the zero token, and the zero token decodes
/// to the neutral intent.
pub proof fn lemma_zero_token_is_neutral()
    ensures
        encode_spec(Intent::neutral_spec()) == 0u8,
        decode_spec(0u8) == Intent::neutral_spec(),
{
}

} // verus!
