//! Game action events destined for the event chain.
//!
//! A [`GameAction`] records one player decision: the turn it happened on and
//! an opaque byte payload. The wire format is deliberately simple and stable:
//!
//! ```text
//! offset 0      : format tag (one byte, currently 1)
//! offset 1..9   : turn, big-endian u64
//! offset 9..17  : payload length, big-endian u64
//! offset 17..   : payload bytes (exactly as many as declared)
//! ```
//!
//! [`GameAction::encode`] and [`GameAction::decode`] are proved to be exact
//! mutual inverses: see [`lemma_encode_decode`] and [`lemma_decode_encode`].

use vstd::prelude::*;

verus! {

/// Leading byte of every encoded action; a decoder rejects any other value,
/// which leaves room for future revisions of the wire format.
pub const FORMAT_TAG: u8 = 1;

/// Bytes before the payload: one tag byte plus two big-endian u64 fields.
pub const HEADER_LEN: usize = 17;

/// A single game action that will be published as an event.
///
/// Both fields are caller-supplied and unvalidated here: any turn number and
/// any byte sequence (including empty) form a valid action. Ordering across
/// actions is a higher-level concern.
#[derive(Debug, Clone, PartialEq, Eq)]
pub struct GameAction {
    /// Turn number when this action occurred.
    pub turn: u64,
    /// Opaque action payload; this layer imposes no schema on it.
    pub payload: Vec<u8>,
}

/// Mathematical model of a [`GameAction`]: the turn and the payload as a
/// sequence of bytes.
pub ghost struct GameActionModel {
    pub turn: u64,
    pub payload: Seq<u8>,
}

impl View for GameAction {
    type V = GameActionModel;

    open spec fn view(&self) -> GameActionModel {
        GameActionModel { turn: self.turn, payload: self.payload@ }
    }
}

impl GameActionModel {
    /// A model is realizable as a value when its payload length fits the
    /// wire format's length field. Every `GameAction` satisfies this.
    pub open spec fn wf(self) -> bool {
        self.payload.len() <= u64::MAX
    }
}

/// The eight bytes of `x`, most significant first.
pub open spec fn spec_u64_be(x: u64) -> Seq<u8> {
    seq![
        ((x >> 56) & 0xff) as u8,
        ((x >> 48) & 0xff) as u8,
        ((x >> 40) & 0xff) as u8,
        ((x >> 32) & 0xff) as u8,
        ((x >> 24) & 0xff) as u8,
        ((x >> 16) & 0xff) as u8,
        ((x >> 8) & 0xff) as u8,
        (x & 0xff) as u8,
    ]
}

/// The u64 whose big-endian bytes are `s`.
pub open spec fn spec_u64_of_be(s: Seq<u8>) -> u64
    recommends
        s.len() == 8,
{
    ((s[0] as u64) << 56) | ((s[1] as u64) << 48) | ((s[2] as u64) << 40)
        | ((s[3] as u64) << 32) | ((s[4] as u64) << 24) | ((s[5] as u64) << 16)
        | ((s[6] as u64) << 8) | (s[7] as u64)
}

/// The wire encoding of an action: tag, turn, payload length, payload.
pub open spec fn spec_encode(a: GameActionModel) -> Seq<u8>
    recommends
        a.wf(),
{
    seq![FORMAT_TAG] + spec_u64_be(a.turn) + spec_u64_be(a.payload.len() as u64) + a.payload
}

/// Splitting a u64 into big-endian bytes and reassembling them gives the
/// number back.
pub proof fn lemma_u64_be_roundtrip(x: u64)
    ensures
        spec_u64_of_be(spec_u64_be(x)) == x,
{
    let s = spec_u64_be(x);
    assert(s[0] == ((x >> 56) & 0xff) as u8);
    assert(s[1] == ((x >> 48) & 0xff) as u8);
    assert(s[2] == ((x >> 40) & 0xff) as u8);
    assert(s[3] == ((x >> 32) & 0xff) as u8);
    assert(s[4] == ((x >> 24) & 0xff) as u8);
    assert(s[5] == ((x >> 16) & 0xff) as u8);
    assert(s[6] == ((x >> 8) & 0xff) as u8);
    assert(s[7] == (x & 0xff) as u8);
    assert((((((x >> 56) & 0xff) as u8) as u64) << 56)
        | (((((x >> 48) & 0xff) as u8) as u64) << 48)
        | (((((x >> 40) & 0xff) as u8) as u64) << 40)
        | (((((x >> 32) & 0xff) as u8) as u64) << 32)
        | (((((x >> 24) & 0xff) as u8) as u64) << 24)
        | (((((x >> 16) & 0xff) as u8) as u64) << 16)
        | (((((x >> 8) & 0xff) as u8) as u64) << 8)
        | (((x & 0xff) as u8) as u64) == x) by (bit_vector);
}

/// Reassembling eight bytes into a u64 and splitting it again gives the
/// same eight bytes back.
pub proof fn lemma_u64_of_be_roundtrip(s: Seq<u8>)
    requires
        s.len() == 8,
    ensures
        spec_u64_be(spec_u64_of_be(s)) == s,
{
    let x = spec_u64_of_be(s);
    let b0 = s[0];
    let b1 = s[1];
    let b2 = s[2];
    let b3 = s[3];
    let b4 = s[4];
    let b5 = s[5];
    let b6 = s[6];
    let b7 = s[7];
    assert(((x >> 56) & 0xff) as u8 == b0 && ((x >> 48) & 0xff) as u8 == b1
        && ((x >> 40) & 0xff) as u8 == b2 && ((x >> 32) & 0xff) as u8 == b3
        && ((x >> 24) & 0xff) as u8 == b4 && ((x >> 16) & 0xff) as u8 == b5
        && ((x >> 8) & 0xff) as u8 == b6 && (x & 0xff) as u8 == b7) by (bit_vector)
        requires
            x == ((b0 as u64) << 56) | ((b1 as u64) << 48) | ((b2 as u64) << 40)
                | ((b3 as u64) << 32) | ((b4 as u64) << 24) | ((b5 as u64) << 16)
                | ((b6 as u64) << 8) | (b7 as u64),
    ;
    assert(spec_u64_be(x) =~= s);
}

/// Why a byte sequence failed to decode. Every malformed input is reported
/// through one of these; decoding never panics.
#[derive(Debug, Clone, Copy, PartialEq, Eq, Structural)]
pub enum DecodeError {
    /// The input is shorter than the fixed header.
    Truncated,
    /// The leading byte is not the format tag this decoder understands.
    UnknownFormat,
    /// The declared payload length does not match the bytes that follow the
    /// header.
    LengthMismatch,
}

/// The action a byte sequence encodes, or `None` when it is malformed.
pub open spec fn spec_decode(s: Seq<u8>) -> Option<GameActionModel> {
    if s.len() < HEADER_LEN {
        None
    } else if s[0] != FORMAT_TAG {
        None
    } else if spec_u64_of_be(s.subrange(9, 17)) != s.len() - HEADER_LEN {
        None
    } else {
        Some(
            GameActionModel {
                turn: spec_u64_of_be(s.subrange(1, 9)),
                payload: s.subrange(HEADER_LEN as int, s.len() as int),
            },
        )
    }
}

/// The error a malformed byte sequence decodes to. The checks mirror
/// [`spec_decode`], in the same order.
pub open spec fn spec_decode_err(s: Seq<u8>) -> DecodeError
    recommends
        spec_decode(s) is None,
{
    if s.len() < HEADER_LEN {
        DecodeError::Truncated
    } else if s[0] != FORMAT_TAG {
        DecodeError::UnknownFormat
    } else {
        DecodeError::LengthMismatch
    }
}

/// Round-trip law: decoding an encoded action gives the action back,
/// field for field, for every action whose payload length fits the wire
/// format's length field — which every realizable action does.
pub proof fn lemma_encode_decode(a: GameActionModel)
    requires
        a.wf(),
    ensures
        spec_decode(spec_encode(a)) == Some(a),
{
    let s = spec_encode(a);
    let n = a.payload.len() as u64;
    assert(s.len() == HEADER_LEN + a.payload.len());
    assert(s[0] == FORMAT_TAG);
    assert(s.subrange(1, 9) =~= spec_u64_be(a.turn));
    assert(s.subrange(9, 17) =~= spec_u64_be(n));
    lemma_u64_be_roundtrip(a.turn);
    lemma_u64_be_roundtrip(n);
    assert(s.subrange(HEADER_LEN as int, s.len() as int) =~= a.payload);
}

/// Converse law: the decoder accepts nothing but encodings. Whenever a byte
/// sequence decodes at all, it is exactly the encoding of the action it
/// decodes to — no malformed input is silently accepted.
pub proof fn lemma_decode_encode(s: Seq<u8>)
    ensures
        spec_decode(s) matches Some(a) ==> a.wf() && spec_encode(a) == s,
{
    if spec_decode(s) is Some {
        let a = spec_decode(s).unwrap();
        lemma_u64_of_be_roundtrip(s.subrange(1, 9));
        lemma_u64_of_be_roundtrip(s.subrange(9, 17));
        assert(a.payload.len() == spec_u64_of_be(s.subrange(9, 17)));
        assert(spec_encode(a) =~= s);
    }
}

/// Appends the big-endian bytes of `x` to `out`.
fn push_u64_be(out: &mut Vec<u8>, x: u64)
    ensures
        final(out)@ == old(out)@ + spec_u64_be(x),
{
    out.push(((x >> 56) & 0xff) as u8);
    out.push(((x >> 48) & 0xff) as u8);
    out.push(((x >> 40) & 0xff) as u8);
    out.push(((x >> 32) & 0xff) as u8);
    out.push(((x >> 24) & 0xff) as u8);
    out.push(((x >> 16) & 0xff) as u8);
    out.push(((x >> 8) & 0xff) as u8);
    out.push((x & 0xff) as u8);
    assert(out@ =~= old(out)@ + spec_u64_be(x));
}

/// Reads the big-endian u64 stored at `bytes[off..off + 8]`.
fn read_u64_be(bytes: &[u8], off: usize) -> (x: u64)
    requires
        off + 8 <= bytes@.len(),
    ensures
        x == spec_u64_of_be(bytes@.subrange(off as int, off + 8)),
{
    let x = ((bytes[off] as u64) << 56) | ((bytes[off + 1] as u64) << 48)
        | ((bytes[off + 2] as u64) << 40) | ((bytes[off + 3] as u64) << 32)
        | ((bytes[off + 4] as u64) << 24) | ((bytes[off + 5] as u64) << 16)
        | ((bytes[off + 6] as u64) << 8) | (bytes[off + 7] as u64);
    assert(forall|k: int|
        0 <= k < 8 ==> #[trigger] bytes@.subrange(off as int, off + 8)[k] == bytes@[off + k]);
    x
}

impl GameAction {
    /// Builds an action from fully-specified fields; nothing is validated,
    /// as any turn and any payload are acceptable at this layer.
    pub fn new(turn: u64, payload: Vec<u8>) -> (r: GameAction)
        ensures
            r@ == (GameActionModel { turn, payload: payload@ }),
    {
        GameAction { turn, payload }
    }

    /// Encodes the action in the wire format described in the module
    /// documentation. Encoding never fails and is deterministic.
    pub fn encode(&self) -> (r: Vec<u8>)
        ensures
            r@ == spec_encode(self@),
    {
        let mut out: Vec<u8> = Vec::new();
        out.push(FORMAT_TAG);
        push_u64_be(&mut out, self.turn);
        push_u64_be(&mut out, self.payload.len() as u64);
        let ghost head = out@;
        let mut i: usize = 0;
        while i < self.payload.len()
            invariant
                i <= self.payload.len(),
                out@ == head + self.payload@.subrange(0, i as int),
            decreases self.payload.len() - i,
        {
            out.push(self.payload[i]);
            assert(out@ =~= head + self.payload@.subrange(0, i + 1));
            i = i + 1;
        }
        assert(self.payload@.subrange(0, self.payload@.len() as int) =~= self.payload@);
        assert(out@ =~= spec_encode(self@));
        out
    }

    /// Decodes a previously encoded action. Succeeds if and only if `bytes`
    /// is a well-formed encoding, and then returns exactly the action it
    /// encodes; every malformed input is reported as the [`DecodeError`]
    /// matching the first check it fails.
    pub fn decode(bytes: &[u8]) -> (r: Result<GameAction, DecodeError>)
        ensures
            r is Ok <==> spec_decode(bytes@) is Some,
            r matches Ok(a) ==> spec_decode(bytes@) == Some(a@),
            r matches Err(e) ==> e == spec_decode_err(bytes@),
    {
        if bytes.len() < HEADER_LEN {
            return Err(DecodeError::Truncated);
        }
        if bytes[0] != FORMAT_TAG {
            return Err(DecodeError::UnknownFormat);
        }
        let turn = read_u64_be(bytes, 1);
        let declared = read_u64_be(bytes, 9);
        let remaining = (bytes.len() - HEADER_LEN) as u64;
        if declared != remaining {
            return Err(DecodeError::LengthMismatch);
        }
        let mut payload: Vec<u8> = Vec::new();
        let mut i: usize = HEADER_LEN;
        while i < bytes.len()
            invariant
                HEADER_LEN <= i <= bytes@.len(),
                payload@ == bytes@.subrange(HEADER_LEN as int, i as int),
            decreases bytes@.len() - i,
        {
            payload.push(bytes[i]);
            assert(payload@ =~= bytes@.subrange(HEADER_LEN as int, i + 1));
            i = i + 1;
        }
        Ok(GameAction { turn, payload })
    }
}

} // verus!
