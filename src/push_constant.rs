use vstd::prelude::*;

use crate::error::GpuError;

verus! {

/// Largest raw payload, in bytes, that is still rejected as too small.
pub const PUSH_CONSTANT_FLOOR: usize = 128;

/// One 32-bit push-constant value with its type tag; a float is carried as
/// its IEEE-754 bit pattern.
#[derive(Clone, Copy, Debug, PartialEq, Eq, Structural)]
pub enum PushValue {
    Int32(i32),
    Float32(u32),
}

/// The 32-bit word that encodes `v`.
pub open spec fn word_of(v: PushValue) -> u32 {
    match v {
        PushValue::Int32(x) => x as u32,
        PushValue::Float32(bits) => bits,
    }
}

/// Little-endian bytes of `w`.
pub open spec fn le_bytes(w: u32) -> Seq<u8> {
    seq![(w & 0xff) as u8, ((w >> 8u32) & 0xff) as u8, ((w >> 16u32) & 0xff) as u8, (w >> 24u32) as u8]
}

/// The word that four little-endian bytes starting at `at` hold.
pub open spec fn decode_word(b: Seq<u8>, at: int) -> u32 {
    (b[at] as u32) | ((b[at + 1] as u32) << 8u32) | ((b[at + 2] as u32) << 16u32) | ((b[at + 3] as u32) << 24u32)
}

/// The values' words, back to back.
pub open spec fn encoded_words(vals: Seq<PushValue>) -> Seq<u8>
    decreases vals.len(),
{
    if vals.len() == 0 {
        Seq::empty()
    } else {
        encoded_words(vals.drop_last()) + le_bytes(word_of(vals.last()))
    }
}

/// Smallest multiple of 16 that is at least `n`.
pub open spec fn round_up_16(n: nat) -> nat {
    ((n + 15) / 16 * 16) as nat
}

/// The push-constant buffer of `vals`: their words, then zeros up to the
/// next multiple of 16 bytes.
pub open spec fn push_constant_bytes(vals: Seq<PushValue>) -> Seq<u8> {
    let raw = 4 * vals.len();
    encoded_words(vals) + Seq::new((round_up_16(raw) - raw) as nat, |k: int| 0u8)
}

fn word_bytes(w: u32) -> (r: [u8; 4])
    ensures
        r@ == le_bytes(w),
{
    [(w & 0xff) as u8, ((w >> 8u32) & 0xff) as u8, ((w >> 16u32) & 0xff) as u8, (w >> 24u32) as u8]
}

fn word(v: PushValue) -> (r: u32)
    ensures
        r == word_of(v),
{
    match v {
        PushValue::Int32(x) => x as u32,
        PushValue::Float32(bits) => bits,
    }
}

/// Encodes `values` into a push-constant buffer.
///
/// Payloads of 128 raw bytes or less are refused; the buffer is otherwise
/// padded with zeros to a multiple of 16 bytes.
pub fn create_push_constant(values: &[PushValue]) -> (r: Result<Vec<u8>, GpuError>)
    requires
        4 * values@.len() + 15 <= usize::MAX,
    ensures
        4 * values@.len() <= PUSH_CONSTANT_FLOOR ==> r == Err::<Vec<u8>, GpuError>(GpuError::PushConstantTooSmall),
        4 * values@.len() > PUSH_CONSTANT_FLOOR ==> r is Ok && r.unwrap()@ == push_constant_bytes(values@),
{
    let n = values.len();
    let raw: usize = 4 * n;
    if raw <= PUSH_CONSTANT_FLOOR {
        return Err(GpuError::PushConstantTooSmall);
    }
    let total: usize = (raw + 15) / 16 * 16;
    let mut out: Vec<u8> = Vec::new();
    let mut i: usize = 0;
    while i < n
        invariant
            i <= n,
            n == values@.len(),
            out@ == encoded_words(values@.subrange(0, i as int)),
            out@.len() == 4 * i,
        decreases n - i,
    {
        let b = word_bytes(word(values[i]));
        out.push(b[0]);
        out.push(b[1]);
        out.push(b[2]);
        out.push(b[3]);
        proof {
            let pre = values@.subrange(0, i as int);
            let next = values@.subrange(0, i + 1);
            assert(next.drop_last() =~= pre);
            assert(next.last() == values@[i as int]);
        }
        i = i + 1;
    }
    assert(values@.subrange(0, n as int) =~= values@);
    let ghost words = out@;
    while out.len() < total
        invariant
            total == round_up_16(raw as nat),
            raw == 4 * n,
            out@.len() <= total,
            words.len() == raw,
            out@ =~= words + Seq::new((out@.len() - raw) as nat, |k: int| 0u8),
        decreases total - out.len(),
    {
        out.push(0u8);
    }
    Ok(out)
}

/// Reading back four little-endian bytes gives the word that was written.
pub proof fn lemma_decode_le_bytes(w: u32)
    ensures
        decode_word(le_bytes(w), 0) == w,
{
    let b = le_bytes(w);
    let b0 = (w & 0xff) as u8;
    let b1 = ((w >> 8u32) & 0xff) as u8;
    let b2 = ((w >> 16u32) & 0xff) as u8;
    let b3 = (w >> 24u32) as u8;
    assert(b[0] == b0 && b[1] == b1 && b[2] == b2 && b[3] == b3);
    assert((b0 as u32) | ((b1 as u32) << 8u32) | ((b2 as u32) << 16u32) | ((b3 as u32) << 24u32) == w) by (bit_vector)
        requires
            b0 == (w & 0xff) as u8,
            b1 == ((w >> 8u32) & 0xff) as u8,
            b2 == ((w >> 16u32) & 0xff) as u8,
            b3 == (w >> 24u32) as u8,
    ;
}

proof fn lemma_encoded_words(vals: Seq<PushValue>)
    ensures
        encoded_words(vals).len() == 4 * vals.len(),
        forall|i: int| 0 <= i < vals.len() ==>
            #[trigger] encoded_words(vals).subrange(4 * i, 4 * i + 4) == le_bytes(word_of(vals[i])),
    decreases vals.len(),
{
    if vals.len() > 0 {
        let pre = vals.drop_last();
        lemma_encoded_words(pre);
        let e = encoded_words(vals);
        assert forall|i: int| 0 <= i < vals.len() implies
            #[trigger] e.subrange(4 * i, 4 * i + 4) == le_bytes(word_of(vals[i])) by {
            if i < pre.len() {
                assert(e.subrange(4 * i, 4 * i + 4) =~= encoded_words(pre).subrange(4 * i, 4 * i + 4));
            } else {
                assert(e.subrange(4 * i, 4 * i + 4) =~= le_bytes(word_of(vals.last())));
            }
        }
    }
}

/// A push-constant buffer is the smallest multiple of 16 bytes that holds
/// the payload, each value's slot decodes back to that value's word, and
/// every byte after the payload is zero.
pub proof fn lemma_push_constant_layout(vals: Seq<PushValue>)
    ensures
        push_constant_bytes(vals).len() % 16 == 0,
        push_constant_bytes(vals).len() >= 4 * vals.len(),
        push_constant_bytes(vals).len() < 4 * vals.len() + 16,
        forall|i: int| 0 <= i < vals.len() ==> #[trigger] decode_word(push_constant_bytes(vals), 4 * i) == word_of(vals[i]),
        forall|k: int| 4 * vals.len() <= k < push_constant_bytes(vals).len() ==> #[trigger] push_constant_bytes(vals)[k] == 0,
{
    let b = push_constant_bytes(vals);
    lemma_encoded_words(vals);
    let raw = 4 * vals.len();
    assert(round_up_16(raw) % 16 == 0 && round_up_16(raw) >= raw && round_up_16(raw) < raw + 16) by (nonlinear_arith)
        requires raw >= 0;
    assert forall|i: int| 0 <= i < vals.len() implies #[trigger] decode_word(b, 4 * i) == word_of(vals[i]) by {
        let slot = encoded_words(vals).subrange(4 * i, 4 * i + 4);
        assert(slot == le_bytes(word_of(vals[i])));
        lemma_decode_le_bytes(word_of(vals[i]));
        assert(b[4 * i] == slot[0] && b[4 * i + 1] == slot[1] && b[4 * i + 2] == slot[2] && b[4 * i + 3] == slot[3]);
    }
}

} // verus!
