use vstd::prelude::*;

use crate::error::LedgerError;

verus! {

/// Largest number of components of a derivation path.
pub const MAX_PATH_COMPONENTS: usize = 10;

/// Bit that marks a hardened path component.
pub const HARDENED: u32 = 0x8000_0000;

/// The four little-endian bytes of `w`.
pub open spec fn word_le(w: u32) -> Seq<u8> {
    seq![
        (w & 0xff) as u8,
        ((w >> 8u32) & 0xff) as u8,
        ((w >> 16u32) & 0xff) as u8,
        ((w >> 24u32) & 0xff) as u8,
    ]
}

/// The components of `path` as little-endian words, in the order given.
pub open spec fn words_le(path: Seq<u32>) -> Seq<u8>
    decreases path.len(),
{
    if path.len() == 0 {
        Seq::empty()
    } else {
        words_le(path.drop_last()) + word_le(path.last())
    }
}

/// Encoding of a derivation path: a count byte, then each component as a
/// little-endian 32-bit word.
pub open spec fn encoded_path(path: Seq<u32>) -> Seq<u8> {
    seq![path.len() as u8] + words_le(path)
}

/// The little-endian word that starts at byte `at` of `b`.
pub open spec fn le_word_at(b: Seq<u8>, at: int) -> u32 {
    (b[at] as u32) | ((b[at + 1] as u32) << 8u32) | ((b[at + 2] as u32) << 16u32) | ((b[at
        + 3] as u32) << 24u32)
}

/// Encodes a derivation path; fails when it has more than ten components.
pub fn encode_derivation_path(path: &[u32]) -> (r: Result<Vec<u8>, LedgerError>)
    ensures
        path@.len() > 10 ==> r == Err::<Vec<u8>, LedgerError>(
            LedgerError::InvalidDerivationPath,
        ),
        path@.len() <= 10 ==> r is Ok,
        r matches Ok(b) ==> b@ == encoded_path(path@) && b@.len() == 1 + 4 * path@.len(),
{
    if path.len() > MAX_PATH_COMPONENTS {
        return Err(LedgerError::InvalidDerivationPath);
    }
    let mut out: Vec<u8> = Vec::new();
    out.push(path.len() as u8);
    let mut i: usize = 0;
    while i < path.len()
        invariant
            i <= path@.len() <= 10,
            out@.len() == 1 + 4 * i,
            out@ == seq![path@.len() as u8] + words_le(path@.subrange(0, i as int)),
        decreases path@.len() - i,
    {
        let w = path[i];
        out.push((w & 0xff) as u8);
        out.push(((w >> 8u32) & 0xff) as u8);
        out.push(((w >> 16u32) & 0xff) as u8);
        out.push(((w >> 24u32) & 0xff) as u8);
        proof {
            let next = path@.subrange(0, i + 1);
            assert(next.drop_last() =~= path@.subrange(0, i as int));
            assert(out@ =~= seq![path@.len() as u8] + words_le(next));
        }
        i = i + 1;
    }
    proof {
        assert(path@.subrange(0, i as int) =~= path@);
    }
    Ok(out)
}

proof fn lemma_word_le_round_trip(w: u32)
    ensures
        le_word_at(word_le(w), 0) == w,
        ((w & HARDENED) != 0) <==> ((word_le(w)[3] & 0x80) != 0),
{
    let b0 = (w & 0xff) as u8;
    let b1 = ((w >> 8u32) & 0xff) as u8;
    let b2 = ((w >> 16u32) & 0xff) as u8;
    let b3 = ((w >> 24u32) & 0xff) as u8;
    assert(((b0 as u32) | ((b1 as u32) << 8u32) | ((b2 as u32) << 16u32) | ((b3 as u32)
        << 24u32)) == w) by (bit_vector)
        requires
            b0 == (w & 0xff) as u8,
            b1 == ((w >> 8u32) & 0xff) as u8,
            b2 == ((w >> 16u32) & 0xff) as u8,
            b3 == ((w >> 24u32) & 0xff) as u8,
    ;
    assert(((w & 0x8000_0000u32) != 0) <==> ((b3 & 0x80u8) != 0)) by (bit_vector)
        requires
            b3 == ((w >> 24u32) & 0xff) as u8,
    ;
}

proof fn lemma_words_le_layout(path: Seq<u32>)
    ensures
        words_le(path).len() == 4 * path.len(),
        forall|i: int|
            0 <= i < path.len() ==> #[trigger] words_le(path).subrange(4 * i, 4 * i + 4)
                == word_le(path[i]),
    decreases path.len(),
{
    if path.len() > 0 {
        let init = path.drop_last();
        lemma_words_le_layout(init);
        assert forall|i: int| 0 <= i < path.len() implies #[trigger] words_le(path).subrange(
            4 * i,
            4 * i + 4,
        ) == word_le(path[i]) by {
            if i < init.len() {
                assert(words_le(path).subrange(4 * i, 4 * i + 4) =~= words_le(init).subrange(
                    4 * i,
                    4 * i + 4,
                ));
            } else {
                assert(words_le(path).subrange(4 * i, 4 * i + 4) =~= word_le(path.last()));
            }
        }
    }
}

/// The encoding of a path of at most ten components is one count byte
/// followed by one four-byte word per component: reading the words back
/// gives the components in the order given, and the hardening bit of each
/// component is the high bit of the last byte of its word.
pub proof fn path_encoding_round_trips(path: Seq<u32>)
    requires
        path.len() <= 10,
    ensures
        encoded_path(path).len() == 1 + 4 * path.len(),
        encoded_path(path)[0] as nat == path.len(),
        forall|i: int|
            0 <= i < path.len() ==> #[trigger] le_word_at(encoded_path(path), 1 + 4 * i)
                == path[i],
        forall|i: int|
            0 <= i < path.len() ==> ((((#[trigger] path[i]) & HARDENED) != 0) <==> ((encoded_path(
                path,
            )[4 + 4 * i] & 0x80) != 0)),
{
    lemma_words_le_layout(path);
    let b = encoded_path(path);
    assert forall|i: int| 0 <= i < path.len() implies #[trigger] le_word_at(b, 1 + 4 * i)
        == path[i] by {
        lemma_component_word(path, i);
    }
    assert forall|i: int| 0 <= i < path.len() implies (((#[trigger] path[i]) & HARDENED) != 0)
        <==> ((b[4 + 4 * i] & 0x80) != 0) by {
        lemma_component_word(path, i);
    }
}

proof fn lemma_component_word(path: Seq<u32>, i: int)
    requires
        0 <= i < path.len(),
    ensures
        le_word_at(encoded_path(path), 1 + 4 * i) == path[i],
        ((path[i] & HARDENED) != 0) <==> ((encoded_path(path)[4 + 4 * i] & 0x80) != 0),
{
    lemma_words_le_layout(path);
    let b = encoded_path(path);
    let word = words_le(path).subrange(4 * i, 4 * i + 4);
    assert(word == word_le(path[i]));
    lemma_word_le_round_trip(path[i]);
    assert(b[1 + 4 * i] == word[0]);
    assert(b[2 + 4 * i] == word[1]);
    assert(b[3 + 4 * i] == word[2]);
    assert(b[4 + 4 * i] == word[3]);
    assert(le_word_at(b, 1 + 4 * i) == le_word_at(word_le(path[i]), 0));
}

} // verus!
