use vstd::prelude::*;

verus! {

/// The word after one left rotation by a byte: the first byte moves to the
/// end. A word of a single byte becomes the single byte zero, and the empty
/// word stays empty.
pub open spec fn rotated(w: Seq<u8>) -> Seq<u8> {
    if w.len() == 0 {
        Seq::empty()
    } else if w.len() == 1 {
        seq![0u8]
    } else {
        w.drop_first().push(w[0])
    }
}

/// Rotates `word` left by one byte (see `rotated`).
pub fn rot_word(word: &[u8]) -> (result: Vec<u8>)
    ensures
        result@ == rotated(word@),
{
    let n = word.len();
    let mut result: Vec<u8> = Vec::with_capacity(4);
    if n == 1 {
        result.push(0);
        return result;
    } else if n == 0 {
        return result;
    }
    let mut i: usize = 1;
    while i < n
        invariant
            n == word@.len(),
            1 <= i <= n,
            result@ == word@.subrange(1, i as int),
        decreases n - i,
    {
        result.push(word[i]);
        i = i + 1;
    }
    result.push(word[0]);
    assert(result@ =~= rotated(word@));
    result
}

/// Rotating a 4-byte word four times gives the word back.
pub proof fn lemma_rot_word_four_times(w: Seq<u8>)
    requires
        w.len() == 4,
    ensures
        rotated(rotated(rotated(rotated(w)))) == w,
{
    let r1 = rotated(w);
    let r2 = rotated(r1);
    let r3 = rotated(r2);
    let r4 = rotated(r3);
    assert(r1 =~= seq![w[1], w[2], w[3], w[0]]);
    assert(r2 =~= seq![w[2], w[3], w[0], w[1]]);
    assert(r3 =~= seq![w[3], w[0], w[1], w[2]]);
    assert(r4 =~= w);
}

} // verus!
