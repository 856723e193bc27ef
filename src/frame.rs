use vstd::prelude::*;

verus! {

/// The byte that ends a frame.
pub const SENTINEL: u8 = 0;

/// The frame that a byte stream starts with: every byte up to and including
/// the first sentinel, or the whole stream when it holds no sentinel.
pub open spec fn frame_of(s: Seq<u8>) -> Seq<u8>
    decreases s.len(),
{
    if s.len() == 0 {
        s
    } else if s[0] == SENTINEL {
        seq![SENTINEL]
    } else {
        seq![s[0]] + frame_of(s.drop_first())
    }
}

/// A stream without a sentinel is an unterminated frame of its own.
pub proof fn lemma_frame_of_unterminated(s: Seq<u8>)
    requires
        !s.contains(SENTINEL),
    ensures
        frame_of(s) == s,
    decreases s.len(),
{
    if s.len() > 0 {
        assert(!s.drop_first().contains(SENTINEL)) by {
            if s.drop_first().contains(SENTINEL) {
                let j = choose|j: int| 0 <= j < s.drop_first().len() && s.drop_first()[j] == SENTINEL;
                assert(s[j + 1] == SENTINEL);
            }
        }
        lemma_frame_of_unterminated(s.drop_first());
        assert(s =~= seq![s[0]] + s.drop_first());
    }
}

/// Bytes received before any sentinel belong to the frame, whatever follows.
pub proof fn lemma_frame_append(s: Seq<u8>, t: Seq<u8>)
    requires
        !s.contains(SENTINEL),
    ensures
        frame_of(s + t) == s + frame_of(t),
    decreases s.len(),
{
    if s.len() == 0 {
        assert(s + t =~= t);
        assert(s + frame_of(t) =~= frame_of(t));
    } else {
        assert(s[0] != SENTINEL);
        assert(!s.drop_first().contains(SENTINEL)) by {
            if s.drop_first().contains(SENTINEL) {
                let j = choose|j: int| 0 <= j < s.drop_first().len() && s.drop_first()[j] == SENTINEL;
                assert(s[j + 1] == SENTINEL);
            }
        }
        lemma_frame_append(s.drop_first(), t);
        assert((s + t).drop_first() =~= s.drop_first() + t);
        assert((s + t)[0] == s[0]);
        assert(s + frame_of(t) =~= seq![s[0]] + (s.drop_first() + frame_of(t)));
    }
}

/// A payload free of sentinels, sent with one sentinel after it, is read back
/// as exactly that payload and that sentinel.
pub proof fn lemma_round_trip(b: Seq<u8>)
    requires
        !b.contains(SENTINEL),
    ensures
        frame_of(b.push(SENTINEL)) == b.push(SENTINEL),
{
    lemma_frame_append(b, seq![SENTINEL]);
    assert(b.push(SENTINEL) =~= b + seq![SENTINEL]);
    assert(frame_of(seq![SENTINEL]) == seq![SENTINEL]);
}

} // verus!
