//! Pairing and mixing of the frames of the two recorded streams.
//!
//! The first stream (the speaker loopback) delivers stereo frames, the second (the
//! microphone) delivers frames of four interleaved channels. Each mixed output frame takes
//! the two channels of one speaker frame and adds the first two channels of the matching
//! microphone frame to them; the other two microphone channels are skipped.
use vstd::prelude::*;

verus! {

/// The number of stereo output frames that mixing `la` speaker samples with `lb`
/// microphone samples produces: one per complete speaker frame, as long as the matching
/// microphone frame has its first two channels.
pub open spec fn mixed_pairs(la: nat, lb: nat) -> nat {
    let by_a = la / 2;
    let by_b = (lb + 2) / 4;
    if by_a <= by_b {
        by_a
    } else {
        by_b
    }
}

/// `out` is the mix of `a` and `b` under the sample combiner `combine`.
pub open spec fn is_mix_of<T, F: Fn(T, T) -> T>(a: Seq<T>, b: Seq<T>, combine: F, out: Seq<T>) -> bool {
    &&& out.len() == 2 * mixed_pairs(a.len(), b.len())
    &&& forall|i: int|
        #![trigger out[2 * i]]
        0 <= i < mixed_pairs(a.len(), b.len()) ==> combine.ensures((a[2 * i], b[4 * i]), out[2 * i])
            && combine.ensures((a[2 * i + 1], b[4 * i + 1]), out[2 * i + 1])
}

/// Mixing reads only samples that are there: every mixed pair takes a complete speaker
/// frame and the first two channels of a microphone frame.
pub proof fn lemma_mix_in_bounds(la: nat, lb: nat)
    ensures
        2 * mixed_pairs(la, lb) <= la,
        mixed_pairs(la, lb) > 0 ==> 4 * (mixed_pairs(la, lb) - 1) + 1 < lb,
{
}

/// The number of mixed pairs is the largest count that the two frames allow: each pair
/// needs a complete speaker frame and the first two channels of its microphone frame, and
/// one pair more would lack one of them. So every such pair is mixed, with no other bound.
pub proof fn lemma_mix_takes_every_pair(la: nat, lb: nat)
    ensures
        2 * mixed_pairs(la, lb) <= la,
        4 * mixed_pairs(la, lb) <= lb + 2,
        2 * (mixed_pairs(la, lb) + 1) > la || 4 * (mixed_pairs(la, lb) + 1) > lb + 2,
{
}

/// Mixes a speaker frame `a` with a microphone frame `b`: the `i`-th stereo pair of the
/// result is `combine(a[2i], b[4i]), combine(a[2i+1], b[4i+1])`. Mixing stops at the first speaker
/// frame that is incomplete or whose microphone frame lacks its first two channels.
pub fn mix_frames<T: Copy, F: Fn(T, T) -> T>(a: Vec<T>, b: Vec<T>, combine: F) -> (out: Vec<T>)
    requires
        forall|x: T, y: T| combine.requires((x, y)),
    ensures
        is_mix_of(a@, b@, combine, out@),
        out@.len() <= a@.len(),
        forall|i: int|
            #![trigger out@[2 * i]]
            0 <= 2 * i < out@.len() ==> combine.ensures((a@[2 * i], b@[4 * i]), out@[2 * i])
                && combine.ensures((a@[2 * i + 1], b@[4 * i + 1]), out@[2 * i + 1]),
        out@.len() + 2 > a@.len() || 2 * out@.len() + 4 > b@.len() + 2,
{
    let la = a.len();
    let lb = b.len();
    let by_a = la / 2;
    let by_b = lb / 4 + if lb % 4 >= 2 {
        1
    } else {
        0
    };
    assert(by_b == (lb + 2) / 4);
    let n = if by_a <= by_b {
        by_a
    } else {
        by_b
    };
    let mut frame: Vec<T> = Vec::new();
    let mut i: usize = 0;
    while i < n
        invariant
            n == mixed_pairs(a@.len(), b@.len()),
            2 * n <= la,
            4 * n <= lb + 2,
            la == a@.len(),
            lb == b@.len(),
            i <= n,
            forall|x: T, y: T| combine.requires((x, y)),
            frame@.len() == 2 * i,
            forall|j: int|
                #![trigger frame@[2 * j]]
                0 <= j < i ==> combine.ensures((a@[2 * j], b@[4 * j]), frame@[2 * j]) && combine.ensures(
                    (a@[2 * j + 1], b@[4 * j + 1]),
                    frame@[2 * j + 1],
                ),
        decreases n - i,
    {
        let ghost before = frame@;
        let s0 = combine(a[2 * i], b[4 * i]);
        let s1 = combine(a[2 * i + 1], b[4 * i + 1]);
        frame.push(s0);
        frame.push(s1);
        proof {
            assert forall|j: int| #![trigger frame@[2 * j]] 0 <= j < i + 1 implies combine.ensures(
                (a@[2 * j], b@[4 * j]),
                frame@[2 * j],
            ) && combine.ensures((a@[2 * j + 1], b@[4 * j + 1]), frame@[2 * j + 1]) by {
                if j < i {
                    assert(frame@[2 * j] == before[2 * j]);
                }
            }
        }
        i = i + 1;
    }
    assert(is_mix_of(a@, b@, combine, frame@));
    frame
}

} // verus!
