//! The mathematical model of a combination: which samples the combined
//! stream holds, and at which sample each clip ends.
//!
//! Clips are taken in pairs, one from each sequence. Pair `i` contributes the
//! `i`-th clip of the first sequence, a gap, and the `i`-th clip of the second
//! sequence; a further gap separates consecutive pairs. Time is counted in
//! samples over all channels, so that a gap of one second is as many samples
//! as the stream holds per second.

use vstd::prelude::*;

verus! {

/// `n` samples of silence.
pub open spec fn silence(n: nat) -> Seq<i32> {
    Seq::new(n, |i: int| 0i32)
}

/// The number of samples in the first `n` clips.
pub open spec fn clips_len(clips: Seq<Seq<i32>>, n: nat) -> nat
    decreases n,
{
    if n == 0 {
        0
    } else {
        clips_len(clips, (n - 1) as nat) + clips[n - 1].len()
    }
}

/// The combined stream of the first `n` pairs: it ends with the last clip of
/// the second sequence, and has no gap after it.
pub open spec fn interleaved(a: Seq<Seq<i32>>, b: Seq<Seq<i32>>, gap: nat, n: nat) -> Seq<i32>
    decreases n,
{
    if n == 0 {
        Seq::empty()
    } else if n == 1 {
        a[0] + silence(gap) + b[0]
    } else {
        interleaved(a, b, gap, (n - 1) as nat) + silence(gap) + a[n - 1] + silence(gap) + b[n - 1]
    }
}

/// The number of gaps in a stream of `n` pairs.
pub open spec fn gap_count(n: nat) -> nat {
    if n == 0 {
        0
    } else {
        (2 * n - 1) as nat
    }
}

/// The sample at which the `i`-th clip of the first sequence ends.
pub open spec fn stop_first(a: Seq<Seq<i32>>, b: Seq<Seq<i32>>, gap: nat, i: nat) -> nat {
    clips_len(a, i + 1) + clips_len(b, i) + 2 * i * gap
}

/// The sample at which the `i`-th clip of the second sequence ends.
pub open spec fn stop_second(a: Seq<Seq<i32>>, b: Seq<Seq<i32>>, gap: nat, i: nat) -> nat {
    clips_len(a, i + 1) + clips_len(b, i + 1) + (2 * i + 1) * gap
}

/// The records of a combination of `n` pairs, in the order in which the clips
/// enter the stream: each label with the sample at which its clip ends.
pub open spec fn timeline(
    labels_a: Seq<Seq<char>>,
    labels_b: Seq<Seq<char>>,
    a: Seq<Seq<i32>>,
    b: Seq<Seq<i32>>,
    gap: nat,
    n: nat,
) -> Seq<(Seq<char>, nat)> {
    Seq::new(
        2 * n,
        |k: int|
            if k % 2 == 0 {
                (labels_a[k / 2], stop_first(a, b, gap, (k / 2) as nat))
            } else {
                (labels_b[k / 2], stop_second(a, b, gap, (k / 2) as nat))
            },
    )
}

/// The stream of `n` pairs holds the samples of all its clips and
/// `gap_count(n)` gaps, and nothing else.
pub proof fn lemma_stream_len(a: Seq<Seq<i32>>, b: Seq<Seq<i32>>, gap: nat, n: nat)
    ensures
        interleaved(a, b, gap, n).len() == clips_len(a, n) + clips_len(b, n) + gap_count(n) * gap,
    decreases n,
{
    if n == 0 {
        assert(gap_count(0) * gap == 0) by (nonlinear_arith)
            requires
                gap_count(0) == 0,
        ;
    } else if n == 1 {
        reveal_with_fuel(clips_len, 2);
        assert(gap_count(1) * gap == gap) by (nonlinear_arith)
            requires
                gap_count(1) == 1,
        ;
    } else {
        let m = (n - 1) as nat;
        lemma_stream_len(a, b, gap, m);
        assert(gap_count(n) * gap == gap_count(m) * gap + 2 * gap) by (nonlinear_arith)
            requires
                gap_count(n) == gap_count(m) + 2,
        ;
    }
}

/// The total length of the gaps in a stream of `n >= 1` pairs is `2n - 1`
/// times the length of one gap, and the stream ends where its last clip ends:
/// no gap follows the final pair.
pub proof fn lemma_gaps(a: Seq<Seq<i32>>, b: Seq<Seq<i32>>, gap: nat, n: nat)
    requires
        n >= 1,
    ensures
        interleaved(a, b, gap, n).len() - clips_len(a, n) - clips_len(b, n) == (2 * n - 1) * gap,
        stop_second(a, b, gap, (n - 1) as nat) == interleaved(a, b, gap, n).len(),
        interleaved(a, b, gap, n).subrange(
            interleaved(a, b, gap, n).len() - b[n - 1].len(),
            interleaved(a, b, gap, n).len() as int,
        ) == b[n - 1],
{
    lemma_stream_len(a, b, gap, n);
    assert((2 * (n - 1) + 1) * gap == (2 * n - 1) * gap) by (nonlinear_arith);
    let s = interleaved(a, b, gap, n);
    assert(s.subrange(s.len() - b[n - 1].len(), s.len() as int) =~= b[n - 1]);
}

/// The end of a clip in the stream is the length of the stream up to and
/// including that clip.
pub proof fn lemma_stops(a: Seq<Seq<i32>>, b: Seq<Seq<i32>>, gap: nat, i: nat)
    ensures
        stop_second(a, b, gap, i) == interleaved(a, b, gap, i + 1).len(),
        stop_first(a, b, gap, i) == interleaved(a, b, gap, i).len() + (if i == 0 {
            0
        } else {
            gap
        }) + a[i as int].len(),
        stop_second(a, b, gap, i) == stop_first(a, b, gap, i) + gap + b[i as int].len(),
{
    lemma_stream_len(a, b, gap, i + 1);
    lemma_stream_len(a, b, gap, i);
    assert((2 * i + 1) * gap == 2 * i * gap + gap) by (nonlinear_arith);
    if i > 0 {
        assert(gap_count(i) * gap + gap == 2 * i * gap) by (nonlinear_arith)
            requires
                gap_count(i) == 2 * i - 1,
        ;
    } else {
        assert(2 * i * gap == 0) by (nonlinear_arith)
            requires
                i == 0,
        ;
    }
    assert(gap_count(i + 1) * gap == (2 * i + 1) * gap) by (nonlinear_arith)
        requires
            gap_count(i + 1) == 2 * i + 1,
    ;
}

/// A single pair yields two records: the first clip ends after its own
/// length, the second after both lengths and one gap.
pub proof fn lemma_single_pair(
    labels_a: Seq<Seq<char>>,
    labels_b: Seq<Seq<char>>,
    a: Seq<Seq<i32>>,
    b: Seq<Seq<i32>>,
    gap: nat,
)
    ensures
        timeline(labels_a, labels_b, a, b, gap, 1) == seq![
            (labels_a[0], a[0].len()),
            (labels_b[0], a[0].len() + gap + b[0].len()),
        ],
{
    reveal_with_fuel(clips_len, 2);
    lemma_stops(a, b, gap, 0);
    let t = timeline(labels_a, labels_b, a, b, gap, 1);
    assert(t[0] == (labels_a[0], a[0].len()));
    assert(t[1] == (labels_b[0], a[0].len() + gap + b[0].len()));
    assert(t =~= seq![(labels_a[0], a[0].len()), (labels_b[0], a[0].len() + gap + b[0].len())]);
}

/// With a gap of at least one sample, each record of a timeline ends later
/// than the record before it.
proof fn lemma_next_stop_later(
    labels_a: Seq<Seq<char>>,
    labels_b: Seq<Seq<char>>,
    a: Seq<Seq<i32>>,
    b: Seq<Seq<i32>>,
    gap: nat,
    n: nat,
    k: int,
)
    requires
        gap > 0,
        0 <= k,
        k + 1 < 2 * n,
    ensures
        timeline(labels_a, labels_b, a, b, gap, n)[k].1 < timeline(
            labels_a,
            labels_b,
            a,
            b,
            gap,
            n,
        )[k + 1].1,
{
    let i = (k / 2) as nat;
    lemma_stops(a, b, gap, i);
    if k % 2 == 0 {
        assert((k + 1) / 2 == i);
    } else {
        assert((k + 1) / 2 == i + 1);
        lemma_stops(a, b, gap, i + 1);
    }
}

/// A combination of `n` pairs yields `2n` records, and with a gap of at least
/// one sample their ends strictly increase.
pub proof fn lemma_timeline_increases(
    labels_a: Seq<Seq<char>>,
    labels_b: Seq<Seq<char>>,
    a: Seq<Seq<i32>>,
    b: Seq<Seq<i32>>,
    gap: nat,
    n: nat,
)
    requires
        gap > 0,
    ensures
        timeline(labels_a, labels_b, a, b, gap, n).len() == 2 * n,
        forall|j: int, k: int|
            0 <= j < k < 2 * n ==> timeline(labels_a, labels_b, a, b, gap, n)[j].1 < timeline(
                labels_a,
                labels_b,
                a,
                b,
                gap,
                n,
            )[k].1,
{
    let t = timeline(labels_a, labels_b, a, b, gap, n);
    assert forall|j: int, k: int| 0 <= j < k < 2 * n implies t[j].1 < t[k].1 by {
        lemma_stops_ordered(labels_a, labels_b, a, b, gap, n, j, k);
    }
}

proof fn lemma_stops_ordered(
    labels_a: Seq<Seq<char>>,
    labels_b: Seq<Seq<char>>,
    a: Seq<Seq<i32>>,
    b: Seq<Seq<i32>>,
    gap: nat,
    n: nat,
    j: int,
    k: int,
)
    requires
        gap > 0,
        0 <= j < k < 2 * n,
    ensures
        timeline(labels_a, labels_b, a, b, gap, n)[j].1 < timeline(
            labels_a,
            labels_b,
            a,
            b,
            gap,
            n,
        )[k].1,
    decreases k - j,
{
    lemma_next_stop_later(labels_a, labels_b, a, b, gap, n, k - 1);
    if j < k - 1 {
        lemma_stops_ordered(labels_a, labels_b, a, b, gap, n, j, k - 1);
    }
}

} // verus!
