use vstd::prelude::*;

verus! {

/// A spectrum as `(frequency, power)` pairs, both held as single-precision
/// bit patterns. Bins are matched by the exact frequency bits.
pub type Spectrum = Vec<(u32, u32)>;

/// Some pair of `s` has frequency `f`.
pub open spec fn has_bin(s: Seq<(u32, u32)>, f: u32) -> bool {
    exists|k: int| 0 <= k < s.len() && s[k].0 == f
}

/// Pair `k` is the last pair of `s` with frequency `f`.
pub open spec fn is_last_bin(s: Seq<(u32, u32)>, f: u32, k: int) -> bool {
    &&& 0 <= k < s.len()
    &&& s[k].0 == f
    &&& forall|j: int| k < j < s.len() ==> s[j].0 != f
}

/// The power that `s` gives frequency `f`: that of its last pair with that
/// frequency (a later pair replaces an earlier one), or `+0.0` if none.
pub open spec fn power_of(s: Seq<(u32, u32)>, f: u32) -> u32 {
    if has_bin(s, f) {
        s[choose|k: int| is_last_bin(s, f, k)].1
    } else {
        0
    }
}

/// The union of the bins of `a` and `b`, each frequency with its power in
/// `a` and in `b`.
pub open spec fn bins(a: Seq<(u32, u32)>, b: Seq<(u32, u32)>) -> Map<u32, (u32, u32)> {
    Map::new(|f: u32| has_bin(a, f) || has_bin(b, f), |f: u32| (power_of(a, f), power_of(b, f)))
}

/// The frequencies of `r` are pairwise distinct.
pub open spec fn distinct_freqs(r: Seq<(u32, u32, u32)>) -> bool {
    forall|i: int, j: int| 0 <= i < j < r.len() ==> r[i].0 != r[j].0
}

/// Some entry of `r` has frequency `f`.
pub open spec fn lists_freq(r: Seq<(u32, u32, u32)>, f: u32) -> bool {
    exists|i: int| 0 <= i < r.len() && r[i].0 == f
}

/// The map from frequency to its pair of powers that `r` lists.
pub open spec fn as_bin_map(r: Seq<(u32, u32, u32)>) -> Map<u32, (u32, u32)> {
    Map::new(
        |f: u32| lists_freq(r, f),
        |f: u32| {
            let i = choose|i: int| 0 <= i < r.len() && r[i].0 == f;
            (r[i].1, r[i].2)
        },
    )
}

/// The power `s` gives frequency `f`, if it has a bin there.
pub fn lookup_power(s: &Spectrum, f: u32) -> (r: Option<u32>)
    ensures
        r is Some <==> has_bin(s@, f),
        r is Some ==> r->0 == power_of(s@, f),
{
    let mut i: usize = s.len();
    while i > 0
        invariant
            i <= s@.len(),
            forall|j: int| i <= j < s@.len() ==> s@[j].0 != f,
        decreases i,
    {
        i = i - 1;
        if s[i].0 == f {
            proof {
                assert(is_last_bin(s@, f, i as int));
                let k = choose|k: int| is_last_bin(s@, f, k);
                assert(k == i);
            }
            return Some(s[i].1);
        }
    }
    None
}

fn contains_freq(r: &Vec<(u32, u32, u32)>, f: u32) -> (found: bool)
    ensures
        found == lists_freq(r@, f),
{
    let mut i: usize = 0;
    while i < r.len()
        invariant
            i <= r@.len(),
            forall|j: int| 0 <= j < i ==> r@[j].0 != f,
        decreases r@.len() - i,
    {
        if r[i].0 == f {
            return true;
        }
        i = i + 1;
    }
    false
}

fn power_or_zero(s: &Spectrum, f: u32) -> (p: u32)
    ensures
        p == power_of(s@, f),
{
    match lookup_power(s, f) {
        Some(p) => p,
        None => 0,
    }
}

/// Adds to `out` every frequency of `src` that it lacks, with its powers.
fn collect_bins(src: &Spectrum, a: &Spectrum, b: &Spectrum, out: &mut Vec<(u32, u32, u32)>)
    requires
        distinct_freqs(old(out)@),
        forall|i: int|
            0 <= i < old(out)@.len() ==> (has_bin(a@, old(out)@[i].0) || has_bin(b@, old(out)@[i].0))
                && old(out)@[i].1 == power_of(a@, old(out)@[i].0) && old(out)@[i].2 == power_of(
                b@,
                old(out)@[i].0,
            ),
        forall|f: u32| has_bin(src@, f) ==> (has_bin(a@, f) || has_bin(b@, f)),
    ensures
        distinct_freqs(final(out)@),
        forall|i: int|
            0 <= i < final(out)@.len() ==> (has_bin(a@, final(out)@[i].0) || has_bin(
                b@,
                final(out)@[i].0,
            )) && final(out)@[i].1 == power_of(a@, final(out)@[i].0) && final(out)@[i].2
                == power_of(b@, final(out)@[i].0),
        forall|f: u32|
            lists_freq(old(out)@, f) ==> lists_freq(final(out)@, f),
        forall|f: u32|
            has_bin(src@, f) ==> lists_freq(final(out)@, f),
{
    let n = src.len();
    let mut k: usize = 0;
    while k < n
        invariant
            n == src@.len(),
            k <= n,
            forall|f: u32| has_bin(src@, f) ==> (has_bin(a@, f) || has_bin(b@, f)),
            distinct_freqs(out@),
            forall|i: int|
                0 <= i < out@.len() ==> (has_bin(a@, out@[i].0) || has_bin(b@, out@[i].0))
                    && out@[i].1 == power_of(a@, out@[i].0) && out@[i].2 == power_of(
                    b@,
                    out@[i].0,
                ),
            forall|f: u32|
                lists_freq(old(out)@, f) ==> lists_freq(out@, f),
            forall|j: int|
                0 <= j < k ==> lists_freq(out@, src@[j].0),
        decreases n - k,
    {
        let f = src[k].0;
        assert(has_bin(src@, f));
        if !contains_freq(out, f) {
            let pa = power_or_zero(a, f);
            let pb = power_or_zero(b, f);
            let ghost prev = out@;
            out.push((f, pa, pb));
            assert(out@[prev.len() as int].0 == f);
            assert forall|f2: u32|
                lists_freq(prev, f2) implies lists_freq(out@, f2) by {
                let i = choose|i: int| 0 <= i < prev.len() && prev[i].0 == f2;
                assert(out@[i].0 == f2);
            }
            assert forall|j: int| 0 <= j <= k implies lists_freq(out@, src@[j].0) by {
                if j < k {
                    let i = choose|i: int| 0 <= i < prev.len() && prev[i].0 == src@[j].0;
                    assert(out@[i].0 == src@[j].0);
                }
            }
        }
        k = k + 1;
    }
    assert forall|f: u32| has_bin(src@, f) implies lists_freq(out@, f) by {
        let j = choose|j: int| 0 <= j < src@.len() && src@[j].0 == f;
        assert(lists_freq(out@, src@[j].0));
    }
}

/// Aligns two spectra on the union of their frequency bins: one entry
/// `(frequency, power in a, power in b)` per frequency present in either,
/// an absent bin counting as power `+0.0`.
pub fn align_bins(a: &Spectrum, b: &Spectrum) -> (r: Vec<(u32, u32, u32)>)
    ensures
        distinct_freqs(r@),
        as_bin_map(r@) == bins(a@, b@),
{
    let mut out: Vec<(u32, u32, u32)> = Vec::new();
    collect_bins(a, a, b, &mut out);
    collect_bins(b, a, b, &mut out);
    proof {
        lemma_bin_map_of(out@, a@, b@);
    }
    out
}

proof fn lemma_bin_map_of(r: Seq<(u32, u32, u32)>, a: Seq<(u32, u32)>, b: Seq<(u32, u32)>)
    requires
        distinct_freqs(r),
        forall|i: int|
            0 <= i < r.len() ==> (has_bin(a, r[i].0) || has_bin(b, r[i].0)) && r[i].1 == power_of(
                a,
                r[i].0,
            ) && r[i].2 == power_of(b, r[i].0),
        forall|f: u32|
            has_bin(a, f) || has_bin(b, f) ==> lists_freq(r, f),
    ensures
        as_bin_map(r) == bins(a, b),
{
    assert forall|f: u32| #[trigger] as_bin_map(r).contains_key(f) implies as_bin_map(r)[f] == bins(
        a,
        b,
    )[f] by {
        let i = choose|i: int| 0 <= i < r.len() && r[i].0 == f;
        assert(r[i].0 == f);
    }
    assert(as_bin_map(r) =~= bins(a, b));
}

/// Aligning `b` with `a` gives the same bins as aligning `a` with `b`, with
/// the two powers of each bin swapped; the similarity computed from them is
/// therefore the same either way round.
pub proof fn lemma_bins_symmetric(a: Seq<(u32, u32)>, b: Seq<(u32, u32)>)
    ensures
        bins(b, a).dom() == bins(a, b).dom(),
        forall|f: u32|
            #[trigger] bins(a, b).contains_key(f) ==> bins(b, a)[f] == (bins(a, b)[f].1, bins(
                a,
                b,
            )[f].0),
{
    assert(bins(b, a).dom() =~= bins(a, b).dom());
}

/// Spectra on disjoint frequency grids overlap nowhere: in every aligned bin
/// one of the two powers is `+0.0`, so their dot product is zero.
pub proof fn lemma_disjoint_grids(a: Seq<(u32, u32)>, b: Seq<(u32, u32)>)
    requires
        forall|f: u32| !(has_bin(a, f) && has_bin(b, f)),
    ensures
        forall|f: u32|
            #[trigger] bins(a, b).contains_key(f) ==> bins(a, b)[f].0 == 0 || bins(a, b)[f].1 == 0,
{
}

} // verus!
