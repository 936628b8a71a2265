//! Jaro-Winkler similarity on bytes, kept as an exact fraction, and the
//! choice of the closest candidate.
use vstd::prelude::*;
use vstd::string::StringSliceAdditionalSpecFns;
use crate::text::str_eq;
use crate::text::utf8;

verus! {

/// Longest input, in bytes, that the similarity accepts; it keeps every
/// product of the computation inside `u128`.
pub const MAX_FUZZY_LEN: usize = 65535;

/// A similarity score held exactly as the fraction `num / den`.
#[derive(Clone, Copy, Debug)]
pub struct Similarity {
    pub num: u128,
    pub den: u128,
}

/// The score of two inputs that compare equal.
pub open spec fn one() -> (int, int) {
    (1, 1)
}

/// The score of two inputs with no matching byte.
pub open spec fn zero() -> (int, int) {
    (0, 1)
}

/// `x` is strictly greater than `y` as fractions with positive denominators.
pub open spec fn score_gt(x: (int, int), y: (int, int)) -> bool {
    x.0 * y.1 > y.0 * x.1
}

pub open spec fn sim_view(s: Similarity) -> (int, int) {
    (s.num as int, s.den as int)
}

/// Half the longer length, less one, and never below zero.
pub open spec fn max_dist(la: int, lb: int) -> int {
    let mx = if la > lb { la } else { lb };
    if mx / 2 >= 1 {
        mx / 2 - 1
    } else {
        0
    }
}

pub open spec fn window_start(i: int, md: int) -> int {
    if i > md {
        i - md
    } else {
        0
    }
}

pub open spec fn window_end(i: int, md: int, lb: int) -> int {
    if i + md + 1 < lb {
        i + md + 1
    } else {
        lb
    }
}

/// The first position `j` in `[lo, hi)` of `b` that holds `c` and is not
/// yet matched, or `hi` when there is none.
pub open spec fn find_match(c: u8, b: Seq<u8>, fb: Seq<bool>, lo: int, hi: int) -> int
    decreases hi - lo,
{
    if lo >= hi {
        hi
    } else if !fb[lo] && b[lo] == c {
        lo
    } else {
        find_match(c, b, fb, lo + 1, hi)
    }
}

/// The greedy matching after the first `i` bytes of `a`: which bytes of `a`
/// and which bytes of `b` are matched.
pub open spec fn match_flags(a: Seq<u8>, b: Seq<u8>, i: int) -> (Seq<bool>, Seq<bool>)
    decreases i,
{
    if i <= 0 {
        (Seq::empty(), Seq::new(b.len(), |j: int| false))
    } else {
        let prev = match_flags(a, b, i - 1);
        let md = max_dist(a.len() as int, b.len() as int);
        let lo = window_start(i - 1, md);
        let hi = window_end(i - 1, md, b.len() as int);
        let j = find_match(a[i - 1], b, prev.1, lo, hi);
        if j < hi {
            (prev.0.push(true), prev.1.update(j, true))
        } else {
            (prev.0.push(false), prev.1)
        }
    }
}

/// Number of set flags among the first `n`.
pub open spec fn count_true(f: Seq<bool>, n: int) -> int
    decreases n,
{
    if n <= 0 {
        0
    } else {
        count_true(f, n - 1) + if f[n - 1] {
            1int
        } else {
            0int
        }
    }
}

/// The bytes among the first `n` of `s` whose flag is set, in order.
pub open spec fn picked(s: Seq<u8>, f: Seq<bool>, n: int) -> Seq<u8>
    decreases n,
{
    if n <= 0 {
        Seq::empty()
    } else if f[n - 1] {
        picked(s, f, n - 1).push(s[n - 1])
    } else {
        picked(s, f, n - 1)
    }
}

/// Number of positions below `n` where `x` and `y` differ.
pub open spec fn mismatches(x: Seq<u8>, y: Seq<u8>, n: int) -> int
    decreases n,
{
    if n <= 0 {
        0
    } else {
        mismatches(x, y, n - 1) + if x[n - 1] != y[n - 1] {
            1int
        } else {
            0int
        }
    }
}

/// Length of the common prefix of `a` and `b` from position `k` on.
pub open spec fn common_prefix(a: Seq<u8>, b: Seq<u8>, k: int) -> int
    decreases a.len() - k,
{
    if 0 <= k && k < a.len() && k < b.len() && a[k] == b[k] {
        1 + common_prefix(a, b, k + 1)
    } else {
        0
    }
}

/// Number of matched bytes.
pub open spec fn jw_matches(a: Seq<u8>, b: Seq<u8>) -> int {
    count_true(match_flags(a, b, a.len() as int).0, a.len() as int)
}

/// Number of matched bytes that stand in another order in `b` than in `a`.
pub open spec fn jw_transpositions(a: Seq<u8>, b: Seq<u8>) -> int {
    let fl = match_flags(a, b, a.len() as int);
    mismatches(
        picked(a, fl.0, a.len() as int),
        picked(b, fl.1, b.len() as int),
        jw_matches(a, b),
    )
}

/// The Jaro-Winkler similarity of `a` and `b` as a fraction:
/// jaro = (m / |a| + m / |b| + (m - t / 2) / m) / 3 and
/// jw = jaro + min(prefix, 4) * 0.1 * (1 - jaro), and 0 when nothing matches.
pub open spec fn jaro_winkler_spec(a: Seq<u8>, b: Seq<u8>) -> (int, int) {
    let m = jw_matches(a, b);
    if m == 0 {
        zero()
    } else {
        let la = a.len() as int;
        let lb = b.len() as int;
        let t = jw_transpositions(a, b);
        let d = 6 * la * lb * m;
        let j = 2 * m * m * lb + 2 * m * m * la + (2 * m - t) * la * lb;
        let p = if common_prefix(a, b, 0) < 4 {
            common_prefix(a, b, 0)
        } else {
            4
        };
        (10 * j + p * (d - j), 10 * d)
    }
}

/// A score is a fraction with a positive denominator, at most one, small
/// enough to be compared by cross products in `u128`.
pub open spec fn well_formed_score(s: (int, int)) -> bool {
    &&& 0 < s.1 < 0x100_0000_0000_0000
    &&& 0 <= s.0 <= s.1
}

// ---------------------------------------------------------------- lemmas

proof fn lemma_count_bounds(f: Seq<bool>, n: int)
    requires
        0 <= n,
    ensures
        0 <= count_true(f, n) <= n,
    decreases n,
{
    if n > 0 {
        lemma_count_bounds(f, n - 1);
    }
}

proof fn lemma_count_ext(f: Seq<bool>, g: Seq<bool>, n: int)
    requires
        0 <= n <= f.len(),
        n <= g.len(),
        forall|k: int| 0 <= k < n ==> f[k] == g[k],
    ensures
        count_true(f, n) == count_true(g, n),
    decreases n,
{
    if n > 0 {
        lemma_count_ext(f, g, n - 1);
    }
}

proof fn lemma_count_all_false(len: nat, n: int)
    requires
        0 <= n <= len,
    ensures
        count_true(Seq::new(len, |j: int| false), n) == 0,
    decreases n,
{
    if n > 0 {
        lemma_count_all_false(len, n - 1);
    }
}

proof fn lemma_count_mono(f: Seq<bool>, n: int, m: int)
    requires
        0 <= n <= m,
    ensures
        count_true(f, n) <= count_true(f, m),
    decreases m - n,
{
    if n < m {
        lemma_count_mono(f, n, m - 1);
    }
}

proof fn lemma_count_update(f: Seq<bool>, j: int, n: int)
    requires
        0 <= j < n <= f.len(),
        !f[j],
    ensures
        count_true(f.update(j, true), n) == count_true(f, n) + 1,
    decreases n,
{
    if n - 1 == j {
        lemma_count_ext(f.update(j, true), f, n - 1);
    } else {
        lemma_count_update(f, j, n - 1);
    }
}

proof fn lemma_picked_len(s: Seq<u8>, f: Seq<bool>, n: int)
    requires
        0 <= n,
    ensures
        picked(s, f, n).len() == count_true(f, n),
    decreases n,
{
    if n > 0 {
        lemma_picked_len(s, f, n - 1);
    }
}

/// `picked(s, f, n)` is a prefix of `picked(s, f, m)` for `n <= m`.
proof fn lemma_picked_prefix(s: Seq<u8>, f: Seq<bool>, n: int, m: int)
    requires
        0 <= n <= m,
    ensures
        picked(s, f, n).len() <= picked(s, f, m).len(),
        forall|p: int|
            0 <= p < picked(s, f, n).len() ==> #[trigger] picked(s, f, m)[p] == picked(
                s,
                f,
                n,
            )[p],
    decreases m - n,
{
    if n < m {
        lemma_picked_prefix(s, f, n, m - 1);
    }
}

proof fn lemma_mismatches_bounds(x: Seq<u8>, y: Seq<u8>, n: int)
    requires
        0 <= n,
    ensures
        0 <= mismatches(x, y, n) <= n,
    decreases n,
{
    if n > 0 {
        lemma_mismatches_bounds(x, y, n - 1);
    }
}

proof fn lemma_mismatches_ext(x: Seq<u8>, y: Seq<u8>, x2: Seq<u8>, y2: Seq<u8>, n: int)
    requires
        0 <= n,
        n <= x.len(),
        n <= y.len(),
        n <= x2.len(),
        n <= y2.len(),
        forall|k: int| 0 <= k < n ==> x[k] == x2[k] && y[k] == y2[k],
    ensures
        mismatches(x, y, n) == mismatches(x2, y2, n),
    decreases n,
{
    if n > 0 {
        lemma_mismatches_ext(x, y, x2, y2, n - 1);
    }
}

proof fn lemma_find_match_range(c: u8, b: Seq<u8>, fb: Seq<bool>, lo: int, hi: int)
    requires
        0 <= lo,
        hi <= b.len(),
        hi <= fb.len(),
    ensures
        find_match(c, b, fb, lo, hi) == hi || (lo <= find_match(c, b, fb, lo, hi) < hi && !fb[find_match(c, b, fb, lo, hi)]),
    decreases hi - lo,
{
    if lo < hi {
        lemma_find_match_range(c, b, fb, lo + 1, hi);
    }
}

/// The flags keep their lengths and the two sides count the same matches.
proof fn lemma_match_flags(a: Seq<u8>, b: Seq<u8>, i: int)
    requires
        0 <= i <= a.len(),
    ensures
        match_flags(a, b, i).0.len() == i,
        match_flags(a, b, i).1.len() == b.len(),
        count_true(match_flags(a, b, i).1, b.len() as int) == count_true(
            match_flags(a, b, i).0,
            i,
        ),
    decreases i,
{
    if i <= 0 {
        lemma_count_all_false(b.len(), b.len() as int);
    } else {
        lemma_match_flags(a, b, i - 1);
        let prev = match_flags(a, b, i - 1);
        let md = max_dist(a.len() as int, b.len() as int);
        let lo = window_start(i - 1, md);
        let hi = window_end(i - 1, md, b.len() as int);
        lemma_find_match_range(a[i - 1], b, prev.1, lo, hi);
        let j = find_match(a[i - 1], b, prev.1, lo, hi);
        lemma_count_ext(prev.0.push(true), prev.0, i - 1);
        lemma_count_ext(prev.0.push(false), prev.0, i - 1);
        if j < hi {
            lemma_count_update(prev.1, j, b.len() as int);
            assert(match_flags(a, b, i) == (prev.0.push(true), prev.1.update(j, true)));
            assert(count_true(prev.0.push(true), i) == count_true(prev.0, i - 1) + 1);
        } else {
            assert(match_flags(a, b, i) == (prev.0.push(false), prev.1));
            assert(count_true(prev.0.push(false), i) == count_true(prev.0, i - 1));
        }
    }
}

/// The score is a well-formed fraction for inputs of bounded length.
pub proof fn lemma_jaro_winkler_well_formed(a: Seq<u8>, b: Seq<u8>)
    requires
        a.len() <= MAX_FUZZY_LEN,
        b.len() <= MAX_FUZZY_LEN,
    ensures
        well_formed_score(jaro_winkler_spec(a, b)),
{
    let m = jw_matches(a, b);
    if m != 0 {
        let la = a.len() as int;
        let lb = b.len() as int;
        lemma_match_flags(a, b, la);
        let fl = match_flags(a, b, la);
        lemma_count_bounds(fl.0, la);
        lemma_count_bounds(fl.1, lb);
        let t = jw_transpositions(a, b);
        lemma_mismatches_bounds(picked(a, fl.0, la), picked(b, fl.1, lb), m);
        lemma_common_prefix_nonneg(a, b, 0);
        lemma_score_arith(la, lb, m, t, if common_prefix(a, b, 0) < 4 {
            common_prefix(a, b, 0)
        } else {
            4
        }, common_prefix(a, b, 0));
    }
}

proof fn lemma_common_prefix_nonneg(a: Seq<u8>, b: Seq<u8>, k: int)
    ensures
        common_prefix(a, b, k) >= 0,
    decreases a.len() - k,
{
    if 0 <= k && k < a.len() && k < b.len() && a[k] == b[k] {
        lemma_common_prefix_nonneg(a, b, k + 1);
    }
}

proof fn lemma_u128_products(la: int, lb: int, m: int, t: int)
    requires
        1 <= m <= la <= MAX_FUZZY_LEN,
        m <= lb <= MAX_FUZZY_LEN,
        0 <= t <= m,
    ensures
        0 <= la * lb <= 65535 * 65535,
        0 <= 6 * la <= 6 * 65535,
        0 <= 6 * la * lb <= 6 * 65535 * 65535,
        0 <= 6 * la * lb * m <= 6 * 65535 * 65535 * 65535,
        0 <= 2 * m <= 2 * 65535,
        0 <= 2 * m * m <= 2 * 65535 * 65535,
        0 <= 2 * m * m * lb <= 2 * 65535 * 65535 * 65535,
        0 <= 2 * m * m * la <= 2 * 65535 * 65535 * 65535,
        0 <= (2 * m - t) * la <= 2 * 65535 * 65535,
        0 <= (2 * m - t) * la * lb <= 2 * 65535 * 65535 * 65535,
{
    assert(0 <= la * lb <= 65535 * 65535) by (nonlinear_arith)
        requires
            0 <= la <= 65535,
            0 <= lb <= 65535,
    ;
    assert(0 <= 6 * la * lb * m <= 6 * 65535 * 65535 * 65535) by (nonlinear_arith)
        requires
            0 <= la <= 65535,
            0 <= lb <= 65535,
            0 <= m <= 65535,
    ;
    assert(0 <= 6 * la * lb <= 6 * 65535 * 65535) by (nonlinear_arith)
        requires
            0 <= la <= 65535,
            0 <= lb <= 65535,
    ;
    assert(0 <= 2 * m * m <= 2 * 65535 * 65535) by (nonlinear_arith)
        requires
            0 <= m <= 65535,
    ;
    assert(0 <= 2 * m * m * lb <= 2 * 65535 * 65535 * 65535) by (nonlinear_arith)
        requires
            0 <= m <= 65535,
            0 <= lb <= 65535,
    ;
    assert(0 <= 2 * m * m * la <= 2 * 65535 * 65535 * 65535) by (nonlinear_arith)
        requires
            0 <= m <= 65535,
            0 <= la <= 65535,
    ;
    assert(0 <= (2 * m - t) * la <= 2 * 65535 * 65535) by (nonlinear_arith)
        requires
            0 <= 2 * m - t <= 2 * 65535,
            0 <= la <= 65535,
    ;
    assert(0 <= (2 * m - t) * la * lb <= 2 * 65535 * 65535 * 65535) by (nonlinear_arith)
        requires
            0 <= 2 * m - t <= 2 * 65535,
            0 <= la <= 65535,
            0 <= lb <= 65535,
    ;
}

proof fn lemma_score_arith(la: int, lb: int, m: int, t: int, p: int, cp: int)
    requires
        1 <= m <= la <= MAX_FUZZY_LEN,
        m <= lb <= MAX_FUZZY_LEN,
        0 <= t <= m,
        0 <= p <= 4,
    ensures
        ({
            let d = 6 * la * lb * m;
            let j = 2 * m * m * lb + 2 * m * m * la + (2 * m - t) * la * lb;
            &&& 0 <= j <= d
            &&& 0 < 10 * d < 0x100_0000_0000_0000
            &&& 0 <= 10 * j + p * (d - j) <= 10 * d
        }),
{
    let d = 6 * la * lb * m;
    let j = 2 * m * m * lb + 2 * m * m * la + (2 * m - t) * la * lb;
    assert(m * m * lb <= m * la * lb) by (nonlinear_arith)
        requires
            1 <= m <= la,
            0 <= lb,
    ;
    assert(m * m * la <= m * la * lb) by (nonlinear_arith)
        requires
            1 <= m <= lb,
            0 <= la,
    ;
    assert((2 * m - t) * la * lb <= 2 * m * la * lb) by (nonlinear_arith)
        requires
            0 <= t,
            0 <= la,
            0 <= lb,
    ;
    assert(0 <= (2 * m - t) * la * lb) by (nonlinear_arith)
        requires
            t <= m,
            0 <= m,
            0 <= la,
            0 <= lb,
    ;
    assert(0 <= m * m * lb && 0 <= m * m * la) by (nonlinear_arith)
        requires
            0 <= la,
            0 <= lb,
    ;
    assert(0 < la * lb * m <= 65535 * 65535 * 65535) by (nonlinear_arith)
        requires
            1 <= m <= la <= 65535,
            m <= lb <= 65535,
    ;
    assert(j <= d) by (nonlinear_arith)
        requires
            m * m * lb <= m * la * lb,
            m * m * la <= m * la * lb,
            (2 * m - t) * la * lb <= 2 * m * la * lb,
            d == 6 * la * lb * m,
            j == 2 * m * m * lb + 2 * m * m * la + (2 * m - t) * la * lb,
    ;
    assert(0 <= j) by (nonlinear_arith)
        requires
            0 <= (2 * m - t) * la * lb,
            0 <= m * m * lb,
            0 <= m * m * la,
            j == 2 * m * m * lb + 2 * m * m * la + (2 * m - t) * la * lb,
    ;
    assert(0 < 10 * d < 0x100_0000_0000_0000) by (nonlinear_arith)
        requires
            0 < la * lb * m <= 65535 * 65535 * 65535,
            d == 6 * la * lb * m,
    ;
    assert(m * la * lb == la * lb * m) by (nonlinear_arith);
    assert(0 <= p * (d - j) <= 10 * (d - j)) by (nonlinear_arith)
        requires
            0 <= p <= 10,
            0 <= d - j,
    ;
}


// ---------------------------------------------------------------- exec

/// The Jaro-Winkler similarity of two byte strings, with no shortcut for
/// equal inputs: bytes within half the longer length match greedily in
/// order, transpositions count the matched bytes out of order, and a common
/// prefix of up to four bytes raises the score.
pub fn jaro_winkler_bytes(a: &[u8], b: &[u8]) -> (r: Similarity)
    requires
        a@.len() <= MAX_FUZZY_LEN,
        b@.len() <= MAX_FUZZY_LEN,
    ensures
        sim_view(r) == jaro_winkler_spec(a@, b@),
        well_formed_score(sim_view(r)),
{
    proof {
        lemma_jaro_winkler_well_formed(a@, b@);
    }
    let la = a.len();
    let lb = b.len();
    let mx = if la > lb {
        la
    } else {
        lb
    };
    let md = if mx / 2 >= 1 {
        mx / 2 - 1
    } else {
        0
    };
    let mut flags_a: Vec<bool> = Vec::new();
    let mut flags_b: Vec<bool> = Vec::new();
    let mut k: usize = 0;
    while k < lb
        invariant
            k <= lb,
            lb == b@.len(),
            flags_b@ == Seq::new(k as nat, |j: int| false),
        decreases lb - k,
    {
        flags_b.push(false);
        k += 1;
    }
    assert(flags_b@ =~= match_flags(a@, b@, 0).1);
    let mut matches: usize = 0;
    let mut i: usize = 0;
    while i < la
        invariant
            i <= la,
            la == a@.len(),
            lb == b@.len(),
            la <= MAX_FUZZY_LEN,
            lb <= MAX_FUZZY_LEN,
            md == max_dist(la as int, lb as int),
            (flags_a@, flags_b@) == match_flags(a@, b@, i as int),
            matches == count_true(flags_a@, i as int),
        decreases la - i,
    {
        proof {
            lemma_match_flags(a@, b@, i as int);
            lemma_count_bounds(flags_a@, i as int);
        }
        let start = if i > md {
            i - md
        } else {
            0
        };
        let end = if i + md + 1 < lb {
            i + md + 1
        } else {
            lb
        };
        let ai = a[i];
        let ghost fb = flags_b@;
        let mut j = start;
        while j < end
            invariant
                start <= j,
                j > end ==> j == start,
                end <= lb,
                lb == b@.len(),
                flags_b@ == fb,
                fb.len() == lb,
                find_match(ai, b@, fb, start as int, end as int) == find_match(
                    ai,
                    b@,
                    fb,
                    j as int,
                    end as int,
                ),
            ensures
                j < end ==> find_match(ai, b@, fb, start as int, end as int) == j,
                j >= end ==> find_match(ai, b@, fb, start as int, end as int) == end,
            decreases end - j,
        {
            if !flags_b[j] && b[j] == ai {
                break ;
            }
            j += 1;
        }
        proof {
            lemma_count_ext(flags_a@.push(true), flags_a@, i as int);
            lemma_count_ext(flags_a@.push(false), flags_a@, i as int);
        }
        if j < end {
            flags_a.push(true);
            flags_b.set(j, true);
            matches += 1;
        } else {
            flags_a.push(false);
        }
        i += 1;
    }
    proof {
        lemma_match_flags(a@, b@, la as int);
        lemma_count_bounds(flags_a@, la as int);
    }
    if matches == 0 {
        return Similarity { num: 0, den: 1 };
    }
    let ghost fa = flags_a@;
    let ghost fbf = flags_b@;
    let ghost xa = picked(a@, fa, la as int);
    let ghost xb = picked(b@, fbf, lb as int);
    let mut transpositions: usize = 0;
    let mut b_ptr: usize = 0;
    let mut i: usize = 0;
    while i < la
        invariant
            i <= la,
            b_ptr <= lb,
            la == a@.len(),
            lb == b@.len(),
            flags_a@ == fa,
            flags_b@ == fbf,
            fa.len() == la,
            fbf.len() == lb,
            matches == count_true(fa, la as int),
            count_true(fbf, lb as int) == count_true(fa, la as int),
            xa == picked(a@, fa, la as int),
            xb == picked(b@, fbf, lb as int),
            count_true(fbf, b_ptr as int) == count_true(fa, i as int),
            transpositions == mismatches(xa, xb, count_true(fa, i as int)),
            transpositions <= count_true(fa, i as int),
        decreases la - i,
    {
        proof {
            lemma_count_bounds(fa, i as int);
            lemma_count_bounds(fa, la as int);
        }
        if flags_a[i] {
            let ghost c = count_true(fa, i as int);
            proof {
                lemma_count_mono(fa, i as int + 1, la as int);
            }
            while !flags_b[b_ptr]
                invariant
                    b_ptr < lb,
                    lb == b@.len(),
                    flags_b@ == fbf,
                    fbf.len() == lb,
                    count_true(fbf, b_ptr as int) == c,
                    c < count_true(fbf, lb as int),
                decreases lb - b_ptr,
            {
                b_ptr += 1;
                proof {
                    if b_ptr == lb {
                        assert(false);
                    }
                }
            }
            proof {
                lemma_picked_len(a@, fa, i as int);
                lemma_picked_len(b@, fbf, b_ptr as int);
                lemma_picked_prefix(a@, fa, i as int + 1, la as int);
                lemma_picked_prefix(b@, fbf, b_ptr as int + 1, lb as int);
                assert(xa[c] == a@[i as int]);
                assert(xb[c] == b@[b_ptr as int]);
            }
            if a[i] != b[b_ptr] {
                transpositions += 1;
            }
            b_ptr += 1;
            proof {
                lemma_count_bounds(fbf, b_ptr as int);
            }
        }
        i += 1;
    }
    proof {
        lemma_count_bounds(fa, la as int);
    }
    let mut prefix: usize = 0;
    while prefix < la && prefix < lb && a[prefix] == b[prefix]
        invariant
            prefix <= la,
            la == a@.len(),
            lb == b@.len(),
            prefix + common_prefix(a@, b@, prefix as int) == common_prefix(a@, b@, 0),
        decreases la - prefix,
    {
        prefix += 1;
    }
    let p: u128 = if prefix < 4 {
        prefix as u128
    } else {
        4
    };
    let m = matches as u128;
    let t = transpositions as u128;
    let la2 = la as u128;
    let lb2 = lb as u128;
    proof {
        assert(jw_matches(a@, b@) == m);
        assert(jw_transpositions(a@, b@) == t);
        lemma_count_bounds(fbf, lb as int);
        lemma_mismatches_bounds(xa, xb, m as int);
        lemma_u128_products(la as int, lb as int, m as int, t as int);
        lemma_common_prefix_nonneg(a@, b@, 0);
        lemma_score_arith(la as int, lb as int, m as int, t as int, p as int, 0);
    }
    let d = 6 * la2 * lb2 * m;
    let jn = 2 * m * m * lb2 + 2 * m * m * la2 + (2 * m - t) * la2 * lb2;
    Similarity { num: 10 * jn + p * (d - jn), den: 10 * d }
}


/// The similarity of two strings: one when they hold the same characters,
/// else the Jaro-Winkler similarity of their UTF-8 bytes.
pub fn jaro_winkler_ascii_bitmask(a: &str, b: &str) -> (r: Similarity)
    requires
        a@ == b@ || (a.spec_bytes().len() <= MAX_FUZZY_LEN && b.spec_bytes().len()
            <= MAX_FUZZY_LEN),
    ensures
        sim_view(r) == (if a@ == b@ {
            one()
        } else {
            jaro_winkler_spec(utf8(a@), utf8(b@))
        }),
        well_formed_score(sim_view(r)),
{
    if str_eq(a, b) {
        Similarity { num: 1, den: 1 }
    } else {
        jaro_winkler_bytes(a.as_bytes(), b.as_bytes())
    }
}

/// Whether the score `x` is strictly greater than `y`.
pub fn score_greater(x: &Similarity, y: &Similarity) -> (r: bool)
    requires
        well_formed_score(sim_view(*x)),
        well_formed_score(sim_view(*y)),
    ensures
        r == score_gt(sim_view(*x), sim_view(*y)),
{
    proof {
        lemma_cross_bound(x.num as int, y.den as int);
        lemma_cross_bound(y.num as int, x.den as int);
    }
    x.num * y.den > y.num * x.den
}

proof fn lemma_cross_bound(a: int, b: int)
    requires
        0 <= a < 0x100_0000_0000_0000,
        0 <= b < 0x100_0000_0000_0000,
    ensures
        0 <= a * b < 0x1_0000_0000_0000_0000_0000_0000_0000,
{
    assert(0 <= a * b <= 0xff_ffff_ffff_ffff * 0xff_ffff_ffff_ffff) by (nonlinear_arith)
        requires
            0 <= a <= 0xff_ffff_ffff_ffff,
            0 <= b <= 0xff_ffff_ffff_ffff,
    ;
}

/// "Not greater" is transitive for fractions with positive denominators.
pub proof fn lemma_score_le_trans(x: (int, int), y: (int, int), z: (int, int))
    requires
        x.1 > 0,
        y.1 > 0,
        z.1 > 0,
        !score_gt(x, y),
        !score_gt(y, z),
    ensures
        !score_gt(x, z),
{
    let (x0, x1) = x;
    let (y0, y1) = y;
    let (z0, z1) = z;
    assert(x0 * y1 * z1 <= y0 * x1 * z1) by (nonlinear_arith)
        requires
            x0 * y1 <= y0 * x1,
            z1 > 0,
    ;
    assert(y0 * z1 * x1 <= z0 * y1 * x1) by (nonlinear_arith)
        requires
            y0 * z1 <= z0 * y1,
            x1 > 0,
    ;
    assert(x0 * z1 <= z0 * x1) by (nonlinear_arith)
        requires
            x0 * y1 * z1 <= y0 * x1 * z1,
            y0 * z1 * x1 <= z0 * y1 * x1,
            y1 > 0,
    ;
}

/// The bytes by which a candidate is compared.
pub trait ToBytes {
    spec fn spec_to_bytes(&self) -> Seq<u8>;

    fn to_bytes(&self) -> (r: Vec<u8>)
        ensures
            r@ == self.spec_to_bytes(),
    ;
}

/// Whether a candidate is exactly what was asked for.
pub trait EqualsTarget {
    spec fn spec_equals_target(&self, target: Seq<char>) -> bool;

    fn equals_target(&self, target: &str) -> (r: bool)
        ensures
            r == self.spec_equals_target(target@),
    ;
}

impl<'a> ToBytes for &'a str {
    open spec fn spec_to_bytes(&self) -> Seq<u8> {
        utf8((*self)@)
    }

    fn to_bytes(&self) -> (r: Vec<u8>) {
        vstd::slice::slice_to_vec((*self).as_bytes())
    }
}

impl<'a> EqualsTarget for &'a str {
    open spec fn spec_equals_target(&self, target: Seq<char>) -> bool {
        target == (*self)@
    }

    fn equals_target(&self, target: &str) -> (r: bool) {
        str_eq(target, *self)
    }
}

impl ToBytes for String {
    open spec fn spec_to_bytes(&self) -> Seq<u8> {
        utf8(self@)
    }

    fn to_bytes(&self) -> (r: Vec<u8>) {
        vstd::slice::slice_to_vec(self.as_str().as_bytes())
    }
}

impl EqualsTarget for String {
    open spec fn spec_equals_target(&self, target: Seq<char>) -> bool {
        target == self@
    }

    fn equals_target(&self, target: &str) -> (r: bool) {
        str_eq(target, self.as_str())
    }
}

/// The score of a candidate against the target.
pub open spec fn candidate_score<B: ToBytes + EqualsTarget>(target: Seq<char>, c: B) -> (int, int) {
    if c.spec_equals_target(target) {
        one()
    } else {
        jaro_winkler_spec(utf8(target), c.spec_to_bytes())
    }
}

/// Every candidate is short enough to be scored.
pub open spec fn scorable<B: ToBytes + EqualsTarget>(target: Seq<char>, heap: Seq<B>) -> bool {
    forall|i: int| 0 <= i < heap.len() ==> comparable(target, #[trigger] heap[i])
}

/// A candidate can be scored against the target: it equals the target, or
/// both are short enough for the exact arithmetic.
pub open spec fn comparable<B: ToBytes + EqualsTarget>(target: Seq<char>, c: B) -> bool {
    c.spec_equals_target(target) || (utf8(target).len() <= MAX_FUZZY_LEN
        && c.spec_to_bytes().len() <= MAX_FUZZY_LEN)
}

proof fn lemma_candidate_well_formed<B: ToBytes + EqualsTarget>(target: Seq<char>, c: B)
    requires
        comparable(target, c),
    ensures
        well_formed_score(candidate_score(target, c)),
{
    if !c.spec_equals_target(target) {
        lemma_jaro_winkler_well_formed(utf8(target), c.spec_to_bytes());
    }
}

/// Position `k` holds the last of the highest scores.
pub open spec fn is_last_best<B: ToBytes + EqualsTarget>(
    target: Seq<char>,
    heap: Seq<B>,
    k: int,
) -> bool {
    &&& 0 <= k < heap.len()
    &&& forall|i: int|
        0 <= i < heap.len() ==> !score_gt(
            #[trigger] candidate_score(target, heap[i]),
            candidate_score(target, heap[k]),
        )
    &&& forall|i: int|
        k < i < heap.len() ==> score_gt(
            candidate_score(target, heap[k]),
            #[trigger] candidate_score(target, heap[i]),
        )
}

/// The score of one candidate.
pub fn candidate_similarity<B: ToBytes + EqualsTarget>(target: &str, c: &B) -> (r: Similarity)
    requires
        comparable(target@, *c),
    ensures
        sim_view(r) == candidate_score(target@, *c),
        well_formed_score(sim_view(r)),
{
    if c.equals_target(target) {
        Similarity { num: 1, den: 1 }
    } else {
        let bytes = c.to_bytes();
        jaro_winkler_bytes(target.as_bytes(), bytes.as_slice())
    }
}

/// The candidate closest to the target: the last of those with the highest
/// score, or `None` when there is no candidate.
pub fn winkliest_match<B: ToBytes + EqualsTarget>(target: &str, mut heap: Vec<B>) -> (r: Option<B>)
    requires
        scorable(target@, heap@),
    ensures
        r is None <==> heap@.len() == 0,
        r matches Some(v) ==> exists|k: int|
            #![trigger heap@[k]]
            is_last_best(target@, heap@, k) && v == heap@[k],
{
    let n = heap.len();
    if n == 0 {
        return None;
    }
    let ghost h = heap@;
    let mut best: usize = 0;
    let mut best_score = candidate_similarity(target, &heap[0]);
    let mut i: usize = 1;
    while i < n
        invariant
            1 <= i <= n,
            n == h.len(),
            heap@ == h,
            best < i,
            scorable(target@, h),
            sim_view(best_score) == candidate_score(target@, h[best as int]),
            well_formed_score(sim_view(best_score)),
            forall|k: int|
                0 <= k < i ==> !score_gt(
                    #[trigger] candidate_score(target@, h[k]),
                    candidate_score(target@, h[best as int]),
                ),
            forall|k: int|
                best < k < i ==> score_gt(
                    candidate_score(target@, h[best as int]),
                    #[trigger] candidate_score(target@, h[k]),
                ),
        decreases n - i,
    {
        let s = candidate_similarity(target, &heap[i]);
        if !score_greater(&best_score, &s) {
            proof {
                assert forall|k: int| 0 <= k < i + 1 implies !score_gt(
                    #[trigger] candidate_score(target@, h[k]),
                    candidate_score(target@, h[i as int]),
                ) by {
                    if k < i {
                        assert(comparable(target@, h[k]));
                        lemma_candidate_well_formed(target@, h[k]);
                        lemma_score_le_trans(
                            candidate_score(target@, h[k]),
                            candidate_score(target@, h[best as int]),
                            candidate_score(target@, h[i as int]),
                        );
                    }
                }
            }
            best = i;
            best_score = s;
        }
        i += 1;
    }
    let v = heap.remove(best);
    assert(is_last_best(target@, h, best as int));
    Some(v)
}

/// A candidate equal to the target scores 1, the most any candidate can
/// score; so when the heap holds the target itself, the best match scores
/// exactly 1.
pub proof fn lemma_exact_candidate_scores_one<B: ToBytes + EqualsTarget>(
    target: Seq<char>,
    heap: Seq<B>,
    k: int,
    i: int,
)
    requires
        scorable(target, heap),
        is_last_best(target, heap, k),
        0 <= i < heap.len(),
        heap[i].spec_equals_target(target),
    ensures
        candidate_score(target, heap[k]).0 == candidate_score(target, heap[k]).1,
{
    let sk = candidate_score(target, heap[k]);
    assert(comparable(target, heap[k]));
    lemma_candidate_well_formed(target, heap[k]);
    assert(candidate_score(target, heap[i]) == one());
    assert(!score_gt(candidate_score(target, heap[i]), sk));
}

proof fn lemma_all_counted(f: Seq<bool>, n: int)
    requires
        0 <= n <= f.len(),
        count_true(f, n) == n,
    ensures
        forall|k: int| 0 <= k < n ==> f[k],
    decreases n,
{
    if n > 0 {
        lemma_count_bounds(f, n - 1);
        lemma_all_counted(f, n - 1);
    }
}

proof fn lemma_picked_all(s: Seq<u8>, f: Seq<bool>, n: int)
    requires
        0 <= n <= s.len(),
        n <= f.len(),
        forall|k: int| 0 <= k < n ==> f[k],
    ensures
        picked(s, f, n) =~= s.subrange(0, n),
    decreases n,
{
    if n > 0 {
        lemma_picked_all(s, f, n - 1);
        assert(s.subrange(0, n) =~= s.subrange(0, n - 1).push(s[n - 1]));
    }
}

proof fn lemma_no_mismatch(x: Seq<u8>, y: Seq<u8>, n: int)
    requires
        0 <= n,
        mismatches(x, y, n) == 0,
    ensures
        forall|k: int| 0 <= k < n ==> x[k] == y[k],
    decreases n,
{
    if n > 0 {
        lemma_mismatches_bounds(x, y, n - 1);
        lemma_no_mismatch(x, y, n - 1);
    }
}

proof fn lemma_full_jaro(la: int, lb: int, m: int, t: int)
    requires
        1 <= m <= la,
        m <= lb,
        0 <= t,
        2 * m * m * lb + 2 * m * m * la + (2 * m - t) * la * lb == 6 * la * lb * m,
    ensures
        m == la,
        m == lb,
        t == 0,
{
    let x = la * lb * m;
    assert(6 * la * lb * m == 6 * x) by (nonlinear_arith)
        requires
            x == la * lb * m,
    ;
    assert(2 * m * m * lb <= 2 * x) by (nonlinear_arith)
        requires
            1 <= m <= la,
            m <= lb,
            x == la * lb * m,
    ;
    assert(2 * m * m * la <= 2 * x) by (nonlinear_arith)
        requires
            1 <= m <= lb,
            m <= la,
            x == la * lb * m,
    ;
    assert((2 * m - t) * la * lb <= 2 * x) by (nonlinear_arith)
        requires
            1 <= m <= la,
            m <= lb,
            0 <= t,
            x == la * lb * m,
    ;
    assert(m == la) by (nonlinear_arith)
        requires
            1 <= m <= la,
            m <= lb,
            x == la * lb * m,
            2 * m * m * lb == 2 * x,
    ;
    assert(m == lb) by (nonlinear_arith)
        requires
            1 <= m <= lb,
            m <= la,
            x == la * lb * m,
            2 * m * m * la == 2 * x,
    ;
    assert(t == 0) by (nonlinear_arith)
        requires
            1 <= m,
            m == la,
            m == lb,
            0 <= t,
            x == la * lb * m,
            (2 * m - t) * la * lb == 2 * x,
    ;
}

/// Only equal inputs score exactly one.
pub proof fn lemma_score_one_equal(a: Seq<u8>, b: Seq<u8>)
    requires
        a.len() <= MAX_FUZZY_LEN,
        b.len() <= MAX_FUZZY_LEN,
        jaro_winkler_spec(a, b).0 == jaro_winkler_spec(a, b).1,
    ensures
        a == b,
{
    let m = jw_matches(a, b);
    let la = a.len() as int;
    let lb = b.len() as int;
    lemma_match_flags(a, b, la);
    let fl = match_flags(a, b, la);
    lemma_count_bounds(fl.0, la);
    lemma_count_bounds(fl.1, lb);
    assert(m != 0);
    let t = jw_transpositions(a, b);
    let pa = picked(a, fl.0, la);
    let pb = picked(b, fl.1, lb);
    lemma_mismatches_bounds(pa, pb, m);
    lemma_common_prefix_nonneg(a, b, 0);
    let p = if common_prefix(a, b, 0) < 4 {
        common_prefix(a, b, 0)
    } else {
        4
    };
    let d = 6 * la * lb * m;
    let j = 2 * m * m * lb + 2 * m * m * la + (2 * m - t) * la * lb;
    assert(jaro_winkler_spec(a, b) == (10 * j + p * (d - j), 10 * d));
    assert(j == d) by (nonlinear_arith)
        requires
            10 * j + p * (d - j) == 10 * d,
            0 <= p <= 4,
    ;
    lemma_full_jaro(la, lb, m, t);
    lemma_all_counted(fl.0, la);
    lemma_all_counted(fl.1, lb);
    lemma_picked_all(a, fl.0, la);
    lemma_picked_all(b, fl.1, lb);
    lemma_no_mismatch(pa, pb, m);
    assert(a.subrange(0, la) =~= a);
    assert(b.subrange(0, lb) =~= b);
    assert(forall|k: int| 0 <= k < la ==> a[k] == pa[k] && b[k] == pb[k]);
    assert(a =~= b);
}

/// When a candidate equals the target, the best match equals the target,
/// provided candidates with the target's bytes are equal to it (as strings
/// are).
pub proof fn lemma_exact_candidate_chosen<B: ToBytes + EqualsTarget>(
    target: Seq<char>,
    heap: Seq<B>,
    k: int,
    i: int,
)
    requires
        scorable(target, heap),
        is_last_best(target, heap, k),
        0 <= i < heap.len(),
        heap[i].spec_equals_target(target),
        forall|c: int|
            0 <= c < heap.len() && (#[trigger] heap[c]).spec_to_bytes() == utf8(target)
                ==> heap[c].spec_equals_target(target),
    ensures
        heap[k].spec_equals_target(target),
{
    lemma_exact_candidate_scores_one(target, heap, k, i);
    if !heap[k].spec_equals_target(target) {
        assert(comparable(target, heap[k]));
        lemma_score_one_equal(utf8(target), heap[k].spec_to_bytes());
    }
}

/// Among strings, a candidate that is the target itself is what
/// `winkliest_match` returns whenever one is present.
pub proof fn lemma_exact_string_chosen(target: Seq<char>, heap: Seq<String>, k: int, i: int)
    requires
        scorable(target, heap),
        is_last_best(target, heap, k),
        0 <= i < heap.len(),
        heap[i]@ == target,
    ensures
        heap[k]@ == target,
{
    assert forall|c: int|
        0 <= c < heap.len() && (#[trigger] heap[c]).spec_to_bytes() == utf8(target) implies heap[c].spec_equals_target(
        target,
    ) by {
        vstd::utf8::encode_utf8_decode_utf8(target);
        vstd::utf8::encode_utf8_decode_utf8(heap[c]@);
    }
    lemma_exact_candidate_chosen(target, heap, k, i);
}

} // verus!
