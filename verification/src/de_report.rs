use vstd::prelude::*;
use crate::cgats::{Cgats, table_view, doc_wf, first_de_idx};
use crate::data_map::ValueView;
use crate::error::Error;
use crate::field::{DeMethod, field_de_method};
use crate::numeric::{
    div_round, div_round_i128, seq_sum, dec_rep, dec_pad, SCALED_LIMIT, push_dec, push_pad,
};
use crate::strutil::string_from_chars;

verus! {

// ---------------------------------------------------------------------------
// The collected difference values
// ---------------------------------------------------------------------------

/// The numeric readings in one column of a table, in table order;
/// rows without a number there are passed over.
pub open spec fn de_list_of(table: Seq<Seq<ValueView>>, idx: int) -> Seq<int>
    decreases table.len(),
{
    if table.len() == 0 {
        Seq::<int>::empty()
    } else {
        let rest = de_list_of(table.drop_last(), idx);
        if 0 <= idx < table.last().len() && table.last()[idx].number is Some {
            rest.push(table.last()[idx].number->0)
        } else {
            rest
        }
    }
}

/// Every value is within the representable cell range.
pub open spec fn bounded(list: Seq<int>) -> bool {
    forall|i: int| 0 <= i < list.len() ==> -SCALED_LIMIT <= #[trigger] list[i] <= SCALED_LIMIT
}

/// The color-difference values of a result document, with their method.
#[derive(Debug, Clone)]
pub struct DeList {
    pub de_method: DeMethod,
    pub list: Vec<i64>,
}

pub open spec fn list_view(l: DeList) -> Seq<int> {
    l.list@.map_values(|x: i64| x as int)
}

impl DeList {
    /// Collects the differences recorded in a result document: the first
    /// color-difference column's numeric cells, in table order.
    pub fn from_cgats(cgats: &Cgats) -> (r: Result<DeList, Error>)
        requires
            doc_wf(*cgats),
        ensures
            match r {
                Ok(l) => {
                    &&& first_de_idx(cgats.fields@) < cgats.fields@.len()
                    &&& Some(l.de_method) == field_de_method(
                        cgats.fields@[first_de_idx(cgats.fields@)],
                    )
                    &&& list_view(l) == de_list_of(
                        table_view(*cgats),
                        first_de_idx(cgats.fields@),
                    )
                    &&& bounded(list_view(l))
                },
                Err(e) => e == Error::IncompleteData && first_de_idx(cgats.fields@)
                    >= cgats.fields@.len(),
            },
    {
        let (method_index, de_method) = match cgats.de_method() {
            Ok(pair) => pair,
            Err(e) => {
                return Err(e);
            },
        };
        let ghost table = table_view(*cgats);
        let ghost idx = method_index as int;
        let mut list: Vec<i64> = Vec::new();
        let mut k: usize = 0;
        while k < cgats.data_map.len()
            invariant
                k <= cgats.data_map@.len(),
                table == table_view(*cgats),
                doc_wf(*cgats),
                idx == method_index as int,
                list@.map_values(|x: i64| x as int) == de_list_of(table.take(k as int), idx),
                forall|i: int|
                    0 <= i < list@.len() ==> -SCALED_LIMIT <= #[trigger] list@[i] <= SCALED_LIMIT,
            decreases cgats.data_map@.len() - k,
        {
            assert(table[k as int] == cgats.data_map@[k as int]@);
            proof {
                let t = table.take(k as int + 1);
                assert(t.drop_last() =~= table.take(k as int));
                assert(t.last() == table[k as int]);
            }
            let row = &cgats.data_map[k];
            if method_index < row.values.len() {
                assert(row@[idx] == table[k as int][idx]);
                match row.values[method_index].number {
                    Some(n) => {
                        proof {
                            assert(sample_wf_here(table[k as int]));
                            crate::data_map::lemma_value_wf_bounds(table[k as int][idx]);
                        }
                        list.push(n);
                        assert(list@.map_values(|x: i64| x as int) =~= de_list_of(
                            table.take(k as int + 1),
                            idx,
                        ));
                    },
                    None => {
                        assert(list@.map_values(|x: i64| x as int) =~= de_list_of(
                            table.take(k as int + 1),
                            idx,
                        ));
                    },
                }
            } else {
                assert(list@.map_values(|x: i64| x as int) =~= de_list_of(
                    table.take(k as int + 1),
                    idx,
                ));
            }
            k = k + 1;
        }
        assert(table.take(table.len() as int) =~= table);
        Ok(DeList { de_method, list })
    }
}

/// A reading aid: the well-formedness of one row.
pub open spec fn sample_wf_here(row: Seq<ValueView>) -> bool {
    crate::data_map::sample_wf(row)
}

// ---------------------------------------------------------------------------
// Sorting
// ---------------------------------------------------------------------------

pub open spec fn is_sorted(s: Seq<int>) -> bool {
    forall|i: int, j: int| 0 <= i <= j < s.len() ==> s[i] <= s[j]
}

/// Insertion into sorted order, before the first element not below `x`.
pub open spec fn sorted_insert(s: Seq<int>, x: int) -> Seq<int>
    decreases s.len(),
{
    if s.len() == 0 {
        seq![x]
    } else if x <= s[0] {
        seq![x] + s
    } else {
        seq![s[0]] + sorted_insert(s.drop_first(), x)
    }
}

/// The ascending ordering of a sequence of values.
pub open spec fn sort_spec(s: Seq<int>) -> Seq<int>
    decreases s.len(),
{
    if s.len() == 0 {
        Seq::<int>::empty()
    } else {
        sorted_insert(sort_spec(s.drop_last()), s.last())
    }
}

pub proof fn lemma_sorted_insert(s: Seq<int>, x: int)
    requires
        is_sorted(s),
    ensures
        is_sorted(sorted_insert(s, x)),
        sorted_insert(s, x).len() == s.len() + 1,
        sorted_insert(s, x).to_multiset() == s.to_multiset().insert(x),
    decreases s.len(),
{
    broadcast use vstd::seq_lib::group_to_multiset_ensures;

    if s.len() == 0 {
        assert(seq![x] =~= Seq::<int>::empty().push(x));
        assert(seq![x].to_multiset() =~= s.to_multiset().insert(x));
    } else if x <= s[0] {
        let r = seq![x] + s;
        assert(is_sorted(r)) by {
            assert(forall|i: int| 0 <= i < s.len() ==> r[i + 1] == #[trigger] s[i]);
        }
        lemma_prepend_multiset(s, x);
    } else {
        assert(is_sorted(s.drop_first())) by {
            assert(forall|i: int|
                0 <= i < s.drop_first().len() ==> #[trigger] s.drop_first()[i] == s[i + 1]);
        }
        lemma_sorted_insert(s.drop_first(), x);
        let t = sorted_insert(s.drop_first(), x);
        let r = seq![s[0]] + t;
        let drop = s.drop_first();
        assert(forall|i: int| 0 <= i < drop.len() ==> s[0] <= #[trigger] drop[i]);
        assert forall|i: int| 0 <= i < t.len() implies s[0] <= #[trigger] t[i] by {
            assert(t.contains(t[i]));
            assert(t.to_multiset().count(t[i]) > 0);
            assert(drop.to_multiset().insert(x).count(t[i]) > 0);
            if t[i] != x {
                assert(drop.to_multiset().count(t[i]) > 0);
                assert(drop.contains(t[i]));
                let w = choose|w: int| 0 <= w < drop.len() && drop[w] == t[i];
                assert(s[0] <= drop[w]);
            }
        }
        assert(is_sorted(r)) by {
            assert(forall|i: int| 0 <= i < t.len() ==> r[i + 1] == #[trigger] t[i]);
        }
        lemma_prepend_multiset(t, s[0]);
        assert(t.to_multiset() =~= s.drop_first().to_multiset().insert(x));
        lemma_prepend_multiset(s.drop_first(), s[0]);
        assert(seq![s[0]] + s.drop_first() =~= s);
        assert(r.to_multiset() =~= s.to_multiset().insert(x));
    }
}

/// Prepending an element inserts it into the multiset.
proof fn lemma_prepend_multiset(s: Seq<int>, x: int)
    ensures
        (seq![x] + s).to_multiset() == s.to_multiset().insert(x),
    decreases s.len(),
{
    broadcast use vstd::seq_lib::group_to_multiset_ensures;

    if s.len() == 0 {
        assert(seq![x] + s =~= Seq::<int>::empty().push(x));
    } else {
        lemma_prepend_multiset(s.drop_last(), x);
        assert((seq![x] + s.drop_last()).push(s.last()) =~= seq![x] + s);
        assert((seq![x] + s.drop_last()).push(s.last()).to_multiset() =~= (seq![x]
            + s.drop_last()).to_multiset().insert(s.last()));
        assert(s.drop_last().push(s.last()) =~= s);
        assert(s.to_multiset() =~= s.drop_last().to_multiset().insert(s.last()));
        assert(s.to_multiset().insert(x) =~= s.drop_last().to_multiset().insert(s.last()).insert(
            x,
        ));
    }
}

pub proof fn lemma_sort_spec(s: Seq<int>)
    ensures
        is_sorted(sort_spec(s)),
        sort_spec(s).len() == s.len(),
        sort_spec(s).to_multiset() == s.to_multiset(),
    decreases s.len(),
{
    broadcast use vstd::seq_lib::group_to_multiset_ensures;

    if s.len() > 0 {
        lemma_sort_spec(s.drop_last());
        lemma_sorted_insert(sort_spec(s.drop_last()), s.last());
        assert(s.drop_last().push(s.last()) =~= s);
        assert(s.to_multiset() =~= s.drop_last().to_multiset().insert(s.last()));
    }
}

/// Where insertion lands: before the first element not below `x`.
proof fn lemma_sorted_insert_at(s: Seq<int>, x: int, p: int)
    requires
        0 <= p <= s.len(),
        forall|k: int| 0 <= k < p ==> #[trigger] s[k] < x,
        p < s.len() ==> x <= s[p],
    ensures
        sorted_insert(s, x) == s.insert(p, x),
    decreases p,
{
    if s.len() == 0 {
        assert(sorted_insert(s, x) =~= s.insert(0, x));
    } else if p == 0 {
        assert(sorted_insert(s, x) =~= s.insert(0, x));
    } else {
        assert(s[0] < x);
        lemma_sorted_insert_at(s.drop_first(), x, p - 1);
        assert(forall|k: int|
            0 <= k < p - 1 ==> #[trigger] s.drop_first()[k] == s[k + 1]);
        assert(p - 1 < s.drop_first().len() ==> x <= s.drop_first()[p - 1]);
        assert(sorted_insert(s, x) =~= s.insert(p, x)) by {
            assert(sorted_insert(s, x) == seq![s[0]] + sorted_insert(s.drop_first(), x));
            assert(sorted_insert(s.drop_first(), x) == s.drop_first().insert(p - 1, x));
            assert(seq![s[0]] + s.drop_first().insert(p - 1, x) =~= s.insert(p, x));
        }
    }
}

/// The values in ascending order.
pub fn sort_scaled(v: &Vec<i64>) -> (r: Vec<i64>)
    ensures
        r@.map_values(|x: i64| x as int) == sort_spec(v@.map_values(|x: i64| x as int)),
{
    let ghost sv = v@.map_values(|x: i64| x as int);
    let mut out: Vec<i64> = Vec::new();
    let mut i: usize = 0;
    while i < v.len()
        invariant
            i <= v@.len(),
            sv == v@.map_values(|x: i64| x as int),
            out@.map_values(|x: i64| x as int) == sort_spec(sv.take(i as int)),
        decreases v@.len() - i,
    {
        let x = v[i];
        let ghost cur = out@.map_values(|y: i64| y as int);
        proof {
            lemma_sort_spec(sv.take(i as int));
        }
        let mut p: usize = 0;
        while p < out.len() && out[p] < x
            invariant
                p <= out@.len(),
                cur == out@.map_values(|y: i64| y as int),
                forall|k: int| 0 <= k < p ==> #[trigger] cur[k] < x as int,
            decreases out@.len() - p,
        {
            assert(cur[p as int] == out@[p as int] as int);
            p = p + 1;
        }
        proof {
            if (p as int) < cur.len() {
                assert(cur[p as int] == out@[p as int] as int);
            }
            lemma_sorted_insert_at(cur, x as int, p as int);
        }
        out.insert(p, x);
        proof {
            assert(out@.map_values(|y: i64| y as int) =~= cur.insert(p as int, x as int));
            assert(sv.take(i as int + 1).drop_last() =~= sv.take(i as int));
            assert(sv.take(i as int + 1).last() == sv[i as int]);
            assert(sv[i as int] == v@[i as int] as int);
            assert(out@.map_values(|y: i64| y as int) =~= sort_spec(sv.take(i as int + 1)));
        }
        i = i + 1;
    }
    assert(sv.take(sv.len() as int) =~= sv);
    out
}

// ---------------------------------------------------------------------------
// Summaries
// ---------------------------------------------------------------------------

pub open spec fn seq_min(s: Seq<int>) -> int
    decreases s.len(),
{
    if s.len() <= 1 {
        s[0]
    } else if s.last() <= seq_min(s.drop_last()) {
        s.last()
    } else {
        seq_min(s.drop_last())
    }
}

pub open spec fn seq_max(s: Seq<int>) -> int
    decreases s.len(),
{
    if s.len() <= 1 {
        s[0]
    } else if s.last() >= seq_max(s.drop_last()) {
        s.last()
    } else {
        seq_max(s.drop_last())
    }
}

/// The sum of squared deviations from `m`.
pub open spec fn dev_sq_sum(s: Seq<int>, m: int) -> int
    decreases s.len(),
{
    if s.len() == 0 {
        0
    } else {
        dev_sq_sum(s.drop_last(), m) + (s.last() - m) * (s.last() - m)
    }
}

/// The statistical summary of one run of difference values: count, mean,
/// extremes, and the sample standard deviation (zero for fewer than two
/// values). All in ten-thousandths.
#[derive(Debug, Clone)]
pub struct DeSummary {
    pub sample_count: usize,
    pub mean: i64,
    pub min: i64,
    pub max: i64,
    pub stdev: i64,
}

/// What a faithful summary of `list` looks like: the rounded mean, the
/// exact extremes, and the floor square root of the rounded sample
/// variance; a variance beyond any representable square saturates.
pub open spec fn summary_matches(s: DeSummary, list: Seq<int>) -> bool {
    &&& s.sample_count == list.len()
    &&& s.mean == div_round(seq_sum(list), list.len() as int)
    &&& s.min == seq_min(list)
    &&& s.max == seq_max(list)
    &&& (list.len() <= 1 ==> s.stdev == 0)
    &&& (list.len() > 1 ==> {
        let ss = dev_sq_sum(list, s.mean as int);
        if ss > 100000000000000000000000000000000000 {
            s.stdev == SCALED_LIMIT
        } else {
            let var = div_round(ss, list.len() - 1);
            &&& s.stdev >= 0
            &&& (s.stdev as int) * (s.stdev as int) <= var
            &&& (s.stdev + 1) * (s.stdev + 1) > var
        }
    })
}

/// A faithful summary of a non-empty run of values.
fn summarize(list: &Vec<i64>) -> (s: DeSummary)
    requires
        list@.len() > 0,
        bounded(list@.map_values(|x: i64| x as int)),
    ensures
        summary_matches(s, list@.map_values(|x: i64| x as int)),
{
    let ghost lv = list@.map_values(|x: i64| x as int);
    let n = list.len();

    // the sum, and with it the rounded mean
    let mut sum: i128 = 0;
    let mut i: usize = 0;
    while i < n
        invariant
            i <= n,
            n == list@.len(),
            lv == list@.map_values(|x: i64| x as int),
            bounded(lv),
            sum == seq_sum(lv.take(i as int)),
            -(i as int) * SCALED_LIMIT <= sum <= (i as int) * SCALED_LIMIT,
        decreases n - i,
    {
        assert(lv[i as int] == list@[i as int] as int);
        proof {
            let t = lv.take(i as int + 1);
            assert(t.drop_last() =~= lv.take(i as int));
            assert(t.last() == lv[i as int]);
            assert((i as int + 1) * SCALED_LIMIT == (i as int) * SCALED_LIMIT + SCALED_LIMIT)
                by (nonlinear_arith);
        }
        sum = sum + list[i] as i128;
        i = i + 1;
    }
    assert(lv.take(lv.len() as int) =~= lv);
    proof {
        assert((n as int) * SCALED_LIMIT <= 100000000000000000000000000000000000int)
            by (nonlinear_arith)
            requires
                0 < n as int <= 18446744073709551616int,
        ;
    }
    let mean128 = div_round_i128(sum, n as i128);
    proof {
        crate::numeric::lemma_div_round_bound(sum as int, n as int, SCALED_LIMIT as int);
    }
    let mean = mean128 as i64;

    // the extremes
    let mut mn = list[0];
    let mut mx = list[0];
    let mut i: usize = 1;
    while i < n
        invariant
            1 <= i <= n,
            n == list@.len(),
            lv == list@.map_values(|x: i64| x as int),
            mn as int == seq_min(lv.take(i as int)),
            mx as int == seq_max(lv.take(i as int)),
        decreases n - i,
    {
        assert(lv[i as int] == list@[i as int] as int);
        proof {
            let t = lv.take(i as int + 1);
            assert(t.drop_last() =~= lv.take(i as int));
            assert(t.last() == lv[i as int]);
        }
        if list[i] < mn {
            mn = list[i];
        }
        if list[i] > mx {
            mx = list[i];
        }
        i = i + 1;
    }
    assert(lv.take(lv.len() as int) =~= lv);

    // the sample standard deviation
    let stdev: i64 = if n <= 1 {
        0
    } else {
        let mut acc: i128 = 0;
        let mut over = false;
        let mut i: usize = 0;
        while i < n
            invariant
                i <= n,
                n == list@.len(),
                lv == list@.map_values(|x: i64| x as int),
                bounded(lv),
                -SCALED_LIMIT <= mean as int <= SCALED_LIMIT,
                !over ==> acc == dev_sq_sum(lv.take(i as int), mean as int) && 0 <= acc
                    <= 100000000000000000000000000000000000,
                over ==> dev_sq_sum(lv.take(i as int), mean as int)
                    > 100000000000000000000000000000000000,
            decreases n - i,
        {
            assert(lv[i as int] == list@[i as int] as int);
            let dev: i128 = list[i] as i128 - mean as i128;
            proof {
                let t = lv.take(i as int + 1);
                assert(t.drop_last() =~= lv.take(i as int));
                assert(t.last() == lv[i as int]);
            }
            assert(0 <= dev * dev <= 4000000000000000000000000000000) by (nonlinear_arith)
                requires
                    -2000000000000000 <= dev <= 2000000000000000,
            ;
            let sq = dev * dev;
            if !over {
                if acc > 100000000000000000000000000000000000 - sq {
                    over = true;
                    assert(dev_sq_sum(lv.take(i as int + 1), mean as int)
                        > 100000000000000000000000000000000000);
                } else {
                    acc = acc + sq;
                }
            } else {
                proof {
                    lemma_dev_sq_step(lv.take(i as int + 1), mean as int);
                }
            }
            i = i + 1;
        }
        assert(lv.take(lv.len() as int) =~= lv);
        if over {
            SCALED_LIMIT
        } else {
            proof {
                lemma_dev_sq_sum_bound(lv, mean as int);
                assert((n as int) * 4000000000000000000000000000000 <= (n as int - 1)
                    * 8000000000000000000000000000000) by (nonlinear_arith)
                    requires
                        n as int >= 2,
                ;
            }
            let var = div_round_i128(acc, (n - 1) as i128);
            proof {
                crate::numeric::lemma_div_round_bound(
                    acc as int,
                    n as int - 1,
                    8000000000000000000000000000000int,
                );
            }
            let root = crate::numeric::isqrt_i128(var);
            assert(root <= 3200000000000000) by (nonlinear_arith)
                requires
                    root >= 0,
                    root * root <= 10000000000000000000000000000000int,
            ;
            root as i64
        }
    };
    DeSummary { sample_count: n, mean, min: mn, max: mx, stdev }
}

/// A longer run of values never has a smaller sum of squared deviations.
proof fn lemma_dev_sq_step(t: Seq<int>, m: int)
    requires
        t.len() > 0,
    ensures
        dev_sq_sum(t, m) >= dev_sq_sum(t.drop_last(), m),
{
    assert((t.last() - m) * (t.last() - m) >= 0) by (nonlinear_arith);
}

/// With every value and the mean in range, the sum of squared deviations
/// is at most the count times the largest square.
proof fn lemma_dev_sq_sum_bound(s: Seq<int>, m: int)
    requires
        bounded(s),
        -SCALED_LIMIT <= m <= SCALED_LIMIT,
    ensures
        0 <= dev_sq_sum(s, m) <= s.len() * 4000000000000000000000000000000,
    decreases s.len(),
{
    if s.len() == 0 {
    } else {
        assert(bounded(s.drop_last())) by {
            assert(forall|i: int|
                0 <= i < s.len() - 1 ==> s.drop_last()[i] == #[trigger] s[i]);
        }
        lemma_dev_sq_sum_bound(s.drop_last(), m);
        assert(0 <= (s.last() - m) * (s.last() - m) <= 4000000000000000000000000000000)
            by (nonlinear_arith)
            requires
                -2 * SCALED_LIMIT <= s.last() - m <= 2 * SCALED_LIMIT,
                SCALED_LIMIT == 1000000000000000,
        ;
        assert(s.len() * 4000000000000000000000000000000 == (s.len() - 1)
            * 4000000000000000000000000000000 + 4000000000000000000000000000000)
            by (nonlinear_arith);
    }
}

// ---------------------------------------------------------------------------
// The percentile split
// ---------------------------------------------------------------------------

/// Where the sorted values split: the count scaled by the fraction (in
/// ten-thousandths), rounded, then clamped so the lower part is never
/// empty and, past a single value, the upper part is not either.
pub open spec fn split_index(len: int, pct: int) -> int {
    let r = div_round(len * pct, 10000);
    if r < 1 {
        1
    } else if r >= len && len > 1 {
        len - 1
    } else {
        r
    }
}

pub proof fn lemma_split_index_bounds(len: int, pct: int)
    requires
        len >= 1,
        0 < pct < 10000,
    ensures
        1 <= split_index(len, pct) <= len,
        len > 1 ==> split_index(len, pct) <= len - 1,
{
    let sp = len * pct;
    assert(sp >= 0 && sp <= 10000 * len && -sp <= 10000 * len) by (nonlinear_arith)
        requires
            sp == len * pct,
            len >= 1,
            0 < pct < 10000,
    ;
    crate::numeric::lemma_div_round_nonneg(sp, 10000);
    crate::numeric::lemma_div_round_bound(sp, 10000, len);
}

impl DeList {
    /// Sorts the values ascending and splits them at the clamped,
    /// rounded fraction `pct` (in ten-thousandths of the whole): the
    /// lower-valued part first, the rest second.
    pub fn split_pct(&self, pct: i64) -> (r: (DeList, DeList))
        requires
            0 < pct < 10000,
            self.list@.len() > 0,
        ensures
            ({
                let sorted = sort_spec(list_view(*self));
                let si = split_index(list_view(*self).len() as int, pct as int);
                &&& r.0.de_method == self.de_method
                &&& r.1.de_method == self.de_method
                &&& list_view(r.0) == sorted.take(si)
                &&& list_view(r.1) == sorted.skip(si)
            }),
    {
        let ghost lv = list_view(*self);
        let sorted = sort_scaled(&self.list);
        let ghost sv = sorted@.map_values(|x: i64| x as int);
        proof {
            lemma_sort_spec(lv);
            lemma_split_index_bounds(lv.len() as int, pct as int);
            assert(lv.len() == self.list@.len());
            assert(sv.len() == lv.len());
        }
        let n = sorted.len();
        proof {
            assert(0 <= (n as int) * (pct as int) <= 184467440737095516150000int)
                by (nonlinear_arith)
                requires
                    0 <= (n as int) <= 18446744073709551615int,
                    0 < (pct as int) < 10000,
            ;
        }
        let si128 = div_round_i128(n as i128 * pct as i128, 10000);
        proof {
            assert(0 <= (n as int) * (pct as int) <= (n as int) * 10000) by (nonlinear_arith)
                requires
                    0 < (pct as int) < 10000,
                    (n as int) >= 1,
            ;
            crate::numeric::lemma_div_round_bound(
                (n as int) * (pct as int),
                10000,
                n as int,
            );
        }
        let mut si: usize = if si128 < 1 {
            1
        } else if si128 >= n as i128 && n > 1 {
            n - 1
        } else {
            si128 as usize
        };
        assert(si as int == split_index(lv.len() as int, pct as int));
        let mut best: Vec<i64> = Vec::new();
        let mut i: usize = 0;
        while i < si
            invariant
                i <= si <= n,
                n == sorted@.len(),
                sv == sorted@.map_values(|x: i64| x as int),
                best@.map_values(|x: i64| x as int) == sv.take(si as int).take(i as int),
            decreases si - i,
        {
            best.push(sorted[i]);
            proof {
                assert(sv[i as int] == sorted@[i as int] as int);
                assert(sv.take(si as int).take(i as int + 1) =~= sv.take(si as int).take(
                    i as int,
                ).push(sv[i as int]));
                assert(best@.map_values(|x: i64| x as int) =~= sv.take(si as int).take(
                    i as int + 1,
                ));
            }
            i = i + 1;
        }
        assert(sv.take(si as int).take(si as int) =~= sv.take(si as int));
        let mut worst: Vec<i64> = Vec::new();
        let mut j: usize = si;
        while j < n
            invariant
                si <= j <= n,
                n == sorted@.len(),
                sv == sorted@.map_values(|x: i64| x as int),
                worst@.map_values(|x: i64| x as int) == sv.skip(si as int).take(j - si),
            decreases n - j,
        {
            worst.push(sorted[j]);
            proof {
                assert(sv[j as int] == sorted@[j as int] as int);
                assert(sv.skip(si as int).take(j - si + 1) =~= sv.skip(si as int).take(
                    j - si,
                ).push(sv[j as int]));
                assert(worst@.map_values(|x: i64| x as int) =~= sv.skip(si as int).take(
                    j - si + 1,
                ));
            }
            j = j + 1;
        }
        assert(sv.skip(si as int).take(n - si) =~= sv.skip(si as int));
        let m0 = self.de_method;
        let m1 = self.de_method;
        (DeList { de_method: m0, list: best }, DeList { de_method: m1, list: worst })
    }
}

/// Splitting never loses a value: the two parts put together count
/// exactly the whole, whatever the fraction.
pub proof fn lemma_split_counts(list: Seq<int>, pct: int)
    requires
        list.len() > 0,
        0 < pct < 10000,
    ensures
        ({
            let sorted = sort_spec(list);
            let si = split_index(list.len() as int, pct);
            sorted.take(si).len() + sorted.skip(si).len() == list.len()
        }),
{
    lemma_sort_spec(list);
    lemma_split_index_bounds(list.len() as int, pct);
}

/// At a hundred values and the default fraction, the split lands at
/// ninety against ten.
pub proof fn lemma_split_hundred()
    ensures
        split_index(100, 9000) == 90,
{
    assert((2 * 900000 + 10000) / (2 * 10000) == 90) by {
        vstd::arithmetic::div_mod::lemma_fundamental_div_mod_converse(1810000, 20000, 90, 10000);
    }
    assert(div_round(900000, 10000) == 90);
}


/// The extremes of a bounded run are bounded.
proof fn lemma_min_max_bounds(s: Seq<int>)
    requires
        s.len() > 0,
        bounded(s),
    ensures
        -SCALED_LIMIT <= seq_min(s) <= SCALED_LIMIT,
        -SCALED_LIMIT <= seq_max(s) <= SCALED_LIMIT,
    decreases s.len(),
{
    if s.len() > 1 {
        assert(bounded(s.drop_last())) by {
            assert(forall|i: int|
                0 <= i < s.len() - 1 ==> s.drop_last()[i] == #[trigger] s[i]);
        }
        lemma_min_max_bounds(s.drop_last());
    }
}

// ---------------------------------------------------------------------------
// The report
// ---------------------------------------------------------------------------

/// The statistical summary of a color-difference result: the whole run,
/// and the best and worst parts of its sorted values.
#[derive(Debug, Clone)]
pub struct DeReport {
    pub de_method: DeMethod,
    pub overall: DeSummary,
    pub best_90: DeSummary,
    pub worst_10: DeSummary,
}

/// Every summary field a report shows is within rendering range.
pub open spec fn summary_bounded(s: DeSummary) -> bool {
    &&& -SCALED_LIMIT <= s.mean <= SCALED_LIMIT
    &&& -SCALED_LIMIT <= s.min <= SCALED_LIMIT
    &&& -SCALED_LIMIT <= s.max <= SCALED_LIMIT
    &&& 0 <= s.stdev <= 3200000000000000
}

impl DeReport {
    /// Summarizes a color-difference result document: the overall run of
    /// difference values, then the best ninety percent and the worst ten
    /// of their sorted order. A document without difference values has
    /// nothing to report.
    pub fn new(de_cgats: &Cgats) -> (r: Result<DeReport, Error>)
        requires
            doc_wf(*de_cgats),
        ensures
            ({
                let idx = first_de_idx(de_cgats.fields@);
                match r {
                    Ok(rep) => {
                        let list = de_list_of(table_view(*de_cgats), idx);
                        let sorted = sort_spec(list);
                        let si = split_index(list.len() as int, 9000);
                        &&& idx < de_cgats.fields@.len()
                        &&& Some(rep.de_method) == field_de_method(de_cgats.fields@[idx])
                        &&& list.len() > 0
                        &&& summary_matches(rep.overall, list)
                        &&& summary_matches(rep.best_90, sorted.take(si))
                        &&& (list.len() > 1 ==> summary_matches(rep.worst_10, sorted.skip(si)))
                        &&& (list.len() == 1 ==> rep.worst_10 == DeSummary {
                            sample_count: 0,
                            mean: 0,
                            min: 0,
                            max: 0,
                            stdev: 0,
                        })
                        &&& summary_bounded(rep.overall)
                        &&& summary_bounded(rep.best_90)
                        &&& summary_bounded(rep.worst_10)
                        &&& rep.overall.sample_count == list.len()
                        &&& rep.best_90.sample_count + rep.worst_10.sample_count
                            == rep.overall.sample_count
                    },
                    Err(e) => e == Error::IncompleteData && (idx >= de_cgats.fields@.len()
                        || de_list_of(table_view(*de_cgats), idx).len() == 0),
                }
            }),
    {
        let de_list = match DeList::from_cgats(de_cgats) {
            Ok(l) => l,
            Err(e) => {
                return Err(e);
            },
        };
        if de_list.list.len() == 0 {
            return Err(Error::IncompleteData);
        }
        let ghost lv = list_view(de_list);
        let overall = summarize(&de_list.list);
        let (best, worst) = de_list.split_pct(9000);
        proof {
            lemma_sort_spec(lv);
            lemma_split_index_bounds(lv.len() as int, 9000);
            assert(bounded(sort_spec(lv))) by {
                lemma_sorted_permutation_bounded(lv);
            }
            assert(bounded(list_view(best))) by {
                let sorted = sort_spec(lv);
                let si = split_index(lv.len() as int, 9000);
                assert(forall|i: int|
                    0 <= i < sorted.take(si).len() ==> sorted.take(si)[i] == #[trigger] sorted[i]);
            }
            assert(bounded(list_view(worst))) by {
                let sorted = sort_spec(lv);
                let si = split_index(lv.len() as int, 9000);
                assert(forall|i: int|
                    0 <= i < sorted.skip(si).len() ==> #[trigger] sorted.skip(si)[i] == sorted[
                        i + si
                    ]);
            }
        }
        proof {
            let sorted = sort_spec(lv);
            let si = split_index(lv.len() as int, 9000);
            assert(list_view(best).len() == sorted.take(si).len());
            assert(best.list@.len() >= 1);
        }
        let best_90 = summarize(&best.list);
        let worst_10 = if worst.list.len() > 0 {
            summarize(&worst.list)
        } else {
            DeSummary { sample_count: 0, mean: 0, min: 0, max: 0, stdev: 0 }
        };
        proof {
            lemma_summary_bounded(overall, lv);
            lemma_summary_bounded(best_90, list_view(best));
            if worst.list@.len() > 0 {
                lemma_summary_bounded(worst_10, list_view(worst));
            }
        }
        let de_method = de_list.de_method;
        Ok(DeReport { de_method, overall, best_90, worst_10 })
    }
}

/// A faithful summary of a bounded run shows only bounded figures.
proof fn lemma_summary_bounded(s: DeSummary, list: Seq<int>)
    requires
        summary_matches(s, list),
        list.len() > 0,
        bounded(list),
    ensures
        summary_bounded(s),
{
    lemma_min_max_bounds(list);
    lemma_seq_sum_bound(list);
    crate::numeric::lemma_div_round_bound(seq_sum(list), list.len() as int, SCALED_LIMIT as int);
    if list.len() > 1 {
        let ss = dev_sq_sum(list, s.mean as int);
        if ss <= 100000000000000000000000000000000000 {
            lemma_dev_sq_sum_bound(list, s.mean as int);
            assert(0 <= dev_sq_sum(list, s.mean as int));
            crate::numeric::lemma_div_round_nonneg(ss, list.len() - 1);
            assert((list.len() as int) * 4000000000000000000000000000000 <= (list.len() as int
                - 1) * 8000000000000000000000000000000) by (nonlinear_arith)
                requires
                    list.len() >= 2,
            ;
            crate::numeric::lemma_div_round_bound(
                ss,
                list.len() - 1,
                8000000000000000000000000000000int,
            );
            let var = div_round(ss, list.len() - 1);
            assert(s.stdev <= 3200000000000000) by (nonlinear_arith)
                requires
                    s.stdev >= 0,
                    (s.stdev as int) * (s.stdev as int) <= var,
                    var <= 8000000000000000000000000000000int,
            ;
        }
    }
}

/// The sum of a bounded run is bounded by the count times the limit.
proof fn lemma_seq_sum_bound(s: Seq<int>)
    requires
        bounded(s),
    ensures
        -(s.len() as int) * SCALED_LIMIT <= seq_sum(s) <= (s.len() as int) * SCALED_LIMIT,
        seq_sum(s) <= (s.len() as int) * SCALED_LIMIT,
        -seq_sum(s) <= (s.len() as int) * SCALED_LIMIT,
    decreases s.len(),
{
    if s.len() > 0 {
        assert(bounded(s.drop_last())) by {
            assert(forall|i: int|
                0 <= i < s.len() - 1 ==> s.drop_last()[i] == #[trigger] s[i]);
        }
        lemma_seq_sum_bound(s.drop_last());
        assert((s.len() as int) * SCALED_LIMIT == (s.len() as int - 1) * SCALED_LIMIT
            + SCALED_LIMIT) by (nonlinear_arith);
    }
}

/// Sorting keeps every value within its bounds.
proof fn lemma_sorted_permutation_bounded(s: Seq<int>)
    requires
        bounded(s),
    ensures
        bounded(sort_spec(s)),
{
    broadcast use vstd::seq_lib::group_to_multiset_ensures;

    lemma_sort_spec(s);
    let t = sort_spec(s);
    assert forall|i: int| 0 <= i < t.len() implies -SCALED_LIMIT <= #[trigger] t[i]
        <= SCALED_LIMIT by {
        assert(t.contains(t[i]));
        assert(t.to_multiset().count(t[i]) > 0);
        assert(s.to_multiset().count(t[i]) > 0);
        assert(s.contains(t[i]));
        let w = choose|w: int| 0 <= w < s.len() && s[w] == t[i];
        assert(-SCALED_LIMIT <= s[w] <= SCALED_LIMIT);
    }
}


// ---------------------------------------------------------------------------
// Rendering
// ---------------------------------------------------------------------------

/// A value shown with exactly four decimal places.
pub open spec fn render_fixed4(n: int) -> Seq<char> {
    let a = if n < 0 {
        -n
    } else {
        n
    };
    let sign: Seq<char> = if n < 0 {
        seq!['-']
    } else {
        Seq::<char>::empty()
    };
    sign + dec_rep(a / 10000) + seq!['.'] + dec_pad(a % 10000, 4)
}

fn push_fixed4(n: i64, out: &mut Vec<char>)
    requires
        -4000000000000000 <= n <= 4000000000000000,
    ensures
        final(out)@ == old(out)@ + render_fixed4(n as int),
{
    let a: i64 = if n < 0 {
        -n
    } else {
        n
    };
    if n < 0 {
        out.push('-');
    }
    push_dec((a / 10000) as u64, out);
    out.push('.');
    push_pad(a % 10000, 4, out);
    assert(final(out)@ =~= old(out)@ + render_fixed4(n as int));
}

/// The display name of a method.
pub open spec fn method_name(m: DeMethod) -> Seq<char> {
    match m {
        DeMethod::De1976 => "DE1976"@,
        DeMethod::De1994 => "DE1994G"@,
        DeMethod::De1994T => "DE1994T"@,
        DeMethod::DeCmc1 => "DECMC1"@,
        DeMethod::DeCmc2 => "DECMC2"@,
        DeMethod::De2000 => "DE2000"@,
    }
}

/// One labeled block of the report: the four figures, right-aligned
/// labels, four decimal places.
pub open spec fn render_block(s: DeSummary) -> Seq<char> {
    "\tAverage DE: "@ + render_fixed4(s.mean as int) + seq!['\n'] + "\t    Max DE: "@
        + render_fixed4(s.max as int) + seq!['\n'] + "\t    Min DE: "@ + render_fixed4(
        s.min as int,
    ) + seq!['\n'] + "\t StdDev DE: "@ + render_fixed4(s.stdev as int) + seq!['\n']
}

/// The whole report: a header, then the overall, best and worst blocks.
pub open spec fn render_report(r: DeReport) -> Seq<char> {
    "Number of Samples: "@ + dec_rep(r.overall.sample_count as int) + seq!['\n'] + "DE Formula: "@
        + method_name(r.de_method) + seq!['\n', '\n'] + "OVERALL - ("@ + dec_rep(
        r.overall.sample_count as int,
    ) + " colors)\n"@ + render_block(r.overall) + seq!['\n'] + "BEST 90% - ("@ + dec_rep(
        r.best_90.sample_count as int,
    ) + " colors)\n"@ + render_block(r.best_90) + seq!['\n'] + "WORST 10% - ("@ + dec_rep(
        r.worst_10.sample_count as int,
    ) + " colors)\n"@ + render_block(r.worst_10) + seq!['\n']
}

impl DeSummary {
    /// The block as shown in the report.
    pub fn render(&self) -> (r: String)
        requires
            summary_bounded(*self),
        ensures
            r@ == render_block(*self),
    {
        let mut out: Vec<char> = Vec::new();
        let labels = chars_of_str("\tAverage DE: ");
        push_all(&labels, &mut out);
        push_fixed4(self.mean, &mut out);
        out.push('\n');
        let l2 = chars_of_str("\t    Max DE: ");
        push_all(&l2, &mut out);
        push_fixed4(self.max, &mut out);
        out.push('\n');
        let l3 = chars_of_str("\t    Min DE: ");
        push_all(&l3, &mut out);
        push_fixed4(self.min, &mut out);
        out.push('\n');
        let l4 = chars_of_str("\t StdDev DE: ");
        push_all(&l4, &mut out);
        push_fixed4(self.stdev, &mut out);
        out.push('\n');
        assert(out@ =~= render_block(*self));
        string_from_chars(&out)
    }
}

impl DeReport {
    /// The report as shown: header, then the three labeled blocks.
    #[verifier::rlimit(60)]
    pub fn render(&self) -> (r: String)
        requires
            summary_bounded(self.overall),
            summary_bounded(self.best_90),
            summary_bounded(self.worst_10),
        ensures
            r@ == render_report(*self),
    {
        let mut out: Vec<char> = Vec::new();
        let h1 = chars_of_str("Number of Samples: ");
        push_all(&h1, &mut out);
        push_dec(self.overall.sample_count as u64, &mut out);
        out.push('\n');
        let h2 = chars_of_str("DE Formula: ");
        push_all(&h2, &mut out);
        let mname = self.de_method.display();
        let mchars = crate::strutil::chars_of(mname.as_str());
        assert(mchars@ == method_name(self.de_method));
        push_all(&mchars, &mut out);
        out.push('\n');
        out.push('\n');

        let t1 = chars_of_str("OVERALL - (");
        push_all(&t1, &mut out);
        push_dec(self.overall.sample_count as u64, &mut out);
        let t1b = chars_of_str(" colors)\n");
        push_all(&t1b, &mut out);
        let b1 = self.overall.render();
        let b1c = crate::strutil::chars_of(b1.as_str());
        push_all(&b1c, &mut out);
        out.push('\n');

        let t2 = chars_of_str("BEST 90% - (");
        push_all(&t2, &mut out);
        push_dec(self.best_90.sample_count as u64, &mut out);
        let t2b = chars_of_str(" colors)\n");
        push_all(&t2b, &mut out);
        let b2 = self.best_90.render();
        let b2c = crate::strutil::chars_of(b2.as_str());
        push_all(&b2c, &mut out);
        out.push('\n');

        let t3 = chars_of_str("WORST 10% - (");
        push_all(&t3, &mut out);
        push_dec(self.worst_10.sample_count as u64, &mut out);
        let t3b = chars_of_str(" colors)\n");
        push_all(&t3b, &mut out);
        let b3 = self.worst_10.render();
        let b3c = crate::strutil::chars_of(b3.as_str());
        push_all(&b3c, &mut out);
        out.push('\n');

        assert(out@ =~= render_report(*self));
        string_from_chars(&out)
    }
}

/// The characters of a string slice; a reading aid for the renderers.
fn chars_of_str(s: &str) -> (v: Vec<char>)
    ensures
        v@ == s@,
{
    crate::strutil::chars_of(s)
}

/// Appends every character of `v`.
fn push_all(v: &Vec<char>, out: &mut Vec<char>)
    ensures
        final(out)@ == old(out)@ + v@,
{
    let mut i: usize = 0;
    while i < v.len()
        invariant
            i <= v@.len(),
            out@ == old(out)@ + v@.take(i as int),
        decreases v@.len() - i,
    {
        out.push(v[i]);
        assert(out@ =~= old(out)@ + v@.take(i as int + 1)) by {
            assert(v@.take(i as int + 1) =~= v@.take(i as int).push(v@[i as int]));
        }
        i = i + 1;
    }
    assert(v@.take(v@.len() as int) =~= v@);
}


} // verus!
