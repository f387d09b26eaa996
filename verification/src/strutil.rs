use vstd::prelude::*;
use vstd::string::*;

verus! {

// ---------------------------------------------------------------------------
// Character classes
// ---------------------------------------------------------------------------

/// The whitespace that line and cell trimming removes.
pub open spec fn is_space(c: char) -> bool {
    c == ' ' || c == '\t' || c == '\r' || c == '\n'
}

/// Characters that end a logical line.
pub open spec fn is_break(c: char) -> bool {
    c == '\n' || c == '\r'
}

pub open spec fn break_pred() -> spec_fn(char) -> bool {
    |c: char| is_break(c)
}

pub open spec fn tab_pred() -> spec_fn(char) -> bool {
    |c: char| c == '\t'
}

pub fn space_char(c: char) -> (r: bool)
    ensures
        r == is_space(c),
{
    c == ' ' || c == '\t' || c == '\r' || c == '\n'
}

// ---------------------------------------------------------------------------
// Exec string primitives
// ---------------------------------------------------------------------------

/// The character sequence of a string slice, materialized.
pub fn chars_of(s: &str) -> (v: Vec<char>)
    ensures
        v@ == s@,
{
    let n = s.unicode_len();
    let mut v: Vec<char> = Vec::new();
    let mut i: usize = 0;
    while i < n
        invariant
            n == s@.len(),
            i <= n,
            v@ == s@.take(i as int),
        decreases n - i,
    {
        let c = s.get_char(i);
        v.push(c);
        assert(s@.take(i + 1 as int) =~= s@.take(i as int).push(s@[i as int]));
        i = i + 1;
    }
    assert(s@.take(n as int) =~= s@);
    v
}

/// Relies on std's `String::push`: appends the given `char` to the end of
/// the string, and does nothing else.
pub assume_specification[ String::push ](s: &mut String, ch: char)
    ensures
        final(s)@ == old(s)@.push(ch),
;

/// A `String` holding exactly the given characters.
pub fn string_from_chars(v: &Vec<char>) -> (s: String)
    ensures
        s@ == v@,
{
    let mut s = String::new();
    let mut i: usize = 0;
    while i < v.len()
        invariant
            i <= v@.len(),
            s@ == v@.take(i as int),
        decreases v@.len() - i,
    {
        s.push(v[i]);
        assert(v@.take(i + 1 as int) =~= v@.take(i as int).push(v@[i as int]));
        i = i + 1;
    }
    assert(v@.take(v@.len() as int) =~= v@);
    s
}

/// A fresh copy of a string slice.
pub fn str_to_string(s: &str) -> (r: String)
    ensures
        r@ == s@,
{
    s.to_owned()
}

/// Character-for-character equality of two string slices.
pub fn str_eq_str(a: &str, b: &str) -> (r: bool)
    ensures
        r == (a@ == b@),
{
    let n = a.unicode_len();
    if n != b.unicode_len() {
        assert(a@.len() != b@.len());
        return false;
    }
    let mut i: usize = 0;
    while i < n
        invariant
            n == a@.len(),
            n == b@.len(),
            i <= n,
            forall|k: int| 0 <= k < i ==> a@[k] == b@[k],
        decreases n - i,
    {
        if a.get_char(i) != b.get_char(i) {
            assert(a@[i as int] != b@[i as int]);
            return false;
        }
        i = i + 1;
    }
    assert(a@ =~= b@);
    true
}

// ---------------------------------------------------------------------------
// Trimming
// ---------------------------------------------------------------------------

pub open spec fn trim_left(s: Seq<char>) -> Seq<char>
    decreases s.len(),
{
    if s.len() > 0 && is_space(s[0]) {
        trim_left(s.drop_first())
    } else {
        s
    }
}

pub open spec fn trim_right(s: Seq<char>) -> Seq<char>
    decreases s.len(),
{
    if s.len() > 0 && is_space(s.last()) {
        trim_right(s.drop_last())
    } else {
        s
    }
}

/// What `str::trim` leaves of a piece of text.
pub open spec fn trim_spec(s: Seq<char>) -> Seq<char> {
    trim_right(trim_left(s))
}

proof fn lemma_trim_left_skip(s: Seq<char>, i: int)
    requires
        0 <= i <= s.len(),
        forall|k: int| 0 <= k < i ==> is_space(s[k]),
        i < s.len() ==> !is_space(s[i]),
    ensures
        trim_left(s) == s.skip(i),
    decreases i,
{
    if i == 0 {
        assert(s.skip(0) =~= s);
    } else {
        assert(is_space(s[0]));
        lemma_trim_left_skip(s.drop_first(), i - 1);
        assert(s.drop_first().skip(i - 1) =~= s.skip(i));
    }
}

proof fn lemma_trim_right_take(s: Seq<char>, j: int)
    requires
        0 <= j <= s.len(),
        forall|k: int| j <= k < s.len() ==> is_space(s[k]),
        j > 0 ==> !is_space(s[j - 1]),
    ensures
        trim_right(s) == s.take(j),
    decreases s.len() - j,
{
    if j == s.len() {
        assert(s.take(j) =~= s);
    } else {
        assert(is_space(s.last()));
        lemma_trim_right_take(s.drop_last(), j);
        assert(s.drop_last().take(j) =~= s.take(j));
    }
}

/// Trimming text that carries no outer whitespace changes nothing.
pub proof fn lemma_trim_stable(s: Seq<char>)
    requires
        s.len() > 0 ==> !is_space(s[0]) && !is_space(s.last()),
    ensures
        trim_spec(s) == s,
{
    if s.len() == 0 {
        assert(trim_left(s) == s);
        assert(trim_right(s) == s);
    } else {
        assert(trim_left(s) == s);
        assert(trim_right(s) == s);
    }
}

/// The trimmed middle of a character vector.
pub fn trim_chars(v: &Vec<char>) -> (r: Vec<char>)
    ensures
        r@ == trim_spec(v@),
{
    let n = v.len();
    let mut lo: usize = 0;
    while lo < n && space_char(v[lo])
        invariant
            n == v@.len(),
            lo <= n,
            forall|k: int| 0 <= k < lo ==> is_space(v@[k]),
        decreases n - lo,
    {
        lo = lo + 1;
    }
    proof {
        lemma_trim_left_skip(v@, lo as int);
    }
    if lo == n {
        let r: Vec<char> = Vec::new();
        assert(v@.skip(lo as int) =~= Seq::<char>::empty());
        assert(trim_right(Seq::<char>::empty()) =~= Seq::<char>::empty());
        return r;
    }
    let mut hi: usize = n;
    while hi > lo && space_char(v[hi - 1])
        invariant
            n == v@.len(),
            lo <= hi <= n,
            forall|k: int| hi <= k < n ==> is_space(v@[k]),
        decreases hi,
    {
        hi = hi - 1;
    }
    assert(hi > lo) by {
        assert(!is_space(v@[lo as int]));
    }
    proof {
        let t = v@.skip(lo as int);
        lemma_trim_right_take(t, hi - lo);
        assert(forall|k: int| hi - lo <= k < t.len() ==> is_space(#[trigger] t[k]));
    }
    let mut r: Vec<char> = Vec::new();
    let mut i: usize = lo;
    while i < hi
        invariant
            lo <= i <= hi <= n,
            n == v@.len(),
            r@ == v@.subrange(lo as int, i as int),
        decreases hi - i,
    {
        r.push(v[i]);
        assert(v@.subrange(lo as int, i + 1 as int) =~= v@.subrange(lo as int, i as int).push(
            v@[i as int],
        ));
        i = i + 1;
    }
    assert(r@ =~= v@.skip(lo as int).take(hi - lo as int));
    r
}

// ---------------------------------------------------------------------------
// Splitting
// ---------------------------------------------------------------------------

/// The pieces of `s` delimited by characters satisfying `p`; always at least
/// one piece, and one more piece than separators.
pub open spec fn split_by(s: Seq<char>, p: spec_fn(char) -> bool) -> Seq<Seq<char>>
    decreases s.len(),
{
    if s.len() == 0 {
        seq![Seq::<char>::empty()]
    } else if p(s[0]) {
        seq![Seq::<char>::empty()].add(split_by(s.drop_first(), p))
    } else {
        let rest = split_by(s.drop_first(), p);
        seq![seq![s[0]].add(rest[0])].add(rest.drop_first())
    }
}

pub proof fn lemma_split_len(s: Seq<char>, p: spec_fn(char) -> bool)
    ensures
        split_by(s, p).len() >= 1,
    decreases s.len(),
{
    if s.len() > 0 {
        lemma_split_len(s.drop_first(), p);
    }
}

/// Appending a separator adds one empty piece at the end.
pub proof fn lemma_split_push_sep(s: Seq<char>, p: spec_fn(char) -> bool, c: char)
    requires
        p(c),
    ensures
        split_by(s.push(c), p) == split_by(s, p).push(Seq::<char>::empty()),
    decreases s.len(),
{
    lemma_split_len(s, p);
    if s.len() == 0 {
        assert(s =~= Seq::<char>::empty());
        assert(s.push(c).drop_first() =~= Seq::<char>::empty());
        assert(split_by(s.push(c), p) =~~= split_by(s, p).push(Seq::<char>::empty()));
    } else {
        lemma_split_push_sep(s.drop_first(), p, c);
        assert(s.push(c).drop_first() =~= s.drop_first().push(c));
        lemma_split_len(s.drop_first(), p);
        if p(s[0]) {
            assert(split_by(s.push(c), p) =~~= split_by(s, p).push(Seq::<char>::empty()));
        } else {
            assert(split_by(s.push(c), p) =~~= split_by(s, p).push(Seq::<char>::empty()));
        }
    }
}

/// Appending an ordinary character extends the last piece.
pub proof fn lemma_split_push_char(s: Seq<char>, p: spec_fn(char) -> bool, c: char)
    requires
        !p(c),
    ensures
        split_by(s.push(c), p) == split_by(s, p).update(
            split_by(s, p).len() - 1,
            split_by(s, p).last().push(c),
        ),
    decreases s.len(),
{
    lemma_split_len(s, p);
    if s.len() == 0 {
        assert(s =~= Seq::<char>::empty());
        assert(s.push(c).drop_first() =~= Seq::<char>::empty());
        assert(split_by(s.push(c), p) =~~= split_by(s, p).update(
            split_by(s, p).len() - 1,
            split_by(s, p).last().push(c),
        ));
    } else {
        lemma_split_push_char(s.drop_first(), p, c);
        assert(s.push(c).drop_first() =~= s.drop_first().push(c));
        lemma_split_len(s.drop_first(), p);
        if p(s[0]) {
            assert(split_by(s.push(c), p) =~~= split_by(s, p).update(
                split_by(s, p).len() - 1,
                split_by(s, p).last().push(c),
            ));
        } else {
            assert(split_by(s.push(c), p) =~~= split_by(s, p).update(
                split_by(s, p).len() - 1,
                split_by(s, p).last().push(c),
            ));
        }
    }
}

/// A separator splices two splits together.
pub proof fn lemma_split_concat(u: Seq<char>, v: Seq<char>, p: spec_fn(char) -> bool, c: char)
    requires
        p(c),
    ensures
        split_by(u.push(c).add(v), p) == split_by(u, p).add(split_by(v, p)),
    decreases u.len(),
{
    lemma_split_len(u, p);
    if u.len() == 0 {
        assert(u =~= Seq::<char>::empty());
        assert(u.push(c).add(v).drop_first() =~= v);
        assert(split_by(u.push(c).add(v), p) =~~= split_by(u, p).add(split_by(v, p)));
    } else {
        lemma_split_concat(u.drop_first(), v, p, c);
        assert(u.push(c).add(v).drop_first() =~= u.drop_first().push(c).add(v));
        lemma_split_len(u.drop_first(), p);
        if p(u[0]) {
            assert(split_by(u.push(c).add(v), p) =~~= split_by(u, p).add(split_by(v, p)));
        } else {
            lemma_split_len(u.drop_first().push(c).add(v), p);
            assert(split_by(u.push(c).add(v), p) =~~= split_by(u, p).add(split_by(v, p)));
        }
    }
}

/// Text without separators is a single piece.
pub proof fn lemma_split_whole(s: Seq<char>, p: spec_fn(char) -> bool)
    requires
        forall|i: int| 0 <= i < s.len() ==> !p(s[i]),
    ensures
        split_by(s, p) == seq![s],
    decreases s.len(),
{
    if s.len() == 0 {
        assert(s =~= Seq::<char>::empty());
        assert(split_by(s, p) =~~= seq![s]);
    } else {
        lemma_split_whole(s.drop_first(), p);
        assert(split_by(s, p) =~~= seq![s]);
    }
}

/// The pieces of `v` delimited by line breaks.
pub fn split_breaks(v: &Vec<char>) -> (r: Vec<Vec<char>>)
    ensures
        r@.map_values(|l: Vec<char>| l@) == split_by(v@, break_pred()),
{
    let mut r: Vec<Vec<char>> = Vec::new();
    let mut cur: Vec<char> = Vec::new();
    let mut i: usize = 0;
    while i < v.len()
        invariant
            i <= v@.len(),
            r@.map_values(|l: Vec<char>| l@).push(cur@) == split_by(v@.take(i as int), break_pred()),
        decreases v@.len() - i,
    {
        let ghost prefix = v@.take(i as int);
        let c = v[i];
        assert(v@.take(i + 1 as int) =~= prefix.push(c));
        if c == '\n' || c == '\r' {
            proof {
                lemma_split_push_sep(prefix, break_pred(), c);
            }
            r.push(cur);
            cur = Vec::new();
            assert(r@.map_values(|l: Vec<char>| l@).push(cur@) =~= split_by(
                v@.take(i + 1 as int),
                break_pred(),
            ));
        } else {
            proof {
                lemma_split_push_char(prefix, break_pred(), c);
            }
            cur.push(c);
            assert(r@.map_values(|l: Vec<char>| l@).push(cur@) =~= split_by(
                v@.take(i + 1 as int),
                break_pred(),
            ));
        }
        i = i + 1;
    }
    assert(v@.take(v@.len() as int) =~= v@);
    r.push(cur);
    assert(r@.map_values(|l: Vec<char>| l@) =~= split_by(v@, break_pred()));
    r
}

/// The pieces of `v` delimited by tab characters.
pub fn split_tabs(v: &Vec<char>) -> (r: Vec<Vec<char>>)
    ensures
        r@.map_values(|l: Vec<char>| l@) == split_by(v@, tab_pred()),
{
    let mut r: Vec<Vec<char>> = Vec::new();
    let mut cur: Vec<char> = Vec::new();
    let mut i: usize = 0;
    while i < v.len()
        invariant
            i <= v@.len(),
            r@.map_values(|l: Vec<char>| l@).push(cur@) == split_by(v@.take(i as int), tab_pred()),
        decreases v@.len() - i,
    {
        let ghost prefix = v@.take(i as int);
        let c = v[i];
        assert(v@.take(i + 1 as int) =~= prefix.push(c));
        if c == '\t' {
            proof {
                lemma_split_push_sep(prefix, tab_pred(), c);
            }
            r.push(cur);
            cur = Vec::new();
            assert(r@.map_values(|l: Vec<char>| l@).push(cur@) =~= split_by(
                v@.take(i + 1 as int),
                tab_pred(),
            ));
        } else {
            proof {
                lemma_split_push_char(prefix, tab_pred(), c);
            }
            cur.push(c);
            assert(r@.map_values(|l: Vec<char>| l@).push(cur@) =~= split_by(
                v@.take(i + 1 as int),
                tab_pred(),
            ));
        }
        i = i + 1;
    }
    assert(v@.take(v@.len() as int) =~= v@);
    r.push(cur);
    assert(r@.map_values(|l: Vec<char>| l@) =~= split_by(v@, tab_pred()));
    r
}

// ---------------------------------------------------------------------------
// Records: the shape of a read file
// ---------------------------------------------------------------------------

/// Every piece trimmed.
pub open spec fn trim_pieces(ps: Seq<Seq<char>>) -> Seq<Seq<char>> {
    ps.map_values(|c: Seq<char>| trim_spec(c))
}

/// The cells of one logical line: tab-split, each cell trimmed.
pub open spec fn split_cells(line: Seq<char>) -> Seq<Seq<char>> {
    trim_pieces(split_by(line, tab_pred()))
}

/// The records of a whole text: break-split, trimmed, empties dropped,
/// each remaining line split into cells.
pub open spec fn records_of(text: Seq<char>) -> Seq<Seq<Seq<char>>> {
    split_by(text, break_pred()).map_values(|l: Seq<char>| trim_spec(l)).filter(
        |l: Seq<char>| l.len() > 0,
    ).map_values(|l: Seq<char>| split_cells(l))
}

/// The cells of one logical line, as owned strings.
pub fn cells_of_line(line: &Vec<char>) -> (r: Vec<String>)
    ensures
        r@.map_values(|s: String| s@) == split_cells(line@),
{
    let pieces = split_tabs(line);
    let ghost sp = split_by(line@, tab_pred());
    let mut r: Vec<String> = Vec::new();
    let mut i: usize = 0;
    while i < pieces.len()
        invariant
            i <= pieces@.len(),
            pieces@.map_values(|l: Vec<char>| l@) == sp,
            sp == split_by(line@, tab_pred()),
            r@.map_values(|s: String| s@) == trim_pieces(sp.take(i as int)),
        decreases pieces@.len() - i,
    {
        let t = trim_chars(&pieces[i]);
        let s = string_from_chars(&t);
        proof {
            assert(pieces@.map_values(|l: Vec<char>| l@)[i as int] == pieces@[i as int]@);
            assert(s@ == trim_spec(sp[i as int]));
        }
        r.push(s);
        proof {
            assert(sp.take(i as int + 1) =~= sp.take(i as int).push(sp[i as int]));
            assert(r@.map_values(|s: String| s@) =~= trim_pieces(sp.take(i as int)).push(
                trim_spec(sp[i as int]),
            ));
            assert(trim_pieces(sp.take(i as int).push(sp[i as int])) =~= trim_pieces(
                sp.take(i as int),
            ).push(trim_spec(sp[i as int])));
        }
        i = i + 1;
    }
    assert(sp.take(pieces@.len() as int) =~= sp);
    r
}

} // verus!
