use vstd::prelude::*;
use crate::error::Error;
use crate::strutil::{chars_of, trim_spec, trim_chars, string_from_chars, str_to_string};

verus! {

/// ASCII lower-casing, character by character.
pub open spec fn lower_char(c: char) -> char {
    if c == 'A' {
        'a'
    } else if c == 'B' {
        'b'
    } else if c == 'C' {
        'c'
    } else if c == 'D' {
        'd'
    } else if c == 'E' {
        'e'
    } else if c == 'F' {
        'f'
    } else if c == 'G' {
        'g'
    } else if c == 'H' {
        'h'
    } else if c == 'I' {
        'i'
    } else if c == 'J' {
        'j'
    } else if c == 'K' {
        'k'
    } else if c == 'L' {
        'l'
    } else if c == 'M' {
        'm'
    } else if c == 'N' {
        'n'
    } else if c == 'O' {
        'o'
    } else if c == 'P' {
        'p'
    } else if c == 'Q' {
        'q'
    } else if c == 'R' {
        'r'
    } else if c == 'S' {
        's'
    } else if c == 'T' {
        't'
    } else if c == 'U' {
        'u'
    } else if c == 'V' {
        'v'
    } else if c == 'W' {
        'w'
    } else if c == 'X' {
        'x'
    } else if c == 'Y' {
        'y'
    } else if c == 'Z' {
        'z'
    } else {
        c
    }
}

pub open spec fn lower_seq(s: Seq<char>) -> Seq<char> {
    s.map_values(|c: char| lower_char(c))
}

pub fn lower_char_exec(c: char) -> (r: char)
    ensures
        r == lower_char(c),
{
    match c {
        'A' => 'a',
        'B' => 'b',
        'C' => 'c',
        'D' => 'd',
        'E' => 'e',
        'F' => 'f',
        'G' => 'g',
        'H' => 'h',
        'I' => 'i',
        'J' => 'j',
        'K' => 'k',
        'L' => 'l',
        'M' => 'm',
        'N' => 'n',
        'O' => 'o',
        'P' => 'p',
        'Q' => 'q',
        'R' => 'r',
        'S' => 's',
        'T' => 't',
        'U' => 'u',
        'V' => 'v',
        'W' => 'w',
        'X' => 'x',
        'Y' => 'y',
        'Z' => 'z',
        _ => c,
    }
}

pub fn lower_chars(v: &Vec<char>) -> (r: Vec<char>)
    ensures
        r@ == lower_seq(v@),
{
    let mut r: Vec<char> = Vec::new();
    let mut i: usize = 0;
    while i < v.len()
        invariant
            i <= v@.len(),
            r@ == lower_seq(v@.take(i as int)),
        decreases v@.len() - i,
    {
        r.push(lower_char_exec(v[i]));
        assert(r@ =~= lower_seq(v@.take(i as int + 1))) by {
            assert(v@.take(i as int + 1) =~= v@.take(i as int).push(v@[i as int]));
            assert(lower_seq(v@.take(i as int).push(v@[i as int]))
                =~= lower_seq(v@.take(i as int)).push(lower_char(v@[i as int])));
        }
        i = i + 1;
    }
    assert(v@.take(v@.len() as int) =~= v@);
    r
}

/// Whether `n` occurs contiguously inside `h`.
pub open spec fn contains_seq(h: Seq<char>, n: Seq<char>) -> bool {
    exists|i: int| 0 <= i <= h.len() - n.len() && #[trigger] h.subrange(i, i + n.len()) == n
}

/// Whether the needle occurs contiguously inside the haystack.
pub fn contains_sub(hay: &Vec<char>, needle: &str) -> (r: bool)
    ensures
        r == contains_seq(hay@, needle@),
{
    let nd = chars_of(needle);
    let nlen = nd.len();
    let hlen = hay.len();
    if nlen > hlen {
        assert(!contains_seq(hay@, needle@));
        return false;
    }
    if nlen == 0 {
        assert(hay@.subrange(0, 0 + needle@.len() as int) =~= needle@);
        return true;
    }
    let mut i: usize = 0;
    while i <= hlen - nlen
        invariant
            nlen == needle@.len(),
            hlen == hay@.len(),
            nd@ == needle@,
            0 < nlen <= hlen,
            i <= hlen - nlen + 1,
            forall|k: int| 0 <= k < i ==> #[trigger] hay@.subrange(k, k + nlen) != needle@,
        decreases hlen - nlen + 1 - i,
    {
        let mut j: usize = 0;
        let mut hit = true;
        while j < nlen
            invariant
                nlen == needle@.len(),
                hlen == hay@.len(),
                nd@ == needle@,
                i + nlen <= hlen,
                j <= nlen,
                hit ==> forall|m: int| 0 <= m < j ==> hay@[i + m] == needle@[m],
                !hit ==> hay@.subrange(i as int, i + nlen) != needle@,
            decreases nlen - j,
        {
            if hay[i + j] != nd[j] {
                assert(hay@.subrange(i as int, i + nlen)[j as int] == hay@[i + j]);
                hit = false;
                j = nlen;
            } else {
                j = j + 1;
            }
        }
        if hit {
            assert(hay@.subrange(i as int, i + nlen) =~= needle@);
            return true;
        }
        i = i + 1;
    }
    assert forall|k: int| 0 <= k <= hay@.len() - needle@.len() implies #[trigger] hay@.subrange(
        k,
        k + needle@.len(),
    ) != needle@ by {
        assert(k < i);
        assert(hay@.subrange(k, k + nlen) != needle@);
    }
    false
}

/// The family of tooling that wrote a measurement file, told apart by
/// keywords in its first record.
#[derive(Debug, Clone, PartialEq, Eq)]
pub enum Vendor {
    Argyll,
    Cgats,
    ColorBurst,
    Curve,
    Xrite,
    Other(String),
}

/// The vendor whose keyword is found first in the lowered text, if any;
/// the keyword list is ordered, and the first match wins.
pub open spec fn keyword_vendor(l: Seq<char>) -> Option<Vendor> {
    if contains_seq(l, "argyll"@) {
        Some(Vendor::Argyll)
    } else if contains_seq(l, "cti1"@) {
        Some(Vendor::Argyll)
    } else if contains_seq(l, "cgats"@) {
        Some(Vendor::Cgats)
    } else if contains_seq(l, "colorburst"@) {
        Some(Vendor::ColorBurst)
    } else if contains_seq(l, "curve"@) {
        Some(Vendor::Curve)
    } else if contains_seq(l, "xrite"@) {
        Some(Vendor::Xrite)
    } else if contains_seq(l, "x-rite"@) {
        Some(Vendor::Xrite)
    } else if contains_seq(l, "i1"@) {
        Some(Vendor::Xrite)
    } else if contains_seq(l, "profiler"@) {
        Some(Vendor::Xrite)
    } else {
        None
    }
}

impl Vendor {
    /// Classifies a piece of text: empty text is refused, a recognized
    /// keyword names its vendor, and anything else passes through as
    /// `Other` carrying the trimmed text.
    pub fn from_str(s: &str) -> (r: Result<Vendor, Error>)
        ensures
            trim_spec(s@).len() == 0 ==> r == Err::<Vendor, Error>(Error::UnknownVendor),
            trim_spec(s@).len() > 0 ==> match keyword_vendor(lower_seq(trim_spec(s@))) {
                Some(v) => r == Ok::<Vendor, Error>(v),
                None => (r matches Ok(Vendor::Other(o)) && o@ == trim_spec(s@)),
            },
    {
        let v = chars_of(s);
        let t = trim_chars(&v);
        if t.len() == 0 {
            return Err(Error::UnknownVendor);
        }
        let l = lower_chars(&t);
        if contains_sub(&l, "argyll") {
            Ok(Vendor::Argyll)
        } else if contains_sub(&l, "cti1") {
            Ok(Vendor::Argyll)
        } else if contains_sub(&l, "cgats") {
            Ok(Vendor::Cgats)
        } else if contains_sub(&l, "colorburst") {
            Ok(Vendor::ColorBurst)
        } else if contains_sub(&l, "curve") {
            Ok(Vendor::Curve)
        } else if contains_sub(&l, "xrite") {
            Ok(Vendor::Xrite)
        } else if contains_sub(&l, "x-rite") {
            Ok(Vendor::Xrite)
        } else if contains_sub(&l, "i1") {
            Ok(Vendor::Xrite)
        } else if contains_sub(&l, "profiler") {
            Ok(Vendor::Xrite)
        } else {
            Ok(Vendor::Other(string_from_chars(&t)))
        }
    }

    /// A vendor from a keyword match, or `Other` carrying the text itself.
    pub fn new(s: &'static str) -> (r: Vendor)
        ensures
            trim_spec(s@).len() == 0 ==> (r matches Vendor::Other(o) && o@ == s@),
            trim_spec(s@).len() > 0 ==> match keyword_vendor(lower_seq(trim_spec(s@))) {
                Some(v) => r == v,
                None => (r matches Vendor::Other(o) && o@ == trim_spec(s@)),
            },
    {
        match Vendor::from_str(s) {
            Ok(vendor) => vendor,
            Err(_) => Vendor::Other(str_to_string(s)),
        }
    }

    /// The vendor's display name.
    pub fn display(&self) -> (r: String)
        ensures
            match self {
                Vendor::Argyll => r@ == "Argyll"@,
                Vendor::Cgats => r@ == "Cgats"@,
                Vendor::ColorBurst => r@ == "ColorBurst"@,
                Vendor::Curve => r@ == "Curve"@,
                Vendor::Xrite => r@ == "Xrite"@,
                Vendor::Other(o) => r@ == o@,
            },
    {
        match self {
            Vendor::Argyll => str_to_string("Argyll"),
            Vendor::Cgats => str_to_string("Cgats"),
            Vendor::ColorBurst => str_to_string("ColorBurst"),
            Vendor::Curve => str_to_string("Curve"),
            Vendor::Xrite => str_to_string("Xrite"),
            Vendor::Other(o) => o.clone(),
        }
    }
}

} // verus!
