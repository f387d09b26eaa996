use vstd::prelude::*;
use crate::numeric::{
    scaled_of, parse_scaled, render_scaled, render_scaled_string, SCALED_LIMIT,
    lemma_scaled_round_trip,
};
use crate::strutil::str_to_string;

verus! {

/// The mathematical content of one cell: its original text and its numeric
/// reading, if it has one.
pub struct ValueView {
    pub text: Seq<char>,
    pub number: Option<int>,
}

/// The cell that a piece of trimmed text denotes.
pub open spec fn value_of_text(t: Seq<char>) -> ValueView {
    ValueView { text: t, number: scaled_of(t) }
}

/// A well-formed cell records exactly the numeric reading of its own text.
pub open spec fn value_wf(v: ValueView) -> bool {
    v.number == scaled_of(v.text)
}

/// The text a cell shows when written out: numeric cells in canonical
/// four-decimal form, anything else verbatim.
pub open spec fn value_render(v: ValueView) -> Seq<char> {
    match v.number {
        Some(n) => render_scaled(n),
        None => v.text,
    }
}

/// One cell of a sample: the text it was read from, and its value in
/// ten-thousandths where that text reads as a number.
#[derive(Debug, Clone)]
pub struct CgatsValue {
    pub text: String,
    pub number: Option<i64>,
}

impl View for CgatsValue {
    type V = ValueView;

    open spec fn view(&self) -> ValueView {
        ValueView {
            text: self.text@,
            number: match self.number {
                Some(n) => Some(n as int),
                None => None,
            },
        }
    }
}

impl CgatsValue {
    /// The cell a piece of text denotes. Only plain signed decimals
    /// within the representable range read as numbers; exponent
    /// notation, words for infinities, and oversized figures stay
    /// non-numeric text.
    pub fn from_text(s: &str) -> (r: CgatsValue)
        ensures
            r@ == value_of_text(s@),
            value_wf(r@),
    {
        let number = parse_scaled(s);
        let r = CgatsValue { text: str_to_string(s), number };
        assert(r@.number == scaled_of(s@));
        r
    }

    /// The cell holding a numeric value, shown in canonical form.
    pub fn from_scaled(n: i64) -> (r: CgatsValue)
        requires
            -SCALED_LIMIT <= n <= SCALED_LIMIT,
        ensures
            r@.number == Some(n as int),
            r@.text == render_scaled(n as int),
            value_wf(r@),
    {
        let text = render_scaled_string(n);
        proof {
            lemma_scaled_round_trip(n as int);
        }
        CgatsValue { text, number: Some(n) }
    }

    /// An exact copy.
    pub fn duplicate(&self) -> (r: CgatsValue)
        ensures
            r@ == self@,
    {
        CgatsValue { text: self.text.clone(), number: self.number }
    }

    /// The text shown when the cell is written out.
    pub fn render(&self) -> (r: String)
        requires
            self@.number matches Some(n) ==> -SCALED_LIMIT <= n <= SCALED_LIMIT,
        ensures
            r@ == value_render(self@),
    {
        match self.number {
            Some(n) => render_scaled_string(n),
            None => self.text.clone(),
        }
    }
}

/// A cell is well-formed when its numeric reading matches its text; the
/// reading is then bounded.
pub proof fn lemma_value_wf_bounds(v: ValueView)
    requires
        value_wf(v),
    ensures
        v.number matches Some(n) ==> -SCALED_LIMIT <= n <= SCALED_LIMIT,
{
    crate::numeric::lemma_scaled_of_bounds(v.text);
}

/// One measurement row: an ordered run of cells, one per layout column.
#[derive(Debug, Clone)]
pub struct Sample {
    pub values: Vec<CgatsValue>,
}

impl View for Sample {
    type V = Seq<ValueView>;

    open spec fn view(&self) -> Seq<ValueView> {
        self.values@.map_values(|v: CgatsValue| v@)
    }
}

/// Every cell of the row is well-formed.
pub open spec fn sample_wf(s: Seq<ValueView>) -> bool {
    forall|i: int| 0 <= i < s.len() ==> value_wf(#[trigger] s[i])
}

/// The row's cells, tab-joined, as written out.
pub open spec fn render_cells(vs: Seq<ValueView>) -> Seq<char>
    decreases vs.len(),
{
    if vs.len() == 0 {
        Seq::<char>::empty()
    } else if vs.len() == 1 {
        value_render(vs[0])
    } else {
        render_cells(vs.drop_last()) + seq!['\t'] + value_render(vs.last())
    }
}

impl Sample {
    /// The number of cells in the row.
    pub fn n_values(&self) -> (r: usize)
        ensures
            r == self@.len(),
    {
        self.values.len()
    }

    /// The cell at a position, if there is one.
    pub fn get_value(&self, index: usize) -> (r: Option<&CgatsValue>)
        ensures
            match r {
                Some(v) => index < self@.len() && v@ == self@[index as int],
                None => index >= self@.len(),
            },
    {
        if index < self.values.len() {
            let v = &self.values[index];
            assert(v@ == self@[index as int]);
            Some(v)
        } else {
            None
        }
    }

    /// An exact copy.
    pub fn duplicate(&self) -> (r: Sample)
        ensures
            r@ == self@,
    {
        let mut values: Vec<CgatsValue> = Vec::new();
        let mut i: usize = 0;
        while i < self.values.len()
            invariant
                i <= self.values@.len(),
                values@.map_values(|v: CgatsValue| v@) == self@.take(i as int),
            decreases self.values@.len() - i,
        {
            values.push(self.values[i].duplicate());
            assert(values@.map_values(|v: CgatsValue| v@) =~= self@.take(i as int + 1)) by {
                assert(self@.take(i as int + 1) =~= self@.take(i as int).push(self@[i as int]));
                assert(self@[i as int] == self.values@[i as int]@);
            }
            i = i + 1;
        }
        let r = Sample { values };
        assert(self@.take(self@.len() as int) =~= self@);
        assert(r@ =~= self@);
        r
    }

    /// The Lab triple read off the row at the given three positions, if
    /// all three cells exist and are numeric.
    pub fn to_lab(&self, indexes: &[usize; 3]) -> (r: Option<[i64; 3]>)
        ensures
            match r {
                Some(lab) => {
                    &&& indexes@[0] < self@.len() && self@[indexes@[0] as int].number == Some(
                        lab@[0] as int,
                    )
                    &&& indexes@[1] < self@.len() && self@[indexes@[1] as int].number == Some(
                        lab@[1] as int,
                    )
                    &&& indexes@[2] < self@.len() && self@[indexes@[2] as int].number == Some(
                        lab@[2] as int,
                    )
                },
                None => indexes@[0] >= self@.len() || indexes@[1] >= self@.len() || indexes@[2]
                    >= self@.len() || self@[indexes@[0] as int].number is None
                    || self@[indexes@[1] as int].number is None || self@[indexes@[2] as int].number
                    is None,
            },
    {
        let i0 = indexes[0];
        let i1 = indexes[1];
        let i2 = indexes[2];
        if i0 >= self.values.len() || i1 >= self.values.len() || i2 >= self.values.len() {
            return None;
        }
        assert(self@[i0 as int] == self.values@[i0 as int]@);
        assert(self@[i1 as int] == self.values@[i1 as int]@);
        assert(self@[i2 as int] == self.values@[i2 as int]@);
        let l = match self.values[i0].number {
            Some(n) => n,
            None => {
                return None;
            },
        };
        let a = match self.values[i1].number {
            Some(n) => n,
            None => {
                return None;
            },
        };
        let b = match self.values[i2].number {
            Some(n) => n,
            None => {
                return None;
            },
        };
        Some([l, a, b])
    }

    /// The row as written out: its cells tab-joined.
    pub fn render(&self) -> (r: String)
        requires
            sample_wf(self@),
        ensures
            r@ == render_cells(self@),
    {
        let mut out = String::new();
        let mut i: usize = 0;
        while i < self.values.len()
            invariant
                i <= self.values@.len(),
                sample_wf(self@),
                out@ == render_cells(self@.take(i as int)),
            decreases self.values@.len() - i,
        {
            if i > 0 {
                proof {
                    reveal_strlit("\t");
                    assert("\t"@ =~= seq!['\t']);
                }
                out.append("\t");
            }
            proof {
                assert(value_wf(self@[i as int]));
                lemma_value_wf_bounds(self@[i as int]);
                assert(self@[i as int] == self.values@[i as int]@);
            }
            let cell = self.values[i].render();
            out.append(cell.as_str());
            proof {
                let t = self@.take(i as int + 1);
                assert(t.drop_last() =~= self@.take(i as int));
                assert(t.last() == self@[i as int]);
                if i == 0 {
                    assert(out@ =~= render_cells(t));
                } else {
                    assert(out@ =~= render_cells(t));
                }
            }
            i = i + 1;
        }
        assert(self@.take(self@.len() as int) =~= self@);
        out
    }
}

} // verus!
