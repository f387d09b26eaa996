use vstd::prelude::*;
use crate::cgats::{Cgats, table_view, doc_wf, field_pos, lemma_field_pos};
use crate::data_vec::first_cell;
use crate::vendor::contains_seq;
use crate::data_map::{CgatsValue, Sample, ValueView, value_of_text, value_wf, sample_wf};
use crate::error::Error;
use crate::field::{Field, DeMethod, de_method_field};
use crate::numeric::dec_rep;
use crate::strutil::string_from_chars;
use crate::vendor::Vendor;

verus! {

/// The identifier cell written for one-based sample number `i`: its text
/// is the decimal number, read back as a value.
pub open spec fn id_value(i: int) -> ValueView {
    value_of_text(dec_rep(i))
}

/// A row with its sample-identifier column rewritten, where the layout
/// has one; `num` is the one-based number to write.
pub open spec fn reindex_row(row: Seq<ValueView>, pos: int, num: int) -> Seq<ValueView> {
    row.update(pos, id_value(num))
}

/// An ordered collection of documents, compared and combined as one.
#[derive(Debug, Clone)]
pub struct CgatsVec {
    pub collection: Vec<Cgats>,
}

/// Every member document is well-formed.
pub open spec fn docs_wf(docs: Seq<Cgats>) -> bool {
    forall|d: int| 0 <= d < docs.len() ==> doc_wf(#[trigger] docs[d])
}

/// The loose compatibility test: every member matches the first in
/// sample count or in field layout.
pub open spec fn compatible(docs: Seq<Cgats>) -> bool {
    docs.len() > 0 && forall|d: int|
        0 <= d < docs.len() ==> (table_view(#[trigger] docs[d]).len() == table_view(
            docs[0],
        ).len() || docs[d].fields@ == docs[0].fields@)
}

/// The strict test: every member carries exactly the first one's layout.
pub open spec fn all_same_fields(docs: Seq<Cgats>) -> bool {
    forall|d: int| 0 <= d < docs.len() ==> (#[trigger] docs[d]).fields@ == docs[0].fields@
}

/// Whether a row carries a numeric reading in each of the three given
/// columns.
pub open spec fn lab_row_readable(row: Seq<ValueView>, pl: int, pa: int, pb: int) -> bool {
    &&& 0 <= pl < row.len() && row[pl].number is Some
    &&& 0 <= pa < row.len() && row[pa].number is Some
    &&& 0 <= pb < row.len() && row[pb].number is Some
}

/// The triple `lab` is exactly what the row reads in the three columns.
pub open spec fn lab_row_read(row: Seq<ValueView>, pl: int, pa: int, pb: int, lab: [i64; 3]) -> bool {
    &&& lab_row_readable(row, pl, pa, pb)
    &&& row[pl].number == Some(lab@[0] as int)
    &&& row[pa].number == Some(lab@[1] as int)
    &&& row[pb].number == Some(lab@[2] as int)
}

/// Whether a pair of documents can be compared for color difference:
/// exactly two, equal sample counts, and a Lab triple in each layout.
pub open spec fn can_delta_spec(docs: Seq<Cgats>) -> bool {
    &&& docs.len() == 2
    &&& table_view(docs[0]).len() == table_view(docs[1]).len()
    &&& docs[0].fields@.contains(Field::LAB_L) && docs[0].fields@.contains(Field::LAB_A)
        && docs[0].fields@.contains(Field::LAB_B)
    &&& docs[1].fields@.contains(Field::LAB_L) && docs[1].fields@.contains(Field::LAB_A)
        && docs[1].fields@.contains(Field::LAB_B)
}

/// Member `m`'s rows all fit through the first member's table: each of
/// its row indices exists there, with at least as many cells.
pub open spec fn row_fit(docs: Seq<Cgats>, m: int) -> bool {
    forall|k: int|
        0 <= k < table_view(docs[m]).len() ==> k < table_view(docs[0]).len() && (
        #[trigger] table_view(docs[m])[k]).len() >= table_view(docs[0])[k].len()
}

/// The first `d` members all fit through the first member's table.
pub open spec fn rows_ok_upto(docs: Seq<Cgats>, d: int) -> bool
    decreases d,
{
    if d <= 0 {
        true
    } else {
        rows_ok_upto(docs, d - 1) && row_fit(docs, d - 1)
    }
}

/// Averaging walks every member's rows through the first member's table:
/// every row index must exist there, with at least as many cells.
pub open spec fn avg_rows_ok(docs: Seq<Cgats>) -> bool {
    rows_ok_upto(docs, docs.len() as int)
}

pub proof fn lemma_row_fit_at(docs: Seq<Cgats>, m: int, k: int)
    requires
        row_fit(docs, m),
        0 <= k < table_view(docs[m]).len(),
    ensures
        k < table_view(docs[0]).len(),
        table_view(docs[m])[k].len() >= table_view(docs[0])[k].len(),
{
    let row = table_view(docs[m])[k];
    assert(row == table_view(docs[m])[k]);
}

pub proof fn lemma_rows_ok_elem(docs: Seq<Cgats>, n: int, m: int)
    requires
        rows_ok_upto(docs, n),
        0 <= m < n,
    ensures
        row_fit(docs, m),
    decreases n,
{
    if m < n - 1 {
        lemma_rows_ok_elem(docs, n - 1, m);
    }
}

/// What one member adds to the running sum of a cell: its own numeric
/// reading there, or nothing where it has no such row or no number.
pub open spec fn cell_contrib(docs: Seq<Cgats>, d: int, k: int, j: int) -> int {
    if k < table_view(docs[d]).len() {
        match table_view(docs[d])[k][j].number {
            Some(n) => n,
            None => 0,
        }
    } else {
        0
    }
}

/// The sum of the first `n` members' contributions to a cell.
pub open spec fn cell_sum(docs: Seq<Cgats>, n: int, k: int, j: int) -> int
    decreases n,
{
    if n <= 0 {
        0
    } else {
        cell_sum(docs, n - 1, k, j) + cell_contrib(docs, n - 1, k, j)
    }
}

/// The averaged cell: a numeric cell of the first member becomes the
/// rounded mean of all contributions; any other cell is the first
/// member's own, untouched.
pub open spec fn avg_cell(docs: Seq<Cgats>, k: int, j: int) -> ValueView {
    let p = table_view(docs[0])[k][j];
    match p.number {
        Some(_) => {
            let m = crate::numeric::div_round(cell_sum(docs, docs.len() as int, k, j),
                docs.len() as int);
            ValueView { text: crate::numeric::render_scaled(m), number: Some(m) }
        },
        None => p,
    }
}

/// Every member's contribution to a cell is bounded, so the sum of `n`
/// of them is bounded by `n` times the cell limit.
pub proof fn lemma_cell_sum_bound(docs: Seq<Cgats>, n: int, k: int, j: int)
    requires
        docs_wf(docs),
        avg_rows_ok(docs),
        0 <= n <= docs.len(),
        0 <= k < table_view(docs[0]).len(),
        0 <= j < table_view(docs[0])[k].len(),
    ensures
        -n * crate::numeric::SCALED_LIMIT <= cell_sum(docs, n, k, j) <= n
            * crate::numeric::SCALED_LIMIT,
    decreases n,
{
    let lim = crate::numeric::SCALED_LIMIT as int;
    if n > 0 {
        lemma_cell_sum_bound(docs, n - 1, k, j);
        assert(doc_wf(docs[n - 1]));
        let c = cell_contrib(docs, n - 1, k, j);
        assert(-lim <= c <= lim) by {
            if k < table_view(docs[n - 1]).len() {
                lemma_rows_ok_elem(docs, docs.len() as int, n - 1);
                lemma_row_fit_at(docs, n - 1, k);
                let row = table_view(docs[n - 1])[k];
                assert(row.len() >= table_view(docs[0])[k].len());
                assert(sample_wf(row));
                assert(value_wf(row[j]));
                crate::data_map::lemma_value_wf_bounds(row[j]);
            }
        }
        assert(n * lim == (n - 1) * lim + lim) by (nonlinear_arith);
    }
}

impl Cgats {
    /// A new, empty document sharing this one's dialect, metadata and
    /// layout: the seed for a combination result.
    pub fn derive(&self) -> (r: Cgats)
        ensures
            r.vendor == self.vendor,
            r.meta@ == self.meta@,
            r.fields@ == self.fields@,
            table_view(r) == Seq::<Seq<ValueView>>::empty(),
            doc_wf(r),
    {
        let d = self.duplicate();
        let r = Cgats {
            vendor: d.vendor,
            meta: d.meta,
            fields: d.fields,
            data_map: Vec::new(),
        };
        assert(table_view(r) =~= Seq::<Seq<ValueView>>::empty());
        r
    }

    /// Rewrites the sample-identifier column, where the layout has one,
    /// to the one-based row number.
    pub fn reindex_sample_id(&mut self)
        requires
            doc_wf(*old(self)),
        ensures
            final(self).vendor == old(self).vendor,
            final(self).meta@ == old(self).meta@,
            final(self).fields@ == old(self).fields@,
            !old(self).fields@.contains(Field::SAMPLE_ID) ==> table_view(*final(self))
                == table_view(*old(self)),
            old(self).fields@.contains(Field::SAMPLE_ID) ==> {
                let p = field_pos(old(self).fields@, Field::SAMPLE_ID);
                &&& table_view(*final(self)).len() == table_view(*old(self)).len()
                &&& forall|k: int|
                    0 <= k < table_view(*old(self)).len() ==> #[trigger] table_view(*final(self))[k]
                        == reindex_row(table_view(*old(self))[k], p, k + 1)
            },
            doc_wf(*final(self)),
    {
        let pos = match self.field_index(&Field::SAMPLE_ID) {
            Some(p) => p,
            None => {
                return ;
            },
        };
        proof {
            lemma_field_pos(self.fields@, Field::SAMPLE_ID);
        }
        let ghost orig = table_view(*self);
        let mut rows: Vec<Sample> = Vec::new();
        let mut k: usize = 0;
        while k < self.data_map.len()
            invariant
                k <= self.data_map@.len(),
                orig == table_view(*self),
                doc_wf(*self),
                pos < self.fields@.len(),
                pos == field_pos(self.fields@, Field::SAMPLE_ID),
                rows@.len() == k,
                forall|m: int|
                    0 <= m < k ==> (#[trigger] rows@[m])@ == reindex_row(
                        orig[m],
                        pos as int,
                        m + 1,
                    ),
                forall|m: int|
                    0 <= m < k ==> sample_wf((#[trigger] rows@[m])@) && rows@[m]@.len()
                        == self.fields@.len(),
            decreases self.data_map@.len() - k,
        {
            let mut row = self.data_map[k].duplicate();
            assert(row@ == orig[k as int]) by {
                assert(orig[k as int] == self.data_map@[k as int]@);
            }
            assert(row@.len() == self.fields@.len());
            let mut digits: Vec<char> = Vec::new();
            crate::numeric::push_dec((k as u64) + 1, &mut digits);
            let text = string_from_chars(&digits);
            let v = CgatsValue::from_text(text.as_str());
            assert(v@ == id_value(k + 1));
            row.values.set(pos, v);
            assert(row@ =~= reindex_row(orig[k as int], pos as int, k + 1));
            rows.push(row);
            k = k + 1;
        }
        self.data_map = rows;
        assert(table_view(*self).len() == orig.len());
        assert(forall|m: int|
            0 <= m < orig.len() ==> #[trigger] table_view(*self)[m] == rows@[m]@);
        assert(doc_wf(*self));
    }

    /// Gives the document a sample-identifier column: inserts one at the
    /// front of the layout where it is missing, renumbers it either way,
    /// marks the result as plain CGATS, and heads the metadata with the
    /// standard signature line.
    pub fn insert_sample_id(&mut self)
        requires
            doc_wf(*old(self)),
        ensures
            final(self).vendor == Some(Vendor::Cgats),
            final(self).meta@ == old(self).meta@.insert(0, seq!["CGATS.17"@]),
            old(self).fields@.contains(Field::SAMPLE_ID) ==> {
                let p = field_pos(old(self).fields@, Field::SAMPLE_ID);
                &&& final(self).fields@ == old(self).fields@
                &&& table_view(*final(self)).len() == table_view(*old(self)).len()
                &&& forall|k: int|
                    0 <= k < table_view(*old(self)).len() ==> #[trigger] table_view(*final(self))[k]
                        == reindex_row(table_view(*old(self))[k], p, k + 1)
            },
            !old(self).fields@.contains(Field::SAMPLE_ID) ==> {
                &&& final(self).fields@ == old(self).fields@.insert(0, Field::SAMPLE_ID)
                &&& table_view(*final(self)).len() == table_view(*old(self)).len()
                &&& forall|k: int|
                    0 <= k < table_view(*old(self)).len() ==> #[trigger] table_view(*final(self))[k]
                        == table_view(*old(self))[k].insert(0, id_value(k + 1))
            },
            doc_wf(*final(self)),
    {
        self.vendor = Some(Vendor::Cgats);
        self.meta.insert(0, "CGATS.17");
        let present = match self.field_index(&Field::SAMPLE_ID) {
            Some(_) => true,
            None => false,
        };
        if present {
            self.reindex_sample_id();
        } else {
            let ghost orig = table_view(*self);
            self.fields.insert(0, Field::SAMPLE_ID);
            let mut rows: Vec<Sample> = Vec::new();
            let mut k: usize = 0;
            while k < self.data_map.len()
                invariant
                    k <= self.data_map@.len(),
                    orig == table_view(*self),
                    forall|m: int|
                        0 <= m < orig.len() ==> sample_wf(#[trigger] orig[m]) && orig[m].len() + 1
                            == self.fields@.len(),
                    rows@.len() == k,
                    forall|m: int|
                        0 <= m < k ==> (#[trigger] rows@[m])@ == orig[m].insert(
                            0,
                            id_value(m + 1),
                        ),
                    forall|m: int|
                        0 <= m < k ==> sample_wf((#[trigger] rows@[m])@) && rows@[m]@.len()
                            == self.fields@.len(),
                decreases self.data_map@.len() - k,
            {
                let mut row = self.data_map[k].duplicate();
                assert(row@ == orig[k as int]) by {
                    assert(orig[k as int] == self.data_map@[k as int]@);
                }
                let mut digits: Vec<char> = Vec::new();
                crate::numeric::push_dec((k as u64) + 1, &mut digits);
                let text = string_from_chars(&digits);
                let v = CgatsValue::from_text(text.as_str());
                assert(v@ == id_value(k + 1));
                row.values.insert(0, v);
                assert(row@ =~= orig[k as int].insert(0, id_value(k + 1)));
                rows.push(row);
                k = k + 1;
            }
            self.data_map = rows;
            assert(table_view(*self).len() == orig.len());
            assert(forall|m: int|
                0 <= m < orig.len() ==> #[trigger] table_view(*self)[m] == rows@[m]@);
            assert(doc_wf(*self));
        }
    }

    /// The scaled Lab triples of every sample, each read at this
    /// document's own Lab column positions: the first `LAB_L`, `LAB_A`
    /// and `LAB_B` columns of its layout. A layout without the full
    /// triple has no data to give; a table with a row that lacks a
    /// numeric reading in one of those columns betrays a malformed
    /// document.
    pub fn to_lab_vec(&self) -> (r: Result<Vec<[i64; 3]>, Error>)
        ensures
            ({
                let has_lab = self.fields@.contains(Field::LAB_L) && self.fields@.contains(
                    Field::LAB_A,
                ) && self.fields@.contains(Field::LAB_B);
                let pl = field_pos(self.fields@, Field::LAB_L);
                let pa = field_pos(self.fields@, Field::LAB_A);
                let pb = field_pos(self.fields@, Field::LAB_B);
                match r {
                    Ok(labs) => {
                        &&& has_lab
                        &&& labs@.len() == table_view(*self).len()
                        &&& forall|k: int|
                            0 <= k < labs@.len() ==> lab_row_read(
                                #[trigger] table_view(*self)[k],
                                pl,
                                pa,
                                pb,
                                labs@[k],
                            )
                    },
                    Err(e) => (e == Error::NoData && !has_lab) || (e == Error::InvariantViolation
                        && has_lab && exists|k: int|
                        0 <= k < table_view(*self).len() && !lab_row_readable(
                            #[trigger] table_view(*self)[k],
                            pl,
                            pa,
                            pb,
                        )),
                }
            }),
    {
        let indexes = match self.lab_indexes() {
            Some(idx) => idx,
            None => {
                return Err(Error::NoData);
            },
        };
        let ghost pl = field_pos(self.fields@, Field::LAB_L);
        let ghost pa = field_pos(self.fields@, Field::LAB_A);
        let ghost pb = field_pos(self.fields@, Field::LAB_B);
        let mut labs: Vec<[i64; 3]> = Vec::new();
        let mut k: usize = 0;
        while k < self.data_map.len()
            invariant
                k <= self.data_map@.len(),
                labs@.len() == k,
                self.fields@.contains(Field::LAB_L),
                self.fields@.contains(Field::LAB_A),
                self.fields@.contains(Field::LAB_B),
                pl == field_pos(self.fields@, Field::LAB_L),
                pa == field_pos(self.fields@, Field::LAB_A),
                pb == field_pos(self.fields@, Field::LAB_B),
                indexes@[0] == pl && indexes@[1] == pa && indexes@[2] == pb,
                forall|m: int|
                    0 <= m < k ==> lab_row_read(
                        #[trigger] table_view(*self)[m],
                        pl,
                        pa,
                        pb,
                        labs@[m],
                    ),
            decreases self.data_map@.len() - k,
        {
            assert(table_view(*self)[k as int] == self.data_map@[k as int]@);
            match self.data_map[k].to_lab(&indexes) {
                Some(lab) => {
                    labs.push(lab);
                    assert(lab_row_read(table_view(*self)[k as int], pl, pa, pb, lab));
                },
                None => {
                    assert(!lab_row_readable(table_view(*self)[k as int], pl, pa, pb));
                    return Err(Error::InvariantViolation);
                },
            }
            k = k + 1;
        }
        assert(labs@.len() == table_view(*self).len());
        Ok(labs)
    }
}

impl CgatsVec {
    /// The loose compatibility check behind averaging.
    fn can_compare(&self) -> (r: Result<(), Error>)
        ensures
            match r {
                Ok(()) => compatible(self.collection@),
                Err(e) => (e == Error::NoData && self.collection@.len() == 0) || (e
                    == Error::CannotCompare && self.collection@.len() > 0 && !compatible(
                    self.collection@,
                )),
            },
    {
        if self.collection.len() == 0 {
            return Err(Error::NoData);
        }
        let prime_count = self.collection[0].sample_count();
        let ghost docs = self.collection@;
        let mut d: usize = 1;
        while d < self.collection.len()
            invariant
                1 <= d <= self.collection@.len(),
                docs == self.collection@,
                docs.len() > 0,
                prime_count == table_view(docs[0]).len(),
                forall|m: int|
                    0 <= m < d ==> (table_view(#[trigger] docs[m]).len() == table_view(
                        docs[0],
                    ).len() || docs[m].fields@ == docs[0].fields@),
            decreases self.collection@.len() - d,
        {
            let same_count = self.collection[d].sample_count() == prime_count;
            let same_f = fields_eq(&self.collection[d].fields, &self.collection[0].fields);
            if !same_count && !same_f {
                assert(!compatible(docs)) by {
                    assert(table_view(docs[d as int]).len() != table_view(docs[0]).len());
                    assert(docs[d as int].fields@ != docs[0].fields@);
                }
                return Err(Error::CannotCompare);
            }
            d = d + 1;
        }
        Ok(())
    }

    /// Whether every member carries the same layout as the first.
    fn same_fields(&self) -> (r: bool)
        ensures
            r == all_same_fields(self.collection@),
    {
        let mut d: usize = 0;
        while d < self.collection.len()
            invariant
                d <= self.collection@.len(),
                forall|m: int|
                    0 <= m < d ==> (#[trigger] self.collection@[m]).fields@ == self.collection@[
                        0
                    ].fields@,
            decreases self.collection@.len() - d,
        {
            if !fields_eq(&self.collection[d].fields, &self.collection[0].fields) {
                return false;
            }
            d = d + 1;
        }
        true
    }

    /// Whether this is a pair fit for a color-difference run.
    pub fn can_delta(&self) -> (r: bool)
        ensures
            r == can_delta_spec(self.collection@),
    {
        if self.collection.len() != 2 {
            return false;
        }
        let c0 = self.collection[0].sample_count();
        let c1 = self.collection[1].sample_count();
        c0 == c1 && self.collection[0].has_lab() && self.collection[1].has_lab()
    }
}

/// Element-for-element equality of two layouts.
fn fields_eq(a: &Vec<Field>, b: &Vec<Field>) -> (r: bool)
    ensures
        r == (a@ == b@),
{
    if a.len() != b.len() {
        assert(a@ != b@);
        return false;
    }
    let mut i: usize = 0;
    while i < a.len()
        invariant
            i <= a@.len(),
            a@.len() == b@.len(),
            forall|k: int| 0 <= k < i ==> a@[k] == b@[k],
        decreases a@.len() - i,
    {
        if a[i] != b[i] {
            return false;
        }
        i = i + 1;
    }
    assert(a@ =~= b@);
    true
}


/// The annotation appended to the result's first metadata line.
pub open spec fn avg_note(n: int) -> Seq<char> {
    "Average of "@ + dec_rep(n)
}

impl CgatsVec {
    /// Averages the member documents cell by cell. A single member is
    /// returned unchanged. Numeric cells of the first member become the
    /// rounded mean of every member's reading there (a member without
    /// that row or number contributes nothing); all other cells keep the
    /// first member's value. The result notes how many sets went in.
    pub fn average(&self) -> (r: Result<Cgats, Error>)
        requires
            docs_wf(self.collection@),
        ensures
            ({
                let docs = self.collection@;
                match r {
                    Ok(doc) => {
                        &&& compatible(docs)
                        &&& doc_wf(doc)
                        &&& doc.vendor == docs[0].vendor
                        &&& doc.fields@ == docs[0].fields@
                        &&& (docs.len() == 1 ==> doc.meta@ == docs[0].meta@ && table_view(doc)
                            == table_view(docs[0]))
                        &&& (docs.len() > 1 ==> {
                            &&& avg_rows_ok(docs)
                            &&& doc.meta@ == (if docs[0].meta@.len() > 0 {
                                docs[0].meta@.update(
                                    0,
                                    docs[0].meta@[0].push(avg_note(docs.len() as int)),
                                )
                            } else {
                                seq![seq![avg_note(docs.len() as int)]]
                            })
                            &&& table_view(doc).len() == table_view(docs[0]).len()
                            &&& forall|k: int|
                                0 <= k < table_view(docs[0]).len() ==> (#[trigger] table_view(
                                    doc,
                                )[k]).len() == table_view(docs[0])[k].len()
                            &&& forall|k: int, j: int|
                                0 <= k < table_view(docs[0]).len() && 0 <= j < table_view(docs[0])[
                                    k
                                ].len() ==> #[trigger] table_view(doc)[k][j] == avg_cell(
                                    docs,
                                    k,
                                    j,
                                )
                        })
                    },
                    Err(e) => (e == Error::NoData && docs.len() == 0) || (e == Error::CannotCompare
                        && docs.len() > 0 && !compatible(docs)) || (e == Error::InvariantViolation
                        && compatible(docs) && docs.len() > 1 && !avg_rows_ok(docs)),
                }
            }),
    {
        match self.can_compare() {
            Ok(()) => {},
            Err(e) => {
                return Err(e);
            },
        }
        let count = self.collection.len();
        let ghost docs = self.collection@;
        if count == 1 {
            let doc = self.collection[0].duplicate();
            return Ok(doc);
        }

        // every member's rows must fit through the first member's table
        let prime_len = self.collection[0].sample_count();
        let mut d: usize = 0;
        while d < count
            invariant
                d <= count,
                count == self.collection@.len(),
                docs == self.collection@,
                count > 1,
                docs_wf(docs),
                compatible(docs),
                prime_len == table_view(docs[0]).len(),
                rows_ok_upto(docs, d as int),
            decreases count - d,
        {
            if self.collection[d].data_map.len() > prime_len {
                proof {
                    if avg_rows_ok(docs) {
                        lemma_rows_ok_elem(docs, docs.len() as int, d as int);
                        assert((prime_len as int) < table_view(docs[d as int]).len());
                        lemma_row_fit_at(docs, d as int, prime_len as int);
                        assert(false);
                    }
                }
                return Err(Error::InvariantViolation);
            }
            let dlen = self.collection[d].data_map.len();
            let mut k: usize = 0;
            while k < dlen
                invariant
                    k <= dlen,
                    d < count,
                    count == self.collection@.len(),
                    docs == self.collection@,
                    count > 1,
                    docs_wf(docs),
                    compatible(docs),
                    prime_len == table_view(docs[0]).len(),
                    dlen == table_view(docs[d as int]).len(),
                    dlen <= prime_len,
                    rows_ok_upto(docs, d as int),
                    forall|kk: int|
                        0 <= kk < k ==> kk < table_view(docs[0]).len() && (#[trigger] table_view(
                            docs[d as int],
                        )[kk]).len() >= table_view(docs[0])[kk].len(),
                decreases dlen - k,
            {
                assert(table_view(docs[d as int])[k as int] == self.collection@[d as int].data_map@[
                    k as int
                ]@);
                assert(table_view(docs[0])[k as int] == self.collection@[0int].data_map@[k as int]@);
                if self.collection[d].data_map[k].values.len() < self.collection[0].data_map[
                    k
                ].values.len() {
                    proof {
                        if avg_rows_ok(docs) {
                            lemma_rows_ok_elem(docs, docs.len() as int, d as int);
                            lemma_row_fit_at(docs, d as int, k as int);
                            assert(false);
                        }
                    }
                    return Err(Error::InvariantViolation);
                }
                k = k + 1;
            }
            assert(row_fit(docs, d as int)) by {
                assert forall|kk: int|
                    0 <= kk < table_view(docs[d as int]).len() implies kk < table_view(
                    docs[0],
                ).len() && (#[trigger] table_view(docs[d as int])[kk]).len() >= table_view(
                    docs[0],
                )[kk].len() by {
                    assert(0 <= kk < k as int);
                }
            }
            assert(rows_ok_upto(docs, d as int + 1));
            d = d + 1;
        }
        assert(avg_rows_ok(docs));

        // the averaged table
        let mut rows: Vec<Sample> = Vec::new();
        let mut k: usize = 0;
        while k < prime_len
            invariant
                k <= prime_len,
                count == self.collection@.len(),
                docs == self.collection@,
                count > 1,
                docs_wf(docs),
                avg_rows_ok(docs),
                prime_len == table_view(docs[0]).len(),
                rows@.len() == k,
                forall|m: int|
                    0 <= m < k ==> (#[trigger] rows@[m])@.len() == table_view(docs[0])[m].len(),
                forall|m: int, j: int|
                    0 <= m < k && 0 <= j < table_view(docs[0])[m].len() ==> #[trigger] rows@[m]@[j]
                        == avg_cell(docs, m, j),
                forall|m: int| 0 <= m < k ==> sample_wf((#[trigger] rows@[m])@),
            decreases prime_len - k,
        {
            let row_len = self.collection[0].data_map[k].values.len();
            assert(table_view(docs[0])[k as int] == self.collection@[0int].data_map@[k as int]@);
            let mut values: Vec<CgatsValue> = Vec::new();
            let mut j: usize = 0;
            while j < row_len
                invariant
                    j <= row_len,
                    k < prime_len,
                    count == self.collection@.len(),
                    docs == self.collection@,
                    count > 1,
                    docs_wf(docs),
                    avg_rows_ok(docs),
                    prime_len == table_view(docs[0]).len(),
                    row_len == table_view(docs[0])[k as int].len(),
                    values@.len() == j,
                    forall|jj: int|
                        0 <= jj < j ==> (#[trigger] values@[jj])@ == avg_cell(docs, k as int, jj),
                    forall|jj: int| 0 <= jj < j ==> value_wf((#[trigger] values@[jj])@),
                decreases row_len - j,
            {
                assert(table_view(docs[0])[k as int] == self.collection@[0int].data_map@[
                    k as int
                ]@);
                let prime_cell = &self.collection[0].data_map[k].values[j];
                assert(prime_cell@ == table_view(docs[0])[k as int][j as int]);
                let numeric = match prime_cell.number {
                    Some(_) => true,
                    None => false,
                };
                if numeric {
                    let mut sum: i128 = 0;
                    let mut d: usize = 0;
                    while d < count
                        invariant
                            d <= count,
                            count == self.collection@.len(),
                            docs == self.collection@,
                            docs_wf(docs),
                            avg_rows_ok(docs),
                            k < table_view(docs[0]).len(),
                            0 <= (j as int) < table_view(docs[0])[k as int].len(),
                            sum == cell_sum(docs, d as int, k as int, j as int),
                            -(d as int) * crate::numeric::SCALED_LIMIT <= sum <= (d as int)
                                * crate::numeric::SCALED_LIMIT,
                        decreases count - d,
                    {
                        let c: i64 = if self.collection[d].data_map.len() > k {
                            assert(table_view(docs[d as int])[k as int] == self.collection@[
                                d as int
                            ].data_map@[k as int]@);
                            proof {
                                lemma_rows_ok_elem(docs, docs.len() as int, d as int);
                                lemma_row_fit_at(docs, d as int, k as int);
                            }
                            assert(table_view(docs[d as int])[k as int].len() >= table_view(
                                docs[0],
                            )[k as int].len());
                            assert(sample_wf(table_view(docs[d as int])[k as int])) by {
                                assert(doc_wf(docs[d as int]));
                            }
                            proof {
                                crate::data_map::lemma_value_wf_bounds(
                                    table_view(docs[d as int])[k as int][j as int],
                                );
                            }
                            match self.collection[d].data_map[k].values[j].number {
                                Some(n) => n,
                                None => 0,
                            }
                        } else {
                            0
                        };
                        assert(c == cell_contrib(docs, d as int, k as int, j as int));
                        assert(-crate::numeric::SCALED_LIMIT <= c <= crate::numeric::SCALED_LIMIT)
                            by {
                            if (k as int) < table_view(docs[d as int]).len() {
                                assert(sample_wf(table_view(docs[d as int])[k as int])) by {
                                    assert(doc_wf(docs[d as int]));
                                }
                                crate::data_map::lemma_value_wf_bounds(
                                    table_view(docs[d as int])[k as int][j as int],
                                );
                            }
                        }
                        proof {
                            assert((d as int + 1) * crate::numeric::SCALED_LIMIT == (d as int)
                                * crate::numeric::SCALED_LIMIT + crate::numeric::SCALED_LIMIT)
                                by (nonlinear_arith);
                        }
                        sum = sum + c as i128;
                        d = d + 1;
                    }
                    proof {
                        assert((count as int) * crate::numeric::SCALED_LIMIT
                            <= 100000000000000000000000000000000000int) by (nonlinear_arith)
                            requires
                                0 < count as int <= 18446744073709551616int,
                        ;
                    }
                    let m = crate::numeric::div_round_i128(sum, count as i128);
                    proof {
                        crate::numeric::lemma_div_round_bound(
                            sum as int,
                            count as int,
                            crate::numeric::SCALED_LIMIT as int,
                        );
                    }
                    let v = CgatsValue::from_scaled(m as i64);
                    values.push(v);
                    assert(values@[j as int]@ == avg_cell(docs, k as int, j as int));
                } else {
                    let v = prime_cell.duplicate();
                    values.push(v);
                    assert(values@[j as int]@ == avg_cell(docs, k as int, j as int));
                    assert(value_wf(values@[j as int]@)) by {
                        assert(doc_wf(docs[0]));
                        assert(sample_wf(table_view(docs[0])[k as int]));
                    }
                }
                j = j + 1;
            }
            let sample = Sample { values };
            rows.push(sample);
            k = k + 1;
        }

        // the result: the first member's shell, annotated and refilled
        let mut out = self.collection[0].derive();
        let mut note = crate::strutil::str_to_string("Average of ");
        let mut digits: Vec<char> = Vec::new();
        crate::numeric::push_dec(count as u64, &mut digits);
        let tail = string_from_chars(&digits);
        note.append(tail.as_str());
        assert(note@ == avg_note(count as int));
        if out.meta.lines.len() > 0 {
            let mut l0 = out.meta.lines[0].duplicate();
            assert(l0@ == docs[0].meta@[0]) by {
                assert(out.meta@[0] == out.meta.lines@[0int]@);
            }
            l0.push(note);
            out.meta.lines.set(0, l0);
            assert(out.meta@ =~= docs[0].meta@.update(
                0,
                docs[0].meta@[0].push(avg_note(count as int)),
            )) by {
                assert(forall|m: int|
                    0 <= m < out.meta@.len() ==> #[trigger] out.meta@[m] == out.meta.lines@[m]@);
            }
        } else {
            let mut l = crate::data_vec::DataLine::new();
            l.push(note);
            out.meta.lines.push(l);
            assert(out.meta@ =~= seq![seq![avg_note(count as int)]]);
        }
        out.data_map = rows;
        assert(table_view(out).len() == prime_len);
        assert(forall|m: int|
            0 <= m < prime_len ==> #[trigger] table_view(out)[m] == rows@[m]@);
        assert(doc_wf(out)) by {
            assert(doc_wf(docs[0]));
            assert(forall|m: int|
                0 <= m < table_view(docs[0]).len() ==> (#[trigger] table_view(docs[0])[m]).len()
                    == docs[0].fields@.len());
        }
        Ok(out)
    }
}


/// The members' tables laid end to end, in collection order.
pub open spec fn concat_tables(docs: Seq<Cgats>, n: int) -> Seq<Seq<ValueView>>
    decreases n,
{
    if n <= 0 {
        Seq::<Seq<ValueView>>::empty()
    } else {
        concat_tables(docs, n - 1) + table_view(docs[n - 1])
    }
}

impl CgatsVec {
    /// Concatenates the members: the first document's copy grows every
    /// later member's samples at fresh, increasing indices, the
    /// sample-identifier column (where the layout has one) is renumbered
    /// one-based, and any `NUMBER_OF_SETS` metadata line is rewritten to
    /// the new count. Members of differing layout cannot be joined.
    pub fn concatenate(&self) -> (r: Result<Cgats, Error>)
        requires
            docs_wf(self.collection@),
        ensures
            ({
                let docs = self.collection@;
                match r {
                    Ok(doc) => {
                        &&& all_same_fields(docs) && docs.len() > 0
                        &&& doc.vendor == docs[0].vendor
                        &&& doc.fields@ == docs[0].fields@
                        &&& doc_wf(doc)
                        &&& ({
                            let cat = concat_tables(docs, docs.len() as int);
                            &&& table_view(doc).len() == cat.len()
                            &&& (docs[0].fields@.contains(Field::SAMPLE_ID) ==> {
                                let p = field_pos(docs[0].fields@, Field::SAMPLE_ID);
                                forall|k: int|
                                    0 <= k < cat.len() ==> #[trigger] table_view(doc)[k]
                                        == reindex_row(cat[k], p, k + 1)
                            })
                            &&& (!docs[0].fields@.contains(Field::SAMPLE_ID) ==> table_view(doc)
                                == cat)
                            &&& doc.meta@.len() == docs[0].meta@.len()
                            &&& forall|i: int|
                                0 <= i < docs[0].meta@.len() ==> #[trigger] doc.meta@[i] == (
                                if contains_seq(first_cell(docs[0].meta@[i]), "NUMBER_OF_SETS"@) {
                                    seq!["NUMBER_OF_SETS"@, dec_rep(cat.len() as int)]
                                } else {
                                    docs[0].meta@[i]
                                })
                        })
                    },
                    Err(e) => (e == Error::CannotCompare && !all_same_fields(docs)) || (e
                        == Error::NoData && all_same_fields(docs) && docs.len() == 0),
                }
            }),
    {
        let ghost docs = self.collection@;
        if !self.same_fields() {
            return Err(Error::CannotCompare);
        }
        if self.collection.len() == 0 {
            return Err(Error::NoData);
        }
        let count = self.collection.len();
        let mut doc = self.collection[0].duplicate();
        proof {
            assert(concat_tables(docs, 0) =~= Seq::<Seq<ValueView>>::empty());
            assert(concat_tables(docs, 1) =~= Seq::<Seq<ValueView>>::empty() + table_view(
                docs[0],
            ));
            assert(table_view(doc) =~= concat_tables(docs, 1));
        }
        let mut d: usize = 1;
        while d < count
            invariant
                1 <= d <= count,
                count == self.collection@.len(),
                docs == self.collection@,
                docs_wf(docs),
                all_same_fields(docs),
                doc.vendor == docs[0].vendor,
                doc.fields@ == docs[0].fields@,
                doc.meta@ == docs[0].meta@,
                table_view(doc) == concat_tables(docs, d as int),
                doc_wf(doc),
            decreases count - d,
        {
            let src_len = self.collection[d].data_map.len();
            let mut k: usize = 0;
            while k < src_len
                invariant
                    k <= src_len,
                    1 <= d < count,
                    count == self.collection@.len(),
                    docs == self.collection@,
                    docs_wf(docs),
                    all_same_fields(docs),
                    doc.vendor == docs[0].vendor,
                    doc.fields@ == docs[0].fields@,
                    doc.meta@ == docs[0].meta@,
                    src_len == table_view(docs[d as int]).len(),
                    table_view(doc) == concat_tables(docs, d as int) + table_view(
                        docs[d as int],
                    ).take(k as int),
                    doc_wf(doc),
                decreases src_len - k,
            {
                assert(table_view(docs[d as int])[k as int] == self.collection@[d as int].data_map@[
                    k as int
                ]@);
                let row = self.collection[d].data_map[k].duplicate();
                assert(row@.len() == doc.fields@.len() && sample_wf(row@)) by {
                    assert(doc_wf(docs[d as int]));
                    assert(docs[d as int].fields@ == docs[0].fields@);
                }
                let ghost before = table_view(doc);
                doc.data_map.push(row);
                proof {
                    assert(table_view(doc) =~= before.push(table_view(docs[d as int])[k as int]));
                    assert(table_view(docs[d as int]).take(k as int + 1) =~= table_view(
                        docs[d as int],
                    ).take(k as int).push(table_view(docs[d as int])[k as int]));
                    assert(table_view(doc) =~= concat_tables(docs, d as int) + table_view(
                        docs[d as int],
                    ).take(k as int + 1));
                    assert(doc_wf(doc)) by {
                        assert(forall|m: int|
                            0 <= m < before.len() ==> #[trigger] table_view(doc)[m] == before[m]);
                    }
                }
                k = k + 1;
            }
            proof {
                assert(table_view(docs[d as int]).take(src_len as int) =~= table_view(
                    docs[d as int],
                ));
                assert(table_view(doc) =~= concat_tables(docs, d as int + 1));
            }
            d = d + 1;
        }
        let ghost cat = concat_tables(docs, count as int);
        assert(table_view(doc) == cat);
        doc.reindex_sample_id();
        let total = doc.data_map.len();
        assert(total == cat.len());
        doc.meta.meta_renumber_sets(total);
        proof {
            lemma_field_pos(docs[0].fields@, Field::SAMPLE_ID);
        }
        Ok(doc)
    }

    /// Builds the color-difference result document for a comparable pair:
    /// one row per sample, carrying the sample index and the externally
    /// computed difference, with the method's own field naming the column
    /// and the count recorded in the metadata.
    pub fn deltae(&self, method: DeMethod, deltas: &Vec<i64>) -> (r: Result<Cgats, Error>)
        ensures
            ({
                let docs = self.collection@;
                let n = table_view(docs[0]).len();
                match r {
                    Ok(doc) => {
                        &&& can_delta_spec(docs)
                        &&& deltas@.len() == n
                        &&& doc.vendor == Some(Vendor::Cgats)
                        &&& doc.fields@ == seq![Field::SAMPLE_ID, de_method_field(method)]
                        &&& doc.meta@ == seq![
                            seq!["CGATS.17"@],
                            seq!["NUMBER_OF_SETS"@, dec_rep(n as int)],
                            seq!["NUMBER_OF_FIELDS"@, dec_rep(2)],
                        ]
                        &&& table_view(doc).len() == n
                        &&& forall|k: int|
                            0 <= k < n ==> #[trigger] table_view(doc)[k] == seq![
                                id_value(k),
                                ValueView {
                                    text: crate::numeric::render_scaled(deltas@[k] as int),
                                    number: Some(deltas@[k] as int),
                                },
                            ]
                        &&& doc_wf(doc)
                    },
                    Err(e) => (e == Error::CannotCompare && !can_delta_spec(docs)) || (e
                        == Error::InvariantViolation && can_delta_spec(docs) && (deltas@.len() != n
                        || exists|k: int|
                        0 <= k < deltas@.len() && !(-crate::numeric::SCALED_LIMIT
                            <= #[trigger] deltas@[k] <= crate::numeric::SCALED_LIMIT))),
                }
            }),
    {
        let ghost docs = self.collection@;
        if !self.can_delta() {
            return Err(Error::CannotCompare);
        }
        let n = self.collection[0].sample_count();
        assert(n == table_view(docs[0]).len());
        if deltas.len() != n {
            assert(can_delta_spec(docs));
            assert(deltas@.len() != table_view(docs[0]).len());
            return Err(Error::InvariantViolation);
        }
        let mut fields: Vec<Field> = Vec::new();
        fields.push(Field::SAMPLE_ID);
        fields.push(Field::from_de_method(method));
        assert(fields@ =~= seq![Field::SAMPLE_ID, de_method_field(method)]);
        let mut doc = Cgats::new_with_fields(fields);
        let mut meta = crate::data_vec::DataVec::new();
        meta.insert(0, "CGATS.17");
        let mut rows: Vec<Sample> = Vec::new();
        let mut k: usize = 0;
        while k < n
            invariant
                k <= n,
                docs == self.collection@,
                can_delta_spec(docs),
                n == table_view(docs[0]).len(),
                deltas@.len() == n,
                rows@.len() == k,
                forall|m: int|
                    0 <= m < k ==> (#[trigger] rows@[m])@ == seq![
                        id_value(m),
                        ValueView {
                            text: crate::numeric::render_scaled(deltas@[m] as int),
                            number: Some(deltas@[m] as int),
                        },
                    ],
                forall|m: int|
                    0 <= m < k ==> -crate::numeric::SCALED_LIMIT <= #[trigger] deltas@[m]
                        <= crate::numeric::SCALED_LIMIT,
                forall|m: int| 0 <= m < k ==> sample_wf((#[trigger] rows@[m])@),
            decreases n - k,
        {
            let dv = deltas[k];
            if dv < -crate::numeric::SCALED_LIMIT || dv > crate::numeric::SCALED_LIMIT {
                assert(!(-crate::numeric::SCALED_LIMIT <= deltas@[k as int]
                    <= crate::numeric::SCALED_LIMIT));
                return Err(Error::InvariantViolation);
            }
            let mut digits: Vec<char> = Vec::new();
            crate::numeric::push_dec(k as u64, &mut digits);
            let text = string_from_chars(&digits);
            let idv = CgatsValue::from_text(text.as_str());
            assert(idv@ == id_value(k as int));
            let dvv = CgatsValue::from_scaled(dv);
            let mut values: Vec<CgatsValue> = Vec::new();
            values.push(idv);
            values.push(dvv);
            let sample = Sample { values };
            assert(sample@ =~= seq![
                id_value(k as int),
                ValueView {
                    text: crate::numeric::render_scaled(deltas@[k as int] as int),
                    number: Some(deltas@[k as int] as int),
                },
            ]);
            rows.push(sample);
            k = k + 1;
        }
        let mut line_sets = crate::data_vec::DataLine::new();
        line_sets.push(crate::strutil::str_to_string("NUMBER_OF_SETS"));
        let mut digits: Vec<char> = Vec::new();
        crate::numeric::push_dec(n as u64, &mut digits);
        line_sets.push(string_from_chars(&digits));
        assert(line_sets@ =~= seq!["NUMBER_OF_SETS"@, dec_rep(n as int)]);
        let ghost lsv = line_sets@;
        let ghost m1 = meta@;
        meta.lines.push(line_sets);
        proof {
            assert(meta@ =~= m1.push(lsv)) by {
                assert(forall|i: int|
                    0 <= i < meta.lines@.len() ==> #[trigger] meta@[i] == meta.lines@[i]@);
            }
        }
        let mut line_fields = crate::data_vec::DataLine::new();
        line_fields.push(crate::strutil::str_to_string("NUMBER_OF_FIELDS"));
        let mut digits2: Vec<char> = Vec::new();
        crate::numeric::push_dec(2u64, &mut digits2);
        line_fields.push(string_from_chars(&digits2));
        assert(line_fields@ =~= seq!["NUMBER_OF_FIELDS"@, dec_rep(2)]);
        let ghost lfv = line_fields@;
        let ghost m2 = meta@;
        meta.lines.push(line_fields);
        proof {
            assert(meta@ =~= m2.push(lfv)) by {
                assert(forall|i: int|
                    0 <= i < meta.lines@.len() ==> #[trigger] meta@[i] == meta.lines@[i]@);
            }
        }
        doc.meta = meta;
        assert(doc.meta@ =~~= seq![
            seq!["CGATS.17"@],
            seq!["NUMBER_OF_SETS"@, dec_rep(n as int)],
            seq!["NUMBER_OF_FIELDS"@, dec_rep(2)],
        ]);
        doc.data_map = rows;
        assert(table_view(doc).len() == n);
        assert(forall|m: int| 0 <= m < n ==> #[trigger] table_view(doc)[m] == rows@[m]@);
        assert(doc_wf(doc));
        Ok(doc)
    }
}

impl Cgats {
    /// Averages a whole collection of documents; see `CgatsVec::average`.
    pub fn average(collection: Vec<Cgats>) -> (r: Result<Cgats, Error>)
        requires
            docs_wf(collection@),
        ensures
            ({
                let docs = collection@;
                match r {
                    Ok(doc) => {
                        &&& compatible(docs)
                        &&& doc_wf(doc)
                        &&& doc.vendor == docs[0].vendor
                        &&& doc.fields@ == docs[0].fields@
                        &&& (docs.len() == 1 ==> doc.meta@ == docs[0].meta@ && table_view(doc)
                            == table_view(docs[0]))
                        &&& (docs.len() > 1 ==> {
                            &&& avg_rows_ok(docs)
                            &&& table_view(doc).len() == table_view(docs[0]).len()
                            &&& forall|k: int, j: int|
                                0 <= k < table_view(docs[0]).len() && 0 <= j < table_view(docs[0])[
                                    k
                                ].len() ==> #[trigger] table_view(doc)[k][j] == avg_cell(
                                    docs,
                                    k,
                                    j,
                                )
                        })
                    },
                    Err(e) => (e == Error::NoData && docs.len() == 0) || (e == Error::CannotCompare
                        && docs.len() > 0 && !compatible(docs)) || (e == Error::InvariantViolation
                        && compatible(docs) && docs.len() > 1 && !avg_rows_ok(docs)),
                }
            }),
    {
        let v = CgatsVec { collection };
        v.average()
    }

    /// Concatenates a whole collection of documents; see
    /// `CgatsVec::concatenate`.
    pub fn concatenate(collection: Vec<Cgats>) -> (r: Result<Cgats, Error>)
        requires
            docs_wf(collection@),
        ensures
            ({
                let docs = collection@;
                match r {
                    Ok(doc) => {
                        &&& all_same_fields(docs) && docs.len() > 0
                        &&& doc.fields@ == docs[0].fields@
                        &&& doc_wf(doc)
                        &&& table_view(doc).len() == concat_tables(docs, docs.len() as int).len()
                    },
                    Err(e) => (e == Error::CannotCompare && !all_same_fields(docs)) || (e
                        == Error::NoData && all_same_fields(docs) && docs.len() == 0),
                }
            }),
    {
        let v = CgatsVec { collection };
        v.concatenate()
    }
}

/// The mean rule behind averaging a pair: a numeric cell of the first
/// document averages to the rounded mean of the two corresponding
/// readings, and any other cell keeps the first document's value.
pub proof fn lemma_average_pair(docs: Seq<Cgats>, k: int, j: int)
    requires
        docs.len() == 2,
        0 <= k < table_view(docs[0]).len(),
        0 <= j < table_view(docs[0])[k].len(),
    ensures
        table_view(docs[0])[k][j].number is Some ==> avg_cell(docs, k, j).number == Some(
            crate::numeric::div_round(
                cell_contrib(docs, 0, k, j) + cell_contrib(docs, 1, k, j),
                2,
            ),
        ),
        table_view(docs[0])[k][j].number is None ==> avg_cell(docs, k, j) == table_view(docs[0])[
            k
        ][j],
{
    assert(cell_sum(docs, 0, k, j) == 0);
    assert(cell_sum(docs, 1, k, j) == cell_contrib(docs, 0, k, j));
    assert(cell_sum(docs, 2, k, j) == cell_contrib(docs, 0, k, j) + cell_contrib(docs, 1, k, j));
}

/// The size rule behind concatenating a pair: the joined table holds
/// exactly the two members' samples, one run after the other.
pub proof fn lemma_concat_pair(docs: Seq<Cgats>)
    requires
        docs.len() == 2,
    ensures
        concat_tables(docs, 2).len() == table_view(docs[0]).len() + table_view(docs[1]).len(),
        forall|k: int|
            0 <= k < table_view(docs[0]).len() ==> concat_tables(docs, 2)[k] == #[trigger]
                table_view(docs[0])[k],
        forall|k: int|
            0 <= k < table_view(docs[1]).len() ==> concat_tables(docs, 2)[table_view(
                docs[0],
            ).len() + k] == #[trigger] table_view(docs[1])[k],
{
    assert(concat_tables(docs, 0) =~= Seq::<Seq<ValueView>>::empty());
    assert(concat_tables(docs, 1) =~= Seq::<Seq<ValueView>>::empty() + table_view(docs[0]));
    assert(concat_tables(docs, 1) =~= table_view(docs[0]));
}

/// The identifier rule behind renumbering: the rewritten column holds
/// exactly the one-based row number, written in decimal.
pub proof fn lemma_reindex_ids(row: Seq<ValueView>, p: int, num: int)
    requires
        0 <= p < row.len(),
        num >= 0,
    ensures
        reindex_row(row, p, num)[p] == id_value(num),
        id_value(num).text == dec_rep(num),
        forall|j: int| 0 <= j < row.len() && j != p ==> reindex_row(row, p, num)[j] == row[j],
{
}


} // verus!
