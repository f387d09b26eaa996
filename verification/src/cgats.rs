use vstd::prelude::*;
use crate::data_map::{CgatsValue, Sample, ValueView, sample_wf, render_cells, value_of_text};
use crate::data_vec::{
    DataVec, meta_of, first_tag_idx, parse_fields, data_body, detects_colorburst, concat_all,
    sample_of_cells, render_recs,
};
use crate::error::Error;
use crate::field::{Field, field_name, field_de_method, DeMethod, colorburst_format};
use crate::strutil::{records_of, trim_spec};
use crate::vendor::{Vendor, keyword_vendor, lower_seq};

verus! {

/// A parsed measurement document: its dialect, its verbatim metadata
/// records, its field layout, and its table of samples in index order.
#[derive(Debug, Clone)]
pub struct Cgats {
    pub vendor: Option<Vendor>,
    pub meta: DataVec,
    pub fields: Vec<Field>,
    pub data_map: Vec<Sample>,
}

/// The mathematical sample table of a document.
pub open spec fn table_view(doc: Cgats) -> Seq<Seq<ValueView>> {
    doc.data_map@.map_values(|s: Sample| s@)
}

/// A well-formed document: every sample has one cell per layout column,
/// and every cell records the numeric reading of its own text.
pub open spec fn doc_wf(doc: Cgats) -> bool {
    forall|i: int|
        0 <= i < table_view(doc).len() ==> (#[trigger] table_view(doc)[i]).len()
            == doc.fields@.len() && sample_wf(table_view(doc)[i])
}

/// What the format-declaration stage yields on the given records.
pub open spec fn spec_format(lines: Seq<Seq<Seq<char>>>) -> Result<Seq<Field>, Error> {
    if lines.len() < 2 {
        Err(Error::NoDataFormat)
    } else if detects_colorburst(lines) {
        Ok(colorburst_format())
    } else {
        let bi = first_tag_idx(lines, "BEGIN_DATA_FORMAT"@);
        if bi + 1 >= lines.len() {
            Err(Error::NoDataFormat)
        } else {
            match parse_fields(lines[bi + 1]) {
                None => Err(Error::UnknownFormatType),
                Some(fs) => Ok(fs),
            }
        }
    }
}

/// What the data-body stage yields on the given records.
pub open spec fn spec_body(lines: Seq<Seq<Seq<char>>>) -> Result<Seq<Seq<Seq<char>>>, Error> {
    if lines.len() < 3 {
        Err(Error::NoData)
    } else {
        match data_body(lines) {
            None => Err(Error::NoData),
            Some(b) => if b.len() == 0 {
                Err(Error::NoData)
            } else {
                Ok(b)
            },
        }
    }
}

/// Every data record has exactly one cell per layout column.
pub open spec fn rows_match(body: Seq<Seq<Seq<char>>>, n_fields: int) -> bool {
    forall|i: int| 0 <= i < body.len() ==> (#[trigger] body[i]).len() == n_fields
}

/// Whether `v` is the vendor that the given records name.
pub open spec fn vendor_matches(lines: Seq<Seq<Seq<char>>>, v: Option<Vendor>) -> bool {
    if lines.len() == 0 || trim_spec(concat_all(lines[0])).len() == 0 {
        v is None
    } else {
        match keyword_vendor(lower_seq(trim_spec(concat_all(lines[0])))) {
            Some(kv) => v == Some(kv),
            None => (v matches Some(Vendor::Other(o)) && o@ == trim_spec(concat_all(lines[0]))),
        }
    }
}

/// Position of the first occurrence of a field in a layout, or the layout
/// length when absent.
pub open spec fn field_pos(fields: Seq<Field>, f: Field) -> int
    decreases fields.len(),
{
    if fields.len() == 0 {
        0
    } else if fields[0] == f {
        0
    } else {
        1 + field_pos(fields.drop_first(), f)
    }
}

pub proof fn lemma_field_pos(fields: Seq<Field>, f: Field)
    ensures
        0 <= field_pos(fields, f) <= fields.len(),
        field_pos(fields, f) < fields.len() ==> fields[field_pos(fields, f)] == f,
        forall|k: int| 0 <= k < field_pos(fields, f) ==> fields[k] != f,
        (field_pos(fields, f) < fields.len()) == fields.contains(f),
    decreases fields.len(),
{
    if fields.len() > 0 && fields[0] != f {
        lemma_field_pos(fields.drop_first(), f);
        if field_pos(fields, f) < fields.len() {
            assert(fields[field_pos(fields, f)] == fields.drop_first()[field_pos(
                fields.drop_first(),
                f,
            )]);
        }
        assert forall|k: int| 0 <= k < field_pos(fields, f) implies fields[k] != f by {
            if k > 0 {
                assert(fields[k] == fields.drop_first()[k - 1]);
            }
        }
        if fields.contains(f) {
            let w = choose|w: int| 0 <= w < fields.len() && fields[w] == f;
            assert(w > 0);
            assert(fields.drop_first()[w - 1] == f);
            assert(fields.drop_first().contains(f));
        }
        if fields.drop_first().contains(f) {
            let w = choose|w: int| 0 <= w < fields.drop_first().len() && fields.drop_first()[w]
                == f;
            assert(fields[w + 1] == f);
        }
    } else if fields.len() > 0 {
        assert(fields.contains(f)) by {
            assert(fields[0] == f);
        }
    } else {
        if fields.contains(f) {
            let w = choose|w: int| 0 <= w < fields.len() && fields[w] == f;
        }
    }
}

/// Index of the first layout column that records a color-difference
/// method, or the layout length when there is none.
pub open spec fn first_de_idx(fields: Seq<Field>) -> int
    decreases fields.len(),
{
    if fields.len() == 0 {
        0
    } else if field_de_method(fields[0]) is Some {
        0
    } else {
        1 + first_de_idx(fields.drop_first())
    }
}

pub proof fn lemma_first_de_idx(fields: Seq<Field>)
    ensures
        0 <= first_de_idx(fields) <= fields.len(),
        first_de_idx(fields) < fields.len() ==> field_de_method(fields[first_de_idx(fields)])
            is Some,
        forall|k: int| 0 <= k < first_de_idx(fields) ==> field_de_method(#[trigger] fields[k])
            is None,
    decreases fields.len(),
{
    if fields.len() > 0 && field_de_method(fields[0]) is None {
        lemma_first_de_idx(fields.drop_first());
        if first_de_idx(fields) < fields.len() {
            assert(fields[first_de_idx(fields)] == fields.drop_first()[first_de_idx(
                fields.drop_first(),
            )]);
        }
        assert forall|k: int| 0 <= k < first_de_idx(fields) implies field_de_method(
            #[trigger] fields[k],
        ) is None by {
            if k > 0 {
                assert(fields[k] == fields.drop_first()[k - 1]);
            }
        }
    }
}

/// The format-declaration block as written out: nothing at all for the
/// ColorBurst dialect, else the bookended, tab-joined canonical names.
pub open spec fn render_field_names(fields: Seq<Field>) -> Seq<char>
    decreases fields.len(),
{
    if fields.len() == 0 {
        Seq::<char>::empty()
    } else if fields.len() == 1 {
        field_name(fields[0])
    } else {
        render_field_names(fields.drop_last()) + seq!['\t'] + field_name(fields.last())
    }
}

pub open spec fn render_format_block(doc: Cgats) -> Seq<char> {
    if doc.vendor == Some(Vendor::ColorBurst) {
        Seq::<char>::empty()
    } else {
        "BEGIN_DATA_FORMAT\n"@ + render_field_names(doc.fields@) + "\nEND_DATA_FORMAT\n"@
    }
}

/// The sample rows as written out, one per line.
pub open spec fn render_samples(samples: Seq<Seq<ValueView>>) -> Seq<char>
    decreases samples.len(),
{
    if samples.len() == 0 {
        Seq::<char>::empty()
    } else {
        render_samples(samples.drop_last()) + render_cells(samples.last()) + seq!['\n']
    }
}

pub open spec fn render_data_block(doc: Cgats) -> Seq<char> {
    "BEGIN_DATA\n"@ + render_samples(table_view(doc)) + "END_DATA\n"@
}

/// The whole document as written out.
pub open spec fn render_doc(doc: Cgats) -> Seq<char> {
    render_recs(doc.meta@) + render_format_block(doc) + render_data_block(doc)
}

impl Cgats {
    /// An empty document of no particular dialect.
    pub fn new() -> (r: Cgats)
        ensures
            r.vendor is None,
            r.meta@ == Seq::<Seq<Seq<char>>>::empty(),
            r.fields@ == Seq::<Field>::empty(),
            table_view(r) == Seq::<Seq<ValueView>>::empty(),
            doc_wf(r),
    {
        let r = Cgats {
            vendor: None,
            meta: DataVec::new(),
            fields: Vec::new(),
            data_map: Vec::new(),
        };
        assert(table_view(r) =~= Seq::<Seq<ValueView>>::empty());
        assert(r.fields@ =~= Seq::<Field>::empty());
        r
    }

    /// An empty document of a given dialect.
    pub fn new_with_vendor(vendor: Vendor) -> (r: Cgats)
        ensures
            r.vendor == Some(vendor),
            r.meta@ == Seq::<Seq<Seq<char>>>::empty(),
            r.fields@ == Seq::<Field>::empty(),
            table_view(r) == Seq::<Seq<ValueView>>::empty(),
            doc_wf(r),
    {
        let mut r = Cgats::new();
        r.vendor = Some(vendor);
        r
    }

    /// An empty document with a given layout.
    pub(crate) fn new_with_fields(fields: Vec<Field>) -> (r: Cgats)
        ensures
            r.vendor == Some(Vendor::Cgats),
            r.meta@ == Seq::<Seq<Seq<char>>>::empty(),
            r.fields@ == fields@,
            table_view(r) == Seq::<Seq<ValueView>>::empty(),
            doc_wf(r),
    {
        let r = Cgats {
            vendor: Some(Vendor::Cgats),
            meta: DataVec::new(),
            fields,
            data_map: Vec::new(),
        };
        assert(table_view(r) =~= Seq::<Seq<ValueView>>::empty());
        r
    }

    /// The number of samples in the table.
    pub fn sample_count(&self) -> (r: usize)
        ensures
            r == table_view(*self).len(),
    {
        self.data_map.len()
    }

    /// The sample at an index, if there is one.
    pub fn get_sample(&self, index: usize) -> (r: Option<&Sample>)
        ensures
            match r {
                Some(s) => index < table_view(*self).len() && s@ == table_view(*self)[index as int],
                None => index >= table_view(*self).len(),
            },
    {
        if index < self.data_map.len() {
            let s = &self.data_map[index];
            assert(s@ == table_view(*self)[index as int]);
            Some(s)
        } else {
            None
        }
    }

    /// The cell at a sample and column index, if there is one.
    pub fn get_value(&self, sample: usize, field: usize) -> (r: Option<&CgatsValue>)
        ensures
            ({
                let t = table_view(*self);
                match r {
                    Some(v) => sample < t.len() && field < t[sample as int].len() && v@ == t[
                        sample as int
                    ][field as int],
                    None => sample >= t.len() || field >= t[sample as int].len(),
                }
            }),
    {
        if sample >= self.data_map.len() {
            return None;
        }
        assert(self.data_map@[sample as int]@ == table_view(*self)[sample as int]);
        self.data_map[sample].get_value(field)
    }

    /// An exact copy.
    pub fn duplicate(&self) -> (r: Cgats)
        ensures
            r.vendor == self.vendor,
            r.meta@ == self.meta@,
            r.fields@ == self.fields@,
            table_view(r) == table_view(*self),
    {
        let vendor = match &self.vendor {
            Some(v) => Some(
                match v {
                    Vendor::Argyll => Vendor::Argyll,
                    Vendor::Cgats => Vendor::Cgats,
                    Vendor::ColorBurst => Vendor::ColorBurst,
                    Vendor::Curve => Vendor::Curve,
                    Vendor::Xrite => Vendor::Xrite,
                    Vendor::Other(o) => Vendor::Other(o.clone()),
                },
            ),
            None => None,
        };
        let meta = self.meta.duplicate();
        let mut fields: Vec<Field> = Vec::new();
        let mut i: usize = 0;
        while i < self.fields.len()
            invariant
                i <= self.fields@.len(),
                fields@ == self.fields@.take(i as int),
            decreases self.fields@.len() - i,
        {
            fields.push(self.fields[i]);
            assert(fields@ =~= self.fields@.take(i as int + 1));
            i = i + 1;
        }
        assert(self.fields@.take(self.fields@.len() as int) =~= self.fields@);
        let mut data_map: Vec<Sample> = Vec::new();
        let mut j: usize = 0;
        while j < self.data_map.len()
            invariant
                j <= self.data_map@.len(),
                data_map@.map_values(|s: Sample| s@) == table_view(*self).take(j as int),
            decreases self.data_map@.len() - j,
        {
            data_map.push(self.data_map[j].duplicate());
            assert(data_map@.map_values(|s: Sample| s@) =~= table_view(*self).take(j as int + 1))
                by {
                assert(table_view(*self).take(j as int + 1) =~= table_view(*self).take(
                    j as int,
                ).push(table_view(*self)[j as int]));
                assert(table_view(*self)[j as int] == self.data_map@[j as int]@);
            }
            j = j + 1;
        }
        assert(table_view(*self).take(table_view(*self).len() as int) =~= table_view(*self));
        let r = Cgats { vendor, meta, fields, data_map };
        assert(table_view(r) =~= table_view(*self));
        r
    }

    /// Parses a whole file's text into a document: records are read,
    /// the dialect detected, the sections split out, and every data row
    /// paired cell-by-cell with the layout. Fails fast on the first
    /// malformed stage; a row of the wrong width is a mismatch.
    pub fn parse(text: &str) -> (r: Result<Cgats, Error>)
        ensures
            ({
                let rs = records_of(text@);
                match r {
                    Ok(doc) => {
                        &&& rs.len() > 0
                        &&& vendor_matches(rs, doc.vendor)
                        &&& doc.meta@ == meta_of(rs)
                        &&& spec_format(rs) == Ok::<Seq<Field>, Error>(doc.fields@)
                        &&& spec_body(rs) matches Ok(b) && rows_match(b, doc.fields@.len() as int)
                            && table_view(doc) == b.map_values(|c: Seq<Seq<char>>| sample_of_cells(
                            c,
                        ))
                        &&& doc_wf(doc)
                    },
                    Err(e) => {
                        if rs.len() == 0 {
                            e == Error::EmptyFile
                        } else {
                            match spec_format(rs) {
                                Err(fe) => e == fe,
                                Ok(fs) => match spec_body(rs) {
                                    Err(be) => e == be,
                                    Ok(b) => e == Error::FormatDataMismatch && !rows_match(
                                        b,
                                        fs.len() as int,
                                    ),
                                },
                            }
                        }
                    },
                }
            }),
    {
        let raw = match DataVec::from_text(text) {
            Ok(dv) => dv,
            Err(e) => {
                return Err(e);
            },
        };
        let vendor = raw.get_vendor();
        let meta = raw.extract_meta_data();
        let fields = match raw.extract_data_format() {
            Ok(fs) => fs,
            Err(e) => {
                assert(spec_format(records_of(text@)) == Err::<Seq<Field>, Error>(e));
                return Err(e);
            },
        };
        assert(spec_format(records_of(text@)) == Ok::<Seq<Field>, Error>(fields@));
        let data = match raw.extract_data() {
            Ok(d) => d,
            Err(e) => {
                assert(spec_body(records_of(text@)) == Err::<Seq<Seq<Seq<char>>>, Error>(e));
                return Err(e);
            },
        };
        let ghost body = data@;
        assert(spec_body(records_of(text@)) == Ok::<Seq<Seq<Seq<char>>>, Error>(body));
        let mut data_map: Vec<Sample> = Vec::new();
        let mut i: usize = 0;
        while i < data.lines.len()
            invariant
                i <= data.lines@.len(),
                body == data@,
                records_of(text@).len() > 0,
                spec_format(records_of(text@)) == Ok::<Seq<Field>, Error>(fields@),
                spec_body(records_of(text@)) == Ok::<Seq<Seq<Seq<char>>>, Error>(body),
                rows_match(body.take(i as int), fields@.len() as int),
                data_map@.map_values(|s: Sample| s@) == body.take(i as int).map_values(
                    |c: Seq<Seq<char>>| sample_of_cells(c),
                ),
                forall|k: int|
                    0 <= k < data_map@.len() ==> sample_wf(#[trigger] data_map@[k]@) && data_map@[
                        k
                    ]@.len() == fields@.len(),
            decreases data.lines@.len() - i,
        {
            let row = &data.lines[i];
            assert(row@ == body[i as int]);
            if row.raw_samples.len() != self_len(&fields) {
                assert(!rows_match(body, fields@.len() as int));
                return Err(Error::FormatDataMismatch);
            }
            let mut values: Vec<CgatsValue> = Vec::new();
            let mut j: usize = 0;
            while j < row.raw_samples.len()
                invariant
                    j <= row.raw_samples@.len(),
                    row@ == body[i as int],
                    0 <= i < body.len(),
                    values@.map_values(|v: CgatsValue| v@) == sample_of_cells(
                        body[i as int].take(j as int),
                    ),
                    forall|k: int| 0 <= k < values@.len() ==> crate::data_map::value_wf(
                        #[trigger] values@[k]@,
                    ),
                decreases row.raw_samples@.len() - j,
            {
                let v = CgatsValue::from_text(row.raw_samples[j].as_str());
                values.push(v);
                proof {
                    assert(row.raw_samples@[j as int]@ == body[i as int][j as int]);
                    assert(body[i as int].take(j as int + 1) =~= body[i as int].take(
                        j as int,
                    ).push(body[i as int][j as int]));
                    assert(values@.map_values(|v: CgatsValue| v@) =~= sample_of_cells(
                        body[i as int].take(j as int + 1),
                    )) by {
                        assert(sample_of_cells(body[i as int].take(j as int).push(
                            body[i as int][j as int],
                        )) =~= sample_of_cells(body[i as int].take(j as int)).push(
                            value_of_text(body[i as int][j as int]),
                        ));
                    }
                }
                j = j + 1;
            }
            assert(body[i as int].take(row.raw_samples@.len() as int) =~= body[i as int]);
            let sample = Sample { values };
            assert(sample@ == sample_of_cells(body[i as int]));
            assert(sample@.len() == body[i as int].len());
            let ghost sv = sample@;
            let ghost prevm = data_map@;
            data_map.push(sample);
            proof {
                assert(body.take(i as int + 1) =~= body.take(i as int).push(body[i as int]));
                assert(data_map@.map_values(|s: Sample| s@) =~= prevm.map_values(
                    |s: Sample| s@,
                ).push(sv));
                assert(body.take(i as int).push(body[i as int]).map_values(
                    |c: Seq<Seq<char>>| sample_of_cells(c),
                ) =~= body.take(i as int).map_values(|c: Seq<Seq<char>>| sample_of_cells(c)).push(
                    sample_of_cells(body[i as int]),
                ));
                assert(data_map@.map_values(|s: Sample| s@) =~= body.take(i as int + 1).map_values(
                    |c: Seq<Seq<char>>| sample_of_cells(c),
                ));
                assert(rows_match(body.take(i as int + 1), fields@.len() as int));
            }
            i = i + 1;
        }
        assert(body.take(body.len() as int) =~= body);
        let doc = Cgats { vendor, meta, fields, data_map };
        assert(table_view(doc) == body.map_values(|c: Seq<Seq<char>>| sample_of_cells(c)));
        assert(doc_wf(doc));
        Ok(doc)
    }

    /// The position of a field in the layout, if present.
    pub fn field_index(&self, field: &Field) -> (r: Option<usize>)
        ensures
            match r {
                Some(p) => p == field_pos(self.fields@, *field) && p < self.fields@.len()
                    && self.fields@[p as int] == *field,
                None => !self.fields@.contains(*field),
            },
    {
        let mut i: usize = 0;
        while i < self.fields.len()
            invariant
                i <= self.fields@.len(),
                forall|k: int| 0 <= k < i ==> self.fields@[k] != *field,
            decreases self.fields@.len() - i,
        {
            if self.fields[i] == *field {
                proof {
                    lemma_field_pos(self.fields@, *field);
                    let fp = field_pos(self.fields@, *field);
                    if fp < i {
                        assert(self.fields@[fp] == *field);
                        assert(false);
                    }
                    if fp > i {
                        assert(self.fields@[i as int] != *field);
                        assert(false);
                    }
                }
                return Some(i);
            }
            i = i + 1;
        }
        proof {
            lemma_field_pos(self.fields@, *field);
            if self.fields@.contains(*field) {
                assert(field_pos(self.fields@, *field) < self.fields@.len());
                assert(self.fields@[field_pos(self.fields@, *field)] == *field);
            }
        }
        None
    }

    /// Whether the layout carries a complete Lab triple.
    pub fn has_lab(&self) -> (r: bool)
        ensures
            r == (self.fields@.contains(Field::LAB_L) && self.fields@.contains(Field::LAB_A)
                && self.fields@.contains(Field::LAB_B)),
    {
        let l = self.field_index(&Field::LAB_L);
        let a = self.field_index(&Field::LAB_A);
        let b = self.field_index(&Field::LAB_B);
        proof {
            lemma_field_pos(self.fields@, Field::LAB_L);
            lemma_field_pos(self.fields@, Field::LAB_A);
            lemma_field_pos(self.fields@, Field::LAB_B);
        }
        match (l, a, b) {
            (Some(_), Some(_), Some(_)) => true,
            _ => false,
        }
    }

    /// The positions of the Lab columns, if the layout has all three.
    pub fn lab_indexes(&self) -> (r: Option<[usize; 3]>)
        ensures
            match r {
                Some(idx) => {
                    &&& idx@[0] == field_pos(self.fields@, Field::LAB_L) && idx@[0]
                        < self.fields@.len() && self.fields@[idx@[0] as int] == Field::LAB_L
                    &&& idx@[1] == field_pos(self.fields@, Field::LAB_A) && idx@[1]
                        < self.fields@.len() && self.fields@[idx@[1] as int] == Field::LAB_A
                    &&& idx@[2] == field_pos(self.fields@, Field::LAB_B) && idx@[2]
                        < self.fields@.len() && self.fields@[idx@[2] as int] == Field::LAB_B
                },
                None => !(self.fields@.contains(Field::LAB_L) && self.fields@.contains(
                    Field::LAB_A,
                ) && self.fields@.contains(Field::LAB_B)),
            },
    {
        let l = self.field_index(&Field::LAB_L);
        let a = self.field_index(&Field::LAB_A);
        let b = self.field_index(&Field::LAB_B);
        proof {
            lemma_field_pos(self.fields@, Field::LAB_L);
            lemma_field_pos(self.fields@, Field::LAB_A);
            lemma_field_pos(self.fields@, Field::LAB_B);
        }
        match (l, a, b) {
            (Some(li), Some(ai), Some(bi)) => Some([li, ai, bi]),
            _ => None,
        }
    }

    /// The position and method of the first color-difference column;
    /// a layout with none has not enough data for a report.
    pub fn de_method(&self) -> (r: Result<(usize, DeMethod), Error>)
        ensures
            match r {
                Ok((idx, m)) => idx == first_de_idx(self.fields@) && idx < self.fields@.len()
                    && field_de_method(self.fields@[idx as int]) == Some(m),
                Err(e) => e == Error::IncompleteData && first_de_idx(self.fields@)
                    >= self.fields@.len(),
            },
    {
        let mut i: usize = 0;
        while i < self.fields.len()
            invariant
                i <= self.fields@.len(),
                forall|k: int| 0 <= k < i ==> field_de_method(#[trigger] self.fields@[k]) is None,
            decreases self.fields@.len() - i,
        {
            match self.fields[i].as_de_method() {
                Some(m) => {
                    proof {
                        lemma_first_de_idx(self.fields@);
                        let di = first_de_idx(self.fields@);
                        if di < i {
                            assert(field_de_method(self.fields@[di]) is Some);
                            assert(false);
                        }
                        if di > i {
                            assert(field_de_method(self.fields@[i as int]) is None);
                            assert(false);
                        }
                    }
                    return Ok((i, m));
                },
                None => {
                    i = i + 1;
                },
            }
        }
        proof {
            lemma_first_de_idx(self.fields@);
        }
        Err(Error::IncompleteData)
    }
}


impl Cgats {
    /// The metadata section as written out.
    pub fn format_meta(&self) -> (r: String)
        ensures
            r@ == render_recs(self.meta@),
    {
        self.meta.render()
    }

    /// The format-declaration block as written out; ColorBurst documents
    /// carry their layout implicitly and write none.
    pub fn format_fields(&self) -> (r: String)
        ensures
            r@ == render_format_block(*self),
    {
        let is_cb = match &self.vendor {
            Some(Vendor::ColorBurst) => true,
            _ => false,
        };
        if is_cb {
            let r = String::new();
            assert(r@ =~= render_format_block(*self));
            return r;
        }
        let mut out = String::new();
        out.append("BEGIN_DATA_FORMAT\n");
        let ghost head = "BEGIN_DATA_FORMAT\n"@;
        let mut i: usize = 0;
        while i < self.fields.len()
            invariant
                i <= self.fields@.len(),
                head == "BEGIN_DATA_FORMAT\n"@,
                out@ == head + render_field_names(self.fields@.take(i as int)),
            decreases self.fields@.len() - i,
        {
            if i > 0 {
                proof {
                    reveal_strlit("\t");
                    assert("\t"@ =~= seq!['\t']);
                }
                out.append("\t");
            }
            let name = self.fields[i].display();
            out.append(name.as_str());
            proof {
                let t = self.fields@.take(i as int + 1);
                assert(t.drop_last() =~= self.fields@.take(i as int));
                assert(t.last() == self.fields@[i as int]);
                assert(out@ =~= head + render_field_names(t));
            }
            i = i + 1;
        }
        assert(self.fields@.take(self.fields@.len() as int) =~= self.fields@);
        out.append("\nEND_DATA_FORMAT\n");
        assert(out@ =~= render_format_block(*self));
        out
    }

    /// The data block as written out: the bookend tags around one line
    /// per sample.
    pub fn format_data_map(&self) -> (r: String)
        requires
            doc_wf(*self),
        ensures
            r@ == render_data_block(*self),
    {
        let mut out = String::new();
        out.append("BEGIN_DATA\n");
        let ghost head = "BEGIN_DATA\n"@;
        let mut i: usize = 0;
        while i < self.data_map.len()
            invariant
                i <= self.data_map@.len(),
                doc_wf(*self),
                head == "BEGIN_DATA\n"@,
                out@ == head + render_samples(table_view(*self).take(i as int)),
            decreases self.data_map@.len() - i,
        {
            assert(self.data_map@[i as int]@ == table_view(*self)[i as int]);
            assert(sample_wf(table_view(*self)[i as int]));
            let row = self.data_map[i].render();
            out.append(row.as_str());
            proof {
                reveal_strlit("\n");
                assert("\n"@ =~= seq!['\n']);
            }
            out.append("\n");
            proof {
                let t = table_view(*self).take(i as int + 1);
                assert(t.drop_last() =~= table_view(*self).take(i as int));
                assert(t.last() == table_view(*self)[i as int]);
                assert(out@ =~= head + render_samples(t));
            }
            i = i + 1;
        }
        assert(table_view(*self).take(table_view(*self).len() as int) =~= table_view(*self));
        out.append("END_DATA\n");
        assert(out@ =~= render_data_block(*self));
        out
    }

    /// The whole document as written out: metadata verbatim, then the
    /// format-declaration block, then the data block.
    pub fn format(&self) -> (r: String)
        requires
            doc_wf(*self),
        ensures
            r@ == render_doc(*self),
    {
        let mut out = self.format_meta();
        let fb = self.format_fields();
        out.append(fb.as_str());
        let db = self.format_data_map();
        out.append(db.as_str());
        assert(out@ =~= render_doc(*self));
        out
    }
}

/// The length of a field vector; a reading aid for the parser above.
fn self_len(fields: &Vec<Field>) -> (r: usize)
    ensures
        r == fields@.len(),
{
    fields.len()
}

} // verus!
