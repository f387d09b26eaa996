use vstd::prelude::*;
use crate::error::Error;
use crate::field::{Field, field_of, colorburst_format, ColorBurstFormat};
use crate::numeric::dec_rep;
use crate::strutil::{
    chars_of, trim_chars, cells_of_line, split_breaks, split_by, split_cells, trim_spec,
    records_of, break_pred, str_eq_str, str_to_string, string_from_chars,
};
use crate::vendor::{Vendor, keyword_vendor, lower_seq, contains_seq};

verus! {

/// One record of a read file: its tab-split, trimmed cells.
#[derive(Debug, Clone, PartialEq, Eq)]
pub struct DataLine {
    pub raw_samples: Vec<String>,
}

impl View for DataLine {
    type V = Seq<Seq<char>>;

    open spec fn view(&self) -> Seq<Seq<char>> {
        self.raw_samples@.map_values(|s: String| s@)
    }
}

impl DataLine {
    pub fn new() -> (r: DataLine)
        ensures
            r@ == Seq::<Seq<char>>::empty(),
    {
        let r = DataLine { raw_samples: Vec::new() };
        assert(r@ =~= Seq::<Seq<char>>::empty());
        r
    }

    pub fn push(&mut self, string: String)
        ensures
            final(self)@ == old(self)@.push(string@),
    {
        let ghost sv = string@;
        self.raw_samples.push(string);
        assert(final(self)@ =~= old(self)@.push(sv));
    }

    pub fn from(raw_samples: Vec<String>) -> (r: DataLine)
        ensures
            r@ == raw_samples@.map_values(|s: String| s@),
    {
        DataLine { raw_samples }
    }

    pub fn insert(&mut self, index: usize, s: &str)
        requires
            index <= old(self)@.len(),
        ensures
            final(self)@ == old(self)@.insert(index as int, s@),
    {
        self.raw_samples.insert(index, str_to_string(s));
        assert(final(self)@ =~= old(self)@.insert(index as int, s@));
    }

    /// An exact copy.
    pub fn duplicate(&self) -> (r: DataLine)
        ensures
            r@ == self@,
    {
        let mut raw_samples: Vec<String> = Vec::new();
        let mut i: usize = 0;
        while i < self.raw_samples.len()
            invariant
                i <= self.raw_samples@.len(),
                raw_samples@.map_values(|s: String| s@) == self@.take(i as int),
            decreases self.raw_samples@.len() - i,
        {
            raw_samples.push(self.raw_samples[i].clone());
            assert(raw_samples@.map_values(|s: String| s@) =~= self@.take(i as int + 1)) by {
                assert(self@.take(i as int + 1) =~= self@.take(i as int).push(self@[i as int]));
                assert(self@[i as int] == self.raw_samples@[i as int]@);
            }
            i = i + 1;
        }
        let r = DataLine { raw_samples };
        assert(self@.take(self@.len() as int) =~= self@);
        assert(r@ =~= self@);
        r
    }
}

/// The first cell of a record, or empty text for a record with no cells.
pub open spec fn first_cell(r: Seq<Seq<char>>) -> Seq<char> {
    if r.len() > 0 {
        r[0]
    } else {
        Seq::<char>::empty()
    }
}

/// Whether a record opens or closes one of the two tagged sections.
pub open spec fn is_bookend(r: Seq<Seq<char>>) -> bool {
    first_cell(r) == "BEGIN_DATA_FORMAT"@ || first_cell(r) == "END_DATA_FORMAT"@ || first_cell(r)
        == "BEGIN_DATA"@ || first_cell(r) == "END_DATA"@
}

/// The collection toggle after reading the given records: `true` outside
/// the tagged sections, flipped by every bookend tag.
pub open spec fn toggle_after(lines: Seq<Seq<Seq<char>>>) -> bool
    decreases lines.len(),
{
    if lines.len() == 0 {
        true
    } else if is_bookend(lines.last()) {
        !toggle_after(lines.drop_last())
    } else {
        toggle_after(lines.drop_last())
    }
}

/// The metadata records: everything outside the tagged sections, the tags
/// themselves excluded.
pub open spec fn meta_of(lines: Seq<Seq<Seq<char>>>) -> Seq<Seq<Seq<char>>>
    decreases lines.len(),
{
    if lines.len() == 0 {
        Seq::<Seq<Seq<char>>>::empty()
    } else {
        let m = meta_of(lines.drop_last());
        if is_bookend(lines.last()) {
            m
        } else if toggle_after(lines.drop_last()) {
            m.push(lines.last())
        } else {
            m
        }
    }
}

/// Index of the first record whose first cell is `tag`, or the record
/// count when there is none.
pub open spec fn first_tag_idx(lines: Seq<Seq<Seq<char>>>, tag: Seq<char>) -> int
    decreases lines.len(),
{
    if lines.len() == 0 {
        0
    } else if first_cell(lines[0]) == tag {
        0
    } else {
        1 + first_tag_idx(lines.drop_first(), tag)
    }
}

pub proof fn lemma_first_tag_idx(lines: Seq<Seq<Seq<char>>>, tag: Seq<char>)
    ensures
        0 <= first_tag_idx(lines, tag) <= lines.len(),
        first_tag_idx(lines, tag) < lines.len() ==> first_cell(lines[first_tag_idx(lines, tag)])
            == tag,
        forall|k: int| 0 <= k < first_tag_idx(lines, tag) ==> first_cell(#[trigger] lines[k])
            != tag,
    decreases lines.len(),
{
    if lines.len() > 0 && first_cell(lines[0]) != tag {
        lemma_first_tag_idx(lines.drop_first(), tag);
        if first_tag_idx(lines, tag) < lines.len() {
            assert(lines[first_tag_idx(lines, tag)] == lines.drop_first()[first_tag_idx(
                lines.drop_first(),
                tag,
            )]);
        }
        assert forall|k: int| 0 <= k < first_tag_idx(lines, tag) implies first_cell(
            #[trigger] lines[k],
        ) != tag by {
            if k > 0 {
                assert(lines[k] == lines.drop_first()[k - 1]);
            }
        }
    }
}

/// The concatenation of a record's cells.
pub open spec fn concat_all(cells: Seq<Seq<char>>) -> Seq<char>
    decreases cells.len(),
{
    if cells.len() == 0 {
        Seq::<char>::empty()
    } else {
        concat_all(cells.drop_last()) + cells.last()
    }
}

/// The fields named by a format-declaration record, or nothing if any
/// cell is not a known field token.
pub open spec fn parse_fields(cells: Seq<Seq<char>>) -> Option<Seq<Field>>
    decreases cells.len(),
{
    if cells.len() == 0 {
        Some(Seq::<Field>::empty())
    } else {
        match parse_fields(cells.drop_last()) {
            None => None,
            Some(fs) => match field_of(cells.last()) {
                None => None,
                Some(f) => Some(fs.push(f)),
            },
        }
    }
}

/// The records of the data body: everything after the first `BEGIN_DATA`
/// record, up to the first following `END_DATA` record or the end.
pub open spec fn data_body(lines: Seq<Seq<Seq<char>>>) -> Option<Seq<Seq<Seq<char>>>> {
    let bi = first_tag_idx(lines, "BEGIN_DATA"@);
    if bi >= lines.len() {
        None
    } else {
        let after = lines.skip(bi + 1);
        let ei = first_tag_idx(after, "END_DATA"@);
        Some(after.take(ei))
    }
}

/// A record as written out: its cells tab-joined.
pub open spec fn render_rec(cells: Seq<Seq<char>>) -> Seq<char>
    decreases cells.len(),
{
    if cells.len() == 0 {
        Seq::<char>::empty()
    } else if cells.len() == 1 {
        cells[0]
    } else {
        render_rec(cells.drop_last()) + seq!['\t'] + cells.last()
    }
}

/// Records as written out: each tab-joined, each ending in a newline.
pub open spec fn render_recs(lines: Seq<Seq<Seq<char>>>) -> Seq<char>
    decreases lines.len(),
{
    if lines.len() == 0 {
        Seq::<char>::empty()
    } else {
        render_recs(lines.drop_last()) + render_rec(lines.last()) + seq!['\n']
    }
}

/// An ordered run of records: what the line reader makes of a file, and
/// the shape in which metadata travels through every operation.
#[derive(Debug, Clone, PartialEq, Eq)]
pub struct DataVec {
    pub lines: Vec<DataLine>,
}

impl View for DataVec {
    type V = Seq<Seq<Seq<char>>>;

    open spec fn view(&self) -> Seq<Seq<Seq<char>>> {
        self.lines@.map_values(|l: DataLine| l@)
    }
}

/// Whether a record's first cell equals the given tag.
fn line_first_cell_is(line: &DataLine, tag: &str) -> (r: bool)
    requires
        tag@.len() > 0,
    ensures
        r == (first_cell(line@) == tag@),
{
    if line.raw_samples.len() == 0 {
        assert(first_cell(line@) != tag@);
        false
    } else {
        assert(first_cell(line@) == line.raw_samples@[0]@);
        str_eq_str(line.raw_samples[0].as_str(), tag)
    }
}

/// Whether a record is one of the four bookend tags.
fn line_is_bookend(line: &DataLine) -> (r: bool)
    ensures
        r == is_bookend(line@),
{
    proof {
        reveal_strlit("BEGIN_DATA_FORMAT");
        reveal_strlit("END_DATA_FORMAT");
        reveal_strlit("BEGIN_DATA");
        reveal_strlit("END_DATA");
    }
    line_first_cell_is(line, "BEGIN_DATA_FORMAT") || line_first_cell_is(line, "END_DATA_FORMAT")
        || line_first_cell_is(line, "BEGIN_DATA") || line_first_cell_is(line, "END_DATA")
}

impl DataVec {
    pub fn new() -> (r: DataVec)
        ensures
            r@ == Seq::<Seq<Seq<char>>>::empty(),
    {
        let r = DataVec { lines: Vec::new() };
        assert(r@ =~= Seq::<Seq<Seq<char>>>::empty());
        r
    }

    pub fn from(lines: Vec<DataLine>) -> (r: DataVec)
        ensures
            r@ == lines@.map_values(|l: DataLine| l@),
    {
        DataVec { lines }
    }

    /// Inserts a one-cell record at the given position.
    pub fn insert(&mut self, index: usize, s: &str)
        requires
            index <= old(self)@.len(),
        ensures
            final(self)@ == old(self)@.insert(index as int, seq![s@]),
    {
        let mut line = DataLine::new();
        line.push(str_to_string(s));
        assert(line@ =~= seq![s@]);
        self.lines.insert(index, line);
        assert(final(self)@ =~= old(self)@.insert(index as int, seq![s@]));
    }

    /// An exact copy.
    pub fn duplicate(&self) -> (r: DataVec)
        ensures
            r@ == self@,
    {
        let mut lines: Vec<DataLine> = Vec::new();
        let mut i: usize = 0;
        while i < self.lines.len()
            invariant
                i <= self.lines@.len(),
                lines@.map_values(|l: DataLine| l@) == self@.take(i as int),
            decreases self.lines@.len() - i,
        {
            lines.push(self.lines[i].duplicate());
            assert(lines@.map_values(|l: DataLine| l@) =~= self@.take(i as int + 1)) by {
                assert(self@.take(i as int + 1) =~= self@.take(i as int).push(self@[i as int]));
                assert(self@[i as int] == self.lines@[i as int]@);
            }
            i = i + 1;
        }
        let r = DataVec { lines };
        assert(self@.take(self@.len() as int) =~= self@);
        assert(r@ =~= self@);
        r
    }

    /// Reads a whole text into records: break-split, trimmed, empty lines
    /// dropped, each line tab-split into trimmed cells. An outcome with no
    /// records at all is refused.
    pub fn from_text(text: &str) -> (r: Result<DataVec, Error>)
        ensures
            match r {
                Ok(dv) => dv@ == records_of(text@) && records_of(text@).len() > 0,
                Err(e) => e == Error::EmptyFile && records_of(text@).len() == 0,
            },
    {
        let v = chars_of(text);
        let raw = split_breaks(&v);
        let ghost all = split_by(v@, break_pred());
        let mut lines: Vec<DataLine> = Vec::new();
        let mut i: usize = 0;
        while i < raw.len()
            invariant
                i <= raw@.len(),
                raw@.map_values(|l: Vec<char>| l@) == all,
                all == split_by(v@, break_pred()),
                v@ == text@,
                lines@.map_values(|l: DataLine| l@) == all.take(i as int).map_values(
                    |l: Seq<char>| trim_spec(l),
                ).filter(|l: Seq<char>| l.len() > 0).map_values(|l: Seq<char>| split_cells(l)),
            decreases raw@.len() - i,
        {
            let ghost pre = all.take(i as int).map_values(|l: Seq<char>| trim_spec(l)).filter(
                |l: Seq<char>| l.len() > 0,
            );
            let t = trim_chars(&raw[i]);
            proof {
                reveal(Seq::filter);
                assert(raw@.map_values(|l: Vec<char>| l@)[i as int] == raw@[i as int]@);
                assert(t@ == trim_spec(all[i as int]));
                let tp = all.take(i as int + 1).map_values(|l: Seq<char>| trim_spec(l));
                assert(all.take(i as int + 1) =~= all.take(i as int).push(all[i as int]));
                assert(tp =~= all.take(i as int).map_values(|l: Seq<char>| trim_spec(l)).push(
                    trim_spec(all[i as int]),
                ));
                assert(tp.drop_last() =~= all.take(i as int).map_values(
                    |l: Seq<char>| trim_spec(l),
                ));
            }
            if t.len() > 0 {
                let cells = cells_of_line(&t);
                let line = DataLine { raw_samples: cells };
                assert(line@ == split_cells(t@));
                let ghost prev = lines@;
                lines.push(line);
                proof {
                    reveal(Seq::filter);
                    let f = |l: Seq<char>| l.len() > 0;
                    let tp = all.take(i as int + 1).map_values(|l: Seq<char>| trim_spec(l));
                    assert(tp.drop_last() =~= all.take(i as int).map_values(
                        |l: Seq<char>| trim_spec(l),
                    ));
                    assert(tp.filter(f) =~= pre.push(t@));
                    assert(lines@.map_values(|l: DataLine| l@) =~= prev.map_values(
                        |l: DataLine| l@,
                    ).push(split_cells(t@)));
                    assert(pre.push(t@).map_values(|l: Seq<char>| split_cells(l)) =~= pre.map_values(
                        |l: Seq<char>| split_cells(l),
                    ).push(split_cells(t@)));
                    assert(lines@.map_values(|l: DataLine| l@) =~= pre.push(t@).map_values(
                        |l: Seq<char>| split_cells(l),
                    ));
                }
            } else {
                proof {
                    reveal(Seq::filter);
                    let f = |l: Seq<char>| l.len() > 0;
                    let tp = all.take(i as int + 1).map_values(|l: Seq<char>| trim_spec(l));
                    assert(tp.drop_last() =~= all.take(i as int).map_values(
                        |l: Seq<char>| trim_spec(l),
                    ));
                    assert(tp.filter(f) =~= pre);
                }
            }
            i = i + 1;
        }
        assert(all.take(raw@.len() as int) =~= all);
        assert(lines@.map_values(|l: DataLine| l@) == records_of(text@));
        if lines.len() == 0 {
            assert(records_of(text@).len() == 0);
            Err(Error::EmptyFile)
        } else {
            let dv = DataVec { lines };
            Ok(dv)
        }
    }

    /// The vendor named by the first record: its cells are joined, lowered
    /// and searched for the ordered keywords. A file with no first record,
    /// or one whose first record is blank, names no vendor.
    pub fn get_vendor(&self) -> (r: Option<Vendor>)
        ensures
            match r {
                Some(v) => self@.len() > 0 && trim_spec(concat_all(self@[0])).len() > 0 && (match
                    keyword_vendor(lower_seq(trim_spec(concat_all(self@[0])))) {
                    Some(kv) => v == kv,
                    None => (v matches Vendor::Other(o) && o@ == trim_spec(concat_all(self@[0]))),
                }),
                None => self@.len() == 0 || trim_spec(concat_all(self@[0])).len() == 0,
            },
    {
        if self.lines.len() == 0 {
            return None;
        }
        let cells = &self.lines[0].raw_samples;
        assert(self@[0] == self.lines@[0int]@);
        let mut joined = String::new();
        let mut j: usize = 0;
        while j < cells.len()
            invariant
                j <= cells@.len(),
                self@.len() > 0,
                cells@.map_values(|s: String| s@) == self@[0],
                joined@ == concat_all(self@[0].take(j as int)),
            decreases cells@.len() - j,
        {
            joined.append(cells[j].as_str());
            proof {
                let t = self@[0].take(j as int + 1);
                assert(t.drop_last() =~= self@[0].take(j as int));
                assert(t.last() == self@[0][j as int]);
                assert(self@[0][j as int] == cells@[j as int]@);
            }
            j = j + 1;
        }
        assert(self@[0].take(self@[0].len() as int) =~= self@[0]);
        match Vendor::from_str(joined.as_str()) {
            Ok(v) => Some(v),
            Err(_) => None,
        }
    }

    /// The metadata records: a two-state toggle walks the records, flips
    /// on every bookend tag, and collects what lies outside the sections.
    pub fn extract_meta_data(&self) -> (r: DataVec)
        ensures
            r@ == meta_of(self@),
    {
        let mut meta = DataVec::new();
        let mut on = true;
        let mut i: usize = 0;
        while i < self.lines.len()
            invariant
                i <= self.lines@.len(),
                on == toggle_after(self@.take(i as int)),
                meta@ == meta_of(self@.take(i as int)),
            decreases self.lines@.len() - i,
        {
            let line = &self.lines[i];
            assert(line@ == self@[i as int]);
            proof {
                let t = self@.take(i as int + 1);
                assert(t.drop_last() =~= self@.take(i as int));
                assert(t.last() == self@[i as int]);
            }
            if line_is_bookend(line) {
                on = !on;
            } else if on {
                meta.lines.push(line.duplicate());
                assert(meta@ =~= meta_of(self@.take(i as int + 1)));
            }
            i = i + 1;
        }
        assert(self@.take(self@.len() as int) =~= self@);
        meta
    }

    /// The declared field layout. ColorBurst files carry none and get the
    /// implicit one; otherwise the record after `BEGIN_DATA_FORMAT` is
    /// parsed through the field registry.
    pub fn extract_data_format(&self) -> (r: Result<Vec<Field>, Error>)
        ensures
            match r {
                Ok(fs) => self@.len() >= 2 && (if detects_colorburst(self@) {
                    fs@ == colorburst_format()
                } else {
                    {
                        let bi = first_tag_idx(self@, "BEGIN_DATA_FORMAT"@);
                        &&& bi + 1 < self@.len()
                        &&& parse_fields(self@[bi + 1]) == Some(fs@)
                    }
                }),
                Err(e) => if self@.len() < 2 {
                    e == Error::NoDataFormat
                } else if detects_colorburst(self@) {
                    false
                } else {
                    {
                        let bi = first_tag_idx(self@, "BEGIN_DATA_FORMAT"@);
                        if bi + 1 >= self@.len() {
                            e == Error::NoDataFormat
                        } else {
                            e == Error::UnknownFormatType && parse_fields(self@[bi + 1]) is None
                        }
                    }
                },
            },
    {
        if self.lines.len() < 2 {
            return Err(Error::NoDataFormat);
        }
        let vendor = self.get_vendor();
        let is_cb = match vendor {
            Some(Vendor::ColorBurst) => true,
            _ => false,
        };
        assert(is_cb == detects_colorburst(self@));
        if is_cb {
            return Ok(ColorBurstFormat());
        }
        proof {
            reveal_strlit("BEGIN_DATA_FORMAT");
            lemma_first_tag_idx(self@, "BEGIN_DATA_FORMAT"@);
        }
        let ghost bi_spec = first_tag_idx(self@, "BEGIN_DATA_FORMAT"@);
        let mut bi: usize = 0;
        while bi < self.lines.len() && !line_first_cell_is(&self.lines[bi], "BEGIN_DATA_FORMAT")
            invariant
                bi <= self.lines@.len(),
                forall|k: int| 0 <= k < bi ==> first_cell(#[trigger] self@[k])
                    != "BEGIN_DATA_FORMAT"@,
                "BEGIN_DATA_FORMAT"@.len() > 0,
            decreases self.lines@.len() - bi,
        {
            assert(self.lines@[bi as int]@ == self@[bi as int]);
            bi = bi + 1;
        }
        proof {
            if bi < self.lines@.len() {
                assert(first_cell(self@[bi as int]) == "BEGIN_DATA_FORMAT"@);
            }
            if bi_spec < bi {
                assert(first_cell(self@[bi_spec]) == "BEGIN_DATA_FORMAT"@);
            }
            if bi_spec > bi && bi < self.lines@.len() {
                assert(first_cell(self@[bi as int]) != "BEGIN_DATA_FORMAT"@);
            }
            assert(bi == bi_spec);
        }
        if bi >= self.lines.len() || bi + 1 >= self.lines.len() {
            return Err(Error::NoDataFormat);
        }
        let cells = &self.lines[bi + 1].raw_samples;
        assert(cells@.map_values(|s: String| s@) == self@[bi + 1]);
        let ghost target = self@[bi + 1];
        let mut fields: Vec<Field> = Vec::new();
        let mut j: usize = 0;
        while j < cells.len()
            invariant
                j <= cells@.len(),
                cells@.map_values(|s: String| s@) == target,
                parse_fields(target.take(j as int)) == Some(fields@),
                self@.len() >= 2,
                !detects_colorburst(self@),
                bi == first_tag_idx(self@, "BEGIN_DATA_FORMAT"@),
                bi + 1 < self@.len(),
                target == self@[bi + 1],
            decreases cells@.len() - j,
        {
            proof {
                let t = target.take(j as int + 1);
                assert(t.drop_last() =~= target.take(j as int));
                assert(t.last() == target[j as int]);
                assert(target[j as int] == cells@[j as int]@);
            }
            match Field::from_str(cells[j].as_str()) {
                Ok(f) => {
                    fields.push(f);
                    assert(parse_fields(target.take(j as int + 1)) == Some(fields@));
                },
                Err(_) => {
                    assert(parse_fields(target.take(j as int + 1)) is None);
                    proof {
                        lemma_parse_fields_prefix_none(target, j as int + 1);
                    }
                    return Err(Error::UnknownFormatType);
                },
            }
            j = j + 1;
        }
        assert(target.take(target.len() as int) =~= target);
        Ok(fields)
    }

    /// The data body: every record after `BEGIN_DATA`, up to the first
    /// following `END_DATA` or the end of the file; an empty body is
    /// refused.
    pub fn extract_data(&self) -> (r: Result<DataVec, Error>)
        ensures
            match r {
                Ok(dv) => self@.len() >= 3 && (data_body(self@) matches Some(b) && b == dv@
                    && b.len() > 0),
                Err(e) => e == Error::NoData && (self@.len() < 3 || data_body(self@) is None || (
                data_body(self@) matches Some(b) && b.len() == 0)),
            },
    {
        if self.lines.len() < 3 {
            return Err(Error::NoData);
        }
        proof {
            reveal_strlit("BEGIN_DATA");
            reveal_strlit("END_DATA");
            lemma_first_tag_idx(self@, "BEGIN_DATA"@);
        }
        let ghost bi_spec = first_tag_idx(self@, "BEGIN_DATA"@);
        let mut bi: usize = 0;
        while bi < self.lines.len() && !line_first_cell_is(&self.lines[bi], "BEGIN_DATA")
            invariant
                bi <= self.lines@.len(),
                forall|k: int| 0 <= k < bi ==> first_cell(#[trigger] self@[k]) != "BEGIN_DATA"@,
                "BEGIN_DATA"@.len() > 0,
            decreases self.lines@.len() - bi,
        {
            assert(self.lines@[bi as int]@ == self@[bi as int]);
            bi = bi + 1;
        }
        proof {
            if bi < self.lines@.len() {
                assert(first_cell(self@[bi as int]) == "BEGIN_DATA"@);
            }
            if bi_spec < bi {
                assert(first_cell(self@[bi_spec]) == "BEGIN_DATA"@);
            }
            if bi_spec > bi && bi < self.lines@.len() {
                assert(first_cell(self@[bi as int]) != "BEGIN_DATA"@);
            }
            assert(bi == bi_spec);
        }
        if bi >= self.lines.len() {
            return Err(Error::NoData);
        }
        let ghost after = self@.skip(bi + 1);
        proof {
            lemma_first_tag_idx(after, "END_DATA"@);
        }
        let mut body: Vec<DataLine> = Vec::new();
        let mut i: usize = bi + 1;
        while i < self.lines.len() && !line_first_cell_is(&self.lines[i], "END_DATA")
            invariant
                bi + 1 <= i <= self.lines@.len(),
                after == self@.skip(bi + 1),
                forall|k: int| 0 <= k < i - bi - 1 ==> first_cell(#[trigger] after[k])
                    != "END_DATA"@,
                body@.map_values(|l: DataLine| l@) == after.take(i - bi - 1),
                "END_DATA"@.len() > 0,
            decreases self.lines@.len() - i,
        {
            assert(self.lines@[i as int]@ == self@[i as int]);
            assert(after[i - bi - 1] == self@[i as int]);
            body.push(self.lines[i].duplicate());
            assert(body@.map_values(|l: DataLine| l@) =~= after.take(i - bi)) by {
                assert(after.take(i - bi) =~= after.take(i - bi - 1).push(after[i - bi - 1]));
            }
            i = i + 1;
        }
        let ghost ei = first_tag_idx(after, "END_DATA"@);
        proof {
            if i < self.lines@.len() {
                assert(self.lines@[i as int]@ == self@[i as int]);
                assert(first_cell(after[i - bi - 1]) == "END_DATA"@);
            }
            if ei < i - bi - 1 {
                assert(first_cell(after[ei]) == "END_DATA"@);
            }
            if ei > i - bi - 1 && i < self.lines@.len() {
                assert(first_cell(after[i - bi - 1]) != "END_DATA"@);
            }
            if i == self.lines@.len() {
                assert(ei <= after.len());
                assert(i - bi - 1 == after.len());
            }
            assert(ei == i - bi - 1);
        }
        if body.len() == 0 {
            return Err(Error::NoData);
        }
        Ok(DataVec { lines: body })
    }

    /// Rewrites every `NUMBER_OF_SETS` record to carry the new count.
    pub fn meta_renumber_sets(&mut self, num: usize)
        ensures
            final(self)@.len() == old(self)@.len(),
            forall|i: int|
                0 <= i < old(self)@.len() ==> final(self)@[i] == (if contains_seq(
                    first_cell(old(self)@[i]),
                    "NUMBER_OF_SETS"@,
                ) {
                    seq!["NUMBER_OF_SETS"@, dec_rep(num as int)]
                } else {
                    old(self)@[i]
                }),
    {
        let n = self.lines.len();
        let mut i: usize = 0;
        while i < n
            invariant
                i <= n,
                n == self.lines@.len(),
                self.lines@.len() == old(self).lines@.len(),
                forall|k: int| i <= k < n ==> self.lines@[k] == old(self).lines@[k],
                forall|k: int|
                    0 <= k < i ==> self@[k] == (if contains_seq(
                        first_cell(old(self)@[k]),
                        "NUMBER_OF_SETS"@,
                    ) {
                        seq!["NUMBER_OF_SETS"@, dec_rep(num as int)]
                    } else {
                        old(self)@[k]
                    }),
            decreases n - i,
        {
            assert(self.lines@[i as int]@ == self@[i as int]);
            assert(self@[i as int] == old(self)@[i as int]) by {
                assert(old(self)@[i as int] == old(self).lines@[i as int]@);
            }
            let ghost pre_lines = self.lines@;
            let ghost pre_self = self@;
            let has_tag = if self.lines[i].raw_samples.len() == 0 {
                assert(first_cell(self@[i as int]) =~= Seq::<char>::empty());
                let e: Vec<char> = Vec::new();
                assert(e@ =~= first_cell(self@[i as int]));
                crate::vendor::contains_sub(&e, "NUMBER_OF_SETS")
            } else {
                assert(first_cell(self@[i as int]) == self.lines@[i as int].raw_samples@[0]@);
                let cv = chars_of(self.lines[i].raw_samples[0].as_str());
                crate::vendor::contains_sub(&cv, "NUMBER_OF_SETS")
            };
            assert(has_tag == contains_seq(first_cell(old(self)@[i as int]), "NUMBER_OF_SETS"@));
            if has_tag {
                let mut line = DataLine::new();
                line.push(str_to_string("NUMBER_OF_SETS"));
                let mut digits: Vec<char> = Vec::new();
                crate::numeric::push_dec(num as u64, &mut digits);
                line.push(string_from_chars(&digits));
                assert(line@ =~= seq!["NUMBER_OF_SETS"@, dec_rep(num as int)]);
                let ghost lv = line@;
                self.lines.set(i, line);
                assert(self@[i as int] == lv) by {
                    assert(self@[i as int] == self.lines@[i as int]@);
                }
            }
            assert forall|k: int|
                0 <= k < i + 1 implies self@[k] == (if contains_seq(
                first_cell(old(self)@[k]),
                "NUMBER_OF_SETS"@,
            ) {
                seq!["NUMBER_OF_SETS"@, dec_rep(num as int)]
            } else {
                old(self)@[k]
            }) by {
                assert(self@[k] == self.lines@[k]@);
                assert(old(self)@[k] == old(self).lines@[k]@);
                if k < i {
                    assert(self.lines@[k] == pre_lines[k]);
                    assert(pre_self[k] == pre_lines[k]@);
                    assert(pre_self[k] == (if contains_seq(
                        first_cell(old(self)@[k]),
                        "NUMBER_OF_SETS"@,
                    ) {
                        seq!["NUMBER_OF_SETS"@, dec_rep(num as int)]
                    } else {
                        old(self)@[k]
                    }));
                } else {
                    if !has_tag {
                        assert(self.lines@[k] == old(self).lines@[k]);
                    }
                }
            }
            i = i + 1;
        }
    }

    /// The records as written out, each ending in a newline.
    pub fn render(&self) -> (r: String)
        ensures
            r@ == render_recs(self@),
    {
        let mut out = String::new();
        let mut i: usize = 0;
        while i < self.lines.len()
            invariant
                i <= self.lines@.len(),
                out@ == render_recs(self@.take(i as int)),
            decreases self.lines@.len() - i,
        {
            assert(self.lines@[i as int]@ == self@[i as int]);
            let cells = &self.lines[i].raw_samples;
            let ghost target = self@[i as int];
            let mut j: usize = 0;
            while j < cells.len()
                invariant
                    j <= cells@.len(),
                    cells@.map_values(|s: String| s@) == target,
                    out@ == render_recs(self@.take(i as int)) + render_rec(target.take(j as int)),
                decreases cells@.len() - j,
            {
                if j > 0 {
                    proof {
                        reveal_strlit("\t");
                        assert("\t"@ =~= seq!['\t']);
                    }
                    out.append("\t");
                }
                out.append(cells[j].as_str());
                proof {
                    let t = target.take(j as int + 1);
                    assert(t.drop_last() =~= target.take(j as int));
                    assert(t.last() == target[j as int]);
                    assert(target[j as int] == cells@[j as int]@);
                    assert(out@ =~= render_recs(self@.take(i as int)) + render_rec(t));
                }
                j = j + 1;
            }
            proof {
                reveal_strlit("\n");
                assert("\n"@ =~= seq!['\n']);
                assert(target.take(target.len() as int) =~= target);
                let t = self@.take(i as int + 1);
                assert(t.drop_last() =~= self@.take(i as int));
                assert(t.last() == target);
            }
            out.append("\n");
            assert(out@ =~= render_recs(self@.take(i as int + 1)));
            i = i + 1;
        }
        assert(self@.take(self@.len() as int) =~= self@);
        out
    }
}

/// Whether the first record names the ColorBurst dialect.
pub open spec fn detects_colorburst(lines: Seq<Seq<Seq<char>>>) -> bool {
    lines.len() > 0 && trim_spec(concat_all(lines[0])).len() > 0 && keyword_vendor(
        lower_seq(trim_spec(concat_all(lines[0]))),
    ) == Some(Vendor::ColorBurst)
}

/// A record with an unknown cell parses to no fields, whatever follows.
proof fn lemma_parse_fields_prefix_none(cells: Seq<Seq<char>>, k: int)
    requires
        0 <= k <= cells.len(),
        parse_fields(cells.take(k)) is None,
    ensures
        parse_fields(cells) is None,
    decreases cells.len() - k,
{
    if k < cells.len() {
        assert(cells.take(k + 1).drop_last() =~= cells.take(k));
        lemma_parse_fields_prefix_none(cells, k + 1);
    } else {
        assert(cells.take(k) =~= cells);
    }
}

/// The samples of the data body, each cell read as a value.
pub open spec fn sample_of_cells(cells: Seq<Seq<char>>) -> Seq<crate::data_map::ValueView> {
    cells.map_values(|t: Seq<char>| crate::data_map::value_of_text(t))
}

} // verus!
