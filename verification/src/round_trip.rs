use vstd::prelude::*;
use crate::data_map::{ValueView, value_of_text, value_render, value_wf, sample_wf, render_cells};
use crate::cgats::{
    Cgats, table_view, doc_wf, render_doc, render_format_block, render_data_block,
    render_field_names, render_samples, spec_format, spec_body, rows_match,
};
use crate::data_vec::{
    render_rec, render_recs, first_cell, is_bookend, meta_of, toggle_after, first_tag_idx,
    lemma_first_tag_idx, parse_fields, data_body, detects_colorburst,
};
use crate::field::{Field, field_name, colorburst_format, lemma_field_round_trip,
    lemma_field_name_token};
use crate::vendor::Vendor;
use crate::numeric::{
    dec_rep, dec_pad, strip_zeros, render_scaled, is_digit, lemma_dec_rep_digits,
    lemma_dec_pad_val, lemma_strip_zeros, lemma_scaled_round_trip, lemma_pow10_small,
    SCALED_LIMIT,
};
use crate::strutil::{
    is_space, is_break, break_pred, tab_pred, trim_spec, trim_pieces, split_by, split_cells,
    records_of, lemma_trim_stable, lemma_split_whole, lemma_split_concat, lemma_split_push_sep,
};

verus! {

// ---------------------------------------------------------------------------
// Character classes of rendered tokens
// ---------------------------------------------------------------------------

/// A piece of text that survives the reader's cell handling unchanged:
/// non-empty, no outer whitespace, and free of tabs and line breaks.
pub open spec fn cell_ok(c: Seq<char>) -> bool {
    &&& c.len() > 0
    &&& !is_space(c[0])
    &&& !is_space(c.last())
    &&& forall|i: int| 0 <= i < c.len() ==> c[i] != '\t' && !is_break(#[trigger] c[i])
}

/// The canonical text of a value contains no whitespace at all.
pub proof fn lemma_render_scaled_ok(n: int)
    requires
        -SCALED_LIMIT <= n <= SCALED_LIMIT,
    ensures
        cell_ok(render_scaled(n)),
        forall|i: int| 0 <= i < render_scaled(n).len() ==> !is_space(#[trigger] render_scaled(n)[i]),
{
    let a = if n < 0 {
        -n
    } else {
        n
    };
    lemma_dec_rep_digits(a / 10000);
    lemma_pow10_small();
    lemma_dec_pad_val(a % 10000, 4);
    lemma_strip_zeros(dec_pad(a % 10000, 4));
    let s = render_scaled(n);
    assert forall|i: int| 0 <= i < s.len() implies !is_space(#[trigger] s[i]) by {
        let sign: Seq<char> = if n < 0 {
            seq!['-']
        } else {
            Seq::<char>::empty()
        };
        let ip = dec_rep(a / 10000);
        let frac: Seq<char> = if a % 10000 == 0 {
            Seq::<char>::empty()
        } else {
            seq!['.'] + strip_zeros(dec_pad(a % 10000, 4))
        };
        assert(s == sign + ip + frac);
        if i < sign.len() {
            assert(s[i] == '-');
        } else if i < sign.len() + ip.len() {
            assert(s[i] == ip[i - sign.len()]);
            assert(is_digit(ip[i - sign.len()]));
        } else {
            assert(frac.len() > 0);
            let j = i - sign.len() - ip.len();
            assert(s[i] == frac[j]);
            if j == 0 {
                assert(frac[0] == '.');
            } else {
                assert(frac[j] == strip_zeros(dec_pad(a % 10000, 4))[j - 1]);
                assert(is_digit(strip_zeros(dec_pad(a % 10000, 4))[j - 1]));
            }
        }
    }
    assert(s.len() > 0);
    assert(!is_space(s[0]));
    assert(!is_space(s.last()));
}

/// What a well-formed cell writes out is itself a well-formed cell,
/// as long as non-numeric text already is one; and reading that text
/// back yields the same reading with the canonical text.
pub proof fn lemma_value_round_trip(v: ValueView)
    requires
        value_wf(v),
        (v.number is None ==> cell_ok(v.text)),
    ensures
        cell_ok(value_render(v)),
        value_of_text(value_render(v)) == (ValueView { text: value_render(v), number: v.number }),
{
    match v.number {
        Some(n) => {
            crate::numeric::lemma_scaled_of_bounds(v.text);
            lemma_render_scaled_ok(n);
            lemma_scaled_round_trip(n);
        },
        None => {
        },
    }
}

// ---------------------------------------------------------------------------
// Lines: what one written record reads back as
// ---------------------------------------------------------------------------

/// The reading pipeline applied to ready-split lines.
pub open spec fn pipeline(ls: Seq<Seq<char>>) -> Seq<Seq<Seq<char>>> {
    ls.map_values(|l: Seq<char>| trim_spec(l)).filter(|l: Seq<char>| l.len() > 0).map_values(
        |l: Seq<char>| split_cells(l),
    )
}

/// The pipeline handles concatenated line runs piecewise.
pub proof fn lemma_pipeline_add(s1: Seq<Seq<char>>, s2: Seq<Seq<char>>)
    ensures
        pipeline(s1 + s2) == pipeline(s1) + pipeline(s2),
{
    let tr = |l: Seq<char>| trim_spec(l);
    let ne = |l: Seq<char>| l.len() > 0;
    let sc = |l: Seq<char>| split_cells(l);
    assert((s1 + s2).map_values(tr) =~= s1.map_values(tr) + s2.map_values(tr));
    Seq::filter_distributes_over_add(s1.map_values(tr), s2.map_values(tr), ne);
    assert((s1.map_values(tr).filter(ne) + s2.map_values(tr).filter(ne)).map_values(sc)
        =~= s1.map_values(tr).filter(ne).map_values(sc) + s2.map_values(tr).filter(ne).map_values(
        sc,
    ));
}

/// An empty piece contributes nothing to the pipeline.
pub proof fn lemma_pipeline_empty_piece()
    ensures
        pipeline(seq![Seq::<char>::empty()]) == Seq::<Seq<Seq<char>>>::empty(),
{
    reveal(Seq::filter);
    let tr = |l: Seq<char>| trim_spec(l);
    let ne = |l: Seq<char>| l.len() > 0;
    let sc = |l: Seq<char>| split_cells(l);
    let m = seq![Seq::<char>::empty()].map_values(tr);
    assert(m =~= seq![Seq::<char>::empty()]) by {
        assert(trim_spec(Seq::<char>::empty()) =~= Seq::<char>::empty());
    }
    assert(m.drop_last() =~= Seq::<Seq<char>>::empty());
    assert(Seq::<Seq<char>>::empty().filter(ne) =~= Seq::<Seq<char>>::empty());
    assert(m.filter(ne) =~= Seq::<Seq<char>>::empty());
    assert(pipeline(seq![Seq::<char>::empty()]) =~= Seq::<Seq<Seq<char>>>::empty());
}

/// Text ending in a line break reads separately from what follows it.
pub proof fn lemma_records_split_at_break(a: Seq<char>, b: Seq<char>)
    requires
        a.len() > 0,
        is_break(a.last()),
    ensures
        records_of(a + b) == records_of(a) + records_of(b),
{
    let p = break_pred();
    let a2 = a.drop_last();
    let c = a.last();
    assert(a + b =~= a2.push(c) + b);
    lemma_split_concat(a2, b, p, c);
    assert(split_by(a + b, p) == split_by(a2, p) + split_by(b, p));
    lemma_pipeline_add(split_by(a2, p), split_by(b, p));
    assert(a =~= a2.push(c));
    lemma_split_push_sep(a2, p, c);
    assert(split_by(a, p) == split_by(a2, p).push(Seq::<char>::empty()));
    assert(split_by(a2, p).push(Seq::<char>::empty()) =~= split_by(a2, p) + seq![
        Seq::<char>::empty(),
    ]);
    lemma_pipeline_add(split_by(a2, p), seq![Seq::<char>::empty()]);
    lemma_pipeline_empty_piece();
    assert(records_of(a) =~= pipeline(split_by(a2, p)));
    assert(records_of(a + b) =~= records_of(a) + records_of(b));
}

/// A written record splits back into exactly its cells, and carries no
/// whitespace at its edges and no line breaks at all.
pub proof fn lemma_render_rec_shape(cells: Seq<Seq<char>>)
    requires
        cells.len() >= 1,
        forall|i: int| 0 <= i < cells.len() ==> cell_ok(#[trigger] cells[i]),
    ensures
        render_rec(cells).len() > 0,
        !is_space(render_rec(cells)[0]),
        !is_space(render_rec(cells).last()),
        forall|i: int| 0 <= i < render_rec(cells).len() ==> !is_break(#[trigger] render_rec(
            cells,
        )[i]),
        split_by(render_rec(cells), tab_pred()) == cells,
    decreases cells.len(),
{
    let r = render_rec(cells);
    if cells.len() == 1 {
        assert(r == cells[0]);
        assert(cell_ok(cells[0]));
        lemma_split_whole(r, tab_pred());
        assert(split_by(r, tab_pred()) =~= cells);
    } else {
        let pre = cells.drop_last();
        assert(forall|i: int| 0 <= i < pre.len() ==> cells[i] == #[trigger] pre[i]);
        lemma_render_rec_shape(pre);
        let rp = render_rec(pre);
        let last = cells.last();
        assert(cell_ok(last));
        assert(r == rp + seq!['\t'] + last);
        assert(r =~= rp.push('\t') + last);
        lemma_split_concat(rp, last, tab_pred(), '\t');
        lemma_split_whole(last, tab_pred());
        assert(split_by(r, tab_pred()) =~= split_by(rp, tab_pred()) + seq![last]);
        assert(split_by(r, tab_pred()) =~= cells) by {
            assert(pre + seq![last] =~= cells);
        }
        assert(r[0] == rp[0]);
        assert(r.last() == last.last());
        assert forall|i: int| 0 <= i < r.len() implies !is_break(#[trigger] r[i]) by {
            if i < rp.len() {
                assert(r[i] == rp[i]);
            } else if i == rp.len() {
                assert(r[i] == '\t');
            } else {
                assert(r[i] == last[i - rp.len() - 1]);
            }
        }
    }
}

/// A written record splits back into exactly its trimmed cells.
proof fn lemma_split_cells_of_rec(cells: Seq<Seq<char>>)
    requires
        cells.len() >= 1,
        forall|i: int| 0 <= i < cells.len() ==> cell_ok(#[trigger] cells[i]),
    ensures
        split_cells(render_rec(cells)) == cells,
{
    let x = render_rec(cells);
    lemma_render_rec_shape(cells);
    assert(trim_pieces(split_by(x, tab_pred())) =~= cells) by {
        assert forall|i: int|
            0 <= i < cells.len() implies trim_spec(#[trigger] cells[i]) == cells[i] by {
            lemma_trim_stable(cells[i]);
        }
    }
}

/// One trim-stable line and one empty line read back as the first
/// line's cells.
proof fn lemma_pipeline_line_and_empty(x: Seq<char>)
    requires
        x.len() > 0,
        !is_space(x[0]),
        !is_space(x.last()),
    ensures
        pipeline(seq![x, Seq::<char>::empty()]) == seq![split_cells(x)],
{
    reveal(Seq::filter);
    let tr = |l: Seq<char>| trim_spec(l);
    let ne = |l: Seq<char>| l.len() > 0;
    let m = seq![x, Seq::<char>::empty()].map_values(tr);
    lemma_trim_stable(x);
    assert(m =~= seq![x, Seq::<char>::empty()]) by {
        assert(trim_spec(Seq::<char>::empty()) =~= Seq::<char>::empty());
    }
    assert(m.drop_last() =~= seq![x]);
    assert(seq![x].drop_last() =~= Seq::<Seq<char>>::empty());
    assert(Seq::<Seq<char>>::empty().filter(ne) =~= Seq::<Seq<char>>::empty());
    assert(seq![x].filter(ne) =~= seq![x]);
    assert(m.filter(ne) =~= seq![x]);
    assert(pipeline(seq![x, Seq::<char>::empty()]) =~= seq![split_cells(x)]);
}

/// One written record followed by a newline reads back as exactly that
/// one record.
pub proof fn lemma_record_line(cells: Seq<Seq<char>>)
    requires
        cells.len() >= 1,
        forall|i: int| 0 <= i < cells.len() ==> cell_ok(#[trigger] cells[i]),
    ensures
        records_of(render_rec(cells) + seq!['\n']) == seq![cells],
{
    let p = break_pred();
    let x = render_rec(cells);
    lemma_render_rec_shape(cells);
    lemma_split_whole(x, p);
    assert(x + seq!['\n'] =~= x.push('\n'));
    lemma_split_push_sep(x, p, '\n');
    assert(split_by(x + seq!['\n'], p) =~= seq![x, Seq::<char>::empty()]);
    lemma_pipeline_line_and_empty(x);
    lemma_split_cells_of_rec(cells);
    assert(records_of(x + seq!['\n']) =~= seq![cells]);
}

// ---------------------------------------------------------------------------
// Whole record runs
// ---------------------------------------------------------------------------

/// A record that the reader hands back unchanged.
pub open spec fn line_ok(cells: Seq<Seq<char>>) -> bool {
    cells.len() >= 1 && forall|i: int| 0 <= i < cells.len() ==> cell_ok(#[trigger] cells[i])
}

/// Nothing reads back from empty text.
pub proof fn lemma_records_empty()
    ensures
        records_of(Seq::<char>::empty()) == Seq::<Seq<Seq<char>>>::empty(),
{
    lemma_pipeline_empty_piece();
    assert(split_by(Seq::<char>::empty(), break_pred()) =~= seq![Seq::<char>::empty()]);
}

/// Writing records one after the other concatenates their texts.
pub proof fn lemma_render_recs_add(l1: Seq<Seq<Seq<char>>>, l2: Seq<Seq<Seq<char>>>)
    ensures
        render_recs(l1 + l2) == render_recs(l1) + render_recs(l2),
    decreases l2.len(),
{
    if l2.len() == 0 {
        assert(l1 + l2 =~= l1);
        assert(render_recs(l1) + render_recs(l2) =~= render_recs(l1));
    } else {
        lemma_render_recs_add(l1, l2.drop_last());
        assert((l1 + l2).drop_last() =~= l1 + l2.drop_last());
        assert((l1 + l2).last() == l2.last());
        assert(render_recs(l1) + render_recs(l2) =~= render_recs(l1) + render_recs(
            l2.drop_last(),
        ) + render_rec(l2.last()) + seq!['\n']);
        assert(render_recs(l1 + l2) =~= render_recs(l1) + render_recs(l2));
    }
}

/// One record written on its own line.
pub proof fn lemma_render_recs_single(cells: Seq<Seq<char>>)
    ensures
        render_recs(seq![cells]) == render_rec(cells) + seq!['\n'],
{
    assert(seq![cells].drop_last() =~= Seq::<Seq<Seq<char>>>::empty());
    assert(render_recs(Seq::<Seq<Seq<char>>>::empty()) =~= Seq::<char>::empty());
    assert(render_recs(seq![cells]) =~= render_rec(cells) + seq!['\n']);
}

/// Written records of well-formed lines end in a line break.
proof fn lemma_render_recs_last(lines: Seq<Seq<Seq<char>>>)
    requires
        lines.len() > 0,
    ensures
        render_recs(lines).len() > 0,
        render_recs(lines).last() == '\n',
{
}

/// A run of well-formed records written out reads back as itself.
pub proof fn lemma_records_render_recs(lines: Seq<Seq<Seq<char>>>)
    requires
        forall|i: int| 0 <= i < lines.len() ==> line_ok(#[trigger] lines[i]),
    ensures
        records_of(render_recs(lines)) == lines,
    decreases lines.len(),
{
    if lines.len() == 0 {
        lemma_records_empty();
        assert(records_of(render_recs(lines)) =~= lines);
    } else {
        let pre = lines.drop_last();
        assert(forall|i: int| 0 <= i < pre.len() ==> lines[i] == #[trigger] pre[i]);
        lemma_records_render_recs(pre);
        let a = render_recs(pre);
        let b = render_rec(lines.last()) + seq!['\n'];
        assert(render_recs(lines) =~= a + b);
        lemma_record_line(lines.last());
        if pre.len() == 0 {
            assert(a =~= Seq::<char>::empty());
            assert(a + b =~= b);
            assert(records_of(render_recs(lines)) =~= lines);
        } else {
            lemma_render_recs_last(pre);
            lemma_records_split_at_break(a, b);
            assert(records_of(a + b) == records_of(a) + records_of(b));
            assert(records_of(render_recs(lines)) =~= lines) by {
                assert(pre + seq![lines.last()] =~= lines);
            }
        }
    }
}


// ---------------------------------------------------------------------------
// The document as a run of records
// ---------------------------------------------------------------------------

/// A row's cells as written out.
pub open spec fn row_cells(row: Seq<ValueView>) -> Seq<Seq<char>> {
    row.map_values(|v: ValueView| value_render(v))
}

/// A cell as it reads back: the canonical text, the same reading.
pub open spec fn normalize_row(row: Seq<ValueView>) -> Seq<ValueView> {
    row.map_values(|v: ValueView| ValueView { text: value_render(v), number: v.number })
}

/// The records that writing a document produces: its metadata, the
/// format-declaration block unless the dialect is ColorBurst, and the
/// bookended data body.
pub open spec fn doc_lines(doc: Cgats) -> Seq<Seq<Seq<char>>> {
    let fmt: Seq<Seq<Seq<char>>> = if doc.vendor == Some(Vendor::ColorBurst) {
        Seq::<Seq<Seq<char>>>::empty()
    } else {
        seq![
            seq!["BEGIN_DATA_FORMAT"@],
            doc.fields@.map_values(|f: Field| field_name(f)),
            seq!["END_DATA_FORMAT"@],
        ]
    };
    doc.meta@ + fmt + seq![seq!["BEGIN_DATA"@]] + table_view(doc).map_values(
        |row: Seq<ValueView>| row_cells(row),
    ) + seq![seq!["END_DATA"@]]
}

/// A document that writes out so that reading recovers it: well-formed,
/// with at least one column and one sample, metadata records that are
/// themselves well-formed cells and never bookend tags, text cells that
/// survive the reader, no data row that starts like a bookend tag, and a
/// first metadata record that names the ColorBurst dialect exactly when
/// the document carries it.
pub open spec fn serializable(doc: Cgats) -> bool {
    &&& doc_wf(doc)
    &&& doc.fields@.len() > 0
    &&& table_view(doc).len() > 0
    &&& doc.meta@.len() > 0
    &&& forall|i: int|
        0 <= i < doc.meta@.len() ==> line_ok(#[trigger] doc.meta@[i]) && !is_bookend(doc.meta@[i])
    &&& forall|k: int, j: int|
        0 <= k < table_view(doc).len() && 0 <= j < table_view(doc)[k].len() && (#[trigger]
        table_view(doc)[k][j]).number is None ==> cell_ok(table_view(doc)[k][j].text)
    &&& forall|k: int|
        0 <= k < table_view(doc).len() ==> !is_bookend(row_cells(#[trigger] table_view(doc)[k]))
    &&& (doc.vendor == Some(Vendor::ColorBurst) ==> detects_colorburst(doc.meta@)
        && doc.fields@ == colorburst_format())
    &&& (doc.vendor != Some(Vendor::ColorBurst) ==> !detects_colorburst(doc.meta@))
}

/// The format names line is one written record over the canonical names.
proof fn lemma_field_names_as_rec(fields: Seq<Field>)
    ensures
        render_field_names(fields) == render_rec(fields.map_values(|f: Field| field_name(f))),
    decreases fields.len(),
{
    let m = fields.map_values(|f: Field| field_name(f));
    if fields.len() == 0 {
        assert(m =~= Seq::<Seq<char>>::empty());
    } else if fields.len() == 1 {
        assert(m.len() == 1);
        assert(m[0] == field_name(fields[0]));
    } else {
        lemma_field_names_as_rec(fields.drop_last());
        assert(m.drop_last() =~= fields.drop_last().map_values(|f: Field| field_name(f)));
        assert(m.last() == field_name(fields.last()));
        assert(render_field_names(fields) =~= render_rec(m));
    }
}

/// A sample row written out is one written record over its cells.
proof fn lemma_render_cells_as_rec(row: Seq<ValueView>)
    ensures
        render_cells(row) == render_rec(row_cells(row)),
    decreases row.len(),
{
    let m = row_cells(row);
    if row.len() == 0 {
        assert(m =~= Seq::<Seq<char>>::empty());
    } else if row.len() == 1 {
        assert(m.len() == 1);
        assert(m[0] == value_render(row[0]));
    } else {
        lemma_render_cells_as_rec(row.drop_last());
        assert(m.drop_last() =~= row.drop_last().map_values(|v: ValueView| value_render(v)));
        assert(m.last() == value_render(row.last()));
        assert(render_cells(row) =~= render_rec(m));
    }
}

/// The data rows written out are those records written one per line.
proof fn lemma_render_samples_as_recs(table: Seq<Seq<ValueView>>)
    ensures
        render_samples(table) == render_recs(table.map_values(|row: Seq<ValueView>| row_cells(
            row,
        ))),
    decreases table.len(),
{
    let m = table.map_values(|row: Seq<ValueView>| row_cells(row));
    if table.len() == 0 {
        assert(m =~= Seq::<Seq<Seq<char>>>::empty());
    } else {
        lemma_render_samples_as_recs(table.drop_last());
        assert(m.drop_last() =~= table.drop_last().map_values(
            |row: Seq<ValueView>| row_cells(row),
        ));
        assert(m.last() == row_cells(table.last()));
        lemma_render_cells_as_rec(table.last());
        assert(render_samples(table) =~= render_recs(m));
    }
}

/// The bookended block texts, taken apart at their newlines.
proof fn lemma_block_literals()
    ensures
        "BEGIN_DATA_FORMAT\n"@ == "BEGIN_DATA_FORMAT"@ + seq!['\n'],
        "\nEND_DATA_FORMAT\n"@ == seq!['\n'] + ("END_DATA_FORMAT"@ + seq!['\n']),
        "BEGIN_DATA\n"@ == "BEGIN_DATA"@ + seq!['\n'],
        "END_DATA\n"@ == "END_DATA"@ + seq!['\n'],
{
    reveal_strlit("BEGIN_DATA_FORMAT");
    reveal_strlit("END_DATA_FORMAT");
    reveal_strlit("BEGIN_DATA");
    reveal_strlit("END_DATA");
    reveal_strlit("BEGIN_DATA_FORMAT\n");
    reveal_strlit("\nEND_DATA_FORMAT\n");
    reveal_strlit("BEGIN_DATA\n");
    reveal_strlit("END_DATA\n");
    assert("BEGIN_DATA_FORMAT\n"@ =~= "BEGIN_DATA_FORMAT"@ + seq!['\n']);
    assert("\nEND_DATA_FORMAT\n"@ =~= seq!['\n'] + ("END_DATA_FORMAT"@ + seq!['\n']));
    assert("BEGIN_DATA\n"@ =~= "BEGIN_DATA"@ + seq!['\n']);
    assert("END_DATA\n"@ =~= "END_DATA"@ + seq!['\n']);
}

/// The format-declaration block is its three records written out.
proof fn lemma_format_block_as_recs(doc: Cgats)
    requires
        doc.vendor != Some(Vendor::ColorBurst),
    ensures
        ({
            let names = doc.fields@.map_values(|f: Field| field_name(f));
            render_format_block(doc) == render_recs(
                seq![seq!["BEGIN_DATA_FORMAT"@], names, seq!["END_DATA_FORMAT"@]],
            )
        }),
{
    let names = doc.fields@.map_values(|f: Field| field_name(f));
    let fmt: Seq<Seq<Seq<char>>> = seq![
        seq!["BEGIN_DATA_FORMAT"@],
        names,
        seq!["END_DATA_FORMAT"@],
    ];
    lemma_render_recs_add(seq![seq!["BEGIN_DATA_FORMAT"@]], seq![names]);
    lemma_render_recs_add(seq![seq!["BEGIN_DATA_FORMAT"@], names], seq![seq!["END_DATA_FORMAT"@]]);
    assert(fmt =~= seq![seq!["BEGIN_DATA_FORMAT"@]] + seq![names] + seq![
        seq!["END_DATA_FORMAT"@],
    ]);
    assert(seq![seq!["BEGIN_DATA_FORMAT"@], names] =~= seq![seq!["BEGIN_DATA_FORMAT"@]] + seq![
        names,
    ]);
    lemma_render_recs_single(seq!["BEGIN_DATA_FORMAT"@]);
    lemma_render_recs_single(names);
    lemma_render_recs_single(seq!["END_DATA_FORMAT"@]);
    assert(render_rec(seq!["BEGIN_DATA_FORMAT"@]) == "BEGIN_DATA_FORMAT"@) by {
        assert(seq!["BEGIN_DATA_FORMAT"@].len() == 1);
    }
    assert(render_rec(seq!["END_DATA_FORMAT"@]) == "END_DATA_FORMAT"@) by {
        assert(seq!["END_DATA_FORMAT"@].len() == 1);
    }
    lemma_field_names_as_rec(doc.fields@);
    lemma_block_literals();
    assert(render_format_block(doc) =~= render_recs(fmt));
}

/// The data block is the opening tag, the rows, and the closing tag,
/// written out.
proof fn lemma_data_block_as_recs(doc: Cgats)
    ensures
        ({
            let rows = table_view(doc).map_values(|row: Seq<ValueView>| row_cells(row));
            render_data_block(doc) == render_recs(seq![seq!["BEGIN_DATA"@]]) + render_recs(rows)
                + render_recs(seq![seq!["END_DATA"@]])
        }),
{
    let rows = table_view(doc).map_values(|row: Seq<ValueView>| row_cells(row));
    lemma_render_recs_single(seq!["BEGIN_DATA"@]);
    assert(render_rec(seq!["BEGIN_DATA"@]) == "BEGIN_DATA"@) by {
        assert(seq!["BEGIN_DATA"@].len() == 1);
    }
    lemma_render_recs_single(seq!["END_DATA"@]);
    assert(render_rec(seq!["END_DATA"@]) == "END_DATA"@) by {
        assert(seq!["END_DATA"@].len() == 1);
    }
    lemma_render_samples_as_recs(table_view(doc));
    lemma_block_literals();
    assert(render_data_block(doc) =~= render_recs(seq![seq!["BEGIN_DATA"@]]) + render_recs(rows)
        + render_recs(seq![seq!["END_DATA"@]]));
}

/// What `format` writes is exactly the document's records, written one
/// per line.
pub proof fn lemma_render_doc_as_recs(doc: Cgats)
    ensures
        render_doc(doc) == render_recs(doc_lines(doc)),
{
    let names = doc.fields@.map_values(|f: Field| field_name(f));
    let rows = table_view(doc).map_values(|row: Seq<ValueView>| row_cells(row));
    let fmt: Seq<Seq<Seq<char>>> = if doc.vendor == Some(Vendor::ColorBurst) {
        Seq::<Seq<Seq<char>>>::empty()
    } else {
        seq![seq!["BEGIN_DATA_FORMAT"@], names, seq!["END_DATA_FORMAT"@]]
    };
    let bd: Seq<Seq<Seq<char>>> = seq![seq!["BEGIN_DATA"@]];
    let ed: Seq<Seq<Seq<char>>> = seq![seq!["END_DATA"@]];

    lemma_render_recs_add(doc.meta@, fmt);
    lemma_render_recs_add(doc.meta@ + fmt, bd);
    lemma_render_recs_add(doc.meta@ + fmt + bd, rows);
    lemma_render_recs_add(doc.meta@ + fmt + bd + rows, ed);
    assert(doc_lines(doc) =~= doc.meta@ + fmt + bd + rows + ed);
    assert(render_recs(doc_lines(doc)) == render_recs(doc.meta@) + render_recs(fmt) + render_recs(
        bd,
    ) + render_recs(rows) + render_recs(ed));

    if doc.vendor == Some(Vendor::ColorBurst) {
        assert(render_recs(fmt) =~= Seq::<char>::empty());
        assert(render_format_block(doc) =~= render_recs(fmt));
    } else {
        lemma_format_block_as_recs(doc);
    }
    lemma_data_block_as_recs(doc);
    assert(render_doc(doc) =~= render_recs(doc_lines(doc)));
}

// ---------------------------------------------------------------------------
// Reading the written records back
// ---------------------------------------------------------------------------

/// Plain records collect as metadata and leave the toggle on.
proof fn lemma_meta_plain(ls: Seq<Seq<Seq<char>>>)
    requires
        forall|i: int| 0 <= i < ls.len() ==> !is_bookend(#[trigger] ls[i]),
    ensures
        meta_of(ls) == ls,
        toggle_after(ls),
    decreases ls.len(),
{
    if ls.len() > 0 {
        assert(forall|i: int|
            0 <= i < ls.len() - 1 ==> ls.drop_last()[i] == #[trigger] ls[i]);
        lemma_meta_plain(ls.drop_last());
        assert(meta_of(ls) =~= ls);
    }
}

/// With the toggle off, plain records pass by uncollected.
proof fn lemma_meta_skip_section(ls: Seq<Seq<Seq<char>>>, m: Seq<Seq<Seq<char>>>)
    requires
        !toggle_after(ls),
        forall|i: int| 0 <= i < m.len() ==> !is_bookend(#[trigger] m[i]),
    ensures
        meta_of(ls + m) == meta_of(ls),
        !toggle_after(ls + m),
    decreases m.len(),
{
    if m.len() == 0 {
        assert(ls + m =~= ls);
    } else {
        assert(forall|i: int| 0 <= i < m.len() - 1 ==> m.drop_last()[i] == #[trigger] m[i]);
        lemma_meta_skip_section(ls, m.drop_last());
        assert((ls + m).drop_last() =~= ls + m.drop_last());
        assert((ls + m).last() == m.last());
    }
}

/// A single bookend record flips the toggle and collects nothing.
proof fn lemma_meta_bookend(ls: Seq<Seq<Seq<char>>>, x: Seq<Seq<char>>)
    requires
        is_bookend(x),
    ensures
        meta_of(ls.push(x)) == meta_of(ls),
        toggle_after(ls.push(x)) == !toggle_after(ls),
{
    assert(ls.push(x).drop_last() =~= ls);
    assert(ls.push(x).last() == x);
}

/// One plain record with the toggle off.
proof fn lemma_meta_skip_one(ls: Seq<Seq<Seq<char>>>, x: Seq<Seq<char>>)
    requires
        !toggle_after(ls),
        !is_bookend(x),
    ensures
        meta_of(ls.push(x)) == meta_of(ls),
        !toggle_after(ls.push(x)),
{
    assert(ls.push(x).drop_last() =~= ls);
    assert(ls.push(x).last() == x);
}

/// Pins the first occurrence of a tag.
proof fn lemma_first_tag_pin(ls: Seq<Seq<Seq<char>>>, tag: Seq<char>, m: int)
    requires
        0 <= m < ls.len(),
        forall|k: int| 0 <= k < m ==> first_cell(#[trigger] ls[k]) != tag,
        first_cell(ls[m]) == tag,
    ensures
        first_tag_idx(ls, tag) == m,
{
    lemma_first_tag_idx(ls, tag);
    let fti = first_tag_idx(ls, tag);
    if fti < m {
        assert(first_cell(ls[fti]) != tag);
        assert(false);
    }
    if fti > m {
        assert(first_cell(ls[m]) != tag);
        assert(false);
    }
}

/// The written names of a layout parse back to exactly that layout.
proof fn lemma_parse_field_names(fields: Seq<Field>)
    ensures
        parse_fields(fields.map_values(|f: Field| field_name(f))) == Some(fields),
    decreases fields.len(),
{
    let m = fields.map_values(|f: Field| field_name(f));
    if fields.len() == 0 {
        assert(m =~= Seq::<Seq<char>>::empty());
        assert(parse_fields(m) =~= Some(fields));
    } else {
        lemma_parse_field_names(fields.drop_last());
        assert(m.drop_last() =~= fields.drop_last().map_values(|f: Field| field_name(f)));
        assert(m.last() == field_name(fields.last()));
        lemma_field_round_trip(fields.last());
        assert(crate::field::field_of(field_name(fields.last())) == Some(fields.last()));
        assert(fields.drop_last().push(fields.last()) =~= fields);
        assert(parse_fields(m) == Some(fields));
    }
}

// ---------------------------------------------------------------------------
// The round trip itself
// ---------------------------------------------------------------------------

/// The format stage of rereading recovers the field layout.
proof fn lemma_rt_format_stage(doc: Cgats)
    requires
        serializable(doc),
    ensures
        spec_format(doc_lines(doc)) == Ok::<Seq<Field>, crate::error::Error>(doc.fields@),
{
    let meta = doc.meta@;
    let names = doc.fields@.map_values(|f: Field| field_name(f));
    let rows = table_view(doc).map_values(|row: Seq<ValueView>| row_cells(row));
    let is_cb = doc.vendor == Some(Vendor::ColorBurst);
    let fmt: Seq<Seq<Seq<char>>> = if is_cb {
        Seq::<Seq<Seq<char>>>::empty()
    } else {
        seq![seq!["BEGIN_DATA_FORMAT"@], names, seq!["END_DATA_FORMAT"@]]
    };
    let bd: Seq<Seq<Seq<char>>> = seq![seq!["BEGIN_DATA"@]];
    let ed: Seq<Seq<Seq<char>>> = seq![seq!["END_DATA"@]];
    let lines = doc_lines(doc);
    assert(lines =~= meta + fmt + bd + rows + ed);
    let m = meta.len() as int;
    assert(lines.len() >= 2);
    assert(lines[0] == meta[0]);
    assert(detects_colorburst(lines) == detects_colorburst(meta)) by {
        assert(crate::data_vec::concat_all(lines[0]) == crate::data_vec::concat_all(meta[0]));
    }
    if is_cb {
        assert(spec_format(lines) == Ok::<Seq<Field>, crate::error::Error>(colorburst_format()));
        assert(doc.fields@ == colorburst_format());
    } else {
        assert forall|k: int| 0 <= k < m implies first_cell(#[trigger] lines[k])
            != "BEGIN_DATA_FORMAT"@ by {
            assert(lines[k] == meta[k]);
            assert(!is_bookend(meta[k]));
        }
        assert(lines[m] =~= seq!["BEGIN_DATA_FORMAT"@]);
        assert(first_cell(lines[m]) == "BEGIN_DATA_FORMAT"@);
        lemma_first_tag_pin(lines, "BEGIN_DATA_FORMAT"@, m);
        assert(m + 1 < lines.len());
        assert(lines[m + 1] == names);
        lemma_parse_field_names(doc.fields@);
        assert(spec_format(lines) == Ok::<Seq<Field>, crate::error::Error>(doc.fields@));
    }
}

/// The body stage of rereading recovers the written rows.
proof fn lemma_rt_body_stage(doc: Cgats)
    requires
        serializable(doc),
    ensures
        spec_body(doc_lines(doc)) == Ok::<Seq<Seq<Seq<char>>>, crate::error::Error>(
            table_view(doc).map_values(|row: Seq<ValueView>| row_cells(row)),
        ),
{
    reveal_strlit("BEGIN_DATA_FORMAT");
    reveal_strlit("END_DATA_FORMAT");
    reveal_strlit("BEGIN_DATA");
    let meta = doc.meta@;
    let names = doc.fields@.map_values(|f: Field| field_name(f));
    let rows = table_view(doc).map_values(|row: Seq<ValueView>| row_cells(row));
    let is_cb = doc.vendor == Some(Vendor::ColorBurst);
    let fmt: Seq<Seq<Seq<char>>> = if is_cb {
        Seq::<Seq<Seq<char>>>::empty()
    } else {
        seq![seq!["BEGIN_DATA_FORMAT"@], names, seq!["END_DATA_FORMAT"@]]
    };
    let bd: Seq<Seq<Seq<char>>> = seq![seq!["BEGIN_DATA"@]];
    let ed: Seq<Seq<Seq<char>>> = seq![seq!["END_DATA"@]];
    let lines = doc_lines(doc);
    assert(lines =~= meta + fmt + bd + rows + ed);
    let m = meta.len() as int;
    let fl = fmt.len() as int;
    let n = rows.len() as int;
    assert(lines.len() >= 3);
    assert forall|k: int| 0 <= k < m + fl implies first_cell(#[trigger] lines[k])
        != "BEGIN_DATA"@ by {
        if k < m {
            assert(lines[k] == meta[k]);
            assert(!is_bookend(meta[k]));
        } else {
            if k == m {
                assert(lines[k] =~= seq!["BEGIN_DATA_FORMAT"@]);
                assert("BEGIN_DATA_FORMAT"@.len() != "BEGIN_DATA"@.len());
            } else if k == m + 1 {
                assert(lines[k] == names);
                assert(doc.fields@.len() > 0);
                assert(first_cell(names) == field_name(doc.fields@[0]));
                lemma_field_name_token(doc.fields@[0]);
            } else {
                assert(lines[k] =~= seq!["END_DATA_FORMAT"@]);
                assert("END_DATA_FORMAT"@.len() != "BEGIN_DATA"@.len());
            }
        }
    }
    assert(lines[m + fl] =~= seq!["BEGIN_DATA"@]);
    assert(first_cell(lines[m + fl]) == "BEGIN_DATA"@);
    lemma_first_tag_pin(lines, "BEGIN_DATA"@, m + fl);
    let after = lines.skip(m + fl + 1);
    assert(after =~= rows + ed);
    assert(forall|k: int| 0 <= k < n ==> after[k] == #[trigger] rows[k]);
    assert forall|k: int| 0 <= k < n implies first_cell(#[trigger] after[k]) != "END_DATA"@ by {
        assert(rows[k] == row_cells(table_view(doc)[k]));
        assert(!is_bookend(row_cells(table_view(doc)[k])));
    }
    assert(after[n] =~= seq!["END_DATA"@]);
    assert(first_cell(after[n]) == "END_DATA"@);
    lemma_first_tag_pin(after, "END_DATA"@, n);
    assert(data_body(lines) matches Some(b) && b == after.take(n));
    assert(after.take(n) =~= rows);
    assert(n > 0);
    assert(spec_body(lines) == Ok::<Seq<Seq<Seq<char>>>, crate::error::Error>(rows));
}

/// The written rows read back as the table with canonical cell texts.
proof fn lemma_rt_rows_normalize(doc: Cgats)
    requires
        serializable(doc),
    ensures
        rows_match(
            table_view(doc).map_values(|row: Seq<ValueView>| row_cells(row)),
            doc.fields@.len() as int,
        ),
        table_view(doc).map_values(|row: Seq<ValueView>| row_cells(row)).map_values(
            |c: Seq<Seq<char>>| crate::data_vec::sample_of_cells(c),
        ) == table_view(doc).map_values(|row: Seq<ValueView>| normalize_row(row)),
{
    let rows = table_view(doc).map_values(|row: Seq<ValueView>| row_cells(row));
    let n = rows.len() as int;
    assert forall|k: int| 0 <= k < n implies (#[trigger] rows[k]).len() == doc.fields@.len() by {
        assert(rows[k] == row_cells(table_view(doc)[k]));
    }
    assert forall|k: int| 0 <= k < n implies crate::data_vec::sample_of_cells(#[trigger] rows[k])
        == normalize_row(table_view(doc)[k]) by {
        let row = table_view(doc)[k];
        assert(crate::data_map::sample_wf(row));
        assert forall|j: int| 0 <= j < row.len() implies value_of_text(
            #[trigger] row_cells(row)[j],
        ) == (ValueView { text: value_render(row[j]), number: row[j].number }) by {
            assert(value_wf(row[j]));
            lemma_value_round_trip(row[j]);
        }
        assert(crate::data_vec::sample_of_cells(row_cells(row)) =~= normalize_row(row));
    }
    assert(rows.map_values(|c: Seq<Seq<char>>| crate::data_vec::sample_of_cells(c))
        =~= table_view(doc).map_values(|row: Seq<ValueView>| normalize_row(row)));
}

/// Rereading collects exactly the original metadata: the toggle walks
/// past both written sections without picking anything up.
proof fn lemma_rt_meta_stage(doc: Cgats)
    requires
        serializable(doc),
    ensures
        meta_of(doc_lines(doc)) == doc.meta@,
{
    let meta = doc.meta@;
    let names = doc.fields@.map_values(|f: Field| field_name(f));
    let rows = table_view(doc).map_values(|row: Seq<ValueView>| row_cells(row));
    let is_cb = doc.vendor == Some(Vendor::ColorBurst);
    let fmt: Seq<Seq<Seq<char>>> = if is_cb {
        Seq::<Seq<Seq<char>>>::empty()
    } else {
        seq![seq!["BEGIN_DATA_FORMAT"@], names, seq!["END_DATA_FORMAT"@]]
    };
    let lines = doc_lines(doc);
    assert(first_cell(seq!["BEGIN_DATA_FORMAT"@]) == "BEGIN_DATA_FORMAT"@);
    assert(first_cell(seq!["END_DATA_FORMAT"@]) == "END_DATA_FORMAT"@);
    assert(first_cell(seq!["BEGIN_DATA"@]) == "BEGIN_DATA"@);
    assert(first_cell(seq!["END_DATA"@]) == "END_DATA"@);
    lemma_meta_plain(meta);
    if is_cb {
        assert(meta + fmt =~= meta);
        assert(meta_of(meta + fmt) == meta && toggle_after(meta + fmt));
    } else {
        lemma_meta_bookend(meta, seq!["BEGIN_DATA_FORMAT"@]);
        assert(meta.push(seq!["BEGIN_DATA_FORMAT"@]) =~= meta + seq![seq!["BEGIN_DATA_FORMAT"@]]);
        assert(!is_bookend(names)) by {
            lemma_field_name_token(doc.fields@[0]);
            assert(doc.fields@.len() > 0);
            assert(first_cell(names) == field_name(doc.fields@[0]));
        }
        lemma_meta_skip_one(meta + seq![seq!["BEGIN_DATA_FORMAT"@]], names);
        assert((meta + seq![seq!["BEGIN_DATA_FORMAT"@]]).push(names) =~= meta + seq![
            seq!["BEGIN_DATA_FORMAT"@],
        ] + seq![names]);
        lemma_meta_bookend(meta + seq![seq!["BEGIN_DATA_FORMAT"@]] + seq![names], seq![
            "END_DATA_FORMAT"@,
        ]);
        assert((meta + seq![seq!["BEGIN_DATA_FORMAT"@]] + seq![names]).push(
            seq!["END_DATA_FORMAT"@],
        ) =~= meta + fmt);
        assert(meta_of(meta + fmt) == meta && toggle_after(meta + fmt));
    }
    lemma_meta_bookend(meta + fmt, seq!["BEGIN_DATA"@]);
    assert((meta + fmt).push(seq!["BEGIN_DATA"@]) =~= meta + fmt + seq![seq!["BEGIN_DATA"@]]);
    assert forall|i: int| 0 <= i < rows.len() implies !is_bookend(#[trigger] rows[i]) by {
        assert(rows[i] == row_cells(table_view(doc)[i]));
    }
    lemma_meta_skip_section(meta + fmt + seq![seq!["BEGIN_DATA"@]], rows);
    lemma_meta_bookend(meta + fmt + seq![seq!["BEGIN_DATA"@]] + rows, seq!["END_DATA"@]);
    assert((meta + fmt + seq![seq!["BEGIN_DATA"@]] + rows).push(seq!["END_DATA"@]) =~= lines);
    assert(meta_of(lines) == meta);
}

/// The round trip of a whole document: what `format` writes, `parse`
/// reads back with the same field layout, the same metadata, and the
/// same sample table up to the canonical text of numeric cells — every
/// reading, and the verbatim text of every non-numeric cell, is kept.
pub proof fn lemma_parse_round_trip(doc: Cgats)
    requires
        serializable(doc),
    ensures
        ({
            let rs = records_of(render_doc(doc));
            &&& rs.len() > 0
            &&& meta_of(rs) == doc.meta@
            &&& spec_format(rs) == Ok::<Seq<Field>, crate::error::Error>(doc.fields@)
            &&& spec_body(rs) matches Ok(b) && rows_match(b, doc.fields@.len() as int)
                && b.map_values(|c: Seq<Seq<char>>| crate::data_vec::sample_of_cells(c))
                == table_view(doc).map_values(|row: Seq<ValueView>| normalize_row(row))
        }),
{
    let lines = doc_lines(doc);
    lemma_render_doc_as_recs(doc);
    assert forall|i: int| 0 <= i < lines.len() implies line_ok(#[trigger] lines[i]) by {
        lemma_doc_line_ok(doc, i);
    }
    lemma_records_render_recs(lines);
    assert(records_of(render_doc(doc)) == lines);
    assert(lines.len() > 0) by {
        assert(lines =~= doc.meta@ + (if doc.vendor == Some(Vendor::ColorBurst) {
            Seq::<Seq<Seq<char>>>::empty()
        } else {
            seq![
                seq!["BEGIN_DATA_FORMAT"@],
                doc.fields@.map_values(|f: Field| field_name(f)),
                seq!["END_DATA_FORMAT"@],
            ]
        }) + seq![seq!["BEGIN_DATA"@]] + table_view(doc).map_values(
            |row: Seq<ValueView>| row_cells(row),
        ) + seq![seq!["END_DATA"@]]);
    }
    lemma_rt_format_stage(doc);
    lemma_rt_body_stage(doc);
    lemma_rt_rows_normalize(doc);
    lemma_rt_meta_stage(doc);
}

/// Every record the writer produces is well-formed.
proof fn lemma_doc_line_ok(doc: Cgats, i: int)
    requires
        serializable(doc),
        0 <= i < doc_lines(doc).len(),
    ensures
        line_ok(doc_lines(doc)[i]),
{
    reveal_strlit("BEGIN_DATA_FORMAT");
    reveal_strlit("END_DATA_FORMAT");
    reveal_strlit("BEGIN_DATA");
    reveal_strlit("END_DATA");
    let meta = doc.meta@;
    let names = doc.fields@.map_values(|f: Field| field_name(f));
    let rows = table_view(doc).map_values(|row: Seq<ValueView>| row_cells(row));
    let is_cb = doc.vendor == Some(Vendor::ColorBurst);
    let fmt: Seq<Seq<Seq<char>>> = if is_cb {
        Seq::<Seq<Seq<char>>>::empty()
    } else {
        seq![seq!["BEGIN_DATA_FORMAT"@], names, seq!["END_DATA_FORMAT"@]]
    };
    let lines = doc_lines(doc);
    let m = meta.len() as int;
    let fl = fmt.len() as int;
    let n = rows.len() as int;
    assert(lines =~= meta + fmt + seq![seq!["BEGIN_DATA"@]] + rows + seq![seq!["END_DATA"@]]);
    assert(cell_ok("BEGIN_DATA_FORMAT"@));
    assert(cell_ok("END_DATA_FORMAT"@));
    assert(cell_ok("BEGIN_DATA"@));
    assert(cell_ok("END_DATA"@));
    if i < m {
        assert(lines[i] == meta[i]);
    } else if i < m + fl {
        if i == m {
            assert(lines[i] =~= seq!["BEGIN_DATA_FORMAT"@]);
        } else if i == m + 1 {
            assert(lines[i] == names);
            assert(names.len() == doc.fields@.len());
            assert forall|j: int| 0 <= j < names.len() implies cell_ok(#[trigger] names[j]) by {
                lemma_field_name_token(doc.fields@[j]);
            }
        } else {
            assert(lines[i] =~= seq!["END_DATA_FORMAT"@]);
        }
    } else if i == m + fl {
        assert(lines[i] =~= seq!["BEGIN_DATA"@]);
    } else if i < m + fl + 1 + n {
        let k = i - m - fl - 1;
        assert(lines[i] == rows[k]);
        let row = table_view(doc)[k];
        assert(rows[k] == row_cells(row));
        assert(row.len() == doc.fields@.len());
        assert(crate::data_map::sample_wf(row));
        assert forall|j: int| 0 <= j < row_cells(row).len() implies cell_ok(
            #[trigger] row_cells(row)[j],
        ) by {
            assert(value_wf(row[j]));
            lemma_value_round_trip(row[j]);
        }
    } else {
        assert(lines[i] =~= seq!["END_DATA"@]);
    }
}


} // verus!
