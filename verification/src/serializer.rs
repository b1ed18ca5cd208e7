//! Writing a settings record as configuration text.
//!
//! The text has one line for each row of the layout, with a line feed
//! between each two lines and none after the last. A line is indented by
//! four spaces for each block that it stands in. The line of a field is the
//! field's name, ` = ` and the text of its value.
use crate::fields::{Field, Value};
use crate::layout::{layout_row, row_at, Row, ROW_COUNT};
use crate::settings::HyprlandSettings;
use crate::text::join_lines;
use vstd::prelude::*;

verus! {

/// The indentation of a line that stands in `depth` blocks.
pub open spec fn indent(depth: nat) -> Seq<char> {
    Seq::new(4 * depth, |i: int| ' ')
}

/// The line that `row` comes to for `record`.
pub open spec fn row_text(row: Row, record: Map<Field, Value>) -> Seq<char> {
    match row {
        Row::Blank => Seq::<char>::empty(),
        Row::Open(section) => indent(section.parent().depth()) + section.name() + " {"@,
        Row::Close(section) => indent(section.parent().depth()) + "}"@,
        Row::Entry(field) => indent(field.section().depth()) + field.name() + " = "@
            + record[field].shown(),
    }
}

/// The lines that `record` is written as.
pub open spec fn rendered_rows(record: Map<Field, Value>) -> Seq<Seq<char>> {
    Seq::new(ROW_COUNT as nat, |i: int| row_text(layout_row(i as usize), record))
}

/// The configuration text that `record` is written as.
pub open spec fn rendered(record: Map<Field, Value>) -> Seq<char> {
    join_lines(rendered_rows(record))
}

/// Appends the indentation of a line that stands in `depth` blocks.
pub fn push_indent(out: &mut String, depth: usize)
    ensures
        final(out)@ == old(out)@ + indent(depth as nat),
{
    let mut d: usize = 0;
    proof {
        assert(out@ + indent(0) =~= out@);
    }
    while d < depth
        invariant
            d <= depth,
            out@ == old(out)@ + indent(d as nat),
        decreases depth - d,
    {
        let ghost before = out@;
        out.append("    ");
        proof {
            reveal_strlit("    ");
            assert(before + "    "@ =~= old(out)@ + indent((d + 1) as nat));
        }
        d = d + 1;
    }
}

/// Appends the line that `row` comes to for `settings`.
pub fn push_row(out: &mut String, settings: &HyprlandSettings, row: Row)
    ensures
        final(out)@ == old(out)@ + row_text(row, settings@),
{
    match row {
        Row::Blank => {
            assert(out@ + Seq::<char>::empty() =~= out@);
        },
        Row::Open(section) => {
            push_indent(out, section.outer().level());
            out.append(section.block_name());
            out.append(" {");
            assert(out@ =~= old(out)@ + row_text(row, settings@));
        },
        Row::Close(section) => {
            push_indent(out, section.outer().level());
            out.append("}");
            assert(out@ =~= old(out)@ + row_text(row, settings@));
        },
        Row::Entry(field) => {
            push_indent(out, field.section_of().level());
            out.append(field.name_str());
            out.append(" = ");
            settings.push_value(out, field);
            assert(out@ =~= old(out)@ + row_text(row, settings@));
        },
    }
}

/// The configuration text that `settings` is written as. The text of
/// each value is written as it is: a record that is to be read back
/// unchanged holds no line feed in a text.
pub fn render_settings(settings: &HyprlandSettings) -> (content: String)
    ensures
        content@ == rendered(settings@),
{
    let mut out = String::new();
    let ghost rows = rendered_rows(settings@);
    let mut i: usize = 0;
    proof {
        assert(rows.take(0) =~= Seq::<Seq<char>>::empty());
    }
    while i < ROW_COUNT
        invariant
            i <= ROW_COUNT,
            rows == rendered_rows(settings@),
            out@ == join_lines(rows.take(i as int)),
        decreases ROW_COUNT - i,
    {
        if i > 0 {
            out.append("\n");
        }
        push_row(&mut out, settings, row_at(i));
        proof {
            reveal_strlit("\n");
            let more = rows.take(i + 1);
            assert(more.drop_last() =~= rows.take(i as int));
            assert(more.last() == row_text(layout_row(i), settings@));
            if i == 0 {
                assert(Seq::<char>::empty() + more[0] =~= more[0]);
            } else {
                assert("\n"@ =~= seq!['\n']);
            }
        }
        i = i + 1;
    }
    proof {
        assert(rows.take(ROW_COUNT as int) =~= rows);
    }
    out
}

} // verus!
