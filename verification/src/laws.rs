//! What holds of loading and writing taken together.
//!
//! [`law_reload`] is the law of the two: a record that is written and
//! loaded again comes back unchanged. The laws before it say what single
//! lines do, and that each kind of value is read back from its text.
use crate::fields::{
    default_settings, lemma_key_word, lemma_name_plain, lemma_named_once, Field, Kind, Value,
};
use crate::layout::{layout_row, lemma_layout, lemma_row_of, place, row_of, Row, ROW_COUNT};
use crate::loader::{
    applied, assignment, blocks_after, blocks_step, closes, last_text, lemma_last_set,
    lemma_loaded_nothing, lemma_loaded_push, lemma_loaded_sound, lemma_never_set, lemma_some_set,
    lemma_text_from_line, loaded, loaded_value, opened, sets, sets_at, text_of,
};
use crate::sections::{lemma_path_of_parent, lemma_section_name_plain, Section};
use crate::serializer::{indent, rendered, rendered_rows, row_text};
use crate::settings::{lemma_default_ratios, HyprlandSettings};
use crate::text::{
    first_index, is_space, lacks, lemma_first_index, lemma_first_index_found,
    lemma_lines_lack_feeds, lemma_plain_word, lemma_trimmed_lacks, lemma_trimmed_twice, lemma_split_append, lemma_split_join,
    lemma_split_single, lemma_trim_end_pad, lemma_trim_start_pad, lemma_trimmed_already,
    lemma_trimmed_has, split_lines, trimmed, word,
};
use crate::values::{
    count_of, decimal_text, flag_of, flag_text, is_digit, is_ratio_text,
    lemma_decimal_text_digits, lemma_decimal_text_value, lemma_ratio_text_plain,
    lemma_ratio_text_trimmed,
};
use vstd::prelude::*;

verus! {

/// Whether the text that stands for `value` is free of line feeds.
pub open spec fn on_one_line(value: Value) -> bool {
    lacks(value.shown(), '\n')
}

/// Loading a text in which no line sets any field gives the defaults.
pub proof fn law_nothing_set_gives_defaults(text: Seq<char>)
    requires
        forall|i: int, f: Field|
            0 <= i < split_lines(text).len() ==> !#[trigger] sets_at(split_lines(text), i, f),
    ensures
        loaded(text) == default_settings(),
{
    let lines = split_lines(text);
    assert forall|f: Field| loaded_value(lines, f) == f.default_value() by {
        lemma_never_set(lines, f);
    }
    assert(loaded(text) =~= default_settings());
}

/// Loading gives a field the value that the last line to set it spells:
/// earlier lines for the same field count for nothing, and lines for other
/// fields leave it alone.
pub proof fn law_last_line_decides(text: Seq<char>, at: int, field: Field)
    requires
        0 <= at < split_lines(text).len(),
        sets_at(split_lines(text), at, field),
        forall|i: int|
            at < i < split_lines(text).len() ==> !sets_at(split_lines(text), i, field),
    ensures
        loaded(text)[field] == field.decoded(text_of(split_lines(text)[at])),
{
    lemma_last_set(split_lines(text), at, field);
}

/// A text that spells no value of a field's kind gives the field its
/// default. Free text is always a value of its kind.
pub proof fn law_malformed_gives_default(field: Field, raw: Seq<char>)
    requires
        match field.kind() {
            Kind::Text => false,
            Kind::Flag => flag_of(raw) is None,
            Kind::Count => count_of(raw) is None,
            Kind::Ratio => !is_ratio_text(raw),
        },
    ensures
        field.decoded(raw) == field.default_value(),
{
}

/// The default of each field is a value of the field's kind, and so is
/// whatever a text gives the field.
pub proof fn law_values_have_their_kind(field: Field, raw: Seq<char>)
    ensures
        match field.kind() {
            Kind::Text => field.default_value() is Text && field.decoded(raw) is Text,
            Kind::Flag => field.default_value() is Flag && field.decoded(raw) is Flag,
            Kind::Count => field.default_value() is Count && field.decoded(raw) is Count,
            Kind::Ratio => field.default_value() is Ratio && field.decoded(raw) is Ratio,
        },
{
}

/// A line made of a word, ` = ` and a text, behind any indentation, assigns
/// the trimmed text to the word, whatever the text holds: the line is cut
/// at its first `=`.
pub proof fn lemma_entry_line(depth: nat, name: Seq<char>, value: Seq<char>)
    requires
        word(name),
    ensures
        assignment(indent(depth) + name + " = "@ + value) == Some((name, trimmed(value))),
        opened(indent(depth) + name + " = "@ + value) is None,
        !closes(indent(depth) + name + " = "@ + value),
{
    reveal_strlit(" = ");
    let pad = indent(depth);
    let head = pad + name + seq![' '];
    let tail = seq![' '] + value;
    let line = pad + name + " = "@ + value;
    assert(line =~= head + seq!['='] + tail);
    let at = head.len() as int;
    assert(line[at] == '=');
    lemma_first_index(line, '=', at);
    assert(line.take(at) =~= head);
    assert(line.skip(at + 1) =~= tail);
    assert(head =~= pad + (name + seq![' ']));
    lemma_trim_start_pad(pad, name + seq![' ']);
    assert((name + seq![' '])[0] == name[0]);
    lemma_trim_end_pad(name, seq![' ']);
    lemma_trim_start_pad(seq![' '], value);
    lemma_trimmed_has(line, '=');
    let t = trimmed(line);
    if t == seq!['}'] {
        let i = choose|i: int| 0 <= i < t.len() && t[i] == '=';
        assert(t[i] == '}');
    }
}

/// A line added to a text, made of a field's key, ` = ` and a value,
/// overrides whatever the text said of the field and leaves every other
/// field as the text had it, whatever blocks the text left open.
pub proof fn law_appended_line(text: Seq<char>, field: Field, value: Seq<char>)
    requires
        lacks(value, '\n'),
    ensures
        loaded(text + seq!['\n'] + field.key() + " = "@ + value) == loaded(text).insert(
            field,
            field.decoded(trimmed(value)),
        ),
{
    reveal_strlit(" = ");
    let line = field.key() + " = "@ + value;
    let blocks = blocks_after(split_lines(text));
    lemma_key_word(field);
    lemma_entry_line(0, field.key(), value);
    assert(indent(0) + field.key() =~= field.key());
    assert(lacks(line, '\n'));
    lemma_split_append(text, line);
    assert(text + seq!['\n'] + field.key() + " = "@ + value =~= text + seq!['\n'] + line);
    lemma_loaded_push(split_lines(text), line);
    assert forall|g: Field| sets(blocks, line, g) == (g == field) by {
        if g.named(blocks, field.key()) {
            lemma_named_once(blocks, field.key(), g, field);
        }
    }
    assert(applied(loaded(text), blocks, line) =~= loaded(text).insert(
        field,
        field.decoded(trimmed(value)),
    ));
}

/// A text of one line, made of a field's key, ` = ` and a value, gives the
/// defaults with that one field overridden.
pub proof fn law_single_line(field: Field, value: Seq<char>)
    requires
        lacks(value, '\n'),
    ensures
        loaded(field.key() + " = "@ + value) == default_settings().insert(
            field,
            field.decoded(trimmed(value)),
        ),
{
    reveal_strlit(" = ");
    let line = field.key() + " = "@ + value;
    let blocks = Seq::<Seq<char>>::empty();
    lemma_key_word(field);
    lemma_entry_line(0, field.key(), value);
    assert(indent(0) + field.key() =~= field.key());
    assert(lacks(line, '\n'));
    lemma_split_single(line);
    assert(seq![line] =~= Seq::<Seq<char>>::empty().push(line));
    lemma_loaded_nothing();
    lemma_loaded_push(Seq::<Seq<char>>::empty(), line);
    assert forall|g: Field| sets(blocks, line, g) == (g == field) by {
        if g.named(blocks, field.key()) {
            lemma_named_once(blocks, field.key(), g, field);
        }
    }
    assert(applied(default_settings(), blocks, line) =~= default_settings().insert(
        field,
        field.decoded(trimmed(value)),
    ));
}

/// A count that is written is read back as itself.
pub proof fn law_count_survives(n: u32)
    ensures
        trimmed(decimal_text(n as nat)) == decimal_text(n as nat),
        count_of(decimal_text(n as nat)) == Some(n),
{
    let digits = decimal_text(n as nat);
    lemma_decimal_text_digits(n as nat);
    lemma_decimal_text_value(n as nat);
    assert(is_digit(digits[0]));
    assert(is_digit(digits.last()));
    lemma_trimmed_already(digits);
}

/// A flag that is written is read back as itself.
pub proof fn law_flag_survives(b: bool)
    ensures
        trimmed(flag_text(b)) == flag_text(b),
        flag_of(flag_text(b)) == Some(b),
{
    reveal_strlit("true");
    reveal_strlit("false");
    lemma_trimmed_already(flag_text(b));
}

/// A value that is written is read back as itself: what a field is given
/// by the text that stands for a value of its kind is that value. Free text
/// has to be trimmed for that, and a ratio the text of a number.
pub proof fn law_value_survives(field: Field, value: Value)
    requires
        match value {
            Value::Text(text) => field.kind() == Kind::Text && trimmed(text) == text,
            Value::Flag(_) => field.kind() == Kind::Flag,
            Value::Count(_) => field.kind() == Kind::Count,
            Value::Ratio(text) => field.kind() == Kind::Ratio && is_ratio_text(text),
        },
    ensures
        field.decoded(trimmed(value.shown())) == value,
{
    law_values_have_their_kind(field, value.shown());
    match value {
        Value::Text(_) => {},
        Value::Flag(b) => law_flag_survives(b),
        Value::Count(n) => law_count_survives(n),
        Value::Ratio(text) => lemma_ratio_text_trimmed(text),
    }
}

/// The text that stands for a flag, a count or a sound ratio is free of
/// line feeds.
pub proof fn lemma_values_on_one_line(value: Value)
    requires
        value.sound(),
    ensures
        !(value is Text) ==> on_one_line(value),
{
    reveal_strlit("true");
    reveal_strlit("false");
    match value {
        Value::Count(n) => lemma_decimal_text_digits(n as nat),
        Value::Ratio(text) => lemma_ratio_text_plain(text),
        _ => {},
    }
}

/// A value that is written on a line of its own, behind the key of its
/// field, is read back as itself, and every other field has its default.
pub proof fn law_line_survives(field: Field, value: Value)
    requires
        match value {
            Value::Text(text) => field.kind() == Kind::Text && trimmed(text) == text && lacks(
                text,
                '\n',
            ),
            Value::Flag(_) => field.kind() == Kind::Flag,
            Value::Count(_) => field.kind() == Kind::Count,
            Value::Ratio(text) => field.kind() == Kind::Ratio && is_ratio_text(text),
        },
    ensures
        loaded(field.key() + " = "@ + value.shown()) == default_settings().insert(field, value),
{
    law_value_survives(field, value);
    lemma_values_on_one_line(value);
    law_single_line(field, value.shown());
}

/// What each row of the layout does as a line: the row of a field assigns
/// the field's text to the field's name, a row that opens a block opens the
/// block of its section, and a row that closes one closes.
pub proof fn lemma_row_line(record: Map<Field, Value>, i: usize)
    requires
        i < ROW_COUNT,
    ensures
        match layout_row(i) {
            Row::Blank => assignment(row_text(layout_row(i), record)) is None && opened(
                row_text(layout_row(i), record),
            ) is None && !closes(row_text(layout_row(i), record)),
            Row::Open(s) => assignment(row_text(layout_row(i), record)) is None && opened(
                row_text(layout_row(i), record),
            ) == Some(s.name()),
            Row::Close(s) => assignment(row_text(layout_row(i), record)) is None && opened(
                row_text(layout_row(i), record),
            ) is None && closes(row_text(layout_row(i), record)),
            Row::Entry(f) => assignment(row_text(layout_row(i), record)) == Some(
                (f.name(), trimmed(record[f].shown())),
            ) && opened(row_text(layout_row(i), record)) is None && !closes(
                row_text(layout_row(i), record),
            ),
        },
{
    lemma_layout(i);
    let line = row_text(layout_row(i), record);
    match layout_row(i) {
        Row::Blank => {
            assert(trimmed(line) =~= Seq::<char>::empty());
        },
        Row::Open(s) => {
            reveal_strlit(" {");
            lemma_section_name_plain(s);
            let pad = indent(s.parent().depth());
            let name = s.name();
            let rest = name + " {"@;
            assert(line =~= pad + rest);
            assert(lacks(line, '='));
            lemma_trim_start_pad(pad, rest);
            assert(rest[0] == name[0]);
            assert(rest.last() == '{');
            assert(trimmed(line) == rest);
            assert(rest.drop_last() =~= name + seq![' ']);
            assert((name + seq![' '])[0] == name[0]);
            lemma_trim_end_pad(name, seq![' ']);
            assert(trimmed(name + seq![' ']) == name);
        },
        Row::Close(s) => {
            reveal_strlit("}");
            let pad = indent(s.parent().depth());
            assert(lacks(line, '='));
            lemma_trim_start_pad(pad, "}"@);
            assert("}"@ =~= seq!['}']);
            assert(trimmed(line) == seq!['}']);
        },
        Row::Entry(f) => {
            lemma_name_plain(f);
            lemma_plain_word(f.name());
            lemma_entry_line(f.section().depth(), f.name(), record[f].shown());
        },
    }
}

/// Above each row of the written text the blocks of the row's section are
/// open, no more and no less.
pub proof fn lemma_blocks_at_row(record: Map<Field, Value>, i: usize)
    requires
        i <= ROW_COUNT,
    ensures
        blocks_after(rendered_rows(record).take(i as int)) == place(i).path(),
    decreases i,
{
    let rows = rendered_rows(record);
    if i == 0 {
        lemma_layout(0);
        assert(rows.take(0) =~= Seq::<Seq<char>>::empty());
    } else {
        let j = (i - 1) as usize;
        lemma_blocks_at_row(record, j);
        lemma_layout(j);
        lemma_row_line(record, j);
        let upto = rows.take(i as int);
        assert(upto.drop_last() =~= rows.take(j as int));
        assert(upto.last() == row_text(layout_row(j), record));
        let before = place(j).path();
        assert(blocks_after(upto) == blocks_step(before, upto.last()));
        match layout_row(j) {
            Row::Open(s) => {
                lemma_path_of_parent(s);
            },
            Row::Close(s) => {
                lemma_path_of_parent(s);
                assert(s.path().drop_last() =~= s.parent().path());
            },
            _ => {},
        }
    }
}

/// A row of the written text sets a field exactly where it is the row of
/// that field.
pub proof fn lemma_row_sets(record: Map<Field, Value>, i: usize, field: Field)
    requires
        i < ROW_COUNT,
    ensures
        sets_at(rendered_rows(record), i as int, field) == (layout_row(i) == Row::Entry(field)),
{
    lemma_blocks_at_row(record, i);
    lemma_layout(i);
    lemma_row_line(record, i);
    let rows = rendered_rows(record);
    assert(rows[i as int] == row_text(layout_row(i), record));
    match layout_row(i) {
        Row::Entry(g) => {
            assert(g.named(place(i).path(), g.name()));
            if field.named(place(i).path(), g.name()) {
                lemma_named_once(place(i).path(), g.name(), field, g);
            }
        },
        _ => {},
    }
}

/// A row is free of line feeds where the text of its value is.
pub proof fn lemma_row_on_one_line(record: Map<Field, Value>, i: usize)
    requires
        i < ROW_COUNT,
        forall|f: Field| on_one_line(#[trigger] record[f]),
    ensures
        lacks(row_text(layout_row(i), record), '\n'),
{
    reveal_strlit(" = ");
    reveal_strlit(" {");
    reveal_strlit("}");
    match layout_row(i) {
        Row::Entry(f) => {
            lemma_name_plain(f);
            assert(on_one_line(record[f]));
        },
        Row::Open(s) => {
            lemma_layout(i);
            lemma_section_name_plain(s);
        },
        _ => {},
    }
}

/// The lines of the text that a record is written as are the rows of the
/// layout, where the text of each value is free of line feeds.
pub proof fn lemma_rendered_lines(record: Map<Field, Value>)
    requires
        forall|f: Field| on_one_line(#[trigger] record[f]),
    ensures
        split_lines(rendered(record)) == rendered_rows(record),
{
    let rows = rendered_rows(record);
    assert forall|i: int| 0 <= i < rows.len() implies lacks(#[trigger] rows[i], '\n') by {
        lemma_row_on_one_line(record, i as usize);
    }
    lemma_split_join(rows);
}

/// What loading gives for the text that a record is written as: for each
/// field what the trimmed text of its value spells.
pub proof fn lemma_reloaded_value(record: Map<Field, Value>, field: Field)
    requires
        forall|f: Field| on_one_line(#[trigger] record[f]),
    ensures
        loaded(rendered(record))[field] == field.decoded(trimmed(record[field].shown())),
{
    lemma_rendered_lines(record);
    let rows = rendered_rows(record);
    lemma_row_of(field);
    lemma_row_sets(record, row_of(field), field);
    lemma_some_set(rows, row_of(field) as int, field);
    let at = lemma_text_from_line(rows, field);
    lemma_row_sets(record, at as usize, field);
    lemma_row_line(record, at as usize);
    assert(rows[at] == row_text(layout_row(at as usize), record));
}

/// Whether `record` has a value of its kind for each field, with each ratio
/// the text of a number and each free text trimmed and free of line feeds.
pub open spec fn tidy(record: Map<Field, Value>) -> bool {
    forall|f: Field|
        record.dom().contains(f) && match #[trigger] record[f] {
            Value::Text(text) => f.kind() == Kind::Text && lacks(text, '\n') && trimmed(text)
                == text,
            Value::Flag(_) => f.kind() == Kind::Flag,
            Value::Count(_) => f.kind() == Kind::Count,
            Value::Ratio(text) => f.kind() == Kind::Ratio && is_ratio_text(text),
        }
}

/// A tidy record that is written and loaded again comes back unchanged.
pub proof fn law_reload_record(record: Map<Field, Value>)
    requires
        tidy(record),
    ensures
        loaded(rendered(record)) == record,
{
    let back = loaded(rendered(record));
    assert forall|f: Field| on_one_line(#[trigger] record[f]) by {
        lemma_values_on_one_line(record[f]);
    }
    assert forall|f: Field| #[trigger] record.dom().contains(f) && back[f] == record[f] by {
        assert(record[f] == record[f]);
        lemma_reloaded_value(record, f);
        law_value_survives(f, record[f]);
    }
    assert(back =~= record);
}

/// A record that is written and loaded again comes back unchanged, where
/// its ratios hold the text of a number and its free texts are trimmed and
/// free of line feeds.
pub proof fn law_reload(settings: HyprlandSettings)
    requires
        settings.well_formed(),
        forall|f: Field|
            settings@[f] is Text ==> lacks((#[trigger] settings@[f]).shown(), '\n') && trimmed(
                settings@[f].shown(),
            ) == settings@[f].shown(),
    ensures
        loaded(rendered(settings@)) == settings@,
{
    let record = settings@;
    assert forall|f: Field|
        record.dom().contains(f) && match #[trigger] record[f] {
            Value::Text(text) => f.kind() == Kind::Text && lacks(text, '\n') && trimmed(text)
                == text,
            Value::Flag(_) => f.kind() == Kind::Flag,
            Value::Count(_) => f.kind() == Kind::Count,
            Value::Ratio(text) => f.kind() == Kind::Ratio && is_ratio_text(text),
        } by {
        settings.lemma_value_kinds(f);
        assert(record[f].sound());
        assert(record[f] is Text ==> lacks(record[f].shown(), '\n'));
    }
    law_reload_record(record);
}

/// The text that stands for a default is trimmed and free of line feeds.
pub proof fn lemma_default_tidy(field: Field)
    ensures
        on_one_line(field.default_value()),
        trimmed(field.default_value().shown()) == field.default_value().shown(),
{
    reveal_strlit("monitor=,preferred,auto,1");
    reveal_strlit("us");
    reveal_strlit("rgba(0DB7D4FF)");
    reveal_strlit("rgba(31313600)");
    reveal_strlit("dwindle");
    reveal_strlit("(foot|kitty|allacritty|Alacritty)");
    reveal_strlit("rgb(000000)");
    reveal_strlit("first 1");
    lemma_default_ratios();
    let value = field.default_value();
    assert(value.sound());
    lemma_values_on_one_line(value);
    law_values_have_their_kind(field, value.shown());
    match value {
        Value::Text(text) => lemma_trimmed_already(text),
        Value::Flag(b) => law_flag_survives(b),
        Value::Count(n) => law_count_survives(n),
        Value::Ratio(text) => lemma_ratio_text_trimmed(text),
    }
}

/// Whatever the text, the record that it spells is tidy.
pub proof fn law_loaded_is_tidy(text: Seq<char>)
    ensures
        tidy(loaded(text)),
{
    let lines = split_lines(text);
    assert forall|f: Field|
        loaded(text).dom().contains(f) && match #[trigger] loaded(text)[f] {
            Value::Text(t) => f.kind() == Kind::Text && lacks(t, '\n') && trimmed(t) == t,
            Value::Flag(_) => f.kind() == Kind::Flag,
            Value::Count(_) => f.kind() == Kind::Count,
            Value::Ratio(t) => f.kind() == Kind::Ratio && is_ratio_text(t),
        } by {
        lemma_default_tidy(f);
        lemma_loaded_sound(lines, f);
        if last_text(lines, f) is Some {
            let at = lemma_text_from_line(lines, f);
            let line = lines[at];
            let raw = text_of(line);
            law_values_have_their_kind(f, raw);
            lemma_lines_lack_feeds(text, at);
            lemma_first_index_found(line, '=');
            let cut = first_index(line, '=');
            let rest = line.skip(cut + 1);
            assert forall|i: int| 0 <= i < rest.len() implies rest[i] != '\n' by {
                assert(rest[i] == line[i + cut + 1]);
            }
            lemma_trimmed_lacks(rest, '\n');
            lemma_trimmed_twice(rest);
        } else {
            law_values_have_their_kind(f, Seq::<char>::empty());
        }
    }
}

/// What was loaded can be written and loaded again, and comes back
/// unchanged.
pub proof fn law_loaded_reloads(text: Seq<char>)
    ensures
        loaded(rendered(loaded(text))) == loaded(text),
{
    law_loaded_is_tidy(text);
    law_reload_record(loaded(text));
}

} // verus!
