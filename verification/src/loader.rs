//! Reading a configuration text into a settings record.
//!
//! The text is read line by line; the lines are what stands between line
//! feeds, and a carriage return at the end of one is white space like any
//! other. A line that holds a `=` assigns: what stands before the first
//! `=`, without the white space around it, is the key, and what stands
//! after it, trimmed alike, is the text. A line without `=` that ends in
//! `{` opens a block of the name before the `{`, and a line that is `}`
//! alone closes the innermost open block.
//!
//! A line sets a field in one of two ways. Its key is the key of the
//! field, as in `general:gaps_in = 5`, wherever the line stands; or its key
//! is the name of the field and the line stands in the blocks of the
//! field's section, as `gaps_in = 5` does inside `general { }`. Every other
//! line sets nothing. Where several lines set one field, the last of them
//! decides; a field that no line sets has its default.
use crate::fields::{default_settings, field_of_key, lemma_named_once, Field, Value};
use crate::sections::Blocks;
use crate::settings::{lemma_default_ratios, HyprlandSettings};
use crate::text::{
    copy_range, first_index, lacks, lemma_first_index, lemma_split_lines_extend,
    lemma_split_lines_feed, line_end, split_lines, to_chars, trim_bounds, trimmed,
};
use vstd::prelude::*;

verus! {

/// The key and the text that `line` assigns to it, where `line` holds a
/// `=`: what stands before the first `=` and what stands after it, both
/// trimmed.
pub open spec fn assignment(line: Seq<char>) -> Option<(Seq<char>, Seq<char>)> {
    if lacks(line, '=') {
        None
    } else {
        let at = first_index(line, '=');
        Some((trimmed(line.take(at)), trimmed(line.skip(at + 1))))
    }
}

/// The text that `line` assigns, where it assigns one.
pub open spec fn text_of(line: Seq<char>) -> Seq<char> {
    match assignment(line) {
        Some((_, raw)) => raw,
        None => Seq::<char>::empty(),
    }
}

/// The name of the block that `line` opens, where it opens one: the line
/// holds no `=` and its last character, white space aside, is `{`.
pub open spec fn opened(line: Seq<char>) -> Option<Seq<char>> {
    let t = trimmed(line);
    if lacks(line, '=') && t.len() > 0 && t.last() == '{' {
        Some(trimmed(t.drop_last()))
    } else {
        None
    }
}

/// Whether `line` closes a block: it is `}`, white space aside.
pub open spec fn closes(line: Seq<char>) -> bool {
    trimmed(line) == seq!['}']
}

/// The blocks that are open after `line`, where `blocks` were open before
/// it. A `}` with no block open changes nothing.
pub open spec fn blocks_step(blocks: Seq<Seq<char>>, line: Seq<char>) -> Seq<Seq<char>> {
    match opened(line) {
        Some(name) => blocks.push(name),
        None => if closes(line) && blocks.len() > 0 {
            blocks.drop_last()
        } else {
            blocks
        },
    }
}

/// The blocks that are open after `lines`.
pub open spec fn blocks_after(lines: Seq<Seq<char>>) -> Seq<Seq<char>>
    decreases lines.len(),
{
    if lines.len() == 0 {
        Seq::<Seq<char>>::empty()
    } else {
        blocks_step(blocks_after(lines.drop_last()), lines.last())
    }
}

/// Whether `line`, inside the open blocks `blocks`, sets `field`.
pub open spec fn sets(blocks: Seq<Seq<char>>, line: Seq<char>, field: Field) -> bool {
    match assignment(line) {
        Some((key, _)) => field.named(blocks, key),
        None => false,
    }
}

/// Whether the line at place `i` of `lines` sets `field`.
pub open spec fn sets_at(lines: Seq<Seq<char>>, i: int, field: Field) -> bool {
    sets(blocks_after(lines.take(i)), lines[i], field)
}

/// The text that the last of `lines` to set `field` gives it.
pub open spec fn last_text(lines: Seq<Seq<char>>, field: Field) -> Option<Seq<char>>
    decreases lines.len(),
{
    if lines.len() == 0 {
        None
    } else if sets(blocks_after(lines.drop_last()), lines.last(), field) {
        Some(text_of(lines.last()))
    } else {
        last_text(lines.drop_last(), field)
    }
}

/// The value of `field` after `lines`.
pub open spec fn loaded_value(lines: Seq<Seq<char>>, field: Field) -> Value {
    match last_text(lines, field) {
        Some(raw) => field.decoded(raw),
        None => field.default_value(),
    }
}

/// The record that `lines` spell.
pub open spec fn loaded_from(lines: Seq<Seq<char>>) -> Map<Field, Value> {
    Map::new(|f: Field| true, |f: Field| loaded_value(lines, f))
}

/// The record that the configuration text `text` spells.
pub open spec fn loaded(text: Seq<char>) -> Map<Field, Value> {
    loaded_from(split_lines(text))
}

/// The record `record` after `line`, which stands inside the open blocks
/// `blocks`.
pub open spec fn applied(record: Map<Field, Value>, blocks: Seq<Seq<char>>, line: Seq<char>) -> Map<
    Field,
    Value,
> {
    Map::new(
        |f: Field| true,
        |f: Field|
            if sets(blocks, line, f) {
                f.decoded(text_of(line))
            } else {
                record[f]
            },
    )
}

/// One more line changes the record as `applied` says and the open blocks
/// as `blocks_step` says.
pub proof fn lemma_loaded_push(lines: Seq<Seq<char>>, line: Seq<char>)
    ensures
        loaded_from(lines.push(line)) == applied(loaded_from(lines), blocks_after(lines), line),
        blocks_after(lines.push(line)) == blocks_step(blocks_after(lines), line),
{
    let more = lines.push(line);
    assert(more.drop_last() =~= lines);
    assert(more.last() == line);
    assert(loaded_from(more) =~= applied(loaded_from(lines), blocks_after(lines), line));
}

/// No lines spell the record of defaults.
pub proof fn lemma_loaded_nothing()
    ensures
        loaded_from(Seq::<Seq<char>>::empty()) == default_settings(),
{
    assert(loaded_from(Seq::<Seq<char>>::empty()) =~= default_settings());
}

/// Whatever the text, each ratio of the record it spells holds the text of
/// a number.
pub proof fn lemma_loaded_sound(lines: Seq<Seq<char>>, field: Field)
    ensures
        loaded_value(lines, field).sound(),
{
    lemma_default_ratios();
    assert(field.default_value().sound());
}

/// The lines before the last set a field as they do without the last.
pub proof fn lemma_sets_at_init(lines: Seq<Seq<char>>, i: int, field: Field)
    requires
        0 <= i < lines.len() - 1,
    ensures
        sets_at(lines.drop_last(), i, field) == sets_at(lines, i, field),
{
    assert(lines.drop_last().take(i) =~= lines.take(i));
}

/// The last line sets a field inside the blocks that the lines before it
/// leave open.
pub proof fn lemma_sets_at_last(lines: Seq<Seq<char>>, field: Field)
    requires
        lines.len() > 0,
    ensures
        sets_at(lines, lines.len() - 1, field) == sets(
            blocks_after(lines.drop_last()),
            lines.last(),
            field,
        ),
{
    assert(lines.take(lines.len() - 1) =~= lines.drop_last());
}

/// A field that no line sets has no text from the lines.
pub proof fn lemma_never_set(lines: Seq<Seq<char>>, field: Field)
    requires
        forall|i: int| 0 <= i < lines.len() ==> !sets_at(lines, i, field),
    ensures
        last_text(lines, field) is None,
    decreases lines.len(),
{
    if lines.len() > 0 {
        let init = lines.drop_last();
        lemma_sets_at_last(lines, field);
        assert(!sets_at(lines, lines.len() - 1, field));
        assert forall|i: int| 0 <= i < init.len() implies !sets_at(init, i, field) by {
            lemma_sets_at_init(lines, i, field);
            assert(!sets_at(lines, i, field));
        }
        lemma_never_set(init, field);
    }
}

/// A field that a line sets has a text from the lines.
pub proof fn lemma_some_set(lines: Seq<Seq<char>>, at: int, field: Field)
    requires
        0 <= at < lines.len(),
        sets_at(lines, at, field),
    ensures
        last_text(lines, field) is Some,
    decreases lines.len(),
{
    lemma_sets_at_last(lines, field);
    if at < lines.len() - 1 {
        lemma_sets_at_init(lines, at, field);
        lemma_some_set(lines.drop_last(), at, field);
    }
}

/// A field has the text of the last line that sets it.
pub proof fn lemma_last_set(lines: Seq<Seq<char>>, at: int, field: Field)
    requires
        0 <= at < lines.len(),
        sets_at(lines, at, field),
        forall|i: int| at < i < lines.len() ==> !sets_at(lines, i, field),
    ensures
        last_text(lines, field) == Some(text_of(lines[at])),
    decreases lines.len(),
{
    lemma_sets_at_last(lines, field);
    if at < lines.len() - 1 {
        let init = lines.drop_last();
        assert(!sets_at(lines, lines.len() - 1, field));
        lemma_sets_at_init(lines, at, field);
        assert forall|i: int| at < i < init.len() implies !sets_at(init, i, field) by {
            lemma_sets_at_init(lines, i, field);
            assert(!sets_at(lines, i, field));
        }
        lemma_last_set(init, at, field);
    }
}

/// The text that the lines give a field is the text of one of the lines
/// that set it.
pub proof fn lemma_text_from_line(lines: Seq<Seq<char>>, field: Field) -> (at: int)
    requires
        last_text(lines, field) is Some,
    ensures
        0 <= at < lines.len(),
        sets_at(lines, at, field),
        last_text(lines, field) == Some(text_of(lines[at])),
    decreases lines.len(),
{
    lemma_sets_at_last(lines, field);
    if sets(blocks_after(lines.drop_last()), lines.last(), field) {
        lines.len() - 1
    } else {
        let at = lemma_text_from_line(lines.drop_last(), field);
        lemma_sets_at_init(lines, at, field);
        at
    }
}

/// The key and the text that `line` assigns to it, where `line` holds a
/// `=`.
pub fn split_assignment(line: &str) -> (r: Option<(&str, &str)>)
    ensures
        match r {
            Some((key, raw)) => assignment(line@) == Some((key@, raw@)),
            None => assignment(line@) is None,
        },
{
    let chars = to_chars(line);
    let n = chars.len();
    let mut at: usize = 0;
    while at < n
        invariant
            at <= n,
            n == chars.len(),
            forall|k: int| 0 <= k < at ==> chars@[k] != '=',
        ensures
            at <= n,
            forall|k: int| 0 <= k < at ==> chars@[k] != '=',
            at < n ==> chars@[at as int] == '=',
        decreases n - at,
    {
        if chars[at] == '=' {
            break ;
        }
        at = at + 1;
    }
    if at == n {
        return None;
    }
    let (key_from, key_to) = trim_bounds(&chars, 0, at);
    let (raw_from, raw_to) = trim_bounds(&chars, at + 1, n);
    proof {
        lemma_first_index(chars@, '=', at as int);
        assert(chars@.take(at as int) =~= chars@.subrange(0, at as int));
        assert(chars@.skip(at + 1) =~= chars@.subrange(at + 1, n as int));
    }
    Some((line.substring_char(key_from, key_to), line.substring_char(raw_from, raw_to)))
}

/// What a line does to the open blocks.
#[derive(Debug, Clone, PartialEq, Eq)]
pub enum Edge {
    /// It opens a block of this name.
    Open(Vec<char>),
    /// It closes the innermost open block.
    Close,
    /// It leaves the blocks as they are.
    Neither,
}

/// What `line` does to the open blocks.
pub fn block_edge(line: &str) -> (edge: Edge)
    ensures
        match edge {
            Edge::Open(name) => opened(line@) == Some(name@),
            Edge::Close => opened(line@) is None && closes(line@),
            Edge::Neither => opened(line@) is None && !closes(line@),
        },
{
    let chars = to_chars(line);
    let n = chars.len();
    let (from, to) = trim_bounds(&chars, 0, n);
    proof {
        assert(chars@.subrange(0, n as int) =~= chars@);
    }
    let ghost t = trimmed(line@);
    if to - from == 1 && chars[from] == '}' {
        assert(t =~= seq!['}']);
        return Edge::Close;
    }
    assert(t != seq!['}']) by {
        if t.len() == 1 {
            assert(t[0] == chars@[from as int]);
        }
    }
    if to == from || chars[to - 1] != '{' {
        return Edge::Neither;
    }
    assert(t.last() == '{');
    let mut i: usize = 0;
    while i < n
        invariant
            i <= n,
            n == chars.len(),
            forall|k: int| 0 <= k < i ==> chars@[k] != '=',
        ensures
            i <= n,
            forall|k: int| 0 <= k < i ==> chars@[k] != '=',
            i < n ==> chars@[i as int] == '=',
        decreases n - i,
    {
        if chars[i] == '=' {
            break ;
        }
        i = i + 1;
    }
    if i < n {
        return Edge::Neither;
    }
    let (name_from, name_to) = trim_bounds(&chars, from, to - 1);
    proof {
        assert(t.drop_last() =~= chars@.subrange(from as int, to - 1));
    }
    Edge::Open(copy_range(&chars, name_from, name_to))
}

impl Blocks {
    /// Takes up one line of a configuration text: a line that opens a block
    /// opens it, and one that closes a block closes the innermost.
    pub fn step(&mut self, line: &str)
        ensures
            final(self)@ == blocks_step(old(self)@, line@),
    {
        match block_edge(line) {
            Edge::Open(name) => self.open(name),
            Edge::Close => self.close(),
            Edge::Neither => {},
        }
    }
}

impl HyprlandSettings {
    /// Takes up one line of a configuration text, which stands inside the
    /// open blocks `blocks`: where the line sets a field, the field gets
    /// the value that the line's text spells.
    pub fn apply_line(&mut self, blocks: &Blocks, line: &str)
        ensures
            final(self)@ == applied(old(self)@, blocks@, line@),
            old(self).well_formed() ==> final(self).well_formed(),
    {
        match split_assignment(line) {
            Some((key, raw)) => {
                match field_of_key(blocks, key) {
                    Some(field) => {
                        self.assign(field, raw);
                        proof {
                            assert forall|g: Field| sets(blocks@, line@, g) == (g == field) by {
                                if g.named(blocks@, key@) {
                                    lemma_named_once(blocks@, key@, g, field);
                                }
                            }
                            assert(self@ =~= applied(old(self)@, blocks@, line@));
                        }
                    },
                    None => {
                        assert(self@ =~= applied(old(self)@, blocks@, line@));
                    },
                }
            },
            None => {
                assert(self@ =~= applied(old(self)@, blocks@, line@));
            },
        }
    }
}

/// The record that the configuration text `content` spells.
pub fn parse_settings(content: &str) -> (settings: HyprlandSettings)
    ensures
        settings@ == loaded(content@),
        settings.well_formed(),
{
    let chars = to_chars(content);
    let n = chars.len();
    let mut settings = HyprlandSettings::defaults();
    let mut blocks = Blocks::new();
    let mut start: usize = 0;
    let ghost mut done: Seq<Seq<char>> = Seq::empty();
    proof {
        lemma_loaded_nothing();
        assert(content@.take(0) =~= Seq::<char>::empty());
    }
    loop
        invariant_except_break
            start <= n,
            n == chars.len(),
            chars@ == content@,
            split_lines(content@.take(start as int)) == done.push(Seq::<char>::empty()),
            settings@ == loaded_from(done),
            blocks@ == blocks_after(done),
        ensures
            settings@ == loaded(content@),
        decreases n - start,
    {
        let end = line_end(&chars, start);
        let line = content.substring_char(start, end);
        proof {
            lemma_split_lines_extend(content@, start as int, end as int, done);
            lemma_loaded_push(done, line@);
        }
        settings.apply_line(&blocks, line);
        blocks.step(line);
        if end == n {
            proof {
                assert(content@.take(n as int) =~= content@);
            }
            break ;
        }
        proof {
            lemma_split_lines_feed(content@, end as int);
            done = done.push(line@);
        }
        start = end + 1;
    }
    proof {
        assert forall|f: Field| (#[trigger] settings@[f]).sound() by {
            lemma_loaded_sound(split_lines(content@), f);
        }
    }
    settings
}

} // verus!
