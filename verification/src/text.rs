//! Characters, white space and lines of a configuration text.
use vstd::prelude::*;

verus! {

/// Whether `c` is white space: the characters with Unicode's `White_Space`
/// property, which are the ones that trimming removes.
pub open spec fn is_space(c: char) -> bool {
    let n = c as u32;
    n == 0x20 || (0x09 <= n && n <= 0x0d) || n == 0x85 || n == 0xa0 || n == 0x1680 || (0x2000 <= n
        && n <= 0x200a) || n == 0x2028 || n == 0x2029 || n == 0x202f || n == 0x205f || n
        == 0x3000
}

/// `s` without the white space at its start.
pub open spec fn trim_start(s: Seq<char>) -> Seq<char>
    decreases s.len(),
{
    if s.len() > 0 && is_space(s[0]) {
        trim_start(s.drop_first())
    } else {
        s
    }
}

/// `s` without the white space at its end.
pub open spec fn trim_end(s: Seq<char>) -> Seq<char>
    decreases s.len(),
{
    if s.len() > 0 && is_space(s.last()) {
        trim_end(s.drop_last())
    } else {
        s
    }
}

/// `s` without the white space at either end.
pub open spec fn trimmed(s: Seq<char>) -> Seq<char> {
    trim_end(trim_start(s))
}

/// The index of the first `c` in `s`, or the length of `s` where it has none.
pub open spec fn first_index(s: Seq<char>, c: char) -> int
    decreases s.len(),
{
    if s.len() == 0 || s[0] == c {
        0
    } else {
        1 + first_index(s.drop_first(), c)
    }
}

/// The lines of `s`: the pieces between its line feeds. A text always has a
/// last line, which is empty where the text is empty or ends in a line feed.
pub open spec fn split_lines(s: Seq<char>) -> Seq<Seq<char>>
    decreases s.len(),
{
    if s.len() == 0 {
        seq![Seq::<char>::empty()]
    } else {
        let before = split_lines(s.drop_last());
        if s.last() == '\n' {
            before.push(Seq::<char>::empty())
        } else {
            before.drop_last().push(before.last().push(s.last()))
        }
    }
}

/// The lines `lines` with a line feed between each two of them.
pub open spec fn join_lines(lines: Seq<Seq<char>>) -> Seq<char>
    decreases lines.len(),
{
    if lines.len() == 0 {
        Seq::<char>::empty()
    } else if lines.len() == 1 {
        lines[0]
    } else {
        join_lines(lines.drop_last()) + seq!['\n'] + lines.last()
    }
}

/// Whether `c` occurs nowhere in `s`.
pub open spec fn lacks(s: Seq<char>, c: char) -> bool {
    forall|i: int| 0 <= i < s.len() ==> s[i] != c
}

/// Whether `c` may stand in a plain name: a lower-case letter, `_` or `.`.
pub open spec fn is_name_char(c: char) -> bool {
    0x61 <= c as u32 <= 0x7a || c == '_' || c == '.'
}

/// Whether `s` is a plain name: not empty, and made of lower-case letters,
/// `_` and `.` alone. A plain name holds no white space, `=`, `:` or line
/// feed.
pub open spec fn plain(s: Seq<char>) -> bool {
    s.len() > 0 && forall|i: int| 0 <= i < s.len() ==> is_name_char(#[trigger] s[i])
}

/// Whether `s` can stand as a key in a line: it is not empty, holds no `=`
/// and no line feed, and neither starts nor ends in white space.
pub open spec fn word(s: Seq<char>) -> bool {
    s.len() > 0 && lacks(s, '=') && lacks(s, '\n') && !is_space(s[0]) && !is_space(s.last())
}

/// A plain name is a word.
pub proof fn lemma_plain_word(s: Seq<char>)
    requires
        plain(s),
    ensures
        word(s),
{
    assert(is_name_char(s[0]));
    assert(is_name_char(s.last()));
}

/// A text has at least one line.
pub proof fn lemma_split_lines_nonempty(s: Seq<char>)
    ensures
        split_lines(s).len() >= 1,
    decreases s.len(),
{
    if s.len() > 0 {
        lemma_split_lines_nonempty(s.drop_last());
    }
}

/// Reading on from the start of a line up to `end`, with no line feed on the
/// way, only lengthens the last line.
pub proof fn lemma_split_lines_extend(s: Seq<char>, start: int, end: int, done: Seq<Seq<char>>)
    requires
        0 <= start <= end <= s.len(),
        split_lines(s.take(start)) == done.push(Seq::<char>::empty()),
        forall|k: int| start <= k < end ==> s[k] != '\n',
    ensures
        split_lines(s.take(end)) == done.push(s.subrange(start, end)),
    decreases end - start,
{
    if end == start {
        assert(s.subrange(start, end) =~= Seq::<char>::empty());
    } else {
        lemma_split_lines_extend(s, start, end - 1, done);
        let t = s.take(end);
        assert(t.drop_last() =~= s.take(end - 1));
        assert(t.last() == s[end - 1]);
        let before = split_lines(t.drop_last());
        assert(before == done.push(s.subrange(start, end - 1)));
        assert(before.drop_last() =~= done);
        assert(before.last().push(t.last()) =~= s.subrange(start, end));
    }
}

/// A line feed ends the last line and starts an empty one.
pub proof fn lemma_split_lines_feed(s: Seq<char>, end: int)
    requires
        0 <= end < s.len(),
        s[end] == '\n',
    ensures
        split_lines(s.take(end + 1)) == split_lines(s.take(end)).push(Seq::<char>::empty()),
{
    let t = s.take(end + 1);
    assert(t.drop_last() =~= s.take(end));
    assert(t.last() == '\n');
}

/// Where `c` first stands at `i`, `first_index` is `i`.
pub proof fn lemma_first_index(s: Seq<char>, c: char, i: int)
    requires
        0 <= i <= s.len(),
        i < s.len() ==> s[i] == c,
        forall|k: int| 0 <= k < i ==> s[k] != c,
    ensures
        first_index(s, c) == i,
    decreases i,
{
    if i > 0 {
        let t = s.drop_first();
        assert forall|k: int| 0 <= k < i - 1 implies t[k] != c by {
            assert(t[k] == s[k + 1]);
        }
        lemma_first_index(t, c, i - 1);
    }
}

/// `first_index` finds a character wherever the text holds it.
pub proof fn lemma_first_index_found(s: Seq<char>, c: char)
    ensures
        0 <= first_index(s, c) <= s.len(),
        !lacks(s, c) ==> first_index(s, c) < s.len() && s[first_index(s, c)] == c,
    decreases s.len(),
{
    if s.len() > 0 && s[0] != c {
        let t = s.drop_first();
        lemma_first_index_found(t, c);
        if !lacks(s, c) {
            let i = choose|i: int| 0 <= i < s.len() && s[i] == c;
            assert(t[i - 1] == c);
        }
    }
}

/// A text that starts and ends in something other than white space is
/// trimmed already.
pub proof fn lemma_trimmed_already(s: Seq<char>)
    requires
        s.len() == 0 || (!is_space(s[0]) && !is_space(s.last())),
    ensures
        trimmed(s) == s,
{
}

/// White space before a text does not change what trimming its start gives.
pub proof fn lemma_trim_start_pad(pad: Seq<char>, s: Seq<char>)
    requires
        forall|i: int| 0 <= i < pad.len() ==> is_space(pad[i]),
    ensures
        trim_start(pad + s) == trim_start(s),
    decreases pad.len(),
{
    if pad.len() == 0 {
        assert(pad + s =~= s);
    } else {
        assert((pad + s)[0] == pad[0]);
        assert((pad + s).drop_first() =~= pad.drop_first() + s);
        lemma_trim_start_pad(pad.drop_first(), s);
    }
}

/// White space after a text does not change what trimming its end gives.
pub proof fn lemma_trim_end_pad(s: Seq<char>, pad: Seq<char>)
    requires
        forall|i: int| 0 <= i < pad.len() ==> is_space(pad[i]),
    ensures
        trim_end(s + pad) == trim_end(s),
    decreases pad.len(),
{
    if pad.len() == 0 {
        assert(s + pad =~= s);
    } else {
        assert((s + pad).last() == pad.last());
        assert((s + pad).drop_last() =~= s + pad.drop_last());
        lemma_trim_end_pad(s, pad.drop_last());
    }
}

/// Trimming brings in no character that the text lacks.
pub proof fn lemma_trimmed_lacks(s: Seq<char>, c: char)
    requires
        lacks(s, c),
    ensures
        lacks(trimmed(s), c),
{
    lemma_trim_start_lacks(s, c);
    lemma_trim_end_lacks(trim_start(s), c);
}

/// Trimming the start brings in no character that the text lacks.
pub proof fn lemma_trim_start_lacks(s: Seq<char>, c: char)
    requires
        lacks(s, c),
    ensures
        lacks(trim_start(s), c),
    decreases s.len(),
{
    if s.len() > 0 && is_space(s[0]) {
        let t = s.drop_first();
        assert forall|i: int| 0 <= i < t.len() implies t[i] != c by {
            assert(t[i] == s[i + 1]);
        }
        lemma_trim_start_lacks(t, c);
    }
}

/// Trimming the end brings in no character that the text lacks.
pub proof fn lemma_trim_end_lacks(s: Seq<char>, c: char)
    requires
        lacks(s, c),
    ensures
        lacks(trim_end(s), c),
    decreases s.len(),
{
    if s.len() > 0 && is_space(s.last()) {
        let t = s.drop_last();
        assert forall|i: int| 0 <= i < t.len() implies t[i] != c by {
            assert(t[i] == s[i]);
        }
        lemma_trim_end_lacks(t, c);
    }
}

/// What trimming the start leaves is empty or starts with something other
/// than white space.
pub proof fn lemma_trim_start_done(s: Seq<char>)
    ensures
        trim_start(s).len() == 0 || !is_space(trim_start(s)[0]),
    decreases s.len(),
{
    if s.len() > 0 && is_space(s[0]) {
        lemma_trim_start_done(s.drop_first());
    }
}

/// What trimming the end leaves is the start of the text, and is empty or
/// ends with something other than white space.
pub proof fn lemma_trim_end_done(s: Seq<char>)
    ensures
        trim_end(s).len() <= s.len(),
        forall|i: int| 0 <= i < trim_end(s).len() ==> trim_end(s)[i] == s[i],
        trim_end(s).len() == 0 || !is_space(trim_end(s).last()),
    decreases s.len(),
{
    if s.len() > 0 && is_space(s.last()) {
        let t = s.drop_last();
        lemma_trim_end_done(t);
        assert forall|i: int| 0 <= i < trim_end(s).len() implies trim_end(s)[i] == s[i] by {
            assert(trim_end(t)[i] == t[i]);
        }
    }
}

/// Trimming a trimmed text changes nothing.
pub proof fn lemma_trimmed_twice(s: Seq<char>)
    ensures
        trimmed(trimmed(s)) == trimmed(s),
{
    lemma_trim_start_done(s);
    lemma_trim_end_done(trim_start(s));
    lemma_trimmed_already(trimmed(s));
}

/// Trimming takes away white space only: a character that is no white
/// space and stands in the text stands in the trimmed text too.
pub proof fn lemma_trimmed_has(s: Seq<char>, c: char)
    requires
        !lacks(s, c),
        !is_space(c),
    ensures
        !lacks(trimmed(s), c),
{
    lemma_trim_start_has(s, c);
    lemma_trim_end_has(trim_start(s), c);
}

/// Trimming the start keeps a character that is no white space.
pub proof fn lemma_trim_start_has(s: Seq<char>, c: char)
    requires
        !lacks(s, c),
        !is_space(c),
    ensures
        !lacks(trim_start(s), c),
    decreases s.len(),
{
    if s.len() > 0 && is_space(s[0]) {
        let i = choose|i: int| 0 <= i < s.len() && s[i] == c;
        let t = s.drop_first();
        assert(t[i - 1] == c);
        lemma_trim_start_has(t, c);
    }
}

/// Trimming the end keeps a character that is no white space.
pub proof fn lemma_trim_end_has(s: Seq<char>, c: char)
    requires
        !lacks(s, c),
        !is_space(c),
    ensures
        !lacks(trim_end(s), c),
    decreases s.len(),
{
    if s.len() > 0 && is_space(s.last()) {
        let i = choose|i: int| 0 <= i < s.len() && s[i] == c;
        let t = s.drop_last();
        assert(t[i] == c);
        lemma_trim_end_has(t, c);
    }
}

/// A text without a line feed is one line.
pub proof fn lemma_split_single(line: Seq<char>)
    requires
        lacks(line, '\n'),
    ensures
        split_lines(line) == seq![line],
    decreases line.len(),
{
    if line.len() == 0 {
        assert(line =~= Seq::<char>::empty());
    } else {
        let t = line.drop_last();
        assert forall|i: int| 0 <= i < t.len() implies t[i] != '\n' by {
            assert(t[i] == line[i]);
        }
        lemma_split_single(t);
        let before = split_lines(t);
        assert(before.last().push(line.last()) =~= line);
        assert(before.drop_last().push(line) =~= seq![line]);
    }
}

/// A line feed and a line after a text add that line to the text's lines.
pub proof fn lemma_split_append(s: Seq<char>, line: Seq<char>)
    requires
        lacks(line, '\n'),
    ensures
        split_lines(s + seq!['\n'] + line) == split_lines(s).push(line),
    decreases line.len(),
{
    let whole = s + seq!['\n'] + line;
    if line.len() == 0 {
        assert(whole.drop_last() =~= s);
        assert(whole.last() == '\n');
        assert(line =~= Seq::<char>::empty());
    } else {
        let t = line.drop_last();
        assert forall|i: int| 0 <= i < t.len() implies t[i] != '\n' by {
            assert(t[i] == line[i]);
        }
        lemma_split_append(s, t);
        assert(whole.drop_last() =~= s + seq!['\n'] + t);
        assert(whole.last() == line.last());
        let before = split_lines(whole.drop_last());
        assert(before.drop_last() =~= split_lines(s));
        assert(before.last().push(line.last()) =~= line);
    }
}

/// Lines without line feeds, joined and split again, are the same lines.
pub proof fn lemma_split_join(lines: Seq<Seq<char>>)
    requires
        lines.len() >= 1,
        forall|i: int| 0 <= i < lines.len() ==> lacks(#[trigger] lines[i], '\n'),
    ensures
        split_lines(join_lines(lines)) == lines,
    decreases lines.len(),
{
    if lines.len() == 1 {
        lemma_split_single(lines[0]);
        assert(seq![lines[0]] =~= lines);
    } else {
        let init = lines.drop_last();
        assert forall|i: int| 0 <= i < init.len() implies lacks(#[trigger] init[i], '\n') by {
            assert(init[i] == lines[i]);
        }
        lemma_split_join(init);
        lemma_split_append(join_lines(init), lines.last());
        assert(init.push(lines.last()) =~= lines);
    }
}

/// No line of a text holds a line feed.
pub proof fn lemma_lines_lack_feeds(s: Seq<char>, i: int)
    requires
        0 <= i < split_lines(s).len(),
    ensures
        lacks(split_lines(s)[i], '\n'),
    decreases s.len(),
{
    if s.len() > 0 {
        let before = split_lines(s.drop_last());
        lemma_split_lines_nonempty(s.drop_last());
        if i < before.len() - 1 || (s.last() == '\n' && i < before.len()) {
            lemma_lines_lack_feeds(s.drop_last(), i);
        } else if s.last() != '\n' {
            lemma_lines_lack_feeds(s.drop_last(), before.len() - 1);
        }
    }
}

/// Whether `c` is white space.
pub fn is_whitespace(c: char) -> (b: bool)
    ensures
        b == is_space(c),
{
    let n: u32 = c as u32;
    n == 0x20 || (0x09 <= n && n <= 0x0d) || n == 0x85 || n == 0xa0 || n == 0x1680 || (0x2000 <= n
        && n <= 0x200a) || n == 0x2028 || n == 0x2029 || n == 0x202f || n == 0x205f || n
        == 0x3000
}

/// The characters of `s`, one by one.
pub fn to_chars(s: &str) -> (v: Vec<char>)
    ensures
        v@ == s@,
{
    let mut v: Vec<char> = Vec::new();
    let it = s.chars();
    for c in iter: it
        invariant
            v@ == iter.seq().take(iter.index() as int),
            iter.seq() == s@,
    {
        v.push(c);
    }
    v
}

/// Whether `chars` spells `word`.
pub fn spells(chars: &Vec<char>, word: &str) -> (b: bool)
    ensures
        b == (chars@ == word@),
{
    let n = chars.len();
    let mut same = true;
    let mut i: usize = 0;
    let it = word.chars();
    for c in iter: it
        invariant
            iter.seq() == word@,
            n == chars@.len(),
            i == if iter.index() <= n { iter.index() } else { n as int },
            same == (iter.index() <= n && forall|k: int|
                0 <= k < iter.index() ==> chars@[k] == word@[k]),
    {
        if i < n {
            same = same && chars[i] == c;
            i = i + 1;
        } else {
            same = false;
        }
    }
    proof {
        if same && i == n {
            assert(chars@ =~= word@);
        }
    }
    same && i == n
}

/// The bounds of `chars[from..to]` once the white space at either end is
/// taken off.
pub fn trim_bounds(chars: &Vec<char>, from: usize, to: usize) -> (r: (usize, usize))
    requires
        from <= to <= chars.len(),
    ensures
        from <= r.0 <= r.1 <= to,
        chars@.subrange(r.0 as int, r.1 as int) == trimmed(chars@.subrange(from as int, to as int)),
{
    let mut i: usize = from;
    while i < to
        invariant
            from <= i <= to <= chars.len(),
            trim_start(chars@.subrange(from as int, to as int)) == trim_start(
                chars@.subrange(i as int, to as int),
            ),
        ensures
            from <= i <= to,
            trim_start(chars@.subrange(from as int, to as int)) == chars@.subrange(
                i as int,
                to as int,
            ),
        decreases to - i,
    {
        if !is_whitespace(chars[i]) {
            break ;
        }
        assert(chars@.subrange(i as int, to as int).drop_first() =~= chars@.subrange(
            i as int + 1,
            to as int,
        ));
        i = i + 1;
    }
    let mut j: usize = to;
    while j > i
        invariant
            i <= j <= to <= chars.len(),
            trim_end(chars@.subrange(i as int, to as int)) == trim_end(
                chars@.subrange(i as int, j as int),
            ),
        ensures
            i <= j <= to,
            trim_end(chars@.subrange(i as int, to as int)) == chars@.subrange(i as int, j as int),
        decreases j - i,
    {
        if !is_whitespace(chars[j - 1]) {
            break ;
        }
        assert(chars@.subrange(i as int, j as int).drop_last() =~= chars@.subrange(
            i as int,
            j as int - 1,
        ));
        j = j - 1;
    }
    (i, j)
}

/// The characters `chars[from..to]`.
pub fn copy_range(chars: &Vec<char>, from: usize, to: usize) -> (part: Vec<char>)
    requires
        from <= to <= chars.len(),
    ensures
        part@ == chars@.subrange(from as int, to as int),
{
    let mut part: Vec<char> = Vec::new();
    let mut i: usize = from;
    while i < to
        invariant
            from <= i <= to <= chars.len(),
            part@ == chars@.subrange(from as int, i as int),
        decreases to - i,
    {
        part.push(chars[i]);
        assert(part@ =~= chars@.subrange(from as int, i + 1));
        i = i + 1;
    }
    part
}

/// Where the line that starts at `start` ends: at the next line feed, or at
/// the end of the text.
pub fn line_end(chars: &Vec<char>, start: usize) -> (end: usize)
    requires
        start <= chars.len(),
    ensures
        start <= end <= chars.len(),
        forall|k: int| start <= k < end ==> chars@[k] != '\n',
        end == chars.len() || chars@[end as int] == '\n',
{
    let mut end: usize = start;
    while end < chars.len()
        invariant
            start <= end <= chars.len(),
            forall|k: int| start <= k < end ==> chars@[k] != '\n',
        ensures
            start <= end <= chars.len(),
            forall|k: int| start <= k < end ==> chars@[k] != '\n',
            end == chars.len() || chars@[end as int] == '\n',
        decreases chars.len() - end,
    {
        if chars[end] == '\n' {
            break ;
        }
        end = end + 1;
    }
    end
}

} // verus!
