//! Text handling on sequences of characters: lines, trimming, prefixes, suffixes and joining.

use vstd::prelude::*;

verus! {

/// The characters with the Unicode `White_Space` property.
pub open spec fn is_white_space(c: char) -> bool {
    ||| '\u{9}' <= c <= '\u{d}'
    ||| c == ' '
    ||| c == '\u{85}'
    ||| c == '\u{a0}'
    ||| c == '\u{1680}'
    ||| '\u{2000}' <= c <= '\u{200a}'
    ||| c == '\u{2028}'
    ||| c == '\u{2029}'
    ||| c == '\u{202f}'
    ||| c == '\u{205f}'
    ||| c == '\u{3000}'
}

/// Tells whether `c` has the Unicode `White_Space` property.
pub fn white_space(c: char) -> (r: bool)
    ensures
        r == is_white_space(c),
{
    ('\u{9}' <= c && c <= '\u{d}') || c == ' ' || c == '\u{85}' || c == '\u{a0}' || c == '\u{1680}'
        || ('\u{2000}' <= c && c <= '\u{200a}') || c == '\u{2028}' || c == '\u{2029}'
        || c == '\u{202f}' || c == '\u{205f}' || c == '\u{3000}'
}

/// The characters of `text`, one by one.
pub fn chars_of(text: &str) -> (chars: Vec<char>)
    ensures
        chars@ == text@,
{
    let mut chars: Vec<char> = Vec::new();
    for c in it: text.chars()
        invariant
            chars@ == text@.take(it.index()),
            it.seq() == text@,
    {
        chars.push(c);
    }
    chars
}

/// Tells whether two texts are the same.
pub fn same(a: &str, b: &str) -> (r: bool)
    ensures
        r == (a@ == b@),
{
    let x = chars_of(a);
    let y = chars_of(b);
    if x.len() != y.len() {
        return false;
    }
    let mut i: usize = 0;
    while i < x.len()
        invariant
            x@ == a@,
            y@ == b@,
            x.len() == y.len(),
            i <= x.len(),
            x@.take(i as int) == y@.take(i as int),
        decreases x.len() - i,
    {
        if x[i] != y[i] {
            return false;
        }
        i = i + 1;
    }
    assert(x@.take(i as int) =~= x@);
    assert(y@.take(i as int) =~= y@);
    true
}

/// The first place of `c` in `text`, or the length of `text` where `c` does not occur.
pub open spec fn position(text: Seq<char>, c: char) -> nat
    decreases text.len(),
{
    if text.len() == 0 || text[0] == c {
        0
    } else {
        1 + position(text.skip(1), c)
    }
}

proof fn lemma_position(text: Seq<char>, c: char, i: nat)
    requires
        i <= text.len(),
        forall|j: int| 0 <= j < i ==> text[j] != c,
        i < text.len() ==> text[i as int] == c,
    ensures
        position(text, c) == i,
    decreases text.len(),
{
    if i > 0 {
        lemma_position(text.skip(1), c, (i - 1) as nat);
    }
}

/// `line` without a carriage return at its end.
pub open spec fn without_carriage_return(line: Seq<char>) -> Seq<char> {
    if line.len() > 0 && line.last() == '\r' {
        line.drop_last()
    } else {
        line
    }
}

/// The lines of `text`. A line ends with a line feed, or with a carriage return and a line feed;
/// what follows the last line feed is a line of its own unless it is empty.
pub open spec fn lines(text: Seq<char>) -> Seq<Seq<char>>
    decreases text.len(),
{
    let end = position(text, '\n');
    if text.len() == 0 {
        seq![]
    } else if end >= text.len() {
        seq![text]
    } else {
        seq![without_carriage_return(text.take(end as int))] + lines(text.skip(end as int + 1))
    }
}

/// The texts of `parts`.
pub open spec fn texts(parts: Seq<&str>) -> Seq<Seq<char>> {
    parts.map_values(|s: &str| s@)
}

/// Splits `text` into its lines.
pub fn split_lines(text: &str) -> (found: Vec<&str>)
    ensures
        texts(found@) == lines(text@),
{
    let chars = chars_of(text);
    let mut found: Vec<&str> = Vec::new();
    let mut start: usize = 0;
    assert(chars@.skip(0) =~= chars@);
    while start < chars.len()
        invariant
            chars@ == text@,
            start <= chars@.len(),
            texts(found@) + lines(chars@.skip(start as int)) == lines(chars@),
        decreases chars.len() - start,
    {
        let ghost rest = chars@.skip(start as int);
        let mut end: usize = start;
        while end < chars.len() && chars[end] != '\n'
            invariant
                start <= end <= chars@.len(),
                forall|j: int| start <= j < end ==> chars@[j] != '\n',
            decreases chars.len() - end,
        {
            end = end + 1;
        }
        proof {
            lemma_position(rest, '\n', (end - start) as nat);
        }
        if end >= chars.len() {
            let line = text.substring_char(start, chars.len());
            found.push(line);
            start = chars.len();
        } else {
            let stop: usize = if end > start && chars[end - 1] == '\r' {
                end - 1
            } else {
                end
            };
            let line = text.substring_char(start, stop);
            found.push(line);
            proof {
                assert(line@ =~= without_carriage_return(rest.take(end - start)));
                assert(rest.skip(end - start + 1) =~= chars@.skip(end + 1));
            }
            start = end + 1;
        }
    }
    found
}

/// `text` without the white space at its start.
pub open spec fn trimmed_start(text: Seq<char>) -> Seq<char>
    decreases text.len(),
{
    if text.len() > 0 && is_white_space(text[0]) {
        trimmed_start(text.skip(1))
    } else {
        text
    }
}

/// `text` without the white space at its end.
pub open spec fn trimmed_end(text: Seq<char>) -> Seq<char>
    decreases text.len(),
{
    if text.len() > 0 && is_white_space(text.last()) {
        trimmed_end(text.drop_last())
    } else {
        text
    }
}

/// `text` without the white space at its start and at its end.
pub open spec fn trimmed(text: Seq<char>) -> Seq<char> {
    trimmed_end(trimmed_start(text))
}

/// Takes the white space off both ends of `text`.
pub fn trim(text: &str) -> (r: &str)
    ensures
        r@ == trimmed(text@),
{
    let chars = chars_of(text);
    let mut from: usize = 0;
    assert(chars@.skip(0) =~= chars@);
    while from < chars.len() && white_space(chars[from])
        invariant
            from <= chars@.len(),
            trimmed_start(chars@) == trimmed_start(chars@.skip(from as int)),
        decreases chars.len() - from,
    {
        assert(chars@.skip(from as int).skip(1) =~= chars@.skip(from + 1));
        from = from + 1;
    }
    let ghost rest = chars@.skip(from as int);
    let mut to: usize = chars.len();
    while to > from && white_space(chars[to - 1])
        invariant
            from <= to <= chars@.len(),
            trimmed_end(rest) == trimmed_end(chars@.subrange(from as int, to as int)),
        decreases to,
    {
        assert(chars@.subrange(from as int, to as int).drop_last() =~= chars@.subrange(
            from as int,
            to - 1,
        ));
        to = to - 1;
    }
    text.substring_char(from, to)
}

/// Tells whether `text` starts with `prefix`.
pub open spec fn has_prefix(text: Seq<char>, prefix: Seq<char>) -> bool {
    prefix.len() <= text.len() && text.take(prefix.len() as int) == prefix
}

/// Tells whether `text` ends with `suffix`.
pub open spec fn has_suffix(text: Seq<char>, suffix: Seq<char>) -> bool {
    suffix.len() <= text.len() && text.skip(text.len() - suffix.len()) == suffix
}

/// Tells whether `part` occurs in `text` at `at`.
pub open spec fn occurs_at(text: Seq<char>, part: Seq<char>, at: int) -> bool {
    0 <= at && at + part.len() <= text.len() && text.subrange(at, at + part.len()) == part
}

/// Tells whether `part` occurs in `text`.
pub open spec fn has_part(text: Seq<char>, part: Seq<char>) -> bool {
    exists|at: int| occurs_at(text, part, at)
}

/// Tells whether `part` occurs in `text` at `at`.
fn matches_at(text: &Vec<char>, part: &Vec<char>, at: usize) -> (r: bool)
    requires
        at <= text@.len(),
    ensures
        r == occurs_at(text@, part@, at as int),
{
    if part.len() > text.len() - at {
        return false;
    }
    let mut i: usize = 0;
    while i < part.len()
        invariant
            at + part.len() <= text.len(),
            i <= part.len(),
            forall|j: int| 0 <= j < i ==> text@[at + j] == part@[j],
        decreases part.len() - i,
    {
        if text[at + i] != part[i] {
            return false;
        }
        i = i + 1;
    }
    assert(text@.subrange(at as int, at + part@.len()) =~= part@);
    true
}

/// Tells whether `text` starts with `prefix`.
pub fn starts_with(text: &str, prefix: &str) -> (r: bool)
    ensures
        r == has_prefix(text@, prefix@),
{
    let chars = chars_of(text);
    let part = chars_of(prefix);
    matches_at(&chars, &part, 0)
}

/// What follows `prefix` at the start of `text`.
pub open spec fn after_prefix(text: Seq<char>, prefix: Seq<char>) -> Option<Seq<char>> {
    if has_prefix(text, prefix) {
        Some(text.skip(prefix.len() as int))
    } else {
        None
    }
}

/// Hands back what follows `prefix`, where `text` starts with it.
pub fn strip_prefix<'a>(text: &'a str, prefix: &str) -> (r: Option<&'a str>)
    ensures
        match r {
            Some(rest) => after_prefix(text@, prefix@) == Some(rest@),
            None => after_prefix(text@, prefix@) is None,
        },
{
    if starts_with(text, prefix) {
        let from = prefix.unicode_len();
        let to = text.unicode_len();
        Some(text.substring_char(from, to))
    } else {
        None
    }
}

/// Tells whether `part` occurs in `text`.
pub fn contains(text: &str, part: &str) -> (r: bool)
    ensures
        r == has_part(text@, part@),
{
    let chars = chars_of(text);
    let wanted = chars_of(part);
    let mut at: usize = 0;
    while at < chars.len()
        invariant
            chars@ == text@,
            wanted@ == part@,
            at <= chars@.len(),
            forall|j: int| 0 <= j < at ==> !occurs_at(text@, part@, j),
        decreases chars.len() - at,
    {
        if matches_at(&chars, &wanted, at) {
            return true;
        }
        at = at + 1;
    }
    matches_at(&chars, &wanted, at)
}

/// `text` without any number of `prefix` at its start.
pub open spec fn without_prefixes(text: Seq<char>, prefix: Seq<char>) -> Seq<char>
    decreases text.len(),
{
    if prefix.len() > 0 && has_prefix(text, prefix) {
        without_prefixes(text.skip(prefix.len() as int), prefix)
    } else {
        text
    }
}

/// `text` without any number of `suffix` at its end.
pub open spec fn without_suffixes(text: Seq<char>, suffix: Seq<char>) -> Seq<char>
    decreases text.len(),
{
    if suffix.len() > 0 && has_suffix(text, suffix) {
        without_suffixes(text.take(text.len() - suffix.len()), suffix)
    } else {
        text
    }
}

/// Takes `prefix` off the start of `text` as often as it stands there.
pub fn trim_start_matches<'a>(text: &'a str, prefix: &str) -> (r: &'a str)
    ensures
        r@ == without_prefixes(text@, prefix@),
{
    let chars = chars_of(text);
    let part = chars_of(prefix);
    let mut from: usize = 0;
    assert(chars@.skip(0) =~= chars@);
    while part.len() > 0 && matches_at(&chars, &part, from)
        invariant
            chars@ == text@,
            part@ == prefix@,
            from <= chars@.len(),
            without_prefixes(text@, prefix@) == without_prefixes(text@.skip(from as int), prefix@),
        decreases chars.len() - from,
    {
        let ghost rest = text@.skip(from as int);
        assert(rest.take(prefix@.len() as int) =~= text@.subrange(
            from as int,
            from + prefix@.len(),
        ));
        assert(rest.skip(prefix@.len() as int) =~= text@.skip(from + prefix@.len()));
        from = from + part.len();
    }
    proof {
        let rest = text@.skip(from as int);
        if prefix@.len() > 0 && has_prefix(rest, prefix@) {
            assert(text@.subrange(from as int, from + prefix@.len()) =~= rest.take(
                prefix@.len() as int,
            ));
        }
    }
    text.substring_char(from, chars.len())
}

/// Takes `suffix` off the end of `text` as often as it stands there.
pub fn trim_end_matches<'a>(text: &'a str, suffix: &str) -> (r: &'a str)
    ensures
        r@ == without_suffixes(text@, suffix@),
{
    let chars = chars_of(text);
    let part = chars_of(suffix);
    let mut to: usize = chars.len();
    assert(chars@.take(to as int) =~= chars@);
    while part.len() > 0 && part.len() <= to && matches_at(&chars, &part, to - part.len())
        invariant
            chars@ == text@,
            part@ == suffix@,
            to <= chars@.len(),
            without_suffixes(text@, suffix@) == without_suffixes(text@.take(to as int), suffix@),
        decreases to,
    {
        let ghost kept = text@.take(to as int);
        assert(kept.skip(to - suffix@.len()) =~= text@.subrange(to - suffix@.len(), to as int));
        assert(kept.take(to - suffix@.len()) =~= text@.take(to - suffix@.len()));
        to = to - part.len();
    }
    proof {
        let kept = text@.take(to as int);
        if suffix@.len() > 0 && has_suffix(kept, suffix@) {
            assert(text@.subrange(to - suffix@.len(), to as int) =~= kept.skip(to - suffix@.len()));
        }
    }
    text.substring_char(0, to)
}

/// What follows the last `c` in `text`, or all of `text` where `c` does not occur.
pub open spec fn after_last(text: Seq<char>, c: char) -> Seq<char>
    decreases text.len(),
{
    if text.len() == 0 || text.last() == c {
        seq![]
    } else {
        after_last(text.drop_last(), c).push(text.last())
    }
}

proof fn lemma_after_last(text: Seq<char>, c: char, from: int)
    requires
        0 <= from <= text.len(),
        forall|j: int| from <= j < text.len() ==> text[j] != c,
        from > 0 ==> text[from - 1] == c,
    ensures
        after_last(text, c) == text.skip(from),
    decreases text.len(),
{
    if from < text.len() {
        lemma_after_last(text.drop_last(), c, from);
    }
}

/// Hands back what follows the last `c` in `text`, or all of `text` where `c` does not occur.
pub fn last_field(text: &str, c: char) -> (r: &str)
    ensures
        r@ == after_last(text@, c),
{
    let chars = chars_of(text);
    let mut from: usize = chars.len();
    while from > 0 && chars[from - 1] != c
        invariant
            from <= chars@.len(),
            forall|j: int| from <= j < chars@.len() ==> chars@[j] != c,
        decreases from,
    {
        from = from - 1;
    }
    proof {
        lemma_after_last(text@, c, from as int);
    }
    text.substring_char(from, chars.len())
}

/// `parts`, one after the other, with `separator` between each two.
pub open spec fn joined(parts: Seq<Seq<char>>, separator: Seq<char>) -> Seq<char>
    decreases parts.len(),
{
    if parts.len() == 0 {
        seq![]
    } else if parts.len() == 1 {
        parts[0]
    } else {
        joined(parts.drop_last(), separator) + separator + parts.last()
    }
}

/// The texts of `parts`.
pub open spec fn string_texts(parts: Seq<String>) -> Seq<Seq<char>> {
    parts.map_values(|s: String| s@)
}

/// Joins `parts`, with `separator` between each two.
pub fn join(parts: &Vec<String>, separator: &str) -> (r: String)
    ensures
        r@ == joined(string_texts(parts@), separator@),
{
    let ghost all = string_texts(parts@);
    let mut r = String::new();
    let mut i: usize = 0;
    while i < parts.len()
        invariant
            all == string_texts(parts@),
            i <= parts@.len(),
            r@ == joined(all.take(i as int), separator@),
        decreases parts.len() - i,
    {
        if i > 0 {
            r.append(separator);
        }
        r.append(parts[i].as_str());
        proof {
            assert(all.take(i + 1).drop_last() =~= all.take(i as int));
        }
        i = i + 1;
    }
    assert(all.take(i as int) =~= all);
    r
}

/// Owned copies of `parts`.
pub fn strings(parts: &[&str]) -> (r: Vec<String>)
    ensures
        string_texts(r@) == texts(parts@),
{
    let mut r: Vec<String> = Vec::new();
    let mut i: usize = 0;
    while i < parts.len()
        invariant
            i <= parts@.len(),
            r@.len() == i,
            forall|j: int| 0 <= j < i ==> r@[j]@ == parts@[j]@,
        decreases parts.len() - i,
    {
        r.push(parts[i].to_string());
        i = i + 1;
    }
    r
}

/// Tells whether a line of `text` is `entry`, apart from white space around it.
pub open spec fn lists(text: Seq<char>, entry: Seq<char>) -> bool {
    exists|i: int| 0 <= i < lines(text).len() && trimmed(#[trigger] lines(text)[i]) == entry
}

/// Tells whether a line of `text` is `entry`, apart from white space around it.
pub fn has_entry(text: &str, entry: &str) -> (r: bool)
    ensures
        r == lists(text@, entry@),
{
    let found = split_lines(text);
    let mut i: usize = 0;
    while i < found.len()
        invariant
            texts(found@) == lines(text@),
            i <= found@.len(),
            forall|j: int| 0 <= j < i ==> trimmed(#[trigger] texts(found@)[j]) != entry@,
        decreases found.len() - i,
    {
        assert(texts(found@)[i as int] == found@[i as int]@);
        if same(trim(found[i]), entry) {
            return true;
        }
        i = i + 1;
    }
    false
}

/// A line feed ends a line, and a carriage return before it belongs to the end; the last line needs
/// no line feed, and no text has no lines.
pub proof fn line_feeds_end_lines(line: Seq<char>, rest: Seq<char>)
    requires
        !line.contains('\n'),
    ensures
        lines(line + seq!['\n'] + rest) == seq![
            if line.len() > 0 && line.last() == '\r' {
                line.drop_last()
            } else {
                line
            },
        ] + lines(rest),
        line.len() > 0 ==> lines(line) == seq![line],
        lines(Seq::<char>::empty()) == Seq::<Seq<char>>::empty(),
{
    let whole = line + seq!['\n'] + rest;
    assert forall|j: int| 0 <= j < line.len() implies line[j] != '\n' by {
        assert(line.contains(line[j]));
    }
    assert forall|j: int| 0 <= j < line.len() implies whole[j] != '\n' by {
        assert(whole[j] == line[j]);
    }
    lemma_position(whole, '\n', line.len());
    lemma_position(line, '\n', line.len());
    assert(whole.take(line.len() as int) =~= line);
    assert(whole.skip(line.len() as int + 1) =~= rest);
}

/// What stands behind a line feed, or at the very start, begins with a line of its own.
pub proof fn lines_are_put_together(before: Seq<char>, rest: Seq<char>)
    requires
        before.len() > 0 ==> before.last() == '\n',
    ensures
        lines(before + rest) == lines(before) + lines(rest),
    decreases before.len(),
{
    if before.len() == 0 {
        assert(before + rest =~= rest);
    } else {
        let end = position(before, '\n');
        lemma_position_is_first(before, '\n');
        let line = before.take(end as int);
        let more = before.skip(end as int + 1);
        assert(before =~= line + seq!['\n'] + more);
        assert(before + rest =~= line + seq!['\n'] + (more + rest));
        line_feeds_end_lines(line, more);
        line_feeds_end_lines(line, more + rest);
        lines_are_put_together(more, rest);
    }
}

pub(crate) proof fn lemma_position_is_first(text: Seq<char>, c: char)
    ensures
        position(text, c) <= text.len(),
        forall|j: int| 0 <= j < position(text, c) ==> text[j] != c,
        position(text, c) < text.len() ==> text[position(text, c) as int] == c,
        text.len() > 0 && text.last() == c ==> position(text, c) < text.len(),
        !text.take(position(text, c) as int).contains(c),
    decreases text.len(),
{
    if text.len() > 0 && text[0] != c {
        lemma_position_is_first(text.skip(1), c);
        assert forall|j: int| 0 <= j < position(text, c) implies text[j] != c by {
            if j > 0 {
                assert(text.skip(1)[j - 1] == text[j]);
            }
        }
    }
}

/// Tells whether `text` is white space alone.
pub open spec fn blank(text: Seq<char>) -> bool {
    forall|i: int| 0 <= i < text.len() ==> is_white_space(#[trigger] text[i])
}

/// Tells whether no white space stands at either end of `text`.
pub open spec fn bare(text: Seq<char>) -> bool {
    text.len() > 0 ==> !is_white_space(text[0]) && !is_white_space(text.last())
}

pub(crate) proof fn lemma_trimmed_start(before: Seq<char>, text: Seq<char>)
    requires
        blank(before),
        text.len() > 0 ==> !is_white_space(text[0]),
    ensures
        trimmed_start(before + text) == text,
    decreases before.len(),
{
    if before.len() == 0 {
        assert(before + text =~= text);
    } else {
        assert((before + text)[0] == before[0]);
        assert((before + text).skip(1) =~= before.skip(1) + text);
        lemma_trimmed_start(before.skip(1), text);
    }
}

proof fn lemma_trimmed_end(text: Seq<char>, after: Seq<char>)
    requires
        blank(after),
        text.len() > 0 ==> !is_white_space(text.last()),
    ensures
        trimmed_end(text + after) == text,
    decreases after.len(),
{
    if after.len() == 0 {
        assert(text + after =~= text);
    } else {
        assert((text + after).last() == after.last());
        assert((text + after).drop_last() =~= text + after.drop_last());
        lemma_trimmed_end(text, after.drop_last());
    }
}

/// Trimming takes off the white space around a text, and leaves all of the text.
pub proof fn trimming_leaves_the_inside(before: Seq<char>, text: Seq<char>, after: Seq<char>)
    requires
        blank(before),
        bare(text),
        blank(after),
    ensures
        trimmed(before + text + after) == text,
{
    if text.len() > 0 {
        assert(before + text + after =~= before + (text + after));
        assert((text + after)[0] == text[0]);
        lemma_trimmed_start(before, text + after);
        lemma_trimmed_end(text, after);
    } else {
        let all = before + text + after;
        assert forall|i: int| 0 <= i < all.len() implies is_white_space(#[trigger] all[i]) by {
            if i < before.len() {
                assert(all[i] == before[i]);
            } else {
                assert(all[i] == after[i - before.len()]);
            }
        }
        assert(all + Seq::<char>::empty() =~= all);
        lemma_trimmed_start(all, Seq::<char>::empty());
    }
}

/// What follows a prefix is found exactly where the text is the prefix and what follows.
pub proof fn prefixes_are_taken_off(text: Seq<char>, prefix: Seq<char>, rest: Seq<char>)
    ensures
        after_prefix(text, prefix) == Some(rest) <==> text == prefix + rest,
        text == prefix + rest ==> has_prefix(text, prefix),
        has_prefix(text, prefix) ==> text == prefix + text.skip(prefix.len() as int),
        has_prefix(text, prefix) <==> after_prefix(text, prefix) is Some,
{
    if text == prefix + rest {
        assert(text.take(prefix.len() as int) =~= prefix);
        assert(text.skip(prefix.len() as int) =~= rest);
    }
    if has_prefix(text, prefix) {
        assert(text =~= text.take(prefix.len() as int) + text.skip(prefix.len() as int));
    }
}

/// A text ends with a suffix exactly where it is something and the suffix.
pub proof fn suffixes_stand_at_the_end(text: Seq<char>, rest: Seq<char>, suffix: Seq<char>)
    ensures
        text == rest + suffix ==> has_suffix(text, suffix),
        has_suffix(text, suffix) ==> text == text.take(text.len() - suffix.len()) + suffix,
{
    if text == rest + suffix {
        assert(text.skip(text.len() - suffix.len()) =~= suffix);
    }
    if has_suffix(text, suffix) {
        assert(text =~= text.take(text.len() - suffix.len()) + suffix);
    }
}

/// A part is found exactly where the text is something, the part, and something.
pub proof fn parts_stand_anywhere(
    text: Seq<char>,
    before: Seq<char>,
    part: Seq<char>,
    after: Seq<char>,
)
    ensures
        text == before + part + after ==> has_part(text, part),
        has_part(text, part) ==> exists|a: Seq<char>, b: Seq<char>|
            text == #[trigger] (a + part + b),
{
    if text == before + part + after {
        let at = before.len() as int;
        assert(text.subrange(at, at + part.len()) =~= part);
        assert(occurs_at(text, part, at));
    }
    if has_part(text, part) {
        let at = choose|at: int| occurs_at(text, part, at);
        let a = text.take(at);
        let b = text.skip(at + part.len());
        assert(text =~= a + part + b);
    }
}

/// `part`, so many times.
pub open spec fn repeated(part: Seq<char>, times: nat) -> Seq<char>
    decreases times,
{
    if times == 0 {
        seq![]
    } else {
        repeated(part, (times - 1) as nat) + part
    }
}

proof fn lemma_repeated(part: Seq<char>, times: nat)
    requires
        times > 0,
    ensures
        repeated(part, times) == part + repeated(part, (times - 1) as nat),
    decreases times,
{
    if times == 1 {
        assert(repeated(part, 0) =~= Seq::<char>::empty());
        assert(repeated(part, 1) =~= part);
        assert(part + repeated(part, 0) =~= part);
    } else {
        lemma_repeated(part, (times - 1) as nat);
        assert(part + repeated(part, (times - 2) as nat) + part =~= part + (repeated(
            part,
            (times - 2) as nat,
        ) + part));
    }
}

/// A prefix is taken off as often as it stands there, and all else is left.
pub proof fn prefixes_are_taken_off_all(prefix: Seq<char>, times: nat, rest: Seq<char>)
    requires
        prefix.len() > 0,
        !has_prefix(rest, prefix),
    ensures
        without_prefixes(repeated(prefix, times) + rest, prefix) == rest,
    decreases times,
{
    let whole = repeated(prefix, times) + rest;
    if times == 0 {
        assert(whole =~= rest);
    } else {
        lemma_repeated(prefix, times);
        let fewer = repeated(prefix, (times - 1) as nat) + rest;
        assert(whole =~= prefix + fewer);
        assert(whole.take(prefix.len() as int) =~= prefix);
        assert(whole.skip(prefix.len() as int) =~= fewer);
        prefixes_are_taken_off_all(prefix, (times - 1) as nat, rest);
    }
}

/// A suffix is taken off as often as it stands there, and all else is left.
pub proof fn suffixes_are_taken_off_all(rest: Seq<char>, suffix: Seq<char>, times: nat)
    requires
        suffix.len() > 0,
        !has_suffix(rest, suffix),
    ensures
        without_suffixes(rest + repeated(suffix, times), suffix) == rest,
    decreases times,
{
    let whole = rest + repeated(suffix, times);
    if times == 0 {
        assert(whole =~= rest);
    } else {
        let fewer = rest + repeated(suffix, (times - 1) as nat);
        assert(whole =~= fewer + suffix);
        assert(whole.skip(whole.len() - suffix.len()) =~= suffix);
        assert(whole.take(whole.len() - suffix.len()) =~= fewer);
        suffixes_are_taken_off_all(rest, suffix, (times - 1) as nat);
    }
}

/// The last field is all that follows the last separator.
pub proof fn the_last_field_is_whole(before: Seq<char>, c: char, field: Seq<char>)
    requires
        !field.contains(c),
    ensures
        after_last(before + seq![c] + field, c) == field,
        after_last(field, c) == field,
{
    let whole = before + seq![c] + field;
    let from = before.len() as int + 1;
    assert forall|j: int| from <= j < whole.len() implies whole[j] != c by {
        assert(field.contains(field[j - from]));
        assert(whole[j] == field[j - from]);
    }
    assert forall|j: int| 0 <= j < field.len() implies field[j] != c by {
        assert(field.contains(field[j]));
    }
    lemma_after_last(whole, c, from);
    lemma_after_last(field, c, 0);
    assert(whole.skip(from) =~= field);
    assert(field.skip(0) =~= field);
}

/// Texts are joined one after the other, with the separator between each two and nowhere else.
pub proof fn joining_keeps_every_part(parts: Seq<Seq<char>>, part: Seq<char>, separator: Seq<char>)
    ensures
        joined(Seq::<Seq<char>>::empty(), separator) == Seq::<char>::empty(),
        joined(seq![part], separator) == part,
        parts.len() > 0 ==> joined(parts.push(part), separator) == joined(parts, separator)
            + separator + part,
{
    assert(parts.push(part).drop_last() =~= parts);
}

/// An entry is listed exactly where a line is the entry with any white space around it.
pub proof fn entries_are_lines(line: Seq<char>, rest: Seq<char>, entry: Seq<char>)
    requires
        !line.contains('\n'),
    ensures
        lists(line + seq!['\n'] + rest, entry) <==> lists(rest, entry) || trimmed(
            if line.len() > 0 && line.last() == '\r' {
                line.drop_last()
            } else {
                line
            },
        ) == entry,
        lists(line, entry) <==> line.len() > 0 && trimmed(line) == entry,
        !lists(Seq::<char>::empty(), entry),
{
    let whole = line + seq!['\n'] + rest;
    line_feeds_end_lines(line, rest);
    assert(lines(whole)[0] == without_carriage_return(line));
    assert(lines(whole).skip(1) =~= lines(rest));
    if lists(rest, entry) {
        let i = choose|i: int| 0 <= i < lines(rest).len() && trimmed(#[trigger] lines(rest)[i])
            == entry;
        assert(lines(whole)[i + 1] == lines(rest)[i]);
    }
    if lists(whole, entry) {
        let i = choose|i: int| 0 <= i < lines(whole).len() && trimmed(#[trigger] lines(whole)[i])
            == entry;
        if i > 0 {
            assert(lines(rest)[i - 1] == lines(whole)[i]);
        }
    }
    if line.len() > 0 {
        assert(lines(line)[0] == line);
    }
}

/// White space is the tab, the ends of lines and pages, the space, and the wider and narrower spaces
/// that Unicode has beside it, by their code points; and nothing else.
pub proof fn white_space_has_these_code_points(c: char)
    ensures
        is_white_space(c) <==> seq![
            0x0009int,
            0x000a,
            0x000b,
            0x000c,
            0x000d,
            0x0020,
            0x0085,
            0x00a0,
            0x1680,
            0x2000,
            0x2001,
            0x2002,
            0x2003,
            0x2004,
            0x2005,
            0x2006,
            0x2007,
            0x2008,
            0x2009,
            0x200a,
            0x2028,
            0x2029,
            0x202f,
            0x205f,
            0x3000,
        ].contains(c as int),
{
    let points = seq![
        0x0009int,
        0x000a,
        0x000b,
        0x000c,
        0x000d,
        0x0020,
        0x0085,
        0x00a0,
        0x1680,
        0x2000,
        0x2001,
        0x2002,
        0x2003,
        0x2004,
        0x2005,
        0x2006,
        0x2007,
        0x2008,
        0x2009,
        0x200a,
        0x2028,
        0x2029,
        0x202f,
        0x205f,
        0x3000,
    ];
    let place: int = if c as int <= 0x000d {
        c as int - 0x0009
    } else if c as int == 0x0020 {
        5
    } else if c as int == 0x0085 {
        6
    } else if c as int == 0x00a0 {
        7
    } else if c as int == 0x1680 {
        8
    } else if c as int <= 0x200a {
        c as int - 0x2000 + 9
    } else if c as int <= 0x2029 {
        c as int - 0x2028 + 20
    } else if c as int == 0x202f {
        22
    } else if c as int == 0x205f {
        23
    } else {
        24
    };
    if is_white_space(c) {
        assert(points[place] == c as int);
    }
}

} // verus!
