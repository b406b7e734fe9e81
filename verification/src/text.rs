//! Text as a sequence of characters: comparison, search, trimming, decimal
//! numbers, replacement and line splitting.

use vstd::prelude::*;
use vstd::string::*;

verus! {

/// `String::push` of the standard library: appends one character.
pub assume_specification[ String::push ](target: &mut String, c: char)
    ensures
        final(target)@ == old(target)@.push(c),
;

/// The view of an optional string.
pub open spec fn opt_text(text: Option<String>) -> Option<Seq<char>> {
    match text {
        Some(t) => Some(t@),
        None => None,
    }
}

/// The views of the strings of a vector.
pub open spec fn texts(list: Seq<String>) -> Seq<Seq<char>> {
    list.map_values(|t: String| t@)
}

/// Copies a slice of text.
pub fn owned(text: &str) -> (out: String)
    ensures
        out@ == text@,
{
    text.to_owned()
}

/// Copies an optional string.
pub fn copy_opt(text: &Option<String>) -> (out: Option<String>)
    ensures
        out == *text,
        opt_text(out) == opt_text(*text),
{
    match text {
        Some(t) => Some(t.clone()),
        None => None,
    }
}

/// Whether two texts hold the same characters.
pub fn same_text(a: &str, b: &str) -> (same: bool)
    ensures
        same == (a@ == b@),
{
    let left: String = a.to_owned();
    let right: String = b.to_owned();
    left == right
}

/// The characters of a text.
pub fn chars_of(text: &str) -> (out: Vec<char>)
    ensures
        out@ == text@,
{
    let mut out: Vec<char> = Vec::new();
    for c in it: text.chars()
        invariant
            it.seq() == text@,
            out@ == it.seq().take(it.index()),
    {
        out.push(c);
    }
    out
}

/// The text made of the given characters.
pub fn text_of(chars: &Vec<char>) -> (out: String)
    ensures
        out@ == chars@,
{
    let mut out: String = String::new();
    for i in 0..chars.len()
        invariant
            out@ == chars@.take(i as int),
    {
        out.push(chars[i]);
        assert(chars@.take(i + 1) == chars@.take(i as int).push(chars@[i as int]));
    }
    assert(chars@.take(chars@.len() as int) == chars@);
    out
}

/// Two texts, one after the other.
pub fn join2(a: &str, b: &str) -> (out: String)
    ensures
        out@ == a@ + b@,
{
    let mut out: String = a.to_owned();
    out.append(b);
    out
}

/// Three texts, one after the other.
pub fn join3(a: &str, b: &str, c: &str) -> (out: String)
    ensures
        out@ == a@ + b@ + c@,
{
    let mut out: String = a.to_owned();
    out.append(b);
    out.append(c);
    out
}

/// Four texts, one after the other.
pub fn join4(a: &str, b: &str, c: &str, d: &str) -> (out: String)
    ensures
        out@ == a@ + b@ + c@ + d@,
{
    let mut out: String = a.to_owned();
    out.append(b);
    out.append(c);
    out.append(d);
    out
}

// ---------------------------------------------------------------------------
// Letter case
// ---------------------------------------------------------------------------

/// The lower-case form of an ASCII capital letter; any other character as it is.
pub open spec fn lower_char(c: char) -> char {
    if 'A' <= c && c <= 'Z' {
        ((c as u8) + 32) as char
    } else {
        c
    }
}

/// A text with its ASCII capital letters in lower case.
pub open spec fn lower(text: Seq<char>) -> Seq<char> {
    text.map_values(|c: char| lower_char(c))
}

/// Puts the ASCII capital letters of a text in lower case.
pub fn to_lower(text: &str) -> (out: Vec<char>)
    ensures
        out@ == lower(text@),
{
    let chars: Vec<char> = chars_of(text);
    let mut out: Vec<char> = Vec::new();
    for i in 0..chars.len()
        invariant
            out@ == lower(chars@.take(i as int)),
    {
        let c: char = chars[i];
        if 'A' <= c && c <= 'Z' {
            out.push(((c as u8) + 32) as char);
        } else {
            out.push(c);
        }
        assert(lower(chars@.take(i + 1)) == lower(chars@.take(i as int)).push(
            lower_char(chars@[i as int]),
        ));
    }
    assert(chars@.take(chars@.len() as int) == chars@);
    out
}

/// Lower case is reached in one step.
pub proof fn lower_is_idempotent(text: Seq<char>)
    ensures
        lower(lower(text)) == lower(text),
{
    assert(lower(lower(text)) =~= lower(text));
}

// ---------------------------------------------------------------------------
// Search
// ---------------------------------------------------------------------------

/// Whether `pattern` stands in `text` at position `at`.
pub open spec fn occurs_at(text: Seq<char>, pattern: Seq<char>, at: int) -> bool {
    &&& 0 <= at
    &&& at + pattern.len() <= text.len()
    &&& text.subrange(at, at + pattern.len() as int) == pattern
}

/// Whether `pattern` stands anywhere in `text`.
pub open spec fn contains_text(text: Seq<char>, pattern: Seq<char>) -> bool {
    exists|at: int| occurs_at(text, pattern, at)
}

/// Whether `at` is the leftmost place where `pattern` stands in `text`.
pub open spec fn is_first_occurrence(text: Seq<char>, pattern: Seq<char>, at: int) -> bool {
    &&& occurs_at(text, pattern, at)
    &&& forall|j: int| 0 <= j < at ==> !occurs_at(text, pattern, j)
}

fn stands_at(text: &Vec<char>, pattern: &Vec<char>, at: usize) -> (found: bool)
    ensures
        found == occurs_at(text@, pattern@, at as int),
{
    if pattern.len() > text.len() || at > text.len() - pattern.len() {
        return false;
    }
    for i in 0..pattern.len()
        invariant
            at + pattern.len() <= text.len(),
            forall|j: int| 0 <= j < i ==> text@[at + j] == pattern@[j],
    {
        if text[at + i] != pattern[i] {
            assert(text@.subrange(at as int, at + pattern@.len())[i as int] != pattern@[i as int]);
            return false;
        }
    }
    assert(text@.subrange(at as int, at + pattern@.len()) =~= pattern@);
    true
}

/// The leftmost place at or after `from` where `pattern` stands in `text`.
pub fn find_from(text: &Vec<char>, pattern: &Vec<char>, from: usize) -> (at: Option<usize>)
    requires
        from <= text@.len(),
    ensures
        match at {
            Some(i) => {
                &&& from <= i
                &&& occurs_at(text@, pattern@, i as int)
                &&& forall|j: int| from <= j < i ==> !occurs_at(text@, pattern@, j)
            },
            None => forall|j: int| from <= j ==> !occurs_at(text@, pattern@, j),
        },
{
    let mut i: usize = from;
    while i < text.len()
        invariant
            from <= i <= text@.len(),
            forall|j: int| from <= j < i ==> !occurs_at(text@, pattern@, j),
        decreases text@.len() - i,
    {
        if stands_at(text, pattern, i) {
            return Some(i);
        }
        i += 1;
    }
    if stands_at(text, pattern, i) {
        Some(i)
    } else {
        None
    }
}

/// Whether `pattern` stands anywhere in `text`.
pub fn contains_chars(text: &Vec<char>, pattern: &str) -> (found: bool)
    ensures
        found == contains_text(text@, pattern@),
{
    let wanted: Vec<char> = chars_of(pattern);
    find_from(text, &wanted, 0).is_some()
}

/// Whether `text` starts with `prefix`.
pub fn starts_with(text: &str, prefix: &str) -> (found: bool)
    ensures
        found == prefix@.is_prefix_of(text@),
{
    let t: Vec<char> = chars_of(text);
    let p: Vec<char> = chars_of(prefix);
    let found: bool = stands_at(&t, &p, 0);
    proof {
        if prefix@.len() <= text@.len() {
            assert(text@.subrange(0, prefix@.len() as int) == text@.take(prefix@.len() as int));
        }
        if found {
            assert forall|i: int| 0 <= i < prefix@.len() implies prefix@[i] == text@[i] by {
                assert(text@.subrange(0, prefix@.len() as int)[i] == text@[i]);
            }
            assert(prefix@.is_prefix_of(text@));
        }
        if prefix@.is_prefix_of(text@) {
            assert(text@.subrange(0, prefix@.len() as int) =~= prefix@);
        }
    }
    found
}

// ---------------------------------------------------------------------------
// Replacement
// ---------------------------------------------------------------------------

/// `text` with every occurrence of `from`, taken from the left and without
/// overlap, replaced by `to`.
pub open spec fn replaced(text: Seq<char>, from: Seq<char>, to: Seq<char>) -> Seq<char>
    decreases text.len(),
{
    if from.len() == 0 || !contains_text(text, from) {
        text
    } else {
        let at = choose|at: int| is_first_occurrence(text, from, at);
        if 0 <= at && at + from.len() <= text.len() {
            text.take(at) + to + replaced(text.skip(at + from.len()), from, to)
        } else {
            text
        }
    }
}

proof fn first_occurrence_is_unique(text: Seq<char>, pattern: Seq<char>, a: int, b: int)
    requires
        is_first_occurrence(text, pattern, a),
        is_first_occurrence(text, pattern, b),
    ensures
        a == b,
{
    if a < b {
        assert(!occurs_at(text, pattern, a));
    } else if b < a {
        assert(!occurs_at(text, pattern, b));
    }
}

proof fn replaced_step(text: Seq<char>, from: Seq<char>, to: Seq<char>, at: int)
    requires
        from.len() > 0,
        is_first_occurrence(text, from, at),
    ensures
        replaced(text, from, to) == text.take(at) + to + replaced(
            text.skip(at + from.len()),
            from,
            to,
        ),
{
    let chosen = choose|c: int| is_first_occurrence(text, from, c);
    first_occurrence_is_unique(text, from, at, chosen);
}

proof fn occurrence_in_suffix(text: Seq<char>, pattern: Seq<char>, start: int, at: int)
    requires
        0 <= start <= text.len(),
        start <= at,
    ensures
        occurs_at(text, pattern, at) == occurs_at(text.skip(start), pattern, at - start),
{
    let rest = text.skip(start);
    if at + pattern.len() <= text.len() {
        assert(rest.subrange(at - start, at - start + pattern.len()) =~= text.subrange(
            at,
            at + pattern.len() as int,
        ));
    }
}

/// Replaces every occurrence of `from` by `to`.
pub fn replace(text: &str, from: &str, to: &str) -> (out: String)
    requires
        from@.len() > 0,
    ensures
        out@ == replaced(text@, from@, to@),
{
    let chars: Vec<char> = chars_of(text);
    let wanted: Vec<char> = chars_of(from);
    let put: Vec<char> = chars_of(to);
    let mut out: Vec<char> = Vec::new();
    let mut start: usize = 0;
    assert(chars@.skip(0) =~= chars@);
    loop
        invariant_except_break
            wanted@ == from@,
            put@ == to@,
            from@.len() > 0,
            start <= chars.len(),
            chars@ == text@,
            out@ + replaced(chars@.skip(start as int), from@, to@) == replaced(text@, from@, to@),
        ensures
            out@ == replaced(text@, from@, to@),
        decreases chars@.len() - start,
    {
        let ghost rest = chars@.skip(start as int);
        match find_from(&chars, &wanted, start) {
            Some(at) => {
                proof {
                    occurrence_in_suffix(chars@, from@, start as int, at as int);
                    assert forall|j: int| 0 <= j < at - start implies !occurs_at(
                        rest,
                        from@,
                        j,
                    ) by {
                        occurrence_in_suffix(chars@, from@, start as int, start + j);
                    }
                    replaced_step(rest, from@, to@, at - start);
                    assert(rest.take(at - start) == chars@.subrange(start as int, at as int));
                    assert(rest.skip(at - start + from@.len()) =~= chars@.skip(at + from@.len()));
                }
                let ghost before = out@;
                push_range(&mut out, &chars, start, at);
                push_range(&mut out, &put, 0, put.len());
                assert(put@.subrange(0, put@.len() as int) == put@);
                proof {
                    assert(before + (rest.take(at - start) + to@ + replaced(
                        chars@.skip(at + from@.len()),
                        from@,
                        to@,
                    )) =~= out@ + replaced(chars@.skip(at + from@.len()), from@, to@));
                }
                assert(at + wanted.len() <= chars.len());
                start = at + wanted.len();
            },
            None => {
                proof {
                    assert forall|j: int| !occurs_at(rest, from@, j) by {
                        if 0 <= j {
                            occurrence_in_suffix(chars@, from@, start as int, start + j);
                        }
                    }
                    assert(rest == chars@.subrange(start as int, chars@.len() as int));
                }
                push_range(&mut out, &chars, start, chars.len());
                break ;
            },
        }
    }
    text_of(&out)
}

/// Appends `from[lo..hi]` to `out`.
fn push_range(out: &mut Vec<char>, from: &Vec<char>, lo: usize, hi: usize)
    requires
        lo <= hi <= from@.len(),
    ensures
        final(out)@ == old(out)@ + from@.subrange(lo as int, hi as int),
{
    let ghost before = out@;
    for i in lo..hi
        invariant
            lo <= hi <= from@.len(),
            out@ == before + from@.subrange(lo as int, i as int),
    {
        out.push(from[i]);
        assert(from@.subrange(lo as int, i + 1) =~= from@.subrange(lo as int, i as int).push(
            from@[i as int],
        ));
        assert(before + from@.subrange(lo as int, i + 1) =~= (before + from@.subrange(
            lo as int,
            i as int,
        )).push(from@[i as int]));
    }
}

// ---------------------------------------------------------------------------
// White space and lines
// ---------------------------------------------------------------------------

/// The characters with the Unicode property `White_Space`.
pub open spec fn is_white(c: char) -> bool {
    let n = c as u32;
    ||| 9 <= n <= 13
    ||| n == 0x20
    ||| n == 0x85
    ||| n == 0xA0
    ||| n == 0x1680
    ||| 0x2000 <= n <= 0x200A
    ||| n == 0x2028
    ||| n == 0x2029
    ||| n == 0x202F
    ||| n == 0x205F
    ||| n == 0x3000
}

/// A text without its leading white space.
pub open spec fn trim_start(text: Seq<char>) -> Seq<char>
    decreases text.len(),
{
    if text.len() > 0 && is_white(text[0]) {
        trim_start(text.skip(1))
    } else {
        text
    }
}

/// A text without its trailing white space.
pub open spec fn trim_end(text: Seq<char>) -> Seq<char>
    decreases text.len(),
{
    if text.len() > 0 && is_white(text.last()) {
        trim_end(text.drop_last())
    } else {
        text
    }
}

/// A text without white space at either end.
pub open spec fn trimmed(text: Seq<char>) -> Seq<char> {
    trim_end(trim_start(text))
}

fn white(c: char) -> (w: bool)
    ensures
        w == is_white(c),
{
    let n: u32 = c as u32;
    (9 <= n && n <= 13) || n == 0x20 || n == 0x85 || n == 0xA0 || n == 0x1680 || (0x2000 <= n && n
        <= 0x200A) || n == 0x2028 || n == 0x2029 || n == 0x202F || n == 0x205F || n == 0x3000
}

/// Takes white space off both ends of a text.
pub fn trim(text: &str) -> (out: String)
    ensures
        out@ == trimmed(text@),
{
    let chars: Vec<char> = chars_of(text);
    let mut lo: usize = 0;
    assert(chars@.skip(0) =~= chars@);
    while lo < chars.len() && white(chars[lo])
        invariant
            lo <= chars@.len(),
            trim_start(chars@.skip(lo as int)) == trim_start(chars@),
        decreases chars@.len() - lo,
    {
        assert(chars@.skip(lo as int).skip(1) =~= chars@.skip(lo + 1));
        lo += 1;
    }
    let ghost start = chars@.skip(lo as int);
    assert(trim_start(chars@) == start);
    let mut hi: usize = chars.len();
    assert(chars@.subrange(lo as int, hi as int) =~= start);
    while hi > lo && white(chars[hi - 1])
        invariant
            lo <= hi <= chars@.len(),
            trim_end(chars@.subrange(lo as int, hi as int)) == trim_end(start),
        decreases hi,
    {
        assert(chars@.subrange(lo as int, hi as int).drop_last() =~= chars@.subrange(
            lo as int,
            hi - 1,
        ));
        hi -= 1;
    }
    let mut out: Vec<char> = Vec::new();
    push_range(&mut out, &chars, lo, hi);
    text_of(&out)
}

/// A text without white space has none to lose.
pub proof fn trimmed_keeps_solid_text(text: Seq<char>)
    requires
        forall|i: int| 0 <= i < text.len() ==> !is_white(#[trigger] text[i]),
    ensures
        trimmed(text) == text,
{
}

/// What is left of a text starts with no white space.
proof fn trim_start_is_solid(text: Seq<char>)
    ensures
        trim_start(text).len() > 0 ==> !is_white(trim_start(text)[0]),
    decreases text.len(),
{
    if text.len() > 0 && is_white(text[0]) {
        trim_start_is_solid(text.skip(1));
    }
}

/// What is left of a text is a start of it, and ends with no white space.
proof fn trim_end_is_solid(text: Seq<char>)
    ensures
        trim_end(text).is_prefix_of(text),
        trim_end(text).len() > 0 ==> !is_white(trim_end(text).last()),
    decreases text.len(),
{
    if text.len() > 0 && is_white(text.last()) {
        trim_end_is_solid(text.drop_last());
    }
}

/// A trimmed text has nothing left to trim.
pub proof fn trimmed_is_idempotent(text: Seq<char>)
    ensures
        trimmed(trimmed(text)) == trimmed(text),
{
    let start = trim_start(text);
    trim_start_is_solid(text);
    trim_end_is_solid(start);
    let out = trim_end(start);
    if out.len() > 0 {
        assert(out[0] == start[0]);
    }
    assert(trim_start(out) == out);
    assert(trim_end(out) == out);
}

/// Whether a text is white space through and through.
pub open spec fn all_white(text: Seq<char>) -> bool {
    forall|i: int| 0 <= i < text.len() ==> is_white(#[trigger] text[i])
}

/// White space before a text is trimmed away.
proof fn trim_start_drops(before: Seq<char>, text: Seq<char>)
    requires
        all_white(before),
    ensures
        trim_start(before + text) == trim_start(text),
    decreases before.len(),
{
    if before.len() == 0 {
        assert(before + text =~= text);
    } else {
        assert((before + text)[0] == before[0]);
        assert((before + text).skip(1) =~= before.skip(1) + text);
        trim_start_drops(before.skip(1), text);
    }
}

/// White space after a text is trimmed away.
proof fn trim_end_drops(text: Seq<char>, after: Seq<char>)
    requires
        all_white(after),
    ensures
        trim_end(text + after) == trim_end(text),
    decreases after.len(),
{
    if after.len() == 0 {
        assert(text + after =~= text);
    } else {
        assert((text + after).last() == after.last());
        assert((text + after).drop_last() =~= text + after.drop_last());
        trim_end_drops(text, after.drop_last());
    }
}

/// Trimming the start of a text leaves alone what is after it, but for white
/// space that nothing else comes before.
proof fn trim_start_reaches(text: Seq<char>, after: Seq<char>)
    requires
        all_white(after),
    ensures
        trim_end(trim_start(text + after)) == trim_end(trim_start(text)),
    decreases text.len(),
{
    if text.len() == 0 {
        assert(text + after =~= after + text);
        trim_start_drops(after, text);
    } else if is_white(text[0]) {
        assert((text + after)[0] == text[0]);
        assert((text + after).skip(1) =~= text.skip(1) + after);
        trim_start_reaches(text.skip(1), after);
    } else {
        assert((text + after)[0] == text[0]);
        trim_end_drops(text, after);
    }
}

/// White space around a text is trimmed away.
pub proof fn trimmed_drops_white_space(before: Seq<char>, text: Seq<char>, after: Seq<char>)
    requires
        all_white(before),
        all_white(after),
    ensures
        trimmed(before + text + after) == trimmed(text),
{
    assert(before + text + after =~= before + (text + after));
    trim_start_drops(before, text + after);
    trim_start_reaches(text, after);
}

/// A line without the carriage return before its line feed.
pub open spec fn strip_return(line: Seq<char>) -> Seq<char> {
    if line.len() > 0 && line.last() == '\r' {
        line.drop_last()
    } else {
        line
    }
}

/// The lines of a text: they end at line feeds, a carriage return before a line
/// feed belongs to the ending, and the end of the text ends the last line.
pub open spec fn lines_of(text: Seq<char>) -> Seq<Seq<char>>
    decreases text.len(),
{
    if text.len() == 0 {
        seq![]
    } else {
        let at = text.index_of_first('\n');
        match at {
            Some(i) => if 0 <= i < text.len() {
                seq![strip_return(text.take(i))] + lines_of(text.skip(i + 1))
            } else {
                seq![text]
            },
            None => seq![text],
        }
    }
}

/// The lines of a text that hold more than white space.
pub open spec fn non_blank_lines_of(text: Seq<char>) -> Seq<Seq<char>> {
    lines_of(text).filter(|line: Seq<char>| trimmed(line).len() > 0)
}

fn find_feed(chars: &Vec<char>, from: usize) -> (at: Option<usize>)
    requires
        from <= chars@.len(),
    ensures
        match at {
            Some(i) => {
                &&& from <= i < chars@.len()
                &&& chars@[i as int] == '\n'
                &&& forall|j: int| from <= j < i ==> chars@[j] != '\n'
            },
            None => forall|j: int| from <= j < chars@.len() ==> chars@[j] != '\n',
        },
{
    let mut i: usize = from;
    while i < chars.len()
        invariant
            from <= i <= chars@.len(),
            forall|j: int| from <= j < i ==> chars@[j] != '\n',
        decreases chars@.len() - i,
    {
        if chars[i] == '\n' {
            return Some(i);
        }
        i += 1;
    }
    None
}

/// The lines of a text that hold more than white space, in order.
pub fn non_blank_lines(text: &str) -> (out: Vec<String>)
    ensures
        texts(out@) == non_blank_lines_of(text@),
{
    let chars: Vec<char> = chars_of(text);
    let mut out: Vec<String> = Vec::new();
    let mut start: usize = 0;
    let ghost keep = |line: Seq<char>| trimmed(line).len() > 0;
    proof {
        assert(chars@.skip(0) =~= chars@);
        assert(texts(out@) =~= Seq::<Seq<char>>::empty());
        assert(texts(out@) + lines_of(chars@).filter(keep) =~= lines_of(chars@).filter(keep));
    }
    while start < chars.len()
        invariant
            start <= chars.len(),
            keep == (|line: Seq<char>| trimmed(line).len() > 0),
            texts(out@) + lines_of(chars@.skip(start as int)).filter(keep) == lines_of(
                chars@,
            ).filter(keep),
        decreases chars.len() - start,
    {
        let ghost rest = chars@.skip(start as int);
        let mut line: Vec<char> = Vec::new();
        let next: usize;
        match find_feed(&chars, start) {
            Some(at) => {
                let mut end: usize = at;
                if end > start && chars[end - 1] == '\r' {
                    end -= 1;
                }
                push_range(&mut line, &chars, start, end);
                next = at + 1;
                proof {
                    first_feed(rest, at - start);
                    assert(strip_return(rest.take(at - start)) =~= line@);
                    assert(rest.skip(at - start + 1) =~= chars@.skip(next as int));
                    assert(lines_of(rest) == seq![line@] + lines_of(chars@.skip(next as int)));
                }
            },
            None => {
                push_range(&mut line, &chars, start, chars.len());
                next = chars.len();
                proof {
                    no_feed(rest);
                    assert(line@ =~= rest);
                    assert(chars@.skip(next as int) =~= Seq::<char>::empty());
                    assert(lines_of(rest) =~= seq![line@] + lines_of(chars@.skip(next as int)));
                }
            },
        }
        let ghost tail = lines_of(chars@.skip(next as int));
        proof {
            filter_of_one_more(line@, tail, keep);
        }
        let ghost before = texts(out@);
        let whole: String = text_of(&line);
        let body: String = trim(whole.as_str());
        if !body.as_str().is_empty() {
            proof {
                assert(keep(line@));
                assert(before.push(line@) + tail.filter(keep) =~= before + (seq![line@]
                    + tail.filter(keep)));
            }
            out.push(whole);
            assert(texts(out@) =~= before.push(line@));
        } else {
            assert(!keep(line@));
        }
        start = next;
    }
    proof {
        assert(chars@.skip(start as int) =~= Seq::<char>::empty());
        assert(lines_of(chars@.skip(start as int)).filter(keep) =~= seq![]);
        assert(texts(out@) + Seq::<Seq<char>>::empty() =~= texts(out@));
    }
    out
}

proof fn first_feed(text: Seq<char>, at: int)
    requires
        0 <= at < text.len(),
        text[at] == '\n',
        forall|j: int| 0 <= j < at ==> text[j] != '\n',
    ensures
        text.index_of_first('\n') == Some(at),
{
    text.index_of_first_ensures('\n');
}

proof fn no_feed(text: Seq<char>)
    requires
        forall|j: int| 0 <= j < text.len() ==> text[j] != '\n',
    ensures
        text.index_of_first('\n') == None::<int>,
{
    text.index_of_first_ensures('\n');
}

proof fn filter_of_one_more<A>(head: A, tail: Seq<A>, keep: spec_fn(A) -> bool)
    ensures
        (seq![head] + tail).filter(keep) == (if keep(head) {
            seq![head] + tail.filter(keep)
        } else {
            tail.filter(keep)
        }),
{
    Seq::filter_distributes_over_add(seq![head], tail, keep);
    reveal_with_fuel(Seq::filter, 2);
    assert(seq![head].drop_last() =~= Seq::<A>::empty());
    assert(seq![head].filter(keep) =~= if keep(head) {
        seq![head]
    } else {
        seq![]
    });
    assert(Seq::<A>::empty() + tail.filter(keep) =~= tail.filter(keep));
}

// ---------------------------------------------------------------------------
// Decimal numbers
// ---------------------------------------------------------------------------

/// Whether a character is an ASCII decimal digit.
pub open spec fn is_digit(c: char) -> bool {
    '0' <= c && c <= '9'
}

/// The number that a run of decimal digits stands for.
pub open spec fn digits_value(digits: Seq<char>) -> nat
    decreases digits.len(),
{
    if digits.len() == 0 {
        0
    } else {
        digits_value(digits.drop_last()) * 10 + (digits.last() as nat - '0' as nat) as nat
    }
}

/// Whether every character is a decimal digit.
pub open spec fn all_digits(text: Seq<char>) -> bool {
    forall|i: int| 0 <= i < text.len() ==> is_digit(#[trigger] text[i])
}

/// The digits of an unsigned number: what follows an optional plus sign.
pub open spec fn after_plus(text: Seq<char>) -> Seq<char> {
    if text.len() > 0 && text[0] == '+' {
        text.skip(1)
    } else {
        text
    }
}

/// The unsigned number no greater than `max` that a text stands for: an optional
/// plus sign, then one or more decimal digits and nothing else.
pub open spec fn parse_unsigned(text: Seq<char>, max: nat) -> Option<nat> {
    let digits = after_plus(text);
    if digits.len() > 0 && all_digits(digits) && digits_value(digits) <= max {
        Some(digits_value(digits))
    } else {
        None
    }
}

/// A number in decimal digits, without leading zeros.
pub open spec fn decimal(n: nat) -> Seq<char>
    decreases n,
{
    if n < 10 {
        seq![(('0' as nat) + n) as char]
    } else {
        decimal(n / 10).push((('0' as nat) + n % 10) as char)
    }
}

/// A number in at least two decimal digits.
pub open spec fn decimal_two(n: nat) -> Seq<char> {
    if n < 10 {
        seq!['0'] + decimal(n)
    } else {
        decimal(n)
    }
}

proof fn digits_value_grows(digits: Seq<char>, i: int)
    requires
        0 <= i <= digits.len(),
    ensures
        digits_value(digits.take(i)) <= digits_value(digits),
    decreases digits.len() - i,
{
    if i == digits.len() {
        assert(digits.take(i) =~= digits);
    } else {
        digits_value_grows(digits, i + 1);
        assert(digits.take(i + 1).drop_last() =~= digits.take(i));
    }
}

/// Reads an unsigned 64-bit number.
pub fn parse_u64(text: &str) -> (out: Option<u64>)
    ensures
        match out {
            Some(n) => parse_unsigned(text@, u64::MAX as nat) == Some(n as nat),
            None => parse_unsigned(text@, u64::MAX as nat) is None,
        },
{
    let chars: Vec<char> = chars_of(text);
    let start: usize = if chars.len() > 0 && chars[0] == '+' { 1 } else { 0 };
    let ghost digits = after_plus(text@);
    assert(digits =~= chars@.skip(start as int));
    if start == chars.len() {
        return None;
    }
    let mut value: u64 = 0;
    let mut i: usize = start;
    assert(digits.take(0) =~= Seq::<char>::empty());
    while i < chars.len()
        invariant
            start <= i <= chars.len(),
            start <= 1,
            digits == after_plus(text@),
            digits == chars@.skip(start as int),
            value == digits_value(digits.take(i - start)),
            forall|j: int| 0 <= j < i - start ==> is_digit(#[trigger] digits[j]),
        decreases chars.len() - i,
    {
        let c: char = chars[i];
        assert(digits[i - start] == c);
        if c < '0' || c > '9' {
            assert(!is_digit(digits[i - start]));
            return None;
        }
        let d: u64 = (c as u32 - '0' as u32) as u64;
        proof {
            assert(digits.take(i - start + 1).drop_last() =~= digits.take(i - start));
            digits_value_grows(digits, i - start + 1);
        }
        if value > (u64::MAX - d) / 10 {
            assert(value * 10 + d > u64::MAX);
            return None;
        }
        value = value * 10 + d;
        i += 1;
    }
    assert(digits.take(digits.len() as int) =~= digits);
    Some(value)
}

/// Reads an unsigned 32-bit number.
pub fn parse_u32(text: &str) -> (out: Option<u32>)
    ensures
        match out {
            Some(n) => parse_unsigned(text@, u32::MAX as nat) == Some(n as nat),
            None => parse_unsigned(text@, u32::MAX as nat) is None,
        },
{
    match parse_u64(text) {
        Some(n) => if n <= u32::MAX as u64 {
            Some(n as u32)
        } else {
            None
        },
        None => None,
    }
}

/// Reads an unsigned number of the machine's width.
pub fn parse_usize(text: &str) -> (out: Option<usize>)
    ensures
        match out {
            Some(n) => parse_unsigned(text@, usize::MAX as nat) == Some(n as nat),
            None => parse_unsigned(text@, usize::MAX as nat) is None,
        },
{
    match parse_u64(text) {
        Some(n) => if n <= usize::MAX as u64 {
            Some(n as usize)
        } else {
            None
        },
        None => None,
    }
}

fn digit_char(d: u64) -> (c: char)
    requires
        d < 10,
    ensures
        c == (('0' as nat) + d as nat) as char,
{
    (48u8 + d as u8) as char
}

fn push_decimal(out: &mut String, n: u64)
    ensures
        final(out)@ == old(out)@ + decimal(n as nat),
    decreases n,
{
    if n < 10 {
        out.push(digit_char(n));
        assert(old(out)@.push((('0' as nat) + n as nat) as char) =~= old(out)@ + decimal(n as nat));
    } else {
        push_decimal(out, n / 10);
        out.push(digit_char(n % 10));
        assert((old(out)@ + decimal((n / 10) as nat)).push(
            (('0' as nat) + (n % 10) as nat) as char,
        ) =~= old(out)@ + decimal(n as nat));
    }
}

/// Writes a number in decimal digits.
pub fn decimal_text(n: u64) -> (out: String)
    ensures
        out@ == decimal(n as nat),
{
    let mut out: String = String::new();
    push_decimal(&mut out, n);
    assert(Seq::<char>::empty() + decimal(n as nat) =~= decimal(n as nat));
    out
}

/// Writes a number in at least two decimal digits.
pub fn decimal_two_text(n: u64) -> (out: String)
    ensures
        out@ == decimal_two(n as nat),
{
    let digits: String = decimal_text(n);
    if n < 10 {
        proof {
            reveal_strlit("0");
            assert("0"@ =~= seq!['0']);
        }
        join2("0", digits.as_str())
    } else {
        digits
    }
}

/// Reading a number that was written gives it back.
pub proof fn decimal_reads_back(n: nat, max: nat)
    requires
        n <= max,
    ensures
        parse_unsigned(decimal(n), max) == Some(n),
{
    decimal_is_its_value(n);
    assert(is_digit(decimal(n)[0]));
    assert(after_plus(decimal(n)) == decimal(n));
}

proof fn decimal_is_its_value(n: nat)
    ensures
        decimal(n).len() > 0,
        all_digits(decimal(n)),
        digits_value(decimal(n)) == n,
    decreases n,
{
    if n < 10 {
        assert(decimal(n).drop_last() =~= Seq::<char>::empty());
        assert(digits_value(Seq::<char>::empty()) == 0);
    } else {
        decimal_is_its_value(n / 10);
        assert(decimal(n).drop_last() =~= decimal(n / 10));
    }
}

// ---------------------------------------------------------------------------
// Laws
// ---------------------------------------------------------------------------

/// A pattern is found exactly in the texts that have it between a start and an
/// end.
pub proof fn patterns_are_found_where_they_stand(
    before: Seq<char>,
    pattern: Seq<char>,
    after: Seq<char>,
)
    ensures
        contains_text(before + pattern + after, pattern),
{
    let whole = before + pattern + after;
    let at = before.len() as int;
    assert(whole.subrange(at, at + pattern.len() as int) =~= pattern);
    assert(occurs_at(whole, pattern, at));
}

/// Where a pattern is found, the text is a start, the pattern and an end.
pub proof fn found_patterns_stand_there(text: Seq<char>, pattern: Seq<char>)
    requires
        contains_text(text, pattern),
    ensures
        exists|before: Seq<char>, after: Seq<char>| text == #[trigger] (before + pattern + after),
{
    let at = choose|at: int| occurs_at(text, pattern, at);
    let before = text.take(at);
    let after = text.skip(at + pattern.len());
    assert(text.subrange(at, at + pattern.len() as int) == pattern);
    assert forall|i: int| 0 <= i < text.len() implies text[i] == (before + pattern + after)[i] by {
        if at <= i < at + pattern.len() {
            assert(text.subrange(at, at + pattern.len() as int)[i - at] == text[i]);
        }
    }
    assert(text =~= before + pattern + after);
}

/// Lower case changes the capital letters of ASCII by 32 and nothing else.
pub proof fn lower_case_changes_capitals_only(text: Seq<char>, i: int)
    requires
        0 <= i < text.len(),
    ensures
        lower(text).len() == text.len(),
        65 <= text[i] as u32 <= 90 ==> lower(text)[i] as u32 == text[i] as u32 + 32,
        !(65 <= text[i] as u32 <= 90) ==> lower(text)[i] == text[i],
{
}

/// A trimmed text is what is left between white space at both ends, and neither
/// starts nor ends with any.
pub proof fn trimmed_text_is_the_middle(text: Seq<char>)
    ensures
        trimmed(text).len() > 0 ==> !is_white(trimmed(text)[0]) && !is_white(trimmed(text).last()),
        exists|before: Seq<char>, after: Seq<char>|
            all_white(before) && all_white(after) && text == #[trigger] (before + trimmed(text)
                + after),
{
    let start = trim_start(text);
    let before = trim_start_is_a_suffix(text);
    let after = trim_end_is_a_prefix(start);
    trim_start_is_solid(text);
    trim_end_is_solid(start);
    let out = trim_end(start);
    if out.len() > 0 {
        assert(out[0] == start[0]);
    }
    assert(text =~= before + out + after);
}

proof fn trim_start_is_a_suffix(text: Seq<char>) -> (before: Seq<char>)
    ensures
        all_white(before),
        text == before + trim_start(text),
    decreases text.len(),
{
    if text.len() > 0 && is_white(text[0]) {
        let rest = trim_start_is_a_suffix(text.skip(1));
        let before = seq![text[0]] + rest;
        assert(text =~= seq![text[0]] + text.skip(1));
        assert(text =~= before + trim_start(text));
        before
    } else {
        assert(text =~= Seq::<char>::empty() + text);
        Seq::empty()
    }
}

proof fn trim_end_is_a_prefix(text: Seq<char>) -> (after: Seq<char>)
    ensures
        all_white(after),
        text == trim_end(text) + after,
    decreases text.len(),
{
    if text.len() > 0 && is_white(text.last()) {
        let rest = trim_end_is_a_prefix(text.drop_last());
        let after = rest.push(text.last());
        assert(text =~= text.drop_last().push(text.last()));
        assert(text =~= trim_end(text) + after);
        after
    } else {
        assert(text =~= text + Seq::<char>::empty());
        Seq::empty()
    }
}

/// Blanks, tabs and the ends of lines are white space; what can be seen of ASCII
/// is not.
pub proof fn visible_characters_are_not_white(c: char)
    ensures
        c == ' ' || c == '\t' || c == '\n' || c == '\r' ==> is_white(c),
        33 <= c as u32 <= 126 ==> !is_white(c),
{
}

/// A number is read from one or more digits, with or without a plus sign before
/// them, and from nothing else; each digit counts ten times what the next does.
pub proof fn numbers_are_read_digit_by_digit(digits: Seq<char>, last: char, max: nat)
    requires
        parse_unsigned(digits, max) is Some,
    ensures
        '0' <= last <= '9' && parse_unsigned(digits, max)->0 * 10 + (last as nat - 48) <= max
            ==> parse_unsigned(digits.push(last), max) == Some(
            (parse_unsigned(digits, max)->0 * 10 + (last as nat - 48)) as nat,
        ),
        parse_unsigned(digits.push(last), max) is Some ==> '0' <= last <= '9',
        digits[0] != '+' ==> parse_unsigned(seq!['+'] + digits, max) == parse_unsigned(digits, max),
        parse_unsigned(digits, max)->0 <= max,
{
    let core = after_plus(digits);
    let more = after_plus(digits.push(last));
    assert(more =~= core.push(last));
    assert(more.drop_last() =~= core);
    assert(more[more.len() - 1] == last);
    if '0' <= last <= '9' {
        assert forall|i: int| 0 <= i < more.len() implies is_digit(#[trigger] more[i]) by {
            if i < core.len() {
                assert(more[i] == core[i]);
            }
        }
    }
    assert((seq!['+'] + digits).skip(1) =~= digits);
}

/// One digit is read as its value, and neither an empty text, a lone sign nor a
/// character that is no digit is a number.
pub proof fn single_digits_are_read(c: char, max: nat)
    requires
        max >= 9,
    ensures
        '0' <= c <= '9' ==> parse_unsigned(seq![c], max) == Some((c as nat - 48) as nat),
        !('0' <= c <= '9') ==> parse_unsigned(seq![c], max) is None,
        parse_unsigned(Seq::empty(), max) is None,
        parse_unsigned(seq!['+', c], max) == parse_unsigned(seq![c], max) || c == '+',
{
    reveal_with_fuel(digits_value, 2);
    assert(seq![c].drop_last() =~= Seq::<char>::empty());
    assert(seq!['+', c].skip(1) =~= seq![c]);
    assert(seq!['+'].skip(1) =~= Seq::<char>::empty());
    if !('0' <= c <= '9') && c != '+' {
        assert(!is_digit(seq![c][0]));
    }
}

/// A text with a line feed is its first line and the lines of the rest.
pub proof fn lines_end_at_feeds(line: Seq<char>, rest: Seq<char>)
    requires
        forall|i: int| 0 <= i < line.len() ==> #[trigger] line[i] != '\n' && line[i] != '\r',
    ensures
        lines_of(line + seq!['\n'] + rest) == seq![line] + lines_of(rest),
        lines_of(line + seq!['\r', '\n'] + rest) == seq![line] + lines_of(rest),
        line.len() > 0 ==> lines_of(line) == seq![line],
        lines_of(Seq::empty()) == Seq::<Seq<char>>::empty(),
{
    let one = line + seq!['\n'] + rest;
    let at = line.len() as int;
    assert(one[at] == '\n');
    first_feed(one, at);
    assert(one.take(at) =~= line);
    assert(one.skip(at + 1) =~= rest);
    assert(strip_return(line) == line);
    let two = line + seq!['\r', '\n'] + rest;
    assert(two[at + 1] == '\n');
    assert(two[at] == '\r');
    first_feed(two, at + 1);
    assert(two.take(at + 1).drop_last() =~= line);
    assert(two.skip(at + 2) =~= rest);
    no_feed(line);
}

} // verus!
