//! Strings as sequences of characters: views of string lists, copies, trimming.

use vstd::prelude::*;

verus! {

/// The mathematical value of a list of strings.
pub open spec fn strings_view(strings: Seq<String>) -> Seq<Seq<char>> {
    Seq::new(strings.len(), |i: int| strings[i]@)
}

/// The mathematical value of an optional list of strings.
pub open spec fn optional_strings_view(strings: Option<Vec<String>>) -> Option<Seq<Seq<char>>> {
    match strings {
        Some(list) => Some(strings_view(list@)),
        None => None,
    }
}

/// Copies a list of strings.
pub fn clone_strings(strings: &Vec<String>) -> (copy: Vec<String>)
    ensures
        strings_view(copy@) == strings_view(strings@),
{
    let mut copy: Vec<String> = Vec::new();
    let mut i: usize = 0;
    while i < strings.len()
        invariant
            i <= strings.len(),
            copy.len() == i,
            forall|j: int| 0 <= j < i ==> copy@[j]@ == strings@[j]@,
        decreases strings.len() - i,
    {
        copy.push(strings[i].clone());
        i += 1;
    }
    assert(strings_view(copy@) =~= strings_view(strings@));
    copy
}

/// Copies an optional list of strings.
pub fn clone_optional_strings(strings: &Option<Vec<String>>) -> (copy: Option<Vec<String>>)
    ensures
        optional_strings_view(copy) == optional_strings_view(*strings),
{
    match strings {
        Some(list) => Some(clone_strings(list)),
        None => None,
    }
}

/// Whether `name` occurs in `strings`.
pub fn contains_string(strings: &Vec<String>, name: &String) -> (found: bool)
    ensures
        found == strings_view(strings@).contains(name@),
{
    let mut i: usize = 0;
    while i < strings.len()
        invariant
            i <= strings.len(),
            forall|j: int| 0 <= j < i ==> strings@[j]@ != name@,
        decreases strings.len() - i,
    {
        if strings[i] == *name {
            assert(strings_view(strings@)[i as int] == name@);
            return true;
        }
        i += 1;
    }
    false
}

/// Whether `c` is white space in Unicode's sense (the property `White_Space`).
pub open spec fn is_space(c: char) -> bool {
    let code = c as u32;
    ||| 0x09 <= code <= 0x0D
    ||| code == 0x20
    ||| code == 0x85
    ||| code == 0xA0
    ||| code == 0x1680
    ||| 0x2000 <= code <= 0x200A
    ||| code == 0x2028
    ||| code == 0x2029
    ||| code == 0x202F
    ||| code == 0x205F
    ||| code == 0x3000
}

/// `text` without the white space it starts with.
pub open spec fn trim_start(text: Seq<char>) -> Seq<char>
    decreases text.len(),
{
    if text.len() > 0 && is_space(text[0]) {
        trim_start(text.drop_first())
    } else {
        text
    }
}

/// `text` without the white space it ends with.
pub open spec fn trim_end(text: Seq<char>) -> Seq<char>
    decreases text.len(),
{
    if text.len() > 0 && is_space(text.last()) {
        trim_end(text.drop_last())
    } else {
        text
    }
}

/// `text` without the white space around it.
pub open spec fn trimmed(text: Seq<char>) -> Seq<char> {
    trim_end(trim_start(text))
}

/// Dropping leading white space leaves the part from the first other character on.
pub proof fn lemma_trim_start(text: Seq<char>, start: int)
    requires
        0 <= start <= text.len(),
        forall|k: int| 0 <= k < start ==> is_space(text[k]),
        start == text.len() || !is_space(text[start]),
    ensures
        trim_start(text) == text.subrange(start, text.len() as int),
    decreases start,
{
    if start == 0 {
        assert(text.subrange(0, text.len() as int) =~= text);
    } else {
        let rest = text.drop_first();
        assert forall|k: int| 0 <= k < start - 1 implies is_space(rest[k]) by {
            assert(rest[k] == text[k + 1]);
        }
        lemma_trim_start(rest, start - 1);
        assert(rest.subrange(start - 1, rest.len() as int) =~= text.subrange(
            start,
            text.len() as int,
        ));
    }
}

/// Dropping trailing white space leaves the part up to the last other character.
pub proof fn lemma_trim_end(text: Seq<char>, end: int)
    requires
        0 <= end <= text.len(),
        forall|k: int| end <= k < text.len() ==> is_space(text[k]),
        end == 0 || !is_space(text[end - 1]),
    ensures
        trim_end(text) == text.subrange(0, end),
    decreases text.len() - end,
{
    if end == text.len() {
        assert(text.subrange(0, end) =~= text);
    } else {
        let rest = text.drop_last();
        lemma_trim_end(rest, end);
        assert(rest.subrange(0, end) =~= text.subrange(0, end));
    }
}

/// Whether `c` is white space.
pub fn char_is_space(c: char) -> (space: bool)
    ensures
        space == is_space(c),
{
    let code: u32 = c as u32;
    (0x09 <= code && code <= 0x0D) || code == 0x20 || code == 0x85 || code == 0xA0 || code
        == 0x1680 || (0x2000 <= code && code <= 0x200A) || code == 0x2028 || code == 0x2029
        || code == 0x202F || code == 0x205F || code == 0x3000
}

/// Returns `text` without the white space around it.
pub fn trim(text: &String) -> (out: String)
    ensures
        out@ == trimmed(text@),
{
    let whole = text.as_str();
    let len = whole.unicode_len();
    let mut start: usize = 0;
    while start < len && char_is_space(whole.get_char(start))
        invariant
            start <= len,
            len as nat == whole@.len(),
            forall|k: int| 0 <= k < start ==> is_space(whole@[k]),
        decreases len - start,
    {
        start += 1;
    }
    let mut end: usize = len;
    while end > start && char_is_space(whole.get_char(end - 1))
        invariant
            start <= end <= len,
            len as nat == whole@.len(),
            forall|k: int| end <= k < len ==> is_space(whole@[k]),
        decreases end,
    {
        end -= 1;
    }
    proof {
        lemma_trim_start(whole@, start as int);
        let tail = whole@.subrange(start as int, len as int);
        assert forall|k: int| end - start <= k < tail.len() implies is_space(tail[k]) by {
            assert(tail[k] == whole@[k + start]);
        }
        if end > start {
            assert(tail[end - start - 1] == whole@[end - 1]);
        }
        lemma_trim_end(tail, end - start);
        assert(tail.subrange(0, end - start) =~= whole@.subrange(start as int, end as int));
    }
    whole.substring_char(start, end).to_owned()
}

/// The lines that `textwrap::wrap(text, width)` returns: `text` broken into lines
/// of at most `width` columns where it can be, under the crate's default
/// options.
pub uninterp spec fn wrapped(text: Seq<char>, width: nat) -> Seq<Seq<char>>;

/// Calls `textwrap::wrap(text, width)` and returns its lines as owned strings.
/// The contract gives the lines their name and claims nothing else of them.
#[verifier::external_body]
pub(crate) fn wrap_lines(text: &str, width: usize) -> (lines: Vec<String>)
    ensures
        strings_view(lines@) == wrapped(text@, width as nat),
{
    textwrap::wrap(text, width).into_iter().map(|line| line.into_owned()).collect()
}

/// The three dots that stand for text left out.
pub open spec fn dots() -> Seq<char> {
    seq!['.', '.', '.']
}

/// `line` with its last three characters replaced by dots; only the dots if the
/// line has no more than three characters.
pub open spec fn ellipsized(line: Seq<char>) -> Seq<char> {
    if line.len() > 3 {
        line.take(line.len() - 3) + dots()
    } else {
        dots()
    }
}

/// `lines` cut to four lines: if there are more, the first three stay and the
/// fourth ends in dots.
pub open spec fn clipped(lines: Seq<Seq<char>>) -> Seq<Seq<char>> {
    if lines.len() > 4 {
        lines.take(3).push(ellipsized(lines[3]))
    } else {
        lines
    }
}

/// Replaces the last three characters of `line` by dots.
pub fn ellipsize(line: &String) -> (out: String)
    ensures
        out@ == ellipsized(line@),
{
    proof {
        reveal_strlit("...");
        assert("..."@ =~= dots());
    }
    let text = line.as_str();
    let len = text.unicode_len();
    if len > 3 {
        let kept = text.substring_char(0, len - 3).to_owned();
        let out = kept.concat("...");
        assert(text@.subrange(0, len - 3) =~= text@.take(len - 3));
        out
    } else {
        String::from_str("...")
    }
}

/// Cuts `lines` to four lines and marks the cut with dots.
pub fn clip(lines: Vec<String>) -> (out: Vec<String>)
    ensures
        strings_view(out@) == clipped(strings_view(lines@)),
{
    let mut lines = lines;
    let ghost all = lines@;
    if lines.len() > 4 {
        lines.truncate(4);
        let last = lines.pop().unwrap();
        let marked = ellipsize(&last);
        lines.push(marked);
        assert(strings_view(lines@) =~= clipped(strings_view(all)));
    }
    lines
}

} // verus!
