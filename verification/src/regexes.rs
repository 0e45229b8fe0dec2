//! The searches that are written as regular expressions.
//!
//! The engine is the `regex` crate. What a search gives is named by [`regex_find`] and
//! [`regex_group`], and for the patterns of this library the meaning of the pattern is stated
//! beside the name.
use vstd::prelude::*;
use vstd::utf8::*;

use crate::text;

verus! {

/// A GUID that stands between word boundaries, in either case.
pub const GUID_PATTERN: &'static str =
    r"(?i)\b[0-9a-f]{8}-[0-9a-f]{4}-[0-9a-f]{4}-[0-9a-f]{4}-[0-9a-f]{12}\b";

/// A character that is part of a word.
pub const WORD_PATTERN: &'static str = r"\w";

/// A line of `reg query` that holds the value `Description`; the group is the value's data.
pub const DESCRIPTION_PATTERN: &'static str = r"(?i)^\s*Description\s+REG_\w+\s+(.*)$";

/// What `Regex::new(pattern)` and then `find(text)` give: the text before the leftmost match, the
/// match, and the text behind it; `None` where nothing matches or the pattern is no regular
/// expression.
pub uninterp spec fn regex_find(pattern: Seq<char>, text: Seq<char>) -> Option<
    (Seq<char>, Seq<char>, Seq<char>),
>;

/// What `Regex::new(pattern)` and then `captures(text)` give of the first group: `None` where
/// nothing matches or the pattern is no regular expression, `Some(None)` where the group took no
/// part in the match.
pub uninterp spec fn regex_group(pattern: Seq<char>, text: Seq<char>) -> Option<Option<Seq<char>>>;

/// The ASCII characters that count as part of a word.
pub open spec fn is_ascii_word(c: char) -> bool {
    ('0' <= c <= '9') || ('A' <= c <= 'Z') || ('a' <= c <= 'z') || c == '_'
}

/// The hexadecimal digits, in either case.
pub open spec fn is_hex(c: char) -> bool {
    ('0' <= c <= '9') || ('a' <= c <= 'f') || ('A' <= c <= 'F')
}

/// The places of the hyphens in a GUID.
pub open spec fn is_hyphen_place(i: int) -> bool {
    i == 8 || i == 13 || i == 18 || i == 23
}

/// A GUID in either case: 32 hexadecimal digits and four hyphens.
pub open spec fn is_guid(text: Seq<char>) -> bool {
    text.len() == 36 && forall|i: int|
        0 <= i < 36 ==> if is_hyphen_place(i) {
            #[trigger] text[i] == '-'
        } else {
            is_hex(text[i])
        }
}

/// `c` counts as part of a word. Of ASCII these are the letters, the digits and the underscore; of
/// the other characters those that the class `\w` has.
pub open spec fn is_word(c: char) -> bool {
    if c <= '\u{7f}' {
        is_ascii_word(c)
    } else {
        regex_find(WORD_PATTERN@, seq![c]) is Some
    }
}

/// A GUID stands at `at`, and neither neighbour is part of a word.
pub open spec fn guid_stands_at(text: Seq<char>, at: int) -> bool {
    &&& 0 <= at
    &&& at + 36 <= text.len()
    &&& is_guid(text.subrange(at, at + 36))
    &&& at > 0 ==> !is_word(text[at - 1])
    &&& at + 36 < text.len() ==> !is_word(text[at + 36])
}

/// What a search for [`GUID_PATTERN`] finds: the first place where a GUID stands by itself; nothing
/// only where there is none.
pub open spec fn guid_search(
    text: Seq<char>,
    found: Option<(Seq<char>, Seq<char>, Seq<char>)>,
) -> bool {
    match found {
        Some((before, guid, after)) => {
            &&& text == before + guid + after
            &&& guid.len() == 36
            &&& guid_stands_at(text, before.len() as int)
            &&& forall|at: int| at < before.len() ==> !guid_stands_at(text, at)
        },
        None => forall|at: int| !guid_stands_at(text, at),
    }
}

/// What is known of the search for a GUID in `text`.
pub open spec fn guid_known(text: Seq<char>) -> bool {
    guid_search(text, regex_find(GUID_PATTERN@, text))
}

/// White space only.
pub open spec fn all_white(text: Seq<char>) -> bool {
    forall|i: int| 0 <= i < text.len() ==> text::is_white(#[trigger] text[i])
}

/// `c` is the given small letter in either case; the letter s has the long s as a third form.
pub open spec fn reads_as(c: char, letter: char) -> bool {
    text::lower_char(c) == letter || (letter == 's' && c == '\u{17f}')
}

/// `name` is the name of the value that holds a description.
pub open spec fn is_description_name(name: Seq<char>) -> bool {
    name.len() == "description"@.len() && forall|i: int|
        0 <= i < name.len() ==> reads_as(#[trigger] name[i], "description"@[i])
}

/// The parts of a line that holds a description: white space, the value's name, white space, the
/// value's type, white space, and the data, which starts behind all of the white space.
pub open spec fn description_parts(
    line: Seq<char>,
    indent: Seq<char>,
    name: Seq<char>,
    gap: Seq<char>,
    kind: Seq<char>,
    space: Seq<char>,
    data: Seq<char>,
) -> bool {
    &&& line == indent + name + gap + kind + space + data
    &&& all_white(indent)
    &&& is_description_name(name)
    &&& gap.len() > 0 && all_white(gap)
    &&& kind.len() > 4 && text::lower(kind.take(4)) == "reg_"@
    &&& forall|i: int| 4 <= i < kind.len() ==> is_word(#[trigger] kind[i])
    &&& space.len() > 0 && all_white(space)
    &&& data.len() > 0 ==> !text::is_white(data[0])
    &&& !data.contains('\n')
}

/// `line` holds a description with the given data.
pub open spec fn holds_description(line: Seq<char>, data: Seq<char>) -> bool {
    exists|indent: Seq<char>, name: Seq<char>, gap: Seq<char>, kind: Seq<char>, space: Seq<char>|
        description_parts(line, indent, name, gap, kind, space, data)
}

/// What a search for [`DESCRIPTION_PATTERN`] captures: the data of a line that holds a
/// description, and nothing on any other line.
pub open spec fn description_search(
    line: Seq<char>,
    captured: Option<Option<Seq<char>>>,
) -> bool {
    &&& forall|data: Seq<char>| holds_description(line, data) ==> captured == Some(Some(data))
    &&& captured is Some ==> captured->0 is Some && holds_description(line, captured->0->0)
}

/// The views of the three pieces of a split text.
pub open spec fn piece_views(pieces: Option<(&str, &str, &str)>) -> Option<
    (Seq<char>, Seq<char>, Seq<char>),
> {
    match pieces {
        Some((before, found, after)) => Some((before@, found@, after@)),
        None => None,
    }
}

/// The view of a captured group.
pub open spec fn group_view(group: Option<Option<&str>>) -> Option<Option<Seq<char>>> {
    match group {
        Some(Some(text)) => Some(Some(text@)),
        Some(None) => Some(None),
        None => None,
    }
}

/// `regex::Regex::new` and `Regex::find`: the leftmost match of `pattern` in `text`, with what
/// stands before and behind it. Claimed are that the result depends on the two texts alone; for
/// [`GUID_PATTERN`], where the match lies, its word boundaries going by the same characters as
/// [`WORD_PATTERN`]; and for [`WORD_PATTERN`], that of ASCII it has the letters, the digits and the
/// underscore. Which other characters it has is left to the name: the crate's Unicode tables say it.
#[verifier::external_body]
pub(crate) fn find_first<'a>(pattern: &str, text: &'a str) -> (r: Option<
    (&'a str, &'a str, &'a str),
>)
    ensures
        piece_views(r) == regex_find(pattern@, text@),
        pattern@ == GUID_PATTERN@ ==> guid_search(text@, piece_views(r)),
        pattern@ == WORD_PATTERN@ && text@.len() == 1 && text@[0] <= '\u{7f}' ==> (r is Some
            <==> is_ascii_word(text@[0])),
{
    let found = regex::Regex::new(pattern).ok()?.find(text)?;
    Some((&text[..found.start()], found.as_str(), &text[found.end()..]))
}

/// `regex::Regex::new` and `Regex::captures`: the first group of the leftmost match of `pattern`
/// in `text`. Claimed are that the result depends on the two texts alone and, for
/// [`DESCRIPTION_PATTERN`], what is captured. Letters are matched in either case, where the letter
/// s of the pattern is also met by the long s, and the type's characters are those of
/// [`WORD_PATTERN`].
#[verifier::external_body]
pub(crate) fn first_group<'a>(pattern: &str, text: &'a str) -> (r: Option<Option<&'a str>>)
    ensures
        group_view(r) == regex_group(pattern@, text@),
        pattern@ == DESCRIPTION_PATTERN@ ==> description_search(text@, group_view(r)),
{
    let captures = regex::Regex::new(pattern).ok()?.captures(text)?;
    Some(captures.get(1).map(|group| group.as_str()))
}

/// Whether `c` counts as part of a word.
pub fn part_of_word(c: char) -> (r: bool)
    ensures
        r == is_word(c),
{
    let mut alone = String::new();
    alone.push(c);
    assert(alone@ =~= seq![c]);
    find_first(WORD_PATTERN, alone.as_str()).is_some()
}

} // verus!
