//! Text seen as a sequence of characters: the operations on it that the rest of the library
//! needs, each with the sequence that it gives.
use vstd::prelude::*;

verus! {

/// `String::push` appends the given character at the end of the text.
pub assume_specification[ String::push ](s: &mut String, c: char)
    ensures
        final(s)@ == old(s)@.push(c),
;

/// The characters with the Unicode property `White_Space`.
pub open spec fn is_white(c: char) -> bool {
    ||| '\u{9}' <= c <= '\u{d}'
    ||| c == ' '
    ||| c == '\u{85}'
    ||| c == '\u{a0}'
    ||| c == '\u{1680}'
    ||| '\u{2000}' <= c <= '\u{200a}'
    ||| c == '\u{2028}'
    ||| c == '\u{2029}'
    ||| c == '\u{202f}'
    ||| c == '\u{205f}'
    ||| c == '\u{3000}'
}

/// The control characters: the Unicode category `Cc`.
pub open spec fn is_control(c: char) -> bool {
    c <= '\u{1f}' || '\u{7f}' <= c <= '\u{9f}'
}

/// The lower-case form of an ASCII letter; any other character as it is.
pub open spec fn lower_char(c: char) -> char {
    if 'A' <= c <= 'Z' {
        ((c as u32 + 32) as u32) as char
    } else {
        c
    }
}

/// `text` with its ASCII letters in lower case.
pub open spec fn lower(text: Seq<char>) -> Seq<char> {
    Seq::new(text.len(), |i: int| lower_char(text[i]))
}

/// Equality that takes an ASCII letter and its other case for the same character.
pub open spec fn same_ignoring_case(a: Seq<char>, b: Seq<char>) -> bool {
    lower(a) == lower(b)
}

/// `part` stands in `text` from position `at` on.
pub open spec fn stands_at(text: Seq<char>, part: Seq<char>, at: int) -> bool {
    0 <= at && at + part.len() <= text.len() && text.subrange(at, at + part.len()) == part
}

/// `part` stands somewhere in `text`.
pub open spec fn contains(text: Seq<char>, part: Seq<char>) -> bool {
    exists|at: int| stands_at(text, part, at)
}

/// A set of characters that is cut off the ends of a text.
#[derive(Clone, Copy, PartialEq, Eq, Structural, Debug)]
pub enum CharClass {
    /// White space.
    White,
    /// The full stop and the space.
    DotOrSpace,
}

impl CharClass {
    /// Membership of a character.
    pub open spec fn has(self, c: char) -> bool {
        match self {
            CharClass::White => is_white(c),
            CharClass::DotOrSpace => c == '.' || c == ' ',
        }
    }
}

/// `text` without the characters of `class` that stand at its start.
pub open spec fn cut_start(text: Seq<char>, class: CharClass) -> Seq<char>
    decreases text.len(),
{
    if text.len() > 0 && class.has(text.first()) {
        cut_start(text.drop_first(), class)
    } else {
        text
    }
}

/// `text` without the characters of `class` that stand at its end.
pub open spec fn cut_end(text: Seq<char>, class: CharClass) -> Seq<char>
    decreases text.len(),
{
    if text.len() > 0 && class.has(text.last()) {
        cut_end(text.drop_last(), class)
    } else {
        text
    }
}

/// `text` without the characters of `class` at either end.
pub open spec fn cut(text: Seq<char>, class: CharClass) -> Seq<char> {
    cut_end(cut_start(text, class), class)
}

/// `text` without white space at either end.
pub open spec fn trimmed(text: Seq<char>) -> Seq<char> {
    cut(text, CharClass::White)
}

/// The lines of `text`. A line ends at a line feed, which is left out together with one carriage
/// return right before it. The last line needs no line feed.
pub open spec fn lines_of(text: Seq<char>) -> Seq<Seq<char>>
    decreases text.len(),
{
    if text.len() == 0 {
        Seq::empty()
    } else {
        match text.index_of_first('\n') {
            Some(end) => if 0 <= end < text.len() {
                seq![line_body(text.take(end))] + lines_of(text.skip(end + 1))
            } else {
                Seq::empty()
            },
            None => seq![text],
        }
    }
}

/// A line that was ended by a line feed, without the carriage return before that line feed.
pub open spec fn line_body(line: Seq<char>) -> Seq<char> {
    if line.len() > 0 && line.last() == '\r' {
        line.drop_last()
    } else {
        line
    }
}

/// The parts one after another, with `separator` between each two.
pub open spec fn joined(parts: Seq<Seq<char>>, separator: Seq<char>) -> Seq<char>
    decreases parts.len(),
{
    if parts.len() == 0 {
        Seq::empty()
    } else if parts.len() == 1 {
        parts[0]
    } else {
        joined(parts.drop_last(), separator) + separator + parts.last()
    }
}

/// The views of some strings.
pub open spec fn views(texts: Seq<String>) -> Seq<Seq<char>> {
    Seq::new(texts.len(), |i: int| texts[i]@)
}

/// A decimal or hexadecimal digit, in lower case.
pub open spec fn digit_char(d: nat) -> char {
    if d < 10 {
        ((48 + d) as u32) as char
    } else {
        ((87 + d) as u32) as char
    }
}

/// The decimal digits of `n`, without leading zeros.
pub open spec fn decimal(n: nat) -> Seq<char>
    decreases n,
{
    if n < 10 {
        seq![digit_char(n)]
    } else {
        decimal(n / 10).push(digit_char(n % 10))
    }
}

/// White space, as [`is_white`] has it.
pub fn white(c: char) -> (r: bool)
    ensures
        r == is_white(c),
{
    ('\u{9}' <= c && c <= '\u{d}') || c == ' ' || c == '\u{85}' || c == '\u{a0}' || c == '\u{1680}'
        || ('\u{2000}' <= c && c <= '\u{200a}') || c == '\u{2028}' || c == '\u{2029}' || c
        == '\u{202f}' || c == '\u{205f}' || c == '\u{3000}'
}

/// Control characters, as [`is_control`] has them.
pub fn control(c: char) -> (r: bool)
    ensures
        r == is_control(c),
{
    c <= '\u{1f}' || ('\u{7f}' <= c && c <= '\u{9f}')
}

/// The characters of `text`, in order.
pub fn chars_of(text: &str) -> (r: Vec<char>)
    ensures
        r@ == text@,
{
    let mut r: Vec<char> = Vec::new();
    for c in it: text.chars()
        invariant
            r@ == it.seq().take(it.index() as int),
    {
        r.push(c);
    }
    r
}

/// The text made of `chars` from position `from` up to position `to`.
pub fn text_between(chars: &Vec<char>, from: usize, to: usize) -> (r: String)
    requires
        from <= to <= chars.len(),
    ensures
        r@ == chars@.subrange(from as int, to as int),
{
    let mut r = String::new();
    let mut i: usize = from;
    while i < to
        invariant
            from <= i <= to <= chars.len(),
            r@ == chars@.subrange(from as int, i as int),
        decreases to - i,
    {
        r.push(chars[i]);
        i = i + 1;
        assert(chars@.subrange(from as int, i as int).drop_last() == chars@.subrange(
            from as int,
            i - 1,
        ));
    }
    r
}

/// Whether two texts hold the same characters.
pub fn same(a: &str, b: &str) -> (r: bool)
    ensures
        r == (a@ == b@),
{
    a.to_owned() == b.to_owned()
}

/// The lower-case form of one character, as [`lower_char`] has it.
pub fn lower_of_char(c: char) -> (r: char)
    ensures
        r == lower_char(c),
{
    if 'A' <= c && c <= 'Z' {
        let b: u8 = c as u8;
        (b + 32) as char
    } else {
        c
    }
}

/// `text` with its ASCII letters in lower case.
pub fn lower_of(text: &str) -> (r: String)
    ensures
        r@ == lower(text@),
{
    let chars = chars_of(text);
    let mut r = String::new();
    let mut i: usize = 0;
    while i < chars.len()
        invariant
            i <= chars.len(),
            chars@ == text@,
            r@ == lower(text@).take(i as int),
        decreases chars.len() - i,
    {
        r.push(lower_of_char(chars[i]));
        i = i + 1;
        assert(lower(text@).take(i as int).drop_last() == lower(text@).take(i - 1));
    }
    assert(lower(text@).take(i as int) == lower(text@));
    r
}

/// Whether two texts are the same but for the case of their ASCII letters.
pub fn equals_ignoring_case(a: &str, b: &str) -> (r: bool)
    ensures
        r == same_ignoring_case(a@, b@),
{
    same(lower_of(a).as_str(), lower_of(b).as_str())
}

/// Whether `part` stands somewhere in `text`.
pub fn has_part(text: &str, part: &str) -> (r: bool)
    ensures
        r == contains(text@, part@),
{
    let t = chars_of(text);
    let p = chars_of(part);
    if p.len() > t.len() {
        return false;
    }
    let last: usize = t.len() - p.len();
    let mut at: usize = 0;
    while at <= last
        invariant
            t@ == text@,
            p@ == part@,
            last == t.len() - p.len(),
            at <= last + 1,
            forall|k: int| 0 <= k < at ==> !stands_at(text@, part@, k),
        decreases last + 1 - at,
    {
        let mut i: usize = 0;
        while i < p.len() && t[at + i] == p[i]
            invariant
                t@ == text@,
                p@ == part@,
                i <= p.len(),
                at + p.len() <= t.len(),
                forall|k: int| 0 <= k < i ==> t[at + k] == p[k],
            decreases p.len() - i,
        {
            i = i + 1;
        }
        if i == p.len() {
            assert(text@.subrange(at as int, at + part@.len()) =~= part@);
            assert(stands_at(text@, part@, at as int));
            return true;
        }
        assert(text@.subrange(at as int, at + part@.len())[i as int] != part@[i as int]);
        if at == last {
            return false;
        }
        at = at + 1;
    }
    false
}

/// Membership of a character in a class.
pub fn in_class(class: CharClass, c: char) -> (r: bool)
    ensures
        r == class.has(c),
{
    match class {
        CharClass::White => white(c),
        CharClass::DotOrSpace => c == '.' || c == ' ',
    }
}

proof fn lemma_cut_start(text: Seq<char>, class: CharClass, at: int)
    requires
        0 <= at <= text.len(),
        forall|k: int| 0 <= k < at ==> class.has(text[k]),
        at < text.len() ==> !class.has(text[at]),
    ensures
        cut_start(text, class) == text.skip(at),
    decreases at,
{
    if at == 0 {
        assert(text.skip(0) == text);
    } else {
        let rest = text.drop_first();
        assert forall|k: int| 0 <= k < at - 1 implies class.has(rest[k]) by {
            assert(class.has(text[k + 1]));
        }
        lemma_cut_start(rest, class, at - 1);
        assert(rest.skip(at - 1) == text.skip(at));
    }
}

proof fn lemma_cut_end(text: Seq<char>, class: CharClass, at: int)
    requires
        0 <= at <= text.len(),
        forall|k: int| at <= k < text.len() ==> class.has(text[k]),
        at > 0 ==> !class.has(text[at - 1]),
    ensures
        cut_end(text, class) == text.take(at),
    decreases text.len() - at,
{
    if at == text.len() {
        assert(text.take(at) == text);
    } else {
        lemma_cut_end(text.drop_last(), class, at);
        assert(text.drop_last().take(at) == text.take(at));
    }
}

/// A text cut at both ends is a stretch of the text it was cut from, and no character of the
/// class stands at either of its ends.
pub proof fn lemma_cut_is_stretch(text: Seq<char>, class: CharClass)
    ensures
        exists|from: int, to: int|
            0 <= from <= to <= text.len() && #[trigger] text.subrange(from, to) == cut(text, class),
        cut(text, class).len() > 0 ==> !class.has(cut(text, class).first()) && !class.has(
            cut(text, class).last(),
        ),
{
    let (from, to) = lemma_cut_bounds(text, class);
    assert(text.subrange(from, to) == cut(text, class));
}

proof fn lemma_cut_bounds(text: Seq<char>, class: CharClass) -> (r: (int, int))
    ensures
        0 <= r.0 <= r.1 <= text.len(),
        text.subrange(r.0, r.1) == cut(text, class),
        cut(text, class).len() > 0 ==> !class.has(cut(text, class).first()) && !class.has(
            cut(text, class).last(),
        ),
    decreases text.len(),
{
    if text.len() == 0 {
        assert(text.subrange(0, 0) == text);
        (0, 0)
    } else if class.has(text.first()) {
        let (from, to) = lemma_cut_bounds(text.drop_first(), class);
        assert(text.drop_first().subrange(from, to) == text.subrange(from + 1, to + 1));
        (from + 1, to + 1)
    } else if class.has(text.last()) {
        let (from, to) = lemma_cut_bounds(text.drop_last(), class);
        assert(text.drop_last().subrange(from, to) == text.subrange(from, to));
        assert(text.drop_last().first() == text.first() || text.drop_last().len() == 0);
        (from, to)
    } else {
        assert(text.subrange(0, text.len() as int) == text);
        (0, text.len() as int)
    }
}

/// Cutting the white space off a text twice is cutting it off once.
pub proof fn lemma_trimmed_stays(text: Seq<char>)
    ensures
        trimmed(trimmed(text)) == trimmed(text),
{
    lemma_cut_is_stretch(text, CharClass::White);
}

/// `text` without the characters of `class` at its start.
pub fn cut_start_of(text: &str, class: CharClass) -> (r: String)
    ensures
        r@ == cut_start(text@, class),
{
    let chars = chars_of(text);
    let mut from: usize = 0;
    while from < chars.len() && in_class(class, chars[from])
        invariant
            from <= chars.len(),
            forall|k: int| 0 <= k < from ==> class.has(chars[k]),
        decreases chars.len() - from,
    {
        from = from + 1;
    }
    proof {
        lemma_cut_start(text@, class, from as int);
    }
    text_between(&chars, from, chars.len())
}

/// `text` without the characters of `class` at its end.
pub fn cut_end_of(text: &str, class: CharClass) -> (r: String)
    ensures
        r@ == cut_end(text@, class),
{
    let chars = chars_of(text);
    let mut to: usize = chars.len();
    while to > 0 && in_class(class, chars[to - 1])
        invariant
            to <= chars.len(),
            forall|k: int| to <= k < chars.len() ==> class.has(chars[k]),
        decreases to,
    {
        to = to - 1;
    }
    proof {
        lemma_cut_end(text@, class, to as int);
    }
    text_between(&chars, 0, to)
}

/// `text` without white space at either end.
pub fn trim(text: &str) -> (r: String)
    ensures
        r@ == trimmed(text@),
{
    cut_end_of(cut_start_of(text, CharClass::White).as_str(), CharClass::White)
}

/// The first position of `c` in `chars` from position `from` on.
pub fn position_from(chars: &Vec<char>, c: char, from: usize) -> (r: Option<usize>)
    requires
        from <= chars.len(),
    ensures
        match r {
            Some(at) => from <= at < chars.len() && chars[at as int] == c && forall|k: int|
                from <= k < at ==> chars[k] != c,
            None => forall|k: int| from <= k < chars.len() ==> chars[k] != c,
        },
{
    let mut i: usize = from;
    while i < chars.len()
        invariant
            from <= i <= chars.len(),
            forall|k: int| from <= k < i ==> chars[k] != c,
        decreases chars.len() - i,
    {
        if chars[i] == c {
            return Some(i);
        }
        i = i + 1;
    }
    None
}

/// The first position of an item is the only one that holds it with no equal item before.
pub proof fn lemma_first_position<A>(items: Seq<A>, item: A, at: int)
    requires
        0 <= at < items.len(),
        items[at] == item,
        forall|k: int| 0 <= k < at ==> items[k] != item,
    ensures
        items.index_of_first(item) == Some(at),
{
    items.index_of_first_ensures(item);
}

/// The last position of an item is the only one that holds it with no equal item behind.
pub proof fn lemma_last_position<A>(items: Seq<A>, item: A, at: int)
    requires
        0 <= at < items.len(),
        items[at] == item,
        forall|k: int| at < k < items.len() ==> items[k] != item,
    ensures
        items.index_of_last(item) == Some(at),
{
    items.index_of_last_ensures(item);
}

/// An item that does not occur has no position.
pub proof fn lemma_no_position<A>(items: Seq<A>, item: A)
    requires
        forall|k: int| 0 <= k < items.len() ==> items[k] != item,
    ensures
        items.index_of_first(item) is None,
        items.index_of_last(item) is None,
{
    items.index_of_first_ensures(item);
    items.index_of_last_ensures(item);
}

/// The lines of `text`.
pub fn lines(text: &str) -> (r: Vec<String>)
    ensures
        views(r@) == lines_of(text@),
{
    let chars = chars_of(text);
    let mut r: Vec<String> = Vec::new();
    let mut from: usize = 0;
    assert(text@.skip(0) == text@);
    while from < chars.len()
        invariant
            from <= chars.len(),
            chars@ == text@,
            views(r@) + lines_of(text@.skip(from as int)) == lines_of(text@),
        decreases chars.len() - from,
    {
        let ghost rest = text@.skip(from as int);
        let ghost before = r@;
        match position_from(&chars, '\n', from) {
            Some(end) => {
                proof {
                    assert forall|k: int| 0 <= k < end - from implies rest[k] != '\n' by {
                        assert(chars[from + k] != '\n');
                    }
                    lemma_first_position(rest, '\n', end - from);
                    assert(rest.take(end - from) == text@.subrange(from as int, end as int));
                    assert(rest.skip(end - from + 1) == text@.skip(end + 1));
                }
                let mut to: usize = end;
                if to > from && chars[to - 1] == '\r' {
                    to = to - 1;
                }
                assert(text@.subrange(from as int, to as int) == line_body(
                    rest.take(end - from),
                ));
                r.push(text_between(&chars, from, to));
                from = end + 1;
            },
            None => {
                proof {
                    assert forall|k: int| 0 <= k < rest.len() implies rest[k] != '\n' by {
                        assert(chars[from + k] != '\n');
                    }
                    lemma_no_position(rest, '\n');
                    assert(rest == text@.subrange(from as int, chars.len() as int));
                    assert(text@.skip(chars.len() as int).len() == 0);
                }
                r.push(text_between(&chars, from, chars.len()));
                from = chars.len();
            },
        }
        assert(views(r@) == views(before).push(r@.last()@));
        assert(views(r@) + lines_of(text@.skip(from as int)) == views(before) + lines_of(rest));
    }
    assert(text@.skip(from as int).len() == 0);
    r
}

/// The parts one after another, with `separator` between each two.
pub fn join(parts: &Vec<String>, separator: &str) -> (r: String)
    ensures
        r@ == joined(views(parts@), separator@),
{
    let mut r = String::new();
    let mut i: usize = 0;
    while i < parts.len()
        invariant
            i <= parts.len(),
            r@ == joined(views(parts@).take(i as int), separator@),
        decreases parts.len() - i,
    {
        if i > 0 {
            r.append(separator);
        }
        r.append(parts[i].as_str());
        i = i + 1;
        assert(views(parts@).take(i as int).drop_last() == views(parts@).take(i - 1));
    }
    assert(views(parts@).take(i as int) == views(parts@));
    r
}

/// One digit, as [`digit_char`] has it.
pub fn digit(d: u8) -> (r: char)
    requires
        d < 16,
    ensures
        r == digit_char(d as nat),
{
    if d < 10 {
        (48 + d) as char
    } else {
        (87 + d) as char
    }
}

/// `n` in decimal digits.
pub fn decimal_of_u128(n: u128) -> (r: String)
    ensures
        r@ == decimal(n as nat),
    decreases n,
{
    let mut r = if n < 10 {
        String::new()
    } else {
        decimal_of_u128(n / 10)
    };
    r.push(digit((n % 10) as u8));
    r
}

/// `n` in decimal digits.
pub fn decimal_of(n: usize) -> (r: String)
    ensures
        r@ == decimal(n as nat),
{
    decimal_of_u128(n as u128)
}

/// A number in decimal digits is made of digits, at least one of them.
pub proof fn lemma_decimal_digits(n: nat)
    ensures
        decimal(n).len() > 0,
        forall|i: int| 0 <= i < decimal(n).len() ==> '0' <= #[trigger] decimal(n)[i] <= '9',
    decreases n,
{
    if n >= 10 {
        lemma_decimal_digits(n / 10);
    }
}

/// Different numbers differ in decimal digits.
pub proof fn lemma_decimal_injective(a: nat, b: nat)
    requires
        decimal(a) == decimal(b),
    ensures
        a == b,
    decreases a,
{
    lemma_decimal_digits(a / 10);
    lemma_decimal_digits(b / 10);
    assert(decimal(a).last() == digit_char(a % 10));
    assert(decimal(b).last() == digit_char(b % 10));
    if a >= 10 && b >= 10 {
        assert(decimal(a).drop_last() == decimal(a / 10));
        assert(decimal(b).drop_last() == decimal(b / 10));
        lemma_decimal_injective(a / 10, b / 10);
    }
}

} // verus!
