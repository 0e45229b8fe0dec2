//! What the operations on texts give, said of the characters alone.
use vstd::prelude::*;

use crate::guid;
use crate::paths;
use crate::regexes;
use crate::text;
use crate::text::CharClass;

verus! {

/// Lower case changes the letters A to Z into a to z and nothing else.
pub proof fn law_lower_case(whole: Seq<char>)
    ensures
        text::lower(whole).len() == whole.len(),
        forall|i: int|
            0 <= i < whole.len() ==> if 'A' <= whole[i] <= 'Z' {
                (#[trigger] text::lower(whole)[i]) as int == whole[i] as int + 32
            } else {
                text::lower(whole)[i] == whole[i]
            },
{
}

/// The two characters are the same, or one is a letter from A to Z and the other its small form.
pub open spec fn same_letter(a: char, b: char) -> bool {
    ||| a == b
    ||| 'A' <= a <= 'Z' && b as int == a as int + 32
    ||| 'A' <= b <= 'Z' && a as int == b as int + 32
}

/// Two texts are the same in either case exactly where they agree letter by letter.
pub proof fn law_same_in_either_case(a: Seq<char>, b: Seq<char>)
    ensures
        text::same_ignoring_case(a, b) <==> a.len() == b.len() && forall|i: int|
            0 <= i < a.len() ==> same_letter(#[trigger] a[i], b[i]),
{
    if text::same_ignoring_case(a, b) {
        assert(text::lower(a).len() == a.len());
        assert(text::lower(b).len() == b.len());
        assert forall|i: int| 0 <= i < a.len() implies same_letter(#[trigger] a[i], b[i]) by {
            assert(text::lower(a)[i] == text::lower(b)[i]);
        }
    }
    if a.len() == b.len() && forall|i: int| 0 <= i < a.len() ==> same_letter(#[trigger] a[i], b[i]) {
        assert forall|i: int| 0 <= i < a.len() implies text::lower(a)[i] == text::lower(b)[i] by {
            assert(same_letter(a[i], b[i]));
        }
        assert(text::lower(a) =~= text::lower(b));
    }
}

/// A part stands in a text exactly where the text is something, the part and something.
pub proof fn law_contains(whole: Seq<char>, part: Seq<char>)
    ensures
        text::contains(whole, part) <==> exists|before: Seq<char>, after: Seq<char>|
            whole == #[trigger] (before + part + after),
{
    if text::contains(whole, part) {
        let at = choose|at: int| text::stands_at(whole, part, at);
        let before = whole.take(at);
        let after = whole.skip(at + part.len());
        assert(whole =~= before + part + after);
    }
    if exists|before: Seq<char>, after: Seq<char>| whole == #[trigger] (before + part + after) {
        let (before, after) = choose|before: Seq<char>, after: Seq<char>|
            whole == #[trigger] (before + part + after);
        let at = before.len() as int;
        assert(whole.subrange(at, at + part.len()) =~= part);
        assert(text::stands_at(whole, part, at));
    }
}

/// All characters of a text are in a class.
pub open spec fn all_in(whole: Seq<char>, class: CharClass) -> bool {
    forall|i: int| 0 <= i < whole.len() ==> class.has(#[trigger] whole[i])
}

/// White space by its code points: the tab to the carriage return, the space, the next line, the
/// no-break space, the Ogham space mark, the spaces from the en quad to the hair space, the line and
/// the paragraph separator, the narrow no-break, the mathematical and the ideographic space.
pub proof fn law_white_space(c: char)
    ensures
        text::is_white(c) <==> {
            let code = c as int;
            ||| code == 9 || code == 10 || code == 11 || code == 12 || code == 13 || code == 32
            ||| code == 133 || code == 160 || code == 5760
            ||| 8192 <= code < 8203
            ||| code == 8232 || code == 8233 || code == 8239 || code == 8287 || code == 12288
        },
{
}

/// The control characters by their code points: those before the space, and those from the delete
/// character up to the no-break space.
pub proof fn law_control_characters(c: char)
    ensures
        text::is_control(c) <==> (c as int) < 32 || 127 <= c as int && (c as int) < 160,
{
}

/// The classes that are cut off: white space, and the full stop and the space.
pub proof fn law_classes(c: char)
    ensures
        CharClass::White.has(c) <==> text::is_white(c),
        CharClass::DotOrSpace.has(c) <==> c as int == 46 || c as int == 32,
{
}

proof fn lemma_cut_start_parts(whole: Seq<char>, class: CharClass) -> (front: Seq<char>)
    ensures
        whole == front + text::cut_start(whole, class),
        all_in(front, class),
        text::cut_start(whole, class).len() > 0 ==> !class.has(text::cut_start(whole, class)[0]),
    decreases whole.len(),
{
    if whole.len() > 0 && class.has(whole.first()) {
        let rest = lemma_cut_start_parts(whole.drop_first(), class);
        let front = seq![whole[0]] + rest;
        let left = text::cut_start(whole, class);
        assert(whole =~= seq![whole[0]] + whole.drop_first());
        assert(seq![whole[0]] + (rest + left) =~= front + left);
        front
    } else {
        assert(whole =~= Seq::<char>::empty() + whole);
        Seq::empty()
    }
}

proof fn lemma_cut_end_parts(whole: Seq<char>, class: CharClass) -> (back: Seq<char>)
    ensures
        whole == text::cut_end(whole, class) + back,
        all_in(back, class),
        text::cut_end(whole, class).len() > 0 ==> !class.has(text::cut_end(whole, class).last()),
    decreases whole.len(),
{
    if whole.len() > 0 && class.has(whole.last()) {
        let rest = lemma_cut_end_parts(whole.drop_last(), class);
        let back = rest.push(whole.last());
        let left = text::cut_end(whole, class);
        assert(whole =~= whole.drop_last().push(whole.last()));
        assert((left + rest).push(whole.last()) =~= left + back);
        back
    } else {
        assert(whole =~= whole + Seq::<char>::empty());
        Seq::empty()
    }
}

/// What is cut off at the start of a text is all that stands there of the class, and nothing else.
pub proof fn law_cut_start(whole: Seq<char>, class: CharClass)
    ensures
        exists|front: Seq<char>|
            whole == #[trigger] (front + text::cut_start(whole, class)) && all_in(front, class),
        text::cut_start(whole, class).len() > 0 ==> !class.has(text::cut_start(whole, class)[0]),
{
    let front = lemma_cut_start_parts(whole, class);
}

/// What is cut off at the end of a text is all that stands there of the class, and nothing else.
pub proof fn law_cut_end(whole: Seq<char>, class: CharClass)
    ensures
        exists|back: Seq<char>|
            whole == #[trigger] (text::cut_end(whole, class) + back) && all_in(back, class),
        text::cut_end(whole, class).len() > 0 ==> !class.has(text::cut_end(whole, class).last()),
{
    let back = lemma_cut_end_parts(whole, class);
}

/// A text is what is cut off at its ends, all of it of the class, and between it what is left, which
/// neither starts nor ends with a character of the class.
pub proof fn law_cut(whole: Seq<char>, class: CharClass)
    ensures
        exists|front: Seq<char>, back: Seq<char>|
            whole == #[trigger] (front + text::cut(whole, class) + back) && all_in(front, class)
                && all_in(back, class),
        text::cut(whole, class).len() > 0 ==> !class.has(text::cut(whole, class)[0]) && !class.has(
            text::cut(whole, class).last(),
        ),
{
    let front = lemma_cut_start_parts(whole, class);
    let middle = text::cut_start(whole, class);
    let back = lemma_cut_end_parts(middle, class);
    assert(whole =~= front + text::cut(whole, class) + back);
    if text::cut(whole, class).len() > 0 {
        assert(text::cut(whole, class)[0] == middle[0]);
    }
}

/// Trimming takes the white space off both ends of a text, and nothing else.
pub proof fn law_trimmed(whole: Seq<char>)
    ensures
        exists|front: Seq<char>, back: Seq<char>|
            whole == #[trigger] (front + text::trimmed(whole) + back) && all_in(
                front,
                CharClass::White,
            ) && all_in(back, CharClass::White),
        text::trimmed(whole).len() > 0 ==> !text::is_white(text::trimmed(whole)[0])
            && !text::is_white(text::trimmed(whole).last()),
{
    law_cut(whole, CharClass::White);
}

/// No text has lines without characters. A text up to a line feed is a line, without one carriage
/// return before the line feed, and what follows is the other lines. A text without a line feed is
/// one line.
pub proof fn law_lines(line: Seq<char>, rest: Seq<char>)
    requires
        !line.contains('\n'),
    ensures
        text::lines_of(Seq::empty()) == Seq::<Seq<char>>::empty(),
        line.len() > 0 ==> text::lines_of(line) == seq![line],
        text::lines_of(line + seq!['\n'] + rest) == seq![
            if line.len() > 0 && line[line.len() - 1] == '\r' {
                line.take(line.len() - 1)
            } else {
                line
            },
        ] + text::lines_of(rest),
{
    let whole = line + seq!['\n'] + rest;
    text::lemma_no_position(line, '\n');
    line.index_of_first_ensures('\n');
    text::lemma_first_position(whole, '\n', line.len() as int);
    assert(whole.take(line.len() as int) =~= line);
    assert(whole.skip(line.len() as int + 1) =~= rest);
    if line.len() > 0 {
        assert(line.drop_last() =~= line.take(line.len() - 1));
    }
}

/// Nothing joined is nothing, one part is itself, and a further part comes behind the separator.
pub proof fn law_joined(parts: Seq<Seq<char>>, part: Seq<char>, separator: Seq<char>)
    ensures
        text::joined(Seq::empty(), separator) == Seq::<char>::empty(),
        text::joined(seq![part], separator) == part,
        parts.len() > 0 ==> text::joined(parts.push(part), separator) == text::joined(
            parts,
            separator,
        ) + separator + part,
{
    if parts.len() > 0 {
        assert(parts.push(part).drop_last() =~= parts);
    }
}

/// The number that some decimal digits stand for.
pub open spec fn value_of(digits: Seq<char>) -> int
    decreases digits.len(),
{
    if digits.len() == 0 {
        0
    } else {
        10 * value_of(digits.drop_last()) + (digits.last() as int - '0' as int)
    }
}

/// A number is shown in decimal digits that stand for it, without a zero in front.
pub proof fn law_decimal(n: nat)
    ensures
        value_of(text::decimal(n)) == n,
        forall|i: int|
            0 <= i < text::decimal(n).len() ==> '0' <= #[trigger] text::decimal(n)[i] <= '9',
        text::decimal(n).len() > 0,
        text::decimal(n).len() > 1 ==> text::decimal(n)[0] != '0',
    decreases n,
{
    text::lemma_decimal_digits(n);
    assert(value_of(Seq::empty()) == 0);
    assert(text::digit_char(n % 10) as int == '0' as int + n % 10);
    if n >= 10 {
        law_decimal(n / 10);
        let front = text::decimal(n / 10);
        assert(text::decimal(n).drop_last() =~= front);
        if front.len() == 1 {
            assert(front.drop_last() =~= Seq::empty());
            assert(value_of(front) == front[0] as int - '0' as int);
        }
    } else {
        assert(text::decimal(n).drop_last() =~= Seq::empty());
    }
}

/// The hexadecimal digits are the decimal digits and the small letters a to f.
pub proof fn law_hexadecimal_digits(d: nat)
    requires
        d < 16,
    ensures
        text::digit_char(d) == "0123456789abcdef"@[d as int],
{
    reveal_strlit("0123456789abcdef");
}

/// The digits of a value in the form of a GUID are those of the value, from the first to the last of
/// 32, in groups of eight, four, four, four and twelve with hyphens between.
pub proof fn law_digits_of_a_guid(value: u128, k: int)
    requires
        0 <= k < 32,
    ensures
        ({
            let whole = guid::guid_text(value);
            let digit = ((value >> ((4 * (31 - k)) as u128)) & 15) as nat;
            let place = if k < 8 {
                k
            } else if k < 12 {
                k + 1
            } else if k < 16 {
                k + 2
            } else if k < 20 {
                k + 3
            } else {
                k + 4
            };
            &&& whole.len() == 36
            &&& whole[place] == text::digit_char(digit)
            &&& whole[8] == '-' && whole[13] == '-' && whole[18] == '-' && whole[23] == '-'
        }),
{
}

/// A generated GUID is the time mixed with the process number, but for the four bits of the version
/// and the two of the variant, which are fixed.
pub proof fn law_bits_of_a_generated_guid(nanos: u128, process_id: u32)
    ensures
        ({
            let value = guid::stamped_value(nanos, process_id);
            let mixed = nanos ^ ((process_id as u128) << 64);
            &&& value & 0xffff_ffff_ffff_0fff_3fff_ffff_ffff_ffff_u128 == mixed
                & 0xffff_ffff_ffff_0fff_3fff_ffff_ffff_ffff_u128
            &&& value & 0xf000_c000_0000_0000_0000_u128 == 0x4000_8000_0000_0000_0000_u128
        }),
{
    let mixed = nanos ^ ((process_id as u128) << 64);
    assert(((((mixed & !(0xf_u128 << 76)) | (0x4_u128 << 76)) & !(0x3_u128 << 62)) | (0x2_u128
        << 62)) & 0xffff_ffff_ffff_0fff_3fff_ffff_ffff_ffff_u128 == mixed
        & 0xffff_ffff_ffff_0fff_3fff_ffff_ffff_ffff_u128) by (bit_vector);
    assert(((((mixed & !(0xf_u128 << 76)) | (0x4_u128 << 76)) & !(0x3_u128 << 62)) | (0x2_u128
        << 62)) & 0xf000_c000_0000_0000_0000_u128 == 0x4000_8000_0000_0000_0000_u128)
        by (bit_vector);
}

/// A canonical GUID is eight, four, four, four and twelve digits or small letters from a to f, with
/// hyphens between.
pub proof fn law_canonical_guid(whole: Seq<char>)
    ensures
        guid::is_canonical_guid(whole) <==> whole.len() == 36 && forall|i: int|
            0 <= i < 36 ==> if i == 8 || i == 13 || i == 18 || i == 23 {
                #[trigger] whole[i] == '-'
            } else {
                ('0' <= whole[i] <= '9') || ('a' <= whole[i] <= 'f')
            },
{
    if guid::is_canonical_guid(whole) {
        assert forall|i: int| 0 <= i < 36 implies if i == 8 || i == 13 || i == 18 || i == 23 {
            #[trigger] whole[i] == '-'
        } else {
            ('0' <= whole[i] <= '9') || ('a' <= whole[i] <= 'f')
        } by {
            assert(text::lower(whole)[i] == whole[i]);
            assert(regexes::is_hyphen_place(i) ==> whole[i] == '-');
        }
    }
    if whole.len() == 36 && forall|i: int|
        0 <= i < 36 ==> if i == 8 || i == 13 || i == 18 || i == 23 {
            #[trigger] whole[i] == '-'
        } else {
            ('0' <= whole[i] <= '9') || ('a' <= whole[i] <= 'f')
        } {
        assert forall|i: int| 0 <= i < 36 implies if regexes::is_hyphen_place(i) {
            #[trigger] whole[i] == '-'
        } else {
            regexes::is_hex(whole[i])
        } by {}
        assert(text::lower(whole) =~= whole);
    }
}

/// A GUID stands at `at` in `whole`, and no GUID stands before it.
pub open spec fn stands_first(whole: Seq<char>, at: int) -> bool {
    regexes::guid_stands_at(whole, at) && forall|before: int|
        before < at ==> !#[trigger] regexes::guid_stands_at(whole, before)
}

/// The GUID in a text is the one that stands first, in lower case; there is none only where none
/// stands there.
pub proof fn law_guid_in(whole: Seq<char>)
    requires
        regexes::guid_known(whole),
    ensures
        match guid::guid_in(whole) {
            Some(found) => exists|at: int|
                #[trigger] stands_first(whole, at) && found == text::lower(
                    whole.subrange(at, at + 36),
                ),
            None => forall|at: int| !#[trigger] regexes::guid_stands_at(whole, at),
        },
        forall|at: int|
            #[trigger] stands_first(whole, at) ==> guid::guid_in(whole) == Some(
                text::lower(whole.subrange(at, at + 36)),
            ),
{
    if let Some((before, found, after)) = regexes::regex_find(regexes::GUID_PATTERN@, whole) {
        let at = before.len() as int;
        assert(whole.subrange(at, at + 36) =~= found);
        assert(stands_first(whole, at));
        assert forall|other: int| #[trigger] stands_first(whole, other) implies other == at by {
            assert(regexes::guid_stands_at(whole, other));
            assert(regexes::guid_stands_at(whole, at));
        }
    }
}

proof fn lemma_bytes_differ(a: Seq<u8>, b: Seq<u8>, i: int)
    requires
        0 <= i <= a.len(),
        i < b.len(),
        a.take(i) == b.take(i),
        i < a.len() ==> a[i] < b[i],
    ensures
        paths::bytes_less(a, b),
    decreases a.len(),
{
    if i > 0 {
        assert(a.take(i)[0] == b.take(i)[0]);
        assert(a.take(i)[0] == a[0]);
        assert(b.take(i)[0] == b[0]);
        assert(a.drop_first().take(i - 1) =~= a.take(i).drop_first());
        assert(b.drop_first().take(i - 1) =~= b.take(i).drop_first());
        lemma_bytes_differ(a.drop_first(), b.drop_first(), i - 1);
    }
}

proof fn lemma_bytes_place(a: Seq<u8>, b: Seq<u8>) -> (i: int)
    requires
        paths::bytes_less(a, b),
    ensures
        0 <= i <= a.len(),
        i < b.len(),
        a.take(i) == b.take(i),
        i < a.len() ==> a[i] < b[i],
    decreases a.len(),
{
    if a.len() == 0 || a[0] < b[0] {
        assert(a.take(0) =~= b.take(0));
        0
    } else {
        let i = lemma_bytes_place(a.drop_first(), b.drop_first());
        assert(a.take(i + 1) =~= seq![a[0]] + a.drop_first().take(i));
        assert(b.take(i + 1) =~= seq![b[0]] + b.drop_first().take(i));
        i + 1
    }
}

/// Bytes come before others exactly where, behind a common start, they end or have the smaller byte.
pub proof fn law_order_of_bytes(a: Seq<u8>, b: Seq<u8>)
    ensures
        paths::bytes_less(a, b) <==> exists|i: int|
            0 <= i <= a.len() && i < b.len() && #[trigger] a.take(i) == b.take(i) && (i < a.len()
                ==> a[i] < b[i]),
{
    if paths::bytes_less(a, b) {
        let i = lemma_bytes_place(a, b);
        assert(a.take(i) == b.take(i));
    }
    if exists|i: int|
        0 <= i <= a.len() && i < b.len() && #[trigger] a.take(i) == b.take(i) && (i < a.len()
            ==> a[i] < b[i]) {
        let i = choose|i: int|
            0 <= i <= a.len() && i < b.len() && #[trigger] a.take(i) == b.take(i) && (i < a.len()
                ==> a[i] < b[i]);
        lemma_bytes_differ(a, b, i);
    }
}

proof fn lemma_paths_differ(a: Seq<Seq<u8>>, b: Seq<Seq<u8>>, i: int)
    requires
        0 <= i <= a.len(),
        i < b.len(),
        a.take(i) == b.take(i),
        i < a.len() ==> paths::bytes_less(a[i], b[i]),
    ensures
        paths::path_less(a, b),
    decreases a.len(),
{
    if i > 0 {
        assert(a.take(i)[0] == b.take(i)[0]);
        assert(a.drop_first().take(i - 1) =~= a.take(i).drop_first());
        assert(b.drop_first().take(i - 1) =~= b.take(i).drop_first());
        lemma_paths_differ(a.drop_first(), b.drop_first(), i - 1);
    }
}

proof fn lemma_paths_place(a: Seq<Seq<u8>>, b: Seq<Seq<u8>>) -> (i: int)
    requires
        paths::path_less(a, b),
    ensures
        0 <= i <= a.len(),
        i < b.len(),
        a.take(i) == b.take(i),
        i < a.len() ==> paths::bytes_less(a[i], b[i]),
    decreases a.len(),
{
    if a.len() == 0 || paths::bytes_less(a[0], b[0]) {
        assert(a.take(0) =~= b.take(0));
        0
    } else {
        let i = lemma_paths_place(a.drop_first(), b.drop_first());
        assert(a.take(i + 1) =~= seq![a[0]] + a.drop_first().take(i));
        assert(b.take(i + 1) =~= seq![b[0]] + b.drop_first().take(i));
        i + 1
    }
}

/// A path comes before another exactly where, behind a common start, it ends or has the component
/// that comes first.
pub proof fn law_order_of_paths(a: Seq<Seq<u8>>, b: Seq<Seq<u8>>)
    ensures
        paths::path_less(a, b) <==> exists|i: int|
            0 <= i <= a.len() && i < b.len() && #[trigger] a.take(i) == b.take(i) && (i < a.len()
                ==> paths::bytes_less(a[i], b[i])),
{
    if paths::path_less(a, b) {
        let i = lemma_paths_place(a, b);
        assert(a.take(i) == b.take(i));
    }
    if exists|i: int|
        0 <= i <= a.len() && i < b.len() && #[trigger] a.take(i) == b.take(i) && (i < a.len()
            ==> paths::bytes_less(a[i], b[i])) {
        let i = choose|i: int|
            0 <= i <= a.len() && i < b.len() && #[trigger] a.take(i) == b.take(i) && (i < a.len()
                ==> paths::bytes_less(a[i], b[i]));
        lemma_paths_differ(a, b, i);
    }
}

} // verus!
