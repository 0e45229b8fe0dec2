//! GUIDs of power plans.
use vstd::prelude::*;
use vstd::utf8::*;

use crate::regexes;
use crate::regexes::{find_first, GUID_PATTERN};
use crate::text;
use crate::text::{digit, lower_of, trim};

verus! {

/// A GUID with its letters in lower case: the form in which this library keeps them.
pub open spec fn is_canonical_guid(text: Seq<char>) -> bool {
    regexes::is_guid(text) && text::lower(text) == text
}

/// The GUID that a text holds first, in canonical form.
pub open spec fn guid_in(text: Seq<char>) -> Option<Seq<char>> {
    match regexes::regex_find(GUID_PATTERN@, text) {
        Some((_, guid, _)) => Some(text::lower(guid)),
        None => None,
    }
}

/// A GUID found in a text.
pub struct GuidMatch {
    /// The GUID in canonical form.
    pub guid: String,
    /// The byte offset in the text right behind the GUID.
    pub end: usize,
}

/// The UTF-8 form of a text is the UTF-8 forms of its pieces one after another, and the place
/// between them lies between two characters.
pub proof fn lemma_utf8_of_pieces(a: Seq<char>, b: Seq<char>)
    ensures
        encode_utf8(a + b) == encode_utf8(a) + encode_utf8(b),
        is_char_boundary(encode_utf8(a + b), encode_utf8(a).len() as int),
    decreases a.len(),
{
    encode_utf8_valid_utf8(a + b);
    if a.len() == 0 {
        assert(a + b == b);
    } else {
        let rest = a.drop_first();
        lemma_utf8_of_pieces(rest, b);
        assert((a + b).drop_first() == rest + b);
        encode_utf8_first_scalar(a + b);
        encode_utf8_valid_utf8(rest + b);
        let head = encode_scalar(a[0] as u32);
        assert(encode_utf8(a + b) == head + encode_utf8(rest + b));
        assert(encode_utf8(a) == head + encode_utf8(rest));
        assert(pop_first_scalar(encode_utf8(a + b)) == encode_utf8(rest + b));
    }
}

/// A GUID keeps its shape in lower case, and its lower-case form is canonical.
pub proof fn lemma_lower_guid(text: Seq<char>)
    requires
        regexes::is_guid(text),
    ensures
        is_canonical_guid(text::lower(text)),
{
    assert forall|i: int| 0 <= i < 36 implies if regexes::is_hyphen_place(i) {
        #[trigger] text::lower(text)[i] == '-'
    } else {
        regexes::is_hex(text::lower(text)[i])
    } by {
        assert(regexes::is_hyphen_place(i) ==> text[i] == '-');
    }
    assert(text::lower(text::lower(text)) =~= text::lower(text));
}

/// The first GUID in `text` and where it ends. In a text that is a canonical GUID and nothing
/// else, it is the text itself.
pub fn find_guid(text: &str) -> (r: Option<GuidMatch>)
    ensures
        regexes::guid_known(text@),
        match (r, regexes::regex_find(GUID_PATTERN@, text@)) {
            (Some(m), Some((before, guid, after))) => m.guid@ == text::lower(guid) && m.end
                == encode_utf8(before + guid).len() && is_char_boundary(
                encode_utf8(text@),
                m.end as int,
            ) && decode_utf8(
                encode_utf8(text@).subrange(m.end as int, encode_utf8(text@).len() as int),
            ) == after,
            (None, None) => true,
            _ => false,
        },
        r is Some ==> is_canonical_guid(r->0.guid@),
        is_canonical_guid(text@) ==> r is Some && r->0.guid@ == text@,
{
    match find_first(GUID_PATTERN, text) {
        Some((before, guid, after)) => {
            proof {
                lemma_utf8_of_pieces(before@ + guid@, after@);
            }
            let end: usize = text.as_bytes().len() - after.as_bytes().len();
            proof {
                assert(text@.subrange(before@.len() as int, before@.len() as int + 36) == guid@);
                lemma_lower_guid(guid@);
                encode_utf8_decode_utf8(after@);
                assert(encode_utf8(text@).subrange(end as int, encode_utf8(text@).len() as int)
                    == encode_utf8(after@));
                if is_canonical_guid(text@) {
                    assert(before@.len() == 0 && after@.len() == 0);
                    assert(guid@ == text@);
                }
            }
            Some(GuidMatch { guid: lower_of(guid), end })
        },
        None => {
            proof {
                if is_canonical_guid(text@) {
                    assert(text@.subrange(0, 36) == text@);
                    assert(regexes::guid_stands_at(text@, 0));
                }
            }
            None
        },
    }
}

/// The first GUID in `text` that stands by itself, in lower case.
pub fn parse_guid(text: &str) -> (r: Option<String>)
    ensures
        match r {
            Some(guid) => exists|at: int|
                #![trigger regexes::guid_stands_at(text@, at)]
                regexes::guid_stands_at(text@, at) && guid@ == text::lower(
                    text@.subrange(at, at + 36),
                ) && forall|before: int|
                    before < at ==> !#[trigger] regexes::guid_stands_at(text@, before),
            None => forall|at: int| !#[trigger] regexes::guid_stands_at(text@, at),
        },
        match (r, guid_in(text@)) {
            (Some(guid), Some(found)) => guid@ == found,
            (None, None) => true,
            _ => false,
        },
        regexes::guid_known(text@),
        r is Some ==> is_canonical_guid(r->0@),
        is_canonical_guid(text@) ==> r is Some && r->0@ == text@,
{
    match find_guid(text) {
        Some(found) => {
            proof {
                let (before, guid, after) = regexes::regex_find(GUID_PATTERN@, text@)->0;
                let at = before.len() as int;
                assert(text@.subrange(at, at + 36) == guid);
                assert(regexes::guid_stands_at(text@, at));
            }
            Some(found.guid)
        },
        None => None,
    }
}

/// The GUID that Windows made, taken from what it printed. An answer that is anything but one GUID
/// between white space is an error.
pub fn new_power_plan_guid(output: &str) -> (r: Result<String, String>)
    ensures
        match r {
            Ok(guid) => is_canonical_guid(text::lower(text::trimmed(output@))) && guid@ == text::lower(
                text::trimmed(output@),
            ),
            Err(error) => !is_canonical_guid(text::lower(text::trimmed(output@))) && error@
                == "Windows returned an invalid GUID: "@ + output@,
        },
{
    let guid = lower_of(trim(output).as_str());
    let accepted = match parse_guid(guid.as_str()) {
        Some(found) => found == guid,
        None => false,
    };
    if accepted {
        Ok(guid)
    } else {
        Err("Windows returned an invalid GUID: ".to_owned().concat(output))
    }
}

/// The value of a GUID made from a time and a process number: the two mixed, with the bits of the
/// version (4) and of the variant set.
pub open spec fn stamped_value(nanos: u128, process_id: u32) -> u128 {
    let mixed = nanos ^ ((process_id as u128) << 64);
    let versioned = (mixed & !(0xf_u128 << 76)) | (0x4_u128 << 76);
    (versioned & !(0x3_u128 << 62)) | (0x2_u128 << 62)
}

/// One hexadecimal digit of a value, counted from the most significant of its 32 digits.
pub open spec fn nibble(value: u128, k: int) -> nat {
    ((value >> ((124 - 4 * k) as u128)) & 0xf) as nat
}

/// The digit that stands at place `i` of a GUID, counted without the hyphens.
pub open spec fn digit_place(i: int) -> int {
    if i < 8 {
        i
    } else if i < 13 {
        i - 1
    } else if i < 18 {
        i - 2
    } else if i < 23 {
        i - 3
    } else {
        i - 4
    }
}

/// A 128-bit value in the form of a GUID.
pub open spec fn guid_text(value: u128) -> Seq<char> {
    Seq::new(
        36,
        |i: int|
            if regexes::is_hyphen_place(i) {
                '-'
            } else {
                text::digit_char(nibble(value, digit_place(i)))
            },
    )
}

/// A value in the form of a GUID is a canonical GUID.
pub proof fn lemma_guid_text_is_canonical(value: u128)
    ensures
        is_canonical_guid(guid_text(value)),
{
    let text = guid_text(value);
    assert forall|i: int| 0 <= i < 36 implies if regexes::is_hyphen_place(i) {
        #[trigger] text[i] == '-'
    } else {
        regexes::is_hex(text[i])
    } by {
        let shift = (124 - 4 * digit_place(i)) as u128;
        assert((value >> shift) & 0xf <= 0xf) by (bit_vector);
    }
    assert(text::lower(text) =~= text) by {
        assert forall|i: int| 0 <= i < 36 implies text::lower_char(#[trigger] text[i]) == text[i] by {
            let shift = (124 - 4 * digit_place(i)) as u128;
            assert((value >> shift) & 0xf <= 0xf) by (bit_vector);
        }
    }
}

/// A GUID made from a time in nanoseconds and a process number.
pub fn generate_power_plan_guid(nanos: u128, process_id: u32) -> (r: String)
    ensures
        r@ == guid_text(stamped_value(nanos, process_id)),
        is_canonical_guid(r@),
{
    let mut value: u128 = nanos ^ ((process_id as u128) << 64);
    value = value & !(0xf_u128 << 76);
    value = value | (0x4_u128 << 76);
    value = value & !(0x3_u128 << 62);
    value = value | (0x2_u128 << 62);

    let mut r = String::new();
    let mut i: usize = 0;
    let mut shift: u32 = 124;
    while i < 36
        invariant
            i <= 36,
            r@ == guid_text(value).take(i as int),
            i < 36 ==> shift as int == if regexes::is_hyphen_place(i as int) {
                124 - 4 * digit_place(i + 1)
            } else {
                124 - 4 * digit_place(i as int)
            },
        decreases 36 - i,
    {
        if i == 8 || i == 13 || i == 18 || i == 23 {
            r.push('-');
        } else {
            let shifted: u128 = value >> (shift as u128);
            assert(shifted & 0xf <= 0xf) by (bit_vector);
            r.push(digit((shifted & 0xf) as u8));
            if i < 35 {
                shift = shift - 4;
            }
        }
        i = i + 1;
        assert(guid_text(value).take(i as int).drop_last() == guid_text(value).take(i - 1));
    }
    proof {
        assert(guid_text(value).take(36) == guid_text(value));
        lemma_guid_text_is_canonical(value);
    }
    r
}

/// A generated GUID is a random one by its version and variant: its third group starts with `4`
/// and its fourth with `8`, `9`, `a` or `b`.
pub proof fn law_generated_guid_version(nanos: u128, process_id: u32)
    ensures
        guid_text(stamped_value(nanos, process_id))[14] == '4',
        seq!['8', '9', 'a', 'b'].contains(guid_text(stamped_value(nanos, process_id))[19]),
{
    let mixed = nanos ^ ((process_id as u128) << 64);
    let value = stamped_value(nanos, process_id);
    assert(((((mixed & !(0xf_u128 << 76)) | (0x4_u128 << 76)) & !(0x3_u128 << 62)) | (0x2_u128
        << 62)) >> 76 & 0xf == 4) by (bit_vector);
    assert(8 <= ((((mixed & !(0xf_u128 << 76)) | (0x4_u128 << 76)) & !(0x3_u128 << 62)) | (0x2_u128
        << 62)) >> 60 & 0xf <= 11) by (bit_vector);
    let fourth = guid_text(value)[19];
    let options = seq!['8', '9', 'a', 'b'];
    assert(nibble(value, 12) == 4);
    assert(8 <= nibble(value, 16) <= 11);
    assert(fourth == options[nibble(value, 16) - 8]);
}

} // verus!
