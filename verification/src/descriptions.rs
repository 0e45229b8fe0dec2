//! Names and descriptions of plans, taken from what `powercfg` and `reg` print.
use vstd::prelude::*;
use vstd::utf8::*;

use crate::plans;
use crate::plans::default_power_plans;
use crate::regexes;
use crate::regexes::{first_group, DESCRIPTION_PATTERN};
use crate::text;
use crate::text::{chars_of, position_from, CharClass};

verus! {

/// The plan's name in what follows its GUID on a line of the list: the text between the first
/// opening and the last closing parenthesis, without white space at its ends.
pub open spec fn plan_name(after: Seq<char>) -> Seq<char> {
    match after.index_of_first('(') {
        Some(open) => {
            let inside = after.skip(open + 1);
            match inside.index_of_last(')') {
                Some(close) => {
                    let name = text::trimmed(inside.take(close));
                    if name.len() == 0 {
                        "Unnamed plan"@
                    } else {
                        name
                    }
                },
                None => "Unnamed plan"@,
            }
        },
        None => "Unnamed plan"@,
    }
}

/// What stands in `line` from the byte offset `from` on.
pub open spec fn rest_of_line(line: Seq<char>, from: int) -> Seq<char> {
    decode_utf8(encode_utf8(line).subrange(from, encode_utf8(line).len() as int))
}

/// The plan's name on a line of the list whose GUID ends at the byte offset `guid_end`.
pub fn parse_plan_name(line: &str, guid_end: usize) -> (r: String)
    requires
        is_char_boundary(encode_utf8(line@), guid_end as int),
    ensures
        r@ == plan_name(rest_of_line(line@, guid_end as int)),
{
    let (_, after_guid) = line.split_at(guid_end);
    proof {
        encode_utf8_decode_utf8(after_guid@);
    }
    let chars = chars_of(after_guid);
    let open: usize = match position_from(&chars, '(', 0) {
        Some(open) => open,
        None => {
            proof {
                text::lemma_no_position(after_guid@, '(');
            }
            return "Unnamed plan".to_owned();
        },
    };
    proof {
        text::lemma_first_position(after_guid@, '(', open as int);
    }
    let ghost inside = after_guid@.skip(open + 1);
    let mut close: usize = chars.len();
    while close > open + 1
        invariant
            chars@ == after_guid@,
            open < chars.len(),
            open + 1 <= close <= chars.len(),
            inside == after_guid@.skip(open + 1),
            forall|k: int| close <= k < chars.len() ==> chars[k] != ')',
            after_guid@.index_of_first('(') == Some(open as int),
            after_guid@ == rest_of_line(line@, guid_end as int),
        decreases close,
    {
        close = close - 1;
        if chars[close] == ')' {
            proof {
                text::lemma_last_position(inside, ')', close - open - 1);
                assert(inside.take(close - open - 1) == chars@.subrange(open + 1, close as int));
            }
            let name = text::trim(text::text_between(&chars, open + 1, close).as_str());
            return if name.as_str().is_empty() {
                "Unnamed plan".to_owned()
            } else {
                name
            };
        }
    }
    proof {
        assert forall|k: int| 0 <= k < inside.len() implies inside[k] != ')' by {
            assert(chars[open + 1 + k] != ')');
        }
        text::lemma_no_position(inside, ')');
    }
    "Unnamed plan".to_owned()
}

/// What is shown of a description in the registry. One that names a resource, as in
/// `@path,number,text`, carries its text behind the second comma.
pub open spec fn registry_text(raw: Seq<char>) -> Seq<char> {
    match second_comma(raw) {
        Some(at) => if raw[0] == '@' {
            text::trimmed(raw.skip(at + 1))
        } else {
            raw
        },
        None => raw,
    }
}

/// The place of the second comma in `raw`.
pub open spec fn second_comma(raw: Seq<char>) -> Option<int> {
    match raw.index_of_first(',') {
        Some(first) => match raw.skip(first + 1).index_of_first(',') {
            Some(next) => Some(first + 1 + next),
            None => None,
        },
        None => None,
    }
}

/// What is shown of a description in the registry.
pub fn display_registry_description(raw: &str) -> (r: String)
    ensures
        r@ == registry_text(raw@),
{
    let chars = chars_of(raw);
    if chars.len() > 0 && chars[0] == '@' {
        match position_from(&chars, ',', 0) {
            Some(first) => {
                proof {
                    text::lemma_first_position(raw@, ',', first as int);
                }
                let ghost rest = raw@.skip(first + 1);
                match position_from(&chars, ',', first + 1) {
                    Some(second) => {
                        proof {
                            assert forall|k: int| 0 <= k < second - first - 1 implies rest[k]
                                != ',' by {
                                assert(chars[first + 1 + k] != ',');
                            }
                            text::lemma_first_position(rest, ',', second - first - 1);
                            assert(chars@.subrange(second + 1, chars.len() as int) == raw@.skip(
                                second + 1,
                            ));
                        }
                        return text::trim(
                            text::text_between(&chars, second + 1, chars.len()).as_str(),
                        );
                    },
                    None => {
                        proof {
                            assert forall|k: int| 0 <= k < rest.len() implies rest[k] != ',' by {
                                assert(chars[first + 1 + k] != ',');
                            }
                            text::lemma_no_position(rest, ',');
                        }
                    },
                }
            },
            None => {
                proof {
                    text::lemma_no_position(raw@, ',');
                }
            },
        }
    } else {
        proof {
            if second_comma(raw@) is Some {
                raw@.index_of_first_ensures(',');
            }
        }
    }
    raw.to_owned()
}

/// `shown` still names a resource: its first character that is not white space is `@`.
pub open spec fn is_resource_reference(shown: Seq<char>) -> bool {
    let start = text::cut_start(shown, CharClass::White);
    start.len() > 0 && start[0] == '@'
}

/// Whether a description still names a resource.
pub fn is_registry_resource_reference(shown: &str) -> (r: bool)
    ensures
        r == is_resource_reference(shown@),
{
    let start = chars_of(text::cut_start_of(shown, CharClass::White).as_str());
    start.len() > 0 && start[0] == '@'
}

/// The description of the first default plan with the given GUID or the given name.
pub open spec fn default_description(guid: Seq<char>, name: Seq<char>) -> Option<Seq<char>> {
    match plans::first_where(
        plans::default_plans(),
        |plan: plans::DefaultView|
            text::same_ignoring_case(guid, plan.guid) || text::same_ignoring_case(
                name,
                plan.name,
            ),
    ) {
        Some(at) => Some(plans::default_plans()[at].description),
        None => None,
    }
}

/// A text that may be missing, or else the empty text.
pub open spec fn or_empty(maybe: Option<Seq<char>>) -> Seq<char> {
    match maybe {
        Some(known) => known,
        None => Seq::empty(),
    }
}

/// The description of the first default plan with the given GUID or the given name.
pub fn default_power_plan_description(guid: &str, name: &str) -> (r: Option<String>)
    ensures
        match (r, default_description(guid@, name@)) {
            (Some(description), Some(known)) => description@ == known,
            (None, None) => true,
            _ => false,
        },
{
    let defaults = default_power_plans();
    let ghost all = plans::default_plans();
    let ghost fits = |plan: plans::DefaultView|
        text::same_ignoring_case(guid@, plan.guid) || text::same_ignoring_case(name@, plan.name);
    proof {
        plans::lemma_first_where(all, fits);
    }
    let mut i: usize = 0;
    while i < defaults.len()
        invariant
            i <= defaults.len(),
            plans::default_views(defaults@) == all,
            all == plans::default_plans(),
            fits == (|plan: plans::DefaultView|
                text::same_ignoring_case(guid@, plan.guid) || text::same_ignoring_case(
                    name@,
                    plan.name,
                )),
            forall|k: int| 0 <= k < i ==> !fits(#[trigger] all[k]),
        decreases defaults.len() - i,
    {
        assert(all[i as int] == defaults[i as int]@);
        if text::equals_ignoring_case(guid, defaults[i].guid) || text::equals_ignoring_case(
            name,
            defaults[i].name,
        ) {
            proof {
                plans::lemma_first_where(all, fits);
                assert(fits(all[i as int]));
                assert(plans::first_where(all, fits) == Some(i as int));
            }
            return Some(defaults[i].description.to_owned());
        }
        i = i + 1;
    }
    assert(all.len() == defaults.len());
    None
}

/// What is shown as the description of a plan whose description in the registry is `raw`: the
/// registry's own text, or, where that is only the name of a resource, the text known for the
/// default plan.
pub open spec fn shown_description(guid: Seq<char>, name: Seq<char>, raw: Seq<char>) -> Seq<char> {
    if is_resource_reference(registry_text(raw)) {
        or_empty(default_description(guid, name))
    } else {
        registry_text(raw)
    }
}

/// What is shown as the description of a plan whose description in the registry is `raw`.
pub fn display_power_plan_description(guid: &str, name: &str, raw: &str) -> (r: String)
    ensures
        r@ == shown_description(guid@, name@, raw@),
{
    let description = display_registry_description(raw);
    if is_registry_resource_reference(description.as_str()) {
        match default_power_plan_description(guid, name) {
            Some(known) => known,
            None => String::new(),
        }
    } else {
        description
    }
}

/// What a search of one line for a description captures.
pub open spec fn captured(line: Seq<char>) -> Option<Option<Seq<char>>> {
    regexes::regex_group(DESCRIPTION_PATTERN@, line)
}

/// The description of a plan in what the query of its registry key printed: taken from the first
/// line that holds one; without such a line the text known for the default plan.
pub open spec fn described(guid: Seq<char>, name: Seq<char>, output: Seq<char>) -> Seq<char> {
    let lines = text::lines_of(output);
    match plans::first_where(lines, |line: Seq<char>| captured(line) is Some) {
        Some(at) => shown_description(
            guid,
            name,
            text::trimmed(or_empty(captured(lines[at])->0)),
        ),
        None => or_empty(default_description(guid, name)),
    }
}

/// No line before `at` holds a description.
pub open spec fn plain_before(lines: Seq<Seq<char>>, at: int) -> bool {
    forall|k: int, data: Seq<char>|
        0 <= k < at ==> !#[trigger] regexes::holds_description(lines[k], data)
}

/// `shown` is the description of a plan in what the query of its registry key printed: made of the
/// data of the first line that holds a description; where no line does, the text known for the
/// default plan.
pub open spec fn is_description(
    guid: Seq<char>,
    name: Seq<char>,
    output: Seq<char>,
    shown: Seq<char>,
) -> bool {
    let lines = text::lines_of(output);
    &&& forall|at: int, data: Seq<char>|
        0 <= at < lines.len() && plain_before(lines, at) && #[trigger] regexes::holds_description(
            lines[at],
            data,
        ) ==> shown == shown_description(guid, name, text::trimmed(data))
    &&& plain_before(lines, lines.len() as int) ==> shown == or_empty(
        default_description(guid, name),
    )
}

/// The description of a plan, from what the query of its registry key printed.
pub fn read_power_plan_description(guid: &str, name: &str, output: &str) -> (r: String)
    ensures
        r@ == described(guid@, name@, output@),
        is_description(guid@, name@, output@, r@),
{
    let lines = text::lines(output);
    let ghost all = text::lines_of(output@);
    let ghost hit = |line: Seq<char>| captured(line) is Some;
    let mut i: usize = 0;
    while i < lines.len()
        invariant
            i <= lines.len(),
            text::views(lines@) == all,
            all == text::lines_of(output@),
            hit == (|line: Seq<char>| captured(line) is Some),
            forall|k: int| 0 <= k < i ==> !hit(#[trigger] all[k]),
            forall|k: int|
                0 <= k < i ==> regexes::description_search(#[trigger] all[k], captured(all[k])),
        decreases lines.len() - i,
    {
        assert(all[i as int] == lines[i as int]@);
        let group = first_group(DESCRIPTION_PATTERN, lines[i].as_str());
        if let Some(raw) = group {
            proof {
                plans::lemma_first_where(all, hit);
                assert(hit(all[i as int]));
                assert(plans::first_where(all, hit) == Some(i as int));
                assert(regexes::holds_description(
                    all[i as int],
                    captured(all[i as int])->0->0,
                ));
                assert forall|at: int, data: Seq<char>|
                    0 <= at < all.len() && plain_before(all, at)
                        && #[trigger] regexes::holds_description(
                        all[at],
                        data,
                    ) implies captured(all[i as int]) == Some(Some(data)) && at == i by {
                    if at < i {
                        assert(regexes::description_search(all[at], captured(all[at])));
                        assert(!hit(all[at]));
                    }
                }
            }
            let data = match raw {
                Some(data) => text::trim(data),
                None => {
                    let nothing = String::new();
                    text::trim(nothing.as_str())
                },
            };
            return display_power_plan_description(guid, name, data.as_str());
        }
        i = i + 1;
    }
    proof {
        plans::lemma_first_where(all, hit);
        assert forall|at: int, data: Seq<char>|
            0 <= at < all.len() && plain_before(all, at)
                && #[trigger] regexes::holds_description(all[at], data) implies false by {
            assert(regexes::description_search(all[at], captured(all[at])));
            assert(!hit(all[at]));
        }
    }
    match default_power_plan_description(guid, name) {
        Some(known) => known,
        None => String::new(),
    }
}

/// What is shown never names a resource.
pub proof fn law_shown_text_is_no_resource(guid: Seq<char>, name: Seq<char>, raw: Seq<char>)
    ensures
        !is_resource_reference(shown_description(guid, name, raw)),
{
    reveal_strlit(
        "Automatically balances performance with energy consumption on capable hardware.",
    );
    reveal_strlit("Favors performance, but may use more energy.");
    reveal_strlit("Saves energy by reducing your computer's performance where possible.");
    reveal_strlit("Provides ultimate performance on higher end PCs.");
    if default_description(guid, name) is Some {
        plans::lemma_first_where(
            plans::default_plans(),
            |plan: plans::DefaultView|
                text::same_ignoring_case(guid, plan.guid) || text::same_ignoring_case(
                    name,
                    plan.name,
                ),
        );
    }
}

/// A description that names no resource is shown as it is.
pub proof fn law_plain_description_is_kept(guid: Seq<char>, name: Seq<char>, raw: Seq<char>)
    requires
        !is_resource_reference(raw),
    ensures
        shown_description(guid, name, raw) == raw,
{
    if second_comma(raw) is Some {
        raw.index_of_first_ensures(',');
    }
}

/// A plan's name is never empty and has no white space at its ends.
pub proof fn law_plan_name_is_trimmed(after: Seq<char>)
    ensures
        plan_name(after).len() > 0,
        text::trimmed(plan_name(after)) == plan_name(after),
{
    reveal_strlit("Unnamed plan");
    if let Some(open) = after.index_of_first('(') {
        let inside = after.skip(open + 1);
        if let Some(close) = inside.index_of_last(')') {
            text::lemma_trimmed_stays(inside.take(close));
        }
    }
}

proof fn lemma_default_description_is_trimmed(guid: Seq<char>, name: Seq<char>)
    ensures
        text::trimmed(or_empty(default_description(guid, name))) == or_empty(
            default_description(guid, name),
        ),
{
    reveal_strlit(
        "Automatically balances performance with energy consumption on capable hardware.",
    );
    reveal_strlit("Favors performance, but may use more energy.");
    reveal_strlit("Saves energy by reducing your computer's performance where possible.");
    reveal_strlit("Provides ultimate performance on higher end PCs.");
    plans::lemma_first_where(
        plans::default_plans(),
        |plan: plans::DefaultView|
            text::same_ignoring_case(guid, plan.guid) || text::same_ignoring_case(
                name,
                plan.name,
            ),
    );
}

/// A plan's description has no white space at its ends.
pub proof fn law_description_is_trimmed(guid: Seq<char>, name: Seq<char>, output: Seq<char>)
    ensures
        text::trimmed(described(guid, name, output)) == described(guid, name, output),
{
    lemma_default_description_is_trimmed(guid, name);
    let lines = text::lines_of(output);
    if let Some(at) = plans::first_where(lines, |line: Seq<char>| captured(line) is Some) {
        let data = or_empty(captured(lines[at])->0);
        let raw = text::trimmed(data);
        text::lemma_trimmed_stays(data);
        if let Some(comma) = second_comma(raw) {
            text::lemma_trimmed_stays(raw.skip(comma + 1));
        }
    }
}

} // verus!
