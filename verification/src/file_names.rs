//! Names of plan files.
use vstd::prelude::*;
use vstd::utf8::*;

use crate::guid;
use crate::paths;
use crate::paths::path_before;
use crate::plans;
use crate::plans::{FpsheavenPowerPlanKind, PowerPlan};
use crate::text;
use crate::text::{chars_of, CharClass};

verus! {

/// The characters that Windows does not take in a file name.
pub open spec fn is_forbidden(c: char) -> bool {
    c == '<' || c == '>' || c == ':' || c == '"' || c == '/' || c == '\\' || c == '|' || c == '?'
        || c == '*'
}

/// A character that may stand in a file name.
pub open spec fn is_safe(c: char) -> bool {
    !text::is_control(c) && !is_forbidden(c)
}

/// `name` with an underscore for each character that may not stand in a file name.
pub open spec fn cleaned(name: Seq<char>) -> Seq<char> {
    Seq::new(
        name.len(),
        |i: int|
            if is_safe(name[i]) {
                name[i]
            } else {
                '_'
            },
    )
}

/// The longest stem of a file name, in characters.
pub const MAX_STEM: usize = 80;

/// The stem of the file name for a plan: its cleaned name without full stops and white space at the
/// ends, at most [`MAX_STEM`] characters of it; `power-plan` where nothing is left.
pub open spec fn file_stem(name: Seq<char>) -> Seq<char> {
    let stem = text::trimmed(text::cut(cleaned(name), CharClass::DotOrSpace));
    if stem.len() == 0 {
        "power-plan"@
    } else if stem.len() <= MAX_STEM {
        stem
    } else {
        stem.take(MAX_STEM as int)
    }
}

/// The stem of the file name for a plan with the given name.
pub fn sanitize_file_stem(name: &str) -> (r: String)
    ensures
        r@ == file_stem(name@),
{
    let chars = chars_of(name);
    let mut clean = String::new();
    let mut i: usize = 0;
    while i < chars.len()
        invariant
            i <= chars.len(),
            chars@ == name@,
            clean@ == cleaned(name@).take(i as int),
        decreases chars.len() - i,
    {
        let c = chars[i];
        if text::control(c) || c == '<' || c == '>' || c == ':' || c == '"' || c == '/' || c
            == '\\' || c == '|' || c == '?' || c == '*' {
            clean.push('_');
        } else {
            clean.push(c);
        }
        i = i + 1;
        assert(cleaned(name@).take(i as int).drop_last() == cleaned(name@).take(i - 1));
    }
    assert(cleaned(name@).take(i as int) == cleaned(name@));
    let cut = text::cut_end_of(
        text::cut_start_of(clean.as_str(), CharClass::DotOrSpace).as_str(),
        CharClass::DotOrSpace,
    );
    let stem = text::trim(cut.as_str());
    if stem.as_str().is_empty() {
        return "power-plan".to_owned();
    }
    let stem_chars = chars_of(stem.as_str());
    if stem_chars.len() <= MAX_STEM {
        stem
    } else {
        assert(stem@.take(MAX_STEM as int) == stem@.subrange(0, MAX_STEM as int));
        text::text_between(&stem_chars, 0, MAX_STEM)
    }
}

/// The stem of a file name is never empty, is at most [`MAX_STEM`] characters long, and each of its
/// characters may stand in a file name.
pub proof fn law_file_stem_is_safe(name: Seq<char>)
    ensures
        0 < file_stem(name).len() <= MAX_STEM,
        forall|i: int| 0 <= i < file_stem(name).len() ==> is_safe(#[trigger] file_stem(name)[i]),
{
    reveal_strlit("power-plan");
    let clean = cleaned(name);
    let cut = text::cut(clean, CharClass::DotOrSpace);
    let stem = text::trimmed(cut);
    text::lemma_cut_is_stretch(clean, CharClass::DotOrSpace);
    text::lemma_cut_is_stretch(cut, CharClass::White);
    assert(forall|i: int| 0 <= i < clean.len() ==> is_safe(#[trigger] clean[i]));
    let (a, b) = choose|a: int, b: int|
        0 <= a <= b <= clean.len() && #[trigger] clean.subrange(a, b) == cut;
    let (c, d) = choose|c: int, d: int|
        0 <= c <= d <= cut.len() && #[trigger] cut.subrange(c, d) == stem;
    assert forall|i: int| 0 <= i < stem.len() implies is_safe(#[trigger] stem[i]) by {
        assert(stem[i] == cut[c + i]);
        assert(cut[c + i] == clean[a + c + i]);
    }
    if stem.len() == 0 {
        assert forall|i: int| 0 <= i < "power-plan"@.len() implies is_safe(
            #[trigger] "power-plan"@[i],
        ) by {}
    } else if stem.len() > MAX_STEM {
        assert forall|i: int| 0 <= i < MAX_STEM implies is_safe(
            #[trigger] stem.take(MAX_STEM as int)[i],
        ) by {
            assert(is_safe(stem[i]));
        }
    }
}

/// The part of a plan's GUID that goes into its file name: its first eight bytes, or all of it
/// where they are not whole characters.
pub open spec fn guid_part(guid: Seq<char>) -> Seq<char> {
    if is_char_boundary(encode_utf8(guid), 8) {
        decode_utf8(encode_utf8(guid).subrange(0, 8))
    } else {
        guid
    }
}

/// The name of the file that a plan is exported to beside the files of other plans.
pub open spec fn export_name(plan: plans::PlanView) -> Seq<char> {
    file_stem(plan.name) + "_"@ + guid_part(plan.guid) + ".pow"@
}

/// The name of the file that a plan is exported to beside the files of other plans.
pub fn export_file_name(plan: &PowerPlan) -> (r: String)
    ensures
        r@ == export_name(plan@),
{
    let stem = sanitize_file_stem(plan.name.as_str());
    let guid = plan.guid.as_str();
    let part = if guid.is_char_boundary(8) {
        let (head, _) = guid.split_at(8);
        proof {
            encode_utf8_decode_utf8(head@);
        }
        head
    } else {
        guid
    };
    stem.concat("_").concat(part).concat(".pow")
}

/// Of a GUID the file name takes the first group of digits.
pub proof fn law_guid_part_is_first_group(guid: Seq<char>)
    requires
        guid::is_canonical_guid(guid),
    ensures
        guid_part(guid) == guid.take(8),
{
    let head = guid.take(8);
    let rest = guid.skip(8);
    assert(guid == head + rest);
    guid::lemma_utf8_of_pieces(head, rest);
    assert(is_ascii_chars(head)) by {
        assert forall|i: int| 0 <= i < head.len() implies (#[trigger] head[i] as nat) < 128 by {
            assert(head[i] == guid[i]);
        }
    }
    is_ascii_chars_encode_utf8(head);
    encode_utf8_decode_utf8(head);
    assert(encode_utf8(guid).subrange(0, 8) == encode_utf8(head));
}

/// The file in which a plan of the user is kept while Windows restores its own plans.
pub open spec fn backup_name(plan_guid: Seq<char>) -> Seq<char> {
    plan_guid + ".pow"@
}

/// The file in which a plan of the user is kept while Windows restores its own plans.
pub fn backup_file_name(plan_guid: &str) -> (r: String)
    ensures
        r@ == backup_name(plan_guid@),
{
    plan_guid.to_owned().concat(".pow")
}

/// The folder for backups of the given process at the given time in milliseconds.
pub open spec fn backup_folder(process_id: nat, millis: nat) -> Seq<char> {
    "simple_power_plan_manager_"@ + text::decimal(process_id) + "_"@ + text::decimal(millis)
}

/// The name of the folder for backups of the given process at the given time in milliseconds.
pub fn create_backup_dir(process_id: u32, millis: u128) -> (r: String)
    ensures
        r@ == backup_folder(process_id as nat, millis as nat),
{
    "simple_power_plan_manager_".to_owned().concat(
        text::decimal_of_u128(process_id as u128).as_str(),
    ).concat("_").concat(text::decimal_of_u128(millis).as_str())
}

/// Other processes and other times have other folders.
pub proof fn law_backup_folders_do_not_collide(
    process_id: nat,
    millis: nat,
    other_process: nat,
    other_millis: nat,
)
    requires
        backup_folder(process_id, millis) == backup_folder(other_process, other_millis),
    ensures
        process_id == other_process && millis == other_millis,
{
    reveal_strlit("_");
    let front = "simple_power_plan_manager_"@.len() as int;
    let (a, b) = (text::decimal(process_id), text::decimal(other_process));
    let (c, d) = (text::decimal(millis), text::decimal(other_millis));
    let (name, other) = (
        backup_folder(process_id, millis),
        backup_folder(other_process, other_millis),
    );
    text::lemma_decimal_digits(process_id);
    text::lemma_decimal_digits(other_process);
    assert(name[front + a.len()] == '_');
    assert(other[front + b.len()] == '_');
    if a.len() < b.len() {
        assert(other[front + a.len()] == b[a.len() as int]);
    } else if b.len() < a.len() {
        assert(name[front + b.len()] == a[b.len() as int]);
    }
    assert(a == name.subrange(front, front + a.len()));
    assert(b == other.subrange(front, front + b.len()));
    assert(c == name.skip(front + a.len() + 1));
    assert(d == other.skip(front + b.len() + 1));
    text::lemma_decimal_injective(process_id, other_process);
    text::lemma_decimal_injective(millis, other_millis);
}

/// Whether a file holds a power plan: its extension is `pow`, in either case. A file without an
/// extension, or with one that is no text, holds none.
pub fn is_power_plan_file(extension: Option<&str>) -> (r: bool)
    ensures
        r == (extension matches Some(known) && text::same_ignoring_case(known@, "pow"@)),
{
    match extension {
        Some(known) => text::equals_ignoring_case(known, "pow"),
        None => false,
    }
}

/// A plan file that was found below a folder.
#[derive(Debug)]
pub struct PlanFile {
    /// The file's name without its folder; `None` where it is no text.
    pub name: Option<String>,
    /// The components of the file's path below the folder, as the bytes that the system has for
    /// each.
    pub components: Vec<Vec<u8>>,
    /// The file's path as it is shown.
    pub path: String,
}

/// The contents of a [`PlanFile`].
pub struct PlanFileView {
    /// The file's name without its folder.
    pub name: Option<Seq<char>>,
    /// The components of the file's path below the folder.
    pub components: Seq<Seq<u8>>,
    /// The file's path as it is shown.
    pub path: Seq<char>,
}

impl View for PlanFile {
    type V = PlanFileView;

    open spec fn view(&self) -> PlanFileView {
        PlanFileView {
            name: plans::option_view(self.name),
            components: paths::component_views(self.components@),
            path: self.path@,
        }
    }
}

/// The contents of some plan files.
pub open spec fn file_views(files: Seq<PlanFile>) -> Seq<PlanFileView> {
    Seq::new(files.len(), |i: int| files[i]@)
}

/// `name` is the file name of the plan for `kind`, in either case.
pub open spec fn is_exact_file(name: Option<Seq<char>>, kind: FpsheavenPowerPlanKind) -> bool {
    name matches Some(known) && text::same_ignoring_case(known, kind.file_name_text())
}

/// `name` holds the word for `kind`, in either case.
pub open spec fn is_likely_file(name: Option<Seq<char>>, kind: FpsheavenPowerPlanKind) -> bool {
    name matches Some(known) && text::contains(text::lower(known), kind.file_needle_text())
}

/// `file` is the file for `kind` by its own file name, or else by the word for `kind`.
pub open spec fn is_wanted(file: PlanFileView, kind: FpsheavenPowerPlanKind, exact: bool) -> bool {
    if exact {
        is_exact_file(file.name, kind)
    } else {
        is_likely_file(file.name, kind)
    }
}

/// Of the files that are wanted none has a path before that of `file`.
pub open spec fn is_least(
    files: Seq<PlanFileView>,
    kind: FpsheavenPowerPlanKind,
    exact: bool,
    file: PlanFileView,
) -> bool {
    forall|k: int|
        0 <= k < files.len() && is_wanted(#[trigger] files[k], kind, exact) ==> !paths::path_less(
            files[k].components,
            file.components,
        )
}

/// The wanted file with the least path.
pub open spec fn least_wanted(
    files: Seq<PlanFileView>,
    kind: FpsheavenPowerPlanKind,
    exact: bool,
) -> Option<int> {
    plans::first_where(
        files,
        |file: PlanFileView| is_wanted(file, kind, exact) && is_least(files, kind, exact, file),
    )
}

/// The file for `kind` among some plan files: of those with the plan's own file name the one with
/// the least path; where there is none, the same of those whose name holds the word for `kind`.
pub open spec fn fpsheaven_file(
    files: Seq<PlanFileView>,
    kind: FpsheavenPowerPlanKind,
) -> Option<int> {
    match least_wanted(files, kind, true) {
        Some(at) => Some(at),
        None => least_wanted(files, kind, false),
    }
}

/// Whether `file` is the file for `kind` by its own file name, or else by the word for `kind`.
fn wanted(file: &PlanFile, kind: FpsheavenPowerPlanKind, exact: bool) -> (r: bool)
    ensures
        r == is_wanted(file@, kind, exact),
{
    match &file.name {
        Some(name) => if exact {
            text::equals_ignoring_case(name.as_str(), kind.file_name())
        } else {
            text::has_part(text::lower_of(name.as_str()).as_str(), kind.file_needle())
        },
        None => false,
    }
}

/// The wanted file with the least path.
fn find_least(files: &Vec<PlanFile>, kind: FpsheavenPowerPlanKind, exact: bool) -> (r: Option<
    usize,
>)
    ensures
        match (r, least_wanted(file_views(files@), kind, exact)) {
            (Some(found), Some(at)) => found == at && found < files.len(),
            (None, None) => true,
            _ => false,
        },
{
    let ghost views = file_views(files@);
    let mut best: Option<usize> = None;
    let mut i: usize = 0;
    while i < files.len()
        invariant
            i <= files.len(),
            views == file_views(files@),
            match best {
                Some(at) => {
                    &&& at < i
                    &&& is_wanted(views[at as int], kind, exact)
                    &&& forall|k: int|
                        0 <= k < i && is_wanted(#[trigger] views[k], kind, exact)
                            ==> !paths::path_less(views[k].components, views[at as int].components)
                    &&& forall|k: int|
                        0 <= k < at && is_wanted(#[trigger] views[k], kind, exact)
                            ==> paths::path_less(views[at as int].components, views[k].components)
                },
                None => forall|k: int|
                    0 <= k < i ==> !is_wanted(#[trigger] views[k], kind, exact),
            },
        decreases files.len() - i,
    {
        assert(views[i as int] == files[i as int]@);
        if wanted(&files[i], kind, exact) {
            let better = match best {
                Some(at) => {
                    assert(views[at as int] == files[at as int]@);
                    path_before(&files[i].components, &files[at].components)
                },
                None => true,
            };
            if better {
                proof {
                    let new = views[i as int].components;
                    paths::law_paths_are_ordered(new, new);
                    if let Some(at) = best {
                        let old = views[at as int].components;
                        assert forall|k: int|
                            0 <= k < i && is_wanted(#[trigger] views[k], kind, exact) implies {
                            &&& paths::path_less(new, views[k].components)
                            &&& !paths::path_less(views[k].components, new)
                        } by {
                            let other = views[k].components;
                            paths::law_paths_are_ordered(old, other);
                            if paths::path_less(old, other) {
                                paths::law_path_order_is_transitive(new, old, other);
                            }
                            paths::law_paths_are_ordered(new, other);
                        }
                    }
                }
                best = Some(i);
            }
        }
        i = i + 1;
    }
    proof {
        let test = |file: PlanFileView|
            is_wanted(file, kind, exact) && is_least(views, kind, exact, file);
        plans::lemma_first_where(views, test);
        match best {
            Some(at) => {
                assert(test(views[at as int]));
                assert forall|k: int| 0 <= k < at implies !test(#[trigger] views[k]) by {
                    if is_wanted(views[k], kind, exact) {
                        assert(is_wanted(views[at as int], kind, exact));
                    }
                }
            },
            None => {
                assert forall|k: int| 0 <= k < views.len() implies !test(#[trigger] views[k]) by {
                    assert(!is_wanted(views[k], kind, exact));
                }
            },
        }
    }
    best
}

/// The place of the file for `kind` among some plan files. `folder` is where they were found.
pub fn find_fpsheaven_power_plan(
    files: &Vec<PlanFile>,
    kind: FpsheavenPowerPlanKind,
    folder: &str,
) -> (r: Result<usize, String>)
    ensures
        match r {
            Ok(at) => fpsheaven_file(file_views(files@), kind) == Some(at as int) && at
                < files.len(),
            Err(error) => fpsheaven_file(file_views(files@), kind) is None && error@
                == "Could not find a FPSHEAVEN "@ + kind.label_text() + " .pow file in "@ + folder@,
        },
{
    if let Some(at) = find_least(files, kind, true) {
        return Ok(at);
    }
    match find_least(files, kind, false) {
        Some(at) => Ok(at),
        None => Err(
            "Could not find a FPSHEAVEN ".to_owned().concat(kind.label()).concat(
                " .pow file in ",
            ).concat(folder),
        ),
    }
}

/// The least of the first `n` files that are wanted, if any.
proof fn lemma_least_of(
    files: Seq<PlanFileView>,
    kind: FpsheavenPowerPlanKind,
    exact: bool,
    n: int,
) -> (r: Option<int>)
    requires
        0 <= n <= files.len(),
    ensures
        match r {
            Some(at) => 0 <= at < n && is_wanted(files[at], kind, exact) && is_least(
                files.take(n),
                kind,
                exact,
                files[at],
            ),
            None => forall|k: int| 0 <= k < n ==> !is_wanted(#[trigger] files[k], kind, exact),
        },
    decreases n,
{
    if n == 0 {
        None
    } else {
        let last = files[n - 1];
        let before = lemma_least_of(files, kind, exact, n - 1);
        if !is_wanted(last, kind, exact) {
            if let Some(at) = before {
                assert forall|k: int|
                    0 <= k < n && is_wanted(#[trigger] files.take(n)[k], kind, exact) implies
                    !paths::path_less(files.take(n)[k].components, files[at].components) by {
                    assert(files.take(n - 1)[k] == files[k]);
                }
            }
            before
        } else {
            paths::law_paths_are_ordered(last.components, last.components);
            match before {
                Some(at) if !paths::path_less(last.components, files[at].components) => {
                    assert forall|k: int|
                        0 <= k < n && is_wanted(#[trigger] files.take(n)[k], kind, exact) implies
                        !paths::path_less(files.take(n)[k].components, files[at].components) by {
                        if k < n - 1 {
                            assert(files.take(n - 1)[k] == files[k]);
                        }
                    }
                    Some(at)
                },
                Some(at) => {
                    assert forall|k: int|
                        0 <= k < n && is_wanted(#[trigger] files.take(n)[k], kind, exact) implies
                        !paths::path_less(files.take(n)[k].components, last.components) by {
                        if k < n - 1 {
                            let other = files[k].components;
                            assert(files.take(n - 1)[k] == files[k]);
                            if paths::path_less(other, last.components) {
                                paths::law_path_order_is_transitive(
                                    other,
                                    last.components,
                                    files[at].components,
                                );
                            }
                        }
                    }
                    Some(n - 1)
                },
                None => {
                    assert forall|k: int|
                        0 <= k < n && is_wanted(#[trigger] files.take(n)[k], kind, exact) implies
                        !paths::path_less(files.take(n)[k].components, last.components) by {
                        assert(files.take(n)[k] == files[k]);
                    }
                    Some(n - 1)
                },
            }
        }
    }
}

/// There is a wanted file with the least path as soon as a file is wanted.
proof fn lemma_least_wanted(
    files: Seq<PlanFileView>,
    kind: FpsheavenPowerPlanKind,
    exact: bool,
)
    ensures
        match least_wanted(files, kind, exact) {
            Some(at) => 0 <= at < files.len() && is_wanted(files[at], kind, exact) && is_least(
                files,
                kind,
                exact,
                files[at],
            ),
            None => forall|k: int|
                0 <= k < files.len() ==> !is_wanted(#[trigger] files[k], kind, exact),
        },
{
    let test = |file: PlanFileView|
        is_wanted(file, kind, exact) && is_least(files, kind, exact, file);
    plans::lemma_first_where(files, test);
    let least = lemma_least_of(files, kind, exact, files.len() as int);
    assert(files.take(files.len() as int) == files);
    if let Some(at) = least {
        assert(test(files[at]));
    }
    if let Some(at) = least_wanted(files, kind, exact) {
        assert(test(files[at]));
    }
}

/// A file is found exactly where some file is likely or exact. The file found is exact wherever an
/// exact one is there, and else likely; and of all such files it has the least path.
pub proof fn law_fpsheaven_file(files: Seq<PlanFileView>, kind: FpsheavenPowerPlanKind)
    ensures
        fpsheaven_file(files, kind) is Some <==> exists|i: int|
            0 <= i < files.len() && (is_exact_file((#[trigger] files[i]).name, kind)
                || is_likely_file(files[i].name, kind)),
        fpsheaven_file(files, kind) matches Some(at) ==> {
            let exact = exists|i: int|
                0 <= i < files.len() && is_exact_file((#[trigger] files[i]).name, kind);
            &&& 0 <= at < files.len()
            &&& exact ==> is_exact_file(files[at].name, kind) && forall|i: int|
                0 <= i < files.len() && is_exact_file((#[trigger] files[i]).name, kind)
                    ==> files[i].components == files[at].components || paths::path_less(
                    files[at].components,
                    files[i].components,
                )
            &&& !exact ==> is_likely_file(files[at].name, kind) && forall|i: int|
                0 <= i < files.len() && is_likely_file((#[trigger] files[i]).name, kind)
                    ==> files[i].components == files[at].components || paths::path_less(
                    files[at].components,
                    files[i].components,
                )
        },
{
    lemma_least_wanted(files, kind, true);
    lemma_least_wanted(files, kind, false);
    assert forall|i: int| 0 <= i < files.len() implies is_wanted(#[trigger] files[i], kind, true)
        == is_exact_file(files[i].name, kind) && is_wanted(files[i], kind, false)
        == is_likely_file(files[i].name, kind) by {}
    if let Some(at) = fpsheaven_file(files, kind) {
        assert forall|i: int| 0 <= i < files.len() implies (
        #[trigger] files[i]).components == files[at].components || paths::path_less(
            files[at].components,
            files[i].components,
        ) || paths::path_less(files[i].components, files[at].components) by {
            paths::law_paths_are_ordered(files[at].components, files[i].components);
        }
    }
}

} // verus!
