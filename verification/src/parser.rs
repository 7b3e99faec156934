//! The line formats of the package tools.
//!
//! Each manager family prints one update per line in a format of its own.
//! A line that does not fit the format of the manager at hand is dropped:
//! tools change what they print, and one odd line must not spoil a check.

use vstd::prelude::*;
use crate::package_manager::PackageManager;
use crate::text::{
    before_first, before_last, blank, contains, field_end, field_end_at, fields, find,
    find_chars, has_infix, has_prefix, is_blank, lacks, lemma_fields_without_separator,
    lemma_lacking_first_char, lemma_lines_concat, lemma_one_line, lines, prefix_before_first,
    prefix_before_last, same_text, slice_of, split_fields, split_lines, split_words,
    starts_with, strip_cr, text_of, to_chars, trim, trimmed, views, words,
};
use crate::update::{all_from, record_of, records, unknown, PackageUpdate, UpdateRecord};

verus! {

/// Whether the line is one of the headers, separators and notices that the
/// tools print around their listings, or holds nothing at all.
pub open spec fn is_noise(line: Seq<char>) -> bool {
    ||| starts_with(line, "Listing..."@)
    ||| starts_with(line, "Done"@)
    ||| starts_with(line, "WARNING:"@)
    ||| starts_with(line, "S |"@)
    ||| starts_with(line, "--+"@)
    ||| is_blank(line)
}

/// The text that opens the note of the installed version.
pub open spec fn from_marker() -> Seq<char> {
    "[upgradable from: "@
}

/// The text by which a line is known to announce an upgrade.
pub open spec fn upgradable_marker() -> Seq<char> {
    "[upgradable from:"@
}

/// The installed version that a line notes as `[upgradable from: X]`:
/// the text between the marker and the next `]`.
pub open spec fn noted_version(line: Seq<char>) -> Seq<char> {
    match find(line, from_marker()) {
        Some(i) => {
            let start = i + from_marker().len();
            let end = field_end(line, ']', start);
            if end < line.len() {
                line.subrange(start, end)
            } else {
                unknown()
            }
        },
        None => unknown(),
    }
}

/// The `k`-th word of `w`, or `unknown` where there is none.
pub open spec fn word_or_unknown(w: Seq<Seq<char>>, k: int) -> Seq<char> {
    if 0 <= k < w.len() {
        w[k]
    } else {
        unknown()
    }
}

/// Arch family: `<name> <old> -> <new>`, or `<name> <new>` alone. A line
/// with an arrow is these four words and no more, with the arrow as the
/// third; a line without one is these two words and no more.
pub open spec fn arch_line(line: Seq<char>, is_aur: bool) -> Option<UpdateRecord> {
    let w = words(line);
    if contains(line, " -> "@) {
        if w.len() == 4 && w[2] == "->"@ {
            Some(UpdateRecord { name: w[0], current_version: w[1], new_version: w[3], is_aur })
        } else {
            None
        }
    } else if w.len() == 2 {
        Some(UpdateRecord { name: w[0], current_version: unknown(), new_version: w[1], is_aur })
    } else {
        None
    }
}

/// Apt: `<name>/<suite> <new> <arch> [upgradable from: <old>]`.
pub open spec fn apt_line(line: Seq<char>) -> Option<UpdateRecord> {
    if contains(line, upgradable_marker()) {
        Some(
            UpdateRecord {
                name: before_first(line, '/'),
                current_version: noted_version(line),
                new_version: word_or_unknown(words(line), 1),
                is_aur: false,
            },
        )
    } else {
        None
    }
}

/// Dnf: `<name>.<arch> <version> <repository>`, these three words and no
/// more. The name ends at the last dot of the first word.
pub open spec fn dnf_line(line: Seq<char>) -> Option<UpdateRecord> {
    let w = words(line);
    if w.len() == 3 {
        Some(
            UpdateRecord {
                name: before_last(w[0], '.'),
                current_version: unknown(),
                new_version: w[1],
                is_aur: false,
            },
        )
    } else {
        None
    }
}

/// Zypper: a table whose columns are set apart by `|`; the name is in the
/// second column and the new version in the fourth.
pub open spec fn zypper_line(line: Seq<char>) -> Option<UpdateRecord> {
    let f = fields(line, '|');
    if f.len() >= 4 {
        Some(
            UpdateRecord {
                name: trim(f[1]),
                current_version: unknown(),
                new_version: trim(f[3]),
                is_aur: false,
            },
        )
    } else {
        None
    }
}

/// Apk: `<name>-<version> <new> [upgradable from: <old>]`.
pub open spec fn apk_line(line: Seq<char>) -> Option<UpdateRecord> {
    let w = words(line);
    if contains(line, upgradable_marker()) && w.len() >= 1 {
        Some(
            UpdateRecord {
                name: before_last(w[0], '-'),
                current_version: noted_version(line),
                new_version: word_or_unknown(w, 1),
                is_aur: false,
            },
        )
    } else {
        None
    }
}

/// Flatpak: columns set apart by tabs; the name is in the first column and
/// the new version in the third.
pub open spec fn flatpak_line(line: Seq<char>) -> Option<UpdateRecord> {
    let f = fields(line, '\t');
    if f.len() >= 3 {
        Some(
            UpdateRecord {
                name: f[0],
                current_version: unknown(),
                new_version: f[2],
                is_aur: false,
            },
        )
    } else {
        None
    }
}

/// The record that one line of the output of `pm` stands for, if any.
pub open spec fn parsed_line(pm: PackageManager, line: Seq<char>, is_aur: bool) -> Option<
    UpdateRecord,
> {
    if is_noise(line) {
        None
    } else {
        match pm {
            PackageManager::Pacman | PackageManager::Paru | PackageManager::Yay => arch_line(
                line,
                is_aur,
            ),
            PackageManager::Apt => apt_line(line),
            PackageManager::Dnf => dnf_line(line),
            PackageManager::Zypper => zypper_line(line),
            PackageManager::Apk => apk_line(line),
            PackageManager::Flatpak => flatpak_line(line),
        }
    }
}

/// The records of a sequence of lines: those of its lines that stand for
/// one, in the order of the lines.
pub open spec fn parsed_lines(pm: PackageManager, ls: Seq<Seq<char>>, is_aur: bool) -> Seq<
    UpdateRecord,
>
    decreases ls.len(),
{
    if ls.len() == 0 {
        Seq::empty()
    } else {
        let before = parsed_lines(pm, ls.drop_last(), is_aur);
        match parsed_line(pm, ls.last(), is_aur) {
            Some(r) => before.push(r),
            None => before,
        }
    }
}

/// The records of the output of `pm`.
pub open spec fn parsed_output(pm: PackageManager, output: Seq<char>, is_aur: bool) -> Seq<
    UpdateRecord,
> {
    parsed_lines(pm, lines(output), is_aur)
}

/// Whether `pm` belongs to the Arch family, whose lines carry no origin of
/// their own.
pub open spec fn is_arch(pm: PackageManager) -> bool {
    pm == PackageManager::Pacman || pm == PackageManager::Paru || pm == PackageManager::Yay
}

/// The records of two runs of lines, one after the other, are the records
/// of the first followed by those of the second.
pub proof fn lemma_parsed_lines_concat(
    pm: PackageManager,
    a: Seq<Seq<char>>,
    b: Seq<Seq<char>>,
    is_aur: bool,
)
    ensures
        parsed_lines(pm, a + b, is_aur) == parsed_lines(pm, a, is_aur) + parsed_lines(
            pm,
            b,
            is_aur,
        ),
    decreases b.len(),
{
    if b.len() == 0 {
        assert(a + b =~= a);
        assert(parsed_lines(pm, a, is_aur) + parsed_lines(pm, b, is_aur) =~= parsed_lines(
            pm,
            a,
            is_aur,
        ));
    } else {
        lemma_parsed_lines_concat(pm, a, b.drop_last(), is_aur);
        assert((a + b).drop_last() =~= a + b.drop_last());
        assert((a + b).last() == b.last());
        let head = parsed_lines(pm, a, is_aur);
        let tail = parsed_lines(pm, b.drop_last(), is_aur);
        match parsed_line(pm, b.last(), is_aur) {
            Some(r) => {
                assert((head + tail).push(r) =~= head + tail.push(r));
            },
            None => {},
        }
    }
}

/// A line that stands for no record can be put anywhere among other lines,
/// or taken away, and the records of the other lines stay as they are.
pub proof fn lemma_dropped_line_leaves_others(
    pm: PackageManager,
    a: Seq<Seq<char>>,
    line: Seq<char>,
    b: Seq<Seq<char>>,
    is_aur: bool,
)
    requires
        parsed_line(pm, line, is_aur) is None,
    ensures
        parsed_lines(pm, a + seq![line] + b, is_aur) == parsed_lines(pm, a + b, is_aur),
        parsed_lines(pm, a + seq![line] + b, is_aur) == parsed_lines(pm, a, is_aur)
            + parsed_lines(pm, b, is_aur),
{
    let one = seq![line];
    lemma_parsed_lines_concat(pm, a + one, b, is_aur);
    lemma_parsed_lines_concat(pm, a, one, is_aur);
    lemma_parsed_lines_concat(pm, a, b, is_aur);
    assert(one.drop_last() =~= Seq::<Seq<char>>::empty());
    assert(parsed_lines(pm, one.drop_last(), is_aur) =~= Seq::<UpdateRecord>::empty());
    assert(parsed_lines(pm, one, is_aur) =~= Seq::<UpdateRecord>::empty());
    assert(parsed_lines(pm, a, is_aur) + Seq::<UpdateRecord>::empty() =~= parsed_lines(
        pm,
        a,
        is_aur,
    ));
}

/// Every record has the origin of its phase: a record of the Arch family
/// has the origin that the caller names, and a record of any other family
/// is official.
pub proof fn lemma_parsed_lines_origin(pm: PackageManager, ls: Seq<Seq<char>>, is_aur: bool)
    ensures
        all_from(parsed_lines(pm, ls, is_aur), is_aur && is_arch(pm)),
    decreases ls.len(),
{
    if ls.len() > 0 {
        lemma_parsed_lines_origin(pm, ls.drop_last(), is_aur);
    }
}

/// The indices of the lines that stand for a record, in rising order.
pub open spec fn record_lines(pm: PackageManager, ls: Seq<Seq<char>>, is_aur: bool) -> Seq<int>
    decreases ls.len(),
{
    if ls.len() == 0 {
        Seq::empty()
    } else {
        let before = record_lines(pm, ls.drop_last(), is_aur);
        if parsed_line(pm, ls.last(), is_aur) is Some {
            before.push(ls.len() - 1)
        } else {
            before
        }
    }
}

/// The records follow the lines: each record is that of one line, the
/// records stand in the order of their lines, no line gives two records,
/// and every line that stands for a record gives one. So the same lines
/// always give the same records.
pub proof fn lemma_records_follow_lines(pm: PackageManager, ls: Seq<Seq<char>>, is_aur: bool)
    ensures
        record_lines(pm, ls, is_aur).len() == parsed_lines(pm, ls, is_aur).len(),
        forall|k: int|
            0 <= k < record_lines(pm, ls, is_aur).len() ==> 0 <= (#[trigger] record_lines(
                pm,
                ls,
                is_aur,
            )[k]) < ls.len() && parsed_line(pm, ls[record_lines(pm, ls, is_aur)[k]], is_aur)
                == Some(parsed_lines(pm, ls, is_aur)[k]),
        forall|j: int, k: int|
            0 <= j < k < record_lines(pm, ls, is_aur).len() ==> (#[trigger] record_lines(
                pm,
                ls,
                is_aur,
            )[j]) < (#[trigger] record_lines(pm, ls, is_aur)[k]),
        forall|i: int|
            0 <= i < ls.len() && parsed_line(pm, #[trigger] ls[i], is_aur) is Some
                ==> record_lines(pm, ls, is_aur).contains(i),
    decreases ls.len(),
{
    if ls.len() > 0 {
        let head = ls.drop_last();
        lemma_records_follow_lines(pm, head, is_aur);
        let idx = record_lines(pm, ls, is_aur);
        let before = record_lines(pm, head, is_aur);
        let recs = parsed_lines(pm, ls, is_aur);
        let n = ls.len() - 1;
        assert forall|k: int| 0 <= k < idx.len() implies 0 <= (#[trigger] idx[k]) < ls.len()
            && parsed_line(pm, ls[idx[k]], is_aur) == Some(recs[k]) by {
            if k < before.len() {
                assert(idx[k] == before[k]);
                assert(head[before[k]] == ls[before[k]]);
            }
        }
        assert forall|j: int, k: int| 0 <= j < k < idx.len() implies (#[trigger] idx[j]) < (
        #[trigger] idx[k]) by {
            assert(idx[j] == before[j]);
            if k < before.len() {
                assert(idx[k] == before[k]);
            }
        }
        assert forall|i: int|
            0 <= i < ls.len() && parsed_line(pm, #[trigger] ls[i], is_aur) is Some implies idx.contains(
            i,
        ) by {
            if i < n {
                assert(head[i] == ls[i]);
                assert(before.contains(i));
                let k = choose|k: int| 0 <= k < before.len() && before[k] == i;
                assert(idx[k] == i);
            } else {
                assert(idx[idx.len() - 1] == i);
            }
        }
    }
}

/// Parsing the same text for the same manager gives the same records, in
/// the same order.
pub proof fn lemma_reparse_identical(
    pm: PackageManager,
    output: Seq<char>,
    is_aur: bool,
    first: Seq<UpdateRecord>,
    second: Seq<UpdateRecord>,
)
    requires
        first == parsed_output(pm, output, is_aur),
        second == parsed_output(pm, output, is_aur),
    ensures
        first == second,
{
}

/// A line that stands for no record can be put into the output at the
/// start of any line, or taken out, and the records of the output stay as
/// they are: what stands before it and what stands after it is parsed as
/// if the line were not there.
pub proof fn lemma_dropped_line_in_output(
    pm: PackageManager,
    before: Seq<char>,
    line: Seq<char>,
    after: Seq<char>,
    is_aur: bool,
)
    requires
        before.len() == 0 || before.last() == '\n',
        lacks(line, '\n'),
        parsed_line(pm, strip_cr(line), is_aur) is None,
    ensures
        parsed_output(pm, before + line.push('\n') + after, is_aur) == parsed_output(
            pm,
            before + after,
            is_aur,
        ),
        parsed_output(pm, before + line.push('\n') + after, is_aur) == parsed_output(
            pm,
            before,
            is_aur,
        ) + parsed_output(pm, after, is_aur),
{
    let one = line.push('\n');
    lemma_one_line(line);
    lemma_lines_concat(before, one);
    lemma_lines_concat(before + one, after);
    lemma_lines_concat(before, after);
    lemma_dropped_line_leaves_others(pm, lines(before), strip_cr(line), lines(after), is_aur);
}

/// Whether the formats of `pm` rest on a mark that a line must hold: the
/// bracket of apt and apk, the bars of zypper, the tabs of flatpak. The
/// formats of the other managers rest on the number of their words.
pub open spec fn is_marked_format(pm: PackageManager) -> bool {
    pm == PackageManager::Apt || pm == PackageManager::Zypper || pm == PackageManager::Apk || pm
        == PackageManager::Flatpak
}

/// A line stands for a record only if it has the shape of its format: in
/// the Arch family two words, or four with an arrow as the third; for dnf
/// three words; for apt and apk a bracket; for zypper three bars or more;
/// for flatpak two tabs or more.
pub proof fn lemma_record_has_shape(pm: PackageManager, line: Seq<char>, is_aur: bool)
    requires
        parsed_line(pm, line, is_aur) is Some,
    ensures
        !is_noise(line),
        is_arch(pm) ==> words(line).len() == 2 || (words(line).len() == 4 && words(line)[2]
            == "->"@),
        pm == PackageManager::Dnf ==> words(line).len() == 3,
        pm == PackageManager::Apt || pm == PackageManager::Apk ==> !lacks(line, '['),
        pm == PackageManager::Zypper ==> !lacks(line, '|') && fields(line, '|').len() >= 4,
        pm == PackageManager::Flatpak ==> !lacks(line, '\t') && fields(line, '\t').len() >= 3,
{
    if lacks(line, '[') {
        reveal_strlit("[upgradable from:");
        assert(upgradable_marker()[0] == '[');
        lemma_lacking_first_char(line, upgradable_marker());
    }
    if lacks(line, '|') {
        lemma_fields_without_separator(line, '|');
    }
    if lacks(line, '\t') {
        lemma_fields_without_separator(line, '\t');
    }
}

/// A line of more than four words without bracket, bar and tab stands for
/// no record, whatever the manager and whatever the words. Where the
/// format rests on a mark, the number of the words does not matter.
pub proof fn lemma_unmarked_line_dropped(pm: PackageManager, line: Seq<char>, is_aur: bool)
    requires
        lacks(line, '['),
        lacks(line, '|'),
        lacks(line, '\t'),
        is_marked_format(pm) || words(line).len() > 4,
    ensures
        parsed_line(pm, line, is_aur) is None,
{
    if parsed_line(pm, line, is_aur) is Some {
        lemma_record_has_shape(pm, line, is_aur);
    }
}

/// Whether the line is noise.
pub fn noise(line: &Vec<char>) -> (r: bool)
    ensures
        r == is_noise(line@),
{
    has_prefix(line, "Listing...") || has_prefix(line, "Done") || has_prefix(line, "WARNING:")
        || has_prefix(line, "S |") || has_prefix(line, "--+") || blank(line)
}

/// The installed version that the line notes.
pub fn noted_version_of(line: &Vec<char>) -> (r: String)
    ensures
        r@ == noted_version(line@),
{
    let marker = to_chars("[upgradable from: ");
    match find_chars(line, &marker) {
        Some(i) => {
            let start = i + marker.len();
            let end = field_end_at(line, ']', start);
            if end < line.len() {
                let version = slice_of(line, start, end);
                text_of(&version)
            } else {
                "unknown".to_owned()
            }
        },
        None => "unknown".to_owned(),
    }
}

/// The `k`-th word of `w`, or `unknown` where there is none.
pub fn word_or_unknown_of(w: &Vec<Vec<char>>, k: usize) -> (r: String)
    ensures
        r@ == word_or_unknown(views(w@), k as int),
{
    if k < w.len() {
        text_of(&w[k])
    } else {
        "unknown".to_owned()
    }
}

fn parse_arch(line: &Vec<char>, is_aur: bool) -> (r: Option<PackageUpdate>)
    ensures
        record_of(r) == arch_line(line@, is_aur),
{
    let w = split_words(line);
    if has_infix(line, " -> ") {
        if w.len() == 4 && same_text(&w[2], "->") {
            Some(
                PackageUpdate {
                    name: text_of(&w[0]),
                    current_version: text_of(&w[1]),
                    new_version: text_of(&w[3]),
                    is_aur,
                },
            )
        } else {
            None
        }
    } else if w.len() == 2 {
        Some(
            PackageUpdate {
                name: text_of(&w[0]),
                current_version: "unknown".to_owned(),
                new_version: text_of(&w[1]),
                is_aur,
            },
        )
    } else {
        None
    }
}

fn parse_apt(line: &Vec<char>) -> (r: Option<PackageUpdate>)
    ensures
        record_of(r) == apt_line(line@),
{
    if has_infix(line, "[upgradable from:") {
        let name = prefix_before_first(line, '/');
        let w = split_words(line);
        Some(
            PackageUpdate {
                name: text_of(&name),
                current_version: noted_version_of(line),
                new_version: word_or_unknown_of(&w, 1),
                is_aur: false,
            },
        )
    } else {
        None
    }
}

fn parse_dnf(line: &Vec<char>) -> (r: Option<PackageUpdate>)
    ensures
        record_of(r) == dnf_line(line@),
{
    let w = split_words(line);
    if w.len() == 3 {
        let name = prefix_before_last(&w[0], '.');
        Some(
            PackageUpdate {
                name: text_of(&name),
                current_version: "unknown".to_owned(),
                new_version: text_of(&w[1]),
                is_aur: false,
            },
        )
    } else {
        None
    }
}

fn parse_zypper(line: &Vec<char>) -> (r: Option<PackageUpdate>)
    ensures
        record_of(r) == zypper_line(line@),
{
    let f = split_fields(line, '|');
    if f.len() >= 4 {
        let name = trimmed(&f[1]);
        let version = trimmed(&f[3]);
        Some(
            PackageUpdate {
                name: text_of(&name),
                current_version: "unknown".to_owned(),
                new_version: text_of(&version),
                is_aur: false,
            },
        )
    } else {
        None
    }
}

fn parse_apk(line: &Vec<char>) -> (r: Option<PackageUpdate>)
    ensures
        record_of(r) == apk_line(line@),
{
    if has_infix(line, "[upgradable from:") {
        let w = split_words(line);
        if w.len() >= 1 {
            let name = prefix_before_last(&w[0], '-');
            return Some(
                PackageUpdate {
                    name: text_of(&name),
                    current_version: noted_version_of(line),
                    new_version: word_or_unknown_of(&w, 1),
                    is_aur: false,
                },
            );
        }
    }
    None
}

fn parse_flatpak(line: &Vec<char>) -> (r: Option<PackageUpdate>)
    ensures
        record_of(r) == flatpak_line(line@),
{
    let f = split_fields(line, '\t');
    if f.len() >= 3 {
        Some(
            PackageUpdate {
                name: text_of(&f[0]),
                current_version: "unknown".to_owned(),
                new_version: text_of(&f[2]),
                is_aur: false,
            },
        )
    } else {
        None
    }
}

/// The update that one line of the output of `pm` stands for, if any.
pub fn parse_line(pm: PackageManager, line: &Vec<char>, is_aur: bool) -> (r: Option<
    PackageUpdate,
>)
    ensures
        record_of(r) == parsed_line(pm, line@, is_aur),
{
    if noise(line) {
        return None;
    }
    match pm {
        PackageManager::Pacman | PackageManager::Paru | PackageManager::Yay => parse_arch(
            line,
            is_aur,
        ),
        PackageManager::Apt => parse_apt(line),
        PackageManager::Dnf => parse_dnf(line),
        PackageManager::Zypper => parse_zypper(line),
        PackageManager::Apk => parse_apk(line),
        PackageManager::Flatpak => parse_flatpak(line),
    }
}

/// The updates of the output of `pm`, given as its characters, in the
/// order of its lines.
pub fn parse_chars(pm: PackageManager, output: &Vec<char>, is_aur: bool) -> (r: Vec<
    PackageUpdate,
>)
    ensures
        records(r@) == parsed_output(pm, output@, is_aur),
{
    let ls = split_lines(output);
    let mut out: Vec<PackageUpdate> = Vec::new();
    let mut k: usize = 0;
    assert(views(ls@).take(0) =~= Seq::<Seq<char>>::empty());
    assert(records(out@) =~= Seq::<UpdateRecord>::empty());
    while k < ls.len()
        invariant
            k <= ls.len(),
            records(out@) == parsed_lines(pm, views(ls@).take(k as int), is_aur),
        decreases ls.len() - k,
    {
        let ghost before = out@;
        let parsed = parse_line(pm, &ls[k], is_aur);
        proof {
            let next = views(ls@).take(k + 1);
            assert(next.drop_last() =~= views(ls@).take(k as int));
            assert(next.last() == ls@[k as int]@);
        }
        match parsed {
            Some(p) => {
                out.push(p);
                assert(records(out@) =~= records(before).push(p@));
            },
            None => {},
        }
        k += 1;
    }
    assert(views(ls@).take(ls.len() as int) =~= views(ls@));
    out
}

/// The updates of the output of `pm`, in the order of its lines.
pub fn parse_output(pm: PackageManager, output: &str, is_aur: bool) -> (r: Vec<PackageUpdate>)
    ensures
        records(r@) == parsed_output(pm, output@, is_aur),
{
    let chars = to_chars(output);
    parse_chars(pm, &chars, is_aur)
}

} // verus!
