//! What holds of the WSL probes.

use vstd::prelude::*;
use vstd::string::*;

use crate::examination::{unexamined, ExaminationView, WslFactsView};
use crate::host::{Host, WslHostDriverProbeView};
use crate::number::u32_of;
use crate::split::{lines_of, without_return};
use crate::text::{
    after_prefix, begins_with, char_from, is_space, lemma_char_from, same_but_case, sides_of,
    trimmed, trimmed_end, trimmed_start,
};
use crate::utf16::{bytes_of, law_marked_text_survives, units_of, utf16le_text};
use crate::wsl::{
    clears_floor, distro_name, distro_names, driver_fields, floor_verdict, guest_facts,
    host_side_probed, is_listed, remote_facts, remote_flag, remote_text, remote_tristate,
    selected_distro, without_nul, wsl_rocminfo_status, GuestFacts,
};
use crate::laws::examination::{same_driver, same_gpus};
use crate::unicode::upper_text;

verus! {

// ---------------------------------------------------------------------------
// The floor
// ---------------------------------------------------------------------------

/// The floor fails closed: a release counts as supported only where it is
/// Ubuntu's and reads as a pair of numbers that reaches the floor.
pub proof fn law_floor_fails_closed(distro_id: Seq<char>, distro_version: Seq<char>)
    ensures
        floor_verdict(distro_id, distro_version) == Some(true) ==> {
            &&& same_but_case(distro_id, "ubuntu"@)
            &&& sides_of(distro_version, '.') matches Some((major, minor))
            &&& u32_of(major) matches Some(major)
            &&& u32_of(minor) matches Some(minor)
            &&& clears_floor(major, minor)
        },
        sides_of(distro_version, '.') is None ==> floor_verdict(distro_id, distro_version) is None,
        !same_but_case(distro_id, "ubuntu"@) ==> floor_verdict(distro_id, distro_version) is None,
{
}

/// A later release clears the floor where an earlier one does.
pub proof fn law_floor_is_monotone(major: u32, minor: u32, later_major: u32, later_minor: u32)
    requires
        clears_floor(major, minor),
        later_major > major || (later_major == major && later_minor >= minor),
    ensures
        clears_floor(later_major, later_minor),
{
}

// ---------------------------------------------------------------------------
// The host driver
// ---------------------------------------------------------------------------

/// A host that could not be asked is told apart from one that answered, and one
/// without an AMD adapter from one with a driver.
pub proof fn law_unreachable_is_not_driverless(probe: WslHostDriverProbeView)
    ensures
        driver_fields(probe).0 <==> driver_fields(probe).1 is Some,
        driver_fields(probe).1 is None <==> probe is Unreachable,
        driver_fields(probe).1 == Some(Seq::<char>::empty()) <==> (probe is NoAmdDisplay || probe
            == WslHostDriverProbeView::Version(Seq::empty())),
{
}

// ---------------------------------------------------------------------------
// Choosing a distribution
// ---------------------------------------------------------------------------

/// A distribution is chosen only among those listed; one that was asked for is
/// chosen under the name that it was asked by.
pub proof fn law_choice_is_listed(distro: Option<Seq<char>>, distros: Seq<Seq<char>>)
    ensures
        selected_distro(distro, distros) matches Ok(name) ==> {
            &&& is_listed(name, distros)
            &&& distro matches Some(asked) ==> name == asked
        },
{
    if distro is None && distros.len() == 1 {
        assert(same_but_case(distros[0], distros[0]));
    }
}

/// A distribution that is not listed is refused, and so is a choice among none
/// or among several.
pub proof fn law_refusals(distro: Option<Seq<char>>, distros: Seq<Seq<char>>)
    ensures
        selected_distro(distro, distros) is Err <==> (match distro {
            Some(name) => !is_listed(name, distros),
            None => distros.len() != 1,
        }),
{
}

// ---------------------------------------------------------------------------
// The list of distributions
// ---------------------------------------------------------------------------

proof fn lemma_trimmed_start(s: Seq<char>)
    ensures
        ({
            let t = trimmed_start(s);
            &&& t.len() > 0 ==> !is_space(t[0])
            &&& exists|k: int| 0 <= k <= s.len() && t == #[trigger] s.skip(k)
        }),
    decreases s.len(),
{
    if s.len() > 0 && is_space(s[0]) {
        lemma_trimmed_start(s.skip(1));
        let t = trimmed_start(s);
        let k = choose|k: int| 0 <= k <= s.skip(1).len() && t == #[trigger] s.skip(1).skip(k);
        assert(s.skip(1).skip(k) =~= s.skip(k + 1));
    } else {
        assert(s.skip(0) =~= s);
    }
}

proof fn lemma_trimmed_end(s: Seq<char>)
    ensures
        ({
            let t = trimmed_end(s);
            &&& t.len() > 0 ==> !is_space(t.last())
            &&& exists|k: int| 0 <= k <= s.len() && t == #[trigger] s.take(k)
        }),
    decreases s.len(),
{
    if s.len() > 0 && is_space(s.last()) {
        lemma_trimmed_end(s.drop_last());
        let t = trimmed_end(s);
        let k = choose|k: int| 0 <= k <= s.drop_last().len() && t == #[trigger] s.drop_last().take(k);
        assert(s.drop_last().take(k) =~= s.take(k));
    } else {
        assert(s.take(s.len() as int) =~= s);
    }
}

/// Whether a text has no white space around it.
pub open spec fn is_trimmed(s: Seq<char>) -> bool {
    s.len() > 0 ==> !is_space(s[0]) && !is_space(s.last())
}

/// Trimming takes the white space around a text, and nothing that was not there
/// comes in.
proof fn lemma_trimmed(s: Seq<char>)
    ensures
        is_trimmed(trimmed(s)),
        forall|c: char| #[trigger] trimmed(s).contains(c) ==> s.contains(c),
{
    let start = trimmed_start(s);
    lemma_trimmed_start(s);
    lemma_trimmed_end(start);
    let a = choose|k: int| 0 <= k <= s.len() && start == #[trigger] s.skip(k);
    let b = choose|k: int| 0 <= k <= start.len() && trimmed(s) == #[trigger] start.take(k);
    let t = trimmed(s);
    if t.len() > 0 {
        assert(t[0] == start[0]);
    }
    assert forall|c: char| #[trigger] t.contains(c) implies s.contains(c) by {
        let i = choose|i: int| 0 <= i < t.len() && t[i] == c;
        assert(s[i + a] == c);
    }
}

proof fn lemma_trimmed_stays(s: Seq<char>)
    requires
        is_trimmed(s),
    ensures
        trimmed(s) == s,
{
}

proof fn lemma_without_nul(s: Seq<char>)
    ensures
        !without_nul(s).contains('\0'),
        !s.contains('\0') ==> without_nul(s) == s,
    decreases s.len(),
{
    reveal(Seq::filter);
    if s.len() > 0 {
        let before = s.drop_last();
        lemma_without_nul(before);
        let kept = without_nul(before);
        if s.last() != '\0' {
            assert(without_nul(s) == kept.push(s.last()));
            if without_nul(s).contains('\0') {
                let i = choose|i: int| 0 <= i < without_nul(s).len() && without_nul(s)[i] == '\0';
                assert(kept[i] == '\0');
            }
        }
        if !s.contains('\0') {
            assert(s[s.len() - 1] == s.last());
            if before.contains('\0') {
                let i = choose|i: int| 0 <= i < before.len() && before[i] == '\0';
                assert(s[i] == '\0');
            }
            assert(kept.push(s.last()) =~= s);
        }
    }
}

/// No line holds a character that the text does not hold.
proof fn lemma_lines_hold(s: Seq<char>, c: char)
    requires
        !s.contains(c),
    ensures
        forall|i: int| 0 <= i < lines_of(s).len() ==> !(#[trigger] lines_of(s)[i]).contains(c),
    decreases s.len(),
{
    lemma_char_from(s, '\n', 0);
    match char_from(s, '\n', 0) {
        Some(i) => {
            let head = without_return(s.take(i));
            let rest = s.skip(i + 1);
            if head.contains(c) {
                let k = choose|k: int| 0 <= k < head.len() && head[k] == c;
                assert(s[k] == c);
            }
            if rest.contains(c) {
                let k = choose|k: int| 0 <= k < rest.len() && rest[k] == c;
                assert(s[k + i + 1] == c);
            }
            lemma_lines_hold(rest, c);
            assert forall|k: int| 0 <= k < lines_of(s).len() implies !(#[trigger] lines_of(
                s,
            )[k]).contains(c) by {
                if k == 0 {
                    assert(lines_of(s)[0] == head);
                } else {
                    assert(lines_of(s)[k] == lines_of(rest)[k - 1]);
                }
            }
        },
        None => {},
    }
}

/// Whether a name is one to hand to `wsl.exe`: not blank, with nothing around
/// it and no NUL in it.
pub open spec fn is_clean_name(name: Seq<char>) -> bool {
    name.len() > 0 && is_trimmed(name) && !name.contains('\0')
}

proof fn lemma_clean_name(raw: Seq<char>)
    requires
        !raw.contains('\0'),
    ensures
        distro_name(raw) matches Some(name) ==> is_clean_name(name),
{
    let line = trimmed(raw);
    lemma_trimmed(raw);
    assert(!line.contains('\0'));
    match after_prefix(line, "*"@) {
        Some(rest) => {
            lemma_trimmed(rest);
            if rest.contains('\0') {
                let i = choose|i: int| 0 <= i < rest.len() && rest[i] == '\0';
                assert(line[i + "*"@.len()] == '\0');
            }
            assert(!trimmed(rest).contains('\0'));
        },
        None => {},
    }
}

proof fn lemma_clean_names(lines: Seq<Seq<char>>)
    requires
        forall|i: int| 0 <= i < lines.len() ==> !(#[trigger] lines[i]).contains('\0'),
    ensures
        forall|i: int|
            0 <= i < distro_names(lines).len() ==> is_clean_name(#[trigger] distro_names(lines)[i]),
    decreases lines.len(),
{
    if lines.len() > 0 {
        let before = lines.drop_last();
        assert forall|i: int| 0 <= i < before.len() implies !(#[trigger] before[i]).contains(
            '\0',
        ) by {
            assert(before[i] == lines[i]);
        }
        lemma_clean_names(before);
        assert(lines[lines.len() - 1] == lines.last());
        lemma_clean_name(lines.last());
        let kept = distro_names(before);
        assert forall|i: int| 0 <= i < distro_names(lines).len() implies is_clean_name(
            #[trigger] distro_names(lines)[i],
        ) by {
            if i < kept.len() {
                assert(distro_names(lines)[i] == kept[i]);
            }
        }
    }
}

/// Whatever `wsl.exe` prints, the names read out of it are clean.
pub proof fn law_listed_names_are_clean(text: Seq<char>)
    ensures
        forall|i: int|
            #![trigger distro_names(lines_of(without_nul(text)))[i]]
            0 <= i < distro_names(lines_of(without_nul(text))).len() ==> is_clean_name(
                distro_names(lines_of(without_nul(text)))[i],
            ),
{
    let clean = without_nul(text);
    lemma_without_nul(text);
    lemma_lines_hold(clean, '\0');
    lemma_clean_names(lines_of(clean));
}

/// A list of names as `wsl.exe -l -q` prints it: one on each line.
pub open spec fn printed(names: Seq<Seq<char>>) -> Seq<char>
    decreases names.len(),
{
    if names.len() == 0 {
        Seq::empty()
    } else {
        names[0] + seq!['\r', '\n'] + printed(names.skip(1))
    }
}

/// Whether a name can stand in such a list: it is clean, stays on one line, and
/// is neither the header nor marked as the default.
pub open spec fn is_listable(name: Seq<char>) -> bool {
    &&& is_clean_name(name)
    &&& !name.contains('\n')
    &&& !begins_with(name, "*"@)
    &&& !begins_with(upper_text(name), "NAME"@)
}

proof fn lemma_printed_lines(names: Seq<Seq<char>>)
    requires
        forall|i: int| 0 <= i < names.len() ==> is_listable(#[trigger] names[i]),
    ensures
        lines_of(printed(names)) == names,
        !printed(names).contains('\0'),
    decreases names.len(),
{
    if names.len() > 0 {
        let rest = names.skip(1);
        assert forall|i: int| 0 <= i < rest.len() implies is_listable(#[trigger] rest[i]) by {
            assert(rest[i] == names[i + 1]);
        }
        lemma_printed_lines(rest);
        let s = printed(names);
        let n = names[0].len() as int;
        assert(is_listable(names[0]));
        lemma_char_from(s, '\n', 0);
        assert(s[n + 1] == '\n');
        assert forall|i: int| 0 <= i < n + 1 implies s[i] != '\n' by {
            if i < n {
                assert(s[i] == names[0][i]);
            }
        }
        assert(char_from(s, '\n', 0) == Some(n + 1));
        assert(s.take(n + 1) =~= names[0].push('\r'));
        assert(without_return(s.take(n + 1)) =~= names[0]);
        assert(s.skip(n + 2) =~= printed(rest));
        assert(lines_of(s) =~= names) by {
            assert(seq![names[0]] + rest =~= names);
        }
        if s.contains('\0') {
            let i = choose|i: int| 0 <= i < s.len() && s[i] == '\0';
            if i < n {
                assert(names[0][i] == '\0');
            } else {
                assert(printed(rest)[i - n - 2] == '\0');
            }
        }
    } else {
        lemma_char_from(printed(names), '\n', 0);
        assert(lines_of(printed(names)) =~= names);
    }
}

proof fn lemma_names_kept(names: Seq<Seq<char>>)
    requires
        forall|i: int| 0 <= i < names.len() ==> is_listable(#[trigger] names[i]),
    ensures
        distro_names(names) == names,
    decreases names.len(),
{
    if names.len() > 0 {
        let before = names.drop_last();
        assert forall|i: int| 0 <= i < before.len() implies is_listable(#[trigger] before[i]) by {
            assert(before[i] == names[i]);
        }
        lemma_names_kept(before);
        assert(is_listable(names[names.len() - 1]));
        lemma_trimmed_stays(names.last());
        assert(distro_name(names.last()) == Some(names.last()));
        assert(before.push(names.last()) =~= names);
    } else {
        assert(distro_names(names) =~= names);
    }
}

/// Names survive the list, blanks inside them and all: what `wsl.exe` prints in
/// UTF-16 is read back name by name.
pub proof fn law_names_survive_the_list(names: Seq<Seq<char>>)
    requires
        forall|i: int| 0 <= i < names.len() ==> is_listable(#[trigger] names[i]),
    ensures
        distro_names(
            lines_of(
                without_nul(
                    utf16le_text(seq![0xffu8, 0xfeu8] + bytes_of(units_of(printed(names)))),
                ),
            ),
        ) == names,
{
    law_marked_text_survives(printed(names));
    lemma_printed_lines(names);
    lemma_without_nul(printed(names));
    lemma_names_kept(names);
}

// ---------------------------------------------------------------------------
// From the Windows host
// ---------------------------------------------------------------------------

/// The two sides do not drift: where the script found in a guest what the guest
/// knows of itself, both come to the same facts, but for the side that they were
/// gathered from.
pub proof fn law_both_sides_agree(
    e: ExaminationView,
    guest: GuestFacts,
    fields: Map<Seq<char>, Seq<char>>,
)
    requires
        guest.summary matches Some(summary) && {
            &&& summary.dxg_device == remote_flag(fields, "dxg"@)
            &&& summary.dxcore == remote_flag(fields, "dxcore"@)
            &&& summary.librocdxg == remote_flag(fields, "librocdxg"@)
            &&& summary.rocdxg_dids == remote_flag(fields, "dids"@)
        },
        guest.wsl_lib_dir == remote_flag(fields, "wsllib"@),
        guest.ldconfig == remote_tristate(fields, "ldconfig"@),
        guest.rocminfo == remote_flag(fields, "rocminfo"@),
        guest.sees_gpu == if guest.rocminfo {
            Some(remote_flag(fields, "rocmgfx"@))
        } else {
            None
        },
        e.distro_id == remote_text(fields, "id"@),
        e.distro_version == remote_text(fields, "version"@),
    ensures
        remote_facts(fields, guest.driver, guest.is_wsl1) == (WslFactsView {
            locally_probed: false,
            ..guest_facts(e, guest)
        }),
{
}

/// A distribution that was inspected from the Windows host is reported as a WSL
/// guest that was not probed from inside, with every bare-metal field at its
/// default and no word on a framework or an environment.
pub proof fn law_inspected_guest_is_a_guest(h: Host, distro: Option<Seq<char>>)
    ensures
        host_side_probed(h, distro) matches Ok(Ok(e)) ==> {
            &&& e.status == "wsl"@
            &&& e.os_family == "linux"@
            &&& e.is_wsl
            &&& e.wsl is Some
            &&& !e.wsl->0.locally_probed
            &&& e.wsl->0.rocm_sees_gpu is Some <==> e.wsl->0.rocminfo
            &&& e.rocminfo_present == e.wsl->0.rocminfo
            &&& e.rocminfo_status == wsl_rocminfo_status(
                e.wsl->0.rocminfo,
                e.wsl->0.rocm_sees_gpu,
            )
            &&& same_driver(e, unexamined())
            &&& same_gpus(e, unexamined())
            &&& e.env == unexamined().env
            &&& e.framework == unexamined().framework
        },
{
}

} // verus!
