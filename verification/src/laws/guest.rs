//! What holds of a WSL guest, told from inside it or by the script that the
//! Windows host runs in it.

use vstd::prelude::*;
use vstd::string::*;
use vstd::utf8::*;

use crate::ask::on_path;
use crate::examination::{ExaminationView, WslFactsView};
use crate::host::{
    CommandView, Host, QuestionView, RawOutputView, ReplyView, WslHostDriverProbeView, WslSummary,
};
use crate::laws::text::{
    all_space, are_lines, holds, is_bare, law_after_prefix, law_join, law_printed_lines, law_search,
    law_sides, law_trim, strung, text_of,
};
use crate::laws::told::{law_wide_output_is_read, lemma_prints, prints, running, tells};
use crate::number::u32_of;
use crate::split::lines_of;
use crate::text::{ascii_lower, begins_with, has_text, occurs_at, same_but_case, trimmed};
use crate::unicode::{ascii_upper, lower_text, upper_text};
use crate::utf16::{bytes_of, units_of};
use crate::wsl::{
    distro_name, distro_names, floor_verdict, host_side_probed, remote_examination, remote_fields,
    selected_distro, without_nul, wsl_probed, wsl_synced, WSL_PLATFORM_NOTE, WSL_REMOTE_PROBE,
};

verus! {

broadcast use law_search;

// ---------------------------------------------------------------------------
// Whether ROCm sees a GPU
// ---------------------------------------------------------------------------

/// Whether the letters g, f and x stand in a row, each in either case.
pub open spec fn spells_gfx(s: Seq<char>) -> bool {
    exists|i: int|
        0 <= i && i + 3 <= s.len() && (#[trigger] s[i] == 'g' || s[i] == 'G') && (s[i + 1] == 'f'
            || s[i + 1] == 'F') && (s[i + 2] == 'x' || s[i + 2] == 'X')
}

proof fn lemma_spells_gfx(s: Seq<char>)
    requires
        is_ascii_chars(s),
    ensures
        holds(lower_text(s), "gfx"@) == spells_gfx(s),
{
    reveal_strlit("gfx");
    let t = lower_text(s);
    assert(has_text(t, "gfx"@) == holds(t, "gfx"@));
    assert forall|i: int| 0 <= i < s.len() implies t[i] == ascii_lower(#[trigger] s[i]) by {}
    if has_text(t, "gfx"@) {
        let i = choose|i: int| occurs_at(t, "gfx"@, i);
        assert(t.subrange(i, i + 3)[0] == t[i]);
        assert(t.subrange(i, i + 3)[1] == t[i + 1]);
        assert(t.subrange(i, i + 3)[2] == t[i + 2]);
        assert(t[i] == ascii_lower(s[i]));
        assert(t[i + 1] == ascii_lower(s[i + 1]));
        assert(t[i + 2] == ascii_lower(s[i + 2]));
        assert(s[i] == 'g' || s[i] == 'G');
    }
    if spells_gfx(s) {
        let i = choose|i: int|
            0 <= i && i + 3 <= s.len() && (#[trigger] s[i] == 'g' || s[i] == 'G') && (s[i + 1]
                == 'f' || s[i + 1] == 'F') && (s[i + 2] == 'x' || s[i + 2] == 'X');
        assert(t[i] == ascii_lower(s[i]));
        assert(t[i + 1] == ascii_lower(s[i + 1]));
        assert(t[i + 2] == ascii_lower(s[i + 2]));
        assert(t.subrange(i, i + 3) =~= "gfx"@);
        assert(occurs_at(t, "gfx"@, i));
    }
}

/// In a guest ROCm sees a GPU exactly where `rocminfo` succeeds and what it
/// prints holds `gfx`, in whatever case; a `rocminfo` that runs without that has
/// no agents.
pub proof fn law_rocm_sees_what_rocminfo_lists(
    h: Host,
    e: ExaminationView,
    rc: i32,
    out: Seq<char>,
    err: Seq<char>,
)
    requires
        on_path(h, "rocminfo"@) == Ok::<bool, QuestionView>(true),
        prints(h, "rocminfo"@, Seq::empty(), 8, rc, out, err),
    ensures
        wsl_probed(h, e) matches Ok(after) ==> {
            let sees = rc == 0 && holds(lower_text(out), "gfx"@);
            &&& after.wsl is Some
            &&& after.wsl->0.rocminfo
            &&& after.wsl->0.rocm_sees_gpu == Some(sees)
            &&& is_ascii_chars(out) ==> sees == (rc == 0 && spells_gfx(out))
            &&& after.rocminfo_present
            &&& sees ==> after.rocminfo_status == "ok"@
            &&& !sees ==> after.rocminfo_status == "no-agents"@
        },
{
    lemma_prints(h, "rocminfo"@, Seq::empty(), 8, rc, out, err);
    if is_ascii_chars(out) {
        lemma_spells_gfx(out);
    }
    assert(has_text(lower_text(out), "gfx"@) == holds(lower_text(out), "gfx"@));
}

/// In a guest without `rocminfo` nothing is said of what ROCm sees.
pub proof fn law_rocm_may_be_missing(h: Host, e: ExaminationView)
    requires
        on_path(h, "rocminfo"@) == Ok::<bool, QuestionView>(false),
    ensures
        wsl_probed(h, e) matches Ok(after) ==> {
            &&& after.wsl is Some
            &&& !after.wsl->0.rocminfo
            &&& after.wsl->0.rocm_sees_gpu is None
            &&& !after.rocminfo_present
            &&& after.rocminfo_status == "missing"@
        },
{
}

/// The fields that bare metal shares with WSL say of `rocminfo` what the facts
/// say, and nothing else changes; without facts nothing does.
pub proof fn law_shared_fields_follow_the_facts(e: ExaminationView)
    ensures
        e.wsl is None ==> wsl_synced(e) == e,
        e.wsl matches Some(wsl) ==> {
            let after = wsl_synced(e);
            &&& after == (ExaminationView {
                rocminfo_present: wsl.rocminfo,
                rocminfo_status: after.rocminfo_status,
                ..e
            })
            &&& !wsl.rocminfo ==> after.rocminfo_status == "missing"@
            &&& wsl.rocminfo && wsl.rocm_sees_gpu == Some(true) ==> after.rocminfo_status == "ok"@
            &&& wsl.rocminfo && wsl.rocm_sees_gpu == Some(false) ==> after.rocminfo_status
                == "no-agents"@
            &&& wsl.rocminfo && wsl.rocm_sees_gpu is None ==> after.rocminfo_status == "unknown"@
        },
{
}

// ---------------------------------------------------------------------------
// From inside
// ---------------------------------------------------------------------------

/// A guest records what it is told of itself, each fact in its place, and the
/// note on the platform; what it was told of the host driver keeps an
/// unreachable host apart from one without an AMD adapter.
pub proof fn law_guest_is_recorded(
    h: Host,
    e: ExaminationView,
    summary: Option<WslSummary>,
    driver: WslHostDriverProbeView,
    is_wsl1: bool,
    wsl_lib_dir: bool,
    ldconfig: Option<bool>,
)
    requires
        tells(h, QuestionView::WslPlumbing, ReplyView::WslSummary(summary)),
        tells(h, QuestionView::WslHostDriver, ReplyView::HostDriver(driver)),
        tells(h, QuestionView::IsWsl1Kernel(e.kernel_release), ReplyView::Flag(is_wsl1)),
        tells(h, QuestionView::IsDir("/usr/lib/wsl/lib"@), ReplyView::Flag(wsl_lib_dir)),
        tells(h, QuestionView::LdconfigListsRocdxg, ReplyView::OptionalFlag(ldconfig)),
    ensures
        wsl_probed(h, e) matches Ok(after) ==> {
            let wsl = after.wsl->0;
            &&& after.wsl is Some
            &&& wsl.version == if is_wsl1 {
                1
            } else {
                2int
            }
            &&& summary matches Some(found) ==> {
                &&& wsl.dxg_device == found.dxg_device
                &&& wsl.dxcore == found.dxcore
                &&& wsl.librocdxg == found.librocdxg
                &&& wsl.rocdxg_dids == found.rocdxg_dids
            }
            &&& summary is None ==> !wsl.dxg_device && !wsl.dxcore && !wsl.librocdxg
                && !wsl.rocdxg_dids
            &&& wsl.wsl_lib_dir == wsl_lib_dir
            &&& wsl.ldconfig_librocdxg == ldconfig
            &&& wsl.distro_supported == floor_verdict(e.distro_id, e.distro_version)
            &&& driver_told(wsl, driver)
            &&& wsl.locally_probed
            &&& after.notes == e.notes.push(WSL_PLATFORM_NOTE@)
            &&& after == (ExaminationView {
                wsl: after.wsl,
                rocminfo_present: after.rocminfo_present,
                rocminfo_status: after.rocminfo_status,
                notes: after.notes,
                ..e
            })
        },
{
}

/// Whether the facts say of the host driver what the host answered: nothing
/// where it could not be reached, an empty version where it has no AMD adapter.
pub open spec fn driver_told(wsl: WslFactsView, driver: WslHostDriverProbeView) -> bool {
    match driver {
        WslHostDriverProbeView::Unreachable => !wsl.host_reachable
            && wsl.host_driver_version is None,
        WslHostDriverProbeView::NoAmdDisplay => wsl.host_reachable && wsl.host_driver_version
            == Some(Seq::<char>::empty()),
        WslHostDriverProbeView::Version(version) => wsl.host_reachable && wsl.host_driver_version
            == Some(version),
    }
}

/// An Ubuntu of release 24.04 or later is supported, and an older one is not. A
/// release that is no pair of numbers, and any other distribution, is neither.
pub proof fn law_ubuntu_floor(id: Seq<char>, major: Seq<char>, minor: Seq<char>)
    requires
        !major.contains('.'),
    ensures
        same_but_case(id, "ubuntu"@) ==> floor_verdict(id, major + seq!['.'] + minor) == (
        match (u32_of(major), u32_of(minor)) {
            (Some(a), Some(b)) => Some(a > 24 || a == 24 && b >= 4),
            _ => None,
        }),
        floor_verdict(id, major) is None,
        !same_but_case(id, "ubuntu"@) ==> floor_verdict(id, major + seq!['.'] + minor) is None,
{
    law_sides(major, '.', minor);
}

// ---------------------------------------------------------------------------
// The list of distributions
// ---------------------------------------------------------------------------

/// The mark of the default distribution is no part of its name, and neither are
/// the blanks around it.
pub proof fn law_default_mark_is_dropped(
    lead: Seq<char>,
    gap: Seq<char>,
    name: Seq<char>,
    trail: Seq<char>,
)
    requires
        all_space(lead),
        all_space(gap),
        name.len() > 0,
        is_bare(name),
        all_space(trail),
        is_ascii_chars(name),
        is_ascii_chars(gap),
    ensures
        distro_name(lead + "*"@ + gap + name + trail) == Some(name),
{
    reveal_strlit("*");
    reveal_strlit("NAME");
    let line = "*"@ + gap + name;
    assert(lead + "*"@ + gap + name + trail =~= lead + line + trail);
    assert(line[0] == '*');
    assert(line.last() == name.last());
    law_trim(lead, line, trail);
    assert(line =~= "*"@ + (gap + name));
    law_after_prefix("*"@, gap + name);
    let none = Seq::<char>::empty();
    law_trim(gap, name, none);
    assert(gap + name + none =~= gap + name);
    assert(is_ascii_chars(line)) by {
        assert forall|i: int| 0 <= i < line.len() implies (#[trigger] line[i] as nat) < 128 by {
            if i == 0 {
            } else if i < 1 + gap.len() {
                assert(line[i] == gap[i - 1]);
            } else {
                assert(line[i] == name[i - 1 - gap.len()]);
            }
        }
    }
    assert(upper_text(line)[0] == ascii_upper(line[0]));
    if begins_with(upper_text(line), "NAME"@) {
        assert(upper_text(line).subrange(0, 4)[0] == upper_text(line)[0]);
    }
}

/// The header of the list is no distribution, in whatever case it is written,
/// and neither is a blank line.
pub proof fn law_header_is_no_distribution(lead: Seq<char>, rest: Seq<char>, header: Seq<char>)
    requires
        all_space(lead),
        is_ascii_chars(header),
        upper_text(header) == "NAME"@,
        is_bare(header + rest),
        is_ascii_chars(rest),
    ensures
        distro_name(lead + header + rest) is None,
        distro_name(lead) is None,
{
    reveal_strlit("NAME");
    let none = Seq::<char>::empty();
    let line = header + rest;
    assert(lead + header + rest =~= lead + line + none);
    assert(upper_text(header).len() == header.len());
    assert(header.len() == 4);
    law_trim(lead, line, none);
    law_trim(lead, none, none);
    assert(lead + none + none =~= lead);
    assert(is_ascii_chars(line)) by {
        assert forall|i: int| 0 <= i < line.len() implies (#[trigger] line[i] as nat) < 128 by {
            if i < 4 {
                assert(line[i] == header[i]);
            } else {
                assert(line[i] == rest[i - 4]);
            }
        }
    }
    assert forall|i: int| 0 <= i < 4 implies upper_text(line)[i] == #[trigger] upper_text(
        header,
    )[i] by {
        assert(line[i] == header[i]);
    }
    assert(upper_text(line).subrange(0, 4) =~= "NAME"@);
}

/// The one distribution that there is, or the one that was asked for by a name
/// that is listed, is chosen. Anything else is refused, and the refusal says
/// what there is.
pub proof fn law_choice_of_distribution(
    asked: Seq<char>,
    distros: Seq<Seq<char>>,
)
    ensures
        (exists|i: int| 0 <= i < distros.len() && same_but_case(#[trigger] distros[i], asked))
            ==> selected_distro(Some(asked), distros) == Ok::<Seq<char>, Seq<char>>(asked),
        !(exists|i: int| 0 <= i < distros.len() && same_but_case(#[trigger] distros[i], asked))
            ==> selected_distro(Some(asked), distros) == Err::<Seq<char>, Seq<char>>(
            "no WSL distribution named '"@ + asked + "'; found: "@ + strung(distros, ", "@),
        ),
        distros.len() == 0 ==> selected_distro(None, distros) == Err::<Seq<char>, Seq<char>>(
            "no WSL distributions were found"@,
        ),
        distros.len() == 1 ==> selected_distro(None, distros) == Ok::<Seq<char>, Seq<char>>(
            distros[0],
        ),
        distros.len() > 1 ==> selected_distro(None, distros) == Err::<Seq<char>, Seq<char>>(
            "several WSL distributions are installed; name one with --distro: "@ + strung(
                distros,
                ", "@,
            ),
        ),
{
    law_join(distros, ", "@);
}

// ---------------------------------------------------------------------------
// The script
// ---------------------------------------------------------------------------

/// What the script prints is read line by line: a key, an equals sign and a
/// value, without the blanks around either. A later line outdoes an earlier one
/// with the same key, and a line without the sign says nothing.
pub proof fn law_script_lines_are_read(
    lines: Seq<Seq<char>>,
    key: Seq<char>,
    value: Seq<char>,
    other: Seq<char>,
)
    requires
        !key.contains('='),
        !other.contains('='),
    ensures
        remote_fields(Seq::empty()) == Map::<Seq<char>, Seq<char>>::empty(),
        remote_fields(lines.push(key + seq!['='] + value)) == remote_fields(lines).insert(
            trimmed(key),
            trimmed(value),
        ),
        remote_fields(lines.push(other)) == remote_fields(lines),
{
    assert(lines.push(key + seq!['='] + value).drop_last() =~= lines);
    assert(lines.push(other).drop_last() =~= lines);
    law_sides(key, '=', value);
    law_sides(other, '=', value);
}

/// Whether a field is there and says `1`.
pub open spec fn is_one(fields: Map<Seq<char>, Seq<char>>, key: Seq<char>) -> bool {
    fields.contains_key(key) && fields[key] == "1"@
}

/// Whether a field is there and says `0`.
pub open spec fn is_zero(fields: Map<Seq<char>, Seq<char>>, key: Seq<char>) -> bool {
    fields.contains_key(key) && fields[key] == "0"@
}

/// What a field says, or nothing.
pub open spec fn field_or_nothing(
    fields: Map<Seq<char>, Seq<char>>,
    key: Seq<char>,
) -> Seq<char> {
    if fields.contains_key(key) {
        fields[key]
    } else {
        Seq::empty()
    }
}

/// A guest that was examined from the Windows host holds what the script printed
/// of it, each field in its place; only a `1` is a yes, and what the script left
/// out is a no, or is open where both a yes and a no can be told.
pub proof fn law_script_fields_are_recorded(
    fields: Map<Seq<char>, Seq<char>>,
    driver: WslHostDriverProbeView,
    is_wsl1: bool,
)
    ensures
        ({
            let e = remote_examination(fields, driver, is_wsl1);
            let wsl = e.wsl->0;
            &&& e.wsl is Some
            &&& e.os_family == "linux"@
            &&& e.is_wsl
            &&& e.status == "wsl"@
            &&& e.kernel_release == field_or_nothing(fields, "kernel"@)
            &&& e.distro_id == field_or_nothing(fields, "id"@)
            &&& e.distro_version == field_or_nothing(fields, "version"@)
            &&& wsl.version == if is_wsl1 {
                1
            } else {
                2int
            }
            &&& wsl.dxg_device == is_one(fields, "dxg"@)
            &&& wsl.dxcore == is_one(fields, "dxcore"@)
            &&& wsl.wsl_lib_dir == is_one(fields, "wsllib"@)
            &&& wsl.librocdxg == is_one(fields, "librocdxg"@)
            &&& wsl.rocdxg_dids == is_one(fields, "dids"@)
            &&& wsl.ldconfig_librocdxg == Some(true) <==> is_one(fields, "ldconfig"@)
            &&& wsl.ldconfig_librocdxg == Some(false) <==> is_zero(fields, "ldconfig"@)
            &&& wsl.rocminfo == is_one(fields, "rocminfo"@)
            &&& is_one(fields, "rocminfo"@) ==> wsl.rocm_sees_gpu == Some(
                is_one(fields, "rocmgfx"@),
            )
            &&& !is_one(fields, "rocminfo"@) ==> wsl.rocm_sees_gpu is None
            &&& wsl.distro_supported == floor_verdict(e.distro_id, e.distro_version)
            &&& driver_told(wsl, driver)
            &&& !wsl.locally_probed
            &&& e.rocminfo_present == wsl.rocminfo
            &&& e.rocminfo_status == if !is_one(fields, "rocminfo"@) {
                "missing"@
            } else if is_one(fields, "rocmgfx"@) {
                "ok"@
            } else {
                "no-agents"@
            }
        }),
{
    reveal_strlit("0");
    reveal_strlit("1");
    assert("0"@[0] == '0' && "1"@[0] == '1');
}

/// From the Windows host the distributions are listed, one is chosen, and the
/// script is run in it; what it prints, the driver of the host and the kernel
/// of the guest make the examination.
pub proof fn law_distribution_is_inspected(
    h: Host,
    distro: Option<Seq<char>>,
    listed: Seq<char>,
    marked: bool,
    stderr: Seq<u8>,
    selected: Seq<char>,
    lines: Seq<Seq<char>>,
    err: Seq<char>,
    driver: WslHostDriverProbeView,
    is_wsl1: bool,
)
    requires
        on_path(h, "wsl.exe"@) == Ok::<bool, QuestionView>(true),
        marked || listed.len() == 0 || listed[0] != '\u{feff}',
        tells(
            h,
            running("wsl.exe"@, seq!["-l"@, "-q"@], 8),
            ReplyView::Output(
                RawOutputView {
                    rc: 0,
                    stdout: if marked {
                        seq![0xffu8, 0xfeu8] + bytes_of(units_of(listed))
                    } else {
                        bytes_of(units_of(listed))
                    },
                    stderr,
                },
            ),
        ),
        selected_distro(distro, distro_names(lines_of(without_nul(listed)))) == Ok::<
            Seq<char>,
            Seq<char>,
        >(selected),
        are_lines(lines),
        prints(
            h,
            "wsl.exe"@,
            seq!["-d"@, selected, "--exec"@, "/bin/sh"@, "-c"@, WSL_REMOTE_PROBE@],
            30,
            0,
            text_of(lines),
            err,
        ),
        tells(h, QuestionView::LocalHostDriver, ReplyView::HostDriver(driver)),
        tells(
            h,
            QuestionView::IsWsl1Kernel(field_or_nothing(remote_fields(lines), "kernel"@)),
            ReplyView::Flag(is_wsl1),
        ),
    ensures
        host_side_probed(h, distro) == Ok::<Result<ExaminationView, Seq<char>>, QuestionView>(
            Ok(remote_examination(remote_fields(lines), driver, is_wsl1)),
        ),
{
    let listing = CommandView {
        program: "wsl.exe"@,
        args: seq!["-l"@, "-q"@],
        envs: Seq::empty(),
        timeout_secs: 8,
    };
    law_wide_output_is_read(h, listing, 0, listed, marked, stderr);
    lemma_prints(
        h,
        "wsl.exe"@,
        seq!["-d"@, selected, "--exec"@, "/bin/sh"@, "-c"@, WSL_REMOTE_PROBE@],
        30,
        0,
        text_of(lines),
        err,
    );
    law_printed_lines(lines);
}

/// An inspection that cannot be made says why: there is no `wsl.exe`, it does
/// not list the distributions, none can be chosen, or the script does not run in
/// the chosen one.
pub proof fn law_inspection_is_refused(
    h: Host,
    distro: Option<Seq<char>>,
    rc: i32,
    listed: Seq<char>,
    stderr: Seq<u8>,
    selected: Seq<char>,
    script_rc: i32,
    out: Seq<char>,
    err: Seq<char>,
)
    requires
        tells(
            h,
            running("wsl.exe"@, seq!["-l"@, "-q"@], 8),
            ReplyView::Output(
                RawOutputView {
                    rc,
                    stdout: seq![0xffu8, 0xfeu8] + bytes_of(units_of(listed)),
                    stderr,
                },
            ),
        ),
        script_rc != 0,
        prints(
            h,
            "wsl.exe"@,
            seq!["-d"@, selected, "--exec"@, "/bin/sh"@, "-c"@, WSL_REMOTE_PROBE@],
            30,
            script_rc,
            out,
            err,
        ),
    ensures
        ({
            let here = on_path(h, "wsl.exe"@);
            let choice = selected_distro(distro, distro_names(lines_of(without_nul(listed))));
            let result = host_side_probed(h, distro);
            &&& here == Ok::<bool, QuestionView>(false) ==> result == Ok::<
                Result<ExaminationView, Seq<char>>,
                QuestionView,
            >(
                Err(
                    "wsl.exe was not found; inspecting a distribution this way only works from the Windows host"@,
                ),
            )
            &&& here == Ok::<bool, QuestionView>(true) && rc != 0 ==> result == Ok::<
                Result<ExaminationView, Seq<char>>,
                QuestionView,
            >(Err("could not list WSL distributions"@))
            &&& here == Ok::<bool, QuestionView>(true) && rc == 0 ==> (choice matches Err(reason)
                ==> result == Ok::<Result<ExaminationView, Seq<char>>, QuestionView>(Err(reason)))
            &&& here == Ok::<bool, QuestionView>(true) && rc == 0 && choice == Ok::<
                Seq<char>,
                Seq<char>,
            >(selected) ==> result == Ok::<Result<ExaminationView, Seq<char>>, QuestionView>(
                Err(
                    "could not inspect '"@ + selected
                        + "'; the distribution may be stopped or unreachable"@,
                ),
            )
        }),
{
    let listing = CommandView {
        program: "wsl.exe"@,
        args: seq!["-l"@, "-q"@],
        envs: Seq::empty(),
        timeout_secs: 8,
    };
    law_wide_output_is_read(h, listing, rc, listed, true, stderr);
    lemma_prints(
        h,
        "wsl.exe"@,
        seq!["-d"@, selected, "--exec"@, "/bin/sh"@, "-c"@, WSL_REMOTE_PROBE@],
        30,
        script_rc,
        out,
        err,
    );
}

} // verus!
