//! What holds of the SDK, the driver and the libraries of a Windows host.

use vstd::prelude::*;
use vstd::string::*;

use crate::examination::{ExaminationView, GpuView};
use crate::gfx::family_verdict;
use crate::host::{Host, QuestionView, ReplyView, RocmInstallView};
use crate::laws::platform::lemma_headline;
use crate::laws::text::{
    all_space, are_lines, ends_line, is_bare, is_line, law_blank_text, law_pieces_are_read_back,
    law_prefix, law_printed_lines, strung, text_of,
};
use crate::laws::told::{
    all_answered, any_there, law_directories_are_searched, lemma_prints, prints, tells,
};
use crate::number::decimal_of;
use crate::text::trimmed;
use crate::windows::{
    adrenalin_probed, hip_sdk_probed, hipinfo_lines_probed, msvc_probed, sdk_root, target_recorded,
    untargeted_from, WIN_DRIVER_SCRIPT,
};

verus! {

// ---------------------------------------------------------------------------
// The SDK
// ---------------------------------------------------------------------------

/// `HIP_PATH` names the SDK where it is a directory, whatever else is installed.
pub proof fn law_hip_path_names_the_sdk(h: Host, root: Seq<char>)
    requires
        root.len() > 0,
        tells(h, QuestionView::EnvVar("HIP_PATH"@), ReplyView::OptionalText(Some(root))),
        tells(h, QuestionView::IsDir(root), ReplyView::Flag(true)),
    ensures
        sdk_root(h) == Ok::<Seq<char>, QuestionView>(root),
{
}

/// Where `HIP_PATH` is not set, is empty or names no directory, the active
/// install is the SDK, where that is a directory; else there is none.
pub proof fn law_active_install_is_the_sdk(
    h: Host,
    named: Option<Seq<char>>,
    install: Option<RocmInstallView>,
    there: bool,
)
    requires
        tells(h, QuestionView::EnvVar("HIP_PATH"@), ReplyView::OptionalText(named)),
        named matches Some(root) ==> root.len() == 0 || tells(
            h,
            QuestionView::IsDir(root),
            ReplyView::Flag(false),
        ),
        tells(h, QuestionView::ActiveRocmInstall, ReplyView::Install(install)),
        install matches Some(found) ==> found.path.len() == 0 || tells(
            h,
            QuestionView::IsDir(found.path),
            ReplyView::Flag(there),
        ),
    ensures
        install is Some && there ==> sdk_root(h) == Ok::<Seq<char>, QuestionView>(install->0.path),
        install is None || !there ==> sdk_root(h) == Ok::<Seq<char>, QuestionView>(Seq::empty()),
{
    if install is Some && install->0.path.len() == 0 {
        assert(install->0.path =~= Seq::empty());
    }
}

/// Without an SDK nothing changes.
pub proof fn law_no_sdk(h: Host, e: ExaminationView)
    requires
        sdk_root(h) == Ok::<Seq<char>, QuestionView>(Seq::empty()),
    ensures
        hip_sdk_probed(h, e) == Ok::<ExaminationView, QuestionView>(e),
{
}

/// The version of the SDK is what it states of itself, or else the name of its
/// directory, or else nothing.
pub open spec fn sdk_version_told(h: Host, root: Seq<char>, version: Seq<char>) -> bool {
    let stated = QuestionView::RocmInstallVersion(root);
    let name = QuestionView::FileName(root);
    ||| tells(h, stated, ReplyView::OptionalText(Some(version)))
    ||| tells(h, stated, ReplyView::OptionalText(None)) && tells(
        h,
        name,
        ReplyView::OptionalText(Some(version)),
    )
    ||| tells(h, stated, ReplyView::OptionalText(None)) && tells(
        h,
        name,
        ReplyView::OptionalText(None),
    ) && version == Seq::<char>::empty()
}

/// The SDK is recorded with its directory and its version. Its `hipInfo` is run
/// where it has one: its code is recorded where it fails, and the targets that
/// it prints where it does not.
pub proof fn law_sdk_is_recorded(
    h: Host,
    e: ExaminationView,
    root: Seq<char>,
    version: Seq<char>,
    program: Option<Seq<char>>,
    rc: i32,
    lines: Seq<Seq<char>>,
    err: Seq<char>,
)
    requires
        root.len() > 0,
        sdk_root(h) == Ok::<Seq<char>, QuestionView>(root),
        sdk_version_told(h, root, version),
        tells(
            h,
            QuestionView::ProgramUnder { root, dir: "bin"@, name: "hipInfo.exe"@ },
            ReplyView::OptionalText(program),
        ),
        are_lines(lines),
        program matches Some(found) ==> prints(
            h,
            found,
            Seq::empty(),
            15,
            rc,
            text_of(lines),
            err,
        ),
    ensures
        ({
            let found = ExaminationView { hip_sdk_path: root, hip_sdk_version: version, ..e };
            &&& program is None ==> hip_sdk_probed(h, e) == Ok::<ExaminationView, QuestionView>(
                ExaminationView { hipinfo_present: false, hipinfo_status: "missing"@, ..found },
            )
            &&& program is Some && rc != 0 ==> hip_sdk_probed(h, e) == Ok::<
                ExaminationView,
                QuestionView,
            >(
                ExaminationView {
                    hipinfo_present: true,
                    hipinfo_status: "error rc="@ + decimal_of(rc as int),
                    ..found
                },
            )
            &&& program is Some && rc == 0 ==> hip_sdk_probed(h, e) == hipinfo_lines_probed(
                h,
                ExaminationView { hipinfo_present: true, hipinfo_status: "ok"@, ..found },
                lines,
            )
        }),
{
    law_printed_lines(lines);
    match program {
        Some(found) => {
            lemma_prints(h, found, Seq::empty(), 15, rc, text_of(lines), err);
        },
        None => {},
    }
}

/// A line of `hipInfo` with the label of a target gives what the host finds in
/// the text behind the label to the next AMD GPU without a target; any other
/// line gives nothing.
pub proof fn law_hipinfo_lines_are_read(
    h: Host,
    e: ExaminationView,
    line: Seq<char>,
    said: Seq<char>,
    gfx: Option<Seq<char>>,
    rest: Seq<Seq<char>>,
)
    ensures
        hipinfo_lines_probed(h, e, Seq::empty()) == Ok::<ExaminationView, QuestionView>(e),
        trimmed(line) == "gcnArchName:"@ + said && tells(
            h,
            QuestionView::FirstGfxToken(said),
            ReplyView::OptionalText(gfx),
        ) ==> hipinfo_lines_probed(h, e, seq![line] + rest) == hipinfo_lines_probed(
            h,
            if gfx is Some {
                target_recorded(e, gfx->0)
            } else {
                e
            },
            rest,
        ),
        !"gcnArchName:"@.is_prefix_of(trimmed(line)) ==> hipinfo_lines_probed(
            h,
            e,
            seq![line] + rest,
        ) == hipinfo_lines_probed(h, e, rest),
{
    let all = seq![line] + rest;
    assert(all.skip(1) =~= rest);
    assert(all[0] == line);
    law_prefix(trimmed(line), "gcnArchName:"@);
    crate::laws::text::law_after_prefix("gcnArchName:"@, said);
}

proof fn lemma_untargeted_at(gpus: Seq<GpuView>, from: int, k: int)
    requires
        0 <= from <= k < gpus.len(),
        gpus[k].is_amd,
        gpus[k].gfx_target.len() == 0,
        forall|i: int|
            from <= i < k ==> !(#[trigger] gpus[i]).is_amd || gpus[i].gfx_target.len() > 0,
    ensures
        untargeted_from(gpus, from) == Some(k),
    decreases k - from,
{
    if from < k {
        lemma_untargeted_at(gpus, from + 1, k);
    }
}

/// A target goes to the first AMD GPU that has none, and what the family tells
/// of being integrated with it; every other GPU stays as it was.
pub proof fn law_target_goes_to_the_first(e: ExaminationView, k: int, gfx: Seq<char>)
    requires
        0 <= k < e.gpus.len(),
        e.gpus[k].is_amd,
        e.gpus[k].gfx_target.len() == 0,
        forall|i: int|
            0 <= i < k ==> !(#[trigger] e.gpus[i]).is_amd || e.gpus[i].gfx_target.len() > 0,
    ensures
        ({
            let after = target_recorded(e, gfx);
            &&& after.gpus.len() == e.gpus.len()
            &&& after.gpus[k].gfx_target == gfx
            &&& after.gpus[k].name == e.gpus[k].name
            &&& after.gpus[k].pci_id == e.gpus[k].pci_id
            &&& after.gpus[k].is_amd
            &&& after.gpus[k].is_apu == if family_verdict(gfx) is Some {
                family_verdict(gfx)
            } else {
                e.gpus[k].is_apu
            }
            &&& forall|i: int|
                0 <= i < e.gpus.len() && i != k ==> #[trigger] after.gpus[i] == e.gpus[i]
        }),
{
    lemma_untargeted_at(e.gpus, 0, k);
}

// ---------------------------------------------------------------------------
// Driver and libraries
// ---------------------------------------------------------------------------

/// The version of the driver is the first line that PowerShell prints; where it
/// fails or prints nothing but blanks, it stays as it was.
pub proof fn law_driver_version_is_told(
    h: Host,
    e: ExaminationView,
    rc: i32,
    lead: Seq<char>,
    line: Seq<char>,
    tail: Seq<char>,
    err: Seq<char>,
)
    requires
        all_space(lead),
        line.len() > 0,
        is_bare(line),
        is_line(line),
        ends_line(tail),
    ensures
        ({
            let args = seq!["-NoProfile"@, "-Command"@, WIN_DRIVER_SCRIPT@];
            &&& prints(h, "powershell"@, args, 8, rc, lead + line + tail, err) ==> adrenalin_probed(
                h,
                e,
            ) == Ok::<ExaminationView, QuestionView>(
                if rc == 0 {
                    ExaminationView { adrenalin_version: line, ..e }
                } else {
                    e
                },
            )
            &&& prints(h, "powershell"@, args, 8, rc, lead, err) ==> adrenalin_probed(h, e) == Ok::<
                ExaminationView,
                QuestionView,
            >(e)
        }),
{
    let args = seq!["-NoProfile"@, "-Command"@, WIN_DRIVER_SCRIPT@];
    lemma_headline(lead, line, tail);
    law_blank_text(lead);
    if prints(h, "powershell"@, args, 8, rc, lead + line + tail, err) {
        lemma_prints(h, "powershell"@, args, 8, rc, lead + line + tail, err);
    }
    if prints(h, "powershell"@, args, 8, rc, lead, err) {
        lemma_prints(h, "powershell"@, args, 8, rc, lead, err);
    }
}

/// The C runtime is there where one of its two libraries is, in a directory of
/// `PATH` or in one of the two of the system.
pub proof fn law_runtime_libraries_are_searched_for(
    h: Host,
    e: ExaminationView,
    path: Option<Seq<Seq<char>>>,
)
    requires
        path matches Some(dirs) ==> dirs.len() > 0 && forall|i: int|
            0 <= i < dirs.len() ==> !(#[trigger] dirs[i]).contains(';'),
        tells(
            h,
            QuestionView::EnvVar("PATH"@),
            ReplyView::OptionalText(
                match path {
                    Some(dirs) => Some(strung(dirs, seq![';'])),
                    None => None,
                },
            ),
        ),
        all_answered(
            h,
            (match path {
                Some(dirs) => dirs,
                None => Seq::empty(),
            }) + seq![r"C:\Windows\System32"@, r"C:\Windows\SysWOW64"@],
            seq!["vcruntime140.dll"@, "vcruntime140_1.dll"@],
        ),
    ensures
        msvc_probed(h, e) == Ok::<ExaminationView, QuestionView>(
            ExaminationView {
                msvc_redist_present: Some(
                    any_there(
                        h,
                        (match path {
                            Some(dirs) => dirs,
                            None => Seq::empty(),
                        }) + seq![r"C:\Windows\System32"@, r"C:\Windows\SysWOW64"@],
                        seq!["vcruntime140.dll"@, "vcruntime140_1.dll"@],
                    ),
                ),
                ..e
            },
        ),
{
    let dirs = match path {
        Some(dirs) => dirs,
        None => Seq::empty(),
    };
    let all = dirs + seq![r"C:\Windows\System32"@, r"C:\Windows\SysWOW64"@];
    let names = seq!["vcruntime140.dll"@, "vcruntime140_1.dll"@];
    match path {
        Some(dirs) => {
            law_pieces_are_read_back(dirs, ';');
        },
        None => {},
    }
    assert(dirs.push(r"C:\Windows\System32"@).push(r"C:\Windows\SysWOW64"@) =~= all);
    law_directories_are_searched(h, all, names);
}

} // verus!
