//! What holds of the environment, shared memory, containers and the kernel log,
//! as the host tells of them.

use vstd::prelude::*;
use vstd::string::*;

use crate::examination::ExaminationView;
use crate::host::{DirEntryView, FilesystemStats, Host, QuestionView, ReplyView};
use crate::laws::surroundings::law_environment_is_what_is_set;
use crate::laws::text::{
    are_lines, holds, law_clip, law_pieces_are_read_back, law_prefix, law_printed_lines, law_search,
    strung, text_of,
};
use crate::laws::told::{lemma_prints, prints, tells};
use crate::split::pieces_of;
use crate::surroundings::{
    captured, cgroup_recorded, container_probed, driver_troubles, env_probed, hip_lib_among,
    hip_lib_in, hip_libs_probed, log_probed, log_recorded, shared_memory_probed, tracked_env_vars,
    variables_probed,
};
use crate::text::{clipped, trimmed};
use crate::unicode::lower_text;

verus! {

broadcast use law_search;

// ---------------------------------------------------------------------------
// Variables
// ---------------------------------------------------------------------------

/// The variables that steer ROCm.
pub open spec fn steering_variables() -> Seq<Seq<char>> {
    seq![
        "AMDGPU_TARGETS"@,
        "CUDA_VISIBLE_DEVICES"@,
        "GPU_DEVICE_ORDINAL"@,
        "HCC_AMDGPU_TARGET"@,
        "HIP_PATH"@,
        "HIP_PLATFORM"@,
        "HIP_VISIBLE_DEVICES"@,
        "HSA_ENABLE_DXG_DETECTION"@,
        "HSA_OVERRIDE_GFX_VERSION"@,
        "LD_LIBRARY_PATH"@,
        "PATH"@,
        "PYTORCH_ROCM_ARCH"@,
        "ROCM_HOME"@,
        "ROCM_PATH"@,
        "ROCR_VISIBLE_DEVICES"@,
    ]
}

proof fn lemma_steering(key: Seq<char>)
    ensures
        tracked_env_vars().contains(key) <==> steering_variables().contains(key),
{
    let t = tracked_env_vars();
    let s = steering_variables();
    assert(t[0] == s[8] && t[1] == s[7] && t[2] == s[6] && t[3] == s[14] && t[4] == s[1]);
    assert(t[5] == s[2] && t[6] == s[13] && t[7] == s[12] && t[8] == s[4] && t[9] == s[5]);
    assert(t[10] == s[11] && t[11] == s[3] && t[12] == s[0] && t[13] == s[9] && t[14] == s[10]);
    if t.contains(key) {
        let i = choose|i: int| 0 <= i < t.len() && t[i] == key;
        assert(exists|k: int| 0 <= k < s.len() && s[k] == t[i]);
    }
    if s.contains(key) {
        let i = choose|i: int| 0 <= i < s.len() && s[i] == key;
        assert(exists|k: int| 0 <= k < t.len() && t[k] == s[i]);
    }
}

proof fn lemma_env_kept(h: Host, e: ExaminationView)
    ensures
        hip_libs_probed(h, e) matches Ok(after) ==> after.env == e.env,
{
}

/// The environment of a fresh examination holds a variable exactly where it is
/// one of those that steer ROCm and is set. Its value is kept whole, unless it
/// is one of the two search paths and longer than sixteen thousand characters:
/// then as many are kept, and a mark says that it was cut.
pub proof fn law_steering_variables_are_captured(
    h: Host,
    e: ExaminationView,
    key: Seq<char>,
    value: Option<Seq<char>>,
)
    requires
        e.env == Map::<Seq<char>, Seq<char>>::empty(),
        tells(h, QuestionView::EnvVar(key), ReplyView::OptionalText(value)),
    ensures
        env_probed(h, e) matches Ok(after) ==> {
            &&& after.env.contains_key(key) <==> steering_variables().contains(key) && value is Some
            &&& after.env.contains_key(key) && (value->0.len() <= 16_000 || key != "PATH"@ && key
                != "LD_LIBRARY_PATH"@) ==> after.env[key] == value->0
            &&& after.env.contains_key(key) && value->0.len() > 16_000 && (key == "PATH"@ || key
                == "LD_LIBRARY_PATH"@) ==> after.env[key] == value->0.take(16_000)
                + "...[truncated]"@
        },
{
    lemma_steering(key);
    law_environment_is_what_is_set(h, e, key);
    match variables_probed(h, e, tracked_env_vars()) {
        Ok(e1) => {
            lemma_env_kept(h, e1);
        },
        Err(_) => {},
    }
}

// ---------------------------------------------------------------------------
// HIP libraries on the loader path
// ---------------------------------------------------------------------------

/// Whether an entry of a directory is the HIP runtime, of whatever version.
pub open spec fn is_hip_runtime(entry: DirEntryView) -> bool {
    "libamdhip64"@.is_prefix_of(entry.name)
}

/// Whether no entry is.
pub open spec fn no_hip_runtime(entries: Seq<DirEntryView>) -> bool {
    forall|i: int| 0 <= i < entries.len() ==> !is_hip_runtime(#[trigger] entries[i])
}

proof fn lemma_among(before: Seq<DirEntryView>, entry: DirEntryView, after: Seq<DirEntryView>)
    requires
        no_hip_runtime(before),
        is_hip_runtime(entry),
    ensures
        hip_lib_among(before + seq![entry] + after) == Some(entry.path),
        hip_lib_among(before) is None,
    decreases before.len(),
{
    let all = before + seq![entry] + after;
    law_prefix(entry.name, "libamdhip64"@);
    if before.len() == 0 {
        assert(all[0] == entry);
    } else {
        assert(!is_hip_runtime(before[0]));
        law_prefix(before[0].name, "libamdhip64"@);
        let rest = before.skip(1);
        assert forall|i: int| 0 <= i < rest.len() implies !is_hip_runtime(#[trigger] rest[i]) by {
            assert(rest[i] == before[i + 1]);
        }
        assert(all[0] == before[0]);
        assert(all.skip(1) =~= rest + seq![entry] + after);
        lemma_among(rest, entry, after);
    }
}

proof fn lemma_none_among(entries: Seq<DirEntryView>)
    requires
        no_hip_runtime(entries),
    ensures
        hip_lib_among(entries) is None,
    decreases entries.len(),
{
    if entries.len() > 0 {
        assert(!is_hip_runtime(entries[0]));
        law_prefix(entries[0].name, "libamdhip64"@);
        let rest = entries.skip(1);
        assert forall|i: int| 0 <= i < rest.len() implies !is_hip_runtime(#[trigger] rest[i]) by {
            assert(rest[i] == entries[i + 1]);
        }
        lemma_none_among(rest);
    }
}

/// Whether an entry of the loader path holds no HIP runtime: it is empty, cannot
/// be read, or lists none.
pub open spec fn lacks_hip(h: Host, dir: Seq<char>) -> bool {
    ||| dir.len() == 0
    ||| tells(h, QuestionView::ListDir(dir), ReplyView::Listing(None))
    ||| exists|entries: Seq<DirEntryView>|
        no_hip_runtime(entries) && #[trigger] tells(
            h,
            QuestionView::ListDir(dir),
            ReplyView::Listing(Some(entries)),
        )
}

proof fn lemma_skip_dirs(h: Host, before: Seq<Seq<char>>, rest: Seq<Seq<char>>)
    requires
        forall|i: int| 0 <= i < before.len() ==> lacks_hip(h, #[trigger] before[i]),
    ensures
        hip_lib_in(h, before + rest) == hip_lib_in(h, rest),
    decreases before.len(),
{
    if before.len() == 0 {
        assert(before + rest =~= rest);
    } else {
        let all = before + rest;
        assert(lacks_hip(h, before[0]));
        assert(all[0] == before[0]);
        let some = before.skip(1);
        assert(all.skip(1) =~= some + rest);
        assert forall|i: int| 0 <= i < some.len() implies lacks_hip(h, #[trigger] some[i]) by {
            assert(some[i] == before[i + 1]);
        }
        lemma_skip_dirs(h, some, rest);
        if before[0].len() > 0 && !tells(
            h,
            QuestionView::ListDir(before[0]),
            ReplyView::Listing(None),
        ) {
            let entries = choose|entries: Seq<DirEntryView>|
                no_hip_runtime(entries) && #[trigger] tells(
                    h,
                    QuestionView::ListDir(before[0]),
                    ReplyView::Listing(Some(entries)),
                );
            lemma_none_among(entries);
        }
    }
}

/// The first HIP runtime on the loader path is found: in the first directory
/// that lists one, the first that it lists. It is told in a note.
pub proof fn law_first_hip_runtime_is_found(
    h: Host,
    e: ExaminationView,
    before: Seq<Seq<char>>,
    dir: Seq<char>,
    after: Seq<Seq<char>>,
    passed: Seq<DirEntryView>,
    entry: DirEntryView,
    others: Seq<DirEntryView>,
)
    requires
        ({
            let dirs = before + seq![dir] + after;
            &&& forall|i: int| 0 <= i < dirs.len() ==> !(#[trigger] dirs[i]).contains(':')
            &&& tells(
                h,
                QuestionView::EnvVar("LD_LIBRARY_PATH"@),
                ReplyView::OptionalText(Some(strung(dirs, seq![':']))),
            )
        }),
        forall|i: int| 0 <= i < before.len() ==> lacks_hip(h, #[trigger] before[i]),
        dir.len() > 0,
        tells(
            h,
            QuestionView::ListDir(dir),
            ReplyView::Listing(Some(passed + seq![entry] + others)),
        ),
        no_hip_runtime(passed),
        is_hip_runtime(entry),
    ensures
        hip_libs_probed(h, e) == Ok::<ExaminationView, QuestionView>(
            ExaminationView {
                hip_libs_on_ld_path: Some(true),
                notes: e.notes.push("libamdhip64 visible via LD_LIBRARY_PATH: "@ + entry.path),
                ..e
            },
        ),
{
    let dirs = before + seq![dir] + after;
    law_pieces_are_read_back(dirs, ':');
    let rest = seq![dir] + after;
    assert(dirs =~= before + rest);
    lemma_skip_dirs(h, before, rest);
    assert(rest[0] == dir);
    lemma_among(passed, entry, others);
}

/// Where no directory of the loader path lists one, there is none; an empty
/// loader path, or none, leaves the question open.
pub proof fn law_no_hip_runtime_is_found(
    h: Host,
    e: ExaminationView,
    dirs: Seq<Seq<char>>,
    value: Option<Seq<char>>,
)
    requires
        dirs.len() > 0,
        forall|i: int| 0 <= i < dirs.len() ==> !(#[trigger] dirs[i]).contains(':'),
        forall|i: int| 0 <= i < dirs.len() ==> lacks_hip(h, #[trigger] dirs[i]),
        value is None || value == Some(strung(dirs, seq![':'])),
        tells(h, QuestionView::EnvVar("LD_LIBRARY_PATH"@), ReplyView::OptionalText(value)),
    ensures
        hip_libs_probed(h, e) == Ok::<ExaminationView, QuestionView>(
            ExaminationView {
                hip_libs_on_ld_path: if value is None || value->0.len() == 0 {
                    None
                } else {
                    Some(false)
                },
                ..e
            },
        ),
{
    let none = Seq::<Seq<char>>::empty();
    if value is Some {
        law_pieces_are_read_back(dirs, ':');
        lemma_skip_dirs(h, dirs, none);
        assert(dirs + none =~= dirs);
    } else {
        let nothing = Seq::<char>::empty();
        let one = seq![nothing];
        law_pieces_are_read_back(one, ':');
        assert(strung(one, seq![':']) == nothing);
        assert(pieces_of(nothing, ':') == one);
        assert(one.skip(1) =~= none);
        assert(hip_lib_in(h, none) == Ok::<Option<Seq<char>>, QuestionView>(None));
        assert(hip_lib_in(h, one) == hip_lib_in(h, one.skip(1)));
    }
}

/// The environment is captured and the loader path is searched, both.
pub proof fn law_loader_path_is_searched(h: Host, e: ExaminationView)
    ensures
        env_probed(h, e) matches Ok(after) ==> {
            &&& variables_probed(h, e, tracked_env_vars()) matches Ok(captured)
            &&& hip_libs_probed(h, captured) == Ok::<ExaminationView, QuestionView>(after)
        },
{
}

// ---------------------------------------------------------------------------
// Shared memory
// ---------------------------------------------------------------------------

/// The shared memory is measured in bytes, and what cannot be measured is
/// recorded as a failure.
pub proof fn law_shared_memory_is_told(
    h: Host,
    e: ExaminationView,
    path: Seq<char>,
    stats: Option<FilesystemStats>,
)
    requires
        tells(h, QuestionView::Filesystem(path), ReplyView::Filesystem(stats)),
    ensures
        ({
            let after = shared_memory_probed(h, e, path);
            let fits = stats is Some && stats->0.fragment_size * stats->0.blocks
                <= 0xffff_ffff_ffff_ffff && stats->0.fragment_size * stats->0.available
                <= 0xffff_ffff_ffff_ffff;
            &&& fits ==> after == Ok::<ExaminationView, QuestionView>(
                ExaminationView {
                    shm_total_bytes: Some(
                        (stats->0.fragment_size * stats->0.blocks) as u64,
                    ),
                    shm_available_bytes: Some(
                        (stats->0.fragment_size * stats->0.available) as u64,
                    ),
                    ..e
                },
            )
            &&& !fits ==> after == Ok::<ExaminationView, QuestionView>(
                ExaminationView {
                    probe_failures: e.probe_failures.push(
                        "could not query "@ + path + "; shared-memory allowance unknown"@,
                    ),
                    ..e
                },
            )
        }),
{
}

// ---------------------------------------------------------------------------
// Containers
// ---------------------------------------------------------------------------

/// Whether control groups are those of a container.
pub open spec fn speaks_of_container(cgroup: Seq<char>) -> bool {
    holds(cgroup, "docker"@) || holds(cgroup, "containerd"@) || holds(cgroup, "lxc"@) || holds(
        cgroup,
        "kubepods"@,
    ) || holds(cgroup, "podman"@)
}

/// A container is told by the mark of Docker, or else by that of Podman, or else
/// by the control groups of the first process.
pub proof fn law_containers_are_told(
    h: Host,
    e: ExaminationView,
    docker: bool,
    podman: bool,
    cgroup: Seq<char>,
)
    requires
        tells(h, QuestionView::Exists("/.dockerenv"@), ReplyView::Flag(docker)),
        tells(h, QuestionView::Exists("/run/.containerenv"@), ReplyView::Flag(podman)),
        tells(h, QuestionView::ReadText("/proc/1/cgroup"@), ReplyView::Text(cgroup)),
        e.container_kind.len() == 0,
    ensures
        ({
            let after = container_probed(h, e);
            let inside = |kind: Seq<char>| Ok::<ExaminationView, QuestionView>(
                ExaminationView { in_container: true, container_kind: kind, ..e },
            );
            &&& docker ==> after == inside("docker"@)
            &&& !docker && podman ==> after == inside("podman"@)
            &&& !docker && !podman && speaks_of_container(cgroup) ==> after == inside("container"@)
            &&& !docker && !podman && !speaks_of_container(cgroup) ==> after == Ok::<
                ExaminationView,
                QuestionView,
            >(e)
        }),
{
    reveal_strlit("docker");
    reveal_strlit("containerd");
    reveal_strlit("lxc");
    reveal_strlit("kubepods");
    reveal_strlit("podman");
}

/// Control groups do not change the kind of a container that is known already.
pub proof fn law_known_kind_stays(e: ExaminationView, cgroup: Seq<char>)
    requires
        e.container_kind.len() > 0,
    ensures
        speaks_of_container(cgroup) ==> cgroup_recorded(e, cgroup) == (ExaminationView {
            in_container: true,
            ..e
        }),
        !speaks_of_container(cgroup) ==> cgroup_recorded(e, cgroup) == e,
{
    reveal_strlit("docker");
    reveal_strlit("containerd");
    reveal_strlit("lxc");
    reveal_strlit("kubepods");
    reveal_strlit("podman");
}

// ---------------------------------------------------------------------------
// The kernel log
// ---------------------------------------------------------------------------

/// Whether a line comes from the driver.
pub open spec fn is_of_driver(line: Seq<char>) -> bool {
    holds(line, "amdgpu"@) || holds(line, "amdkfd"@)
}

/// Whether a line tells of trouble, in whatever case.
pub open spec fn is_of_trouble(line: Seq<char>) -> bool {
    let said = lower_text(line);
    holds(said, "page fault"@) || holds(said, "ras controller"@) || holds(said, "vm_fault"@)
        || holds(said, "amdgpu_device_init"@) || holds(said, "out_of_registers"@) || holds(
        said,
        "ring"@,
    ) || holds(said, "gpu reset"@) || holds(said, "psp"@) || holds(said, "hw_fault"@)
}

/// A line of the log is kept where it comes from the driver and tells of
/// trouble: without the blanks around it, and at most three hundred characters.
pub proof fn law_troubles_are_kept(lines: Seq<Seq<char>>, line: Seq<char>)
    ensures
        driver_troubles(Seq::empty()) == Seq::<Seq<char>>::empty(),
        is_of_driver(line) && is_of_trouble(line) ==> {
            let kept = driver_troubles(lines.push(line));
            &&& kept.len() == driver_troubles(lines).len() + 1
            &&& kept.drop_last() == driver_troubles(lines)
            &&& kept.last().is_prefix_of(trimmed(line))
            &&& kept.last().len() == if trimmed(line).len() < 300 {
                trimmed(line).len() as int
            } else {
                300
            }
        },
        !is_of_driver(line) || !is_of_trouble(line) ==> driver_troubles(lines.push(line))
            == driver_troubles(lines),
{
    assert(lines.push(line).drop_last() =~= lines);
    law_clip(trimmed(line), 300);
    let kept = driver_troubles(lines.push(line));
    if is_of_driver(line) && is_of_trouble(line) {
        assert(kept == driver_troubles(lines).push(clipped(trimmed(line), 300)));
        assert(kept.drop_last() =~= driver_troubles(lines));
    }
}

/// The last fifteen of the lines that are kept make the tail, in order, or all
/// where there are fewer; an empty log changes nothing.
pub proof fn law_last_troubles_are_recorded(e: ExaminationView, lines: Seq<Seq<char>>)
    requires
        are_lines(lines),
    ensures
        ({
            let kept = driver_troubles(lines);
            let after = log_recorded(e, text_of(lines));
            let n = if kept.len() < 15 {
                kept.len() as int
            } else {
                15
            };
            &&& lines.len() == 0 ==> after == e
            &&& lines.len() > 0 ==> after == (ExaminationView {
                dmesg_amdgpu_tail: kept.subrange(kept.len() - n, kept.len() as int),
                ..e
            })
        }),
{
    law_printed_lines(lines);
    let kept = driver_troubles(lines);
    if lines.len() == 0 {
        assert(text_of(lines).len() == 0);
    } else {
        assert(text_of(lines).len() > 0);
        if kept.len() <= 15 {
            assert(kept.subrange(0, kept.len() as int) =~= kept);
        } else {
            assert(kept.subrange(kept.len() - 15, kept.len() as int) =~= kept.skip(
                kept.len() - 15,
            ));
        }
    }
}

/// The log is that of the journal, where it succeeds and prints something, or
/// else that of `dmesg`, where it succeeds; else it is empty.
pub proof fn law_log_is_found(
    h: Host,
    e: ExaminationView,
    rc: i32,
    out: Seq<char>,
    err: Seq<char>,
    dmesg_rc: i32,
    dmesg_out: Seq<char>,
    dmesg_err: Seq<char>,
)
    requires
        prints(
            h,
            "journalctl"@,
            seq!["-k"@, "--no-pager"@, "-n"@, "400"@],
            8,
            rc,
            out,
            err,
        ),
        prints(h, "dmesg"@, Seq::empty(), 5, dmesg_rc, dmesg_out, dmesg_err),
    ensures
        log_probed(h, e) == Ok::<ExaminationView, QuestionView>(
            if rc == 0 && out.len() > 0 {
                log_recorded(e, out)
            } else if dmesg_rc == 0 {
                log_recorded(e, dmesg_out)
            } else {
                e
            },
        ),
{
    lemma_prints(
        h,
        "journalctl"@,
        seq!["-k"@, "--no-pager"@, "-n"@, "400"@],
        8,
        rc,
        out,
        err,
    );
    lemma_prints(h, "dmesg"@, Seq::empty(), 5, dmesg_rc, dmesg_out, dmesg_err);
}

} // verus!
