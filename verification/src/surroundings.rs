//! The surroundings a workload runs in: its environment, shared memory, the
//! container around it and the kernel log.

use vstd::prelude::*;
use vstd::string::*;

use crate::ask::{
    ask_filesystem, ask_flag, ask_listing, ask_optional_text, ask_text, filesystem_answer,
    flag_answer, listing_answer, no_args, optional_text_answer, outcome, output_answer,
    plain_command, run, text_answer, MEDIUM, SHORT,
};
use crate::examination::{with_failure, with_note, Examination, ExaminationView};
use crate::host::{
    entry_views, Answers, DirEntry, DirEntryView, FilesystemStats, Host, Question, QuestionView,
};
use crate::split::{concat, concat3, lines, lines_of, pieces_of, split};
use crate::text::{
    begins_with, clip, clipped, contains, has_text, lemma_texts_push, optional, same_text,
    starts_with, texts, trim, trimmed,
};
use crate::unicode::{lower_case, lower_text};

verus! {

broadcast use lemma_texts_push;

// ---------------------------------------------------------------------------
// Environment variables
// ---------------------------------------------------------------------------

/// Cap on captured `PATH` / `LD_LIBRARY_PATH` length, to keep an examination
/// bounded. Generous on purpose: the cut must sit well past any realistic
/// ROCm/HIP bin entry to avoid false "not on PATH" diagnoses.
pub const ENV_VALUE_MAX_CHARS: usize = 16_000;

/// Environment variables that commonly steer (or break) ROCm/HIP runtime
/// behavior. The second is what legacy ROCm releases need to find the GPU
/// through DXG under WSL.
pub open spec fn tracked_env_vars() -> Seq<Seq<char>> {
    seq![
        "HSA_OVERRIDE_GFX_VERSION"@,
        "HSA_ENABLE_DXG_DETECTION"@,
        "HIP_VISIBLE_DEVICES"@,
        "ROCR_VISIBLE_DEVICES"@,
        "CUDA_VISIBLE_DEVICES"@,
        "GPU_DEVICE_ORDINAL"@,
        "ROCM_PATH"@,
        "ROCM_HOME"@,
        "HIP_PATH"@,
        "HIP_PLATFORM"@,
        "PYTORCH_ROCM_ARCH"@,
        "HCC_AMDGPU_TARGET"@,
        "AMDGPU_TARGETS"@,
        "LD_LIBRARY_PATH"@,
        "PATH"@,
    ]
}

/// Environment variables that commonly steer (or break) ROCm/HIP runtime
/// behavior.
pub fn tracked_env_names() -> (r: Vec<String>)
    ensures
        texts(r@) == tracked_env_vars(),
{
    let mut v: Vec<String> = Vec::new();
    v.push("HSA_OVERRIDE_GFX_VERSION".to_owned());
    v.push("HSA_ENABLE_DXG_DETECTION".to_owned());
    v.push("HIP_VISIBLE_DEVICES".to_owned());
    v.push("ROCR_VISIBLE_DEVICES".to_owned());
    v.push("CUDA_VISIBLE_DEVICES".to_owned());
    v.push("GPU_DEVICE_ORDINAL".to_owned());
    v.push("ROCM_PATH".to_owned());
    v.push("ROCM_HOME".to_owned());
    v.push("HIP_PATH".to_owned());
    v.push("HIP_PLATFORM".to_owned());
    v.push("PYTORCH_ROCM_ARCH".to_owned());
    v.push("HCC_AMDGPU_TARGET".to_owned());
    v.push("AMDGPU_TARGETS".to_owned());
    v.push("LD_LIBRARY_PATH".to_owned());
    v.push("PATH".to_owned());
    assert(texts(v@) =~= tracked_env_vars());
    v
}

/// `value`, cut and marked where it is too long.
pub open spec fn truncated(value: Seq<char>, max_chars: int) -> Seq<char> {
    if value.len() > max_chars {
        value.take(max_chars) + "...[truncated]"@
    } else {
        value
    }
}

/// Truncate `value` to at most `max_chars` characters, appending a marker when
/// truncated. The cut is between characters, never inside one.
pub fn truncate_to_chars(value: String, max_chars: usize) -> (r: String)
    ensures
        r@ == truncated(value@, max_chars as int),
{
    let head = clip(value.as_str(), max_chars);
    if same_text(head.as_str(), value.as_str()) {
        assert(value@.len() > max_chars ==> head@.len() != value@.len());
        value
    } else {
        concat(head.as_str(), "...[truncated]")
    }
}

/// What is kept of a variable: the search paths are capped, all else is kept
/// verbatim.
pub open spec fn captured(key: Seq<char>, value: Seq<char>) -> Seq<char> {
    if key == "PATH"@ || key == "LD_LIBRARY_PATH"@ {
        truncated(value, ENV_VALUE_MAX_CHARS as int)
    } else {
        value
    }
}

/// `e` with one variable captured, where it is set.
pub open spec fn variable_recorded(
    e: ExaminationView,
    key: Seq<char>,
    value: Option<Seq<char>>,
) -> ExaminationView {
    match value {
        Some(value) => ExaminationView { env: e.env.insert(key, captured(key, value)), ..e },
        None => e,
    }
}

/// Captures one variable, where it is set.
pub fn record_variable(e: &mut Examination, key: &str, value: Option<String>)
    ensures
        final(e)@ == variable_recorded(old(e)@, key@, optional(value)),
{
    match value {
        Some(value) => {
            let value = if same_text(key, "PATH") || same_text(key, "LD_LIBRARY_PATH") {
                truncate_to_chars(value, ENV_VALUE_MAX_CHARS)
            } else {
                value
            };
            e.env.insert(key, value);
        },
        None => {},
    }
}

/// `e` with the variables captured that are set.
pub open spec fn variables_probed(h: Host, e: ExaminationView, keys: Seq<Seq<char>>) -> Result<
    ExaminationView,
    QuestionView,
>
    decreases keys.len(),
{
    if keys.len() == 0 {
        Ok(e)
    } else {
        match optional_text_answer(h, QuestionView::EnvVar(keys[0])) {
            Err(q) => Err(q),
            Ok(value) => variables_probed(
                h,
                variable_recorded(e, keys[0], value),
                keys.skip(1),
            ),
        }
    }
}

fn probe_variables(e: Examination, h: &Answers, keys: &Vec<String>) -> (r: Result<
    Examination,
    Question,
>)
    ensures
        outcome(r) == variables_probed(h@, e@, texts(keys@)),
{
    let mut now = e;
    let n: usize = keys.len();
    let mut i: usize = 0;
    let ghost all = texts(keys@);
    assert(all.skip(0) =~= all);
    while i < n
        invariant
            n == keys@.len(),
            i <= n,
            all == texts(keys@),
            variables_probed(h@, e@, texts(keys@)) == variables_probed(
                h@,
                now@,
                all.skip(i as int),
            ),
        decreases n - i,
    {
        assert(all.skip(i as int).skip(1) =~= all.skip(i + 1));
        assert(all.skip(i as int)[0] == keys@[i as int]@);
        match ask_optional_text(h, Question::EnvVar(keys[i].clone())) {
            Err(q) => {
                return Err(q);
            },
            Ok(value) => {
                record_variable(&mut now, keys[i].as_str(), value);
            },
        }
        i += 1;
    }
    Ok(now)
}

/// The first HIP runtime library in a listing.
pub open spec fn hip_lib_among(entries: Seq<DirEntryView>) -> Option<Seq<char>>
    decreases entries.len(),
{
    if entries.len() == 0 {
        None
    } else if begins_with(entries[0].name, "libamdhip64"@) {
        Some(entries[0].path)
    } else {
        hip_lib_among(entries.skip(1))
    }
}

/// Finds the first HIP runtime library in a listing.
pub fn find_hip_lib(entries: &Vec<DirEntry>) -> (r: Option<String>)
    ensures
        optional(r) == hip_lib_among(entry_views(entries@)),
{
    let n: usize = entries.len();
    let mut i: usize = 0;
    let ghost all = entry_views(entries@);
    assert(all.skip(0) =~= all);
    while i < n
        invariant
            n == entries@.len(),
            i <= n,
            all == entry_views(entries@),
            hip_lib_among(entry_views(entries@)) == hip_lib_among(all.skip(i as int)),
        decreases n - i,
    {
        assert(all.skip(i as int).skip(1) =~= all.skip(i + 1));
        assert(all.skip(i as int)[0] == entries@[i as int]@);
        if starts_with(entries[i].name.as_str(), "libamdhip64") {
            return Some(entries[i].path.clone());
        }
        i += 1;
    }
    None
}

/// The first HIP runtime library in the directories. An empty entry names no
/// directory, and one that cannot be read holds nothing.
pub open spec fn hip_lib_in(h: Host, dirs: Seq<Seq<char>>) -> Result<
    Option<Seq<char>>,
    QuestionView,
>
    decreases dirs.len(),
{
    if dirs.len() == 0 {
        Ok(None)
    } else if dirs[0].len() == 0 {
        hip_lib_in(h, dirs.skip(1))
    } else {
        match listing_answer(h, QuestionView::ListDir(dirs[0])) {
            Err(q) => Err(q),
            Ok(None) => hip_lib_in(h, dirs.skip(1)),
            Ok(Some(entries)) => match hip_lib_among(entries) {
                Some(path) => Ok(Some(path)),
                None => hip_lib_in(h, dirs.skip(1)),
            },
        }
    }
}

fn find_hip_lib_in(h: &Answers, dirs: &Vec<String>) -> (r: Result<Option<String>, Question>)
    ensures
        match r {
            Ok(hit) => hip_lib_in(h@, texts(dirs@)) == Ok::<Option<Seq<char>>, QuestionView>(
                optional(hit),
            ),
            Err(q) => hip_lib_in(h@, texts(dirs@)) == Err::<Option<Seq<char>>, QuestionView>(q@),
        },
{
    let n: usize = dirs.len();
    let mut i: usize = 0;
    let ghost all = texts(dirs@);
    assert(all.skip(0) =~= all);
    while i < n
        invariant
            n == dirs@.len(),
            i <= n,
            all == texts(dirs@),
            hip_lib_in(h@, texts(dirs@)) == hip_lib_in(h@, all.skip(i as int)),
        decreases n - i,
    {
        assert(all.skip(i as int).skip(1) =~= all.skip(i + 1));
        assert(all.skip(i as int)[0] == dirs@[i as int]@);
        if !dirs[i].as_str().is_empty() {
            match ask_listing(h, Question::ListDir(dirs[i].clone())) {
                Err(q) => {
                    return Err(q);
                },
                Ok(None) => {},
                Ok(Some(entries)) => match find_hip_lib(&entries) {
                    Some(path) => {
                        return Ok(Some(path));
                    },
                    None => {},
                },
            }
        }
        i += 1;
    }
    Ok(None)
}

/// `e` with the verdict on HIP libraries on the loader path. An empty loader
/// path gives no verdict.
pub open spec fn hip_libs_recorded(
    e: ExaminationView,
    ld: Seq<char>,
    hit: Option<Seq<char>>,
) -> ExaminationView {
    match hit {
        Some(hit) => with_note(
            ExaminationView { hip_libs_on_ld_path: Some(true), ..e },
            "libamdhip64 visible via LD_LIBRARY_PATH: "@ + hit,
        ),
        None => ExaminationView {
            hip_libs_on_ld_path: if ld.len() == 0 {
                None
            } else {
                Some(false)
            },
            ..e
        },
    }
}

/// Records the verdict on HIP libraries on the loader path.
pub fn record_hip_libs(e: &mut Examination, ld: &str, hit: Option<String>)
    ensures
        final(e)@ == hip_libs_recorded(old(e)@, ld@, optional(hit)),
{
    match hit {
        Some(hit) => {
            e.hip_libs_on_ld_path = Some(true);
            e.add_note(concat("libamdhip64 visible via LD_LIBRARY_PATH: ", hit.as_str()));
        },
        None => {
            e.hip_libs_on_ld_path = if ld.is_empty() {
                None
            } else {
                Some(false)
            };
        },
    }
}

/// `e` after the loader path was searched for HIP libraries.
pub open spec fn hip_libs_probed(h: Host, e: ExaminationView) -> Result<
    ExaminationView,
    QuestionView,
> {
    match optional_text_answer(h, QuestionView::EnvVar("LD_LIBRARY_PATH"@)) {
        Err(q) => Err(q),
        Ok(value) => {
            let ld = match value {
                Some(ld) => ld,
                None => Seq::empty(),
            };
            match hip_lib_in(h, pieces_of(ld, ':')) {
                Err(q) => Err(q),
                Ok(hit) => Ok(hip_libs_recorded(e, ld, hit)),
            }
        },
    }
}

fn probe_hip_libs(e: Examination, h: &Answers) -> (r: Result<Examination, Question>)
    ensures
        outcome(r) == hip_libs_probed(h@, e@),
{
    let mut e = e;
    let ld = match ask_optional_text(h, Question::EnvVar("LD_LIBRARY_PATH".to_owned())) {
        Ok(Some(ld)) => ld,
        Ok(None) => String::new(),
        Err(q) => {
            return Err(q);
        },
    };
    match find_hip_lib_in(h, &split(ld.as_str(), ':')) {
        Err(q) => Err(q),
        Ok(hit) => {
            record_hip_libs(&mut e, ld.as_str(), hit);
            Ok(e)
        },
    }
}

/// `e` after the environment was captured.
pub open spec fn env_probed(h: Host, e: ExaminationView) -> Result<ExaminationView, QuestionView> {
    match variables_probed(h, e, tracked_env_vars()) {
        Err(q) => Err(q),
        Ok(e) => hip_libs_probed(h, e),
    }
}

/// Captures the environment variables that steer ROCm, and looks for HIP
/// libraries on the loader path.
pub fn probe_env(e: Examination, h: &Answers) -> (r: Result<Examination, Question>)
    ensures
        outcome(r) == env_probed(h@, e@),
{
    match probe_variables(e, h, &tracked_env_names()) {
        Err(q) => Err(q),
        Ok(e) => probe_hip_libs(e, h),
    }
}

// ---------------------------------------------------------------------------
// Shared memory
// ---------------------------------------------------------------------------

/// The shared-memory filesystem a serving workload uses.
pub const SHM_PATH: &'static str = "/dev/shm";

/// Total and available bytes, where both can be told.
pub open spec fn size_in_bytes(stats: FilesystemStats) -> Option<(u64, u64)> {
    let total = stats.fragment_size * stats.blocks;
    let available = stats.fragment_size * stats.available;
    if total <= u64::MAX && available <= u64::MAX {
        Some((total as u64, available as u64))
    } else {
        None
    }
}

/// Total and available bytes of a filesystem. `None` where a product does not
/// fit: a machine that could not be measured is not a machine with no space.
pub fn filesystem_size(stats: FilesystemStats) -> (r: Option<(u64, u64)>)
    ensures
        r == size_in_bytes(stats),
{
    match (
        stats.fragment_size.checked_mul(stats.blocks),
        stats.fragment_size.checked_mul(stats.available),
    ) {
        (Some(total), Some(available)) => Some((total, available)),
        _ => None,
    }
}

/// `e` with the size of the shared memory at `path`, or with a trace of the
/// failure to measure it.
pub open spec fn shared_memory_recorded(
    e: ExaminationView,
    path: Seq<char>,
    stats: Option<FilesystemStats>,
) -> ExaminationView {
    let size = match stats {
        Some(stats) => size_in_bytes(stats),
        None => None,
    };
    match size {
        Some((total, available)) => ExaminationView {
            shm_total_bytes: Some(total),
            shm_available_bytes: Some(available),
            ..e
        },
        None => with_failure(
            e,
            "could not query "@ + path + "; shared-memory allowance unknown"@,
        ),
    }
}

/// Records the size of the shared memory at `path`, or that it could not be
/// measured.
pub fn record_shared_memory(e: &mut Examination, path: &str, stats: Option<FilesystemStats>)
    ensures
        final(e)@ == shared_memory_recorded(old(e)@, path@, stats),
{
    let size = match stats {
        Some(stats) => filesystem_size(stats),
        None => None,
    };
    match size {
        Some((total, available)) => {
            e.shm_total_bytes = Some(total);
            e.shm_available_bytes = Some(available);
        },
        None => {
            e.add_failure(
                concat3("could not query ", path, "; shared-memory allowance unknown"),
            );
        },
    }
}

/// `e` after the shared memory at `path` was measured.
pub open spec fn shared_memory_probed(h: Host, e: ExaminationView, path: Seq<char>) -> Result<
    ExaminationView,
    QuestionView,
> {
    match filesystem_answer(h, QuestionView::Filesystem(path)) {
        Err(q) => Err(q),
        Ok(stats) => Ok(shared_memory_recorded(e, path, stats)),
    }
}

/// Measure the shared memory at `path`.
pub fn probe_shared_memory_at(e: Examination, h: &Answers, path: &str) -> (r: Result<
    Examination,
    Question,
>)
    ensures
        outcome(r) == shared_memory_probed(h@, e@, path@),
{
    let mut e = e;
    match ask_filesystem(h, Question::Filesystem(path.to_owned())) {
        Err(q) => Err(q),
        Ok(stats) => {
            record_shared_memory(&mut e, path, stats);
            Ok(e)
        },
    }
}

/// Measure `/dev/shm`.
pub fn probe_shared_memory(e: Examination, h: &Answers) -> (r: Result<Examination, Question>)
    ensures
        outcome(r) == shared_memory_probed(h@, e@, SHM_PATH@),
{
    probe_shared_memory_at(e, h, SHM_PATH)
}

// ---------------------------------------------------------------------------
// Containers
// ---------------------------------------------------------------------------

/// `e` inside a container of the given kind.
pub open spec fn contained(e: ExaminationView, kind: Seq<char>) -> ExaminationView {
    ExaminationView { in_container: true, container_kind: kind, ..e }
}

/// Whether the control groups of the first process are those of a container.
pub open spec fn names_container(cgroup: Seq<char>) -> bool {
    ||| has_text(cgroup, "docker"@)
    ||| has_text(cgroup, "containerd"@)
    ||| has_text(cgroup, "lxc"@)
    ||| has_text(cgroup, "kubepods"@)
    ||| has_text(cgroup, "podman"@)
}

/// `e` with what the control groups of the first process say. A kind that is
/// known already stays.
pub open spec fn cgroup_recorded(e: ExaminationView, cgroup: Seq<char>) -> ExaminationView {
    if cgroup.len() > 0 && names_container(cgroup) {
        contained(
            e,
            if e.container_kind.len() == 0 {
                "container"@
            } else {
                e.container_kind
            },
        )
    } else {
        e
    }
}

/// Records what the control groups of the first process say.
pub fn record_cgroup(e: &mut Examination, cgroup: &str)
    ensures
        final(e)@ == cgroup_recorded(old(e)@, cgroup@),
{
    let named = contains(cgroup, "docker") || contains(cgroup, "containerd") || contains(
        cgroup,
        "lxc",
    ) || contains(cgroup, "kubepods") || contains(cgroup, "podman");
    if !cgroup.is_empty() && named {
        e.in_container = true;
        if e.container_kind.as_str().is_empty() {
            e.container_kind = "container".to_owned();
        }
    }
}

/// `e` after the host was searched for signs of a container.
pub open spec fn container_probed(h: Host, e: ExaminationView) -> Result<
    ExaminationView,
    QuestionView,
> {
    match flag_answer(h, QuestionView::Exists("/.dockerenv"@)) {
        Err(q) => Err(q),
        Ok(true) => Ok(contained(e, "docker"@)),
        Ok(false) => match flag_answer(h, QuestionView::Exists("/run/.containerenv"@)) {
            Err(q) => Err(q),
            Ok(true) => Ok(contained(e, "podman"@)),
            Ok(false) => match text_answer(h, QuestionView::ReadText("/proc/1/cgroup"@)) {
                Err(q) => Err(q),
                Ok(cgroup) => Ok(cgroup_recorded(e, cgroup)),
            },
        },
    }
}

/// Looks for signs of a container around the process.
pub fn probe_container(e: Examination, h: &Answers) -> (r: Result<Examination, Question>)
    ensures
        outcome(r) == container_probed(h@, e@),
{
    let mut e = e;
    match ask_flag(h, Question::Exists("/.dockerenv".to_owned())) {
        Err(q) => {
            return Err(q);
        },
        Ok(true) => {
            e.in_container = true;
            e.container_kind = "docker".to_owned();
            return Ok(e);
        },
        Ok(false) => {},
    }
    match ask_flag(h, Question::Exists("/run/.containerenv".to_owned())) {
        Err(q) => {
            return Err(q);
        },
        Ok(true) => {
            e.in_container = true;
            e.container_kind = "podman".to_owned();
            return Ok(e);
        },
        Ok(false) => {},
    }
    match ask_text(h, Question::ReadText("/proc/1/cgroup".to_owned())) {
        Err(q) => Err(q),
        Ok(cgroup) => {
            record_cgroup(&mut e, cgroup.as_str());
            Ok(e)
        },
    }
}

// ---------------------------------------------------------------------------
// The kernel log
// ---------------------------------------------------------------------------

/// Whether a line of the kernel log comes from the driver.
pub open spec fn from_driver(line: Seq<char>) -> bool {
    has_text(line, "amdgpu"@) || has_text(line, "amdkfd"@)
}

/// Whether a line of the kernel log, in lower case, tells of trouble.
pub open spec fn is_trouble(lowered: Seq<char>) -> bool {
    ||| has_text(lowered, "page fault"@)
    ||| has_text(lowered, "ras controller"@)
    ||| has_text(lowered, "vm_fault"@)
    ||| has_text(lowered, "amdgpu_device_init"@)
    ||| has_text(lowered, "out_of_registers"@)
    ||| has_text(lowered, "ring"@)
    ||| has_text(lowered, "gpu reset"@)
    ||| has_text(lowered, "psp"@)
    ||| has_text(lowered, "hw_fault"@)
}

/// Whether a line of the kernel log, in lower case, tells of trouble.
pub fn tells_of_trouble(lowered: &str) -> (r: bool)
    ensures
        r == is_trouble(lowered@),
{
    contains(lowered, "page fault") || contains(lowered, "ras controller") || contains(
        lowered,
        "vm_fault",
    ) || contains(lowered, "amdgpu_device_init") || contains(lowered, "out_of_registers")
        || contains(lowered, "ring") || contains(lowered, "gpu reset") || contains(lowered, "psp")
        || contains(lowered, "hw_fault")
}

/// The lines of the kernel log in which the driver tells of trouble, clipped.
pub open spec fn driver_troubles(lines: Seq<Seq<char>>) -> Seq<Seq<char>>
    decreases lines.len(),
{
    if lines.len() == 0 {
        Seq::empty()
    } else {
        let before = driver_troubles(lines.drop_last());
        if from_driver(lines.last()) && is_trouble(lower_text(lines.last())) {
            before.push(clipped(trimmed(lines.last()), 300))
        } else {
            before
        }
    }
}

/// The last fifteen of several lines, or all where there are fewer.
pub open spec fn log_tail(lines: Seq<Seq<char>>) -> Seq<Seq<char>> {
    if lines.len() <= 15 {
        lines
    } else {
        lines.skip(lines.len() - 15)
    }
}

/// `e` with the tail of the driver's troubles in a kernel log. An empty log says
/// nothing.
pub open spec fn log_recorded(e: ExaminationView, text: Seq<char>) -> ExaminationView {
    if text.len() == 0 {
        e
    } else {
        ExaminationView {
            dmesg_amdgpu_tail: log_tail(driver_troubles(lines_of(text))),
            ..e
        }
    }
}

fn find_driver_troubles(text: &str) -> (r: Vec<String>)
    ensures
        texts(r@) == driver_troubles(lines_of(text@)),
{
    let found = lines(text);
    let n: usize = found.len();
    let mut out: Vec<String> = Vec::new();
    let mut i: usize = 0;
    let ghost all = lines_of(text@);
    assert(texts(out@) =~= Seq::empty());
    while i < n
        invariant
            n == found@.len(),
            i <= n,
            all == texts(found@),
            texts(out@) == driver_troubles(all.take(i as int)),
        decreases n - i,
    {
        assert(all.take(i + 1).drop_last() =~= all.take(i as int));
        assert(all.take(i + 1).last() == found@[i as int]@);
        let line = found[i].as_str();
        if contains(line, "amdgpu") || contains(line, "amdkfd") {
            if tells_of_trouble(lower_case(line).as_str()) {
                out.push(clip(trim(line).as_str(), 300));
            }
        }
        i += 1;
    }
    assert(all.take(n as int) =~= all);
    out
}

/// Records the tail of the driver's troubles in a kernel log.
pub fn record_log(e: &mut Examination, text: &str)
    ensures
        final(e)@ == log_recorded(old(e)@, text@),
{
    if text.is_empty() {
        return;
    }
    let hits = find_driver_troubles(text);
    let n: usize = hits.len();
    let start: usize = if n > 15 {
        n - 15
    } else {
        0
    };
    let mut tail: Vec<String> = Vec::new();
    let mut i: usize = start;
    let ghost all = texts(hits@);
    assert(texts(tail@) =~= all.subrange(start as int, start as int));
    while i < n
        invariant
            n == hits@.len(),
            start <= i <= n,
            all == texts(hits@),
            texts(tail@) == all.subrange(start as int, i as int),
        decreases n - i,
    {
        tail.push(hits[i].clone());
        assert(texts(tail@) =~= all.subrange(start as int, i + 1));
        i += 1;
    }
    assert(texts(tail@) =~= log_tail(all));
    e.dmesg_amdgpu_tail = tail;
}

/// The kernel log, from the journal where it has one, or else from `dmesg`.
pub open spec fn kernel_log(h: Host) -> Result<Seq<char>, QuestionView> {
    match output_answer(
        h,
        plain_command("journalctl"@, seq!["-k"@, "--no-pager"@, "-n"@, "400"@], MEDIUM),
    ) {
        Err(q) => Err(q),
        Ok(journal) => if journal.rc == 0 && journal.stdout.len() > 0 {
            Ok(journal.stdout)
        } else {
            match output_answer(h, plain_command("dmesg"@, Seq::empty(), SHORT)) {
                Err(q) => Err(q),
                Ok(dmesg) => if dmesg.rc == 0 {
                    Ok(dmesg.stdout)
                } else {
                    Ok(Seq::empty())
                },
            }
        },
    }
}

fn find_kernel_log(h: &Answers) -> (r: Result<String, Question>)
    ensures
        match r {
            Ok(text) => kernel_log(h@) == Ok::<Seq<char>, QuestionView>(text@),
            Err(q) => kernel_log(h@) == Err::<Seq<char>, QuestionView>(q@),
        },
{
    let mut args: Vec<String> = Vec::new();
    args.push("-k".to_owned());
    args.push("--no-pager".to_owned());
    args.push("-n".to_owned());
    args.push("400".to_owned());
    assert(texts(args@) =~= seq!["-k"@, "--no-pager"@, "-n"@, "400"@]);
    match run(h, "journalctl", args, MEDIUM) {
        Err(q) => {
            return Err(q);
        },
        Ok(journal) => {
            if journal.rc == 0 && !journal.stdout.as_str().is_empty() {
                return Ok(journal.stdout);
            }
        },
    }
    match run(h, "dmesg", no_args(), SHORT) {
        Err(q) => Err(q),
        Ok(dmesg) => if dmesg.rc == 0 {
            Ok(dmesg.stdout)
        } else {
            Ok(String::new())
        },
    }
}

/// `e` after the kernel log was read.
pub open spec fn log_probed(h: Host, e: ExaminationView) -> Result<ExaminationView, QuestionView> {
    match kernel_log(h) {
        Err(q) => Err(q),
        Ok(text) => Ok(log_recorded(e, text)),
    }
}

/// Looks for trouble with the driver in the kernel log.
pub fn probe_dmesg_amdgpu(e: Examination, h: &Answers) -> (r: Result<Examination, Question>)
    ensures
        outcome(r) == log_probed(h@, e@),
{
    let mut e = e;
    match find_kernel_log(h) {
        Err(q) => Err(q),
        Ok(text) => {
            record_log(&mut e, text.as_str());
            Ok(e)
        },
    }
}

} // verus!
