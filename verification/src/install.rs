//! The ROCm install of a Linux host or a WSL guest.

use vstd::prelude::*;
use vstd::string::*;

use crate::ask::{
    ask_flag, ask_install, ask_listing, flag_answer, install_answer, listing_answer, on_path,
    outcome, output_answer, plain_command, run, two_args, which, MEDIUM,
};
use crate::examination::{Examination, ExaminationView};
use crate::host::{
    entry_views, Answers, DirEntryView, Host, Question, QuestionView, RocmInstall, RocmInstallView,
};
use crate::split::has_item;
use crate::text::{
    chars_of, contains, find, find_from, has_text, is_digit, lemma_texts_push, optional, string_of,
    texts, to_digit, trim_matches, unwrapped,
};
use crate::unicode::{lower_case, lower_text};

verus! {

broadcast use lemma_texts_push;

// ---------------------------------------------------------------------------
// Versions in paths
// ---------------------------------------------------------------------------

/// The digits and dots that `s` starts with.
pub open spec fn version_run(s: Seq<char>) -> Seq<char>
    decreases s.len(),
{
    if s.len() > 0 && (is_digit(s[0]) || s[0] == '.') {
        seq![s[0]] + version_run(s.skip(1))
    } else {
        Seq::empty()
    }
}

/// The `X.Y[.Z]` behind the first `rocm-` of a path.
pub open spec fn rocm_version_in(path: Seq<char>) -> Option<Seq<char>> {
    match find_from(path, "rocm-"@, 0) {
        None => None,
        Some(i) => {
            let version = unwrapped(version_run(path.skip(i + 5)), '.');
            if version.contains('.') {
                Some(version)
            } else {
                None
            }
        },
    }
}

fn version_end(s: &Vec<char>, from: usize) -> (r: usize)
    requires
        from <= s@.len(),
    ensures
        from <= r <= s@.len(),
        version_run(s@.skip(from as int)) == s@.subrange(from as int, r as int),
{
    let n: usize = s.len();
    let mut i: usize = from;
    assert(s@.subrange(from as int, from as int) + version_run(s@.skip(from as int))
        =~= version_run(s@.skip(from as int)));
    while i < n && (to_digit(s[i]).is_some() || s[i] == '.')
        invariant
            n == s@.len(),
            from <= i <= n,
            version_run(s@.skip(from as int)) == s@.subrange(from as int, i as int) + version_run(
                s@.skip(i as int),
            ),
        decreases n - i,
    {
        assert(s@.skip(i as int).skip(1) =~= s@.skip(i + 1));
        assert(s@.skip(i as int)[0] == s@[i as int]);
        assert(s@.subrange(from as int, i as int) + (seq![s@[i as int]] + version_run(
            s@.skip(i + 1),
        )) =~= s@.subrange(from as int, i + 1) + version_run(s@.skip(i + 1)));
        i += 1;
    }
    assert(version_run(s@.skip(i as int)) =~= Seq::empty());
    assert(s@.subrange(from as int, i as int) + Seq::<char>::empty() =~= s@.subrange(
        from as int,
        i as int,
    ));
    i
}

fn has_dot(s: &str) -> (r: bool)
    ensures
        r == s@.contains('.'),
{
    let chars = chars_of(s);
    let n: usize = chars.len();
    let mut i: usize = 0;
    while i < n
        invariant
            n == chars@.len(),
            chars@ == s@,
            i <= n,
            forall|j: int| 0 <= j < i ==> chars@[j] != '.',
        decreases n - i,
    {
        if chars[i] == '.' {
            assert(s@[i as int] == '.');
            return true;
        }
        i += 1;
    }
    false
}

/// Pull `X.Y[.Z]` out of a `rocm-X.Y.Z` path component.
pub fn extract_rocm_version(path: &str) -> (r: Option<String>)
    ensures
        optional(r) == rocm_version_in(path@),
{
    proof {
        reveal_strlit("rocm-");
    }
    match find(path, "rocm-") {
        None => None,
        Some(i) => {
            let chars = chars_of(path);
            let start: usize = i + 5;
            let end: usize = version_end(&chars, start);
            let version = trim_matches(string_of(&chars, start, end).as_str(), '.');
            if has_dot(version.as_str()) {
                Some(version)
            } else {
                None
            }
        },
    }
}

// ---------------------------------------------------------------------------
// The active install
// ---------------------------------------------------------------------------

/// `e` with the active install, or with none.
pub open spec fn install_recorded(
    e: ExaminationView,
    install: Option<RocmInstallView>,
) -> ExaminationView {
    ExaminationView {
        rocm_path: match install {
            Some(install) => install.path,
            None => Seq::empty(),
        },
        rocm_version: match install {
            Some(RocmInstallView { version: Some(version), .. }) => version,
            _ => Seq::empty(),
        },
        ..e
    }
}

/// Records the active install, or that there is none.
pub fn record_install(e: &mut Examination, install: Option<RocmInstall>)
    ensures
        final(e)@ == install_recorded(old(e)@, crate::host::install_view(install)),
{
    match install {
        Some(install) => {
            e.rocm_path = install.path;
            e.rocm_version = match install.version {
                Some(version) => version,
                None => String::new(),
            };
        },
        None => {
            e.rocm_path = String::new();
            e.rocm_version = String::new();
        },
    }
}

// ---------------------------------------------------------------------------
// How it was installed
// ---------------------------------------------------------------------------

/// Repo files dropped by the `amdgpu-install` pipeline; their presence marks an
/// amdgpu-install-managed ROCm.
pub open spec fn install_markers() -> Seq<Seq<char>> {
    seq![
        "/etc/apt/sources.list.d/amdgpu.list"@,
        "/etc/apt/sources.list.d/rocm.list"@,
        "/etc/apt/sources.list.d/radeon.list"@,
        "/etc/yum.repos.d/amdgpu.repo"@,
        "/etc/yum.repos.d/rocm.repo"@,
    ]
}

/// Repo files dropped by the `amdgpu-install` pipeline.
pub fn amdgpu_install_markers() -> (r: Vec<String>)
    ensures
        texts(r@) == install_markers(),
{
    let mut v: Vec<String> = Vec::new();
    v.push("/etc/apt/sources.list.d/amdgpu.list".to_owned());
    v.push("/etc/apt/sources.list.d/rocm.list".to_owned());
    v.push("/etc/apt/sources.list.d/radeon.list".to_owned());
    v.push("/etc/yum.repos.d/amdgpu.repo".to_owned());
    v.push("/etc/yum.repos.d/rocm.repo".to_owned());
    assert(texts(v@) =~= install_markers());
    v
}

/// `e` with one marker found.
pub open spec fn marker_recorded(e: ExaminationView, marker: Seq<char>) -> ExaminationView {
    ExaminationView {
        rocm_install_method: "amdgpu-install"@,
        rocm_repos_seen: e.rocm_repos_seen.push(marker),
        ..e
    }
}

/// `e` with the markers that exist.
pub open spec fn markers_probed(h: Host, e: ExaminationView, markers: Seq<Seq<char>>) -> Result<
    ExaminationView,
    QuestionView,
>
    decreases markers.len(),
{
    if markers.len() == 0 {
        Ok(e)
    } else {
        match flag_answer(h, QuestionView::Exists(markers[0])) {
            Err(q) => Err(q),
            Ok(true) => markers_probed(h, marker_recorded(e, markers[0]), markers.skip(1)),
            Ok(false) => markers_probed(h, e, markers.skip(1)),
        }
    }
}

fn probe_markers(e: Examination, h: &Answers, markers: &Vec<String>) -> (r: Result<
    Examination,
    Question,
>)
    ensures
        outcome(r) == markers_probed(h@, e@, texts(markers@)),
{
    let mut now = e;
    let n: usize = markers.len();
    let mut i: usize = 0;
    let ghost all = texts(markers@);
    assert(all.skip(0) =~= all);
    while i < n
        invariant
            n == markers@.len(),
            i <= n,
            all == texts(markers@),
            markers_probed(h@, e@, texts(markers@)) == markers_probed(
                h@,
                now@,
                all.skip(i as int),
            ),
        decreases n - i,
    {
        assert(all.skip(i as int).skip(1) =~= all.skip(i + 1));
        assert(all.skip(i as int)[0] == markers@[i as int]@);
        match ask_flag(h, Question::Exists(markers[i].clone())) {
            Err(q) => {
                return Err(q);
            },
            Ok(true) => {
                now.rocm_install_method = "amdgpu-install".to_owned();
                now.rocm_repos_seen.push(markers[i].clone());
            },
            Ok(false) => {},
        }
        i += 1;
    }
    Ok(now)
}

/// `e` after a package manager was asked for the HIP runtime, where the method
/// is still open and the package manager is on PATH.
pub open spec fn package_probed(
    h: Host,
    e: ExaminationView,
    manager: Seq<char>,
    flag: Seq<char>,
    method: Seq<char>,
) -> Result<ExaminationView, QuestionView> {
    if e.rocm_install_method.len() > 0 {
        Ok(e)
    } else {
        match on_path(h, manager) {
            Err(q) => Err(q),
            Ok(false) => Ok(e),
            Ok(true) => match output_answer(
                h,
                plain_command(manager, seq![flag, "rocm-hip-runtime"@], MEDIUM),
            ) {
                Err(q) => Err(q),
                Ok(out) => if out.rc == 0 && has_text(out.stdout, "rocm-hip-runtime"@) {
                    Ok(ExaminationView { rocm_install_method: method, ..e })
                } else {
                    Ok(e)
                },
            },
        }
    }
}

fn probe_package(e: Examination, h: &Answers, manager: &str, flag: &str, method: &str) -> (r:
    Result<Examination, Question>)
    ensures
        outcome(r) == package_probed(h@, e@, manager@, flag@, method@),
{
    let mut e = e;
    if !e.rocm_install_method.as_str().is_empty() {
        return Ok(e);
    }
    match which(h, manager) {
        Err(q) => {
            return Err(q);
        },
        Ok(false) => {
            return Ok(e);
        },
        Ok(true) => {},
    }
    match run(h, manager, two_args(flag, "rocm-hip-runtime"), MEDIUM) {
        Err(q) => Err(q),
        Ok(out) => {
            if out.rc == 0 && contains(out.stdout.as_str(), "rocm-hip-runtime") {
                e.rocm_install_method = method.to_owned();
            }
            Ok(e)
        },
    }
}

/// `e` with a verdict on the method where every question left it open.
pub open spec fn method_settled(e: ExaminationView) -> ExaminationView {
    if e.rocm_install_method.len() > 0 {
        e
    } else {
        ExaminationView {
            rocm_install_method: if e.rocm_path.len() == 0 {
                "none"@
            } else {
                "tarball-or-other"@
            },
            ..e
        }
    }
}

/// Settles the method where every question left it open.
pub fn settle_method(e: &mut Examination)
    ensures
        final(e)@ == method_settled(old(e)@),
{
    if e.rocm_install_method.as_str().is_empty() {
        e.rocm_install_method = if e.rocm_path.as_str().is_empty() {
            "none".to_owned()
        } else {
            "tarball-or-other".to_owned()
        };
    }
}

// ---------------------------------------------------------------------------
// Package repositories
// ---------------------------------------------------------------------------

/// Whether the name of a repo file, in lower case, speaks of ROCm.
pub open spec fn names_repo(lowered: Seq<char>) -> bool {
    ||| has_text(lowered, "rocm"@)
    ||| has_text(lowered, "amdgpu"@)
    ||| has_text(lowered, "radeon"@)
}

/// Whether the name of a repo file, in lower case, speaks of ROCm.
pub fn names_rocm_repo(lowered: &str) -> (r: bool)
    ensures
        r == names_repo(lowered@),
{
    contains(lowered, "rocm") || contains(lowered, "amdgpu") || contains(lowered, "radeon")
}

/// `seen` with the repo files of a listing that are not in it yet.
pub open spec fn repos_with(seen: Seq<Seq<char>>, entries: Seq<DirEntryView>) -> Seq<Seq<char>>
    decreases entries.len(),
{
    if entries.len() == 0 {
        seen
    } else {
        let before = repos_with(seen, entries.drop_last());
        let entry = entries.last();
        if names_repo(lower_text(entry.name)) && !before.contains(entry.path) {
            before.push(entry.path)
        } else {
            before
        }
    }
}

/// `e` with the repo files of a directory.
pub open spec fn repo_dir_probed(h: Host, e: ExaminationView, dir: Seq<char>) -> Result<
    ExaminationView,
    QuestionView,
> {
    match listing_answer(h, QuestionView::ListDir(dir)) {
        Err(q) => Err(q),
        Ok(None) => Ok(e),
        Ok(Some(entries)) => Ok(
            ExaminationView { rocm_repos_seen: repos_with(e.rocm_repos_seen, entries), ..e },
        ),
    }
}

fn probe_repo_dir(e: Examination, h: &Answers, dir: &str) -> (r: Result<Examination, Question>)
    ensures
        outcome(r) == repo_dir_probed(h@, e@, dir@),
{
    let mut now = e;
    let entries = match ask_listing(h, Question::ListDir(dir.to_owned())) {
        Err(q) => {
            return Err(q);
        },
        Ok(None) => {
            return Ok(now);
        },
        Ok(Some(entries)) => entries,
    };
    let n: usize = entries.len();
    let mut i: usize = 0;
    let ghost all = entry_views(entries@);
    while i < n
        invariant
            n == entries@.len(),
            i <= n,
            all == entry_views(entries@),
            now@ == (ExaminationView {
                rocm_repos_seen: repos_with(e@.rocm_repos_seen, all.take(i as int)),
                ..e@
            }),
        decreases n - i,
    {
        assert(all.take(i + 1).drop_last() =~= all.take(i as int));
        assert(all.take(i + 1).last() == entries@[i as int]@);
        if names_rocm_repo(lower_case(entries[i].name.as_str()).as_str()) && !has_item(
            now.rocm_repos_seen.as_slice(),
            entries[i].path.as_str(),
        ) {
            now.rocm_repos_seen.push(entries[i].path.clone());
        }
        i += 1;
    }
    assert(all.take(n as int) =~= all);
    Ok(now)
}

// ---------------------------------------------------------------------------
// The probe
// ---------------------------------------------------------------------------

/// `e` after the method of the install was asked about.
pub open spec fn method_probed(h: Host, e: ExaminationView) -> Result<
    ExaminationView,
    QuestionView,
> {
    match markers_probed(h, e, install_markers()) {
        Err(q) => Err(q),
        Ok(e) => match package_probed(h, e, "dpkg"@, "-l"@, "apt"@) {
            Err(q) => Err(q),
            Ok(e) => match package_probed(h, e, "rpm"@, "-q"@, "dnf"@) {
                Err(q) => Err(q),
                Ok(e) => Ok(method_settled(e)),
            },
        },
    }
}

/// `e` after the ROCm install was asked about.
pub open spec fn rocm_install_probed(h: Host, e: ExaminationView) -> Result<
    ExaminationView,
    QuestionView,
> {
    match install_answer(h, QuestionView::ActiveRocmInstall) {
        Err(q) => Err(q),
        Ok(install) => match method_probed(h, install_recorded(e, install)) {
            Err(q) => Err(q),
            Ok(e) => match repo_dir_probed(h, e, "/etc/apt/sources.list.d"@) {
                Err(q) => Err(q),
                Ok(e) => repo_dir_probed(h, e, "/etc/yum.repos.d"@),
            },
        },
    }
}

fn probe_method(e: Examination, h: &Answers) -> (r: Result<Examination, Question>)
    ensures
        outcome(r) == method_probed(h@, e@),
{
    let e = match probe_markers(e, h, &amdgpu_install_markers()) {
        Ok(e) => e,
        Err(q) => {
            return Err(q);
        },
    };
    let e = match probe_package(e, h, "dpkg", "-l", "apt") {
        Ok(e) => e,
        Err(q) => {
            return Err(q);
        },
    };
    let mut e = match probe_package(e, h, "rpm", "-q", "dnf") {
        Ok(e) => e,
        Err(q) => {
            return Err(q);
        },
    };
    settle_method(&mut e);
    Ok(e)
}

/// Asks for the active ROCm install, how it got there, and the package
/// repositories that speak of it.
pub fn probe_rocm_install(e: Examination, h: &Answers) -> (r: Result<Examination, Question>)
    ensures
        outcome(r) == rocm_install_probed(h@, e@),
{
    let mut e = e;
    match ask_install(h, Question::ActiveRocmInstall) {
        Err(q) => {
            return Err(q);
        },
        Ok(install) => {
            record_install(&mut e, install);
        },
    }
    let e = match probe_method(e, h) {
        Ok(e) => e,
        Err(q) => {
            return Err(q);
        },
    };
    let e = match probe_repo_dir(e, h, "/etc/apt/sources.list.d") {
        Ok(e) => e,
        Err(q) => {
            return Err(q);
        },
    };
    probe_repo_dir(e, h, "/etc/yum.repos.d")
}

} // verus!
