//! What holds of the ROCm install: where it is, which version it has and how it
//! got there, as the host tells of it.

use vstd::prelude::*;
use vstd::string::*;

use crate::ask::on_path;
use crate::examination::ExaminationView;
use crate::host::{DirEntryView, Host, QuestionView, ReplyView, RocmInstallView};
use crate::install::{
    install_markers, install_recorded, marker_recorded, markers_probed, method_probed,
    package_probed, repos_with, rocm_install_probed, rocm_version_in, version_run,
};
use crate::laws::modules::listed;
use crate::laws::text::{holds, law_find_first, law_search, law_unwrap, only};
use crate::laws::told::{lemma_prints, prints, tells};
use crate::text::{lemma_find_from, occurs_at};
use crate::unicode::lower_text;

verus! {

broadcast use law_search;

// ---------------------------------------------------------------------------
// Versions in paths
// ---------------------------------------------------------------------------

/// Whether a character can stand in a version.
pub open spec fn in_version(c: char) -> bool {
    '0' <= c && c <= '9' || c == '.'
}

proof fn lemma_run(run: Seq<char>, tail: Seq<char>)
    requires
        forall|i: int| 0 <= i < run.len() ==> in_version(#[trigger] run[i]),
        tail.len() == 0 || !in_version(tail[0]),
    ensures
        version_run(run + tail) == run,
    decreases run.len(),
{
    let s = run + tail;
    if run.len() == 0 {
        assert(s =~= tail);
        assert(version_run(s) =~= run);
    } else {
        assert(s[0] == run[0]);
        assert(s.skip(1) =~= run.skip(1) + tail);
        assert forall|i: int| 0 <= i < run.skip(1).len() implies in_version(
            #[trigger] run.skip(1)[i],
        ) by {
            assert(run.skip(1)[i] == run[i + 1]);
        }
        lemma_run(run.skip(1), tail);
        assert(seq![run[0]] + run.skip(1) =~= run);
    }
}

/// The version in a path is the run of digits and dots behind the first `rocm-`,
/// without the dots around it, where a dot stands inside it.
pub proof fn law_version_is_read_off_the_path(
    before: Seq<char>,
    lead: Seq<char>,
    version: Seq<char>,
    trail: Seq<char>,
    tail: Seq<char>,
)
    requires
        forall|i: int|
            0 <= i < before.len() ==> !occurs_at(
                before + "rocm-"@ + (lead + version + trail + tail),
                "rocm-"@,
                i,
            ),
        only(lead, '.'),
        only(trail, '.'),
        version.len() > 0,
        forall|i: int| 0 <= i < version.len() ==> in_version(#[trigger] version[i]),
        version[0] != '.',
        version.last() != '.',
        tail.len() == 0 || !in_version(tail[0]),
    ensures
        rocm_version_in(before + "rocm-"@ + (lead + version + trail + tail)) == (
        if version.contains('.') {
            Some(version)
        } else {
            None
        }),
{
    reveal_strlit("rocm-");
    let rest = lead + version + trail + tail;
    let path = before + "rocm-"@ + rest;
    law_find_first(before, "rocm-"@, rest);
    assert(path.skip(before.len() as int + 5) =~= rest);
    let run = lead + version + trail;
    assert forall|i: int| 0 <= i < run.len() implies in_version(#[trigger] run[i]) by {
        if i < lead.len() {
            assert(run[i] == lead[i]);
        } else if i < lead.len() + version.len() {
            assert(run[i] == version[i - lead.len()]);
        } else {
            assert(run[i] == trail[i - lead.len() - version.len()]);
        }
    }
    assert(rest =~= run + tail);
    lemma_run(run, tail);
    law_unwrap(lead, version, trail, '.');
}

/// A path without `rocm-` has no version.
pub proof fn law_no_version_elsewhere(path: Seq<char>)
    requires
        !holds(path, "rocm-"@),
    ensures
        rocm_version_in(path) is None,
{
    lemma_find_from(path, "rocm-"@, 0);
    assert(!crate::text::has_text(path, "rocm-"@));
}

// ---------------------------------------------------------------------------
// How it was installed
// ---------------------------------------------------------------------------

/// The files that the `amdgpu-install` pipeline drops.
pub open spec fn pipeline_files() -> Seq<Seq<char>> {
    seq![
        "/etc/apt/sources.list.d/amdgpu.list"@,
        "/etc/apt/sources.list.d/rocm.list"@,
        "/etc/apt/sources.list.d/radeon.list"@,
        "/etc/yum.repos.d/amdgpu.repo"@,
        "/etc/yum.repos.d/rocm.repo"@,
    ]
}

/// Whether the host says that a file is there.
pub open spec fn is_there(h: Host, path: Seq<char>) -> bool {
    tells(h, QuestionView::Exists(path), ReplyView::Flag(true))
}

/// Those of several files that are there, in order.
pub open spec fn those_there(h: Host, paths: Seq<Seq<char>>) -> Seq<Seq<char>>
    decreases paths.len(),
{
    if paths.len() == 0 {
        Seq::empty()
    } else if is_there(h, paths[0]) {
        seq![paths[0]] + those_there(h, paths.skip(1))
    } else {
        those_there(h, paths.skip(1))
    }
}

proof fn lemma_markers_found(h: Host, e: ExaminationView, paths: Seq<Seq<char>>)
    ensures
        markers_probed(h, e, paths) matches Ok(after) ==> {
            let found = those_there(h, paths);
            &&& after.rocm_repos_seen == e.rocm_repos_seen + found
            &&& found.len() > 0 ==> after.rocm_install_method == "amdgpu-install"@
            &&& found.len() == 0 ==> after.rocm_install_method == e.rocm_install_method
            &&& after == (ExaminationView {
                rocm_repos_seen: after.rocm_repos_seen,
                rocm_install_method: after.rocm_install_method,
                ..e
            })
        },
    decreases paths.len(),
{
    if paths.len() > 0 {
        let rest = paths.skip(1);
        lemma_markers_found(h, e, rest);
        lemma_markers_found(h, marker_recorded(e, paths[0]), rest);
        assert(e.rocm_repos_seen.push(paths[0]) + those_there(h, rest) =~= e.rocm_repos_seen + (
        seq![paths[0]] + those_there(h, rest)));
    } else {
        assert(e.rocm_repos_seen + those_there(h, paths) =~= e.rocm_repos_seen);
    }
}

/// The files of the pipeline that are there are listed, and one of them is
/// enough to know the method.
pub proof fn law_pipeline_files_tell_the_method(h: Host, e: ExaminationView)
    ensures
        method_probed(h, e) matches Ok(after) ==> {
            let found = those_there(h, pipeline_files());
            &&& after.rocm_repos_seen == e.rocm_repos_seen + found
            &&& found.len() > 0 ==> after.rocm_install_method == "amdgpu-install"@
        },
{
    assert(install_markers() =~= pipeline_files());
    lemma_markers_found(h, e, pipeline_files());
    reveal_strlit("amdgpu-install");
}

/// Whether a package manager, asked for the HIP runtime, says that it is there.
pub open spec fn has_package(h: Host, manager: Seq<char>, rc: i32, out: Seq<char>) -> bool {
    on_path(h, manager) == Ok::<bool, QuestionView>(true) && rc == 0 && holds(
        out,
        "rocm-hip-runtime"@,
    )
}

proof fn lemma_package(
    h: Host,
    e: ExaminationView,
    manager: Seq<char>,
    flag: Seq<char>,
    method: Seq<char>,
    rc: i32,
    out: Seq<char>,
    err: Seq<char>,
)
    requires
        prints(h, manager, seq![flag, "rocm-hip-runtime"@], 8, rc, out, err),
        on_path(h, manager) is Ok,
    ensures
        package_probed(h, e, manager, flag, method) == Ok::<ExaminationView, QuestionView>(
            if e.rocm_install_method.len() == 0 && has_package(h, manager, rc, out) {
                ExaminationView { rocm_install_method: method, ..e }
            } else {
                e
            },
        ),
{
    lemma_prints(h, manager, seq![flag, "rocm-hip-runtime"@], 8, rc, out, err);
}

/// Without a file of the pipeline, `dpkg` is asked for the HIP runtime and then
/// `rpm`. Where neither has it, the method is another one where ROCm is there,
/// and none where it is not.
pub proof fn law_package_managers_tell_the_method(
    h: Host,
    e: ExaminationView,
    rc: i32,
    out: Seq<char>,
    err: Seq<char>,
    rpm_rc: i32,
    rpm_out: Seq<char>,
    rpm_err: Seq<char>,
)
    requires
        e.rocm_install_method.len() == 0,
        those_there(h, pipeline_files()).len() == 0,
        on_path(h, "dpkg"@) is Ok,
        prints(h, "dpkg"@, seq!["-l"@, "rocm-hip-runtime"@], 8, rc, out, err),
        on_path(h, "rpm"@) is Ok,
        prints(h, "rpm"@, seq!["-q"@, "rocm-hip-runtime"@], 8, rpm_rc, rpm_out, rpm_err),
    ensures
        method_probed(h, e) matches Ok(after) ==> {
            let dpkg = has_package(h, "dpkg"@, rc, out);
            let rpm = has_package(h, "rpm"@, rpm_rc, rpm_out);
            &&& dpkg ==> after.rocm_install_method == "apt"@
            &&& rpm && !dpkg ==> after.rocm_install_method == "dnf"@
            &&& !dpkg && !rpm && e.rocm_path.len() > 0 ==> after.rocm_install_method
                == "tarball-or-other"@
            &&& !dpkg && !rpm && e.rocm_path.len() == 0 ==> after.rocm_install_method == "none"@
        },
{
    assert(install_markers() =~= pipeline_files());
    lemma_markers_found(h, e, pipeline_files());
    reveal_strlit("apt");
    reveal_strlit("dnf");
    match markers_probed(h, e, install_markers()) {
        Ok(e1) => {
            lemma_package(h, e1, "dpkg"@, "-l"@, "apt"@, rc, out, err);
            match package_probed(h, e1, "dpkg"@, "-l"@, "apt"@) {
                Ok(e2) => {
                    lemma_package(h, e2, "rpm"@, "-q"@, "dnf"@, rpm_rc, rpm_out, rpm_err);
                },
                Err(_) => {},
            }
        },
        Err(_) => {},
    }
}

// ---------------------------------------------------------------------------
// Repositories
// ---------------------------------------------------------------------------

/// Whether the name of a file speaks of ROCm, in whatever case.
pub open spec fn speaks_of_rocm(name: Seq<char>) -> bool {
    holds(lower_text(name), "rocm"@) || holds(lower_text(name), "amdgpu"@) || holds(
        lower_text(name),
        "radeon"@,
    )
}

/// One more entry of a listing is added under its path where its name speaks of
/// ROCm and the path is not there yet.
pub proof fn law_repositories_by_name(
    seen: Seq<Seq<char>>,
    entries: Seq<DirEntryView>,
    entry: DirEntryView,
)
    ensures
        repos_with(seen, Seq::empty()) == seen,
        speaks_of_rocm(entry.name) && !repos_with(seen, entries).contains(entry.path)
            ==> repos_with(seen, entries.push(entry)) == repos_with(seen, entries).push(entry.path),
        !speaks_of_rocm(entry.name) || repos_with(seen, entries).contains(entry.path)
            ==> repos_with(seen, entries.push(entry)) == repos_with(seen, entries),
{
    assert(entries.push(entry).drop_last() =~= entries);
}

proof fn lemma_repos_concat(
    seen: Seq<Seq<char>>,
    a: Seq<DirEntryView>,
    b: Seq<DirEntryView>,
)
    ensures
        repos_with(seen, a + b) == repos_with(repos_with(seen, a), b),
    decreases b.len(),
{
    if b.len() == 0 {
        assert(a + b =~= a);
    } else {
        lemma_repos_concat(seen, a, b.drop_last());
        assert((a + b).drop_last() =~= a + b.drop_last());
        assert((a + b).last() == b.last());
    }
}

proof fn lemma_method_frame(h: Host, e: ExaminationView)
    ensures
        method_probed(h, e) matches Ok(after) ==> after == (ExaminationView {
            rocm_repos_seen: after.rocm_repos_seen,
            rocm_install_method: after.rocm_install_method,
            ..e
        }),
{
    lemma_markers_found(h, e, install_markers());
}

/// The install is recorded with its path and its version, the method as it was
/// told, and behind the files of the pipeline the repositories of the two
/// directories, each once.
pub proof fn law_install_is_recorded(
    h: Host,
    e: ExaminationView,
    install: Option<RocmInstallView>,
    asked: ExaminationView,
    apt: Option<Seq<DirEntryView>>,
    yum: Option<Seq<DirEntryView>>,
)
    requires
        tells(h, QuestionView::ActiveRocmInstall, ReplyView::Install(install)),
        asked.rocm_path == (match install {
            Some(found) => found.path,
            None => Seq::empty(),
        }),
        asked.rocm_version == (match install {
            Some(found) => match found.version {
                Some(version) => version,
                None => Seq::empty(),
            },
            None => Seq::empty(),
        }),
        asked == (ExaminationView {
            rocm_path: asked.rocm_path,
            rocm_version: asked.rocm_version,
            ..e
        }),
        tells(h, QuestionView::ListDir("/etc/apt/sources.list.d"@), ReplyView::Listing(apt)),
        tells(h, QuestionView::ListDir("/etc/yum.repos.d"@), ReplyView::Listing(yum)),
    ensures
        rocm_install_probed(h, e) matches Ok(after) ==> {
            &&& after.rocm_path == asked.rocm_path
            &&& after.rocm_version == asked.rocm_version
            &&& method_probed(h, asked) matches Ok(told) && {
                &&& after.rocm_install_method == told.rocm_install_method
                &&& after.rocm_repos_seen == repos_with(
                    told.rocm_repos_seen,
                    listed(apt) + listed(yum),
                )
            }
        },
{
    assert(install_recorded(e, install) == asked);
    lemma_method_frame(h, asked);
    match method_probed(h, asked) {
        Ok(told) => {
            lemma_repos_concat(told.rocm_repos_seen, listed(apt), listed(yum));
        },
        Err(_) => {},
    }
}

} // verus!
