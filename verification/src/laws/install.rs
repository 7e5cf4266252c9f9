//! What holds of the probe of the ROCm install.

use vstd::prelude::*;
use vstd::string::*;

use crate::ask::flag_answer;
use crate::examination::ExaminationView;
use crate::host::{DirEntryView, Host, QuestionView};
use crate::install::{
    install_markers, marker_recorded, markers_probed, method_probed, method_settled, package_probed,
    repos_with, rocm_version_in, version_run,
};
use crate::text::{
    find_from, is_digit, lemma_find_from, unwrapped, without_leading, without_trailing,
};

verus! {

/// The method of the install is never left open.
pub proof fn law_method_is_settled(h: Host, e: ExaminationView)
    ensures
        method_probed(h, e) matches Ok(after) ==> after.rocm_install_method.len() > 0,
{
    reveal_strlit("none");
    reveal_strlit("tarball-or-other");
    match markers_probed(h, e, install_markers()) {
        Ok(e1) => match package_probed(h, e1, "dpkg"@, "-l"@, "apt"@) {
            Ok(e2) => match package_probed(h, e2, "rpm"@, "-q"@, "dnf"@) {
                Ok(e3) => {
                    assert(method_settled(e3).rocm_install_method.len() > 0);
                },
                Err(_) => {},
            },
            Err(_) => {},
        },
        Err(_) => {},
    }
}

/// Whether one of the markers is there.
pub open spec fn any_marker(h: Host, markers: Seq<Seq<char>>) -> bool {
    exists|i: int|
        0 <= i < markers.len() && flag_answer(h, QuestionView::Exists(#[trigger] markers[i])) == Ok::<
            bool,
            QuestionView,
        >(true)
}

proof fn lemma_markers(h: Host, e: ExaminationView, markers: Seq<Seq<char>>)
    ensures
        markers_probed(h, e, markers) matches Ok(after) ==> {
            &&& any_marker(h, markers) ==> after.rocm_install_method == "amdgpu-install"@
            &&& !any_marker(h, markers) ==> after == e
        },
    decreases markers.len(),
{
    if markers.len() > 0 {
        let rest = markers.skip(1);
        lemma_markers(h, e, rest);
        lemma_markers(h, marker_recorded(e, markers[0]), rest);
        if any_marker(h, markers) {
            let i = choose|i: int|
                0 <= i < markers.len() && flag_answer(
                    h,
                    QuestionView::Exists(#[trigger] markers[i]),
                ) == Ok::<bool, QuestionView>(true);
            if i > 0 {
                assert(rest[i - 1] == markers[i]);
            }
        }
        if any_marker(h, rest) {
            let i = choose|i: int|
                0 <= i < rest.len() && flag_answer(h, QuestionView::Exists(#[trigger] rest[i]))
                    == Ok::<bool, QuestionView>(true);
            assert(markers[i + 1] == rest[i]);
        }
        lemma_marker_keeps(h, marker_recorded(e, markers[0]), rest);
    }
}

/// Once a marker was found, the method stays.
proof fn lemma_marker_keeps(h: Host, e: ExaminationView, markers: Seq<Seq<char>>)
    requires
        e.rocm_install_method == "amdgpu-install"@,
    ensures
        markers_probed(h, e, markers) matches Ok(after) ==> after.rocm_install_method
            == "amdgpu-install"@,
    decreases markers.len(),
{
    if markers.len() > 0 {
        lemma_marker_keeps(h, e, markers.skip(1));
        lemma_marker_keeps(h, marker_recorded(e, markers[0]), markers.skip(1));
    }
}

/// A marker of `amdgpu-install` decides the method, whatever else is installed.
pub proof fn law_markers_decide_the_method(h: Host, e: ExaminationView)
    requires
        any_marker(h, install_markers()),
    ensures
        method_probed(h, e) matches Ok(after) ==> after.rocm_install_method == "amdgpu-install"@,
{
    lemma_markers(h, e, install_markers());
    reveal_strlit("amdgpu-install");
}

/// The repositories seen before stay in front, and each is listed once.
pub proof fn law_repos_are_listed_once(seen: Seq<Seq<char>>, entries: Seq<DirEntryView>)
    ensures
        repos_with(seen, entries).len() >= seen.len(),
        repos_with(seen, entries).take(seen.len() as int) == seen,
        seen.no_duplicates() ==> repos_with(seen, entries).no_duplicates(),
    decreases entries.len(),
{
    if entries.len() == 0 {
        assert(seen.take(seen.len() as int) =~= seen);
    } else {
        law_repos_are_listed_once(seen, entries.drop_last());
        let before = repos_with(seen, entries.drop_last());
        let path = entries.last().path;
        assert(before.push(path).take(seen.len() as int) =~= before.take(seen.len() as int));
        if seen.no_duplicates() && !before.contains(path) {
            let after = before.push(path);
            assert forall|i: int, j: int|
                0 <= i < after.len() && 0 <= j < after.len() && i != j implies after[i]
                != after[j] by {
                if i == before.len() {
                    assert(before.contains(before[j]));
                } else if j == before.len() {
                    assert(before.contains(before[i]));
                }
            }
        }
    }
}

// ---------------------------------------------------------------------------
// Versions in paths
// ---------------------------------------------------------------------------

/// Whether a text is made of digits and dots.
pub open spec fn is_dotted(s: Seq<char>) -> bool {
    forall|i: int| 0 <= i < s.len() ==> is_digit(#[trigger] s[i]) || s[i] == '.'
}

proof fn lemma_version_run(s: Seq<char>)
    ensures
        is_dotted(version_run(s)),
        version_run(s).len() <= s.len(),
        version_run(s) == s.take(version_run(s).len() as int),
    decreases s.len(),
{
    if s.len() > 0 && (is_digit(s[0]) || s[0] == '.') {
        lemma_version_run(s.skip(1));
        let tail = version_run(s.skip(1));
        let run = version_run(s);
        assert(run =~= s.take(run.len() as int)) by {
            assert forall|i: int| 0 <= i < run.len() implies run[i] == s[i] by {
                if i > 0 {
                    assert(tail[i - 1] == s.skip(1).take(tail.len() as int)[i - 1]);
                }
            }
        }
        assert forall|i: int| 0 <= i < run.len() implies is_digit(#[trigger] run[i]) || run[i]
            == '.' by {
            if i > 0 {
                assert(run[i] == tail[i - 1]);
            }
        }
    } else {
        assert(s.take(0) =~= Seq::empty());
    }
}

proof fn lemma_without_leading(s: Seq<char>, c: char)
    ensures
        ({
            let t = without_leading(s, c);
            &&& t.len() > 0 ==> t[0] != c
            &&& exists|k: int| 0 <= k <= s.len() && t == #[trigger] s.skip(k)
        }),
    decreases s.len(),
{
    if s.len() > 0 && s[0] == c {
        lemma_without_leading(s.skip(1), c);
        let t = without_leading(s, c);
        let k = choose|k: int| 0 <= k <= s.skip(1).len() && t == #[trigger] s.skip(1).skip(k);
        assert(s.skip(1).skip(k) =~= s.skip(k + 1));
    } else {
        assert(s.skip(0) =~= s);
    }
}

proof fn lemma_without_trailing(s: Seq<char>, c: char)
    ensures
        ({
            let t = without_trailing(s, c);
            &&& t.len() > 0 ==> t.last() != c
            &&& exists|k: int| 0 <= k <= s.len() && t == #[trigger] s.take(k)
        }),
    decreases s.len(),
{
    if s.len() > 0 && s.last() == c {
        lemma_without_trailing(s.drop_last(), c);
        let t = without_trailing(s, c);
        let k = choose|k: int| 0 <= k <= s.drop_last().len() && t == #[trigger] s.drop_last().take(k);
        assert(s.drop_last().take(k) =~= s.take(k));
    } else {
        assert(s.take(s.len() as int) =~= s);
    }
}

/// A version that is read out of a path is made of digits and dots, has a dot
/// between digits, and stands in the path behind `rocm-`.
pub proof fn law_versions_stand_in_the_path(path: Seq<char>)
    ensures
        rocm_version_in(path) matches Some(version) ==> {
            &&& is_dotted(version)
            &&& version.contains('.')
            &&& version.len() > 0 && is_digit(version[0]) && is_digit(version.last())
            &&& find_from(path, "rocm-"@, 0) is Some
            &&& exists|k: int|
                #![trigger path.subrange(k, k + version.len())]
                find_from(path, "rocm-"@, 0)->0 + 5 <= k && k + version.len() <= path.len()
                    && path.subrange(k, k + version.len()) == version
        },
{
    match (rocm_version_in(path), find_from(path, "rocm-"@, 0)) {
        (Some(version), Some(i)) => {
            reveal_strlit("rocm-");
            lemma_find_from(path, "rocm-"@, 0);
            let tail = path.skip(i + 5);
            let run = version_run(tail);
            lemma_version_run(tail);
            let lead = without_leading(run, '.');
            lemma_without_leading(run, '.');
            lemma_without_trailing(lead, '.');
            let a = choose|k: int| 0 <= k <= run.len() && lead == #[trigger] run.skip(k);
            let b = choose|k: int| 0 <= k <= lead.len() && version == #[trigger] lead.take(k);
            assert(version == unwrapped(run, '.'));
            assert forall|j: int| 0 <= j < version.len() implies version[j] == run[a + j] by {}
            let at = choose|j: int| 0 <= j < version.len() && version[j] == '.';
            assert(version.len() > 0);
            assert(version[0] == lead[0]);
            assert(is_digit(run[a]) || run[a] == '.');
            let last = version.len() - 1;
            assert(is_digit(run[a + last]) || run[a + last] == '.');
            assert(version[last] == run[a + last]);
            let k = i + 5 + a;
            assert forall|j: int| 0 <= j < version.len() implies path[k + j] == version[j] by {
                assert(run[a + j] == tail.take(run.len() as int)[a + j]);
            }
            assert(path.subrange(k, k + version.len()) =~= version);
        },
        _ => {},
    }
}

} // verus!
