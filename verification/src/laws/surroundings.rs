//! What holds of the probes of environment, container and kernel log.

use vstd::prelude::*;
use vstd::string::*;

use crate::ask::optional_text_answer;
use crate::examination::ExaminationView;
use crate::host::{FilesystemStats, Host, QuestionView};
use crate::surroundings::{
    captured, container_probed, driver_troubles, hip_libs_recorded, log_recorded, size_in_bytes,
    tracked_env_vars, truncated, variable_recorded, variables_probed, ENV_VALUE_MAX_CHARS,
};
use crate::split::lines_of;

verus! {

/// A value that fits is kept verbatim. One that does not is cut between
/// characters, and the marker says so.
pub proof fn law_truncation(value: Seq<char>, max_chars: int)
    requires
        0 <= max_chars,
    ensures
        value.len() <= max_chars ==> truncated(value, max_chars) == value,
        value.len() > max_chars ==> {
            &&& truncated(value, max_chars).len() == max_chars + "...[truncated]"@.len()
            &&& truncated(value, max_chars).take(max_chars) == value.take(max_chars)
            &&& truncated(value, max_chars).skip(max_chars) == "...[truncated]"@
        },
{
    if value.len() > max_chars {
        assert(truncated(value, max_chars).take(max_chars) =~= value.take(max_chars));
        assert(truncated(value, max_chars).skip(max_chars) =~= "...[truncated]"@);
    }
}

/// Every variable but the two search paths is captured verbatim.
pub proof fn law_variables_are_verbatim(key: Seq<char>, value: Seq<char>)
    ensures
        key != "PATH"@ && key != "LD_LIBRARY_PATH"@ ==> captured(key, value) == value,
        value.len() <= ENV_VALUE_MAX_CHARS ==> captured(key, value) == value,
{
}

proof fn lemma_captured(h: Host, e: ExaminationView, keys: Seq<Seq<char>>, key: Seq<char>)
    ensures
        variables_probed(h, e, keys) matches Ok(after) ==> {
            &&& keys.contains(key) ==> (match optional_text_answer(h, QuestionView::EnvVar(key)) {
                Ok(Some(value)) => after.env.contains_key(key) && after.env[key] == captured(
                    key,
                    value,
                ),
                Ok(None) => after.env.contains_key(key) == e.env.contains_key(key)
                    && after.env[key] == e.env[key],
                Err(_) => false,
            })
            &&& !keys.contains(key) ==> after.env.contains_key(key) == e.env.contains_key(key)
                && after.env[key] == e.env[key]
        },
    decreases keys.len(),
{
    if keys.len() > 0 {
        let rest = keys.skip(1);
        assert(keys.contains(key) == (keys[0] == key || rest.contains(key))) by {
            if keys.contains(key) {
                let i = choose|i: int| 0 <= i < keys.len() && keys[i] == key;
                if i > 0 {
                    assert(rest[i - 1] == key);
                }
            }
            if rest.contains(key) {
                let i = choose|i: int| 0 <= i < rest.len() && rest[i] == key;
                assert(keys[i + 1] == key);
            }
        }
        match optional_text_answer(h, QuestionView::EnvVar(keys[0])) {
            Ok(value) => {
                lemma_captured(h, variable_recorded(e, keys[0], value), rest, key);
            },
            Err(_) => {},
        }
    }
}

/// The environment of a fresh examination holds exactly the tracked variables
/// that are set, each as it is to be captured.
pub proof fn law_environment_is_what_is_set(h: Host, e: ExaminationView, key: Seq<char>)
    requires
        e.env == Map::<Seq<char>, Seq<char>>::empty(),
    ensures
        variables_probed(h, e, tracked_env_vars()) matches Ok(after) ==> {
            &&& after.env.contains_key(key) <==> tracked_env_vars().contains(key) && (
            optional_text_answer(h, QuestionView::EnvVar(key)) matches Ok(Some(_)))
            &&& after.env.contains_key(key) ==> (optional_text_answer(h, QuestionView::EnvVar(key))
                matches Ok(Some(value)) && after.env[key] == captured(key, value))
        },
{
    lemma_captured(h, e, tracked_env_vars(), key);
}

/// A hit on the loader path is a yes and leaves a note; an empty loader path
/// leaves the question open.
pub proof fn law_hip_libs_are_told(e: ExaminationView, ld: Seq<char>, hit: Option<Seq<char>>)
    ensures
        ({
            let after = hip_libs_recorded(e, ld, hit);
            &&& after.hip_libs_on_ld_path == Some(true) <==> hit is Some
            &&& after.hip_libs_on_ld_path is None <==> hit is None && ld.len() == 0
            &&& after.notes.len() == e.notes.len() + if hit is Some {
                1int
            } else {
                0int
            }
        }),
{
}

/// A filesystem is measured exactly where its sizes fit, and then to the byte.
pub proof fn law_sizes_are_exact(stats: FilesystemStats)
    ensures
        match size_in_bytes(stats) {
            Some((total, available)) => total == stats.fragment_size * stats.blocks && available
                == stats.fragment_size * stats.available,
            None => stats.fragment_size * stats.blocks > u64::MAX || stats.fragment_size
                * stats.available > u64::MAX,
        },
{
    assert(0 <= stats.fragment_size * stats.blocks) by (nonlinear_arith)
        requires
            stats.fragment_size >= 0,
            stats.blocks >= 0,
    ;
    assert(0 <= stats.fragment_size * stats.available) by (nonlinear_arith)
        requires
            stats.fragment_size >= 0,
            stats.available >= 0,
    ;
}

proof fn lemma_troubles_are_clipped(lines: Seq<Seq<char>>)
    ensures
        forall|i: int|
            0 <= i < driver_troubles(lines).len() ==> (#[trigger] driver_troubles(lines)[i]).len()
                <= 300,
    decreases lines.len(),
{
    if lines.len() > 0 {
        lemma_troubles_are_clipped(lines.drop_last());
        let before = driver_troubles(lines.drop_last());
        assert forall|i: int| 0 <= i < driver_troubles(lines).len() implies (
        #[trigger] driver_troubles(lines)[i]).len() <= 300 by {
            if i < before.len() {
                assert(driver_troubles(lines)[i] == before[i]);
            }
        }
    }
}

/// The tail of the kernel log is bounded: at most fifteen lines of at most three
/// hundred characters, and they are the last ones.
pub proof fn law_log_tail_is_bounded(e: ExaminationView, text: Seq<char>)
    requires
        text.len() > 0,
    ensures
        ({
            let tail = log_recorded(e, text).dmesg_amdgpu_tail;
            let all = driver_troubles(lines_of(text));
            &&& tail.len() <= 15
            &&& tail.len() == 15 || tail == all
            &&& forall|i: int| 0 <= i < tail.len() ==> (#[trigger] tail[i]).len() <= 300
            &&& forall|i: int|
                0 <= i < tail.len() ==> #[trigger] tail[i] == all[all.len() - tail.len() + i]
        }),
{
    lemma_troubles_are_clipped(lines_of(text));
}

/// A host with a container's marker is in a container of a known kind.
pub proof fn law_containers_have_a_kind(h: Host, e: ExaminationView)
    requires
        !e.in_container,
    ensures
        container_probed(h, e) matches Ok(after) ==> after.in_container
            ==> after.container_kind.len() > 0,
{
    reveal_strlit("docker");
    reveal_strlit("podman");
    reveal_strlit("container");
}

} // verus!
