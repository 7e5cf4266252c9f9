//! What holds of the probe of llama.cpp.

use vstd::prelude::*;
use vstd::string::*;

use crate::ask::on_path;
use crate::examination::ExaminationView;
use crate::framework::{llama_probed, llama_recorded};
use crate::host::{CommandOutputView, Host, QuestionView};
use crate::laws::text::{
    all_space, ends_line, holds, is_bare, is_line, law_blank_text, law_clip, law_first_line,
    law_search,
};
use crate::laws::told::{lemma_prints, prints};
use crate::number::decimal_of;

verus! {

broadcast use law_search;

/// Whether a text speaks of the GPU stack.
pub open spec fn speaks_of_hip(s: Seq<char>) -> bool {
    holds(s, "ROCm"@) || holds(s, "HIP"@) || holds(s, "hipBLAS"@)
}

/// Whether nothing changed but the framework with its version, its source and
/// what it was built for, and the notes on it.
pub open spec fn only_named(e: ExaminationView, after: ExaminationView) -> bool {
    after == (ExaminationView {
        framework: after.framework,
        framework_version: after.framework_version,
        framework_rocm_version: after.framework_rocm_version,
        framework_source: after.framework_source,
        framework_notes: after.framework_notes,
        ..e
    })
}

proof fn lemma_either_side(out: Seq<char>, err: Seq<char>, part: Seq<char>)
    ensures
        holds(out, part) || holds(err, part) ==> holds(out + err, part),
{
    if holds(out, part) {
        let (before, after) = choose|before: Seq<char>, after: Seq<char>|
            out == #[trigger] (before + part + after);
        assert(out + err =~= before + part + (after + err));
    }
    if holds(err, part) {
        let (before, after) = choose|before: Seq<char>, after: Seq<char>|
            err == #[trigger] (before + part + after);
        assert(out + err =~= (out + before) + part + after);
    }
}

/// What the binary prints counts on either stream and whatever code it ended
/// with: one that speaks of the GPU stack was built for it.
pub proof fn law_hip_counts_on_either_stream(
    e: ExaminationView,
    binary: Seq<char>,
    rc: i32,
    out: Seq<char>,
    err: Seq<char>,
)
    requires
        speaks_of_hip(out) || speaks_of_hip(err),
    ensures
        ({
            let after = llama_recorded(
                e,
                binary,
                CommandOutputView { rc, stdout: out, stderr: err },
            );
            &&& after.framework == "llama-cpp"@
            &&& after.framework_source == "path"@
            &&& after.framework_rocm_version == "GGML_HIP=ON"@
            &&& after.framework_notes == e.framework_notes
            &&& only_named(e, after)
        }),
{
    lemma_either_side(out, err, "ROCm"@);
    lemma_either_side(out, err, "HIP"@);
    lemma_either_side(out, err, "hipBLAS"@);
    reveal_strlit("ROCm");
    reveal_strlit("HIP");
    reveal_strlit("hipBLAS");
    assert((out + err).len() > 0);
}

/// A binary that answers without a word on the GPU stack is named all the same,
/// and a note says what it does not say.
pub proof fn law_no_hip_is_noted(
    e: ExaminationView,
    binary: Seq<char>,
    rc: i32,
    out: Seq<char>,
    err: Seq<char>,
)
    requires
        !speaks_of_hip(out + err),
        rc == 0 || out.len() > 0 || err.len() > 0,
    ensures
        ({
            let after = llama_recorded(
                e,
                binary,
                CommandOutputView { rc, stdout: out, stderr: err },
            );
            &&& after.framework == "llama-cpp"@
            &&& after.framework_source == "path"@
            &&& after.framework_rocm_version == e.framework_rocm_version
            &&& after.framework_notes == e.framework_notes.push(
                "llama.cpp binary doesn't advertise HIP/ROCm support; was it built with `cmake -DGGML_HIP=ON -DAMDGPU_TARGETS=<gfx>`?"@,
            )
            &&& only_named(e, after)
        }),
{
}

/// A binary that fails without a word is no framework: a note gives its code,
/// and nothing else changes.
pub proof fn law_mute_failure_is_no_framework(e: ExaminationView, binary: Seq<char>, rc: i32)
    requires
        rc != 0,
    ensures
        llama_recorded(
            e,
            binary,
            CommandOutputView { rc, stdout: Seq::empty(), stderr: Seq::empty() },
        ) == (ExaminationView {
            framework_notes: e.framework_notes.push(
                binary + " --version exited rc="@ + decimal_of(rc as int),
            ),
            ..e
        }),
{
    assert((Seq::<char>::empty() + Seq::<char>::empty()).len() == 0);
}

/// The version is the first line that says something, of standard output and
/// standard error in this order, and at most two hundred characters of it.
pub proof fn law_version_is_the_first_line(
    e: ExaminationView,
    binary: Seq<char>,
    rc: i32,
    out: Seq<char>,
    err: Seq<char>,
    lead: Seq<char>,
    line: Seq<char>,
    tail: Seq<char>,
)
    requires
        out + err == lead + line + tail,
        all_space(lead),
        line.len() > 0,
        is_bare(line),
        is_line(line),
        ends_line(tail),
    ensures
        ({
            let version = llama_recorded(
                e,
                binary,
                CommandOutputView { rc, stdout: out, stderr: err },
            ).framework_version;
            &&& version.is_prefix_of(line)
            &&& version.len() == if line.len() < 200 {
                line.len() as int
            } else {
                200
            }
        }),
{
    law_first_line(lead, line, tail);
    law_clip(line, 200);
    assert((out + err).len() > 0);
}

/// With nothing on standard output, standard error alone gives the version: its
/// first line, where that is no longer than two hundred characters.
pub proof fn law_version_on_stderr(
    e: ExaminationView,
    binary: Seq<char>,
    rc: i32,
    line: Seq<char>,
    tail: Seq<char>,
)
    requires
        0 < line.len() <= 200,
        is_bare(line),
        is_line(line),
        ends_line(tail),
    ensures
        llama_recorded(
            e,
            binary,
            CommandOutputView { rc, stdout: Seq::empty(), stderr: line + tail },
        ).framework_version == line,
{
    let none = Seq::<char>::empty();
    assert(none + (line + tail) =~= none + line + tail);
    law_version_is_the_first_line(e, binary, rc, none, line + tail, none, line, tail);
    let version = llama_recorded(
        e,
        binary,
        CommandOutputView { rc, stdout: none, stderr: line + tail },
    ).framework_version;
    assert(version =~= line);
}

/// A binary that succeeds and prints nothing but blanks has a version that is
/// not known.
pub proof fn law_blank_version_is_unknown(
    e: ExaminationView,
    binary: Seq<char>,
    out: Seq<char>,
    err: Seq<char>,
)
    requires
        all_space(out + err),
    ensures
        llama_recorded(
            e,
            binary,
            CommandOutputView { rc: 0, stdout: out, stderr: err },
        ).framework_version == "unknown"@,
{
    law_blank_text(out + err);
}

/// The first of the three binaries that is on `PATH` is asked for its version,
/// within ten seconds, and what it prints is recorded under its name.
pub proof fn law_first_llama_is_asked(
    h: Host,
    e: ExaminationView,
    binary: Seq<char>,
    rc: i32,
    out: Seq<char>,
    err: Seq<char>,
)
    requires
        ({
            let cli = on_path(h, "llama-cli"@);
            let server = on_path(h, "llama-server"@);
            let main = on_path(h, "main"@);
            ||| binary == "llama-cli"@ && cli == Ok::<bool, QuestionView>(true)
            ||| binary == "llama-server"@ && cli == Ok::<bool, QuestionView>(false) && server
                == Ok::<bool, QuestionView>(true)
            ||| binary == "main"@ && cli == Ok::<bool, QuestionView>(false) && server == Ok::<
                bool,
                QuestionView,
            >(false) && main == Ok::<bool, QuestionView>(true)
        }),
        prints(h, binary, seq!["--version"@], 10, rc, out, err),
    ensures
        llama_probed(h, e) == Ok::<ExaminationView, QuestionView>(
            llama_recorded(e, binary, CommandOutputView { rc, stdout: out, stderr: err }),
        ),
{
    lemma_prints(h, binary, seq!["--version"@], 10, rc, out, err);
}

/// Without any of the three binaries a note says so, and nothing else changes.
pub proof fn law_no_llama_is_noted(h: Host, e: ExaminationView)
    requires
        on_path(h, "llama-cli"@) == Ok::<bool, QuestionView>(false),
        on_path(h, "llama-server"@) == Ok::<bool, QuestionView>(false),
        on_path(h, "main"@) == Ok::<bool, QuestionView>(false),
    ensures
        llama_probed(h, e) == Ok::<ExaminationView, QuestionView>(
            ExaminationView {
                framework_notes: e.framework_notes.push(
                    "No llama.cpp binary (llama-cli/llama-server/main) on PATH."@,
                ),
                ..e
            },
        ),
{
}

} // verus!
