//! What holds of the probe of PyTorch.

use vstd::prelude::*;
use vstd::string::*;

use crate::ask::on_path;
use crate::examination::{ExaminationView, FrameworkProbe};
use crate::framework::{
    framework_probed, llama_probed, path_torch_probed, present_texts, pytorch_recorded,
    report_recorded, runtime_torch_probed, torch_report, FrameworkInterpreterView, TorchReportView,
    PYTORCH_PROBE,
};
use crate::host::{CommandOutputView, CommandView, Host, LoaderPathView, QuestionView, ReplyView};
use crate::json::{json_flag, json_text, json_texts, json_valid};
use crate::laws::text::{
    all_space, is_bare, is_line, law_blank_text, law_clip, law_last_line, law_search,
};
use crate::laws::told::{law_output_is_read, lemma_prints, printing, prints, tells};
use crate::text::{clipped, trimmed};

verus! {

broadcast use law_search;

// ---------------------------------------------------------------------------
// The report
// ---------------------------------------------------------------------------

/// The items of a list that are texts are kept in order, and the others are
/// left out.
pub proof fn law_texts_are_kept(items: Seq<Option<Seq<char>>>, text: Seq<char>)
    ensures
        present_texts(items.push(Some(text))) == present_texts(items).push(text),
        present_texts(items.push(None)) == present_texts(items),
        present_texts(Seq::empty()) == Seq::<Seq<char>>::empty(),
{
    assert(items.push(Some(text)).drop_last() =~= items);
    assert(items.push(None).drop_last() =~= items);
}

/// The texts alone, each of them present.
pub open spec fn present(texts: Seq<Seq<char>>) -> Seq<Option<Seq<char>>> {
    Seq::new(texts.len(), |i: int| Some(texts[i]))
}

/// A list of nothing but texts is kept whole.
pub proof fn law_list_of_texts_is_kept(texts: Seq<Seq<char>>)
    ensures
        present_texts(present(texts)) == texts,
    decreases texts.len(),
{
    if texts.len() > 0 {
        law_list_of_texts_is_kept(texts.drop_last());
        assert(present(texts).drop_last() =~= present(texts.drop_last()));
        assert(texts.drop_last().push(texts.last()) =~= texts);
    } else {
        assert(present_texts(present(texts)) =~= texts);
    }
}

/// A report that torch was imported fills in the framework, its version, what it
/// was built for and its architectures, and nothing else but notes.
pub proof fn law_imported_torch_is_recorded(e: ExaminationView, report: TorchReportView)
    requires
        report.ok == Some(true),
    ensures
        ({
            let after = report_recorded(e, report);
            let hip = report.hip is Some && report.hip->0.len() > 0;
            let cuda = !hip && report.cuda is Some && report.cuda->0.len() > 0;
            &&& after.framework == "pytorch"@
            &&& report.version matches Some(version) ==> after.framework_version == version
            &&& report.version is None ==> after.framework_version == Seq::<char>::empty()
            &&& hip ==> after.framework_rocm_version == "hip="@ + report.hip->0
            &&& cuda ==> after.framework_rocm_version == "cuda="@ + report.cuda->0
            &&& !hip && !cuda ==> after.framework_rocm_version == e.framework_rocm_version
            &&& report.arch_list matches Some(items) ==> after.framework_arch_list == present_texts(
                items,
            )
            &&& report.arch_list is None ==> after.framework_arch_list == e.framework_arch_list
            &&& after.framework_notes == e.framework_notes + (if cuda {
                seq![
                    "This torch wheel is a CUDA build, not a ROCm build. Reinstall from the ROCm wheel index."@,
                ]
            } else {
                Seq::empty()
            }) + (if report.is_available == Some(false) {
                seq!["torch.cuda.is_available() returned False -- runtime can't see a GPU."@]
            } else {
                Seq::empty()
            })
            &&& after == (ExaminationView {
                framework: after.framework,
                framework_version: after.framework_version,
                framework_rocm_version: after.framework_rocm_version,
                framework_arch_list: after.framework_arch_list,
                framework_notes: after.framework_notes,
                ..e
            })
        }),
{
    let after = report_recorded(e, report);
    let hip = report.hip is Some && report.hip->0.len() > 0;
    let cuda = !hip && report.cuda is Some && report.cuda->0.len() > 0;
    let built = if cuda {
        seq![
            "This torch wheel is a CUDA build, not a ROCm build. Reinstall from the ROCm wheel index."@,
        ]
    } else {
        Seq::<Seq<char>>::empty()
    };
    let seen = if report.is_available == Some(false) {
        seq!["torch.cuda.is_available() returned False -- runtime can't see a GPU."@]
    } else {
        Seq::<Seq<char>>::empty()
    };
    assert(after.framework_notes =~= e.framework_notes + built + seen);
}

/// A report of anything else is one of failure: a note gives the error, or says
/// that it is not known, and nothing else changes.
pub proof fn law_failed_import_is_noted(e: ExaminationView, report: TorchReportView)
    requires
        report.ok != Some(true),
    ensures
        report.error matches Some(error) ==> report_recorded(e, report) == (ExaminationView {
            framework_notes: e.framework_notes.push("torch import failed: "@ + error),
            ..e
        }),
        report.error is None ==> report_recorded(e, report) == (ExaminationView {
            framework_notes: e.framework_notes.push("torch import failed: "@ + "unknown"@),
            ..e
        }),
{
}

/// What the interpreter prints as JSON, whatever blanks stand around it, is read
/// as the report: each field under its own key.
pub proof fn law_report_is_read(e: ExaminationView, out: CommandOutputView, report: TorchReportView)
    requires
        trimmed(out.stdout).len() > 0,
        json_valid(trimmed(out.stdout)),
        report.ok == json_flag(trimmed(out.stdout), "ok"@),
        report.error == json_text(trimmed(out.stdout), "error"@),
        report.version == json_text(trimmed(out.stdout), "version"@),
        report.hip == json_text(trimmed(out.stdout), "hip"@),
        report.cuda == json_text(trimmed(out.stdout), "cuda"@),
        report.arch_list == json_texts(trimmed(out.stdout), "arch_list"@),
        report.is_available == json_flag(trimmed(out.stdout), "is_available"@),
    ensures
        pytorch_recorded(e, out) == report_recorded(e, report),
{
    assert(torch_report(trimmed(out.stdout)) == Some(report));
}

/// What the interpreter prints that is no JSON is quoted in a note, at most two
/// hundred characters of it, and nothing else changes.
pub proof fn law_babble_is_quoted(e: ExaminationView, out: CommandOutputView)
    requires
        trimmed(out.stdout).len() > 0,
        !json_valid(trimmed(out.stdout)),
    ensures
        exists|quoted: Seq<char>|
            {
                &&& quoted.is_prefix_of(out.stdout)
                &&& quoted.len() == if out.stdout.len() < 200 {
                    out.stdout.len() as int
                } else {
                    200
                }
                &&& pytorch_recorded(e, out) == (ExaminationView {
                    framework_notes: e.framework_notes.push(
                        #[trigger] ("torch probe returned non-JSON: "@ + quoted),
                    ),
                    ..e
                })
            },
{
    law_clip(out.stdout, 200);
    let quoted = clipped(out.stdout, 200);
    assert(pytorch_recorded(e, out) == (ExaminationView {
        framework_notes: e.framework_notes.push("torch probe returned non-JSON: "@ + quoted),
        ..e
    }));
}

/// An interpreter that prints nothing is no framework. The note tells one that
/// could not be started, one that ran out of time and one of a managed runtime
/// apart, and where it complained the last line of that follows, at most two
/// hundred characters of it.
pub proof fn law_silence_is_explained(
    e: ExaminationView,
    rc: i32,
    out: Seq<char>,
    blank: Seq<char>,
    before: Seq<char>,
    line: Seq<char>,
    trail: Seq<char>,
)
    requires
        all_space(out),
        all_space(blank),
        before.len() > 0 ==> before.last() == '\n',
        line.len() > 0,
        is_bare(line),
        is_line(line),
        all_space(trail),
    ensures
        ({
            let note = if rc == 127 {
                "The torch probe interpreter could not be started."@
            } else if rc == 124 {
                "The torch probe timed out."@
            } else if e.framework_source == "managed-runtime"@ {
                "The active managed runtime's interpreter returned nothing for the torch probe."@
            } else {
                "Could not import torch; if PyTorch is in a venv, activate it and re-run inside that venv."@
            };
            let said = if line.len() <= 200 {
                line
            } else {
                line.take(200)
            };
            &&& pytorch_recorded(
                e,
                CommandOutputView { rc, stdout: out, stderr: blank },
            ) == (ExaminationView { framework_notes: e.framework_notes.push(note), ..e })
            &&& pytorch_recorded(
                e,
                CommandOutputView { rc, stdout: out, stderr: before + line + trail },
            ) == (ExaminationView {
                framework_notes: e.framework_notes.push(note).push("python stderr: "@ + said),
                ..e
            })
        }),
{
    law_blank_text(out);
    law_blank_text(blank);
    law_last_line(before, line, trail);
}

// ---------------------------------------------------------------------------
// The interpreter on PATH
// ---------------------------------------------------------------------------

/// The question that an interpreter on `PATH` run the script.
pub open spec fn script_printed(
    h: Host,
    py: Seq<char>,
    rc: i32,
    out: Seq<char>,
    err: Seq<char>,
) -> bool {
    prints(h, py, seq!["-c"@, PYTORCH_PROBE@], 20, rc, out, err)
}

/// A `python` that succeeds and prints something answers for torch, and so does
/// any `python` where there is no `python3`.
pub proof fn law_python_is_asked_first(
    h: Host,
    e: ExaminationView,
    rc: i32,
    out: Seq<char>,
    err: Seq<char>,
)
    requires
        on_path(h, "python"@) == Ok::<bool, QuestionView>(true),
        script_printed(h, "python"@, rc, out, err),
        rc == 0 && trimmed(out).len() > 0 || on_path(h, "python3"@) == Ok::<bool, QuestionView>(
            false,
        ),
    ensures
        path_torch_probed(h, e) == Ok::<ExaminationView, QuestionView>(
            pytorch_recorded(
                ExaminationView { framework_source: "path"@, ..e },
                CommandOutputView { rc, stdout: out, stderr: err },
            ),
        ),
{
    lemma_prints(h, "python"@, seq!["-c"@, PYTORCH_PROBE@], 20, rc, out, err);
}

/// Where `python` fails or prints nothing, `python3` is asked as well: it
/// answers for torch where it prints something, and else `python` does.
pub proof fn law_python3_is_asked_next(
    h: Host,
    e: ExaminationView,
    rc: i32,
    out: Seq<char>,
    err: Seq<char>,
    rc3: i32,
    out3: Seq<char>,
    err3: Seq<char>,
)
    requires
        on_path(h, "python"@) == Ok::<bool, QuestionView>(true),
        script_printed(h, "python"@, rc, out, err),
        rc != 0 || trimmed(out).len() == 0,
        on_path(h, "python3"@) == Ok::<bool, QuestionView>(true),
        script_printed(h, "python3"@, rc3, out3, err3),
    ensures
        path_torch_probed(h, e) == Ok::<ExaminationView, QuestionView>(
            pytorch_recorded(
                ExaminationView { framework_source: "path"@, ..e },
                if trimmed(out3).len() > 0 {
                    CommandOutputView { rc: rc3, stdout: out3, stderr: err3 }
                } else {
                    CommandOutputView { rc, stdout: out, stderr: err }
                },
            ),
        ),
{
    lemma_prints(h, "python"@, seq!["-c"@, PYTORCH_PROBE@], 20, rc, out, err);
    lemma_prints(h, "python3"@, seq!["-c"@, PYTORCH_PROBE@], 20, rc3, out3, err3);
}

/// Without a `python`, `python3` answers for torch whatever it comes to.
pub proof fn law_python3_stands_in(
    h: Host,
    e: ExaminationView,
    rc: i32,
    out: Seq<char>,
    err: Seq<char>,
)
    requires
        on_path(h, "python"@) == Ok::<bool, QuestionView>(false),
        on_path(h, "python3"@) == Ok::<bool, QuestionView>(true),
        script_printed(h, "python3"@, rc, out, err),
    ensures
        path_torch_probed(h, e) == Ok::<ExaminationView, QuestionView>(
            pytorch_recorded(
                ExaminationView { framework_source: "path"@, ..e },
                CommandOutputView { rc, stdout: out, stderr: err },
            ),
        ),
{
    lemma_prints(h, "python3"@, seq!["-c"@, PYTORCH_PROBE@], 20, rc, out, err);
    reveal_strlit("python");
    reveal_strlit("python3");
    assert("python"@.len() != "python3"@.len());
}

/// Without an interpreter a note says so, and nothing else changes.
pub proof fn law_no_python_is_noted(h: Host, e: ExaminationView)
    requires
        on_path(h, "python"@) == Ok::<bool, QuestionView>(false),
        on_path(h, "python3"@) == Ok::<bool, QuestionView>(false),
    ensures
        path_torch_probed(h, e) == Ok::<ExaminationView, QuestionView>(
            ExaminationView {
                framework_notes: e.framework_notes.push(
                    "No python interpreter found to probe torch."@,
                ),
                ..e
            },
        ),
{
}

// ---------------------------------------------------------------------------
// The interpreter of a managed runtime
// ---------------------------------------------------------------------------

/// `e` with the interpreter of a managed runtime as what is asked.
pub open spec fn asked_in_runtime(e: ExaminationView, python: Seq<char>) -> ExaminationView {
    ExaminationView {
        framework_source: "managed-runtime"@,
        framework_notes: e.framework_notes.push(
            "Probed torch with the active managed runtime's interpreter: "@ + python,
        ),
        ..e
    }
}

/// The interpreter of a runtime without library directories is run in the
/// environment as it is.
pub proof fn law_runtime_is_asked(
    h: Host,
    e: ExaminationView,
    python: Seq<char>,
    rc: i32,
    out: Seq<char>,
    err: Seq<char>,
)
    requires
        script_printed(h, python, rc, out, err),
    ensures
        runtime_torch_probed(
            h,
            e,
            FrameworkInterpreterView { python, library_paths: Seq::empty() },
        ) == Ok::<ExaminationView, QuestionView>(
            pytorch_recorded(
                asked_in_runtime(e, python),
                CommandOutputView { rc, stdout: out, stderr: err },
            ),
        ),
{
    lemma_prints(h, python, seq!["-c"@, PYTORCH_PROBE@], 20, rc, out, err);
}

/// The interpreter of a runtime with library directories is run with these on
/// its loader path, ahead of what the host has there.
pub proof fn law_runtime_gets_its_libraries(
    h: Host,
    e: ExaminationView,
    interpreter: FrameworkInterpreterView,
    existing: Option<Seq<Seq<char>>>,
    entries: Seq<Seq<char>>,
    variable: Seq<char>,
    value: Seq<char>,
    rc: i32,
    out: Seq<char>,
    err: Seq<char>,
)
    requires
        interpreter.library_paths.len() > 0,
        tells(h, QuestionView::LoaderPathEntries, ReplyView::Paths(existing)),
        existing is None ==> entries == interpreter.library_paths,
        existing matches Some(paths) ==> entries == interpreter.library_paths + paths,
        tells(
            h,
            QuestionView::JoinLoaderPath(entries),
            ReplyView::LoaderPath(LoaderPathView { variable, composed: Ok(value) }),
        ),
        tells(
            h,
            QuestionView::Run(
                CommandView {
                    program: interpreter.python,
                    args: seq!["-c"@, PYTORCH_PROBE@],
                    envs: seq![(variable, value)],
                    timeout_secs: 20,
                },
            ),
            printing(rc, out, err),
        ),
    ensures
        runtime_torch_probed(h, e, interpreter) == Ok::<ExaminationView, QuestionView>(
            pytorch_recorded(
                asked_in_runtime(e, interpreter.python),
                CommandOutputView { rc, stdout: out, stderr: err },
            ),
        ),
{
    law_output_is_read(
        h,
        CommandView {
            program: interpreter.python,
            args: seq!["-c"@, PYTORCH_PROBE@],
            envs: seq![(variable, value)],
            timeout_secs: 20,
        },
        rc,
        out,
        err,
    );
}

/// Where the loader path cannot be put together, a note gives the reason, and
/// the interpreter is run without it.
pub proof fn law_runtime_without_its_libraries(
    h: Host,
    e: ExaminationView,
    interpreter: FrameworkInterpreterView,
    entries: Seq<Seq<char>>,
    variable: Seq<char>,
    reason: Seq<char>,
    rc: i32,
    out: Seq<char>,
    err: Seq<char>,
)
    requires
        interpreter.library_paths.len() > 0,
        tells(h, QuestionView::LoaderPathEntries, ReplyView::Paths(Some(entries))),
        tells(
            h,
            QuestionView::JoinLoaderPath(interpreter.library_paths + entries),
            ReplyView::LoaderPath(LoaderPathView { variable, composed: Err(reason) }),
        ),
        script_printed(h, interpreter.python, rc, out, err),
    ensures
        ({
            let asked = asked_in_runtime(e, interpreter.python);
            runtime_torch_probed(h, e, interpreter) == Ok::<ExaminationView, QuestionView>(
                pytorch_recorded(
                    ExaminationView {
                        framework_notes: asked.framework_notes.push(
                            "Could not compose "@ + variable + " for the runtime's interpreter ("@
                                + reason
                                + "); its torch may fail to load the runtime's ROCm libraries."@,
                        ),
                        ..asked
                    },
                    CommandOutputView { rc, stdout: out, stderr: err },
                ),
            )
        }),
{
    lemma_prints(h, interpreter.python, seq!["-c"@, PYTORCH_PROBE@], 20, rc, out, err);
}

// ---------------------------------------------------------------------------
// Which framework
// ---------------------------------------------------------------------------

/// Each kind of probe asks for what it is named after: torch in the runtime
/// where there is one and on `PATH` otherwise, llama.cpp, or nothing.
pub proof fn law_probes_ask_for_their_framework(
    h: Host,
    e: ExaminationView,
    interpreter: FrameworkInterpreterView,
)
    ensures
        framework_probed(h, e, FrameworkProbe::PyTorch, Some(interpreter)) == runtime_torch_probed(
            h,
            e,
            interpreter,
        ),
        framework_probed(h, e, FrameworkProbe::PyTorch, None) == path_torch_probed(h, e),
        framework_probed(h, e, FrameworkProbe::LlamaCpp, Some(interpreter)) == llama_probed(h, e),
        framework_probed(h, e, FrameworkProbe::LlamaCpp, None) == llama_probed(h, e),
        framework_probed(h, e, FrameworkProbe::Skip, None) == Ok::<ExaminationView, QuestionView>(
            ExaminationView { framework: "skipped"@, ..e },
        ),
{
}

/// Left to itself, the probe takes torch where it answers, and asks llama.cpp
/// where it does not; with no interpreter at all only llama.cpp is asked.
pub proof fn law_torch_is_preferred(
    h: Host,
    e: ExaminationView,
    interpreter: Option<FrameworkInterpreterView>,
    asked: ExaminationView,
)
    ensures
        ({
            let torch = framework_probed(h, e, FrameworkProbe::PyTorch, interpreter);
            let auto = framework_probed(h, e, FrameworkProbe::Auto, interpreter);
            let none = interpreter is None && on_path(h, "python"@) == Ok::<bool, QuestionView>(
                false,
            ) && on_path(h, "python3"@) == Ok::<bool, QuestionView>(false);
            &&& none ==> auto == llama_probed(h, e)
            &&& !none && torch == Ok::<ExaminationView, QuestionView>(asked) && asked.framework
                == "pytorch"@ ==> auto == torch
            &&& !none && torch == Ok::<ExaminationView, QuestionView>(asked) && asked.framework
                != "pytorch"@ ==> auto == llama_probed(h, asked)
        }),
{
}

} // verus!
