//! What holds of the framework probes.

use vstd::prelude::*;
use vstd::string::*;

use crate::ask::output_answer;
use crate::examination::{ExaminationView, FrameworkProbe};
use crate::framework::{
    framework_probed, library_env_probed, llama_probed, loader_entries, path_torch_probed,
    python_on_path, pytorch_probed, pytorch_recorded, report_recorded, runtime_noted,
    runtime_torch_probed, script_answer, script_args, silence_note, torch_report,
    FrameworkInterpreterView, TorchReportView, TORCH_SECS,
};
use crate::host::{CommandOutputView, CommandView, Host, QuestionView};
use crate::text::trimmed;

verus! {

/// The words that the framework fields are told apart by differ.
pub proof fn lemma_words()
    ensures
        "pytorch"@ != "llama-cpp"@,
        "pytorch"@ != "unknown"@,
        "pytorch"@ != "skipped"@,
        "llama-cpp"@ != "unknown"@,
        "llama-cpp"@ != "skipped"@,
        "path"@ != "managed-runtime"@,
        "path"@.len() > 0,
        "managed-runtime"@.len() > 0,
{
    reveal_strlit("pytorch");
    reveal_strlit("llama-cpp");
    reveal_strlit("unknown");
    reveal_strlit("skipped");
    reveal_strlit("path");
    reveal_strlit("managed-runtime");
    assert("path"@.len() != "managed-runtime"@.len());
    assert("pytorch"@[0] != "unknown"@[0]);
    assert("pytorch"@[0] != "skipped"@[0]);
}

/// Skipping the frameworks asks nothing and changes nothing but the name of the
/// framework.
pub proof fn law_skipping_asks_nothing(
    h: Host,
    e: ExaminationView,
    interpreter: Option<FrameworkInterpreterView>,
)
    ensures
        framework_probed(h, e, FrameworkProbe::Skip, interpreter) == Ok::<
            ExaminationView,
            QuestionView,
        >(ExaminationView { framework: "skipped"@, ..e }),
{
}

proof fn lemma_report_source(e: ExaminationView, report: TorchReportView)
    ensures
        ({
            let after = report_recorded(e, report);
            &&& after.framework_source == e.framework_source
            &&& after.framework == "pytorch"@ || after.framework == e.framework
        }),
{
}

proof fn lemma_recorded_source(e: ExaminationView, out: CommandOutputView)
    ensures
        ({
            let after = pytorch_recorded(e, out);
            &&& after.framework_source == e.framework_source
            &&& after.framework == "pytorch"@ || after.framework == e.framework
        }),
{
    match torch_report(trimmed(out.stdout)) {
        Some(report) => {
            lemma_report_source(e, report);
        },
        None => {},
    }
}

proof fn lemma_runtime_source(h: Host, e: ExaminationView, interpreter: FrameworkInterpreterView)
    ensures
        runtime_torch_probed(h, e, interpreter) matches Ok(after) ==> {
            &&& after.framework_source == "managed-runtime"@
            &&& after.framework == "pytorch"@ || after.framework == e.framework
        },
{
    let noted = runtime_noted(e, interpreter.python);
    match library_env_probed(h, noted, interpreter.library_paths) {
        Ok((composed, envs)) => {
            assert(composed.framework_source == "managed-runtime"@);
            assert(composed.framework == e.framework);
            let command = CommandView {
                program: interpreter.python,
                args: script_args(),
                envs,
                timeout_secs: TORCH_SECS,
            };
            match output_answer(h, command) {
                Ok(out) => {
                    lemma_recorded_source(composed, out);
                },
                Err(_) => {},
            }
        },
        Err(_) => {},
    }
}

proof fn lemma_path_source(h: Host, e: ExaminationView)
    ensures
        path_torch_probed(h, e) matches Ok(after) ==> {
            ||| after.framework_source == e.framework_source && after.framework == e.framework
            ||| after.framework_source == "path"@ && (after.framework == "pytorch"@
                || after.framework == e.framework)
        },
{
    match python_on_path(h) {
        Ok(Some(py)) => match script_answer(h, py) {
            Ok(out) => {
                lemma_recorded_source(ExaminationView { framework_source: "path"@, ..e }, out);
            },
            Err(_) => {},
        },
        _ => {},
    }
}

proof fn lemma_llama_source(h: Host, e: ExaminationView)
    ensures
        llama_probed(h, e) matches Ok(after) ==> {
            ||| after.framework_source == e.framework_source && after.framework == e.framework
            ||| after.framework_source == "path"@ && after.framework == "llama-cpp"@
        },
{
}

/// The framework probe, started on a blank examination, tells truthfully which
/// interpreter answered.
pub proof fn law_source_is_told(
    h: Host,
    e: ExaminationView,
    framework: FrameworkProbe,
    interpreter: Option<FrameworkInterpreterView>,
)
    requires
        e.framework == "unknown"@,
        e.framework_source == Seq::<char>::empty(),
    ensures
        framework_probed(h, e, framework, interpreter) matches Ok(after) ==> {
            &&& after.framework_source == Seq::<char>::empty() || after.framework_source == "path"@
                || after.framework_source == "managed-runtime"@
            &&& after.framework == "pytorch"@ && interpreter is Some ==> after.framework_source
                == "managed-runtime"@
            &&& after.framework == "pytorch"@ && interpreter is None ==> after.framework_source
                == "path"@
            &&& after.framework == "llama-cpp"@ ==> after.framework_source == "path"@
            &&& interpreter is None ==> after.framework_source != "managed-runtime"@
        },
{
    lemma_words();
    lemma_llama_source(h, e);
    match interpreter {
        Some(i) => {
            lemma_runtime_source(h, e, i);
        },
        None => {
            lemma_path_source(h, e);
        },
    }
    match pytorch_probed(h, e, interpreter) {
        Ok(asked) => {
            lemma_llama_source(h, asked);
        },
        Err(_) => {},
    }
}

/// Torch that is asked in a managed runtime is asked nowhere else: no answer but
/// those on the loader path and on that interpreter matters.
pub proof fn law_runtime_never_falls_back(
    h: Host,
    other: Host,
    e: ExaminationView,
    interpreter: FrameworkInterpreterView,
)
    requires
        forall|q: QuestionView|
            q is LoaderPathEntries || q is JoinLoaderPath || (q is Run && q->Run_0.program
                == interpreter.python) ==> {
                &&& h.dom().contains(q) == #[trigger] other.dom().contains(q)
                &&& h.dom().contains(q) ==> h[q] == other[q]
            },
    ensures
        framework_probed(h, e, FrameworkProbe::PyTorch, Some(interpreter)) == framework_probed(
            other,
            e,
            FrameworkProbe::PyTorch,
            Some(interpreter),
        ),
{
    let noted = runtime_noted(e, interpreter.python);
    assert(library_env_probed(h, noted, interpreter.library_paths) == library_env_probed(
        other,
        noted,
        interpreter.library_paths,
    ));
    match library_env_probed(h, noted, interpreter.library_paths) {
        Ok((composed, envs)) => {
            let command = CommandView {
                program: interpreter.python,
                args: script_args(),
                envs,
                timeout_secs: TORCH_SECS,
            };
            assert(output_answer(h, command) == output_answer(other, command));
        },
        Err(_) => {},
    }
}

/// The runtime's own directories come ahead of what the host has on its loader
/// path, and nothing is lost or added.
pub proof fn law_runtime_entries_come_first(
    library_paths: Seq<Seq<char>>,
    existing: Option<Seq<Seq<char>>>,
)
    ensures
        loader_entries(library_paths, existing).take(library_paths.len() as int) == library_paths,
        existing matches Some(entries) ==> loader_entries(library_paths, existing).skip(
            library_paths.len() as int,
        ) == entries,
        existing is None ==> loader_entries(library_paths, existing) == library_paths,
{
    assert(loader_entries(library_paths, existing).take(library_paths.len() as int)
        =~= library_paths);
    match existing {
        Some(entries) => {
            assert(loader_entries(library_paths, existing).skip(library_paths.len() as int)
                =~= entries);
        },
        None => {},
    }
}

/// An interpreter that says nothing never makes a framework: its silence is
/// noted, and the fields stay as they were.
pub proof fn law_silence_is_no_framework(e: ExaminationView, out: CommandOutputView)
    requires
        trimmed(out.stdout).len() == 0,
    ensures
        ({
            let after = pytorch_recorded(e, out);
            &&& after.framework == e.framework
            &&& after.framework_version == e.framework_version
            &&& after.framework_notes.len() > e.framework_notes.len()
            &&& after.framework_notes[e.framework_notes.len() as int] == silence_note(
                out.rc,
                e.framework_source,
            )
        }),
{
}

/// A report that torch was imported makes the framework torch, and any other
/// report leaves it as it was.
pub proof fn law_only_an_import_makes_torch(e: ExaminationView, report: TorchReportView)
    ensures
        report.ok == Some(true) ==> report_recorded(e, report).framework == "pytorch"@,
        report.ok != Some(true) ==> report_recorded(e, report).framework == e.framework,
{
}

} // verus!
