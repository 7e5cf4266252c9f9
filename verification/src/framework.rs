//! Framework probes: PyTorch and llama.cpp.

use vstd::prelude::*;
use vstd::string::*;

use crate::ask::{
    ask_loader_path, ask_paths, loader_path_answer, on_path, one_arg, outcome, output_answer,
    paths_answer, plain_command, run, run_with_env, two_args, which,
};
use crate::examination::{
    copy_texts, with_framework_note, Examination, ExaminationView, FrameworkProbe,
};
use crate::host::{
    text_pairs, Answers, CommandOutput, CommandOutputView, CommandView, Host, LoaderPath,
    LoaderPathView, Question, QuestionView,
};
use crate::json::{
    flag_of, is_json, json_flag, json_text, json_texts, json_valid, listed_texts, optional_texts,
    text_of, texts_of,
};
use crate::number::{decimal, decimal_of};
use crate::split::{concat, concat3, lines, lines_of};
use crate::text::{
    clip, clipped, contains, has_text, lemma_texts_push, optional, same_text, texts, trim, trimmed,
};

verus! {

broadcast use lemma_texts_push;

/// The script that reports on torch, as one JSON object.
pub const PYTORCH_PROBE: &'static str = "import json,sys\nout={'ok':False}\ntry:\n  import torch\n  out['ok']=True\n  out['version']=torch.__version__\n  out['hip']=getattr(torch.version,'hip',None)\n  out['cuda']=getattr(torch.version,'cuda',None)\n  out['is_available']=bool(torch.cuda.is_available())\n  try: out['device_count']=int(torch.cuda.device_count())\n  except Exception: out['device_count']=0\n  try: out['arch_list']=list(torch.cuda.get_arch_list())\n  except Exception: out['arch_list']=[]\nexcept Exception as ex:\n  out['error']=type(ex).__name__+': '+str(ex)\nsys.stdout.write(json.dumps(out))\n";

/// The time that the script is given, in seconds.
pub const TORCH_SECS: u64 = 20;

/// The interpreter of a managed runtime, and the directories its torch loads
/// libraries from.
#[derive(Debug, PartialEq, Eq)]
pub struct FrameworkInterpreter {
    pub python: String,
    pub library_paths: Vec<String>,
}

/// What a [`FrameworkInterpreter`] holds.
pub struct FrameworkInterpreterView {
    pub python: Seq<char>,
    pub library_paths: Seq<Seq<char>>,
}

impl View for FrameworkInterpreter {
    type V = FrameworkInterpreterView;

    open spec fn view(&self) -> FrameworkInterpreterView {
        FrameworkInterpreterView {
            python: self.python@,
            library_paths: texts(self.library_paths@),
        }
    }
}

/// What an optional interpreter holds.
pub open spec fn interpreter_view(interpreter: Option<&FrameworkInterpreter>) -> Option<
    FrameworkInterpreterView,
> {
    match interpreter {
        Some(interpreter) => Some(interpreter@),
        None => None,
    }
}

// ---------------------------------------------------------------------------
// The report on torch
// ---------------------------------------------------------------------------

/// What the script reported, each field as far as it has the type it should
/// have.
#[derive(Debug, PartialEq, Eq)]
pub struct TorchReport {
    pub ok: Option<bool>,
    pub error: Option<String>,
    pub version: Option<String>,
    pub hip: Option<String>,
    pub cuda: Option<String>,
    pub arch_list: Option<Vec<Option<String>>>,
    pub is_available: Option<bool>,
}

/// What a [`TorchReport`] holds.
pub struct TorchReportView {
    pub ok: Option<bool>,
    pub error: Option<Seq<char>>,
    pub version: Option<Seq<char>>,
    pub hip: Option<Seq<char>>,
    pub cuda: Option<Seq<char>>,
    pub arch_list: Option<Seq<Option<Seq<char>>>>,
    pub is_available: Option<bool>,
}

impl View for TorchReport {
    type V = TorchReportView;

    open spec fn view(&self) -> TorchReportView {
        TorchReportView {
            ok: self.ok,
            error: optional(self.error),
            version: optional(self.version),
            hip: optional(self.hip),
            cuda: optional(self.cuda),
            arch_list: listed_texts(self.arch_list),
            is_available: self.is_available,
        }
    }
}

/// The report in a text, where the text is JSON.
pub open spec fn torch_report(text: Seq<char>) -> Option<TorchReportView> {
    if json_valid(text) {
        Some(
            TorchReportView {
                ok: json_flag(text, "ok"@),
                error: json_text(text, "error"@),
                version: json_text(text, "version"@),
                hip: json_text(text, "hip"@),
                cuda: json_text(text, "cuda"@),
                arch_list: json_texts(text, "arch_list"@),
                is_available: json_flag(text, "is_available"@),
            },
        )
    } else {
        None
    }
}

/// Reads the report in a text.
pub fn read_torch_report(text: &str) -> (r: Option<TorchReport>)
    ensures
        match r {
            Some(report) => torch_report(text@) == Some(report@),
            None => torch_report(text@) is None,
        },
{
    if !is_json(text) {
        return None;
    }
    Some(
        TorchReport {
            ok: flag_of(text, "ok"),
            error: text_of(text, "error"),
            version: text_of(text, "version"),
            hip: text_of(text, "hip"),
            cuda: text_of(text, "cuda"),
            arch_list: texts_of(text, "arch_list"),
            is_available: flag_of(text, "is_available"),
        },
    )
}

/// The items that are texts, in order.
pub open spec fn present_texts(items: Seq<Option<Seq<char>>>) -> Seq<Seq<char>>
    decreases items.len(),
{
    if items.len() == 0 {
        Seq::empty()
    } else {
        match items.last() {
            Some(text) => present_texts(items.drop_last()).push(text),
            None => present_texts(items.drop_last()),
        }
    }
}

/// The items that are texts, in order.
pub fn keep_texts(items: &Vec<Option<String>>) -> (r: Vec<String>)
    ensures
        texts(r@) == present_texts(optional_texts(items@)),
{
    let n: usize = items.len();
    let mut out: Vec<String> = Vec::new();
    let mut i: usize = 0;
    let ghost all = optional_texts(items@);
    assert(texts(out@) =~= Seq::empty());
    while i < n
        invariant
            n == items@.len(),
            i <= n,
            all == optional_texts(items@),
            texts(out@) == present_texts(all.take(i as int)),
        decreases n - i,
    {
        assert(all.take(i + 1).drop_last() =~= all.take(i as int));
        assert(all.take(i + 1).last() == optional(items@[i as int]));
        match &items[i] {
            Some(text) => {
                out.push(text.clone());
            },
            None => {},
        }
        i += 1;
    }
    assert(all.take(n as int) =~= all);
    out
}

/// `text`, or `fallback` where there is none.
pub open spec fn text_or(text: Option<Seq<char>>, fallback: Seq<char>) -> Seq<char> {
    match text {
        Some(text) => text,
        None => fallback,
    }
}

fn text_or_else(text: &Option<String>, fallback: &str) -> (r: String)
    ensures
        r@ == text_or(optional(*text), fallback@),
{
    match text {
        Some(text) => text.clone(),
        None => fallback.to_owned(),
    }
}

/// Whether there is a text that says something.
pub open spec fn says(text: Option<Seq<char>>) -> bool {
    match text {
        Some(text) => text.len() > 0,
        None => false,
    }
}

/// `e` with the GPU stack that the wheel was built for. A HIP version wins over
/// a CUDA version.
pub open spec fn build_recorded(
    e: ExaminationView,
    hip: Option<Seq<char>>,
    cuda: Option<Seq<char>>,
) -> ExaminationView {
    if says(hip) {
        ExaminationView { framework_rocm_version: "hip="@ + hip->0, ..e }
    } else if says(cuda) {
        with_framework_note(
            ExaminationView { framework_rocm_version: "cuda="@ + cuda->0, ..e },
            "This torch wheel is a CUDA build, not a ROCm build. Reinstall from the ROCm wheel index."@,
        )
    } else {
        e
    }
}

fn record_build(e: &mut Examination, hip: &Option<String>, cuda: &Option<String>)
    ensures
        final(e)@ == build_recorded(old(e)@, optional(*hip), optional(*cuda)),
{
    match hip {
        Some(hip) => {
            if !hip.as_str().is_empty() {
                e.framework_rocm_version = concat("hip=", hip.as_str());
                return;
            }
        },
        None => {},
    }
    match cuda {
        Some(cuda) => {
            if !cuda.as_str().is_empty() {
                e.framework_rocm_version = concat("cuda=", cuda.as_str());
                e.add_framework_note(
                    "This torch wheel is a CUDA build, not a ROCm build. Reinstall from the ROCm wheel index.".to_owned(),
                );
            }
        },
        None => {},
    }
}

/// `e` with a note where the runtime sees no GPU.
pub open spec fn availability_recorded(
    e: ExaminationView,
    is_available: Option<bool>,
) -> ExaminationView {
    if is_available == Some(false) {
        with_framework_note(
            e,
            "torch.cuda.is_available() returned False -- runtime can't see a GPU."@,
        )
    } else {
        e
    }
}

/// `e` with the architectures that the wheel was built for, where it lists
/// them.
pub open spec fn arch_recorded(
    e: ExaminationView,
    arch_list: Option<Seq<Option<Seq<char>>>>,
) -> ExaminationView {
    match arch_list {
        Some(items) => ExaminationView { framework_arch_list: present_texts(items), ..e },
        None => e,
    }
}

fn record_availability(e: &mut Examination, is_available: Option<bool>)
    ensures
        final(e)@ == availability_recorded(old(e)@, is_available),
{
    match is_available {
        Some(false) => {
            e.add_framework_note(
                "torch.cuda.is_available() returned False -- runtime can't see a GPU.".to_owned(),
            );
        },
        _ => {},
    }
}

fn record_arch(e: &mut Examination, arch_list: &Option<Vec<Option<String>>>)
    ensures
        final(e)@ == arch_recorded(old(e)@, listed_texts(*arch_list)),
{
    match arch_list {
        Some(items) => {
            e.framework_arch_list = keep_texts(items);
        },
        None => {},
    }
}

/// `e` with what the script reported.
pub open spec fn report_recorded(e: ExaminationView, report: TorchReportView) -> ExaminationView {
    if report.ok != Some(true) {
        with_framework_note(e, "torch import failed: "@ + text_or(report.error, "unknown"@))
    } else {
        availability_recorded(
            arch_recorded(
                build_recorded(
                    ExaminationView {
                        framework: "pytorch"@,
                        framework_version: text_or(report.version, Seq::empty()),
                        ..e
                    },
                    report.hip,
                    report.cuda,
                ),
                report.arch_list,
            ),
            report.is_available,
        )
    }
}

/// Records what the script reported.
pub fn record_torch_report(e: &mut Examination, report: &TorchReport)
    ensures
        final(e)@ == report_recorded(old(e)@, report@),
{
    let imported = match report.ok {
        Some(ok) => ok,
        None => false,
    };
    if !imported {
        let error = text_or_else(&report.error, "unknown");
        e.add_framework_note(concat("torch import failed: ", error.as_str()));
        return;
    }
    e.framework = "pytorch".to_owned();
    e.framework_version = match &report.version {
        Some(version) => version.clone(),
        None => String::new(),
    };
    record_build(e, &report.hip, &report.cuda);
    record_arch(e, &report.arch_list);
    record_availability(e, report.is_available);
}

// ---------------------------------------------------------------------------
// What the interpreter printed
// ---------------------------------------------------------------------------

/// What a silent interpreter stands for. That it could not be started, or ran
/// out of time, is a fact about the interpreter and not about torch; and the
/// advice on a venv would be wrong for a managed runtime.
pub open spec fn silence_note(rc: i32, source: Seq<char>) -> Seq<char> {
    if rc == 127 {
        "The torch probe interpreter could not be started."@
    } else if rc == 124 {
        "The torch probe timed out."@
    } else if source == "managed-runtime"@ {
        "The active managed runtime's interpreter returned nothing for the torch probe."@
    } else {
        "Could not import torch; if PyTorch is in a venv, activate it and re-run inside that venv."@
    }
}

/// `e` with the last line of what the interpreter complained of.
pub open spec fn stderr_recorded(e: ExaminationView, err: Seq<char>) -> ExaminationView {
    let lines = lines_of(trimmed(err));
    if lines.len() == 0 {
        e
    } else {
        with_framework_note(e, "python stderr: "@ + clipped(lines.last(), 200))
    }
}

/// `e` with what the interpreter made of the script.
pub open spec fn pytorch_recorded(e: ExaminationView, out: CommandOutputView) -> ExaminationView {
    if trimmed(out.stdout).len() == 0 {
        stderr_recorded(
            with_framework_note(e, silence_note(out.rc, e.framework_source)),
            out.stderr,
        )
    } else {
        match torch_report(trimmed(out.stdout)) {
            None => with_framework_note(
                e,
                "torch probe returned non-JSON: "@ + clipped(out.stdout, 200),
            ),
            Some(report) => report_recorded(e, report),
        }
    }
}

fn record_stderr(e: &mut Examination, err: &str)
    ensures
        final(e)@ == stderr_recorded(old(e)@, err@),
{
    let found = lines(trim(err).as_str());
    let n: usize = found.len();
    if n > 0 {
        assert(texts(found@).last() == found@[n - 1]@);
        let snippet = clip(found[n - 1].as_str(), 200);
        e.add_framework_note(concat("python stderr: ", snippet.as_str()));
    }
}

/// Records what the interpreter made of the script.
pub fn record_pytorch_probe(e: &mut Examination, rc: i32, out: &str, err: &str)
    ensures
        final(e)@ == pytorch_recorded(
            old(e)@,
            (CommandOutputView { rc, stdout: out@, stderr: err@ }),
        ),
{
    let text = trim(out);
    if text.as_str().is_empty() {
        let note = if rc == 127 {
            "The torch probe interpreter could not be started."
        } else if rc == 124 {
            "The torch probe timed out."
        } else if same_text(e.framework_source.as_str(), "managed-runtime") {
            "The active managed runtime's interpreter returned nothing for the torch probe."
        } else {
            "Could not import torch; if PyTorch is in a venv, activate it and re-run inside that venv."
        };
        e.add_framework_note(note.to_owned());
        record_stderr(e, err);
        return;
    }
    match read_torch_report(text.as_str()) {
        None => {
            let snippet = clip(out, 200);
            e.add_framework_note(concat("torch probe returned non-JSON: ", snippet.as_str()));
        },
        Some(report) => {
            record_torch_report(e, &report);
        },
    }
}

// ---------------------------------------------------------------------------
// PyTorch in a managed runtime
// ---------------------------------------------------------------------------

/// The entries of a loader path: the runtime's ahead of what the host has, so
/// that the runtime's own ROCm wins.
pub open spec fn loader_entries(
    library_paths: Seq<Seq<char>>,
    existing: Option<Seq<Seq<char>>>,
) -> Seq<Seq<char>> {
    match existing {
        Some(existing) => library_paths + existing,
        None => library_paths,
    }
}

fn loader_entries_of(library_paths: &Vec<String>, existing: Option<Vec<String>>) -> (r: Vec<
    String,
>)
    ensures
        texts(r@) == loader_entries(
            texts(library_paths@),
            crate::host::paths_view(existing),
        ),
{
    let mut out = copy_texts(library_paths);
    match existing {
        None => out,
        Some(existing) => {
            let n: usize = existing.len();
            let mut i: usize = 0;
            let ghost head = texts(library_paths@);
            let ghost tail = texts(existing@);
            assert(texts(out@) =~= head + tail.take(0));
            while i < n
                invariant
                    n == existing@.len(),
                    i <= n,
                    tail == texts(existing@),
                    texts(out@) == head + tail.take(i as int),
                decreases n - i,
            {
                out.push(existing[i].clone());
                assert(texts(out@) =~= head + tail.take(i + 1));
                i += 1;
            }
            assert(tail.take(n as int) =~= tail);
            out
        },
    }
}

/// `e` and the environment that a joined loader path gives the interpreter. A
/// failure to join it is recorded: the import that follows would die on a
/// missing ROCm library and read as a broken runtime.
pub open spec fn loader_path_recorded(e: ExaminationView, path: LoaderPathView) -> (
    ExaminationView,
    Seq<(Seq<char>, Seq<char>)>,
) {
    match path.composed {
        Ok(value) => (e, seq![(path.variable, value)]),
        Err(reason) => (
            with_framework_note(
                e,
                "Could not compose "@ + path.variable + " for the runtime's interpreter ("@ + reason
                    + "); its torch may fail to load the runtime's ROCm libraries."@,
            ),
            Seq::empty(),
        ),
    }
}

/// Records a joined loader path, and hands out the environment that it gives the
/// interpreter.
pub fn record_loader_path(e: &mut Examination, path: LoaderPath) -> (envs: Vec<(String, String)>)
    ensures
        (final(e)@, text_pairs(envs@)) == loader_path_recorded(old(e)@, path@),
{
    let mut envs: Vec<(String, String)> = Vec::new();
    match path.composed {
        Ok(value) => {
            envs.push((path.variable, value));
            assert(text_pairs(envs@) =~= seq![(path.variable@, value@)]);
        },
        Err(reason) => {
            let head = concat3(
                "Could not compose ",
                path.variable.as_str(),
                " for the runtime's interpreter (",
            );
            e.add_framework_note(
                concat3(
                    head.as_str(),
                    reason.as_str(),
                    "); its torch may fail to load the runtime's ROCm libraries.",
                ),
            );
            assert(text_pairs(envs@) =~= Seq::empty());
        },
    }
    envs
}

/// `e` and the environment for the interpreter of a runtime.
pub open spec fn library_env_probed(
    h: Host,
    e: ExaminationView,
    library_paths: Seq<Seq<char>>,
) -> Result<(ExaminationView, Seq<(Seq<char>, Seq<char>)>), QuestionView> {
    if library_paths.len() == 0 {
        Ok((e, Seq::empty()))
    } else {
        match paths_answer(h, QuestionView::LoaderPathEntries) {
            Err(q) => Err(q),
            Ok(existing) => match loader_path_answer(
                h,
                QuestionView::JoinLoaderPath(loader_entries(library_paths, existing)),
            ) {
                Err(q) => Err(q),
                Ok(path) => Ok(loader_path_recorded(e, path)),
            },
        }
    }
}

/// Compose the loader path a runtime's torch needs.
pub fn runtime_library_path_env(e: Examination, h: &Answers, library_paths: &Vec<String>) -> (r:
    Result<(Examination, Vec<(String, String)>), Question>)
    ensures
        match r {
            Ok((done, envs)) => library_env_probed(h@, e@, texts(library_paths@)) == Ok::<
                (ExaminationView, Seq<(Seq<char>, Seq<char>)>),
                QuestionView,
            >((done@, text_pairs(envs@))),
            Err(q) => library_env_probed(h@, e@, texts(library_paths@)) == Err::<
                (ExaminationView, Seq<(Seq<char>, Seq<char>)>),
                QuestionView,
            >(q@),
        },
{
    let mut e = e;
    if library_paths.len() == 0 {
        let envs: Vec<(String, String)> = Vec::new();
        assert(text_pairs(envs@) =~= Seq::empty());
        return Ok((e, envs));
    }
    let existing = match ask_paths(h, Question::LoaderPathEntries) {
        Ok(existing) => existing,
        Err(q) => {
            return Err(q);
        },
    };
    let entries = loader_entries_of(library_paths, existing);
    match ask_loader_path(h, Question::JoinLoaderPath(entries)) {
        Err(q) => Err(q),
        Ok(path) => {
            let envs = record_loader_path(&mut e, path);
            Ok((e, envs))
        },
    }
}

/// The arguments that run the script.
pub open spec fn script_args() -> Seq<Seq<char>> {
    seq!["-c"@, PYTORCH_PROBE@]
}

/// `e` with the runtime as the source of what follows.
pub open spec fn runtime_noted(e: ExaminationView, python: Seq<char>) -> ExaminationView {
    with_framework_note(
        ExaminationView { framework_source: "managed-runtime"@, ..e },
        "Probed torch with the active managed runtime's interpreter: "@ + python,
    )
}

/// `e` after the torch of a managed runtime was asked.
pub open spec fn runtime_torch_probed(
    h: Host,
    e: ExaminationView,
    interpreter: FrameworkInterpreterView,
) -> Result<ExaminationView, QuestionView> {
    match library_env_probed(
        h,
        runtime_noted(e, interpreter.python),
        interpreter.library_paths,
    ) {
        Err(q) => Err(q),
        Ok((e, envs)) => match output_answer(
            h,
            CommandView {
                program: interpreter.python,
                args: script_args(),
                envs,
                timeout_secs: TORCH_SECS,
            },
        ) {
            Err(q) => Err(q),
            Ok(out) => Ok(pytorch_recorded(e, out)),
        },
    }
}

/// Probe the torch the engines will actually load.
///
/// Deliberately does not fall back to the `PATH` interpreter when the runtime's
/// torch fails to import: a broken active runtime *is* the host's real answer.
pub fn probe_pytorch_in_runtime(
    e: Examination,
    h: &Answers,
    interpreter: &FrameworkInterpreter,
) -> (r: Result<Examination, Question>)
    ensures
        outcome(r) == runtime_torch_probed(h@, e@, interpreter@),
{
    let mut e = e;
    e.framework_source = "managed-runtime".to_owned();
    e.add_framework_note(
        concat(
            "Probed torch with the active managed runtime's interpreter: ",
            interpreter.python.as_str(),
        ),
    );
    let (mut e, envs) = match runtime_library_path_env(e, h, &interpreter.library_paths) {
        Ok(composed) => composed,
        Err(q) => {
            return Err(q);
        },
    };
    match run_with_env(
        h,
        interpreter.python.as_str(),
        two_args("-c", PYTORCH_PROBE),
        envs,
        TORCH_SECS,
    ) {
        Err(q) => Err(q),
        Ok(out) => {
            record_pytorch_probe(&mut e, out.rc, out.stdout.as_str(), out.stderr.as_str());
            Ok(e)
        },
    }
}

// ---------------------------------------------------------------------------
// PyTorch on PATH
// ---------------------------------------------------------------------------

/// The Python interpreter on `PATH`.
pub open spec fn python_on_path(h: Host) -> Result<Option<Seq<char>>, QuestionView> {
    match on_path(h, "python"@) {
        Err(q) => Err(q),
        Ok(true) => Ok(Some("python"@)),
        Ok(false) => match on_path(h, "python3"@) {
            Err(q) => Err(q),
            Ok(true) => Ok(Some("python3"@)),
            Ok(false) => Ok(None),
        },
    }
}

fn find_python(h: &Answers) -> (r: Result<Option<String>, Question>)
    ensures
        match r {
            Ok(py) => python_on_path(h@) == Ok::<Option<Seq<char>>, QuestionView>(optional(py)),
            Err(q) => python_on_path(h@) == Err::<Option<Seq<char>>, QuestionView>(q@),
        },
{
    match which(h, "python") {
        Err(q) => Err(q),
        Ok(true) => Ok(Some("python".to_owned())),
        Ok(false) => match which(h, "python3") {
            Err(q) => Err(q),
            Ok(true) => Ok(Some("python3".to_owned())),
            Ok(false) => Ok(None),
        },
    }
}

/// What an interpreter on `PATH` makes of the script.
pub open spec fn script_output(h: Host, py: Seq<char>) -> Result<CommandOutputView, QuestionView> {
    output_answer(h, plain_command(py, script_args(), TORCH_SECS))
}

/// What the interpreters on `PATH` make of the script: where `python` fails or
/// says nothing, `python3` is asked too, and counts where it says something.
pub open spec fn script_answer(h: Host, py: Seq<char>) -> Result<CommandOutputView, QuestionView> {
    match script_output(h, py) {
        Err(q) => Err(q),
        Ok(out) => if (out.rc != 0 || trimmed(out.stdout).len() == 0) && py == "python"@ {
            match on_path(h, "python3"@) {
                Err(q) => Err(q),
                Ok(false) => Ok(out),
                Ok(true) => match script_output(h, "python3"@) {
                    Err(q) => Err(q),
                    Ok(other) => if trimmed(other.stdout).len() == 0 {
                        Ok(out)
                    } else {
                        Ok(other)
                    },
                },
            }
        } else {
            Ok(out)
        },
    }
}

fn run_script(h: &Answers, py: &str) -> (r: Result<CommandOutput, Question>)
    ensures
        match r {
            Ok(out) => script_answer(h@, py@) == Ok::<CommandOutputView, QuestionView>(out@),
            Err(q) => script_answer(h@, py@) == Err::<CommandOutputView, QuestionView>(q@),
        },
{
    let out = match run(h, py, two_args("-c", PYTORCH_PROBE), TORCH_SECS) {
        Ok(out) => out,
        Err(q) => {
            return Err(q);
        },
    };
    let answered = out.rc == 0 && !trim(out.stdout.as_str()).as_str().is_empty();
    if answered || !same_text(py, "python") {
        return Ok(out);
    }
    match which(h, "python3") {
        Err(q) => {
            return Err(q);
        },
        Ok(false) => {
            return Ok(out);
        },
        Ok(true) => {},
    }
    match run(h, "python3", two_args("-c", PYTORCH_PROBE), TORCH_SECS) {
        Err(q) => Err(q),
        Ok(other) => if trim(other.stdout.as_str()).as_str().is_empty() {
            Ok(out)
        } else {
            Ok(other)
        },
    }
}

/// `e` after the torch on `PATH` was asked.
pub open spec fn path_torch_probed(h: Host, e: ExaminationView) -> Result<
    ExaminationView,
    QuestionView,
> {
    match python_on_path(h) {
        Err(q) => Err(q),
        Ok(None) => Ok(with_framework_note(e, "No python interpreter found to probe torch."@)),
        Ok(Some(py)) => match script_answer(h, py) {
            Err(q) => Err(q),
            Ok(out) => Ok(
                pytorch_recorded(ExaminationView { framework_source: "path"@, ..e }, out),
            ),
        },
    }
}

/// Probe the torch of the interpreter on `PATH`.
pub fn probe_pytorch_on_path(e: Examination, h: &Answers) -> (r: Result<Examination, Question>)
    ensures
        outcome(r) == path_torch_probed(h@, e@),
{
    let mut e = e;
    let py = match find_python(h) {
        Err(q) => {
            return Err(q);
        },
        Ok(None) => {
            e.add_framework_note("No python interpreter found to probe torch.".to_owned());
            return Ok(e);
        },
        Ok(Some(py)) => py,
    };
    e.framework_source = "path".to_owned();
    match run_script(h, py.as_str()) {
        Err(q) => Err(q),
        Ok(out) => {
            record_pytorch_probe(&mut e, out.rc, out.stdout.as_str(), out.stderr.as_str());
            Ok(e)
        },
    }
}

/// `e` after torch was asked: that of the managed runtime where there is one,
/// that on `PATH` otherwise.
pub open spec fn pytorch_probed(
    h: Host,
    e: ExaminationView,
    interpreter: Option<FrameworkInterpreterView>,
) -> Result<ExaminationView, QuestionView> {
    match interpreter {
        Some(interpreter) => runtime_torch_probed(h, e, interpreter),
        None => path_torch_probed(h, e),
    }
}

/// Probe torch.
pub fn probe_pytorch(e: Examination, h: &Answers, interpreter: Option<&FrameworkInterpreter>) -> (r:
    Result<Examination, Question>)
    ensures
        outcome(r) == pytorch_probed(h@, e@, interpreter_view(interpreter)),
{
    match interpreter {
        Some(interpreter) => probe_pytorch_in_runtime(e, h, interpreter),
        None => probe_pytorch_on_path(e, h),
    }
}

// ---------------------------------------------------------------------------
// llama.cpp
// ---------------------------------------------------------------------------

/// The llama.cpp binary on `PATH`.
pub open spec fn llama_on_path(h: Host) -> Result<Option<Seq<char>>, QuestionView> {
    match on_path(h, "llama-cli"@) {
        Err(q) => Err(q),
        Ok(true) => Ok(Some("llama-cli"@)),
        Ok(false) => match on_path(h, "llama-server"@) {
            Err(q) => Err(q),
            Ok(true) => Ok(Some("llama-server"@)),
            Ok(false) => match on_path(h, "main"@) {
                Err(q) => Err(q),
                Ok(true) => Ok(Some("main"@)),
                Ok(false) => Ok(None),
            },
        },
    }
}

fn find_llama(h: &Answers) -> (r: Result<Option<String>, Question>)
    ensures
        match r {
            Ok(binary) => llama_on_path(h@) == Ok::<Option<Seq<char>>, QuestionView>(
                optional(binary),
            ),
            Err(q) => llama_on_path(h@) == Err::<Option<Seq<char>>, QuestionView>(q@),
        },
{
    match which(h, "llama-cli") {
        Err(q) => Err(q),
        Ok(true) => Ok(Some("llama-cli".to_owned())),
        Ok(false) => match which(h, "llama-server") {
            Err(q) => Err(q),
            Ok(true) => Ok(Some("llama-server".to_owned())),
            Ok(false) => match which(h, "main") {
                Err(q) => Err(q),
                Ok(true) => Ok(Some("main".to_owned())),
                Ok(false) => Ok(None),
            },
        },
    }
}

/// The version that a llama.cpp binary states.
pub open spec fn llama_version(body: Seq<char>) -> Seq<char> {
    let lines = lines_of(trimmed(body));
    if lines.len() == 0 {
        "unknown"@
    } else {
        clipped(lines[0], 200)
    }
}

fn llama_version_of(body: &str) -> (r: String)
    ensures
        r@ == llama_version(body@),
{
    let found = lines(trim(body).as_str());
    if found.len() == 0 {
        "unknown".to_owned()
    } else {
        assert(texts(found@)[0] == found@[0]@);
        clip(found[0].as_str(), 200)
    }
}

/// Whether a llama.cpp binary speaks of HIP.
pub open spec fn advertises_hip(body: Seq<char>) -> bool {
    ||| has_text(body, "HIP"@)
    ||| has_text(body, "ROCm"@)
    ||| has_text(body, "hipBLAS"@)
}

/// `e` with what a llama.cpp binary says of its version. A binary that fails
/// without a word answers nothing, and so changes no more than the notes.
pub open spec fn llama_recorded(
    e: ExaminationView,
    binary: Seq<char>,
    out: CommandOutputView,
) -> ExaminationView {
    let body = out.stdout + out.stderr;
    if out.rc != 0 && body.len() == 0 {
        with_framework_note(e, binary + " --version exited rc="@ + decimal_of(out.rc as int))
    } else {
        let named = ExaminationView {
            framework_source: "path"@,
            framework: "llama-cpp"@,
            framework_version: llama_version(body),
            ..e
        };
        if advertises_hip(body) {
            ExaminationView { framework_rocm_version: "GGML_HIP=ON"@, ..named }
        } else {
            with_framework_note(
                named,
                "llama.cpp binary doesn't advertise HIP/ROCm support; was it built with `cmake -DGGML_HIP=ON -DAMDGPU_TARGETS=<gfx>`?"@,
            )
        }
    }
}

/// Records what a llama.cpp binary says of its version.
pub fn record_llama(e: &mut Examination, binary: &str, rc: i32, out: &str, err: &str)
    ensures
        final(e)@ == llama_recorded(
            old(e)@,
            binary@,
            (CommandOutputView { rc, stdout: out@, stderr: err@ }),
        ),
{
    let body = concat(out, err);
    if rc != 0 && body.as_str().is_empty() {
        e.add_framework_note(
            concat3(binary, " --version exited rc=", decimal(rc).as_str()),
        );
        return;
    }
    e.framework_source = "path".to_owned();
    e.framework = "llama-cpp".to_owned();
    e.framework_version = llama_version_of(body.as_str());
    if contains(body.as_str(), "HIP") || contains(body.as_str(), "ROCm") || contains(
        body.as_str(),
        "hipBLAS",
    ) {
        e.framework_rocm_version = "GGML_HIP=ON".to_owned();
    } else {
        e.add_framework_note(
            "llama.cpp binary doesn't advertise HIP/ROCm support; was it built with `cmake -DGGML_HIP=ON -DAMDGPU_TARGETS=<gfx>`?".to_owned(),
        );
    }
}

/// `e` after the llama.cpp binary on `PATH` was asked.
pub open spec fn llama_probed(
    h: Host,
    e: ExaminationView,
) -> Result<ExaminationView, QuestionView> {
    match llama_on_path(h) {
        Err(q) => Err(q),
        Ok(None) => Ok(
            with_framework_note(
                e,
                "No llama.cpp binary (llama-cli/llama-server/main) on PATH."@,
            ),
        ),
        Ok(Some(binary)) => match output_answer(
            h,
            plain_command(binary, seq!["--version"@], 10),
        ) {
            Err(q) => Err(q),
            Ok(out) => Ok(llama_recorded(e, binary, out)),
        },
    }
}

/// Probe the llama.cpp binary on `PATH`.
pub fn probe_llama_cpp(e: Examination, h: &Answers) -> (r: Result<Examination, Question>)
    ensures
        outcome(r) == llama_probed(h@, e@),
{
    let mut e = e;
    let binary = match find_llama(h) {
        Err(q) => {
            return Err(q);
        },
        Ok(None) => {
            e.add_framework_note(
                "No llama.cpp binary (llama-cli/llama-server/main) on PATH.".to_owned(),
            );
            return Ok(e);
        },
        Ok(Some(binary)) => binary,
    };
    match run(h, binary.as_str(), one_arg("--version"), 10) {
        Err(q) => Err(q),
        Ok(out) => {
            record_llama(
                &mut e,
                binary.as_str(),
                out.rc,
                out.stdout.as_str(),
                out.stderr.as_str(),
            );
            Ok(e)
        },
    }
}

// ---------------------------------------------------------------------------
// Either
// ---------------------------------------------------------------------------

/// `e` after both frameworks were asked: torch where an interpreter is at hand,
/// and llama.cpp where torch did not answer.
pub open spec fn either_probed(
    h: Host,
    e: ExaminationView,
    interpreter: Option<FrameworkInterpreterView>,
) -> Result<ExaminationView, QuestionView> {
    let at_hand = if interpreter is Some {
        Ok(true)
    } else {
        match python_on_path(h) {
            Err(q) => Err(q),
            Ok(py) => Ok(py is Some),
        }
    };
    match at_hand {
        Err(q) => Err(q),
        Ok(false) => llama_probed(h, e),
        Ok(true) => match pytorch_probed(h, e, interpreter) {
            Err(q) => Err(q),
            Ok(e) => if e.framework == "pytorch"@ {
                Ok(e)
            } else {
                llama_probed(h, e)
            },
        },
    }
}

/// `e` after the frameworks that `framework` stands for were asked.
pub open spec fn framework_probed(
    h: Host,
    e: ExaminationView,
    framework: FrameworkProbe,
    interpreter: Option<FrameworkInterpreterView>,
) -> Result<ExaminationView, QuestionView> {
    match framework {
        FrameworkProbe::Skip => Ok(ExaminationView { framework: "skipped"@, ..e }),
        FrameworkProbe::PyTorch => pytorch_probed(h, e, interpreter),
        FrameworkProbe::LlamaCpp => llama_probed(h, e),
        FrameworkProbe::Auto => either_probed(h, e, interpreter),
    }
}

fn probe_either(e: Examination, h: &Answers, interpreter: Option<&FrameworkInterpreter>) -> (r:
    Result<Examination, Question>)
    ensures
        outcome(r) == either_probed(h@, e@, interpreter_view(interpreter)),
{
    let at_hand = if interpreter.is_some() {
        true
    } else {
        match find_python(h) {
            Ok(py) => py.is_some(),
            Err(q) => {
                return Err(q);
            },
        }
    };
    if !at_hand {
        return probe_llama_cpp(e, h);
    }
    match probe_pytorch(e, h, interpreter) {
        Err(q) => Err(q),
        Ok(e) => if same_text(e.framework.as_str(), "pytorch") {
            Ok(e)
        } else {
            probe_llama_cpp(e, h)
        },
    }
}

/// Asks the frameworks that `framework` stands for. A managed runtime brings its
/// own interpreter, so the ambient `PATH` does not decide whether torch is worth
/// asking about.
pub fn probe_framework(
    e: Examination,
    h: &Answers,
    framework: FrameworkProbe,
    interpreter: Option<&FrameworkInterpreter>,
) -> (r: Result<Examination, Question>)
    ensures
        outcome(r) == framework_probed(h@, e@, framework, interpreter_view(interpreter)),
{
    let mut e = e;
    match framework {
        FrameworkProbe::Skip => {
            e.framework = "skipped".to_owned();
            Ok(e)
        },
        FrameworkProbe::PyTorch => probe_pytorch(e, h, interpreter),
        FrameworkProbe::LlamaCpp => probe_llama_cpp(e, h),
        FrameworkProbe::Auto => probe_either(e, h, interpreter),
    }
}

} // verus!
