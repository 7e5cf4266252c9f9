//! Asking: each function yields the recorded answer, or the question itself
//! where no fitting answer is recorded.

use vstd::prelude::*;
use vstd::string::*;

use crate::examination::{copy_optional, copy_texts, Examination, ExaminationView};
use crate::host::{
    entry_views, install_view, keeps_output, listing_view, paths_view, text_pairs, utf8_output,
    Answers, Command, CommandOutput, CommandOutputView, CommandView, DirEntry, DirEntryView,
    FilesystemStats, Host, LoaderPath, LoaderPathView, OsFamily, Question, QuestionView,
    RawOutputView, Reply, ReplyView, RocmInstall, RocmInstallView, WslHostDriverProbe,
    WslHostDriverProbeView, WslSummary,
};
use crate::split::{concat, pieces_of, split};
use crate::text::{lemma_texts_push, optional, texts};
use crate::utf16::{decode_utf16le, utf16le_text};

verus! {

broadcast use lemma_texts_push;

/// What a probe came to: the examination it filled in, or the question it is
/// waiting for.
pub open spec fn outcome(r: Result<Examination, Question>) -> Result<
    ExaminationView,
    QuestionView,
> {
    match r {
        Ok(e) => Ok(e@),
        Err(q) => Err(q@),
    }
}

// ---------------------------------------------------------------------------
// By kind of answer
// ---------------------------------------------------------------------------

/// The answer to a question for a yes or no.
pub open spec fn flag_answer(h: Host, q: QuestionView) -> Result<bool, QuestionView> {
    if h.contains_key(q) {
        match h[q] {
            ReplyView::Flag(v) => Ok(v),
            _ => Err(q),
        }
    } else {
        Err(q)
    }
}

/// Asks for a yes or no.
pub fn ask_flag(h: &Answers, q: Question) -> (r: Result<bool, Question>)
    ensures
        match r {
            Ok(v) => flag_answer(h@, q@) == Ok::<bool, QuestionView>(v),
            Err(asked) => asked == q && flag_answer(h@, q@) == Err::<bool, QuestionView>(q@),
        },
{
    match h.find(&q) {
        Some(Reply::Flag(v)) => Ok(*v),
        _ => Err(q),
    }
}

/// The answer to a question for a yes or no that the host may not be able to give.
pub open spec fn optional_flag_answer(
    h: Host,
    q: QuestionView,
) -> Result<Option<bool>, QuestionView> {
    if h.contains_key(q) {
        match h[q] {
            ReplyView::OptionalFlag(v) => Ok(v),
            _ => Err(q),
        }
    } else {
        Err(q)
    }
}

/// Asks for a yes or no that the host may not be able to give.
pub fn ask_optional_flag(h: &Answers, q: Question) -> (r: Result<Option<bool>, Question>)
    ensures
        match r {
            Ok(v) => optional_flag_answer(h@, q@) == Ok::<Option<bool>, QuestionView>(v),
            Err(asked) => asked == q && optional_flag_answer(h@, q@) == Err::<
                Option<bool>,
                QuestionView,
            >(q@),
        },
{
    match h.find(&q) {
        Some(Reply::OptionalFlag(v)) => Ok(*v),
        _ => Err(q),
    }
}

/// The answer to a question for the operating system.
pub open spec fn platform_answer(h: Host, q: QuestionView) -> Result<OsFamily, QuestionView> {
    if h.contains_key(q) {
        match h[q] {
            ReplyView::Platform(v) => Ok(v),
            _ => Err(q),
        }
    } else {
        Err(q)
    }
}

/// Asks for the operating system.
pub fn ask_platform(h: &Answers, q: Question) -> (r: Result<OsFamily, Question>)
    ensures
        match r {
            Ok(v) => platform_answer(h@, q@) == Ok::<OsFamily, QuestionView>(v),
            Err(asked) => asked == q && platform_answer(h@, q@) == Err::<
                OsFamily,
                QuestionView,
            >(q@),
        },
{
    match h.find(&q) {
        Some(Reply::Platform(v)) => Ok(*v),
        _ => Err(q),
    }
}

/// The answer to a question for the size of a filesystem.
pub open spec fn filesystem_answer(
    h: Host,
    q: QuestionView,
) -> Result<Option<FilesystemStats>, QuestionView> {
    if h.contains_key(q) {
        match h[q] {
            ReplyView::Filesystem(v) => Ok(v),
            _ => Err(q),
        }
    } else {
        Err(q)
    }
}

/// Asks for the size of a filesystem.
pub fn ask_filesystem(h: &Answers, q: Question) -> (r: Result<Option<FilesystemStats>, Question>)
    ensures
        match r {
            Ok(v) => filesystem_answer(h@, q@) == Ok::<Option<FilesystemStats>, QuestionView>(v),
            Err(asked) => asked == q && filesystem_answer(h@, q@) == Err::<
                Option<FilesystemStats>,
                QuestionView,
            >(q@),
        },
{
    match h.find(&q) {
        Some(Reply::Filesystem(v)) => Ok(*v),
        _ => Err(q),
    }
}

/// The answer to a question for the WSL plumbing in place.
pub open spec fn wsl_summary_answer(
    h: Host,
    q: QuestionView,
) -> Result<Option<WslSummary>, QuestionView> {
    if h.contains_key(q) {
        match h[q] {
            ReplyView::WslSummary(v) => Ok(v),
            _ => Err(q),
        }
    } else {
        Err(q)
    }
}

/// Asks for the WSL plumbing in place.
pub fn ask_wsl_summary(h: &Answers, q: Question) -> (r: Result<Option<WslSummary>, Question>)
    ensures
        match r {
            Ok(v) => wsl_summary_answer(h@, q@) == Ok::<Option<WslSummary>, QuestionView>(v),
            Err(asked) => asked == q && wsl_summary_answer(h@, q@) == Err::<
                Option<WslSummary>,
                QuestionView,
            >(q@),
        },
{
    match h.find(&q) {
        Some(Reply::WslSummary(v)) => Ok(*v),
        _ => Err(q),
    }
}

fn copy_listing(v: &Option<Vec<DirEntry>>) -> (r: Option<Vec<DirEntry>>)
    ensures
        listing_view(r) == listing_view(*v),
{
    match v {
        Some(v) => {
            let n: usize = v.len();
            let mut out: Vec<DirEntry> = Vec::new();
            let mut i: usize = 0;
            while i < n
                invariant
                    n == v@.len(),
                    i <= n,
                    entry_views(out@) == entry_views(v@).take(i as int),
                decreases n - i,
            {
                let entry = DirEntry { name: v[i].name.clone(), path: v[i].path.clone() };
                let ghost before = entry_views(out@);
                out.push(entry);
                assert(entry_views(out@) =~= before.push(entry@));
                assert(entry_views(out@) =~= entry_views(v@).take(i + 1));
                i += 1;
            }
            assert(entry_views(out@) =~= entry_views(v@));
            Some(out)
        },
        None => None,
    }
}

fn copy_driver(v: &WslHostDriverProbe) -> (r: WslHostDriverProbe)
    ensures
        r@ == v@,
{
    match v {
        WslHostDriverProbe::Unreachable => WslHostDriverProbe::Unreachable,
        WslHostDriverProbe::NoAmdDisplay => WslHostDriverProbe::NoAmdDisplay,
        WslHostDriverProbe::Version(v) => WslHostDriverProbe::Version(v.clone()),
    }
}

fn copy_install(v: &Option<RocmInstall>) -> (r: Option<RocmInstall>)
    ensures
        install_view(r) == install_view(*v),
{
    match v {
        Some(v) => Some(
            RocmInstall { path: v.path.clone(), version: copy_optional(&v.version) },
        ),
        None => None,
    }
}

fn copy_loader_path(v: &LoaderPath) -> (r: LoaderPath)
    ensures
        r@ == v@,
{
    LoaderPath {
        variable: v.variable.clone(),
        composed: match &v.composed {
            Ok(value) => Ok(value.clone()),
            Err(reason) => Err(reason.clone()),
        },
    }
}

/// The answer to a question for a text.
pub open spec fn text_answer(h: Host, q: QuestionView) -> Result<Seq<char>, QuestionView> {
    if h.contains_key(q) {
        match h[q] {
            ReplyView::Text(v) => Ok(v),
            _ => Err(q),
        }
    } else {
        Err(q)
    }
}

/// Asks for a text.
pub fn ask_text(h: &Answers, q: Question) -> (r: Result<String, Question>)
    ensures
        match r {
            Ok(v) => text_answer(h@, q@) == Ok::<Seq<char>, QuestionView>(v@),
            Err(asked) => asked == q && text_answer(h@, q@) == Err::<Seq<char>, QuestionView>(q@),
        },
{
    match h.find(&q) {
        Some(Reply::Text(v)) => Ok(v.clone()),
        _ => Err(q),
    }
}

/// The answer to a question for a text that may be absent.
pub open spec fn optional_text_answer(
    h: Host,
    q: QuestionView,
) -> Result<Option<Seq<char>>, QuestionView> {
    if h.contains_key(q) {
        match h[q] {
            ReplyView::OptionalText(v) => Ok(v),
            _ => Err(q),
        }
    } else {
        Err(q)
    }
}

/// Asks for a text that may be absent.
pub fn ask_optional_text(h: &Answers, q: Question) -> (r: Result<Option<String>, Question>)
    ensures
        match r {
            Ok(v) => optional_text_answer(h@, q@) == Ok::<
                Option<Seq<char>>,
                QuestionView,
            >(optional(v)),
            Err(asked) => asked == q && optional_text_answer(h@, q@) == Err::<
                Option<Seq<char>>,
                QuestionView,
            >(q@),
        },
{
    match h.find(&q) {
        Some(Reply::OptionalText(v)) => Ok(copy_optional(v)),
        _ => Err(q),
    }
}

/// The answer to a question for the entries of a directory.
pub open spec fn listing_answer(
    h: Host,
    q: QuestionView,
) -> Result<Option<Seq<DirEntryView>>, QuestionView> {
    if h.contains_key(q) {
        match h[q] {
            ReplyView::Listing(v) => Ok(v),
            _ => Err(q),
        }
    } else {
        Err(q)
    }
}

/// Asks for the entries of a directory.
pub fn ask_listing(h: &Answers, q: Question) -> (r: Result<Option<Vec<DirEntry>>, Question>)
    ensures
        match r {
            Ok(v) => listing_answer(h@, q@) == Ok::<
                Option<Seq<DirEntryView>>,
                QuestionView,
            >(listing_view(v)),
            Err(asked) => asked == q && listing_answer(h@, q@) == Err::<
                Option<Seq<DirEntryView>>,
                QuestionView,
            >(q@),
        },
{
    match h.find(&q) {
        Some(Reply::Listing(v)) => Ok(copy_listing(v)),
        _ => Err(q),
    }
}

/// The answer to a question for the driver of the Windows host.
pub open spec fn host_driver_answer(
    h: Host,
    q: QuestionView,
) -> Result<WslHostDriverProbeView, QuestionView> {
    if h.contains_key(q) {
        match h[q] {
            ReplyView::HostDriver(v) => Ok(v),
            _ => Err(q),
        }
    } else {
        Err(q)
    }
}

/// Asks for the driver of the Windows host.
pub fn ask_host_driver(h: &Answers, q: Question) -> (r: Result<WslHostDriverProbe, Question>)
    ensures
        match r {
            Ok(v) => host_driver_answer(h@, q@) == Ok::<WslHostDriverProbeView, QuestionView>(v@),
            Err(asked) => asked == q && host_driver_answer(h@, q@) == Err::<
                WslHostDriverProbeView,
                QuestionView,
            >(q@),
        },
{
    match h.find(&q) {
        Some(Reply::HostDriver(v)) => Ok(copy_driver(v)),
        _ => Err(q),
    }
}

/// The answer to a question for a ROCm install.
pub open spec fn install_answer(
    h: Host,
    q: QuestionView,
) -> Result<Option<RocmInstallView>, QuestionView> {
    if h.contains_key(q) {
        match h[q] {
            ReplyView::Install(v) => Ok(v),
            _ => Err(q),
        }
    } else {
        Err(q)
    }
}

/// Asks for a ROCm install.
pub fn ask_install(h: &Answers, q: Question) -> (r: Result<Option<RocmInstall>, Question>)
    ensures
        match r {
            Ok(v) => install_answer(h@, q@) == Ok::<
                Option<RocmInstallView>,
                QuestionView,
            >(install_view(v)),
            Err(asked) => asked == q && install_answer(h@, q@) == Err::<
                Option<RocmInstallView>,
                QuestionView,
            >(q@),
        },
{
    match h.find(&q) {
        Some(Reply::Install(v)) => Ok(copy_install(v)),
        _ => Err(q),
    }
}

/// The answer to a question for the entries of a search path.
pub open spec fn paths_answer(
    h: Host,
    q: QuestionView,
) -> Result<Option<Seq<Seq<char>>>, QuestionView> {
    if h.contains_key(q) {
        match h[q] {
            ReplyView::Paths(v) => Ok(v),
            _ => Err(q),
        }
    } else {
        Err(q)
    }
}

/// Asks for the entries of a search path.
pub fn ask_paths(h: &Answers, q: Question) -> (r: Result<Option<Vec<String>>, Question>)
    ensures
        match r {
            Ok(v) => paths_answer(h@, q@) == Ok::<
                Option<Seq<Seq<char>>>,
                QuestionView,
            >(paths_view(v)),
            Err(asked) => asked == q && paths_answer(h@, q@) == Err::<
                Option<Seq<Seq<char>>>,
                QuestionView,
            >(q@),
        },
{
    match h.find(&q) {
        Some(Reply::Paths(Some(v))) => Ok(Some(copy_texts(v))),
        Some(Reply::Paths(None)) => Ok(None),
        _ => Err(q),
    }
}

/// The answer to a question for a loader path.
pub open spec fn loader_path_answer(
    h: Host,
    q: QuestionView,
) -> Result<LoaderPathView, QuestionView> {
    if h.contains_key(q) {
        match h[q] {
            ReplyView::LoaderPath(v) => Ok(v),
            _ => Err(q),
        }
    } else {
        Err(q)
    }
}

/// Asks for a loader path.
pub fn ask_loader_path(h: &Answers, q: Question) -> (r: Result<LoaderPath, Question>)
    ensures
        match r {
            Ok(v) => loader_path_answer(h@, q@) == Ok::<LoaderPathView, QuestionView>(v@),
            Err(asked) => asked == q && loader_path_answer(h@, q@) == Err::<
                LoaderPathView,
                QuestionView,
            >(q@),
        },
{
    match h.find(&q) {
        Some(Reply::LoaderPath(v)) => Ok(copy_loader_path(v)),
        _ => Err(q),
    }
}

// ---------------------------------------------------------------------------
// Commands
// ---------------------------------------------------------------------------

/// The time that a quick command is given, in seconds.
pub const SHORT: u64 = 5;

/// The time that an ordinary command is given, in seconds.
pub const MEDIUM: u64 = 8;

/// What a command left behind, byte for byte.
pub open spec fn raw_answer(h: Host, command: CommandView) -> Result<RawOutputView, QuestionView> {
    let q = QuestionView::Run(command);
    if h.contains_key(q) {
        match h[q] {
            ReplyView::Output(v) => Ok(v),
            _ => Err(q),
        }
    } else {
        Err(q)
    }
}

/// A command with nothing laid over the inherited environment.
pub open spec fn plain_command(
    program: Seq<char>,
    args: Seq<Seq<char>>,
    timeout_secs: u64,
) -> CommandView {
    CommandView { program, args, envs: Seq::empty(), timeout_secs }
}

/// What a command left behind, read as UTF-8.
pub open spec fn output_answer(h: Host, command: CommandView) -> Result<
    CommandOutputView,
    QuestionView,
> {
    match raw_answer(h, command) {
        Ok(raw) => Ok(utf8_output(raw)),
        Err(q) => Err(q),
    }
}

/// Runs a command with environment variables overlaid on the inherited ones.
/// What it printed is kept: UTF-8 as it stands, and a byte that is not UTF-8 does
/// not take the rest with it.
pub fn run_with_env(
    h: &Answers,
    program: &str,
    args: Vec<String>,
    envs: Vec<(String, String)>,
    timeout_secs: u64,
) -> (r: Result<CommandOutput, Question>)
    ensures
        ({
            let command = CommandView {
                program: program@,
                args: texts(args@),
                envs: text_pairs(envs@),
                timeout_secs,
            };
            match r {
                Ok(out) => {
                    &&& output_answer(h@, command) == Ok::<CommandOutputView, QuestionView>(out@)
                    &&& raw_answer(h@, command) matches Ok(raw) && keeps_output(raw, out@)
                },
                Err(q) => output_answer(h@, command) == Err::<CommandOutputView, QuestionView>(q@),
            }
        }),
{
    let q = Question::Run(Command { program: program.to_owned(), args, envs, timeout_secs });
    match h.find(&q) {
        Some(Reply::Output(raw)) => Ok(CommandOutput::from_raw(raw)),
        _ => Err(q),
    }
}

/// Runs a command with a timeout. What it printed is kept, as by [`run_with_env`].
pub fn run(h: &Answers, program: &str, args: Vec<String>, timeout_secs: u64) -> (r: Result<
    CommandOutput,
    Question,
>)
    ensures
        ({
            let command = plain_command(program@, texts(args@), timeout_secs);
            match r {
                Ok(out) => {
                    &&& output_answer(h@, command) == Ok::<CommandOutputView, QuestionView>(out@)
                    &&& raw_answer(h@, command) matches Ok(raw) && keeps_output(raw, out@)
                },
                Err(q) => output_answer(h@, command) == Err::<CommandOutputView, QuestionView>(q@),
            }
        }),
{
    let envs: Vec<(String, String)> = Vec::new();
    assert(text_pairs(envs@) =~= Seq::empty());
    run_with_env(h, program, args, envs, timeout_secs)
}

/// The exit code of a command, and its output read as UTF-16.
pub open spec fn utf16_answer(h: Host, command: CommandView) -> Result<
    (i32, Seq<char>),
    QuestionView,
> {
    match raw_answer(h, command) {
        Ok(raw) => Ok((raw.rc, utf16le_text(raw.stdout))),
        Err(q) => Err(q),
    }
}

/// Runs a command whose output is UTF-16LE, as that of `wsl.exe` is.
pub fn run_utf16le(h: &Answers, program: &str, args: Vec<String>, timeout_secs: u64) -> (r: Result<
    (i32, String),
    Question,
>)
    ensures
        match r {
            Ok((rc, text)) => utf16_answer(h@, plain_command(program@, texts(args@), timeout_secs))
                == Ok::<(i32, Seq<char>), QuestionView>((rc, text@)),
            Err(q) => utf16_answer(h@, plain_command(program@, texts(args@), timeout_secs))
                == Err::<(i32, Seq<char>), QuestionView>(q@),
        },
{
    let envs: Vec<(String, String)> = Vec::new();
    assert(text_pairs(envs@) =~= Seq::empty());
    let q = Question::Run(Command { program: program.to_owned(), args, envs, timeout_secs });
    match h.find(&q) {
        Some(Reply::Output(raw)) => Ok((raw.rc, decode_utf16le(raw.stdout.as_slice()))),
        _ => Err(q),
    }
}

/// No arguments.
pub fn no_args() -> (r: Vec<String>)
    ensures
        texts(r@) == Seq::<Seq<char>>::empty(),
{
    let v: Vec<String> = Vec::new();
    assert(texts(v@) =~= Seq::empty());
    v
}

/// One argument.
pub fn one_arg(a: &str) -> (r: Vec<String>)
    ensures
        texts(r@) == seq![a@],
{
    let mut v: Vec<String> = Vec::new();
    v.push(a.to_owned());
    assert(texts(v@) =~= seq![a@]);
    v
}

/// Two arguments.
pub fn two_args(a: &str, b: &str) -> (r: Vec<String>)
    ensures
        texts(r@) == seq![a@, b@],
{
    let mut v: Vec<String> = Vec::new();
    v.push(a.to_owned());
    v.push(b.to_owned());
    assert(texts(v@) =~= seq![a@, b@]);
    v
}

/// Three arguments.
pub fn three_args(a: &str, b: &str, c: &str) -> (r: Vec<String>)
    ensures
        texts(r@) == seq![a@, b@, c@],
{
    let mut v: Vec<String> = Vec::new();
    v.push(a.to_owned());
    v.push(b.to_owned());
    v.push(c.to_owned());
    assert(texts(v@) =~= seq![a@, b@, c@]);
    v
}

// ---------------------------------------------------------------------------
// Programs on PATH
// ---------------------------------------------------------------------------

/// Whether a directory holds a file by one of the names, tried in order.
pub open spec fn any_file(h: Host, dir: Seq<char>, names: Seq<Seq<char>>) -> Result<
    bool,
    QuestionView,
>
    decreases names.len(),
{
    if names.len() == 0 {
        Ok(false)
    } else {
        match flag_answer(h, QuestionView::FileIn { dir, name: names[0] }) {
            Ok(false) => any_file(h, dir, names.skip(1)),
            answer => answer,
        }
    }
}

/// Whether one of the directories holds a file by one of the names. An empty
/// entry names no directory.
pub open spec fn any_file_in(h: Host, dirs: Seq<Seq<char>>, names: Seq<Seq<char>>) -> Result<
    bool,
    QuestionView,
>
    decreases dirs.len(),
{
    if dirs.len() == 0 {
        Ok(false)
    } else if dirs[0].len() == 0 {
        any_file_in(h, dirs.skip(1), names)
    } else {
        match any_file(h, dirs[0], names) {
            Ok(false) => any_file_in(h, dirs.skip(1), names),
            answer => answer,
        }
    }
}

/// The character between the entries of `PATH`.
pub open spec fn path_separator(os: OsFamily) -> char {
    if os == OsFamily::Windows {
        ';'
    } else {
        ':'
    }
}

/// The file names under which a program may be installed.
pub open spec fn program_names(os: OsFamily, program: Seq<char>) -> Seq<Seq<char>> {
    if os == OsFamily::Windows {
        seq![program + ".exe"@, program + ".bat"@, program + ".cmd"@, program]
    } else {
        seq![program]
    }
}

/// Whether a program resolves on `PATH`.
pub open spec fn on_path(h: Host, program: Seq<char>) -> Result<bool, QuestionView> {
    match optional_text_answer(h, QuestionView::EnvVar("PATH"@)) {
        Err(q) => Err(q),
        Ok(None) => Ok(false),
        Ok(Some(path)) => match platform_answer(h, QuestionView::Platform) {
            Err(q) => Err(q),
            Ok(os) => any_file_in(
                h,
                pieces_of(path, path_separator(os)),
                program_names(os, program),
            ),
        },
    }
}

fn ask_any_file(h: &Answers, dir: &str, names: &Vec<String>) -> (r: Result<bool, Question>)
    ensures
        match r {
            Ok(v) => any_file(h@, dir@, texts(names@)) == Ok::<bool, QuestionView>(v),
            Err(q) => any_file(h@, dir@, texts(names@)) == Err::<bool, QuestionView>(q@),
        },
{
    let n: usize = names.len();
    let mut i: usize = 0;
    let ghost all = texts(names@);
    assert(all.skip(0) =~= all);
    while i < n
        invariant
            n == names@.len(),
            i <= n,
            all == texts(names@),
            any_file(h@, dir@, all) == any_file(h@, dir@, all.skip(i as int)),
        decreases n - i,
    {
        assert(all.skip(i as int).skip(1) =~= all.skip(i + 1));
        match ask_flag(h, Question::FileIn { dir: dir.to_owned(), name: names[i].clone() }) {
            Ok(true) => {
                return Ok(true);
            },
            Ok(false) => {},
            Err(q) => {
                return Err(q);
            },
        }
        i += 1;
    }
    Ok(false)
}

/// Whether one of the directories holds a file by one of the names.
pub fn ask_any_file_in(h: &Answers, dirs: &Vec<String>, names: &Vec<String>) -> (r: Result<
    bool,
    Question,
>)
    ensures
        match r {
            Ok(v) => any_file_in(h@, texts(dirs@), texts(names@)) == Ok::<bool, QuestionView>(v),
            Err(q) => any_file_in(h@, texts(dirs@), texts(names@)) == Err::<bool, QuestionView>(q@),
        },
{
    let n: usize = dirs.len();
    let mut i: usize = 0;
    let ghost all = texts(dirs@);
    assert(all.skip(0) =~= all);
    while i < n
        invariant
            n == dirs@.len(),
            i <= n,
            all == texts(dirs@),
            any_file_in(h@, all, texts(names@)) == any_file_in(
                h@,
                all.skip(i as int),
                texts(names@),
            ),
        decreases n - i,
    {
        assert(all.skip(i as int).skip(1) =~= all.skip(i + 1));
        if !dirs[i].as_str().is_empty() {
            match ask_any_file(h, dirs[i].as_str(), names) {
                Ok(true) => {
                    return Ok(true);
                },
                Ok(false) => {},
                Err(q) => {
                    return Err(q);
                },
            }
        }
        i += 1;
    }
    Ok(false)
}

/// Whether `program` resolves on `PATH`, without executing it.
pub fn which(h: &Answers, program: &str) -> (r: Result<bool, Question>)
    ensures
        match r {
            Ok(v) => on_path(h@, program@) == Ok::<bool, QuestionView>(v),
            Err(q) => on_path(h@, program@) == Err::<bool, QuestionView>(q@),
        },
{
    let path = match ask_optional_text(h, Question::EnvVar("PATH".to_owned())) {
        Ok(Some(path)) => path,
        Ok(None) => {
            return Ok(false);
        },
        Err(q) => {
            return Err(q);
        },
    };
    let os = match ask_platform(h, Question::Platform) {
        Ok(os) => os,
        Err(q) => {
            return Err(q);
        },
    };
    let mut names: Vec<String> = Vec::new();
    if os == OsFamily::Windows {
        names.push(concat(program, ".exe"));
        names.push(concat(program, ".bat"));
        names.push(concat(program, ".cmd"));
    }
    names.push(program.to_owned());
    assert(texts(names@) =~= program_names(os, program@));
    let separator = if os == OsFamily::Windows {
        ';'
    } else {
        ':'
    };
    ask_any_file_in(h, &split(path.as_str(), separator), &names)
}

} // verus!
