//! What the probes ask of the host, and what it answered.
//!
//! No probe touches the machine. Each is a function of the answers recorded so
//! far: it either finishes, or it returns the one [`Question`] it cannot go on
//! without. Whoever runs the examination answers that question, records the
//! answer and runs the probe again.

use vstd::prelude::*;
use vstd::string::*;

use crate::text::{optional, same_text, texts};
use crate::unicode::{decode_utf8_bytes, keeps_all, utf8_text};

verus! {

// ---------------------------------------------------------------------------
// Answers
// ---------------------------------------------------------------------------

/// The operating systems the probes tell apart.
#[derive(Debug, Clone, Copy, PartialEq, Eq, Structural)]
pub enum OsFamily {
    Linux,
    Windows,
    Other,
}

/// What a command left behind: `127` stands for a program that could not be
/// started, `124` for one that ran out of time.
#[derive(Debug, PartialEq, Eq)]
pub struct RawOutput {
    pub rc: i32,
    pub stdout: Vec<u8>,
    pub stderr: Vec<u8>,
}

/// What a [`RawOutput`] holds.
pub struct RawOutputView {
    pub rc: i32,
    pub stdout: Seq<u8>,
    pub stderr: Seq<u8>,
}

impl View for RawOutput {
    type V = RawOutputView;

    open spec fn view(&self) -> RawOutputView {
        RawOutputView { rc: self.rc, stdout: self.stdout@, stderr: self.stderr@ }
    }
}

/// What a command left behind, as text.
#[derive(Debug, PartialEq, Eq)]
pub struct CommandOutput {
    pub rc: i32,
    pub stdout: String,
    pub stderr: String,
}

/// What a [`CommandOutput`] holds.
pub struct CommandOutputView {
    pub rc: i32,
    pub stdout: Seq<char>,
    pub stderr: Seq<char>,
}

impl View for CommandOutput {
    type V = CommandOutputView;

    open spec fn view(&self) -> CommandOutputView {
        CommandOutputView { rc: self.rc, stdout: self.stdout@, stderr: self.stderr@ }
    }
}

/// Command output read as UTF-8, undecodable bytes replaced rather than dropped.
pub open spec fn utf8_output(raw: RawOutputView) -> CommandOutputView {
    CommandOutputView {
        rc: raw.rc,
        stdout: utf8_text(raw.stdout),
        stderr: utf8_text(raw.stderr),
    }
}

/// Whether command output keeps all that its bytes hold.
pub open spec fn keeps_output(raw: RawOutputView, out: CommandOutputView) -> bool {
    &&& keeps_all(raw.stdout, out.stdout)
    &&& keeps_all(raw.stderr, out.stderr)
}

impl CommandOutput {
    /// Reads command output as UTF-8. Output that is UTF-8 is read as it stands,
    /// and a byte that is not does not take the rest with it.
    pub fn from_raw(raw: &RawOutput) -> (r: Self)
        ensures
            r@ == utf8_output(raw@),
            keeps_output(raw@, r@),
    {
        CommandOutput {
            rc: raw.rc,
            stdout: decode_utf8_bytes(raw.stdout.as_slice()),
            stderr: decode_utf8_bytes(raw.stderr.as_slice()),
        }
    }
}

/// One entry of a directory.
#[derive(Debug, PartialEq, Eq)]
pub struct DirEntry {
    pub name: String,
    pub path: String,
}

/// What a [`DirEntry`] holds.
pub struct DirEntryView {
    pub name: Seq<char>,
    pub path: Seq<char>,
}

impl View for DirEntry {
    type V = DirEntryView;

    open spec fn view(&self) -> DirEntryView {
        DirEntryView { name: self.name@, path: self.path@ }
    }
}

/// What each of several directory entries holds.
pub open spec fn entry_views(v: Seq<DirEntry>) -> Seq<DirEntryView> {
    Seq::new(v.len(), |i: int| v[i]@)
}

/// What the listing of a directory holds; `None` where it cannot be read.
pub open spec fn listing_view(v: Option<Vec<DirEntry>>) -> Option<Seq<DirEntryView>> {
    match v {
        Some(v) => Some(entry_views(v@)),
        None => None,
    }
}

/// The size of a filesystem, in fragments.
#[derive(Debug, Clone, Copy, PartialEq, Eq, Structural)]
pub struct FilesystemStats {
    pub fragment_size: u64,
    pub blocks: u64,
    pub available: u64,
}

/// The WSL plumbing that is in place.
#[derive(Debug, Clone, Copy, PartialEq, Eq, Structural)]
pub struct WslSummary {
    pub dxg_device: bool,
    pub dxcore: bool,
    pub librocdxg: bool,
    pub rocdxg_dids: bool,
}

/// What the Windows host says of its display driver.
#[derive(Debug, PartialEq, Eq)]
pub enum WslHostDriverProbe {
    Unreachable,
    NoAmdDisplay,
    Version(String),
}

/// What a [`WslHostDriverProbe`] holds.
pub enum WslHostDriverProbeView {
    Unreachable,
    NoAmdDisplay,
    Version(Seq<char>),
}

impl View for WslHostDriverProbe {
    type V = WslHostDriverProbeView;

    open spec fn view(&self) -> WslHostDriverProbeView {
        match self {
            WslHostDriverProbe::Unreachable => WslHostDriverProbeView::Unreachable,
            WslHostDriverProbe::NoAmdDisplay => WslHostDriverProbeView::NoAmdDisplay,
            WslHostDriverProbe::Version(v) => WslHostDriverProbeView::Version(v@),
        }
    }
}

/// A ROCm install on the host.
#[derive(Debug, PartialEq, Eq)]
pub struct RocmInstall {
    pub path: String,
    pub version: Option<String>,
}

/// What a [`RocmInstall`] holds.
pub struct RocmInstallView {
    pub path: Seq<char>,
    pub version: Option<Seq<char>>,
}

impl View for RocmInstall {
    type V = RocmInstallView;

    open spec fn view(&self) -> RocmInstallView {
        RocmInstallView { path: self.path@, version: optional(self.version) }
    }
}

/// What an optional install holds.
pub open spec fn install_view(v: Option<RocmInstall>) -> Option<RocmInstallView> {
    match v {
        Some(v) => Some(v@),
        None => None,
    }
}

/// A loader path joined from its entries: the variable that carries it, and its
/// value or the reason why there is none.
#[derive(Debug, PartialEq, Eq)]
pub struct LoaderPath {
    pub variable: String,
    pub composed: Result<String, String>,
}

/// What a [`LoaderPath`] holds.
pub struct LoaderPathView {
    pub variable: Seq<char>,
    pub composed: Result<Seq<char>, Seq<char>>,
}

impl View for LoaderPath {
    type V = LoaderPathView;

    open spec fn view(&self) -> LoaderPathView {
        LoaderPathView {
            variable: self.variable@,
            composed: match self.composed {
                Ok(v) => Ok(v@),
                Err(v) => Err(v@),
            },
        }
    }
}

/// An answer of the host.
#[derive(Debug, PartialEq, Eq)]
pub enum Reply {
    Flag(bool),
    OptionalFlag(Option<bool>),
    Text(String),
    OptionalText(Option<String>),
    Output(RawOutput),
    Listing(Option<Vec<DirEntry>>),
    Filesystem(Option<FilesystemStats>),
    Platform(OsFamily),
    WslSummary(Option<WslSummary>),
    HostDriver(WslHostDriverProbe),
    Install(Option<RocmInstall>),
    Paths(Option<Vec<String>>),
    LoaderPath(LoaderPath),
}

/// What an optional list of paths holds.
pub open spec fn paths_view(v: Option<Vec<String>>) -> Option<Seq<Seq<char>>> {
    match v {
        Some(v) => Some(texts(v@)),
        None => None,
    }
}

/// What a [`Reply`] holds.
pub enum ReplyView {
    Flag(bool),
    OptionalFlag(Option<bool>),
    Text(Seq<char>),
    OptionalText(Option<Seq<char>>),
    Output(RawOutputView),
    Listing(Option<Seq<DirEntryView>>),
    Filesystem(Option<FilesystemStats>),
    Platform(OsFamily),
    WslSummary(Option<WslSummary>),
    HostDriver(WslHostDriverProbeView),
    Install(Option<RocmInstallView>),
    Paths(Option<Seq<Seq<char>>>),
    LoaderPath(LoaderPathView),
}

impl View for Reply {
    type V = ReplyView;

    open spec fn view(&self) -> ReplyView {
        match self {
            Reply::Flag(v) => ReplyView::Flag(*v),
            Reply::OptionalFlag(v) => ReplyView::OptionalFlag(*v),
            Reply::Text(v) => ReplyView::Text(v@),
            Reply::OptionalText(v) => ReplyView::OptionalText(optional(*v)),
            Reply::Output(v) => ReplyView::Output(v@),
            Reply::Listing(v) => ReplyView::Listing(listing_view(*v)),
            Reply::Filesystem(v) => ReplyView::Filesystem(*v),
            Reply::Platform(v) => ReplyView::Platform(*v),
            Reply::WslSummary(v) => ReplyView::WslSummary(*v),
            Reply::HostDriver(v) => ReplyView::HostDriver(v@),
            Reply::Install(v) => ReplyView::Install(install_view(*v)),
            Reply::Paths(v) => ReplyView::Paths(paths_view(*v)),
            Reply::LoaderPath(v) => ReplyView::LoaderPath(v@),
        }
    }
}

// ---------------------------------------------------------------------------
// Questions
// ---------------------------------------------------------------------------

/// A command to run, with environment variables laid over the inherited ones.
#[derive(Debug, PartialEq, Eq)]
pub struct Command {
    pub program: String,
    pub args: Vec<String>,
    pub envs: Vec<(String, String)>,
    pub timeout_secs: u64,
}

/// What a [`Command`] holds.
#[verifier::ext_equal]
pub struct CommandView {
    pub program: Seq<char>,
    pub args: Seq<Seq<char>>,
    pub envs: Seq<(Seq<char>, Seq<char>)>,
    pub timeout_secs: u64,
}

/// The views of pairs of strings.
pub open spec fn text_pairs(v: Seq<(String, String)>) -> Seq<(Seq<char>, Seq<char>)> {
    Seq::new(v.len(), |i: int| (v[i].0@, v[i].1@))
}

impl View for Command {
    type V = CommandView;

    open spec fn view(&self) -> CommandView {
        CommandView {
            program: self.program@,
            args: texts(self.args@),
            envs: text_pairs(self.envs@),
            timeout_secs: self.timeout_secs,
        }
    }
}

/// What a probe needs to know of the host.
#[derive(Debug, PartialEq, Eq)]
pub enum Question {
    /// Run a command. Answered by [`Reply::Output`].
    Run(Command),
    /// The text of a file, empty where it cannot be read. [`Reply::Text`].
    ReadText(String),
    /// Whether a path exists. [`Reply::Flag`].
    Exists(String),
    /// Whether a path is a directory. [`Reply::Flag`].
    IsDir(String),
    /// Whether a directory holds a file of this name. [`Reply::Flag`].
    FileIn { dir: String, name: String },
    /// The entries of a directory. [`Reply::Listing`].
    ListDir(String),
    /// An environment variable. [`Reply::OptionalText`].
    EnvVar(String),
    /// The size of the filesystem at a path. [`Reply::Filesystem`].
    Filesystem(String),
    /// The operating system. [`Reply::Platform`].
    Platform,
    /// Whether this is a WSL guest. [`Reply::Flag`].
    IsWslHost,
    /// The WSL plumbing in place. [`Reply::WslSummary`].
    WslPlumbing,
    /// The driver of the Windows host, asked across WSL. [`Reply::HostDriver`].
    WslHostDriver,
    /// The driver of this Windows host. [`Reply::HostDriver`].
    LocalHostDriver,
    /// Whether a kernel release is one of WSL 1. [`Reply::Flag`].
    IsWsl1Kernel(String),
    /// Whether the linker cache lists ROCDXG. [`Reply::OptionalFlag`].
    LdconfigListsRocdxg,
    /// The GPU target in the kernel topology. [`Reply::OptionalText`].
    SysfsGfxTarget,
    /// The active ROCm install. [`Reply::Install`].
    ActiveRocmInstall,
    /// The version an install states of itself. [`Reply::OptionalText`].
    RocmInstallVersion(String),
    /// The last component of a path. [`Reply::OptionalText`].
    FileName(String),
    /// The path of the file of this name in a directory under a root, where it
    /// is there. [`Reply::OptionalText`].
    ProgramUnder { root: String, dir: String, name: String },
    /// The first gfx target named in a text. [`Reply::OptionalText`].
    FirstGfxToken(String),
    /// The entries of the loader path in the environment, where it is set.
    /// [`Reply::Paths`].
    LoaderPathEntries,
    /// A loader path made of these entries. [`Reply::LoaderPath`].
    JoinLoaderPath(Vec<String>),
}

/// What a [`Question`] holds.
pub enum QuestionView {
    Run(CommandView),
    ReadText(Seq<char>),
    Exists(Seq<char>),
    IsDir(Seq<char>),
    FileIn { dir: Seq<char>, name: Seq<char> },
    ListDir(Seq<char>),
    EnvVar(Seq<char>),
    Filesystem(Seq<char>),
    Platform,
    IsWslHost,
    WslPlumbing,
    WslHostDriver,
    LocalHostDriver,
    IsWsl1Kernel(Seq<char>),
    LdconfigListsRocdxg,
    SysfsGfxTarget,
    ActiveRocmInstall,
    RocmInstallVersion(Seq<char>),
    FileName(Seq<char>),
    ProgramUnder { root: Seq<char>, dir: Seq<char>, name: Seq<char> },
    FirstGfxToken(Seq<char>),
    LoaderPathEntries,
    JoinLoaderPath(Seq<Seq<char>>),
}

impl View for Question {
    type V = QuestionView;

    open spec fn view(&self) -> QuestionView {
        match self {
            Question::Run(c) => QuestionView::Run(c@),
            Question::ReadText(s) => QuestionView::ReadText(s@),
            Question::Exists(s) => QuestionView::Exists(s@),
            Question::IsDir(s) => QuestionView::IsDir(s@),
            Question::FileIn { dir, name } => QuestionView::FileIn { dir: dir@, name: name@ },
            Question::ListDir(s) => QuestionView::ListDir(s@),
            Question::EnvVar(s) => QuestionView::EnvVar(s@),
            Question::Filesystem(s) => QuestionView::Filesystem(s@),
            Question::Platform => QuestionView::Platform,
            Question::IsWslHost => QuestionView::IsWslHost,
            Question::WslPlumbing => QuestionView::WslPlumbing,
            Question::WslHostDriver => QuestionView::WslHostDriver,
            Question::LocalHostDriver => QuestionView::LocalHostDriver,
            Question::IsWsl1Kernel(s) => QuestionView::IsWsl1Kernel(s@),
            Question::LdconfigListsRocdxg => QuestionView::LdconfigListsRocdxg,
            Question::SysfsGfxTarget => QuestionView::SysfsGfxTarget,
            Question::ActiveRocmInstall => QuestionView::ActiveRocmInstall,
            Question::RocmInstallVersion(s) => QuestionView::RocmInstallVersion(s@),
            Question::FileName(s) => QuestionView::FileName(s@),
            Question::ProgramUnder { root, dir, name } => QuestionView::ProgramUnder {
                root: root@,
                dir: dir@,
                name: name@,
            },
            Question::FirstGfxToken(s) => QuestionView::FirstGfxToken(s@),
            Question::LoaderPathEntries => QuestionView::LoaderPathEntries,
            Question::JoinLoaderPath(v) => QuestionView::JoinLoaderPath(texts(v@)),
        }
    }
}

/// Whether a reply is of the kind that the question calls for.
pub open spec fn fits(q: QuestionView, reply: ReplyView) -> bool {
    match q {
        QuestionView::Run(_) => reply is Output,
        QuestionView::ReadText(_) => reply is Text,
        QuestionView::Exists(_) => reply is Flag,
        QuestionView::IsDir(_) => reply is Flag,
        QuestionView::FileIn { .. } => reply is Flag,
        QuestionView::ListDir(_) => reply is Listing,
        QuestionView::EnvVar(_) => reply is OptionalText,
        QuestionView::Filesystem(_) => reply is Filesystem,
        QuestionView::Platform => reply is Platform,
        QuestionView::IsWslHost => reply is Flag,
        QuestionView::WslPlumbing => reply is WslSummary,
        QuestionView::WslHostDriver => reply is HostDriver,
        QuestionView::LocalHostDriver => reply is HostDriver,
        QuestionView::IsWsl1Kernel(_) => reply is Flag,
        QuestionView::LdconfigListsRocdxg => reply is OptionalFlag,
        QuestionView::SysfsGfxTarget => reply is OptionalText,
        QuestionView::ActiveRocmInstall => reply is Install,
        QuestionView::RocmInstallVersion(_) => reply is OptionalText,
        QuestionView::FileName(_) => reply is OptionalText,
        QuestionView::ProgramUnder { .. } => reply is OptionalText,
        QuestionView::FirstGfxToken(_) => reply is OptionalText,
        QuestionView::LoaderPathEntries => reply is Paths,
        QuestionView::JoinLoaderPath(_) => reply is LoaderPath,
    }
}

fn same_texts(a: &Vec<String>, b: &Vec<String>) -> (r: bool)
    ensures
        r == (texts(a@) == texts(b@)),
{
    let n: usize = a.len();
    if n != b.len() {
        assert(texts(a@).len() != texts(b@).len());
        return false;
    }
    let mut i: usize = 0;
    while i < n
        invariant
            n == a@.len(),
            n == b@.len(),
            i <= n,
            forall|j: int| 0 <= j < i ==> texts(a@)[j] == texts(b@)[j],
        decreases n - i,
    {
        if !same_text(a[i].as_str(), b[i].as_str()) {
            assert(texts(a@)[i as int] != texts(b@)[i as int]);
            return false;
        }
        i += 1;
    }
    assert(texts(a@) =~= texts(b@));
    true
}

fn same_pairs(a: &Vec<(String, String)>, b: &Vec<(String, String)>) -> (r: bool)
    ensures
        r == (text_pairs(a@) == text_pairs(b@)),
{
    let n: usize = a.len();
    if n != b.len() {
        assert(text_pairs(a@).len() != text_pairs(b@).len());
        return false;
    }
    let mut i: usize = 0;
    while i < n
        invariant
            n == a@.len(),
            n == b@.len(),
            i <= n,
            forall|j: int| 0 <= j < i ==> text_pairs(a@)[j] == text_pairs(b@)[j],
        decreases n - i,
    {
        if !same_text(a[i].0.as_str(), b[i].0.as_str()) || !same_text(
            a[i].1.as_str(),
            b[i].1.as_str(),
        ) {
            assert(text_pairs(a@)[i as int] != text_pairs(b@)[i as int]);
            return false;
        }
        i += 1;
    }
    assert(text_pairs(a@) =~= text_pairs(b@));
    true
}

fn same_command(a: &Command, b: &Command) -> (r: bool)
    ensures
        r == (a@ == b@),
{
    a.timeout_secs == b.timeout_secs && same_text(a.program.as_str(), b.program.as_str())
        && same_texts(&a.args, &b.args) && same_pairs(&a.envs, &b.envs)
}

/// Whether two questions ask the same.
fn same_question(a: &Question, b: &Question) -> (r: bool)
    ensures
        r == (a@ == b@),
{
    match (a, b) {
        (Question::Run(x), Question::Run(y)) => same_command(x, y),
        (Question::ReadText(x), Question::ReadText(y)) => same_text(x.as_str(), y.as_str()),
        (Question::Exists(x), Question::Exists(y)) => same_text(x.as_str(), y.as_str()),
        (Question::IsDir(x), Question::IsDir(y)) => same_text(x.as_str(), y.as_str()),
        (Question::FileIn { dir: d, name: n }, Question::FileIn { dir: e, name: m }) => same_text(
            d.as_str(),
            e.as_str(),
        ) && same_text(n.as_str(), m.as_str()),
        (Question::ListDir(x), Question::ListDir(y)) => same_text(x.as_str(), y.as_str()),
        (Question::EnvVar(x), Question::EnvVar(y)) => same_text(x.as_str(), y.as_str()),
        (Question::Filesystem(x), Question::Filesystem(y)) => same_text(x.as_str(), y.as_str()),
        (Question::Platform, Question::Platform) => true,
        (Question::IsWslHost, Question::IsWslHost) => true,
        (Question::WslPlumbing, Question::WslPlumbing) => true,
        (Question::WslHostDriver, Question::WslHostDriver) => true,
        (Question::LocalHostDriver, Question::LocalHostDriver) => true,
        (Question::IsWsl1Kernel(x), Question::IsWsl1Kernel(y)) => same_text(
            x.as_str(),
            y.as_str(),
        ),
        (Question::LdconfigListsRocdxg, Question::LdconfigListsRocdxg) => true,
        (Question::SysfsGfxTarget, Question::SysfsGfxTarget) => true,
        (Question::ActiveRocmInstall, Question::ActiveRocmInstall) => true,
        (Question::RocmInstallVersion(x), Question::RocmInstallVersion(y)) => same_text(
            x.as_str(),
            y.as_str(),
        ),
        (Question::FileName(x), Question::FileName(y)) => same_text(x.as_str(), y.as_str()),
        (
            Question::ProgramUnder { root: r, dir: d, name: n },
            Question::ProgramUnder { root: s, dir: e, name: m },
        ) => same_text(r.as_str(), s.as_str()) && same_text(d.as_str(), e.as_str()) && same_text(
            n.as_str(),
            m.as_str(),
        ),
        (Question::FirstGfxToken(x), Question::FirstGfxToken(y)) => same_text(
            x.as_str(),
            y.as_str(),
        ),
        (Question::LoaderPathEntries, Question::LoaderPathEntries) => true,
        (Question::JoinLoaderPath(x), Question::JoinLoaderPath(y)) => same_texts(x, y),
        _ => false,
    }
}

// ---------------------------------------------------------------------------
// The record of answers
// ---------------------------------------------------------------------------

/// What is known of a host: its answers to the questions asked so far.
pub type Host = Map<QuestionView, ReplyView>;

/// What recorded answers say; a later answer replaces an earlier one.
pub open spec fn answered(entries: Seq<(Question, Reply)>) -> Host
    decreases entries.len(),
{
    if entries.len() == 0 {
        Map::empty()
    } else {
        answered(entries.drop_last()).insert(entries.last().0@, entries.last().1@)
    }
}

/// The answers recorded in the course of an examination.
#[derive(Debug)]
pub struct Answers {
    entries: Vec<(Question, Reply)>,
}

impl View for Answers {
    type V = Host;

    closed spec fn view(&self) -> Host {
        answered(self.entries@)
    }
}

impl Answers {
    /// No answers yet.
    pub fn new() -> (r: Self)
        ensures
            r@ == Map::<QuestionView, ReplyView>::empty(),
    {
        Answers { entries: Vec::new() }
    }

    /// Records the answer to a question.
    pub fn record(&mut self, question: Question, reply: Reply)
        ensures
            final(self)@ == old(self)@.insert(question@, reply@),
    {
        let ghost before = self.entries@;
        self.entries.push((question, reply));
        assert(self.entries@.drop_last() =~= before);
    }

    /// The recorded answer to a question.
    pub fn find(&self, question: &Question) -> (r: Option<&Reply>)
        ensures
            match r {
                Some(reply) => self@.contains_key(question@) && self@[question@] == reply@,
                None => !self@.contains_key(question@),
            },
    {
        let mut i: usize = self.entries.len();
        assert(self.entries@.take(i as int) =~= self.entries@);
        while i > 0
            invariant
                i <= self.entries@.len(),
                self@.contains_key(question@) == answered(
                    self.entries@.take(i as int),
                ).contains_key(question@),
                self@.contains_key(question@) ==> self@[question@] == answered(
                    self.entries@.take(i as int),
                )[question@],
            decreases i,
        {
            assert(self.entries@.take(i as int).drop_last() =~= self.entries@.take(i - 1));
            if same_question(&self.entries[i - 1].0, question) {
                return Some(&self.entries[i - 1].1);
            }
            i -= 1;
        }
        None
    }
}

} // verus!
