//! The operating system and the processor.

use vstd::prelude::*;
use vstd::string::*;

use crate::ask::{
    ask_flag, ask_platform, ask_text, flag_answer, one_arg, outcome, output_answer, plain_command,
    platform_answer, run, text_answer, three_args, two_args, MEDIUM, SHORT,
};
use crate::examination::{with_failure, Examination, ExaminationView};
use crate::host::{Answers, Host, OsFamily, Question, QuestionView};
use crate::split::{first_line, first_line_of, lines, lines_of, words, words_of};
use crate::text::{
    after_prefix, begins_with, contains, has_text, optional, same_text, sides_of, split_once,
    starts_with, strip_prefix, texts, trim, trim_matches, trimmed, unwrapped,
};
use crate::unicode::{lower_case, lower_text};

verus! {

// ---------------------------------------------------------------------------
// Kernel parameters and the distribution
// ---------------------------------------------------------------------------

/// The value that a kernel parameter gives the IOMMU.
pub open spec fn iommu_value(token: Seq<char>) -> Option<Seq<char>> {
    match after_prefix(token, "iommu="@) {
        Some(value) => if value.len() > 0 {
            Some(value)
        } else {
            None
        },
        None => None,
    }
}

/// The first IOMMU value among kernel parameters.
pub open spec fn first_iommu_value(tokens: Seq<Seq<char>>) -> Option<Seq<char>>
    decreases tokens.len(),
{
    if tokens.len() == 0 {
        None
    } else {
        match iommu_value(tokens[0]) {
            Some(value) => Some(value),
            None => first_iommu_value(tokens.skip(1)),
        }
    }
}

/// Extract the value of `iommu=<value>` from a kernel command line.
pub fn parse_iommu_param(cmdline: &str) -> (r: Option<String>)
    ensures
        optional(r) == first_iommu_value(words_of(cmdline@)),
{
    let tokens = words(cmdline);
    let n: usize = tokens.len();
    let mut i: usize = 0;
    let ghost all = words_of(cmdline@);
    assert(all.skip(0) =~= all);
    while i < n
        invariant
            n == tokens@.len(),
            i <= n,
            all == texts(tokens@),
            all == words_of(cmdline@),
            first_iommu_value(all) == first_iommu_value(all.skip(i as int)),
        decreases n - i,
    {
        assert(all.skip(i as int).skip(1) =~= all.skip(i + 1));
        assert(all.skip(i as int)[0] == tokens@[i as int]@);
        match strip_prefix(tokens[i].as_str(), "iommu=") {
            Some(value) => {
                if !value.as_str().is_empty() {
                    return Some(value);
                }
            },
            None => {},
        }
        i += 1;
    }
    None
}

/// The value that an `os-release` line gives to `key`, out of its quotes.
pub open spec fn release_value(line: Seq<char>, key: Seq<char>) -> Option<Seq<char>> {
    match sides_of(line, '=') {
        Some((k, v)) => if k == key {
            Some(unwrapped(trimmed(v), '"'))
        } else {
            None
        },
        None => None,
    }
}

/// The value that `os-release` gives to `key`; the last line that has one
/// counts.
pub open spec fn release_field(lines: Seq<Seq<char>>, key: Seq<char>) -> Option<Seq<char>>
    decreases lines.len(),
{
    if lines.len() == 0 {
        None
    } else {
        match release_value(lines.last(), key) {
            Some(value) => Some(value),
            None => release_field(lines.drop_last(), key),
        }
    }
}

/// `value`, or else what was there before.
pub open spec fn or_before(value: Option<Seq<char>>, before: Seq<char>) -> Seq<char> {
    match value {
        Some(value) => value,
        None => before,
    }
}

/// `e` with the distribution that `os-release` names.
pub open spec fn release_recorded(e: ExaminationView, text: Seq<char>) -> ExaminationView {
    let lines = lines_of(text);
    ExaminationView {
        distro_id: or_before(release_field(lines, "ID"@), e.distro_id),
        distro_version: or_before(release_field(lines, "VERSION_ID"@), e.distro_version),
        ..e
    }
}

/// Records the distribution that `os-release` names.
pub fn record_os_release(e: &mut Examination, text: &str)
    ensures
        final(e)@ == release_recorded(old(e)@, text@),
{
    let found = lines(text);
    let n: usize = found.len();
    let mut i: usize = 0;
    let ghost all = lines_of(text@);
    proof {
        reveal_strlit("ID");
        reveal_strlit("VERSION_ID");
    }
    assert("ID"@.len() != "VERSION_ID"@.len());
    while i < n
        invariant
            n == found@.len(),
            i <= n,
            all == texts(found@),
            "ID"@ != "VERSION_ID"@,
            e@ == (ExaminationView {
                distro_id: or_before(
                    release_field(all.take(i as int), "ID"@),
                    old(e)@.distro_id,
                ),
                distro_version: or_before(
                    release_field(all.take(i as int), "VERSION_ID"@),
                    old(e)@.distro_version,
                ),
                ..old(e)@
            }),
        decreases n - i,
    {
        assert(all.take(i + 1).drop_last() =~= all.take(i as int));
        assert(all.take(i + 1).last() == found@[i as int]@);
        match split_once(found[i].as_str(), '=') {
            Some((key, value)) => {
                let value = trim_matches(trim(value.as_str()).as_str(), '"');
                if same_text(key.as_str(), "ID") {
                    e.distro_id = value;
                } else if same_text(key.as_str(), "VERSION_ID") {
                    e.distro_version = value;
                }
            },
            None => {},
        }
        i += 1;
    }
    assert(all.take(n as int) =~= all);
}

// ---------------------------------------------------------------------------
// The operating system
// ---------------------------------------------------------------------------

/// `e` with what a Linux host says of itself.
pub open spec fn linux_recorded(
    e: ExaminationView,
    version: Seq<char>,
    release: Seq<char>,
    cmdline: Seq<char>,
    os_release: Seq<char>,
    is_wsl: bool,
) -> ExaminationView {
    ExaminationView {
        os_version: trimmed(version),
        os_family: "linux"@,
        kernel_release: trimmed(release),
        kernel_cmdline: trimmed(cmdline),
        iommu_kernel_param: or_before(
            first_iommu_value(words_of(trimmed(cmdline))),
            e.iommu_kernel_param,
        ),
        is_wsl,
        ..release_recorded(e, os_release)
    }
}

/// `e` after a Linux host was asked about itself.
pub open spec fn linux_probed(
    h: Host,
    e: ExaminationView,
) -> Result<ExaminationView, QuestionView> {
    match output_answer(h, plain_command("uname"@, seq!["-v"@], SHORT)) {
        Err(q) => Err(q),
        Ok(version) => match output_answer(h, plain_command("uname"@, seq!["-r"@], SHORT)) {
            Err(q) => Err(q),
            Ok(release) => match text_answer(h, QuestionView::ReadText("/proc/cmdline"@)) {
                Err(q) => Err(q),
                Ok(cmdline) => match text_answer(h, QuestionView::ReadText("/etc/os-release"@)) {
                    Err(q) => Err(q),
                    Ok(os_release) => match flag_answer(h, QuestionView::IsWslHost) {
                        Err(q) => Err(q),
                        Ok(is_wsl) => Ok(
                            linux_recorded(
                                e,
                                version.stdout,
                                release.stdout,
                                cmdline,
                                os_release,
                                is_wsl,
                            ),
                        ),
                    },
                },
            },
        },
    }
}

/// `e` after the operating system was asked about itself.
pub open spec fn os_probed(h: Host, e: ExaminationView) -> Result<ExaminationView, QuestionView> {
    match platform_answer(h, QuestionView::Platform) {
        Err(q) => Err(q),
        Ok(OsFamily::Linux) => linux_probed(h, e),
        Ok(OsFamily::Windows) => match output_answer(
            h,
            plain_command("cmd"@, seq!["/C"@, "ver"@], SHORT),
        ) {
            Err(q) => Err(q),
            Ok(out) => Ok(
                ExaminationView { os_version: trimmed(out.stdout), os_family: "windows"@, ..e },
            ),
        },
        Ok(OsFamily::Other) => Ok(
            ExaminationView { os_version: Seq::empty(), os_family: "other"@, ..e },
        ),
    }
}

/// Records what a Linux host says of itself.
pub fn record_linux(
    e: &mut Examination,
    version: &str,
    release: &str,
    cmdline: &str,
    os_release: &str,
    is_wsl: bool,
)
    ensures
        final(e)@ == linux_recorded(old(e)@, version@, release@, cmdline@, os_release@, is_wsl),
{
    e.os_version = trim(version);
    e.os_family = "linux".to_owned();
    e.kernel_release = trim(release);
    e.kernel_cmdline = trim(cmdline);
    record_os_release(e, os_release);
    match parse_iommu_param(e.kernel_cmdline.as_str()) {
        Some(param) => {
            e.iommu_kernel_param = param;
        },
        None => {},
    }
    e.is_wsl = is_wsl;
}

fn probe_linux(e: Examination, h: &Answers) -> (r: Result<Examination, Question>)
    ensures
        outcome(r) == linux_probed(h@, e@),
{
    let mut e = e;
    let version = match run(h, "uname", one_arg("-v"), SHORT) {
        Ok(out) => out.stdout,
        Err(q) => {
            return Err(q);
        },
    };
    let release = match run(h, "uname", one_arg("-r"), SHORT) {
        Ok(out) => out.stdout,
        Err(q) => {
            return Err(q);
        },
    };
    let cmdline = match ask_text(h, Question::ReadText("/proc/cmdline".to_owned())) {
        Ok(text) => text,
        Err(q) => {
            return Err(q);
        },
    };
    let os_release = match ask_text(h, Question::ReadText("/etc/os-release".to_owned())) {
        Ok(text) => text,
        Err(q) => {
            return Err(q);
        },
    };
    let is_wsl = match ask_flag(h, Question::IsWslHost) {
        Ok(is_wsl) => is_wsl,
        Err(q) => {
            return Err(q);
        },
    };
    record_linux(
        &mut e,
        version.as_str(),
        release.as_str(),
        cmdline.as_str(),
        os_release.as_str(),
        is_wsl,
    );
    Ok(e)
}

/// Asks the operating system about itself. Its version stays empty where the
/// probes do not support it: an empty field reads as "not collected", while a
/// wrong one would be reasoned over.
pub fn probe_os(e: Examination, h: &Answers) -> (r: Result<Examination, Question>)
    ensures
        outcome(r) == os_probed(h@, e@),
{
    let mut e = e;
    match ask_platform(h, Question::Platform) {
        Err(q) => Err(q),
        Ok(OsFamily::Linux) => probe_linux(e, h),
        Ok(OsFamily::Windows) => match run(h, "cmd", two_args("/C", "ver"), SHORT) {
            Err(q) => Err(q),
            Ok(out) => {
                e.os_version = trim(out.stdout.as_str());
                e.os_family = "windows".to_owned();
                Ok(e)
            },
        },
        Ok(OsFamily::Other) => {
            e.os_version = String::new();
            e.os_family = "other".to_owned();
            Ok(e)
        },
    }
}

// ---------------------------------------------------------------------------
// The processor
// ---------------------------------------------------------------------------

/// The vendor that a `vendor_id` value stands for.
pub open spec fn vendor_of(value: Seq<char>) -> Seq<char> {
    if has_text(value, "AMD"@) {
        "amd"@
    } else if has_text(value, "Intel"@) {
        "intel"@
    } else {
        lower_text(value)
    }
}

/// `e` with the vendor that a line of `/proc/cpuinfo` gives, if one is still
/// wanted.
pub open spec fn cpu_vendor_step(e: ExaminationView, line: Seq<char>) -> ExaminationView {
    match sides_of(line, ':') {
        Some((_, value)) => if e.cpu_vendor == "unknown"@ && begins_with(line, "vendor_id"@) {
            ExaminationView { cpu_vendor: vendor_of(trimmed(value)), ..e }
        } else {
            e
        },
        None => e,
    }
}

/// `e` with the model that a line of `/proc/cpuinfo` gives, if one is still
/// wanted.
pub open spec fn cpu_model_step(e: ExaminationView, line: Seq<char>) -> ExaminationView {
    match sides_of(line, ':') {
        Some((_, value)) => if e.cpu_model.len() == 0 && begins_with(line, "model name"@) {
            ExaminationView { cpu_model: trimmed(value), ..e }
        } else {
            e
        },
        None => e,
    }
}

/// `e` with the processor that the lines of `/proc/cpuinfo` describe.
pub open spec fn cpu_lines_recorded(e: ExaminationView, lines: Seq<Seq<char>>) -> ExaminationView
    decreases lines.len(),
{
    if lines.len() == 0 {
        e
    } else {
        cpu_lines_recorded(cpu_model_step(cpu_vendor_step(e, lines[0]), lines[0]), lines.skip(1))
    }
}

/// Once vendor and model are known, no further line matters.
proof fn lemma_cpu_settled(e: ExaminationView, lines: Seq<Seq<char>>)
    requires
        e.cpu_vendor != "unknown"@,
        e.cpu_model.len() > 0,
    ensures
        cpu_lines_recorded(e, lines) == e,
    decreases lines.len(),
{
    if lines.len() > 0 {
        lemma_cpu_settled(e, lines.skip(1));
    }
}

fn record_cpu_line(e: &mut Examination, line: &str)
    ensures
        final(e)@ == cpu_model_step(cpu_vendor_step(old(e)@, line@), line@),
{
    match split_once(line, ':') {
        Some((_, value)) => {
            let value = trim(value.as_str());
            if same_text(e.cpu_vendor.as_str(), "unknown") && starts_with(line, "vendor_id") {
                e.cpu_vendor = if contains(value.as_str(), "AMD") {
                    "amd".to_owned()
                } else if contains(value.as_str(), "Intel") {
                    "intel".to_owned()
                } else {
                    lower_case(value.as_str())
                };
            }
            if e.cpu_model.as_str().is_empty() && starts_with(line, "model name") {
                e.cpu_model = value;
            }
        },
        None => {},
    }
}

/// Records the processor that `/proc/cpuinfo` describes.
pub fn record_cpuinfo(e: &mut Examination, text: &str)
    ensures
        final(e)@ == cpu_lines_recorded(old(e)@, lines_of(text@)),
{
    let found = lines(text);
    let n: usize = found.len();
    let mut i: usize = 0;
    let ghost all = lines_of(text@);
    assert(all.skip(0) =~= all);
    while i < n
        invariant
            n == found@.len(),
            i <= n,
            all == texts(found@),
            cpu_lines_recorded(old(e)@, lines_of(text@)) == cpu_lines_recorded(
                e@,
                all.skip(i as int),
            ),
        decreases n - i,
    {
        assert(all.skip(i as int).skip(1) =~= all.skip(i + 1));
        assert(all.skip(i as int)[0] == found@[i as int]@);
        record_cpu_line(e, found[i].as_str());
        i += 1;
        if !same_text(e.cpu_vendor.as_str(), "unknown") && !e.cpu_model.as_str().is_empty() {
            proof {
                lemma_cpu_settled(e@, all.skip(i as int));
            }
            return;
        }
    }
}

/// `e` after `/proc/cpuinfo` was read.
pub open spec fn cpu_linux_probed(h: Host, e: ExaminationView) -> Result<
    ExaminationView,
    QuestionView,
> {
    match text_answer(h, QuestionView::ReadText("/proc/cpuinfo"@)) {
        Err(q) => Err(q),
        Ok(text) => Ok(cpu_lines_recorded(e, lines_of(text))),
    }
}

/// Identifies the processor of a Linux host.
pub fn probe_cpu_linux(e: Examination, h: &Answers) -> (r: Result<Examination, Question>)
    ensures
        outcome(r) == cpu_linux_probed(h@, e@),
{
    let mut e = e;
    match ask_text(h, Question::ReadText("/proc/cpuinfo".to_owned())) {
        Err(q) => Err(q),
        Ok(text) => {
            record_cpuinfo(&mut e, text.as_str());
            Ok(e)
        },
    }
}

/// The vendor named in a processor name in lower case.
pub open spec fn vendor_in_name(lname: Seq<char>) -> Seq<char> {
    if has_text(lname, "amd"@) {
        "amd"@
    } else if has_text(lname, "intel"@) {
        "intel"@
    } else {
        "unknown"@
    }
}

/// The vendor named in a processor name in lower case.
pub fn find_vendor_in_name(lname: &str) -> (r: String)
    ensures
        r@ == vendor_in_name(lname@),
{
    if contains(lname, "amd") {
        "amd".to_owned()
    } else if contains(lname, "intel") {
        "intel".to_owned()
    } else {
        "unknown".to_owned()
    }
}

/// The first line of a command's output, without the blanks around it.
pub open spec fn headline(out: Seq<char>) -> Seq<char> {
    trimmed(first_line(trimmed(out)))
}

/// The first line of a command's output, without the blanks around it.
pub fn headline_of(out: &str) -> (r: String)
    ensures
        r@ == headline(out@),
{
    trim(first_line_of(trim(out).as_str()).as_str())
}

/// `e` with the processor name that the Windows inventory printed.
pub open spec fn cpu_name_recorded(e: ExaminationView, rc: i32, out: Seq<char>) -> ExaminationView {
    if rc == 0 && trimmed(out).len() > 0 {
        ExaminationView {
            cpu_model: headline(out),
            cpu_vendor: vendor_in_name(lower_text(headline(out))),
            ..e
        }
    } else {
        with_failure(e, "Get-CimInstance Win32_Processor failed; cannot identify CPU."@)
    }
}

/// `e` after the Windows inventory was asked for the processor.
pub open spec fn cpu_windows_probed(h: Host, e: ExaminationView) -> Result<
    ExaminationView,
    QuestionView,
> {
    match output_answer(
        h,
        plain_command(
            "powershell"@,
            seq![
                "-NoProfile"@,
                "-Command"@,
                "(Get-CimInstance Win32_Processor | Select-Object -First 1).Name"@,
            ],
            MEDIUM,
        ),
    ) {
        Err(q) => Err(q),
        Ok(out) => Ok(cpu_name_recorded(e, out.rc, out.stdout)),
    }
}

/// Records the processor name that the Windows inventory printed.
pub fn record_cpu_name(e: &mut Examination, rc: i32, out: &str)
    ensures
        final(e)@ == cpu_name_recorded(old(e)@, rc, out@),
{
    if rc == 0 && !trim(out).as_str().is_empty() {
        e.cpu_model = headline_of(out);
        e.cpu_vendor = find_vendor_in_name(lower_case(e.cpu_model.as_str()).as_str());
    } else {
        e.add_failure("Get-CimInstance Win32_Processor failed; cannot identify CPU.".to_owned());
    }
}

/// Identifies the processor of a Windows host.
pub fn probe_cpu_windows(e: Examination, h: &Answers) -> (r: Result<Examination, Question>)
    ensures
        outcome(r) == cpu_windows_probed(h@, e@),
{
    let mut e = e;
    let args = three_args(
        "-NoProfile",
        "-Command",
        "(Get-CimInstance Win32_Processor | Select-Object -First 1).Name",
    );
    match run(h, "powershell", args, MEDIUM) {
        Err(q) => Err(q),
        Ok(out) => {
            record_cpu_name(&mut e, out.rc, out.stdout.as_str());
            Ok(e)
        },
    }
}

} // verus!
