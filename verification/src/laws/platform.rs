//! What holds of the probes of operating system and processor.

use vstd::prelude::*;
use vstd::string::*;

use crate::examination::ExaminationView;
use crate::host::{Host, OsFamily, QuestionView, ReplyView};
use crate::laws::text::{
    all_space, are_lines, ends_line, holds, is_bare, is_line, law_after_prefix, law_blank_text,
    law_first_line, law_prefix, law_printed_lines, law_search, law_sides, law_trim, law_unwrap,
    text_of,
};
use crate::laws::told::{lemma_prints, prints, tells};
use crate::platform::{
    cpu_lines_recorded, cpu_linux_probed, cpu_model_step, cpu_vendor_step, cpu_windows_probed,
    first_iommu_value, headline, iommu_value, os_probed, release_field, release_recorded,
};
use crate::split::words_of;
use crate::text::{begins_with, sides_of, trimmed};
use crate::unicode::lower_text;

verus! {

broadcast use law_search;

// ---------------------------------------------------------------------------
// The operating system
// ---------------------------------------------------------------------------

/// A Linux host is told by its own words: what `uname` prints, its command line
/// and its release file, each without the blanks around it.
pub proof fn law_linux_is_told(
    h: Host,
    e: ExaminationView,
    version: Seq<char>,
    release: Seq<char>,
    cmdline: Seq<char>,
    os_release: Seq<char>,
    is_wsl: bool,
    rc: i32,
    err: Seq<char>,
)
    requires
        tells(h, QuestionView::Platform, ReplyView::Platform(OsFamily::Linux)),
        prints(h, "uname"@, seq!["-v"@], 5, rc, version, err),
        prints(h, "uname"@, seq!["-r"@], 5, rc, release, err),
        tells(h, QuestionView::ReadText("/proc/cmdline"@), ReplyView::Text(cmdline)),
        tells(h, QuestionView::ReadText("/etc/os-release"@), ReplyView::Text(os_release)),
        tells(h, QuestionView::IsWslHost, ReplyView::Flag(is_wsl)),
    ensures
        os_probed(h, e) matches Ok(after) && {
            let param = first_iommu_value(words_of(trimmed(cmdline)));
            &&& after.os_family == "linux"@
            &&& after.os_version == trimmed(version)
            &&& after.kernel_release == trimmed(release)
            &&& after.kernel_cmdline == trimmed(cmdline)
            &&& after.is_wsl == is_wsl
            &&& param matches Some(value) ==> after.iommu_kernel_param == value
            &&& param is None ==> after.iommu_kernel_param == e.iommu_kernel_param
            &&& after.distro_id == release_recorded(e, os_release).distro_id
            &&& after.distro_version == release_recorded(e, os_release).distro_version
            &&& after == (ExaminationView {
                os_family: after.os_family,
                os_version: after.os_version,
                kernel_release: after.kernel_release,
                kernel_cmdline: after.kernel_cmdline,
                is_wsl: after.is_wsl,
                iommu_kernel_param: after.iommu_kernel_param,
                distro_id: after.distro_id,
                distro_version: after.distro_version,
                ..e
            })
        },
{
    lemma_prints(h, "uname"@, seq!["-v"@], 5, rc, version, err);
    lemma_prints(h, "uname"@, seq!["-r"@], 5, rc, release, err);
}

/// A Windows host is told by what `ver` prints, and of any other nothing but
/// that it is another.
pub proof fn law_other_systems_are_told(
    h: Host,
    e: ExaminationView,
    rc: i32,
    out: Seq<char>,
    err: Seq<char>,
)
    ensures
        tells(h, QuestionView::Platform, ReplyView::Platform(OsFamily::Windows)) && prints(
            h,
            "cmd"@,
            seq!["/C"@, "ver"@],
            5,
            rc,
            out,
            err,
        ) ==> os_probed(h, e) == Ok::<ExaminationView, QuestionView>(
            ExaminationView { os_family: "windows"@, os_version: trimmed(out), ..e },
        ),
        tells(h, QuestionView::Platform, ReplyView::Platform(OsFamily::Other)) ==> os_probed(h, e)
            == Ok::<ExaminationView, QuestionView>(
            ExaminationView { os_family: "other"@, os_version: Seq::empty(), ..e },
        ),
{
    if prints(h, "cmd"@, seq!["/C"@, "ver"@], 5, rc, out, err) {
        lemma_prints(h, "cmd"@, seq!["/C"@, "ver"@], 5, rc, out, err);
    }
}

// ---------------------------------------------------------------------------
// Kernel parameters and the release file
// ---------------------------------------------------------------------------

/// Whether a kernel parameter gives the IOMMU a value.
pub open spec fn gives_iommu(word: Seq<char>) -> bool {
    exists|value: Seq<char>| value.len() > 0 && word == #[trigger] ("iommu="@ + value)
}

proof fn lemma_iommu(word: Seq<char>)
    ensures
        iommu_value(word) is Some <==> gives_iommu(word),
        iommu_value(word) matches Some(value) ==> value.len() > 0 && word == "iommu="@ + value,
{
    law_prefix(word, "iommu="@);
    if gives_iommu(word) {
        let value = choose|value: Seq<char>|
            value.len() > 0 && word == #[trigger] ("iommu="@ + value);
        law_after_prefix("iommu="@, value);
    }
}

/// The first parameter that gives the IOMMU a value counts, and no parameter of
/// a longer or another name does.
pub proof fn law_first_iommu_parameter_counts(
    before: Seq<Seq<char>>,
    value: Seq<char>,
    after: Seq<Seq<char>>,
)
    requires
        forall|i: int| 0 <= i < before.len() ==> !gives_iommu(#[trigger] before[i]),
        value.len() > 0,
    ensures
        first_iommu_value(before + seq!["iommu="@ + value] + after) == Some(value),
        first_iommu_value(before) is None,
    decreases before.len(),
{
    let word = "iommu="@ + value;
    let all = before + seq![word] + after;
    if before.len() == 0 {
        assert(all[0] == word);
        law_after_prefix("iommu="@, value);
    } else {
        assert(!gives_iommu(before[0]));
        lemma_iommu(before[0]);
        let rest = before.skip(1);
        assert forall|i: int| 0 <= i < rest.len() implies !gives_iommu(#[trigger] rest[i]) by {
            assert(rest[i] == before[i + 1]);
        }
        assert(all[0] == before[0]);
        assert(all.skip(1) =~= rest + seq![word] + after);
        law_first_iommu_parameter_counts(rest, value, after);
    }
}

/// A line of the release file gives its key the value behind the equals sign,
/// out of its quotes; the last line with a key counts, and a line with another
/// key, or without a sign, changes nothing.
pub proof fn law_release_lines_are_read(
    lines: Seq<Seq<char>>,
    key: Seq<char>,
    lead: Seq<char>,
    value: Seq<char>,
    trail: Seq<char>,
    other: Seq<char>,
    text: Seq<char>,
)
    requires
        !key.contains('='),
        all_space(lead),
        all_space(trail),
        value.len() > 0,
        is_bare(value),
        value[0] != '"',
        value.last() != '"',
        !other.contains('='),
        other != key,
    ensures
        release_field(Seq::empty(), key) is None,
        release_field(lines.push(key + seq!['='] + (lead + value + trail)), key) == Some(value),
        release_field(
            lines.push(key + seq!['='] + (lead + (seq!['"'] + value + seq!['"']) + trail)),
            key,
        ) == Some(value),
        release_field(lines.push(key + seq!['='] + lead), key) == Some(Seq::<char>::empty()),
        release_field(lines.push(other + seq!['='] + text), key) == release_field(lines, key),
        release_field(lines.push(other), key) == release_field(lines, key),
{
    let none = Seq::<char>::empty();
    let quoted = seq!['"'] + value + seq!['"'];
    let bare = lead + value + trail;
    let padded = lead + quoted + trail;
    assert(lines.push(key + seq!['='] + bare).drop_last() =~= lines);
    assert(lines.push(key + seq!['='] + padded).drop_last() =~= lines);
    assert(lines.push(key + seq!['='] + lead).drop_last() =~= lines);
    assert(lines.push(other + seq!['='] + text).drop_last() =~= lines);
    assert(lines.push(other).drop_last() =~= lines);
    law_sides(key, '=', bare);
    law_sides(key, '=', padded);
    law_sides(key, '=', lead);
    law_sides(other, '=', text);
    law_blank_text(lead);
    law_trim(lead, value, trail);
    assert(none + value + none =~= value);
    law_unwrap(none, value, none, '"');
    assert(quoted[0] == '"' && quoted.last() == '"');
    law_trim(lead, quoted, trail);
    law_unwrap(seq!['"'], value, seq!['"'], '"');
}

/// The distribution is what the release file calls `ID`, and its version what
/// the file calls `VERSION_ID`; what the file does not say stays as it was.
pub proof fn law_release_is_recorded(e: ExaminationView, lines: Seq<Seq<char>>)
    requires
        are_lines(lines),
    ensures
        ({
            let after = release_recorded(e, text_of(lines));
            &&& release_field(lines, "ID"@) matches Some(id) ==> after.distro_id == id
            &&& release_field(lines, "ID"@) is None ==> after.distro_id == e.distro_id
            &&& release_field(lines, "VERSION_ID"@) matches Some(version) ==> after.distro_version
                == version
            &&& release_field(lines, "VERSION_ID"@) is None ==> after.distro_version
                == e.distro_version
        }),
{
    law_printed_lines(lines);
}

// ---------------------------------------------------------------------------
// The processor
// ---------------------------------------------------------------------------

/// A labelled line of `/proc/cpuinfo`.
pub open spec fn info_line(label: Seq<char>, gap: Seq<char>, value: Seq<char>) -> Seq<char> {
    label + gap + seq![':'] + value
}

/// Whether a line starts with a label.
pub open spec fn is_labelled(line: Seq<char>, label: Seq<char>) -> bool {
    label.is_prefix_of(line)
}

/// The word for a vendor: two are known under names of their own, and any other
/// under what it calls itself, in lower case.
pub open spec fn vendor_word(value: Seq<char>) -> Seq<char> {
    if holds(value, "AMD"@) {
        "amd"@
    } else if holds(value, "Intel"@) {
        "intel"@
    } else {
        lower_text(value)
    }
}

proof fn lemma_info_line(label: Seq<char>, gap: Seq<char>, value: Seq<char>)
    requires
        !label.contains(':'),
        !gap.contains(':'),
    ensures
        sides_of(info_line(label, gap, value), ':') == Some((label + gap, value)),
        begins_with(info_line(label, gap, value), label),
{
    let left = label + gap;
    assert(!left.contains(':')) by {
        if left.contains(':') {
            let i = choose|i: int| 0 <= i < left.len() && left[i] == ':';
            if i < label.len() {
                assert(label[i] == ':');
            } else {
                assert(gap[i - label.len()] == ':');
            }
        }
    }
    law_sides(left, ':', value);
    assert(info_line(label, gap, value) =~= label + (gap + seq![':'] + value));
    law_after_prefix(label, gap + seq![':'] + value);
}

proof fn lemma_vendor_kept(e: ExaminationView, lines: Seq<Seq<char>>)
    requires
        e.cpu_vendor != "unknown"@ || forall|i: int|
            0 <= i < lines.len() ==> !is_labelled(#[trigger] lines[i], "vendor_id"@),
    ensures
        cpu_lines_recorded(e, lines).cpu_vendor == e.cpu_vendor,
    decreases lines.len(),
{
    if lines.len() > 0 {
        law_prefix(lines[0], "vendor_id"@);
        let next = cpu_model_step(cpu_vendor_step(e, lines[0]), lines[0]);
        let rest = lines.skip(1);
        if e.cpu_vendor == "unknown"@ {
            assert(!is_labelled(lines[0], "vendor_id"@));
            assert forall|i: int| 0 <= i < rest.len() implies !is_labelled(
                #[trigger] rest[i],
                "vendor_id"@,
            ) by {
                assert(rest[i] == lines[i + 1]);
            }
        }
        lemma_vendor_kept(next, rest);
    }
}

proof fn lemma_model_kept(e: ExaminationView, lines: Seq<Seq<char>>)
    requires
        e.cpu_model.len() > 0 || forall|i: int|
            0 <= i < lines.len() ==> !is_labelled(#[trigger] lines[i], "model name"@),
    ensures
        cpu_lines_recorded(e, lines).cpu_model == e.cpu_model,
    decreases lines.len(),
{
    if lines.len() > 0 {
        law_prefix(lines[0], "model name"@);
        let next = cpu_model_step(cpu_vendor_step(e, lines[0]), lines[0]);
        let rest = lines.skip(1);
        if e.cpu_model.len() == 0 {
            assert(!is_labelled(lines[0], "model name"@));
            assert forall|i: int| 0 <= i < rest.len() implies !is_labelled(
                #[trigger] rest[i],
                "model name"@,
            ) by {
                assert(rest[i] == lines[i + 1]);
            }
        }
        lemma_model_kept(next, rest);
    }
}

proof fn lemma_cpu_concat(e: ExaminationView, a: Seq<Seq<char>>, b: Seq<Seq<char>>)
    ensures
        cpu_lines_recorded(e, a + b) == cpu_lines_recorded(cpu_lines_recorded(e, a), b),
    decreases a.len(),
{
    if a.len() == 0 {
        assert(a + b =~= b);
    } else {
        assert((a + b).skip(1) =~= a.skip(1) + b);
        assert((a + b)[0] == a[0]);
        lemma_cpu_concat(cpu_model_step(cpu_vendor_step(e, a[0]), a[0]), a.skip(1), b);
    }
}

/// The vendor is read off the first line that is labelled so, whatever lines
/// stand around it.
pub proof fn law_first_vendor_counts(
    h: Host,
    e: ExaminationView,
    before: Seq<Seq<char>>,
    gap: Seq<char>,
    value: Seq<char>,
    after: Seq<Seq<char>>,
)
    requires
        e.cpu_vendor == "unknown"@,
        are_lines(before + seq![info_line("vendor_id"@, gap, value)] + after),
        forall|i: int| 0 <= i < before.len() ==> !is_labelled(#[trigger] before[i], "vendor_id"@),
        !gap.contains(':'),
        vendor_word(trimmed(value)) != "unknown"@,
        tells(
            h,
            QuestionView::ReadText("/proc/cpuinfo"@),
            ReplyView::Text(text_of(before + seq![info_line("vendor_id"@, gap, value)] + after)),
        ),
    ensures
        cpu_linux_probed(h, e) matches Ok(done) && done.cpu_vendor == vendor_word(trimmed(value)),
{
    let line = info_line("vendor_id"@, gap, value);
    let lines = before + seq![line] + after;
    law_printed_lines(lines);
    reveal_strlit("vendor_id");
    assert(!"vendor_id"@.contains(':'));
    lemma_info_line("vendor_id"@, gap, value);
    lemma_vendor_kept(e, before);
    let mid = cpu_lines_recorded(e, before);
    let one = seq![line];
    let next = cpu_model_step(cpu_vendor_step(mid, line), line);
    assert(one.skip(1) =~= Seq::<Seq<char>>::empty());
    assert(cpu_lines_recorded(next, one.skip(1)) == next);
    assert(cpu_lines_recorded(mid, one) == next);
    lemma_vendor_kept(next, after);
    lemma_cpu_concat(e, before + one, after);
    lemma_cpu_concat(e, before, one);
}

/// The model is read off the first line that is labelled so, whatever lines
/// stand around it.
pub proof fn law_first_model_counts(
    h: Host,
    e: ExaminationView,
    before: Seq<Seq<char>>,
    gap: Seq<char>,
    value: Seq<char>,
    after: Seq<Seq<char>>,
)
    requires
        e.cpu_model.len() == 0,
        are_lines(before + seq![info_line("model name"@, gap, value)] + after),
        forall|i: int| 0 <= i < before.len() ==> !is_labelled(#[trigger] before[i], "model name"@),
        !gap.contains(':'),
        trimmed(value).len() > 0,
        tells(
            h,
            QuestionView::ReadText("/proc/cpuinfo"@),
            ReplyView::Text(text_of(before + seq![info_line("model name"@, gap, value)] + after)),
        ),
    ensures
        cpu_linux_probed(h, e) matches Ok(done) && done.cpu_model == trimmed(value),
{
    let line = info_line("model name"@, gap, value);
    let lines = before + seq![line] + after;
    law_printed_lines(lines);
    reveal_strlit("model name");
    assert(!"model name"@.contains(':'));
    lemma_info_line("model name"@, gap, value);
    lemma_model_kept(e, before);
    let mid = cpu_lines_recorded(e, before);
    let one = seq![line];
    let next = cpu_model_step(cpu_vendor_step(mid, line), line);
    assert(one.skip(1) =~= Seq::<Seq<char>>::empty());
    assert(cpu_lines_recorded(next, one.skip(1)) == next);
    assert(cpu_lines_recorded(mid, one) == next);
    lemma_model_kept(next, after);
    lemma_cpu_concat(e, before + one, after);
    lemma_cpu_concat(e, before, one);
}

pub(crate) proof fn lemma_headline(lead: Seq<char>, line: Seq<char>, tail: Seq<char>)
    requires
        all_space(lead),
        line.len() > 0,
        is_bare(line),
        is_line(line),
        ends_line(tail),
    ensures
        headline(lead + line + tail) == line,
        trimmed(lead + line + tail).len() > 0,
{
    law_first_line(lead, line, tail);
}

/// On Windows the processor is the first line that PowerShell prints, and its
/// vendor is read off that, in whatever case.
pub proof fn law_windows_processor_is_told(
    h: Host,
    e: ExaminationView,
    lead: Seq<char>,
    line: Seq<char>,
    tail: Seq<char>,
    err: Seq<char>,
)
    requires
        all_space(lead),
        line.len() > 0,
        is_bare(line),
        is_line(line),
        ends_line(tail),
        prints(
            h,
            "powershell"@,
            seq![
                "-NoProfile"@,
                "-Command"@,
                "(Get-CimInstance Win32_Processor | Select-Object -First 1).Name"@,
            ],
            8,
            0,
            lead + line + tail,
            err,
        ),
    ensures
        cpu_windows_probed(h, e) == Ok::<ExaminationView, QuestionView>(
            ExaminationView {
                cpu_model: line,
                cpu_vendor: if holds(lower_text(line), "amd"@) {
                    "amd"@
                } else if holds(lower_text(line), "intel"@) {
                    "intel"@
                } else {
                    "unknown"@
                },
                ..e
            },
        ),
{
    lemma_headline(lead, line, tail);
    lemma_prints(
        h,
        "powershell"@,
        seq![
            "-NoProfile"@,
            "-Command"@,
            "(Get-CimInstance Win32_Processor | Select-Object -First 1).Name"@,
        ],
        8,
        0,
        lead + line + tail,
        err,
    );
}

/// A PowerShell that fails, or prints nothing but blanks, leaves the processor
/// untold and the failure recorded.
pub proof fn law_windows_processor_may_be_untold(
    h: Host,
    e: ExaminationView,
    rc: i32,
    out: Seq<char>,
    err: Seq<char>,
)
    requires
        rc != 0 || all_space(out),
        prints(
            h,
            "powershell"@,
            seq![
                "-NoProfile"@,
                "-Command"@,
                "(Get-CimInstance Win32_Processor | Select-Object -First 1).Name"@,
            ],
            8,
            rc,
            out,
            err,
        ),
    ensures
        cpu_windows_probed(h, e) == Ok::<ExaminationView, QuestionView>(
            ExaminationView {
                probe_failures: e.probe_failures.push(
                    "Get-CimInstance Win32_Processor failed; cannot identify CPU."@,
                ),
                ..e
            },
        ),
{
    if rc == 0 {
        law_blank_text(out);
    }
    lemma_prints(
        h,
        "powershell"@,
        seq![
            "-NoProfile"@,
            "-Command"@,
            "(Get-CimInstance Win32_Processor | Select-Object -First 1).Name"@,
        ],
        8,
        rc,
        out,
        err,
    );
}

} // verus!
