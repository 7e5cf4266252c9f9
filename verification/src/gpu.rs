//! GPU probes on Linux.

use vstd::prelude::*;
use vstd::string::*;

use crate::ask::{
    ask_optional_text, on_path, optional_text_answer, outcome, output_answer, plain_command, run,
    two_args, which, MEDIUM,
};
use crate::examination::{
    gpu_views, lemma_gpu_views_push, unknown_gpu, with_failure, with_note, Examination,
    ExaminationView, Gpu, GpuView,
};
use crate::gfx::{classify_amd_marketing_name, marketing_guess};
use crate::host::{Answers, Host, Question, QuestionView};
use crate::split::{first_word_of, leading_word, lines, lines_of};
use crate::text::{
    before_last, char_from, char_position, chars_of, contains, cut_at_last, find, find_from,
    has_text, string_of, texts, trim, trimmed,
};

verus! {

broadcast use lemma_gpu_views_push;

// ---------------------------------------------------------------------------
// The PCI bus
// ---------------------------------------------------------------------------

/// What follows the controller kind in an `lspci -nn` line: the text behind the
/// first `]:`, or else behind the first `:`, or else the whole line.
pub open spec fn after_kind(line: Seq<char>) -> Seq<char> {
    match find_from(line, "]:"@, 0) {
        Some(i) => line.skip(i + 2),
        None => match char_from(line, ':', 0) {
            Some(i) => line.skip(i + 1),
            None => line,
        },
    }
}

/// The marketing name in an `lspci -nn` line.
pub open spec fn lspci_name(line: Seq<char>) -> Seq<char> {
    trimmed(before_last(after_kind(line), '['))
}

/// Pull the marketing name out of an `lspci -nn` line: the text between the
/// controller-kind `]:` and the trailing `[vendor:device]`.
pub fn extract_lspci_name(line: &str) -> (r: String)
    ensures
        r@ == lspci_name(line@),
{
    let chars = chars_of(line);
    let len: usize = chars.len();
    proof {
        reveal_strlit("]:");
    }
    let start: usize = match find(line, "]:") {
        Some(i) => i + 2,
        None => match char_position(&chars, ':', 0) {
            Some(i) => i + 1,
            None => 0,
        },
    };
    let rest = string_of(&chars, start, len);
    assert(rest@ =~= after_kind(line@));
    trim(cut_at_last(rest.as_str(), '[').as_str())
}

/// Whether an `lspci` line describes a display controller.
pub open spec fn is_controller(line: Seq<char>) -> bool {
    ||| has_text(line, "VGA compatible controller"@)
    ||| has_text(line, "3D controller"@)
    ||| has_text(line, "Display controller"@)
}

/// Whether an `lspci` line names AMD as the vendor.
pub open spec fn names_amd(line: Seq<char>) -> bool {
    ||| has_text(line, "[1002"@)
    ||| has_text(line, "Advanced Micro Devices"@)
    ||| has_text(line, "AMD"@)
}

/// Whether an `lspci` line names NVIDIA as the vendor.
pub open spec fn names_nvidia(line: Seq<char>) -> bool {
    ||| has_text(line, "[10de"@)
    ||| has_text(line, "NVIDIA"@)
}

/// The GPU that an `lspci` line describes. A line that names both vendors is
/// taken for NVIDIA's.
pub open spec fn lspci_gpu(line: Seq<char>) -> Option<GpuView> {
    if !is_controller(line) {
        None
    } else if names_nvidia(line) {
        Some(
            GpuView {
                name: lspci_name(line),
                pci_id: leading_word(line),
                is_amd: false,
                is_apu: Some(false),
                ..unknown_gpu()
            },
        )
    } else if names_amd(line) {
        let guess = marketing_guess(lspci_name(line));
        Some(
            GpuView {
                name: lspci_name(line),
                gfx_target: guess.0,
                pci_id: leading_word(line),
                is_apu: Some(guess.1),
                is_amd: true,
            },
        )
    } else {
        None
    }
}

/// The GPUs that the lines describe, in order.
pub open spec fn lspci_gpus(lines: Seq<Seq<char>>) -> Seq<GpuView>
    decreases lines.len(),
{
    if lines.len() == 0 {
        Seq::empty()
    } else {
        match lspci_gpu(lines.last()) {
            Some(gpu) => lspci_gpus(lines.drop_last()).push(gpu),
            None => lspci_gpus(lines.drop_last()),
        }
    }
}

/// Whether one of the lines describes an NVIDIA GPU.
pub open spec fn lists_nvidia(lines: Seq<Seq<char>>) -> bool {
    exists|i: int| 0 <= i < lines.len() && is_controller(#[trigger] lines[i]) && names_nvidia(lines[i])
}

/// `e` with the GPUs that `lspci` printed.
pub open spec fn lspci_recorded(e: ExaminationView, out: Seq<char>) -> ExaminationView {
    let lines = lines_of(out);
    ExaminationView {
        gpus: e.gpus + lspci_gpus(lines),
        has_nvidia_gpu: e.has_nvidia_gpu || lists_nvidia(lines),
        ..e
    }
}

/// Records the GPUs in the output of `lspci -nn -D`.
pub fn record_lspci(e: &mut Examination, out: &str)
    ensures
        final(e)@ == lspci_recorded(old(e)@, out@),
{
    let found = lines(out);
    let n: usize = found.len();
    let mut i: usize = 0;
    let ghost all = lines_of(out@);
    assert(e.gpus@ =~= old(e).gpus@);
    assert(gpu_views(e.gpus@) + lspci_gpus(all.take(0)) =~= gpu_views(e.gpus@));
    while i < n
        invariant
            n == found@.len(),
            i <= n,
            all == texts(found@),
            e@ == (ExaminationView {
                gpus: old(e)@.gpus + lspci_gpus(all.take(i as int)),
                has_nvidia_gpu: old(e)@.has_nvidia_gpu || lists_nvidia(all.take(i as int)),
                ..old(e)@
            }),
        decreases n - i,
    {
        let line = found[i].as_str();
        let ghost before = all.take(i as int);
        let ghost now = all.take(i + 1);
        assert(now.drop_last() =~= before);
        assert(now.last() == line@);
        assert(lists_nvidia(now) == (lists_nvidia(before) || (is_controller(line@) && names_nvidia(
            line@,
        )))) by {
            if lists_nvidia(before) {
                let k = choose|k: int|
                    0 <= k < before.len() && is_controller(#[trigger] before[k]) && names_nvidia(
                        before[k],
                    );
                assert(now[k] == before[k]);
            }
            if lists_nvidia(now) {
                let k = choose|k: int|
                    0 <= k < now.len() && is_controller(#[trigger] now[k]) && names_nvidia(now[k]);
                if k < i {
                    assert(before[k] == now[k]);
                }
            }
            if is_controller(line@) && names_nvidia(line@) {
                assert(now[i as int] == line@);
            }
        }
        let is_display = contains(line, "VGA compatible controller") || contains(
            line,
            "3D controller",
        ) || contains(line, "Display controller");
        let is_amd = contains(line, "[1002") || contains(line, "Advanced Micro Devices")
            || contains(line, "AMD");
        let is_nvidia = contains(line, "[10de") || contains(line, "NVIDIA");
        let ghost gpus = e@.gpus;
        if is_display && is_nvidia {
            let gpu = Gpu {
                name: extract_lspci_name(line),
                gfx_target: String::new(),
                pci_id: first_word_of(line),
                is_apu: Some(false),
                is_amd: false,
            };
            assert(lspci_gpu(line@) == Some(gpu@));
            e.has_nvidia_gpu = true;
            e.gpus.push(gpu);
            assert(e@.gpus =~= old(e)@.gpus + lspci_gpus(now));
        } else if is_display && is_amd {
            let name = extract_lspci_name(line);
            let (gfx_target, is_apu) = classify_amd_marketing_name(name.as_str());
            let gpu = Gpu {
                name,
                gfx_target,
                pci_id: first_word_of(line),
                is_apu: Some(is_apu),
                is_amd: true,
            };
            assert(lspci_gpu(line@) == Some(gpu@));
            e.gpus.push(gpu);
            assert(e@.gpus =~= old(e)@.gpus + lspci_gpus(now));
        } else {
            assert(lspci_gpu(line@) is None);
        }
        i += 1;
    }
    assert(all.take(n as int) =~= all);
}

/// `e` after the PCI bus was enumerated.
pub open spec fn lspci_probed(h: Host, e: ExaminationView) -> Result<
    ExaminationView,
    QuestionView,
> {
    match on_path(h, "lspci"@) {
        Err(q) => Err(q),
        Ok(false) => Ok(with_failure(e, "lspci not found; cannot enumerate PCI GPUs"@)),
        Ok(true) => match output_answer(h, plain_command("lspci"@, seq!["-nn"@, "-D"@], MEDIUM)) {
            Err(q) => Err(q),
            Ok(out) => if out.rc != 0 {
                Ok(with_failure(e, "lspci returned non-zero; PCI enumeration incomplete"@))
            } else {
                Ok(lspci_recorded(e, out.stdout))
            },
        },
    }
}

/// Enumerates the GPUs on the PCI bus.
pub fn probe_gpus_lspci(e: Examination, h: &Answers) -> (r: Result<Examination, Question>)
    ensures
        outcome(r) == lspci_probed(h@, e@),
{
    let mut e = e;
    match which(h, "lspci") {
        Err(q) => {
            return Err(q);
        },
        Ok(false) => {
            e.add_failure("lspci not found; cannot enumerate PCI GPUs".to_owned());
            return Ok(e);
        },
        Ok(true) => {},
    }
    match run(h, "lspci", two_args("-nn", "-D"), MEDIUM) {
        Err(q) => Err(q),
        Ok(out) => {
            if out.rc != 0 {
                e.add_failure("lspci returned non-zero; PCI enumeration incomplete".to_owned());
            } else {
                record_lspci(&mut e, out.stdout.as_str());
            }
            Ok(e)
        },
    }
}

// ---------------------------------------------------------------------------
// The kernel topology
// ---------------------------------------------------------------------------

/// Whether one of the GPUs is AMD's.
pub open spec fn any_amd(gpus: Seq<GpuView>) -> bool {
    exists|i: int| 0 <= i < gpus.len() && (#[trigger] gpus[i]).is_amd
}

/// Whether one of AMD's GPUs has this verdict on being integrated.
pub open spec fn any_amd_with(gpus: Seq<GpuView>, is_apu: bool) -> bool {
    exists|i: int|
        0 <= i < gpus.len() && (#[trigger] gpus[i]).is_amd && gpus[i].is_apu == Some(is_apu)
}

/// A GPU of which the kernel topology gave the target and nothing else.
pub open spec fn topology_gpu(gfx_target: Seq<char>) -> GpuView {
    GpuView {
        name: "AMD GPU (from kernel topology)"@,
        gfx_target,
        is_amd: true,
        ..unknown_gpu()
    }
}

/// `e` with the GPU of the kernel topology, where no other was found.
pub open spec fn topology_recorded(e: ExaminationView, gfx_target: Seq<char>) -> ExaminationView {
    with_note(
        ExaminationView { gpus: e.gpus.push(topology_gpu(gfx_target)), ..e },
        "GPU discovered from the kernel topology because neither lspci nor rocminfo was available; PCI id and marketing name are unknown."@,
    )
}

/// `e` after the kernel topology was asked as a last resort.
pub open spec fn topology_probed(h: Host, e: ExaminationView) -> Result<
    ExaminationView,
    QuestionView,
> {
    if any_amd(e.gpus) {
        Ok(e)
    } else {
        match optional_text_answer(h, QuestionView::SysfsGfxTarget) {
            Err(q) => Err(q),
            Ok(None) => Ok(e),
            Ok(Some(gfx_target)) => Ok(topology_recorded(e, gfx_target)),
        }
    }
}

/// Whether one of the GPUs is AMD's.
pub fn has_amd(gpus: &Vec<Gpu>) -> (r: bool)
    ensures
        r == any_amd(gpu_views(gpus@)),
{
    let n: usize = gpus.len();
    let mut i: usize = 0;
    while i < n
        invariant
            n == gpus@.len(),
            i <= n,
            forall|j: int| 0 <= j < i ==> !(#[trigger] gpu_views(gpus@)[j]).is_amd,
        decreases n - i,
    {
        if gpus[i].is_amd {
            assert(gpu_views(gpus@)[i as int].is_amd);
            return true;
        }
        i += 1;
    }
    false
}

/// Whether one of AMD's GPUs has this verdict on being integrated.
pub fn has_amd_with(gpus: &Vec<Gpu>, is_apu: bool) -> (r: bool)
    ensures
        r == any_amd_with(gpu_views(gpus@), is_apu),
{
    let n: usize = gpus.len();
    let mut i: usize = 0;
    while i < n
        invariant
            n == gpus@.len(),
            i <= n,
            forall|j: int|
                0 <= j < i ==> !((#[trigger] gpu_views(gpus@)[j]).is_amd && gpu_views(
                    gpus@,
                )[j].is_apu == Some(is_apu)),
        decreases n - i,
    {
        if gpus[i].is_amd {
            match gpus[i].is_apu {
                Some(verdict) => {
                    if verdict == is_apu {
                        assert(gpu_views(gpus@)[i as int].is_amd);
                        return true;
                    }
                },
                None => {},
            }
        }
        i += 1;
    }
    false
}

/// Last-resort GPU discovery from the kernel topology, for hosts where neither
/// `lspci` nor `rocminfo` is reachable.
///
/// `is_apu` is left unset rather than guessed: the topology gives the target,
/// not the packaging.
pub fn probe_gpus_sysfs_fallback(e: Examination, h: &Answers) -> (r: Result<Examination, Question>)
    ensures
        outcome(r) == topology_probed(h@, e@),
{
    let mut e = e;
    if has_amd(&e.gpus) {
        return Ok(e);
    }
    match ask_optional_text(h, Question::SysfsGfxTarget) {
        Err(q) => Err(q),
        Ok(None) => Ok(e),
        Ok(Some(gfx_target)) => {
            e.gpus.push(
                Gpu {
                    name: "AMD GPU (from kernel topology)".to_owned(),
                    gfx_target,
                    pci_id: String::new(),
                    is_apu: None,
                    is_amd: true,
                },
            );
            e.add_note(
                "GPU discovered from the kernel topology because neither lspci nor rocminfo was available; PCI id and marketing name are unknown.".to_owned(),
            );
            Ok(e)
        },
    }
}

/// `e` with the categories of its GPUs.
pub open spec fn summarised(e: ExaminationView) -> ExaminationView {
    ExaminationView {
        has_amd_gpu: any_amd(e.gpus),
        has_apu: any_amd_with(e.gpus, true),
        has_discrete_amd: any_amd_with(e.gpus, false),
        ..e
    }
}

/// Derives the categories from the GPUs found.
pub fn summarise_gpu_categories(e: &mut Examination)
    ensures
        final(e)@ == summarised(old(e)@),
{
    e.has_amd_gpu = has_amd(&e.gpus);
    e.has_apu = has_amd_with(&e.gpus, true);
    e.has_discrete_amd = has_amd_with(&e.gpus, false);
}

} // verus!
