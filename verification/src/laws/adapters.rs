//! What holds of the lists of display adapters: that of the PCI bus on Linux and
//! the inventory on Windows.

use vstd::prelude::*;
use vstd::string::*;

use crate::ask::on_path;
use crate::examination::{ExaminationView, GpuView};
use crate::gfx::marketing_guess;
use crate::gpu::{
    lists_nvidia, lspci_gpu, lspci_gpus, lspci_name, lspci_probed, summarised, topology_probed,
};
use crate::host::{Host, QuestionView, ReplyView};
use crate::laws::modules::lemma_leading_word;
use crate::laws::text::{
    all_space, are_lines, holds, is_bare, law_before_last, law_find_first, law_pieces_are_read_back,
    law_printed_lines, law_search, law_trim, lemma_char_from_first, lemma_char_from_none, no_space,
    strung, text_of,
};
use crate::laws::told::{lemma_prints, prints, tells};
use crate::text::{find_from, has_text, lemma_find_from, occurs_at};
use crate::unicode::{lower_text, upper_text};
use crate::windows::{inventory_gpu, inventory_recorded, windows_gpus_probed, WIN_GPU_SCRIPT};

verus! {

broadcast use law_search;

// ---------------------------------------------------------------------------
// A line of the PCI bus
// ---------------------------------------------------------------------------

/// A line of `lspci -nn`: the slot, the kind of the device with its class, the
/// name, the ids of vendor and device, and what follows.
pub open spec fn bus_line(
    slot: Seq<char>,
    kind: Seq<char>,
    class: Seq<char>,
    name: Seq<char>,
    id: Seq<char>,
    rest: Seq<char>,
) -> Seq<char> {
    slot + seq![' '] + kind + seq![' ', '['] + class + seq![']', ':', ' '] + name + seq![' ', '[']
        + id + seq![']'] + rest
}

/// Whether a line is that of a display adapter.
pub open spec fn shows_display(line: Seq<char>) -> bool {
    holds(line, "VGA compatible controller"@) || holds(line, "3D controller"@) || holds(
        line,
        "Display controller"@,
    )
}

/// Whether a line names AMD.
pub open spec fn shows_amd(line: Seq<char>) -> bool {
    holds(line, "[1002"@) || holds(line, "Advanced Micro Devices"@) || holds(line, "AMD"@)
}

/// Whether a line names NVIDIA.
pub open spec fn shows_nvidia(line: Seq<char>) -> bool {
    holds(line, "[10de"@) || holds(line, "NVIDIA"@)
}

proof fn lemma_bus_name(
    slot: Seq<char>,
    kind: Seq<char>,
    class: Seq<char>,
    name: Seq<char>,
    id: Seq<char>,
    rest: Seq<char>,
)
    requires
        !slot.contains(']'),
        !kind.contains(']'),
        !class.contains(']'),
        is_bare(name),
        !id.contains('['),
        !rest.contains('['),
    ensures
        lspci_name(bus_line(slot, kind, class, name, id, rest)) == name,
{
    let line = bus_line(slot, kind, class, name, id, rest);
    let head = slot + seq![' '] + kind + seq![' ', '['] + class;
    let tail = seq![' '] + name + seq![' ', '['] + id + seq![']'] + rest;
    reveal_strlit("]:");
    assert("]:"@ =~= seq![']', ':']);
    assert(line =~= head + "]:"@ + tail);
    assert(!head.contains(']')) by {
        if head.contains(']') {
            let i = choose|i: int| 0 <= i < head.len() && head[i] == ']';
            let a = slot.len() as int;
            let b = a + 1 + kind.len();
            if i < a {
                assert(slot[i] == ']');
            } else if a < i < b {
                assert(kind[i - a - 1] == ']');
            } else if i >= b + 2 {
                assert(class[i - b - 2] == ']');
            }
        }
    }
    assert forall|i: int| 0 <= i < head.len() implies !occurs_at(head + "]:"@ + tail, "]:"@, i) by {
        if occurs_at(line, "]:"@, i) {
            assert(line.subrange(i, i + 2)[0] == line[i]);
            assert(line[i] == head[i]);
            assert(head.contains(head[i]));
        }
    }
    law_find_first(head, "]:"@, tail);
    assert(line.skip(head.len() as int + 2) =~= tail);
    let left = seq![' '] + name + seq![' '];
    let right = id + seq![']'] + rest;
    assert(tail =~= left + seq!['['] + right);
    assert(!right.contains('[')) by {
        if right.contains('[') {
            let i = choose|i: int| 0 <= i < right.len() && right[i] == '[';
            if i < id.len() {
                assert(id[i] == '[');
            } else if i > id.len() {
                assert(rest[i - id.len() - 1] == '[');
            }
        }
    }
    law_before_last(left, '[', right);
    law_trim(seq![' '], name, seq![' ']);
}

/// A line of the bus gives a GPU where it is that of a display adapter and names
/// one of the two vendors: its slot, its name without the ids, and for AMD the
/// target and the kind that the name suggests. A line that names both is
/// NVIDIA's.
pub proof fn law_bus_line_is_read(
    slot: Seq<char>,
    kind: Seq<char>,
    class: Seq<char>,
    name: Seq<char>,
    id: Seq<char>,
    rest: Seq<char>,
)
    requires
        slot.len() > 0,
        no_space(slot),
        !slot.contains(']'),
        !kind.contains(']'),
        !class.contains(']'),
        is_bare(name),
        !id.contains('['),
        !rest.contains('['),
    ensures
        ({
            let line = bus_line(slot, kind, class, name, id, rest);
            &&& shows_display(line) && shows_nvidia(line) ==> lspci_gpu(line) == Some(
                GpuView {
                    name,
                    gfx_target: Seq::empty(),
                    pci_id: slot,
                    is_apu: Some(false),
                    is_amd: false,
                },
            )
            &&& shows_display(line) && shows_amd(line) && !shows_nvidia(line) ==> lspci_gpu(line)
                == Some(
                GpuView {
                    name,
                    gfx_target: marketing_guess(name).0,
                    pci_id: slot,
                    is_apu: Some(marketing_guess(name).1),
                    is_amd: true,
                },
            )
        }),
{
    let line = bus_line(slot, kind, class, name, id, rest);
    lemma_bus_name(slot, kind, class, name, id, rest);
    let behind = seq![' '] + kind + seq![' ', '['] + class + seq![']', ':', ' '] + name + seq![
        ' ',
        '[',
    ] + id + seq![']'] + rest;
    assert(line =~= slot + behind);
    assert(behind[0] == ' ');
    lemma_leading_word(slot, behind);
    assert(has_text(line, "VGA compatible controller"@) == holds(
        line,
        "VGA compatible controller"@,
    ));
}

/// Any other line gives no GPU.
pub proof fn law_other_bus_lines_give_nothing(line: Seq<char>)
    ensures
        !shows_display(line) ==> lspci_gpu(line) is None,
        !shows_amd(line) && !shows_nvidia(line) ==> lspci_gpu(line) is None,
        lspci_gpu(line) is None ==> !shows_display(line) || !shows_amd(line) && !shows_nvidia(line),
{
}

/// In a line without the end of a class the name stands behind the first colon,
/// and in one without a colon it is all there is, always before the last bracket.
pub proof fn law_plain_bus_name(
    slot: Seq<char>,
    name: Seq<char>,
    lead: Seq<char>,
    trail: Seq<char>,
    id: Seq<char>,
)
    requires
        !slot.contains(':'),
        is_bare(name),
        all_space(lead),
        all_space(trail),
        !id.contains('['),
    ensures
        ({
            let rest = lead + name + trail + seq!['['] + id;
            let line = slot + seq![':'] + rest;
            !holds(line, "]:"@) ==> lspci_name(line) == name
        }),
        ({
            let line = lead + name + trail + seq!['['] + id;
            !line.contains(':') ==> lspci_name(line) == name
        }),
{
    let rest = lead + name + trail + seq!['['] + id;
    let line = slot + seq![':'] + rest;
    lemma_find_from(line, "]:"@, 0);
    lemma_find_from(rest, "]:"@, 0);
    assert(has_text(line, "]:"@) == holds(line, "]:"@));
    lemma_char_from_first(slot, ':', rest);
    let left = lead + name + trail;
    law_before_last(left, '[', id);
    law_trim(lead, name, trail);
    if !rest.contains(':') {
        lemma_char_from_none(rest, ':');
        reveal_strlit("]:");
        if find_from(rest, "]:"@, 0) is Some {
            let i = find_from(rest, "]:"@, 0)->0;
            assert(rest.subrange(i, i + 2)[1] == rest[i + 1]);
            assert(rest.contains(rest[i + 1]));
        }
    }
}

// ---------------------------------------------------------------------------
// The PCI bus
// ---------------------------------------------------------------------------

/// One more line behind others adds its GPU behind theirs, or nothing.
pub proof fn law_bus_lines_add_up(lines: Seq<Seq<char>>, line: Seq<char>)
    ensures
        lspci_gpus(Seq::empty()) == Seq::<GpuView>::empty(),
        lspci_gpu(line) matches Some(gpu) ==> lspci_gpus(lines.push(line)) == lspci_gpus(
            lines,
        ).push(gpu),
        lspci_gpu(line) is None ==> lspci_gpus(lines.push(line)) == lspci_gpus(lines),
        lists_nvidia(lines.push(line)) <==> lists_nvidia(lines) || shows_display(line)
            && shows_nvidia(line),
        !lists_nvidia(Seq::empty()),
{
    let more = lines.push(line);
    assert(more.drop_last() =~= lines);
    if lists_nvidia(lines) {
        let i = choose|i: int|
            0 <= i < lines.len() && crate::gpu::is_controller(#[trigger] lines[i])
                && crate::gpu::names_nvidia(lines[i]);
        assert(more[i] == lines[i]);
    }
    if shows_display(line) && shows_nvidia(line) {
        assert(crate::gpu::is_controller(line) && crate::gpu::names_nvidia(line));
        assert(more[lines.len() as int] == line);
    }
    if lists_nvidia(more) {
        let i = choose|i: int|
            0 <= i < more.len() && crate::gpu::is_controller(#[trigger] more[i])
                && crate::gpu::names_nvidia(more[i]);
        if i < lines.len() {
            assert(lines[i] == more[i]);
        } else {
            assert(more[i] == line);
        }
    }
}

/// The GPUs that `lspci` prints come behind those that are known, and an NVIDIA
/// GPU among them is remarked.
pub proof fn law_bus_is_recorded(
    h: Host,
    e: ExaminationView,
    lines: Seq<Seq<char>>,
    err: Seq<char>,
)
    requires
        are_lines(lines),
        on_path(h, "lspci"@) == Ok::<bool, QuestionView>(true),
        prints(h, "lspci"@, seq!["-nn"@, "-D"@], 8, 0, text_of(lines), err),
    ensures
        lspci_probed(h, e) == Ok::<ExaminationView, QuestionView>(
            ExaminationView {
                gpus: e.gpus + lspci_gpus(lines),
                has_nvidia_gpu: e.has_nvidia_gpu || lists_nvidia(lines),
                ..e
            },
        ),
{
    lemma_prints(h, "lspci"@, seq!["-nn"@, "-D"@], 8, 0, text_of(lines), err);
    law_printed_lines(lines);
}

/// A bus that cannot be listed is recorded as a failure, and no GPU is made up.
pub proof fn law_bus_may_be_untold(
    h: Host,
    e: ExaminationView,
    rc: i32,
    out: Seq<char>,
    err: Seq<char>,
)
    ensures
        on_path(h, "lspci"@) == Ok::<bool, QuestionView>(false) ==> lspci_probed(h, e) == Ok::<
            ExaminationView,
            QuestionView,
        >(
            ExaminationView {
                probe_failures: e.probe_failures.push(
                    "lspci not found; cannot enumerate PCI GPUs"@,
                ),
                ..e
            },
        ),
        on_path(h, "lspci"@) == Ok::<bool, QuestionView>(true) && rc != 0 && prints(
            h,
            "lspci"@,
            seq!["-nn"@, "-D"@],
            8,
            rc,
            out,
            err,
        ) ==> lspci_probed(h, e) == Ok::<ExaminationView, QuestionView>(
            ExaminationView {
                probe_failures: e.probe_failures.push(
                    "lspci returned non-zero; PCI enumeration incomplete"@,
                ),
                ..e
            },
        ),
{
    if prints(h, "lspci"@, seq!["-nn"@, "-D"@], 8, rc, out, err) {
        lemma_prints(h, "lspci"@, seq!["-nn"@, "-D"@], 8, rc, out, err);
    }
}

/// Where no AMD GPU was found, the target that the kernel topology gives makes
/// one, of which nothing else is known; a note says so.
pub proof fn law_topology_stands_in(h: Host, e: ExaminationView, gfx: Option<Seq<char>>)
    requires
        forall|i: int| 0 <= i < e.gpus.len() ==> !(#[trigger] e.gpus[i]).is_amd,
        tells(h, QuestionView::SysfsGfxTarget, ReplyView::OptionalText(gfx)),
    ensures
        gfx matches Some(target) ==> topology_probed(h, e) == Ok::<ExaminationView, QuestionView>(
            ExaminationView {
                gpus: e.gpus.push(
                    GpuView {
                        name: "AMD GPU (from kernel topology)"@,
                        gfx_target: target,
                        pci_id: Seq::empty(),
                        is_apu: None,
                        is_amd: true,
                    },
                ),
                notes: e.notes.push(
                    "GPU discovered from the kernel topology because neither lspci nor rocminfo was available; PCI id and marketing name are unknown."@,
                ),
                ..e
            },
        ),
        gfx is None ==> topology_probed(h, e) == Ok::<ExaminationView, QuestionView>(e),
{
}

/// The categories are read off the list: an AMD GPU, an integrated one and a
/// discrete one, each where there is one.
pub proof fn law_categories_are_read_off(e: ExaminationView)
    ensures
        ({
            let after = summarised(e);
            &&& after.has_amd_gpu <==> exists|i: int|
                0 <= i < e.gpus.len() && (#[trigger] e.gpus[i]).is_amd
            &&& after.has_apu <==> exists|i: int|
                0 <= i < e.gpus.len() && (#[trigger] e.gpus[i]).is_amd && e.gpus[i].is_apu == Some(
                    true,
                )
            &&& after.has_discrete_amd <==> exists|i: int|
                0 <= i < e.gpus.len() && (#[trigger] e.gpus[i]).is_amd && e.gpus[i].is_apu == Some(
                    false,
                )
            &&& after == (ExaminationView {
                has_amd_gpu: after.has_amd_gpu,
                has_apu: after.has_apu,
                has_discrete_amd: after.has_discrete_amd,
                ..e
            })
        }),
{
}

// ---------------------------------------------------------------------------
// The inventory
// ---------------------------------------------------------------------------

/// A line of the inventory: name, driver version and device id between tabs.
pub open spec fn inventory_line(
    name: Seq<char>,
    version: Seq<char>,
    id: Seq<char>,
) -> Seq<char> {
    name + seq!['\t'] + version + seq!['\t'] + id
}

/// Whether an adapter is AMD's, by its id or its name.
pub open spec fn is_amd_adapter(name: Seq<char>, id: Seq<char>) -> bool {
    holds(upper_text(id), "VEN_1002"@) || holds(lower_text(name), "amd"@) || holds(
        lower_text(name),
        "radeon"@,
    ) || holds(lower_text(name), "instinct"@)
}

/// Whether an adapter is NVIDIA's, by its id or its name.
pub open spec fn is_nvidia_adapter(name: Seq<char>, id: Seq<char>) -> bool {
    holds(upper_text(id), "VEN_10DE"@) || holds(lower_text(name), "nvidia"@)
}

/// A line of the inventory gives a GPU where the adapter is one of the two
/// vendors', by its id or its name in whatever case; one that is both is AMD's.
pub proof fn law_inventory_line_is_read(
    lead: Seq<char>,
    name: Seq<char>,
    version: Seq<char>,
    id: Seq<char>,
    trail: Seq<char>,
)
    requires
        all_space(lead),
        name.len() > 0,
        is_bare(name),
        !name.contains('\t'),
        !version.contains('\t'),
        id.len() > 0,
        is_bare(id),
        !id.contains('\t'),
        all_space(trail),
    ensures
        ({
            let line = lead + inventory_line(name, version, id) + trail;
            &&& is_amd_adapter(name, id) ==> inventory_gpu(line) == Some(
                GpuView {
                    name,
                    gfx_target: marketing_guess(name).0,
                    pci_id: id,
                    is_apu: Some(marketing_guess(name).1),
                    is_amd: true,
                },
            )
            &&& is_nvidia_adapter(name, id) && !is_amd_adapter(name, id) ==> inventory_gpu(line)
                == Some(
                GpuView {
                    name,
                    gfx_target: Seq::empty(),
                    pci_id: id,
                    is_apu: Some(false),
                    is_amd: false,
                },
            )
            &&& !is_nvidia_adapter(name, id) && !is_amd_adapter(name, id) ==> inventory_gpu(line)
                is None
        }),
{
    let none = Seq::<char>::empty();
    let tab = seq!['\t'];
    let inner = inventory_line(name, version, id);
    let parts = seq![name, version, id];
    assert(inner[0] == name[0]);
    assert(inner.last() == id.last());
    law_trim(lead, inner, trail);
    let two = parts.skip(1);
    let one = two.skip(1);
    assert(one.len() == 1 && one[0] == id);
    assert(two[0] == version);
    assert(strung(two, tab) == version + tab + strung(one, tab));
    assert(strung(parts, tab) =~= inner);
    assert forall|i: int| 0 <= i < parts.len() implies !(#[trigger] parts[i]).contains('\t') by {
        if i == 0 {
        } else if i == 1 {
        }
    }
    law_pieces_are_read_back(parts, '\t');
    law_trim(none, name, none);
    law_trim(none, id, none);
    assert(none + name + none =~= name);
    assert(none + id + none =~= id);
}

/// A line of the inventory that is a name alone, or a name and a version, has no
/// id, and the name alone decides.
pub proof fn law_inventory_line_without_id(
    lead: Seq<char>,
    name: Seq<char>,
    version: Seq<char>,
    trail: Seq<char>,
)
    requires
        all_space(lead),
        name.len() > 0,
        is_bare(name),
        !name.contains('\t'),
        version.len() > 0,
        is_bare(version),
        !version.contains('\t'),
        all_space(trail),
        is_amd_adapter(name, Seq::empty()),
    ensures
        ({
            let gpu = GpuView {
                name,
                gfx_target: marketing_guess(name).0,
                pci_id: Seq::empty(),
                is_apu: Some(marketing_guess(name).1),
                is_amd: true,
            };
            &&& inventory_gpu(lead + name + trail) == Some(gpu)
            &&& inventory_gpu(lead + (name + seq!['\t'] + version) + trail) == Some(gpu)
        }),
{
    let none = Seq::<char>::empty();
    let tab = seq!['\t'];
    let both = name + tab + version;
    law_trim(none, name, none);
    assert(none + name + none =~= name);
    law_trim(lead, name, trail);
    let one = seq![name];
    law_pieces_are_read_back(one, '\t');
    assert(strung(one, tab) == name);
    assert(both[0] == name[0]);
    assert(both.last() == version.last());
    law_trim(lead, both, trail);
    let two = seq![name, version];
    assert(two.skip(1).len() == 1 && two.skip(1)[0] == version);
    assert(strung(two.skip(1), tab) == version);
    assert(strung(two, tab) == both);
    assert forall|i: int| 0 <= i < two.len() implies !(#[trigger] two[i]).contains('\t') by {
        if i == 0 {
        }
    }
    law_pieces_are_read_back(two, '\t');
}

/// A blank line of the inventory gives nothing.
pub proof fn law_blank_inventory_line(line: Seq<char>)
    requires
        all_space(line),
    ensures
        inventory_gpu(line) is None,
{
    crate::laws::text::law_blank_text(line);
}

/// One more line behind others adds its GPU behind theirs, or nothing, and one
/// of NVIDIA's is remarked.
pub proof fn law_inventory_lines_add_up(
    e: ExaminationView,
    lines: Seq<Seq<char>>,
    line: Seq<char>,
)
    ensures
        inventory_recorded(e, Seq::empty()) == e,
        inventory_gpu(line) is None ==> inventory_recorded(e, lines.push(line))
            == inventory_recorded(e, lines),
        inventory_gpu(line) matches Some(gpu) ==> {
            let before = inventory_recorded(e, lines);
            inventory_recorded(e, lines.push(line)) == (ExaminationView {
                gpus: before.gpus.push(gpu),
                has_nvidia_gpu: before.has_nvidia_gpu || !gpu.is_amd,
                ..before
            })
        },
{
    assert(lines.push(line).drop_last() =~= lines);
}

/// The GPUs of a Windows host are those of the inventory that PowerShell prints;
/// an inventory that cannot be read is recorded as a failure.
pub proof fn law_inventory_is_recorded(
    h: Host,
    e: ExaminationView,
    rc: i32,
    lines: Seq<Seq<char>>,
    err: Seq<char>,
)
    requires
        are_lines(lines),
        prints(
            h,
            "powershell"@,
            seq!["-NoProfile"@, "-Command"@, WIN_GPU_SCRIPT@],
            8,
            rc,
            text_of(lines),
            err,
        ),
    ensures
        rc == 0 ==> windows_gpus_probed(h, e) == Ok::<ExaminationView, QuestionView>(
            inventory_recorded(e, lines),
        ),
        rc != 0 ==> windows_gpus_probed(h, e) == Ok::<ExaminationView, QuestionView>(
            ExaminationView {
                probe_failures: e.probe_failures.push(
                    "Win32_VideoController query failed; cannot enumerate GPUs."@,
                ),
                ..e
            },
        ),
{
    lemma_prints(
        h,
        "powershell"@,
        seq!["-NoProfile"@, "-Command"@, WIN_GPU_SCRIPT@],
        8,
        rc,
        text_of(lines),
        err,
    );
    law_printed_lines(lines);
}

} // verus!
