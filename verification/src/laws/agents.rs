//! What holds of the output of `rocminfo`: the agents that are printed are the
//! agents that are read.

use vstd::prelude::*;
use vstd::string::*;

use crate::ask::on_path;
use crate::examination::{ExaminationView, GpuView};
use crate::gfx::family_verdict;
use crate::host::{Host, QuestionView};
use crate::laws::text::{
    all_space, are_lines, holds, is_bare, law_after_prefix, law_prefix, law_printed_lines,
    law_search, law_trim, text_of,
};
use crate::laws::told::{lemma_prints, prints};
use crate::number::{decimal_of, decimal_of_nat};
use crate::rocminfo::{
    agent_gpu, agent_scan, agent_step, agents_applied, committed, filled, gpu_agents,
    rocminfo_probed, AgentScan,
};
use crate::text::{after_prefix, begins_with, has_text, is_space, occurs_at, trimmed};
use crate::unicode::lower_text;

verus! {

broadcast use law_search;

// ---------------------------------------------------------------------------
// What is printed
// ---------------------------------------------------------------------------

/// An agent as `rocminfo` prints it: a header with its number, a line each for
/// its name, its marketing name and its device type, and further lines.
pub struct PrintedAgent {
    pub lead: Seq<char>,
    pub number: nat,
    pub indent: Seq<char>,
    pub gap: Seq<char>,
    pub name: Seq<char>,
    pub marketing: Seq<char>,
    pub device_type: Seq<char>,
    pub more: Seq<Seq<char>>,
}

/// The lines of an agent.
pub open spec fn agent_lines(a: PrintedAgent) -> Seq<Seq<char>> {
    seq![
        a.lead + "Agent "@ + decimal_of(a.number as int),
        a.indent + "Name:"@ + a.gap + a.name,
        a.indent + "Marketing Name:"@ + a.gap + a.marketing,
        a.indent + "Device Type:"@ + a.gap + a.device_type,
    ] + a.more
}

/// Whether a line starts, its blanks aside, with none of the four labels, or
/// only with that of a name where there is one already.
pub open spec fn is_aside(line: Seq<char>, named: bool) -> bool {
    let s = trimmed(line);
    &&& !"Agent "@.is_prefix_of(s)
    &&& !"Marketing Name:"@.is_prefix_of(s)
    &&& !"Device Type:"@.is_prefix_of(s)
    &&& "Name:"@.is_prefix_of(s) ==> named
}

/// Whether all lines are such.
pub open spec fn are_asides(lines: Seq<Seq<char>>, named: bool) -> bool {
    forall|i: int| 0 <= i < lines.len() ==> is_aside(#[trigger] lines[i], named)
}

/// Whether an agent is one that can be printed: nothing around its values but
/// blanks, and no label among the further lines, save those of further names.
pub open spec fn is_printable(a: PrintedAgent) -> bool {
    &&& all_space(a.lead)
    &&& all_space(a.indent)
    &&& all_space(a.gap)
    &&& is_bare(a.name)
    &&& is_bare(a.marketing)
    &&& is_bare(a.device_type)
    &&& are_asides(a.more, a.name.len() > 0)
    &&& are_lines(agent_lines(a))
}

/// The lines of several agents.
pub open spec fn all_lines(agents: Seq<PrintedAgent>) -> Seq<Seq<char>>
    decreases agents.len(),
{
    if agents.len() == 0 {
        Seq::empty()
    } else {
        all_lines(agents.drop_last()) + agent_lines(agents.last())
    }
}

/// Whether an agent is a GPU: its type says so, and its name is a gfx target.
pub open spec fn is_gpu_agent(a: PrintedAgent) -> bool {
    holds(a.device_type, "GPU"@) && "gfx"@.is_prefix_of(a.name)
}

/// The GPUs among several agents, in order.
pub open spec fn gpus_among(agents: Seq<PrintedAgent>) -> Seq<(Seq<char>, Seq<char>)>
    decreases agents.len(),
{
    if agents.len() == 0 {
        Seq::empty()
    } else if is_gpu_agent(agents.last()) {
        gpus_among(agents.drop_last()).push((agents.last().name, agents.last().marketing))
    } else {
        gpus_among(agents.drop_last())
    }
}

// ---------------------------------------------------------------------------
// What is read
// ---------------------------------------------------------------------------

proof fn lemma_first_letter(s: Seq<char>, prefix: Seq<char>)
    requires
        begins_with(s, prefix),
        prefix.len() > 0,
    ensures
        s.len() > 0,
        s[0] == prefix[0],
{
    assert(s.subrange(0, prefix.len() as int)[0] == s[0]);
}

/// Blanks before a value hide nothing of it.
pub(crate) proof fn lemma_behind_blanks(gap: Seq<char>, value: Seq<char>, part: Seq<char>)
    requires
        all_space(gap),
        part.len() > 0,
        !is_space(part[0]),
    ensures
        has_text(gap + value, part) == has_text(value, part),
{
    let s = gap + value;
    if exists|i: int| occurs_at(s, part, i) {
        let i = choose|i: int| occurs_at(s, part, i);
        assert(s.subrange(i, i + part.len())[0] == s[i]);
        assert(i >= gap.len()) by {
            if i < gap.len() {
                assert(s[i] == gap[i]);
            }
        }
        assert(value.subrange(i - gap.len(), i - gap.len() + part.len()) =~= s.subrange(
            i,
            i + part.len(),
        ));
        assert(occurs_at(value, part, i - gap.len()));
    }
    if exists|i: int| occurs_at(value, part, i) {
        let i = choose|i: int| occurs_at(value, part, i);
        assert(value.subrange(i, i + part.len()) =~= s.subrange(
            i + gap.len(),
            i + gap.len() + part.len(),
        ));
        assert(occurs_at(s, part, i + gap.len()));
    }
}

/// A labelled value is read back without its label and the blanks around it.
pub(crate) proof fn lemma_field(
    indent: Seq<char>,
    label: Seq<char>,
    gap: Seq<char>,
    value: Seq<char>,
) -> (rest: Seq<char>)
    requires
        all_space(indent),
        all_space(gap),
        is_bare(label),
        label.len() > 0,
        is_bare(value),
    ensures
        trimmed(indent + label + gap + value) == label + rest,
        begins_with(label + rest, label),
        after_prefix(label + rest, label) == Some(rest),
        trimmed(rest) == value,
        forall|part: Seq<char>|
            part.len() > 0 && !is_space(part[0]) ==> #[trigger] has_text(rest, part) == has_text(
                value,
                part,
            ),
{
    let none = Seq::<char>::empty();
    let rest = if value.len() == 0 {
        none
    } else {
        gap + value
    };
    if value.len() == 0 {
        assert(indent + label + gap + value =~= indent + label + gap);
        law_trim(indent, label, gap);
        assert(label + none =~= label);
        assert(trimmed(none) =~= none);
        assert(value =~= none);
    } else {
        assert((label + gap + value)[0] == label[0]);
        assert((label + gap + value).last() == value.last());
        assert(indent + label + gap + value =~= indent + (label + gap + value) + none);
        law_trim(indent, label + gap + value, none);
        assert(label + gap + value =~= label + (gap + value));
        law_trim(gap, value, none);
        assert(gap + value + none =~= gap + value);
        assert forall|part: Seq<char>| part.len() > 0 && !is_space(part[0]) implies
            #[trigger] has_text(rest, part) == has_text(value, part) by {
            lemma_behind_blanks(gap, value, part);
        }
    }
    law_after_prefix(label, rest);
    rest
}

pub(crate) proof fn lemma_decimal_is_bare(n: nat)
    ensures
        decimal_of_nat(n).len() > 0,
        !is_space(decimal_of_nat(n)[0]),
        !is_space(decimal_of_nat(n).last()),
        forall|i: int|
            0 <= i < decimal_of_nat(n).len() ==> '0' <= #[trigger] decimal_of_nat(n)[i]
                && decimal_of_nat(n)[i] <= '9',
    decreases n,
{
    if n >= 10 {
        lemma_decimal_is_bare(n / 10);
    }
}

proof fn lemma_header(scan: AgentScan, lead: Seq<char>, number: nat)
    requires
        all_space(lead),
    ensures
        agent_step(scan, lead + "Agent "@ + decimal_of(number as int)) == (AgentScan {
            done: committed(scan),
            name: Seq::empty(),
            marketing: Seq::empty(),
            is_gpu: false,
        }),
{
    let line = "Agent "@ + decimal_of(number as int);
    lemma_decimal_is_bare(number);
    reveal_strlit("Agent ");
    let none = Seq::<char>::empty();
    assert(line[0] == 'A');
    assert(line.last() == decimal_of_nat(number).last());
    law_trim(lead, line, none);
    assert(lead + "Agent "@ + decimal_of(number as int) =~= lead + line + none);
    law_after_prefix("Agent "@, decimal_of(number as int));
}

proof fn lemma_fields(scan: AgentScan, a: PrintedAgent)
    requires
        is_printable(a),
        scan.name.len() == 0,
        scan.marketing.len() == 0,
        !scan.is_gpu,
    ensures
        agent_step(
            agent_step(
                agent_step(scan, a.indent + "Name:"@ + a.gap + a.name),
                a.indent + "Marketing Name:"@ + a.gap + a.marketing,
            ),
            a.indent + "Device Type:"@ + a.gap + a.device_type,
        ) == (AgentScan {
            done: scan.done,
            name: a.name,
            marketing: a.marketing,
            is_gpu: holds(a.device_type, "GPU"@),
        }),
{
    reveal_strlit("Agent ");
    reveal_strlit("Name:");
    reveal_strlit("Marketing Name:");
    reveal_strlit("Device Type:");
    reveal_strlit("GPU");
    let name = lemma_field(a.indent, "Name:"@, a.gap, a.name);
    let s = "Name:"@ + name;
    assert(s[0] == 'N');
    if begins_with(s, "Agent "@) {
        lemma_first_letter(s, "Agent "@);
    }
    let one = agent_step(scan, a.indent + "Name:"@ + a.gap + a.name);
    assert(one == AgentScan { name: a.name, ..scan });
    let marketing = lemma_field(a.indent, "Marketing Name:"@, a.gap, a.marketing);
    let s = "Marketing Name:"@ + marketing;
    assert(s[0] == 'M');
    if begins_with(s, "Agent "@) {
        lemma_first_letter(s, "Agent "@);
    }
    if begins_with(s, "Name:"@) {
        lemma_first_letter(s, "Name:"@);
    }
    let two = agent_step(one, a.indent + "Marketing Name:"@ + a.gap + a.marketing);
    assert(two == AgentScan { marketing: a.marketing, ..one });
    let device = lemma_field(a.indent, "Device Type:"@, a.gap, a.device_type);
    let s = "Device Type:"@ + device;
    assert(s[0] == 'D');
    if begins_with(s, "Agent "@) {
        lemma_first_letter(s, "Agent "@);
    }
    if begins_with(s, "Name:"@) {
        lemma_first_letter(s, "Name:"@);
    }
    if begins_with(s, "Marketing Name:"@) {
        lemma_first_letter(s, "Marketing Name:"@);
    }
    assert(has_text(device, "GPU"@) == has_text(a.device_type, "GPU"@));
}

proof fn lemma_asides(before: Seq<Seq<char>>, more: Seq<Seq<char>>, named: bool)
    requires
        are_asides(more, named),
        named ==> agent_scan(before).name.len() > 0,
    ensures
        agent_scan(before + more) == agent_scan(before),
    decreases more.len(),
{
    if more.len() == 0 {
        assert(before + more =~= before);
    } else {
        let some = more.drop_last();
        assert forall|i: int| 0 <= i < some.len() implies is_aside(#[trigger] some[i], named) by {
            assert(some[i] == more[i]);
        }
        lemma_asides(before, some, named);
        let all = before + more;
        assert(all.drop_last() =~= before + some);
        assert(all.last() == more.last());
        assert(is_aside(more[more.len() - 1], named));
        let s = trimmed(more.last());
        law_prefix(s, "Agent "@);
        law_prefix(s, "Name:"@);
        law_prefix(s, "Marketing Name:"@);
        law_prefix(s, "Device Type:"@);
    }
}

proof fn lemma_agent(before: Seq<Seq<char>>, a: PrintedAgent)
    requires
        is_printable(a),
    ensures
        agent_scan(before + agent_lines(a)) == (AgentScan {
            done: committed(agent_scan(before)),
            name: a.name,
            marketing: a.marketing,
            is_gpu: holds(a.device_type, "GPU"@),
        }),
{
    let lines = agent_lines(a);
    let b1 = before.push(lines[0]);
    let b2 = b1.push(lines[1]);
    let b3 = b2.push(lines[2]);
    let b4 = b3.push(lines[3]);
    assert(b1.drop_last() =~= before);
    assert(b2.drop_last() =~= b1);
    assert(b3.drop_last() =~= b2);
    assert(b4.drop_last() =~= b3);
    lemma_header(agent_scan(before), a.lead, a.number);
    assert(agent_scan(b1) == agent_step(agent_scan(before), lines[0]));
    assert(agent_scan(b2) == agent_step(agent_scan(b1), lines[1]));
    assert(agent_scan(b3) == agent_step(agent_scan(b2), lines[2]));
    assert(agent_scan(b4) == agent_step(agent_scan(b3), lines[3]));
    lemma_fields(agent_scan(b1), a);
    lemma_asides(b4, a.more, a.name.len() > 0);
    assert(before + lines =~= b4 + a.more);
}

proof fn lemma_agents(preamble: Seq<Seq<char>>, agents: Seq<PrintedAgent>)
    requires
        are_asides(preamble, false),
        forall|i: int| 0 <= i < agents.len() ==> is_printable(#[trigger] agents[i]),
    ensures
        committed(agent_scan(preamble + all_lines(agents))) == gpus_among(agents),
    decreases agents.len(),
{
    if agents.len() == 0 {
        let none = Seq::<Seq<char>>::empty();
        lemma_asides(none, preamble, false);
        assert(none + preamble =~= preamble + all_lines(agents));
        reveal_strlit("gfx");
    } else {
        let some = agents.drop_last();
        let a = agents.last();
        assert forall|i: int| 0 <= i < some.len() implies is_printable(#[trigger] some[i]) by {
            assert(some[i] == agents[i]);
        }
        lemma_agents(preamble, some);
        assert(is_printable(agents[agents.len() - 1]));
        lemma_agent(preamble + all_lines(some), a);
        assert(preamble + all_lines(agents) =~= preamble + all_lines(some) + agent_lines(a));
        law_prefix(a.name, "gfx"@);
    }
}

proof fn lemma_all_lines(agents: Seq<PrintedAgent>)
    requires
        forall|i: int| 0 <= i < agents.len() ==> is_printable(#[trigger] agents[i]),
    ensures
        are_lines(all_lines(agents)),
    decreases agents.len(),
{
    if agents.len() > 0 {
        let some = agents.drop_last();
        assert forall|i: int| 0 <= i < some.len() implies is_printable(#[trigger] some[i]) by {
            assert(some[i] == agents[i]);
        }
        lemma_all_lines(some);
        assert(is_printable(agents[agents.len() - 1]));
    }
}

/// Every agent that is printed is read, one for each header whatever its number:
/// those of device type GPU whose name is a gfx target are the GPU agents, in
/// order and with their marketing names, and no others are.
pub proof fn law_printed_agents_are_read_back(
    preamble: Seq<Seq<char>>,
    agents: Seq<PrintedAgent>,
)
    requires
        are_lines(preamble),
        are_asides(preamble, false),
        forall|i: int| 0 <= i < agents.len() ==> is_printable(#[trigger] agents[i]),
    ensures
        gpu_agents(text_of(preamble + all_lines(agents))) == gpus_among(agents),
{
    lemma_all_lines(agents);
    let lines = preamble + all_lines(agents);
    law_printed_lines(lines);
    lemma_agents(preamble, agents);
}

proof fn lemma_count(agents: Seq<PrintedAgent>)
    requires
        forall|i: int| 0 <= i < agents.len() ==> is_gpu_agent(#[trigger] agents[i]),
    ensures
        gpus_among(agents).len() == agents.len(),
        forall|i: int|
            0 <= i < agents.len() ==> #[trigger] gpus_among(agents)[i] == (
                agents[i].name,
                agents[i].marketing,
            ),
    decreases agents.len(),
{
    if agents.len() > 0 {
        let some = agents.drop_last();
        assert forall|i: int| 0 <= i < some.len() implies is_gpu_agent(#[trigger] some[i]) by {
            assert(some[i] == agents[i]);
        }
        lemma_count(some);
        assert(is_gpu_agent(agents[agents.len() - 1]));
    }
}

/// As many GPU agents as are printed are read, and in the same places.
pub proof fn law_no_gpu_agent_is_lost(preamble: Seq<Seq<char>>, agents: Seq<PrintedAgent>)
    requires
        are_lines(preamble),
        are_asides(preamble, false),
        forall|i: int| 0 <= i < agents.len() ==> is_printable(#[trigger] agents[i]),
        forall|i: int| 0 <= i < agents.len() ==> is_gpu_agent(#[trigger] agents[i]),
    ensures
        ({
            let read = gpu_agents(text_of(preamble + all_lines(agents)));
            &&& read.len() == agents.len()
            &&& forall|i: int|
                0 <= i < agents.len() ==> #[trigger] read[i] == (
                    agents[i].name,
                    agents[i].marketing,
                )
        }),
{
    law_printed_agents_are_read_back(preamble, agents);
    lemma_count(agents);
}

/// Whether a line is that of a field, its blanks aside.
pub open spec fn is_field(line: Seq<char>, label: Seq<char>) -> bool {
    label.is_prefix_of(trimmed(line))
}

/// The fields of an agent may come in any order: two lines that are no headers
/// and are not of one field change places without a trace.
pub proof fn law_fields_in_any_order(
    before: Seq<Seq<char>>,
    a: Seq<char>,
    b: Seq<char>,
    rest: Seq<Seq<char>>,
)
    requires
        !is_field(a, "Agent "@),
        !is_field(b, "Agent "@),
        !(is_field(a, "Name:"@) && is_field(b, "Name:"@)),
        !(is_field(a, "Marketing Name:"@) && is_field(b, "Marketing Name:"@)),
        !(is_field(a, "Device Type:"@) && is_field(b, "Device Type:"@)),
    ensures
        agent_scan(before.push(a).push(b) + rest) == agent_scan(before.push(b).push(a) + rest),
{
    let scan = agent_scan(before);
    lemma_labels(a);
    lemma_labels(b);
    assert(agent_step(agent_step(scan, a), b) == agent_step(agent_step(scan, b), a));
    assert(before.push(a).drop_last() =~= before);
    assert(before.push(b).drop_last() =~= before);
    assert(before.push(a).push(b).drop_last() =~= before.push(a));
    assert(before.push(b).push(a).drop_last() =~= before.push(b));
    assert(agent_scan(before.push(a)) == agent_step(scan, a));
    assert(agent_scan(before.push(b)) == agent_step(scan, b));
    assert(agent_scan(before.push(a).push(b)) == agent_step(agent_scan(before.push(a)), b));
    assert(agent_scan(before.push(b).push(a)) == agent_step(agent_scan(before.push(b)), a));
    crate::laws::gpus::lemma_same_scan(before.push(a).push(b), before.push(b).push(a), rest);
}

/// A line has at most one of the labels.
proof fn lemma_labels(line: Seq<char>)
    ensures
        begins_with(trimmed(line), "Agent "@) == is_field(line, "Agent "@),
        begins_with(trimmed(line), "Name:"@) == is_field(line, "Name:"@),
        begins_with(trimmed(line), "Marketing Name:"@) == is_field(line, "Marketing Name:"@),
        begins_with(trimmed(line), "Device Type:"@) == is_field(line, "Device Type:"@),
{
    let s = trimmed(line);
    law_prefix(s, "Agent "@);
    law_prefix(s, "Name:"@);
    law_prefix(s, "Marketing Name:"@);
    law_prefix(s, "Device Type:"@);
}

/// Of several device types the last counts.
pub proof fn law_last_device_type_counts(
    before: Seq<Seq<char>>,
    indent: Seq<char>,
    gap: Seq<char>,
    device_type: Seq<char>,
)
    requires
        all_space(indent),
        all_space(gap),
        is_bare(device_type),
    ensures
        ({
            let line = indent + "Device Type:"@ + gap + device_type;
            agent_scan(before.push(line)) == (AgentScan {
                is_gpu: holds(device_type, "GPU"@),
                ..agent_scan(before)
            })
        }),
{
    reveal_strlit("Agent ");
    reveal_strlit("Name:");
    reveal_strlit("Marketing Name:");
    reveal_strlit("Device Type:");
    reveal_strlit("GPU");
    let line = indent + "Device Type:"@ + gap + device_type;
    assert(before.push(line).drop_last() =~= before);
    let device = lemma_field(indent, "Device Type:"@, gap, device_type);
    let s = "Device Type:"@ + device;
    assert(s[0] == 'D');
    if begins_with(s, "Agent "@) {
        lemma_first_letter(s, "Agent "@);
    }
    if begins_with(s, "Name:"@) {
        lemma_first_letter(s, "Name:"@);
    }
    if begins_with(s, "Marketing Name:"@) {
        lemma_first_letter(s, "Marketing Name:"@);
    }
    assert(has_text(device, "GPU"@) == has_text(device_type, "GPU"@));
}

// ---------------------------------------------------------------------------
// From agents to GPUs
// ---------------------------------------------------------------------------

/// A GPU of the bus takes the target of its agent. Its name stays unless it was
/// blank, and whether it is integrated stays unless the family tells.
pub proof fn law_agent_fills_in(gpu: GpuView, gfx: Seq<char>, marketing: Seq<char>)
    ensures
        ({
            let after = filled(gpu, (gfx, marketing));
            &&& after.gfx_target == gfx
            &&& after.pci_id == gpu.pci_id
            &&& after.is_amd == gpu.is_amd
            &&& gpu.name.len() > 0 ==> after.name == gpu.name
            &&& gpu.name.len() == 0 ==> after.name == marketing
            &&& after.is_apu == if family_verdict(gfx) is Some {
                family_verdict(gfx)
            } else {
                gpu.is_apu
            }
        }),
{
    if gpu.name.len() == 0 && marketing.len() == 0 {
        assert(gpu.name =~= marketing);
    }
}

/// A GPU that only `rocminfo` knows carries the marketing name, or a stand-in
/// where that is blank, and no PCI id.
pub proof fn law_agent_stands_alone(gfx: Seq<char>, marketing: Seq<char>)
    ensures
        ({
            let gpu = agent_gpu((gfx, marketing));
            &&& gpu.gfx_target == gfx
            &&& gpu.name == if marketing.len() > 0 {
                marketing
            } else {
                "AMD GPU"@
            }
            &&& gpu.pci_id == Seq::<char>::empty()
            &&& gpu.is_amd
            &&& gpu.is_apu == Some(family_verdict(gfx) == Some(true))
        }),
{
}

// ---------------------------------------------------------------------------
// The probe
// ---------------------------------------------------------------------------

/// Where `rocminfo` runs, the agents that it prints become GPUs: on a host of
/// which the bus listed nothing, one each, in order, with target and name.
pub proof fn law_rocminfo_gives_the_gpus(
    h: Host,
    e: ExaminationView,
    preamble: Seq<Seq<char>>,
    agents: Seq<PrintedAgent>,
    err: Seq<char>,
)
    requires
        are_lines(preamble),
        are_asides(preamble, false),
        forall|i: int| 0 <= i < agents.len() ==> is_printable(#[trigger] agents[i]),
        on_path(h, "rocminfo"@) == Ok::<bool, QuestionView>(true),
        prints(
            h,
            "rocminfo"@,
            Seq::empty(),
            15,
            0,
            text_of(preamble + all_lines(agents)),
            err,
        ),
    ensures
        rocminfo_probed(h, e) matches Ok(after) && {
            &&& after.rocminfo_present
            &&& after.rocminfo_status == "ok"@
            &&& after.gpus == agents_applied(e.gpus, gpus_among(agents))
            &&& e.gpus.len() == 0 ==> {
                &&& after.gpus.len() == gpus_among(agents).len()
                &&& forall|i: int|
                    0 <= i < after.gpus.len() ==> {
                        &&& (#[trigger] after.gpus[i]).gfx_target == gpus_among(agents)[i].0
                        &&& gpus_among(agents)[i].1.len() > 0 ==> after.gpus[i].name
                            == gpus_among(agents)[i].1
                        &&& after.gpus[i].is_amd
                    }
            }
        },
{
    law_printed_agents_are_read_back(preamble, agents);
    lemma_prints(
        h,
        "rocminfo"@,
        Seq::empty(),
        15,
        0,
        text_of(preamble + all_lines(agents)),
        err,
    );
    if e.gpus.len() == 0 {
        crate::laws::gpus::law_agents_beyond_the_bus_are_appended(e.gpus, gpus_among(agents));
        let read = gpus_among(agents);
        assert forall|i: int| 0 <= i < read.len() implies #[trigger] agents_applied(
            e.gpus,
            read,
        )[i] == agent_gpu(read[i]) by {
            assert(read[i] == read[0 + i]);
        }
    }
}

/// A failing `rocminfo` names no GPU. What it complained of, on either stream
/// and in whatever case, gives the status; else its code does.
pub proof fn law_rocminfo_complains(
    h: Host,
    e: ExaminationView,
    rc: i32,
    out: Seq<char>,
    err: Seq<char>,
)
    requires
        rc != 0,
        on_path(h, "rocminfo"@) == Ok::<bool, QuestionView>(true),
        prints(h, "rocminfo"@, Seq::empty(), 15, rc, out, err),
    ensures
        rocminfo_probed(h, e) matches Ok(after) && {
            let said = lower_text(out + "\n"@ + err);
            let unloaded = holds(said, "rock module is not loaded"@);
            let denied = holds(said, "permission denied"@) || holds(
                said,
                "operation not permitted"@,
            );
            &&& after.gpus == e.gpus
            &&& after.rocminfo_present
            &&& unloaded ==> after.rocminfo_status == "not-loaded"@
            &&& denied && !unloaded ==> after.rocminfo_status == "permission-denied"@
            &&& !denied && !unloaded ==> after.rocminfo_status == "error rc="@ + decimal_of(
                rc as int,
            )
        },
{
    lemma_prints(h, "rocminfo"@, Seq::empty(), 15, rc, out, err);
}

/// Where there is no `rocminfo` nothing is run.
pub proof fn law_rocminfo_may_be_missing(h: Host, e: ExaminationView)
    requires
        on_path(h, "rocminfo"@) == Ok::<bool, QuestionView>(false),
    ensures
        rocminfo_probed(h, e) matches Ok(after) && {
            &&& after.gpus == e.gpus
            &&& !after.rocminfo_present
            &&& after.rocminfo_status == "missing"@
        },
{
}

} // verus!
