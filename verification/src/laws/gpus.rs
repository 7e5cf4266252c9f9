//! What holds of the GPU probes.

use vstd::prelude::*;
use vstd::string::*;

use crate::examination::{ExaminationView, GpuView};
use crate::gfx::{family_verdict, lowered_family, model_digit};
use crate::gpu::{any_amd, any_amd_with, topology_gpu, topology_probed};
use crate::host::{Host, QuestionView};
use crate::rocminfo::{
    agent_gpu, agent_scan, agents_applied, amd_count, committed, filled, gpu_agents, matched,
    unmatched, AgentView,
};
use crate::split::lines_of;
use crate::text::{begins_with, digit_value, is_digit, trimmed};
use crate::windows::{target_recorded, untargeted_from};

verus! {

// ---------------------------------------------------------------------------
// The family table
// ---------------------------------------------------------------------------

proof fn lemma_model_digit(prefix: Seq<char>, digit: char, suffix: Seq<char>)
    requires
        is_digit(digit),
    ensures
        model_digit(prefix + seq![digit] + suffix, prefix) == Some(digit_value(digit) as u32),
{
    let gfx = prefix + seq![digit] + suffix;
    assert(gfx.take(prefix.len() as int) =~= prefix);
    assert(gfx.subrange(0, prefix.len() as int) =~= prefix);
    assert(gfx.skip(prefix.len() as int)[0] == digit);
}

/// Every gfx115x target is an APU's, whatever suffix follows.
pub proof fn law_strix_is_integrated(digit: char, suffix: Seq<char>)
    requires
        is_digit(digit),
    ensures
        lowered_family("gfx115"@ + seq![digit] + suffix) == Some(true),
{
    lemma_model_digit("gfx115"@, digit, suffix);
}

/// Of the gfx110x targets those from gfx1103 on are APUs', whatever suffix
/// follows: their neighbors below are discrete.
pub proof fn law_rdna3_splits_at_three(digit: char, suffix: Seq<char>)
    requires
        is_digit(digit),
    ensures
        lowered_family("gfx110"@ + seq![digit] + suffix) == Some(digit_value(digit) >= 3),
{
    let gfx = "gfx110"@ + seq![digit] + suffix;
    lemma_model_digit("gfx110"@, digit, suffix);
    reveal_strlit("gfx110");
    reveal_strlit("gfx115");
    assert(gfx[5] == '0');
    assert("gfx115"@[5] == '5');
    assert(model_digit(gfx, "gfx115"@) is None) by {
        if begins_with(gfx, "gfx115"@) {
            assert(gfx.subrange(0, 6)[5] == gfx[5]);
        }
    }
}

/// The table has no opinion on a target of any other family.
pub proof fn law_other_families_have_no_verdict(g: Seq<char>)
    requires
        !begins_with(g, "gfx110"@),
        !begins_with(g, "gfx115"@),
    ensures
        lowered_family(g) is None,
{
}

// ---------------------------------------------------------------------------
// The kernel topology
// ---------------------------------------------------------------------------

/// A GPU of the kernel topology counts as present without claiming to be
/// integrated or discrete.
pub proof fn law_topology_claims_no_package(gpus: Seq<GpuView>, gfx_target: Seq<char>)
    ensures
        any_amd(gpus.push(topology_gpu(gfx_target))),
        any_amd_with(gpus.push(topology_gpu(gfx_target)), true) == any_amd_with(gpus, true),
        any_amd_with(gpus.push(topology_gpu(gfx_target)), false) == any_amd_with(gpus, false),
{
    let more = gpus.push(topology_gpu(gfx_target));
    assert(more[gpus.len() as int].is_amd);
    lemma_amd_with_push(gpus, topology_gpu(gfx_target), true);
    lemma_amd_with_push(gpus, topology_gpu(gfx_target), false);
}

proof fn lemma_amd_with_push(gpus: Seq<GpuView>, gpu: GpuView, is_apu: bool)
    requires
        gpu.is_apu != Some(is_apu),
    ensures
        any_amd_with(gpus.push(gpu), is_apu) == any_amd_with(gpus, is_apu),
{
    let more = gpus.push(gpu);
    if any_amd_with(gpus, is_apu) {
        let i = choose|i: int|
            0 <= i < gpus.len() && (#[trigger] gpus[i]).is_amd && gpus[i].is_apu == Some(is_apu);
        assert(more[i] == gpus[i]);
    }
    if any_amd_with(more, is_apu) {
        let i = choose|i: int|
            0 <= i < more.len() && (#[trigger] more[i]).is_amd && more[i].is_apu == Some(is_apu);
        assert(gpus[i] == more[i]);
    }
}

/// Where an AMD GPU was found already, the kernel topology is neither asked nor
/// added.
pub proof fn law_fallback_leaves_amd_alone(h: Host, e: ExaminationView)
    requires
        any_amd(e.gpus),
    ensures
        topology_probed(h, e) == Ok::<ExaminationView, QuestionView>(e),
{
}

// ---------------------------------------------------------------------------
// The agents of rocminfo
// ---------------------------------------------------------------------------

/// Without agents nothing changes.
pub proof fn law_no_agents_change_nothing(gpus: Seq<GpuView>)
    ensures
        agents_applied(gpus, Seq::empty()) == gpus,
{
    assert(agents_applied(gpus, Seq::empty()) =~= gpus);
}

/// Agents take nothing from the GPUs of the bus: each keeps its place, its PCI
/// id and its vendor, and its name unless that was blank. One that is not AMD's
/// is left as it was.
pub proof fn law_agents_keep_the_bus(gpus: Seq<GpuView>, agents: Seq<AgentView>, i: int)
    requires
        0 <= i < gpus.len(),
    ensures
        ({
            let after = agents_applied(gpus, agents);
            &&& after.len() >= gpus.len()
            &&& after[i].pci_id == gpus[i].pci_id
            &&& after[i].is_amd == gpus[i].is_amd
            &&& gpus[i].name.len() > 0 ==> after[i].name == gpus[i].name
            &&& !gpus[i].is_amd ==> after[i] == gpus[i]
        }),
{
    assert(agents_applied(gpus, agents)[i] == matched(gpus, agents, i));
}

/// An agent beyond the AMD GPUs of the bus becomes a GPU of its own, and no
/// other does.
pub proof fn law_agents_beyond_the_bus_are_appended(gpus: Seq<GpuView>, agents: Seq<AgentView>)
    ensures
        agents_applied(gpus, agents).len() == gpus.len() + if agents.len() > amd_count(gpus) {
            agents.len() - amd_count(gpus)
        } else {
            0
        },
        forall|k: int|
            amd_count(gpus) <= k < agents.len() ==> agents_applied(gpus, agents)[gpus.len() + k
                - amd_count(gpus)] == agent_gpu(#[trigger] agents[k]),
{
    let from = amd_count(gpus);
    assert forall|k: int| from <= k < agents.len() implies agents_applied(
        gpus,
        agents,
    )[gpus.len() + k - from] == agent_gpu(#[trigger] agents[k]) by {
        assert(unmatched(agents, from)[k - from] == agent_gpu(agents[from + (k - from)]));
    }
}

/// The targets of AMD's GPUs, in order.
pub open spec fn amd_targets(gpus: Seq<GpuView>) -> Seq<Seq<char>>
    decreases gpus.len(),
{
    if gpus.len() == 0 {
        Seq::empty()
    } else if gpus.last().is_amd {
        amd_targets(gpus.drop_last()).push(gpus.last().gfx_target)
    } else {
        amd_targets(gpus.drop_last())
    }
}

proof fn lemma_targets_of_bus(gpus: Seq<GpuView>, agents: Seq<AgentView>, n: int)
    requires
        0 <= n <= gpus.len(),
    ensures
        ({
            let before = amd_targets(gpus.take(n));
            let after = amd_targets(agents_applied(gpus, agents).take(n));
            &&& before.len() == amd_count(gpus.take(n))
            &&& after.len() == before.len()
            &&& forall|k: int|
                0 <= k < after.len() ==> #[trigger] after[k] == if k < agents.len() {
                    agents[k].0
                } else {
                    before[k]
                }
        }),
    decreases n,
{
    let all = agents_applied(gpus, agents);
    if n > 0 {
        lemma_targets_of_bus(gpus, agents, n - 1);
        assert(gpus.take(n).drop_last() =~= gpus.take(n - 1));
        assert(all.take(n).drop_last() =~= all.take(n - 1));
        assert(all[n - 1] == matched(gpus, agents, n - 1));
    } else {
        assert(gpus.take(0) =~= Seq::empty());
        assert(all.take(0) =~= Seq::empty());
    }
}

proof fn lemma_targets_of_agents(gpus: Seq<GpuView>, agents: Seq<AgentView>, n: int)
    requires
        0 <= n <= unmatched(agents, amd_count(gpus)).len(),
    ensures
        ({
            let all = agents_applied(gpus, agents);
            let bus = amd_targets(all.take(gpus.len() as int));
            let after = amd_targets(all.take(gpus.len() + n));
            &&& after.len() == bus.len() + n
            &&& forall|k: int| 0 <= k < bus.len() ==> #[trigger] after[k] == bus[k]
            &&& forall|k: int|
                bus.len() <= k < after.len() ==> #[trigger] after[k] == agents[amd_count(gpus) + k
                    - bus.len()].0
        }),
    decreases n,
{
    let all = agents_applied(gpus, agents);
    if n > 0 {
        lemma_targets_of_agents(gpus, agents, n - 1);
        assert(all.take(gpus.len() + n).drop_last() =~= all.take(gpus.len() + n - 1));
        assert(all[gpus.len() + n - 1] == unmatched(agents, amd_count(gpus))[n - 1]);
    }
}

/// Agents are matched in order and never swapped: the targets of AMD's GPUs
/// begin with the targets of the agents, and behind those they are what they
/// were.
pub proof fn law_agents_are_matched_in_order(gpus: Seq<GpuView>, agents: Seq<AgentView>, k: int)
    requires
        0 <= k < amd_targets(agents_applied(gpus, agents)).len(),
    ensures
        ({
            let before = amd_targets(gpus);
            let after = amd_targets(agents_applied(gpus, agents));
            &&& after.len() >= agents.len()
            &&& after.len() >= before.len()
            &&& k < agents.len() ==> after[k] == agents[k].0
            &&& k >= agents.len() ==> k < before.len() && after[k] == before[k]
        }),
{
    let all = agents_applied(gpus, agents);
    let n = unmatched(agents, amd_count(gpus)).len() as int;
    lemma_targets_of_bus(gpus, agents, gpus.len() as int);
    lemma_targets_of_agents(gpus, agents, n);
    assert(gpus.take(gpus.len() as int) =~= gpus);
    assert(all.take(gpus.len() + n) =~= all);
}

/// A verdict of the family table outranks the guess from the bus, and where the
/// table has none the guess stands.
pub proof fn law_family_verdict_outranks_the_guess(gpu: GpuView, agent: AgentView)
    ensures
        family_verdict(agent.0) is Some ==> filled(gpu, agent).is_apu == family_verdict(agent.0),
        family_verdict(agent.0) is None ==> filled(gpu, agent).is_apu == gpu.is_apu,
{
}

/// A GPU that only `rocminfo` knows is integrated or discrete by the family
/// table, and never undecided.
pub proof fn law_lone_agents_are_decided(agent: AgentView)
    ensures
        agent_gpu(agent).is_amd,
        agent_gpu(agent).is_apu == Some(family_verdict(agent.0) == Some(true)),
        agent_gpu(agent).name.len() > 0,
{
    reveal_strlit("AMD GPU");
}

// ---------------------------------------------------------------------------
// The output of rocminfo
// ---------------------------------------------------------------------------

/// Whether the agents behind a reading all have a gfx target.
pub open spec fn all_gfx(agents: Seq<AgentView>) -> bool {
    forall|k: int| 0 <= k < agents.len() ==> begins_with((#[trigger] agents[k]).0, "gfx"@)
}

proof fn lemma_scan_gfx(lines: Seq<Seq<char>>)
    ensures
        all_gfx(agent_scan(lines).done),
        all_gfx(committed(agent_scan(lines))),
    decreases lines.len(),
{
    if lines.len() > 0 {
        lemma_scan_gfx(lines.drop_last());
    }
}

/// Every agent that is read out of `rocminfo` output has a gfx target: a CPU
/// agent is none of them.
pub proof fn law_agents_have_gfx_targets(out: Seq<char>)
    ensures
        forall|k: int|
            0 <= k < gpu_agents(out).len() ==> begins_with((#[trigger] gpu_agents(out)[k]).0, "gfx"@),
{
    lemma_scan_gfx(lines_of(out));
}

pub(crate) proof fn lemma_same_scan(a: Seq<Seq<char>>, b: Seq<Seq<char>>, rest: Seq<Seq<char>>)
    requires
        agent_scan(a) == agent_scan(b),
    ensures
        agent_scan(a + rest) == agent_scan(b + rest),
    decreases rest.len(),
{
    if rest.len() > 0 {
        lemma_same_scan(a, b, rest.drop_last());
        assert((a + rest).drop_last() =~= a + rest.drop_last());
        assert((b + rest).drop_last() =~= b + rest.drop_last());
        assert((a + rest).last() == rest.last());
        assert((b + rest).last() == rest.last());
    } else {
        assert(a + rest =~= a);
        assert(b + rest =~= b);
    }
}

/// Once an agent has a name, a further `Name:` line such as those of its ISA
/// entries changes nothing, wherever it stands.
pub proof fn law_isa_names_are_ignored(
    before: Seq<Seq<char>>,
    line: Seq<char>,
    rest: Seq<Seq<char>>,
)
    requires
        agent_scan(before).name.len() > 0,
        begins_with(trimmed(line), "Name:"@),
    ensures
        agent_scan(before.push(line) + rest) == agent_scan(before + rest),
{
    assert(before.push(line).drop_last() =~= before);
    let s = trimmed(line);
    reveal_strlit("Name:");
    reveal_strlit("Agent ");
    assert(!begins_with(s, "Agent "@)) by {
        if begins_with(s, "Agent "@) {
            assert(s.subrange(0, 5)[0] == s[0]);
            assert(s.subrange(0, 6)[0] == s[0]);
            assert("Name:"@[0] == 'N');
            assert("Agent "@[0] == 'A');
        }
    }
    lemma_same_scan(before.push(line), before, rest);
}

// ---------------------------------------------------------------------------
// The targets of hipInfo
// ---------------------------------------------------------------------------

proof fn lemma_untargeted_is_first(gpus: Seq<GpuView>, from: int)
    requires
        0 <= from,
    ensures
        match untargeted_from(gpus, from) {
            Some(i) => {
                &&& from <= i < gpus.len()
                &&& gpus[i].is_amd && gpus[i].gfx_target.len() == 0
                &&& forall|j: int|
                    from <= j < i ==> !((#[trigger] gpus[j]).is_amd && gpus[j].gfx_target.len()
                        == 0)
            },
            None => forall|j: int|
                from <= j < gpus.len() ==> !((#[trigger] gpus[j]).is_amd
                    && gpus[j].gfx_target.len() == 0),
        },
    decreases gpus.len() - from,
{
    if from < gpus.len() {
        lemma_untargeted_is_first(gpus, from + 1);
    }
}

/// A target of `hipInfo` goes to one AMD GPU that had none, and to the first of
/// them: no known target is ever replaced.
pub proof fn law_known_targets_are_kept(e: ExaminationView, gfx: Seq<char>, i: int)
    requires
        0 <= i < e.gpus.len(),
    ensures
        ({
            let after = target_recorded(e, gfx).gpus;
            &&& after.len() == e.gpus.len()
            &&& !e.gpus[i].is_amd || e.gpus[i].gfx_target.len() > 0 ==> after[i] == e.gpus[i]
            &&& after[i] != e.gpus[i] ==> forall|j: int|
                0 <= j < i ==> (#[trigger] after[j]) == e.gpus[j] && !(e.gpus[j].is_amd
                    && e.gpus[j].gfx_target.len() == 0)
        }),
{
    lemma_untargeted_is_first(e.gpus, 0);
}

} // verus!
