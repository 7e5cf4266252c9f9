//! What `rocminfo` says of the GPUs.

use vstd::prelude::*;
use vstd::string::*;

use crate::ask::{no_args, on_path, outcome, output_answer, plain_command, run, which};
use crate::examination::{
    gpu_views, lemma_gpu_views_push, unknown_gpu, Examination, ExaminationView, Gpu, GpuView,
};
use crate::gfx::{family_verdict, gfx_apu_family_verdict, gfx_is_apu_family};
use crate::host::{text_pairs, Answers, CommandOutputView, Host, Question, QuestionView};
use crate::number::{decimal, decimal_of};
use crate::split::{concat, concat3, lines, lines_of};
use crate::text::{
    after_prefix, begins_with, contains, has_text, starts_with, strip_prefix, texts, trim, trimmed,
};
use crate::unicode::{lower_case, lower_text};

verus! {

broadcast use lemma_gpu_views_push;

// ---------------------------------------------------------------------------
// Agents
// ---------------------------------------------------------------------------

/// A GPU agent: its gfx target and its marketing name.
pub type AgentView = (Seq<char>, Seq<char>);

/// How far a reading of `rocminfo` output has come: the GPU agents behind it,
/// and what is known of the agent it is in.
pub struct AgentScan {
    pub done: Seq<AgentView>,
    pub name: Seq<char>,
    pub marketing: Seq<char>,
    pub is_gpu: bool,
}

/// The GPU agents, the one being read included.
pub open spec fn committed(scan: AgentScan) -> Seq<AgentView> {
    if scan.is_gpu && begins_with(scan.name, "gfx"@) {
        scan.done.push((scan.name, scan.marketing))
    } else {
        scan.done
    }
}

/// The reading after one more line. An `Agent` header closes the agent before
/// it; of the `Name:` and `Marketing Name:` lines only the first that says
/// something counts, and of the `Device Type:` lines the last.
pub open spec fn agent_step(scan: AgentScan, line: Seq<char>) -> AgentScan {
    let s = trimmed(line);
    if begins_with(s, "Agent "@) {
        AgentScan {
            done: committed(scan),
            name: Seq::empty(),
            marketing: Seq::empty(),
            is_gpu: false,
        }
    } else {
        match after_prefix(s, "Name:"@) {
            Some(rest) => if scan.name.len() == 0 {
                AgentScan { name: trimmed(rest), ..scan }
            } else {
                scan
            },
            None => match after_prefix(s, "Marketing Name:"@) {
                Some(rest) => if scan.marketing.len() == 0 {
                    AgentScan { marketing: trimmed(rest), ..scan }
                } else {
                    scan
                },
                None => match after_prefix(s, "Device Type:"@) {
                    Some(rest) => AgentScan { is_gpu: has_text(rest, "GPU"@), ..scan },
                    None => scan,
                },
            },
        }
    }
}

/// The reading after all lines.
pub open spec fn agent_scan(lines: Seq<Seq<char>>) -> AgentScan
    decreases lines.len(),
{
    if lines.len() == 0 {
        AgentScan {
            done: Seq::empty(),
            name: Seq::empty(),
            marketing: Seq::empty(),
            is_gpu: false,
        }
    } else {
        agent_step(agent_scan(lines.drop_last()), lines.last())
    }
}

/// The GPU agents in `rocminfo` output, in agent order.
pub open spec fn gpu_agents(out: Seq<char>) -> Seq<AgentView> {
    committed(agent_scan(lines_of(out)))
}

proof fn lemma_text_pairs_push(v: Seq<(String, String)>, p: (String, String))
    ensures
        text_pairs(v.push(p)) == text_pairs(v).push((p.0@, p.1@)),
{
    assert(text_pairs(v.push(p)) =~= text_pairs(v).push((p.0@, p.1@)));
}

/// `(gfx target, marketing name)` for every GPU agent in `rocminfo` output,
/// in agent order. Only the first `Name:` after an `Agent` header is the
/// agent's name: a GPU agent's ISA entries are further `Name:` lines
/// (`amdgcn-amd-amdhsa--gfx1100`) and must not replace it.
pub fn parse_rocminfo_gpu_agents(out: &str) -> (r: Vec<(String, String)>)
    ensures
        text_pairs(r@) == gpu_agents(out@),
{
    let found = lines(out);
    let n: usize = found.len();
    let mut done: Vec<(String, String)> = Vec::new();
    let mut name = String::new();
    let mut marketing = String::new();
    let mut is_gpu = false;
    let mut i: usize = 0;
    let ghost all = lines_of(out@);
    assert(text_pairs(done@) =~= Seq::empty());
    while i < n
        invariant
            n == found@.len(),
            i <= n,
            all == texts(found@),
            agent_scan(all.take(i as int)) == (AgentScan {
                done: text_pairs(done@),
                name: name@,
                marketing: marketing@,
                is_gpu,
            }),
        decreases n - i,
    {
        assert(all.take(i + 1).drop_last() =~= all.take(i as int));
        assert(all.take(i + 1).last() == found@[i as int]@);
        let s = trim(found[i].as_str());
        if starts_with(s.as_str(), "Agent ") {
            if is_gpu && starts_with(name.as_str(), "gfx") {
                let agent = (name, marketing);
                proof {
                    lemma_text_pairs_push(done@, agent);
                }
                done.push(agent);
            }
            name = String::new();
            marketing = String::new();
            is_gpu = false;
        } else {
            match strip_prefix(s.as_str(), "Name:") {
                Some(rest) => {
                    if name.as_str().is_empty() {
                        name = trim(rest.as_str());
                    }
                },
                None => match strip_prefix(s.as_str(), "Marketing Name:") {
                    Some(rest) => {
                        if marketing.as_str().is_empty() {
                            marketing = trim(rest.as_str());
                        }
                    },
                    None => match strip_prefix(s.as_str(), "Device Type:") {
                        Some(rest) => {
                            is_gpu = contains(rest.as_str(), "GPU");
                        },
                        None => {},
                    },
                },
            }
        }
        i += 1;
    }
    assert(all.take(n as int) =~= all);
    if is_gpu && starts_with(name.as_str(), "gfx") {
        let agent = (name, marketing);
        proof {
            lemma_text_pairs_push(done@, agent);
        }
        done.push(agent);
    }
    done
}

// ---------------------------------------------------------------------------
// Agents onto GPUs
// ---------------------------------------------------------------------------

/// How many of the GPUs are AMD's.
pub open spec fn amd_count(gpus: Seq<GpuView>) -> nat
    decreases gpus.len(),
{
    if gpus.len() == 0 {
        0
    } else {
        amd_count(gpus.drop_last()) + (if gpus.last().is_amd {
            1nat
        } else {
            0nat
        })
    }
}

/// A GPU of the PCI bus with what its agent says. The target is the agent's;
/// the marketing name fills a blank name only; the verdict on being integrated
/// stands unless the family table has one for the target.
pub open spec fn filled(gpu: GpuView, agent: AgentView) -> GpuView {
    GpuView {
        name: if agent.1.len() > 0 && gpu.name.len() == 0 {
            agent.1
        } else {
            gpu.name
        },
        gfx_target: agent.0,
        is_apu: match family_verdict(agent.0) {
            Some(verdict) => Some(verdict),
            None => gpu.is_apu,
        },
        ..gpu
    }
}

/// The GPU that an agent stands for by itself.
pub open spec fn agent_gpu(agent: AgentView) -> GpuView {
    GpuView {
        name: if agent.1.len() == 0 {
            "AMD GPU"@
        } else {
            agent.1
        },
        gfx_target: agent.0,
        is_amd: true,
        is_apu: Some(family_verdict(agent.0) == Some(true)),
        ..unknown_gpu()
    }
}

/// What becomes of the GPU at position `i`: the agent with the same rank among
/// the agents as the GPU has among AMD's fills it in.
pub open spec fn matched(gpus: Seq<GpuView>, agents: Seq<AgentView>, i: int) -> GpuView {
    let rank = amd_count(gpus.take(i));
    if gpus[i].is_amd && rank < agents.len() {
        filled(gpus[i], agents[rank as int])
    } else {
        gpus[i]
    }
}

/// The agents for which the PCI bus listed no GPU, as GPUs of their own.
pub open spec fn unmatched(agents: Seq<AgentView>, from: nat) -> Seq<GpuView> {
    Seq::new(
        if agents.len() > from {
            (agents.len() - from) as nat
        } else {
            0
        },
        |k: int| agent_gpu(agents[from + k]),
    )
}

/// The GPUs with the agents mapped onto them in order.
pub open spec fn agents_applied(gpus: Seq<GpuView>, agents: Seq<AgentView>) -> Seq<GpuView> {
    Seq::new(gpus.len(), |i: int| matched(gpus, agents, i)) + unmatched(agents, amd_count(gpus))
}

fn fill(gpu: &Gpu, agent: &(String, String)) -> (r: Gpu)
    ensures
        r@ == filled(gpu@, (agent.0@, agent.1@)),
{
    let mut r = gpu.clone();
    r.gfx_target = agent.0.clone();
    if !agent.1.as_str().is_empty() && r.name.as_str().is_empty() {
        r.name = agent.1.clone();
    }
    match gfx_apu_family_verdict(agent.0.as_str()) {
        Some(verdict) => {
            r.is_apu = Some(verdict);
        },
        None => {},
    }
    r
}

fn lone_agent(agent: &(String, String)) -> (r: Gpu)
    ensures
        r@ == agent_gpu((agent.0@, agent.1@)),
{
    Gpu {
        name: if agent.1.as_str().is_empty() {
            "AMD GPU".to_owned()
        } else {
            agent.1.clone()
        },
        gfx_target: agent.0.clone(),
        pci_id: String::new(),
        is_apu: Some(gfx_is_apu_family(agent.0.as_str())),
        is_amd: true,
    }
}

/// Map rocminfo's GPU agents onto the AMD GPUs `lspci` found, in order, and
/// append any beyond that list as GPUs of their own.
///
/// rocminfo is authoritative for `gfx_target`. For `is_apu` it outranks lspci's
/// marketing-name guess wherever the family table has a verdict; elsewhere
/// lspci's guess is the only evidence there is, so it stands.
pub fn apply_rocminfo_gpu_agents(e: &mut Examination, agents: Vec<(String, String)>)
    ensures
        final(e)@ == (ExaminationView {
            gpus: agents_applied(old(e)@.gpus, text_pairs(agents@)),
            ..old(e)@
        }),
{
    let ghost gpus = gpu_views(e.gpus@);
    let ghost views = text_pairs(agents@);
    let n: usize = e.gpus.len();
    let m: usize = agents.len();
    let mut out: Vec<Gpu> = Vec::new();
    let mut rank: usize = 0;
    let mut i: usize = 0;
    assert(gpu_views(out@) =~= Seq::empty());
    assert(gpus.take(0) =~= Seq::empty());
    while i < n
        invariant
            n == e.gpus@.len(),
            m == agents@.len(),
            i <= n,
            rank <= i,
            gpus == gpu_views(e.gpus@),
            views == text_pairs(agents@),
            *e == *old(e),
            rank == amd_count(gpus.take(i as int)),
            out@.len() == i,
            forall|j: int| 0 <= j < i ==> #[trigger] gpu_views(out@)[j] == matched(gpus, views, j),
        decreases n - i,
    {
        assert(gpus.take(i + 1).drop_last() =~= gpus.take(i as int));
        assert(gpus.take(i + 1).last() == e.gpus@[i as int]@);
        let ghost before = gpu_views(out@);
        let gpu = if e.gpus[i].is_amd && rank < m {
            assert(views[rank as int] == (agents@[rank as int].0@, agents@[rank as int].1@));
            fill(&e.gpus[i], &agents[rank])
        } else {
            e.gpus[i].clone()
        };
        assert(gpu@ == matched(gpus, views, i as int));
        if e.gpus[i].is_amd {
            rank += 1;
        }
        out.push(gpu);
        assert forall|j: int| 0 <= j < i + 1 implies #[trigger] gpu_views(out@)[j] == matched(
            gpus,
            views,
            j,
        ) by {
            if j < i {
                assert(gpu_views(out@)[j] == before[j]);
            }
        }
        i += 1;
    }
    let ghost kept = Seq::new(gpus.len(), |k: int| matched(gpus, views, k));
    assert(gpus.take(n as int) =~= gpus);
    assert(gpu_views(out@) =~= kept);
    let ghost from = amd_count(gpus);
    let mut k: usize = rank;
    assert(gpu_views(out@) =~= kept + unmatched(views, from).take(0));
    while k < m
        invariant
            m == agents@.len(),
            views == text_pairs(agents@),
            *e == *old(e),
            rank == from,
            rank <= k,
            k <= m || k == rank,
            gpu_views(out@) == kept + unmatched(views, from).take(k - rank),
        decreases m - k,
    {
        assert(views[k as int] == (agents@[k as int].0@, agents@[k as int].1@));
        let gpu = lone_agent(&agents[k]);
        let ghost before = gpu_views(out@);
        out.push(gpu);
        assert(unmatched(views, from).take(k + 1 - rank) =~= unmatched(views, from).take(
            k - rank,
        ).push(gpu@));
        assert(gpu_views(out@) =~= kept + unmatched(views, from).take(k + 1 - rank));
        k += 1;
    }
    assert(unmatched(views, from).take(k - rank) =~= unmatched(views, from));
    e.gpus = out;
}

// ---------------------------------------------------------------------------
// The probe
// ---------------------------------------------------------------------------

/// What a failed `rocminfo` complained of, its output in lower case.
pub open spec fn lowered_complaint(merged: Seq<char>, rc: i32) -> Seq<char> {
    if has_text(merged, "rock module is not loaded"@) {
        "not-loaded"@
    } else if has_text(merged, "permission denied"@) || has_text(
        merged,
        "operation not permitted"@,
    ) {
        "permission-denied"@
    } else {
        "error rc="@ + decimal_of(rc as int)
    }
}

/// `e` with what `rocminfo` printed.
pub open spec fn rocminfo_recorded(e: ExaminationView, out: CommandOutputView) -> ExaminationView {
    if out.rc != 0 {
        ExaminationView {
            rocminfo_present: true,
            rocminfo_status: lowered_complaint(
                lower_text(out.stdout + "\n"@ + out.stderr),
                out.rc,
            ),
            ..e
        }
    } else {
        ExaminationView {
            rocminfo_present: true,
            rocminfo_status: "ok"@,
            gpus: agents_applied(e.gpus, gpu_agents(out.stdout)),
            ..e
        }
    }
}

/// `e` after `rocminfo` was run.
pub open spec fn rocminfo_probed(h: Host, e: ExaminationView) -> Result<
    ExaminationView,
    QuestionView,
> {
    match on_path(h, "rocminfo"@) {
        Err(q) => Err(q),
        Ok(false) => Ok(
            ExaminationView { rocminfo_present: false, rocminfo_status: "missing"@, ..e },
        ),
        Ok(true) => match output_answer(h, plain_command("rocminfo"@, Seq::empty(), 15)) {
            Err(q) => Err(q),
            Ok(out) => Ok(rocminfo_recorded(e, out)),
        },
    }
}

/// Names the complaint of a failed `rocminfo` from its output in lower case.
pub fn complaint_status(merged: &str, rc: i32) -> (r: String)
    ensures
        r@ == lowered_complaint(merged@, rc),
{
    if contains(merged, "rock module is not loaded") {
        "not-loaded".to_owned()
    } else if contains(merged, "permission denied") || contains(merged, "operation not permitted") {
        "permission-denied".to_owned()
    } else {
        concat("error rc=", decimal(rc).as_str())
    }
}

/// Records what `rocminfo` printed.
pub fn record_rocminfo(e: &mut Examination, rc: i32, out: &str, err: &str)
    ensures
        final(e)@ == rocminfo_recorded(
            old(e)@,
            (CommandOutputView { rc, stdout: out@, stderr: err@ }),
        ),
{
    e.rocminfo_present = true;
    if rc != 0 {
        let merged = lower_case(concat3(out, "\n", err).as_str());
        e.rocminfo_status = complaint_status(merged.as_str(), rc);
        return;
    }
    e.rocminfo_status = "ok".to_owned();
    apply_rocminfo_gpu_agents(e, parse_rocminfo_gpu_agents(out));
}

/// Runs `rocminfo`, where it is on PATH.
pub fn probe_gpus_rocminfo(e: Examination, h: &Answers) -> (r: Result<Examination, Question>)
    ensures
        outcome(r) == rocminfo_probed(h@, e@),
{
    let mut e = e;
    match which(h, "rocminfo") {
        Err(q) => {
            return Err(q);
        },
        Ok(false) => {
            e.rocminfo_present = false;
            e.rocminfo_status = "missing".to_owned();
            return Ok(e);
        },
        Ok(true) => {},
    }
    match run(h, "rocminfo", no_args(), 15) {
        Err(q) => Err(q),
        Ok(out) => {
            record_rocminfo(&mut e, out.rc, out.stdout.as_str(), out.stderr.as_str());
            Ok(e)
        },
    }
}

} // verus!
