//! What holds of every finished examination.

use vstd::prelude::*;
use vstd::string::*;

use crate::ask::{filesystem_answer, output_answer, plain_command, MEDIUM};
use crate::examination::{status_of, unexamined, ExaminationView, FrameworkProbe, GpuView};
use crate::framework::{framework_probed, FrameworkInterpreterView};
use crate::gpu::{
    any_amd, any_amd_with, is_controller, lists_nvidia, lspci_gpu, lspci_gpus, lspci_probed,
    names_nvidia, topology_gpu, topology_probed,
};
use crate::host::{Host, QuestionView};
use crate::install::rocm_install_probed;
use crate::laws::frames::{
    lemma_adrenalin_probed, lemma_container_probed, lemma_cpu_linux_probed,
    lemma_cpu_windows_probed, lemma_devices_probed, lemma_env_probed, lemma_framework_probed,
    lemma_hip_sdk_probed, lemma_log_probed, lemma_lspci_probed, lemma_modules_probed,
    lemma_msvc_probed, lemma_os_probed, lemma_rocm_install_probed, lemma_rocminfo_probed,
    lemma_secure_boot_probed, lemma_shared_memory_probed, lemma_topology_probed, lemma_user_probed,
    lemma_windows_gpus_probed, lemma_wsl_probed,
};
use crate::platform::{cpu_linux_probed, cpu_windows_probed, os_probed};
use crate::devices::{devices_probed, modules_probed, user_probed};
use crate::probe::{
    examined, linux_driver_probed, linux_gpus_probed, linux_host_probed, linux_surroundings_probed,
    platform_probed, windows_host_probed, windows_inventory_probed, with_status, wsl_guest_probed,
};
use crate::rocminfo::{agents_applied, amd_count, matched, rocminfo_probed, unmatched, AgentView};
use crate::split::lines_of;
use crate::surroundings::{container_probed, env_probed, shared_memory_probed, SHM_PATH};
use crate::text::{after_prefix, trimmed};
use crate::windows::{
    adrenalin_probed, hip_sdk_probed, hipinfo_lines_probed, hipinfo_question, inventory_gpu,
    inventory_recorded, powershell_args, sdk_root, sdk_version, target_recorded,
    windows_gpus_probed, WIN_GPU_SCRIPT,
};
use crate::wsl::{wsl_probed, wsl_rocminfo_status};

verus! {

// ---------------------------------------------------------------------------
// What the laws speak of
// ---------------------------------------------------------------------------

/// Whether one of the GPUs is not AMD's.
pub open spec fn any_other(gpus: Seq<GpuView>) -> bool {
    exists|i: int| 0 <= i < gpus.len() && !(#[trigger] gpus[i]).is_amd
}

/// Whether the categories say what the list of GPUs says.
pub open spec fn categories_agree(e: ExaminationView) -> bool {
    &&& e.has_amd_gpu == any_amd(e.gpus)
    &&& e.has_apu == any_amd_with(e.gpus, true)
    &&& e.has_discrete_amd == any_amd_with(e.gpus, false)
}

/// Whether two examinations agree on the platform.
pub open spec fn same_platform(a: ExaminationView, b: ExaminationView) -> bool {
    &&& a.os_family == b.os_family
    &&& a.is_wsl == b.is_wsl
    &&& a.wsl == b.wsl
}

/// Whether two examinations agree on the GPUs.
pub open spec fn same_gpus(a: ExaminationView, b: ExaminationView) -> bool {
    &&& a.gpus == b.gpus
    &&& a.has_amd_gpu == b.has_amd_gpu
    &&& a.has_apu == b.has_apu
    &&& a.has_discrete_amd == b.has_discrete_amd
    &&& a.has_nvidia_gpu == b.has_nvidia_gpu
}

/// Whether two examinations agree on the bare-metal driver: its modules, the
/// device nodes, the user's groups, secure boot and the kernel log.
pub open spec fn same_driver(a: ExaminationView, b: ExaminationView) -> bool {
    &&& a.amdgpu_loaded == b.amdgpu_loaded
    &&& a.amdgpu_blacklisted_in == b.amdgpu_blacklisted_in
    &&& a.amdkfd_loaded == b.amdkfd_loaded
    &&& a.secure_boot == b.secure_boot
    &&& a.kfd == b.kfd
    &&& a.render_devices == b.render_devices
    &&& a.user_groups == b.user_groups
    &&& a.in_render_group == b.in_render_group
    &&& a.in_video_group == b.in_video_group
    &&& a.dmesg_amdgpu_tail == b.dmesg_amdgpu_tail
}

/// Whether two examinations agree on the framework.
pub open spec fn same_framework(a: ExaminationView, b: ExaminationView) -> bool {
    &&& a.framework == b.framework
    &&& a.framework_version == b.framework_version
    &&& a.framework_rocm_version == b.framework_rocm_version
    &&& a.framework_arch_list == b.framework_arch_list
    &&& a.framework_notes == b.framework_notes
    &&& a.framework_source == b.framework_source
}

/// Whether the size of the shared memory is known, or else a trace tells that
/// it could not be measured.
pub open spec fn shared_memory_told(e: ExaminationView) -> bool {
    ||| e.shm_total_bytes is Some && e.shm_available_bytes is Some
    ||| e.shm_total_bytes is None && e.shm_available_bytes is None && e.probe_failures.contains(
        "could not query "@ + SHM_PATH@ + "; shared-memory allowance unknown"@,
    )
}

// ---------------------------------------------------------------------------
// NVIDIA among the GPUs
// ---------------------------------------------------------------------------

proof fn lemma_other_push(gpus: Seq<GpuView>, gpu: GpuView)
    ensures
        any_other(gpus.push(gpu)) == (any_other(gpus) || !gpu.is_amd),
{
    let more = gpus.push(gpu);
    if any_other(gpus) {
        let i = choose|i: int| 0 <= i < gpus.len() && !(#[trigger] gpus[i]).is_amd;
        assert(more[i] == gpus[i]);
    }
    if any_other(more) {
        let i = choose|i: int| 0 <= i < more.len() && !(#[trigger] more[i]).is_amd;
        if i < gpus.len() {
            assert(gpus[i] == more[i]);
        }
    }
    assert(more[gpus.len() as int] == gpu);
}

proof fn lemma_bus_other(lines: Seq<Seq<char>>)
    ensures
        any_other(lspci_gpus(lines)) == lists_nvidia(lines),
    decreases lines.len(),
{
    if lines.len() > 0 {
        let before = lines.drop_last();
        lemma_bus_other(before);
        match lspci_gpu(lines.last()) {
            Some(gpu) => {
                lemma_other_push(lspci_gpus(before), gpu);
            },
            None => {},
        }
        let last = lines.len() - 1;
        let hit = is_controller(lines[last]) && names_nvidia(lines[last]);
        if lists_nvidia(before) {
            let i = choose|i: int|
                0 <= i < before.len() && is_controller(#[trigger] before[i]) && names_nvidia(
                    before[i],
                );
            assert(lines[i] == before[i]);
        }
        if lists_nvidia(lines) {
            let i = choose|i: int|
                0 <= i < lines.len() && is_controller(#[trigger] lines[i]) && names_nvidia(
                    lines[i],
                );
            if i < last {
                assert(before[i] == lines[i]);
            }
        }
        assert(lists_nvidia(lines) == (lists_nvidia(before) || hit));
    }
}

proof fn lemma_agents_other(gpus: Seq<GpuView>, agents: Seq<AgentView>)
    ensures
        any_other(agents_applied(gpus, agents)) == any_other(gpus),
{
    let after = agents_applied(gpus, agents);
    if any_other(gpus) {
        let i = choose|i: int| 0 <= i < gpus.len() && !(#[trigger] gpus[i]).is_amd;
        assert(after[i] == matched(gpus, agents, i));
    }
    if any_other(after) {
        let i = choose|i: int| 0 <= i < after.len() && !(#[trigger] after[i]).is_amd;
        if i < gpus.len() {
            assert(after[i] == matched(gpus, agents, i));
            assert(!gpus[i].is_amd);
        } else {
            assert(after[i] == unmatched(agents, amd_count(gpus))[i - gpus.len()]);
        }
    }
}

/// On Linux the NVIDIA flag says what the list of GPUs says.
proof fn lemma_linux_other(h: Host, e: ExaminationView)
    requires
        e.gpus.len() == 0,
        !e.has_nvidia_gpu,
    ensures
        linux_gpus_probed(h, e) matches Ok(after) ==> after.has_nvidia_gpu == any_other(after.gpus),
{
    lemma_cpu_linux_probed(h, e);
    match cpu_linux_probed(h, e) {
        Ok(e1) => match lspci_probed(h, e1) {
            Ok(e2) => {
                assert(e1.gpus =~= Seq::empty());
                match output_answer(
                    h,
                    plain_command("lspci"@, seq!["-nn"@, "-D"@], MEDIUM),
                ) {
                    Ok(out) => {
                        lemma_bus_other(lines_of(out.stdout));
                        assert(e1.gpus + lspci_gpus(lines_of(out.stdout)) =~= lspci_gpus(
                            lines_of(out.stdout),
                        ));
                    },
                    Err(_) => {},
                }
                assert(e2.has_nvidia_gpu == any_other(e2.gpus));
                lemma_rocminfo_probed(h, e2);
                match rocminfo_probed(h, e2) {
                    Ok(e3) => {
                        match output_answer(h, plain_command("rocminfo"@, Seq::empty(), 15)) {
                            Ok(out) => {
                                lemma_agents_other(
                                    e2.gpus,
                                    crate::rocminfo::gpu_agents(out.stdout),
                                );
                            },
                            Err(_) => {},
                        }
                        assert(e3.has_nvidia_gpu == any_other(e3.gpus));
                        lemma_topology_probed(h, e3);
                        match topology_probed(h, e3) {
                            Ok(e4) => {
                                match crate::ask::optional_text_answer(
                                    h,
                                    QuestionView::SysfsGfxTarget,
                                ) {
                                    Ok(Some(gfx)) => {
                                        lemma_other_push(e3.gpus, topology_gpu(gfx));
                                    },
                                    _ => {},
                                }
                                assert(e4.has_nvidia_gpu == any_other(e4.gpus));
                            },
                            Err(_) => {},
                        }
                    },
                    Err(_) => {},
                }
            },
            Err(_) => {},
        },
        Err(_) => {},
    }
}

proof fn lemma_inventory_other(e: ExaminationView, lines: Seq<Seq<char>>)
    requires
        e.has_nvidia_gpu == any_other(e.gpus),
    ensures
        ({
            let after = inventory_recorded(e, lines);
            after.has_nvidia_gpu == any_other(after.gpus)
        }),
    decreases lines.len(),
{
    if lines.len() > 0 {
        lemma_inventory_other(e, lines.drop_last());
        match inventory_gpu(lines.last()) {
            Some(gpu) => {
                lemma_other_push(inventory_recorded(e, lines.drop_last()).gpus, gpu);
            },
            None => {},
        }
    }
}

proof fn lemma_target_other(e: ExaminationView, gfx: Seq<char>)
    ensures
        any_other(target_recorded(e, gfx).gpus) == any_other(e.gpus),
{
    let after = target_recorded(e, gfx).gpus;
    lemma_untargeted(e.gpus, 0);
    assert forall|i: int| 0 <= i < after.len() implies (#[trigger] after[i]).is_amd
        == e.gpus[i].is_amd by {}
    if any_other(e.gpus) {
        let i = choose|i: int| 0 <= i < e.gpus.len() && !(#[trigger] e.gpus[i]).is_amd;
        assert(!after[i].is_amd);
    }
}

/// The position found is one of the list.
proof fn lemma_untargeted(gpus: Seq<GpuView>, from: int)
    ensures
        crate::windows::untargeted_from(gpus, from) matches Some(i) ==> from <= i < gpus.len()
            && gpus[i].is_amd && gpus[i].gfx_target.len() == 0,
    decreases gpus.len() - from,
{
    if 0 <= from < gpus.len() {
        lemma_untargeted(gpus, from + 1);
    }
}

proof fn lemma_hipinfo_lines_other(h: Host, e: ExaminationView, lines: Seq<Seq<char>>)
    ensures
        hipinfo_lines_probed(h, e, lines) matches Ok(after) ==> any_other(after.gpus) == any_other(
            e.gpus,
        ),
    decreases lines.len(),
{
    if lines.len() > 0 {
        lemma_hipinfo_lines_other(h, e, lines.skip(1));
        match after_prefix(trimmed(lines[0]), "gcnArchName:"@) {
            Some(rest) => match crate::ask::optional_text_answer(
                h,
                QuestionView::FirstGfxToken(rest),
            ) {
                Ok(Some(gfx)) => {
                    lemma_target_other(e, gfx);
                    lemma_hipinfo_lines_other(h, target_recorded(e, gfx), lines.skip(1));
                },
                _ => {},
            },
            None => {},
        }
    }
}

proof fn lemma_sdk_other(h: Host, e: ExaminationView)
    ensures
        hip_sdk_probed(h, e) matches Ok(after) ==> any_other(after.gpus) == any_other(e.gpus),
{
    match sdk_root(h) {
        Ok(root) => match sdk_version(h, root) {
            Ok(version) => match crate::ask::optional_text_answer(
                h,
                hipinfo_question(root),
            ) {
                Ok(Some(program)) => match output_answer(
                    h,
                    plain_command(program, Seq::empty(), 15),
                ) {
                    Ok(out) => {
                        let found = ExaminationView {
                            hip_sdk_path: root,
                            hip_sdk_version: version,
                            ..e
                        };
                        lemma_hipinfo_lines_other(
                            h,
                            ExaminationView {
                                hipinfo_present: true,
                                hipinfo_status: "ok"@,
                                ..found
                            },
                            lines_of(out.stdout),
                        );
                    },
                    Err(_) => {},
                },
                _ => {},
            },
            Err(_) => {},
        },
        Err(_) => {},
    }
}

// ---------------------------------------------------------------------------
// Stage by stage
// ---------------------------------------------------------------------------

proof fn lemma_linux_gpus(h: Host, e: ExaminationView)
    ensures
        linux_gpus_probed(h, e) matches Ok(after) ==> same_platform(e, after) && same_framework(
            e,
            after,
        ) && categories_agree(after),
{
    lemma_cpu_linux_probed(h, e);
    match cpu_linux_probed(h, e) {
        Ok(e1) => {
            lemma_lspci_probed(h, e1);
            match lspci_probed(h, e1) {
                Ok(e2) => {
                    lemma_rocminfo_probed(h, e2);
                    match rocminfo_probed(h, e2) {
                        Ok(e3) => {
                            lemma_topology_probed(h, e3);
                        },
                        Err(_) => {},
                    }
                },
                Err(_) => {},
            }
        },
        Err(_) => {},
    }
}

proof fn lemma_linux_driver(h: Host, e: ExaminationView)
    ensures
        linux_driver_probed(h, e) matches Ok(after) ==> same_platform(e, after) && same_framework(
            e,
            after,
        ) && same_gpus(e, after),
{
    lemma_modules_probed(h, e);
    match modules_probed(h, e) {
        Ok(e1) => {
            lemma_user_probed(h, e1);
            match user_probed(h, e1) {
                Ok(e2) => {
                    lemma_devices_probed(h, e2);
                    match devices_probed(h, e2) {
                        Ok(e3) => {
                            lemma_secure_boot_probed(h, e3);
                        },
                        Err(_) => {},
                    }
                },
                Err(_) => {},
            }
        },
        Err(_) => {},
    }
}

proof fn lemma_shared_memory(h: Host, e: ExaminationView)
    requires
        e.shm_total_bytes is None,
        e.shm_available_bytes is None,
    ensures
        shared_memory_probed(h, e, SHM_PATH@) matches Ok(after) ==> shared_memory_told(after),
{
    match filesystem_answer(h, QuestionView::Filesystem(SHM_PATH@)) {
        Ok(stats) => {
            let trace = "could not query "@ + SHM_PATH@ + "; shared-memory allowance unknown"@;
            let pushed = e.probe_failures.push(trace);
            assert(pushed[e.probe_failures.len() as int] == trace);
            assert(pushed.contains(trace));
        },
        Err(_) => {},
    }
}

proof fn lemma_linux_surroundings(h: Host, e: ExaminationView)
    ensures
        linux_surroundings_probed(h, e) matches Ok(after) ==> same_platform(e, after)
            && same_framework(e, after) && same_gpus(e, after) && (e.shm_total_bytes is None
            && e.shm_available_bytes is None ==> shared_memory_told(after)),
{
    lemma_rocm_install_probed(h, e);
    match rocm_install_probed(h, e) {
        Ok(e1) => {
            lemma_env_probed(h, e1);
            match env_probed(h, e1) {
                Ok(e2) => {
                    lemma_container_probed(h, e2);
                    match container_probed(h, e2) {
                        Ok(e3) => {
                            lemma_shared_memory_probed(h, e3, SHM_PATH@);
                            if e.shm_total_bytes is None && e.shm_available_bytes is None {
                                lemma_shared_memory(h, e3);
                            }
                            match shared_memory_probed(h, e3, SHM_PATH@) {
                                Ok(e4) => {
                                    lemma_log_probed(h, e4);
                                },
                                Err(_) => {},
                            }
                        },
                        Err(_) => {},
                    }
                },
                Err(_) => {},
            }
        },
        Err(_) => {},
    }
}

proof fn lemma_driver_keeps_shm(h: Host, e: ExaminationView)
    ensures
        linux_driver_probed(h, e) matches Ok(after) ==> after.shm_total_bytes == e.shm_total_bytes
            && after.shm_available_bytes == e.shm_available_bytes,
{
    lemma_modules_probed(h, e);
    match modules_probed(h, e) {
        Ok(e1) => {
            lemma_user_probed(h, e1);
            match user_probed(h, e1) {
                Ok(e2) => {
                    lemma_devices_probed(h, e2);
                    match devices_probed(h, e2) {
                        Ok(e3) => {
                            lemma_secure_boot_probed(h, e3);
                        },
                        Err(_) => {},
                    }
                },
                Err(_) => {},
            }
        },
        Err(_) => {},
    }
}

proof fn lemma_gpus_keep_shm(h: Host, e: ExaminationView)
    ensures
        linux_gpus_probed(h, e) matches Ok(after) ==> after.shm_total_bytes == e.shm_total_bytes
            && after.shm_available_bytes == e.shm_available_bytes,
{
    lemma_cpu_linux_probed(h, e);
    match cpu_linux_probed(h, e) {
        Ok(e1) => {
            lemma_lspci_probed(h, e1);
            match lspci_probed(h, e1) {
                Ok(e2) => {
                    lemma_rocminfo_probed(h, e2);
                    match rocminfo_probed(h, e2) {
                        Ok(e3) => {
                            lemma_topology_probed(h, e3);
                        },
                        Err(_) => {},
                    }
                },
                Err(_) => {},
            }
        },
        Err(_) => {},
    }
}

/// What the probes of a platform make of an examination that knows the
/// operating system and nothing else. `before` is what the framework probe was
/// given, and `after` what it made of it.
pub open spec fn finished(
    h: Host,
    start: ExaminationView,
    framework: FrameworkProbe,
    interpreter: Option<FrameworkInterpreterView>,
    end: ExaminationView,
) -> bool {
    exists|before: ExaminationView, after: ExaminationView|
        #![trigger same_framework(start, before), same_framework(after, end)]
        {
            &&& same_framework(start, before)
            &&& framework_probed(h, before, framework, interpreter) == Ok::<
                ExaminationView,
                QuestionView,
            >(after)
            &&& same_framework(after, end)
        }
}

/// What is known before the probes of a platform run.
pub open spec fn only_platform_known(e: ExaminationView) -> bool {
    &&& e.wsl is None
    &&& same_gpus(e, unexamined())
    &&& same_driver(e, unexamined())
    &&& same_framework(e, unexamined())
    &&& e.shm_total_bytes is None
    &&& e.shm_available_bytes is None
}

proof fn lemma_linux_host(
    h: Host,
    e: ExaminationView,
    framework: FrameworkProbe,
    interpreter: Option<FrameworkInterpreterView>,
)
    requires
        only_platform_known(e),
    ensures
        linux_host_probed(h, e, framework, interpreter) matches Ok(end) ==> {
            &&& same_platform(e, end)
            &&& categories_agree(end)
            &&& end.has_nvidia_gpu == any_other(end.gpus)
            &&& shared_memory_told(end)
            &&& finished(h, e, framework, interpreter, end)
        },
{
    lemma_linux_gpus(h, e);
    lemma_linux_other(h, e);
    lemma_gpus_keep_shm(h, e);
    match linux_gpus_probed(h, e) {
        Ok(e1) => {
            lemma_linux_driver(h, e1);
            lemma_driver_keeps_shm(h, e1);
            match linux_driver_probed(h, e1) {
                Ok(e2) => {
                    lemma_linux_surroundings(h, e2);
                    match linux_surroundings_probed(h, e2) {
                        Ok(e3) => {
                            lemma_framework_probed(h, e3, framework, interpreter);
                            match framework_probed(h, e3, framework, interpreter) {
                                Ok(end) => {
                                    assert(same_framework(e, e3));
                                    assert(same_framework(end, end));
                                },
                                Err(_) => {},
                            }
                        },
                        Err(_) => {},
                    }
                },
                Err(_) => {},
            }
        },
        Err(_) => {},
    }
}

proof fn lemma_windows_inventory(h: Host, e: ExaminationView)
    requires
        e.gpus.len() == 0,
        !e.has_nvidia_gpu,
    ensures
        windows_inventory_probed(h, e) matches Ok(after) ==> {
            &&& same_platform(e, after)
            &&& same_framework(e, after)
            &&& categories_agree(after)
            &&& after.has_nvidia_gpu == any_other(after.gpus)
        },
{
    lemma_cpu_windows_probed(h, e);
    match cpu_windows_probed(h, e) {
        Ok(e1) => {
            lemma_windows_gpus_probed(h, e1);
            match windows_gpus_probed(h, e1) {
                Ok(e2) => {
                    assert(e1.has_nvidia_gpu == any_other(e1.gpus));
                    match output_answer(
                        h,
                        plain_command("powershell"@, powershell_args(WIN_GPU_SCRIPT@), MEDIUM),
                    ) {
                        Ok(out) => {
                            lemma_inventory_other(e1, lines_of(out.stdout));
                        },
                        Err(_) => {},
                    }
                    assert(e2.has_nvidia_gpu == any_other(e2.gpus));
                    lemma_hip_sdk_probed(h, e2);
                    lemma_sdk_other(h, e2);
                    match hip_sdk_probed(h, e2) {
                        Ok(e3) => {
                            lemma_adrenalin_probed(h, e3);
                            match adrenalin_probed(h, e3) {
                                Ok(e4) => {
                                    lemma_msvc_probed(h, e4);
                                },
                                Err(_) => {},
                            }
                        },
                        Err(_) => {},
                    }
                },
                Err(_) => {},
            }
        },
        Err(_) => {},
    }
}

proof fn lemma_windows_host(
    h: Host,
    e: ExaminationView,
    framework: FrameworkProbe,
    interpreter: Option<FrameworkInterpreterView>,
)
    requires
        only_platform_known(e),
    ensures
        windows_host_probed(h, e, framework, interpreter) matches Ok(end) ==> {
            &&& same_platform(e, end)
            &&& categories_agree(end)
            &&& end.has_nvidia_gpu == any_other(end.gpus)
            &&& finished(h, e, framework, interpreter, end)
        },
{
    lemma_windows_inventory(h, e);
    match windows_inventory_probed(h, e) {
        Ok(e1) => {
            lemma_env_probed(h, e1);
            match env_probed(h, e1) {
                Ok(e2) => {
                    lemma_framework_probed(h, e2, framework, interpreter);
                    match framework_probed(h, e2, framework, interpreter) {
                        Ok(end) => {
                            assert(same_framework(e, e2));
                            assert(same_framework(end, end));
                        },
                        Err(_) => {},
                    }
                },
                Err(_) => {},
            }
        },
        Err(_) => {},
    }
}

/// What a WSL guest is known by.
pub open spec fn guest_told(e: ExaminationView) -> bool {
    match e.wsl {
        Some(wsl) => {
            &&& wsl.locally_probed
            &&& wsl.version == 1 || wsl.version == 2
            &&& wsl.rocm_sees_gpu is Some <==> wsl.rocminfo
            &&& wsl.host_reachable <==> wsl.host_driver_version is Some
            &&& e.rocminfo_present == wsl.rocminfo
            &&& e.rocminfo_status == wsl_rocminfo_status(wsl.rocminfo, wsl.rocm_sees_gpu)
        },
        None => false,
    }
}

proof fn lemma_wsl_guest(
    h: Host,
    e: ExaminationView,
    framework: FrameworkProbe,
    interpreter: Option<FrameworkInterpreterView>,
)
    requires
        only_platform_known(e),
    ensures
        wsl_guest_probed(h, e, framework, interpreter) matches Ok(end) ==> {
            &&& end.os_family == e.os_family
            &&& end.is_wsl == e.is_wsl
            &&& guest_told(end)
            &&& same_gpus(e, end)
            &&& same_driver(e, end)
            &&& shared_memory_told(end)
            &&& finished(h, e, framework, interpreter, end)
        },
{
    lemma_wsl_probed(h, e);
    match wsl_probed(h, e) {
        Ok(e1) => {
            assert(guest_told(e1));
            lemma_rocm_install_probed(h, e1);
            match rocm_install_probed(h, e1) {
                Ok(e2) => {
                    lemma_env_probed(h, e2);
                    match env_probed(h, e2) {
                        Ok(e3) => {
                            lemma_container_probed(h, e3);
                            match container_probed(h, e3) {
                                Ok(e4) => {
                                    lemma_framework_probed(h, e4, framework, interpreter);
                                    match framework_probed(h, e4, framework, interpreter) {
                                        Ok(e5) => {
                                            lemma_shared_memory_probed(h, e5, SHM_PATH@);
                                            lemma_shared_memory(h, e5);
                                            match shared_memory_probed(h, e5, SHM_PATH@) {
                                                Ok(end) => {
                                                    assert(same_framework(e, e4));
                                                    assert(same_framework(e5, end));
                                                },
                                                Err(_) => {},
                                            }
                                        },
                                        Err(_) => {},
                                    }
                                },
                                Err(_) => {},
                            }
                        },
                        Err(_) => {},
                    }
                },
                Err(_) => {},
            }
        },
        Err(_) => {},
    }
}

// ---------------------------------------------------------------------------
// The laws
// ---------------------------------------------------------------------------

/// What holds of a finished examination.
pub open spec fn well_examined(e: ExaminationView) -> bool {
    &&& e.status == status_of(e)
    &&& categories_agree(e)
    &&& e.has_nvidia_gpu == any_other(e.gpus)
    &&& e.is_wsl ==> guest_told(e) && same_gpus(e, unexamined()) && same_driver(e, unexamined())
    &&& !e.is_wsl ==> e.wsl is None
    &&& e.is_wsl || e.os_family == "linux"@ ==> shared_memory_told(e)
}

proof fn lemma_start(h: Host)
    ensures
        os_probed(h, unexamined()) matches Ok(e) ==> only_platform_known(e),
{
    lemma_os_probed(h, unexamined());
}

proof fn lemma_examined(
    h: Host,
    framework: FrameworkProbe,
    interpreter: Option<FrameworkInterpreterView>,
)
    ensures
        examined(h, framework, interpreter) matches Ok(e) ==> well_examined(e),
{
    lemma_start(h);
    match os_probed(h, unexamined()) {
        Ok(e) => {
            if e.is_wsl {
                lemma_wsl_guest(h, e, framework, interpreter);
            } else if e.os_family == "linux"@ {
                lemma_linux_host(h, e, framework, interpreter);
            } else if e.os_family == "windows"@ {
                lemma_windows_host(h, e, framework, interpreter);
            }
        },
        Err(_) => {},
    }
}

/// The status of a finished examination is the verdict on what it found, and
/// one of five words.
pub proof fn law_status_is_the_verdict(
    h: Host,
    framework: FrameworkProbe,
    interpreter: Option<FrameworkInterpreterView>,
)
    ensures
        examined(h, framework, interpreter) matches Ok(e) ==> {
            &&& e.status == status_of(e)
            &&& seq!["wsl"@, "unsupported-os"@, "no-amd-gpu"@, "degraded"@, "ok"@].contains(
                e.status,
            )
        },
{
    lemma_examined(h, framework, interpreter);
    match examined(h, framework, interpreter) {
        Ok(e) => {
            let words = seq!["wsl"@, "unsupported-os"@, "no-amd-gpu"@, "degraded"@, "ok"@];
            assert(words[0] == "wsl"@ && words[1] == "unsupported-os"@ && words[2]
                == "no-amd-gpu"@ && words[3] == "degraded"@ && words[4] == "ok"@);
        },
        Err(_) => {},
    }
}

/// Before anything was probed nothing is claimed: every list is empty, every
/// verdict is open, every flag is down, and what has a name for the unknown goes
/// by it.
pub proof fn law_nothing_is_claimed_unprobed()
    ensures
        ({
            let e = unexamined();
            let nothing = Seq::<char>::empty();
            let none = Seq::<Seq<char>>::empty();
            &&& e.os_family == "unknown"@ && e.cpu_vendor == "unknown"@ && e.secure_boot
                == "unknown"@ && e.framework == "unknown"@
            &&& e.os_version == nothing && e.distro_id == nothing && e.distro_version == nothing
                && e.kernel_release == nothing && e.kernel_cmdline == nothing && e.cpu_model
                == nothing && e.iommu_kernel_param == nothing && e.user_name == nothing
            &&& e.rocm_version == nothing && e.rocm_install_method == nothing && e.rocm_path
                == nothing && e.rocminfo_status == nothing && e.hip_sdk_path == nothing
                && e.hip_sdk_version == nothing && e.hipinfo_status == nothing
                && e.adrenalin_version == nothing && e.container_kind == nothing
            &&& e.framework_version == nothing && e.framework_rocm_version == nothing
                && e.framework_source == nothing
            &&& e.amdgpu_blacklisted_in == none && e.user_groups == none && e.rocm_repos_seen
                == none && e.framework_arch_list == none && e.framework_notes == none
                && e.dmesg_amdgpu_tail == none && e.notes == none && e.probe_failures == none
            &&& e.gpus.len() == 0 && e.render_devices.len() == 0 && e.env == Map::<
                Seq<char>,
                Seq<char>,
            >::empty()
            &&& !e.is_wsl && !e.has_amd_gpu && !e.has_nvidia_gpu && !e.has_apu
                && !e.has_discrete_amd && !e.rocminfo_present && !e.hipinfo_present
                && !e.in_container
            &&& e.wsl is None && e.kfd is None && e.amdgpu_loaded is None && e.amdkfd_loaded is None
                && e.in_render_group is None && e.in_video_group is None
            &&& e.hip_libs_on_ld_path is None && e.msvc_redist_present is None && e.shm_total_bytes
                is None && e.shm_available_bytes is None
        }),
{
}

/// A WSL guest is reported as one before anything else. On a system that is not
/// supported nothing more is said; without an AMD GPU that is what is said; and
/// only where no probe failed all is well.
pub proof fn law_status_is_told(
    h: Host,
    framework: FrameworkProbe,
    interpreter: Option<FrameworkInterpreterView>,
)
    ensures
        examined(h, framework, interpreter) matches Ok(e) ==> {
            let supported = e.os_family == "linux"@ || e.os_family == "windows"@;
            let amd = exists|i: int| 0 <= i < e.gpus.len() && (#[trigger] e.gpus[i]).is_amd;
            &&& e.is_wsl ==> e.status == "wsl"@
            &&& !e.is_wsl && !supported ==> e.status == "unsupported-os"@
            &&& !e.is_wsl && supported && !amd ==> e.status == "no-amd-gpu"@
            &&& !e.is_wsl && supported && amd && e.probe_failures.len() > 0 ==> e.status
                == "degraded"@
            &&& !e.is_wsl && supported && amd && e.probe_failures.len() == 0 ==> e.status == "ok"@
        },
{
    lemma_examined(h, framework, interpreter);
}

/// The categories of a finished examination say what its list of GPUs says.
pub proof fn law_categories_agree(
    h: Host,
    framework: FrameworkProbe,
    interpreter: Option<FrameworkInterpreterView>,
)
    ensures
        examined(h, framework, interpreter) matches Ok(e) ==> {
            &&& e.has_amd_gpu == any_amd(e.gpus)
            &&& e.has_apu == any_amd_with(e.gpus, true)
            &&& e.has_discrete_amd == any_amd_with(e.gpus, false)
            &&& e.has_nvidia_gpu == any_other(e.gpus)
        },
{
    lemma_examined(h, framework, interpreter);
}

/// A WSL guest is reported as such, and every field of the bare-metal driver is
/// left at its default: the probes that fill them are skipped.
pub proof fn law_wsl_skips_the_driver(
    h: Host,
    framework: FrameworkProbe,
    interpreter: Option<FrameworkInterpreterView>,
)
    ensures
        examined(h, framework, interpreter) matches Ok(e) ==> e.is_wsl ==> {
            &&& e.status == "wsl"@
            &&& same_driver(e, unexamined())
            &&& same_gpus(e, unexamined())
        },
{
    lemma_examined(h, framework, interpreter);
}

/// The WSL facts are there exactly where the host is a WSL guest. Whether ROCm
/// sees a GPU is known exactly where `rocminfo` could be asked, and the shared
/// fields say of `rocminfo` what the facts say.
pub proof fn law_wsl_facts_are_told(
    h: Host,
    framework: FrameworkProbe,
    interpreter: Option<FrameworkInterpreterView>,
)
    ensures
        examined(h, framework, interpreter) matches Ok(e) ==> {
            &&& e.wsl is Some <==> e.is_wsl
            &&& e.is_wsl ==> guest_told(e) && e.rocminfo_status.len() > 0
        },
{
    lemma_examined(h, framework, interpreter);
    reveal_strlit("missing");
    reveal_strlit("ok");
    reveal_strlit("no-agents");
    reveal_strlit("unknown");
}

/// Shared memory that could not be measured leaves a trace, and no Linux host
/// with an AMD GPU is then reported as healthy.
pub proof fn law_unmeasured_memory_degrades(
    h: Host,
    framework: FrameworkProbe,
    interpreter: Option<FrameworkInterpreterView>,
)
    ensures
        examined(h, framework, interpreter) matches Ok(e) ==> {
            &&& (e.is_wsl || e.os_family == "linux"@) && e.shm_total_bytes is None
                ==> e.probe_failures.contains(
                "could not query "@ + SHM_PATH@ + "; shared-memory allowance unknown"@,
            )
            &&& e.os_family == "linux"@ && !e.is_wsl && e.has_amd_gpu && e.shm_total_bytes is None
                ==> e.status == "degraded"@
        },
{
    lemma_examined(h, framework, interpreter);
}

/// The size of the shared memory is either known in total and in what is
/// available, or not at all.
pub proof fn law_memory_is_measured_whole(
    h: Host,
    framework: FrameworkProbe,
    interpreter: Option<FrameworkInterpreterView>,
)
    ensures
        examined(h, framework, interpreter) matches Ok(e) ==> e.is_wsl || e.os_family == "linux"@
            ==> (e.shm_total_bytes is Some <==> e.shm_available_bytes is Some),
{
    lemma_examined(h, framework, interpreter);
}

/// On a platform that is not supported nothing is probed: a note says so, and
/// so does the status.
pub proof fn law_unsupported_platform_is_told(
    h: Host,
    framework: FrameworkProbe,
    interpreter: Option<FrameworkInterpreterView>,
)
    ensures
        examined(h, framework, interpreter) matches Ok(e) ==> !e.is_wsl && e.os_family != "linux"@
            && e.os_family != "windows"@ ==> {
            &&& e.status == "unsupported-os"@
            &&& e.notes == seq![
                "rocm examine supports Linux and Windows; got "@ + e.os_family
                    + ". This skill cannot help on this platform."@,
            ]
            &&& e.probe_failures == Seq::<Seq<char>>::empty()
            &&& same_framework(e, unexamined())
        },
{
    lemma_start(h);
    lemma_os_probed(h, unexamined());
    match os_probed(h, unexamined()) {
        Ok(e) => {
            if e.is_wsl {
                lemma_wsl_guest(h, e, framework, interpreter);
            } else if e.os_family == "linux"@ {
                lemma_linux_host(h, e, framework, interpreter);
            } else if e.os_family == "windows"@ {
                lemma_windows_host(h, e, framework, interpreter);
            } else {
                assert(Seq::<Seq<char>>::empty().push(
                    "rocm examine supports Linux and Windows; got "@ + e.os_family
                        + ". This skill cannot help on this platform."@,
                ) =~= seq![
                    "rocm examine supports Linux and Windows; got "@ + e.os_family
                        + ". This skill cannot help on this platform."@,
                ]);
            }
        },
        Err(_) => {},
    }
}

/// What the framework fields of a finished examination come from: the framework
/// probe, started on a blank examination.
proof fn lemma_framework_origin(
    h: Host,
    framework: FrameworkProbe,
    interpreter: Option<FrameworkInterpreterView>,
)
    ensures
        examined(h, framework, interpreter) matches Ok(e) ==> e.is_wsl || e.os_family == "linux"@
            || e.os_family == "windows"@ ==> finished(h, unexamined(), framework, interpreter, e),
{
    lemma_start(h);
    match os_probed(h, unexamined()) {
        Ok(start) => match platform_probed(h, start, framework, interpreter) {
            Ok(end) => {
                if start.is_wsl {
                    lemma_wsl_guest(h, start, framework, interpreter);
                } else if start.os_family == "linux"@ {
                    lemma_linux_host(h, start, framework, interpreter);
                } else if start.os_family == "windows"@ {
                    lemma_windows_host(h, start, framework, interpreter);
                }
                if start.is_wsl || start.os_family == "linux"@ || start.os_family == "windows"@ {
                    let (before, after) = choose|before: ExaminationView, after: ExaminationView|
                        #![trigger same_framework(start, before), same_framework(after, end)]
                        {
                            &&& same_framework(start, before)
                            &&& framework_probed(h, before, framework, interpreter) == Ok::<
                                ExaminationView,
                                QuestionView,
                            >(after)
                            &&& same_framework(after, end)
                        };
                    assert(same_framework(unexamined(), before));
                    assert(same_framework(after, with_status(end)));
                }
            },
            Err(_) => {},
        },
        Err(_) => {},
    }
}

/// An examination that was asked to skip the frameworks says so, and neither
/// names an interpreter nor notes anything on a framework.
pub proof fn law_skipping_is_told(h: Host, interpreter: Option<FrameworkInterpreterView>)
    ensures
        examined(h, FrameworkProbe::Skip, interpreter) matches Ok(e) ==> e.is_wsl || e.os_family
            == "linux"@ || e.os_family == "windows"@ ==> {
            &&& e.framework == "skipped"@
            &&& e.framework_source == Seq::<char>::empty()
            &&& e.framework_version == Seq::<char>::empty()
            &&& e.framework_notes == Seq::<Seq<char>>::empty()
        },
{
    lemma_framework_origin(h, FrameworkProbe::Skip, interpreter);
}

/// Whether the source of what is said of a framework is told truthfully: torch
/// was asked in the managed runtime where there is one and on `PATH` where there
/// is none, and llama.cpp on `PATH`.
pub open spec fn provenance_told(
    e: ExaminationView,
    interpreter: Option<FrameworkInterpreterView>,
) -> bool {
    &&& seq![Seq::<char>::empty(), "path"@, "managed-runtime"@].contains(e.framework_source)
    &&& e.framework == "pytorch"@ && interpreter is Some ==> e.framework_source
        == "managed-runtime"@
    &&& e.framework == "pytorch"@ && interpreter is None ==> e.framework_source == "path"@
    &&& e.framework == "llama-cpp"@ ==> e.framework_source == "path"@
    &&& interpreter is None ==> e.framework_source != "managed-runtime"@
}

/// Every finished examination tells truthfully which interpreter answered for
/// the framework.
pub proof fn law_provenance_is_told(
    h: Host,
    framework: FrameworkProbe,
    interpreter: Option<FrameworkInterpreterView>,
)
    ensures
        examined(h, framework, interpreter) matches Ok(e) ==> provenance_told(e, interpreter),
{
    crate::laws::framework::lemma_words();
    match examined(h, framework, interpreter) {
        Ok(e) => {
            let sources = seq![Seq::<char>::empty(), "path"@, "managed-runtime"@];
            assert(sources[0] == Seq::<char>::empty() && sources[1] == "path"@ && sources[2]
                == "managed-runtime"@);
            if e.is_wsl || e.os_family == "linux"@ || e.os_family == "windows"@ {
                lemma_framework_origin(h, framework, interpreter);
                let (before, after) = choose|before: ExaminationView, after: ExaminationView|
                    #![trigger same_framework(unexamined(), before), same_framework(after, e)]
                    {
                        &&& same_framework(unexamined(), before)
                        &&& framework_probed(h, before, framework, interpreter) == Ok::<
                            ExaminationView,
                            QuestionView,
                        >(after)
                        &&& same_framework(after, e)
                    };
                crate::laws::framework::law_source_is_told(h, before, framework, interpreter);
            } else {
                law_unsupported_platform_is_told(h, framework, interpreter);
            }
        },
        Err(_) => {},
    }
}

} // verus!
