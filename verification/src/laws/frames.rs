//! What each probe leaves alone.

use vstd::prelude::*;

use crate::ask::{
    install_answer, listing_answer, optional_text_answer, output_answer, plain_command, text_answer,
    MEDIUM,
};
use crate::devices::{
    blacklists_probed, device_stat, devices_probed, modprobe_dir_probed, module_list,
    modules_probed, modules_recorded, render_paths, render_probed, secure_boot_probed, user_probed,
    with_blacklist, with_render_device,
};
use crate::examination::{ExaminationView, FrameworkProbe};
use crate::framework::{
    framework_probed, library_env_probed, llama_probed, path_torch_probed, pytorch_probed,
    pytorch_recorded, report_recorded, runtime_noted, runtime_torch_probed, script_args,
    torch_report, FrameworkInterpreterView, TorchReportView, TORCH_SECS,
};
use crate::gpu::{lspci_probed, topology_probed};
use crate::host::{CommandOutputView, CommandView, DirEntryView, Host, QuestionView};
use crate::install::{
    install_markers, install_recorded, marker_recorded, markers_probed, method_probed,
    rocm_install_probed,
};
use crate::order::in_order;
use crate::platform::{
    cpu_lines_recorded, cpu_linux_probed, cpu_model_step, cpu_vendor_step, cpu_windows_probed,
    os_probed,
};
use crate::rocminfo::rocminfo_probed;
use crate::split::lines_of;
use crate::surroundings::{
    container_probed, env_probed, log_probed, shared_memory_probed, tracked_env_vars,
    variable_recorded, variables_probed,
};
use crate::text::{after_prefix, trimmed};
use crate::windows::{
    adrenalin_probed, hip_sdk_probed, hipinfo_lines_probed, hipinfo_probed, hipinfo_question,
    inventory_recorded, msvc_probed, powershell_args, sdk_root, sdk_version, target_recorded,
    windows_gpus_probed, WIN_GPU_SCRIPT,
};
use crate::wsl::wsl_probed;

verus! {

/// Whether nothing changed but what is known of the operating system.
pub open spec fn os_frame(before: ExaminationView, after: ExaminationView) -> bool {
    after == (ExaminationView {
        os_version: after.os_version,
        os_family: after.os_family,
        kernel_release: after.kernel_release,
        kernel_cmdline: after.kernel_cmdline,
        iommu_kernel_param: after.iommu_kernel_param,
        is_wsl: after.is_wsl,
        distro_id: after.distro_id,
        distro_version: after.distro_version,
        ..before
    })
}

/// Whether nothing changed but what is known of the processor, and the failures.
pub open spec fn cpu_frame(before: ExaminationView, after: ExaminationView) -> bool {
    after == (ExaminationView {
        cpu_vendor: after.cpu_vendor,
        cpu_model: after.cpu_model,
        probe_failures: after.probe_failures,
        ..before
    })
}

/// Whether nothing changed but the GPUs, whether NVIDIA's are among them, and the failures.
pub open spec fn bus_frame(before: ExaminationView, after: ExaminationView) -> bool {
    after == (ExaminationView {
        gpus: after.gpus,
        has_nvidia_gpu: after.has_nvidia_gpu,
        probe_failures: after.probe_failures,
        ..before
    })
}

/// Whether nothing changed but the GPUs and what became of `rocminfo`.
pub open spec fn rocminfo_frame(before: ExaminationView, after: ExaminationView) -> bool {
    after == (ExaminationView {
        gpus: after.gpus,
        rocminfo_present: after.rocminfo_present,
        rocminfo_status: after.rocminfo_status,
        ..before
    })
}

/// Whether nothing changed but the GPUs and the notes.
pub open spec fn topology_frame(before: ExaminationView, after: ExaminationView) -> bool {
    after == (ExaminationView {
        gpus: after.gpus,
        notes: after.notes,
        ..before
    })
}

/// Whether nothing changed but what is known of the kernel modules.
pub open spec fn modules_frame(before: ExaminationView, after: ExaminationView) -> bool {
    after == (ExaminationView {
        amdgpu_loaded: after.amdgpu_loaded,
        amdkfd_loaded: after.amdkfd_loaded,
        amdgpu_blacklisted_in: after.amdgpu_blacklisted_in,
        ..before
    })
}

/// Whether nothing changed but what is known of the user.
pub open spec fn user_frame(before: ExaminationView, after: ExaminationView) -> bool {
    after == (ExaminationView {
        user_name: after.user_name,
        user_groups: after.user_groups,
        in_render_group: after.in_render_group,
        in_video_group: after.in_video_group,
        ..before
    })
}

/// Whether nothing changed but the device nodes.
pub open spec fn devices_frame(before: ExaminationView, after: ExaminationView) -> bool {
    after == (ExaminationView {
        kfd: after.kfd,
        render_devices: after.render_devices,
        ..before
    })
}

/// Whether nothing changed but the state of secure boot.
pub open spec fn secure_boot_frame(before: ExaminationView, after: ExaminationView) -> bool {
    after == (ExaminationView {
        secure_boot: after.secure_boot,
        ..before
    })
}

/// Whether nothing changed but what is known of the ROCm install.
pub open spec fn install_frame(before: ExaminationView, after: ExaminationView) -> bool {
    after == (ExaminationView {
        rocm_path: after.rocm_path,
        rocm_version: after.rocm_version,
        rocm_install_method: after.rocm_install_method,
        rocm_repos_seen: after.rocm_repos_seen,
        ..before
    })
}

/// Whether nothing changed but the environment, the verdict on HIP libraries, and the notes.
pub open spec fn env_frame(before: ExaminationView, after: ExaminationView) -> bool {
    after == (ExaminationView {
        env: after.env,
        hip_libs_on_ld_path: after.hip_libs_on_ld_path,
        notes: after.notes,
        ..before
    })
}

/// Whether nothing changed but what is known of a container.
pub open spec fn container_frame(before: ExaminationView, after: ExaminationView) -> bool {
    after == (ExaminationView {
        in_container: after.in_container,
        container_kind: after.container_kind,
        ..before
    })
}

/// Whether nothing changed but the size of the shared memory, and the failures.
pub open spec fn shared_memory_frame(before: ExaminationView, after: ExaminationView) -> bool {
    after == (ExaminationView {
        shm_total_bytes: after.shm_total_bytes,
        shm_available_bytes: after.shm_available_bytes,
        probe_failures: after.probe_failures,
        ..before
    })
}

/// Whether nothing changed but the tail of the kernel log.
pub open spec fn log_frame(before: ExaminationView, after: ExaminationView) -> bool {
    after == (ExaminationView {
        dmesg_amdgpu_tail: after.dmesg_amdgpu_tail,
        ..before
    })
}

/// Whether nothing changed but what is known of the framework.
pub open spec fn framework_frame(before: ExaminationView, after: ExaminationView) -> bool {
    after == (ExaminationView {
        framework: after.framework,
        framework_version: after.framework_version,
        framework_rocm_version: after.framework_rocm_version,
        framework_arch_list: after.framework_arch_list,
        framework_notes: after.framework_notes,
        framework_source: after.framework_source,
        ..before
    })
}

/// Whether nothing changed but the GPUs and what is known of the HIP SDK.
pub open spec fn sdk_frame(before: ExaminationView, after: ExaminationView) -> bool {
    after == (ExaminationView {
        gpus: after.gpus,
        hip_sdk_path: after.hip_sdk_path,
        hip_sdk_version: after.hip_sdk_version,
        hipinfo_present: after.hipinfo_present,
        hipinfo_status: after.hipinfo_status,
        ..before
    })
}

/// Whether nothing changed but the driver version and the C runtime.
pub open spec fn libraries_frame(before: ExaminationView, after: ExaminationView) -> bool {
    after == (ExaminationView {
        adrenalin_version: after.adrenalin_version,
        msvc_redist_present: after.msvc_redist_present,
        ..before
    })
}

/// Whether nothing changed but the WSL facts, what became of `rocminfo`, and the notes.
pub open spec fn wsl_frame(before: ExaminationView, after: ExaminationView) -> bool {
    after == (ExaminationView {
        wsl: after.wsl,
        rocminfo_present: after.rocminfo_present,
        rocminfo_status: after.rocminfo_status,
        notes: after.notes,
        ..before
    })
}

/// [`os_frame`] holds of the probe.
pub proof fn lemma_os_probed(h: Host, e: ExaminationView)
    ensures
        os_probed(h, e) matches Ok(after) ==> os_frame(e, after),
{
}

proof fn lemma_cpu_lines(e: ExaminationView, lines: Seq<Seq<char>>)
    ensures
        cpu_frame(e, cpu_lines_recorded(e, lines)),
    decreases lines.len(),
{
    if lines.len() > 0 {
        lemma_cpu_lines(cpu_model_step(cpu_vendor_step(e, lines[0]), lines[0]), lines.skip(1));
    }
}

/// [`cpu_frame`] holds of the probe.
pub proof fn lemma_cpu_linux_probed(h: Host, e: ExaminationView)
    ensures
        cpu_linux_probed(h, e) matches Ok(after) ==> cpu_frame(e, after),
{
    match text_answer(h, QuestionView::ReadText("/proc/cpuinfo"@)) {
        Ok(text) => {
            lemma_cpu_lines(e, lines_of(text));
        },
        Err(_) => {},
    }
}

/// [`cpu_frame`] holds of the probe.
pub proof fn lemma_cpu_windows_probed(h: Host, e: ExaminationView)
    ensures
        cpu_windows_probed(h, e) matches Ok(after) ==> cpu_frame(e, after),
{
}

/// [`bus_frame`] holds of the probe.
pub proof fn lemma_lspci_probed(h: Host, e: ExaminationView)
    ensures
        lspci_probed(h, e) matches Ok(after) ==> bus_frame(e, after),
{
}

/// [`rocminfo_frame`] holds of the probe.
pub proof fn lemma_rocminfo_probed(h: Host, e: ExaminationView)
    ensures
        rocminfo_probed(h, e) matches Ok(after) ==> rocminfo_frame(e, after),
{
}

/// [`topology_frame`] holds of the probe.
pub proof fn lemma_topology_probed(h: Host, e: ExaminationView)
    ensures
        topology_probed(h, e) matches Ok(after) ==> topology_frame(e, after),
{
}

proof fn lemma_blacklists(h: Host, e: ExaminationView, entries: Seq<DirEntryView>)
    ensures
        blacklists_probed(h, e, entries) matches Ok(after) ==> modules_frame(e, after),
    decreases entries.len(),
{
    if entries.len() > 0 {
        lemma_blacklists(h, with_blacklist(e, entries[0].path), entries.skip(1));
        lemma_blacklists(h, e, entries.skip(1));
    }
}

proof fn lemma_modprobe_dir(h: Host, e: ExaminationView, dir: Seq<char>)
    ensures
        modprobe_dir_probed(h, e, dir) matches Ok(after) ==> modules_frame(e, after),
{
    match listing_answer(h, QuestionView::ListDir(dir)) {
        Ok(Some(entries)) => {
            lemma_blacklists(h, e, entries);
        },
        _ => {},
    }
}

/// [`modules_frame`] holds of the probe.
pub proof fn lemma_modules_probed(h: Host, e: ExaminationView)
    ensures
        modules_probed(h, e) matches Ok(after) ==> modules_frame(e, after),
{
    match module_list(h) {
        Ok(text) => {
            let first = modules_recorded(e, text);
            lemma_modprobe_dir(h, first, "/etc/modprobe.d"@);
            match modprobe_dir_probed(h, first, "/etc/modprobe.d"@) {
                Ok(second) => {
                    lemma_modprobe_dir(h, second, "/usr/lib/modprobe.d"@);
                    match modprobe_dir_probed(h, second, "/usr/lib/modprobe.d"@) {
                        Ok(third) => {
                            lemma_modprobe_dir(h, third, "/run/modprobe.d"@);
                        },
                        Err(_) => {},
                    }
                },
                Err(_) => {},
            }
        },
        Err(_) => {},
    }
}

/// [`user_frame`] holds of the probe.
pub proof fn lemma_user_probed(h: Host, e: ExaminationView)
    ensures
        user_probed(h, e) matches Ok(after) ==> user_frame(e, after),
{
}

proof fn lemma_render(h: Host, e: ExaminationView, paths: Seq<Seq<char>>)
    ensures
        render_probed(h, e, paths) matches Ok(after) ==> devices_frame(e, after),
    decreases paths.len(),
{
    if paths.len() > 0 {
        match device_stat(h, paths[0], e.user_name, e.user_groups) {
            Ok(device) => {
                lemma_render(h, with_render_device(e, device), paths.skip(1));
            },
            Err(_) => {},
        }
    }
}

/// [`devices_frame`] holds of the probe.
pub proof fn lemma_devices_probed(h: Host, e: ExaminationView)
    ensures
        devices_probed(h, e) matches Ok(after) ==> devices_frame(e, after),
{
    match device_stat(h, "/dev/kfd"@, e.user_name, e.user_groups) {
        Ok(kfd) => {
            let first = ExaminationView { kfd: Some(kfd), ..e };
            match listing_answer(h, QuestionView::ListDir("/dev/dri"@)) {
                Ok(Some(entries)) => {
                    lemma_render(h, first, in_order(render_paths(entries)));
                },
                _ => {},
            }
        },
        Err(_) => {},
    }
}

/// [`secure_boot_frame`] holds of the probe.
pub proof fn lemma_secure_boot_probed(h: Host, e: ExaminationView)
    ensures
        secure_boot_probed(h, e) matches Ok(after) ==> secure_boot_frame(e, after),
{
}

proof fn lemma_markers(h: Host, e: ExaminationView, markers: Seq<Seq<char>>)
    ensures
        markers_probed(h, e, markers) matches Ok(after) ==> install_frame(e, after),
    decreases markers.len(),
{
    if markers.len() > 0 {
        lemma_markers(h, marker_recorded(e, markers[0]), markers.skip(1));
        lemma_markers(h, e, markers.skip(1));
    }
}

proof fn lemma_method(h: Host, e: ExaminationView)
    ensures
        method_probed(h, e) matches Ok(after) ==> install_frame(e, after),
{
    lemma_markers(h, e, install_markers());
}

/// [`install_frame`] holds of the probe.
pub proof fn lemma_rocm_install_probed(h: Host, e: ExaminationView)
    ensures
        rocm_install_probed(h, e) matches Ok(after) ==> install_frame(e, after),
{
    match install_answer(h, QuestionView::ActiveRocmInstall) {
        Ok(install) => {
            lemma_method(h, install_recorded(e, install));
        },
        Err(_) => {},
    }
}

proof fn lemma_variables(h: Host, e: ExaminationView, keys: Seq<Seq<char>>)
    ensures
        variables_probed(h, e, keys) matches Ok(after) ==> env_frame(e, after),
    decreases keys.len(),
{
    if keys.len() > 0 {
        match optional_text_answer(h, QuestionView::EnvVar(keys[0])) {
            Ok(value) => {
                lemma_variables(h, variable_recorded(e, keys[0], value), keys.skip(1));
            },
            Err(_) => {},
        }
    }
}

/// [`env_frame`] holds of the probe.
pub proof fn lemma_env_probed(h: Host, e: ExaminationView)
    ensures
        env_probed(h, e) matches Ok(after) ==> env_frame(e, after),
{
    lemma_variables(h, e, tracked_env_vars());
}

/// [`container_frame`] holds of the probe.
pub proof fn lemma_container_probed(h: Host, e: ExaminationView)
    ensures
        container_probed(h, e) matches Ok(after) ==> container_frame(e, after),
{
}

/// [`shared_memory_frame`] holds of the probe.
pub proof fn lemma_shared_memory_probed(h: Host, e: ExaminationView, path: Seq<char>)
    ensures
        shared_memory_probed(h, e, path) matches Ok(after) ==> shared_memory_frame(e, after),
{
}

/// [`log_frame`] holds of the probe.
pub proof fn lemma_log_probed(h: Host, e: ExaminationView)
    ensures
        log_probed(h, e) matches Ok(after) ==> log_frame(e, after),
{
}

proof fn lemma_report(e: ExaminationView, report: TorchReportView)
    ensures
        framework_frame(e, report_recorded(e, report)),
{
}

proof fn lemma_recorded(e: ExaminationView, out: CommandOutputView)
    ensures
        framework_frame(e, pytorch_recorded(e, out)),
{
    match torch_report(trimmed(out.stdout)) {
        Some(report) => {
            lemma_report(e, report);
        },
        None => {},
    }
}

proof fn lemma_library_env(h: Host, e: ExaminationView, paths: Seq<Seq<char>>)
    ensures
        library_env_probed(h, e, paths) matches Ok(r) ==> framework_frame(e, r.0),
{
}

proof fn lemma_runtime_torch(h: Host, e: ExaminationView, interpreter: FrameworkInterpreterView)
    ensures
        runtime_torch_probed(h, e, interpreter) matches Ok(after) ==> framework_frame(e, after),
{
    let noted = runtime_noted(e, interpreter.python);
    lemma_library_env(h, noted, interpreter.library_paths);
    match library_env_probed(h, noted, interpreter.library_paths) {
        Ok((composed, envs)) => {
            let command = CommandView {
                program: interpreter.python,
                args: script_args(),
                envs,
                timeout_secs: TORCH_SECS,
            };
            match output_answer(h, command) {
                Ok(out) => {
                    lemma_recorded(composed, out);
                    assert(framework_frame(e, pytorch_recorded(composed, out)));
                },
                Err(_) => {},
            }
        },
        Err(_) => {},
    }
}

proof fn lemma_path_torch(h: Host, e: ExaminationView)
    ensures
        path_torch_probed(h, e) matches Ok(after) ==> framework_frame(e, after),
{
}

proof fn lemma_pytorch(h: Host, e: ExaminationView, interpreter: Option<FrameworkInterpreterView>)
    ensures
        pytorch_probed(h, e, interpreter) matches Ok(after) ==> framework_frame(e, after),
{
    match interpreter {
        Some(interpreter) => {
            lemma_runtime_torch(h, e, interpreter);
        },
        None => {
            lemma_path_torch(h, e);
        },
    }
}

proof fn lemma_llama(h: Host, e: ExaminationView)
    ensures
        llama_probed(h, e) matches Ok(after) ==> framework_frame(e, after),
{
}

/// [`framework_frame`] holds of the probe.
pub proof fn lemma_framework_probed(
    h: Host,
    e: ExaminationView,
    framework: FrameworkProbe,
    interpreter: Option<FrameworkInterpreterView>,
)
    ensures
        framework_probed(h, e, framework, interpreter) matches Ok(after) ==> framework_frame(e, after),
{
    lemma_pytorch(h, e, interpreter);
    lemma_llama(h, e);
    match pytorch_probed(h, e, interpreter) {
        Ok(asked) => {
            lemma_llama(h, asked);
        },
        Err(_) => {},
    }
}

proof fn lemma_inventory(e: ExaminationView, lines: Seq<Seq<char>>)
    ensures
        bus_frame(e, inventory_recorded(e, lines)),
    decreases lines.len(),
{
    if lines.len() > 0 {
        lemma_inventory(e, lines.drop_last());
    }
}

/// [`bus_frame`] holds of the probe.
pub proof fn lemma_windows_gpus_probed(h: Host, e: ExaminationView)
    ensures
        windows_gpus_probed(h, e) matches Ok(after) ==> bus_frame(e, after),
{
    match output_answer(
        h,
        plain_command(
            "powershell"@,
            powershell_args(WIN_GPU_SCRIPT@),
            MEDIUM,
        ),
    ) {
        Ok(out) => {
            lemma_inventory(e, lines_of(out.stdout));
        },
        Err(_) => {},
    }
}

proof fn lemma_hipinfo_lines(h: Host, e: ExaminationView, lines: Seq<Seq<char>>)
    ensures
        hipinfo_lines_probed(h, e, lines) matches Ok(after) ==> sdk_frame(e, after),
    decreases lines.len(),
{
    if lines.len() > 0 {
        lemma_hipinfo_lines(h, e, lines.skip(1));
        match after_prefix(trimmed(lines[0]), "gcnArchName:"@) {
            Some(rest) => match optional_text_answer(h, QuestionView::FirstGfxToken(rest)) {
                Ok(Some(gfx)) => {
                    lemma_hipinfo_lines(h, target_recorded(e, gfx), lines.skip(1));
                },
                _ => {},
            },
            None => {},
        }
    }
}

proof fn lemma_hipinfo(h: Host, e: ExaminationView, root: Seq<char>)
    ensures
        hipinfo_probed(h, e, root) matches Ok(after) ==> sdk_frame(e, after),
{
    match optional_text_answer(h, hipinfo_question(root)) {
        Ok(Some(program)) => match output_answer(
            h,
            plain_command(program, Seq::empty(), 15),
        ) {
            Ok(out) => {
                lemma_hipinfo_lines(
                    h,
                    ExaminationView { hipinfo_present: true, hipinfo_status: "ok"@, ..e },
                    lines_of(out.stdout),
                );
            },
            Err(_) => {},
        },
        _ => {},
    }
}

/// [`sdk_frame`] holds of the probe.
pub proof fn lemma_hip_sdk_probed(h: Host, e: ExaminationView)
    ensures
        hip_sdk_probed(h, e) matches Ok(after) ==> sdk_frame(e, after),
{
    match sdk_root(h) {
        Ok(root) => match sdk_version(h, root) {
            Ok(version) => {
                lemma_hipinfo(
                    h,
                    ExaminationView { hip_sdk_path: root, hip_sdk_version: version, ..e },
                    root,
                );
            },
            Err(_) => {},
        },
        Err(_) => {},
    }
}

/// [`libraries_frame`] holds of the probe.
pub proof fn lemma_adrenalin_probed(h: Host, e: ExaminationView)
    ensures
        adrenalin_probed(h, e) matches Ok(after) ==> libraries_frame(e, after),
{
}

/// [`libraries_frame`] holds of the probe.
pub proof fn lemma_msvc_probed(h: Host, e: ExaminationView)
    ensures
        msvc_probed(h, e) matches Ok(after) ==> libraries_frame(e, after),
{
}

/// [`wsl_frame`] holds of the probe.
pub proof fn lemma_wsl_probed(h: Host, e: ExaminationView)
    ensures
        wsl_probed(h, e) matches Ok(after) ==> wsl_frame(e, after),
{
}

} // verus!
