//! Every probe is heard: what a finished examination says is what each probe by
//! itself makes of the host's answers.

use vstd::prelude::*;
use vstd::string::*;

use crate::devices::{
    blacklists_probed, devices_probed, entry_blacklists, modprobe_dir_probed, module_list,
    modules_probed, modules_recorded, render_paths, render_probed, secure_boot_probed, user_probed,
    with_blacklist, with_render_device,
};
use crate::examination::{unexamined, ExaminationView, FrameworkProbe};
use crate::framework::{
    framework_probed, library_env_probed, llama_probed, pytorch_probed, pytorch_recorded,
    runtime_noted, FrameworkInterpreterView,
};
use crate::gpu::{lspci_probed, summarised, topology_probed};
use crate::host::{CommandOutputView, DirEntryView, Host, QuestionView};
use crate::install::{
    install_markers, install_recorded, marker_recorded, markers_probed, method_probed,
    method_settled, package_probed, repo_dir_probed, rocm_install_probed,
};
use crate::laws::examination::same_framework;
use crate::laws::frames::{
    lemma_adrenalin_probed, lemma_container_probed, lemma_cpu_linux_probed,
    lemma_cpu_windows_probed, lemma_devices_probed, lemma_env_probed, lemma_framework_probed,
    lemma_hip_sdk_probed, lemma_log_probed, lemma_lspci_probed, lemma_modules_probed,
    lemma_msvc_probed, lemma_os_probed, lemma_rocm_install_probed, lemma_rocminfo_probed,
    lemma_secure_boot_probed, lemma_shared_memory_probed, lemma_topology_probed, lemma_user_probed,
    lemma_windows_gpus_probed, lemma_wsl_probed,
};
use crate::order::in_order;
use crate::platform::{
    cpu_lines_recorded, cpu_linux_probed, cpu_model_step, cpu_vendor_step, cpu_windows_probed,
    os_probed,
};
use crate::probe::{examined, windows_inventory_probed};
use crate::rocminfo::rocminfo_probed;
use crate::split::lines_of;
use crate::surroundings::{
    container_probed, env_probed, hip_libs_probed, log_probed, shared_memory_probed,
    tracked_env_vars, variable_recorded, variables_probed,
};
use crate::windows::{
    adrenalin_probed, hip_sdk_probed, hipinfo_lines_probed, hipinfo_probed, inventory_recorded,
    msvc_probed, target_recorded, windows_gpus_probed,
};
use crate::wsl::wsl_probed;

verus! {

// ---------------------------------------------------------------------------
// What a probe makes of the answers does not depend on what it was not told
// ---------------------------------------------------------------------------

/// Whether two examinations agree on the processor.
pub open spec fn same_cpu(a: ExaminationView, b: ExaminationView) -> bool {
    a.cpu_vendor == b.cpu_vendor && a.cpu_model == b.cpu_model
}

/// Whether two examinations agree on the kernel modules.
pub open spec fn same_modules(a: ExaminationView, b: ExaminationView) -> bool {
    a.amdgpu_loaded == b.amdgpu_loaded && a.amdkfd_loaded == b.amdkfd_loaded
        && a.amdgpu_blacklisted_in == b.amdgpu_blacklisted_in
}

/// Whether two examinations agree on the user.
pub open spec fn same_user(a: ExaminationView, b: ExaminationView) -> bool {
    a.user_name == b.user_name && a.user_groups == b.user_groups && a.in_render_group
        == b.in_render_group && a.in_video_group == b.in_video_group
}

/// Whether two examinations agree on the device nodes.
pub open spec fn same_nodes(a: ExaminationView, b: ExaminationView) -> bool {
    a.kfd == b.kfd && a.render_devices == b.render_devices
}

/// Whether two examinations agree on the ROCm install.
pub open spec fn same_install(a: ExaminationView, b: ExaminationView) -> bool {
    a.rocm_path == b.rocm_path && a.rocm_version == b.rocm_version && a.rocm_install_method
        == b.rocm_install_method && a.rocm_repos_seen == b.rocm_repos_seen
}

/// Whether two examinations agree on the environment.
pub open spec fn same_env(a: ExaminationView, b: ExaminationView) -> bool {
    a.env == b.env && a.hip_libs_on_ld_path == b.hip_libs_on_ld_path
}

/// Whether two examinations agree on the container.
pub open spec fn same_container(a: ExaminationView, b: ExaminationView) -> bool {
    a.in_container == b.in_container && a.container_kind == b.container_kind
}

/// Whether two examinations agree on the shared memory.
pub open spec fn same_memory(a: ExaminationView, b: ExaminationView) -> bool {
    a.shm_total_bytes == b.shm_total_bytes && a.shm_available_bytes == b.shm_available_bytes
}

/// Whether two examinations agree on the HIP SDK.
pub open spec fn same_sdk(a: ExaminationView, b: ExaminationView) -> bool {
    a.hip_sdk_path == b.hip_sdk_path && a.hip_sdk_version == b.hip_sdk_version
        && a.hipinfo_present == b.hipinfo_present && a.hipinfo_status == b.hipinfo_status
}

/// Whether two examinations agree on the operating system.
pub open spec fn same_system(a: ExaminationView, b: ExaminationView) -> bool {
    &&& a.os_family == b.os_family
    &&& a.os_version == b.os_version
    &&& a.distro_id == b.distro_id
    &&& a.distro_version == b.distro_version
    &&& a.kernel_release == b.kernel_release
    &&& a.kernel_cmdline == b.kernel_cmdline
    &&& a.iommu_kernel_param == b.iommu_kernel_param
    &&& a.is_wsl == b.is_wsl
}

proof fn lemma_cpu_lines(e: ExaminationView, u: ExaminationView, lines: Seq<Seq<char>>)
    requires
        same_cpu(e, u),
    ensures
        same_cpu(cpu_lines_recorded(e, lines), cpu_lines_recorded(u, lines)),
    decreases lines.len(),
{
    if lines.len() > 0 {
        lemma_cpu_lines(
            cpu_model_step(cpu_vendor_step(e, lines[0]), lines[0]),
            cpu_model_step(cpu_vendor_step(u, lines[0]), lines[0]),
            lines.skip(1),
        );
    }
}

proof fn lemma_cpu_failures(e: ExaminationView, lines: Seq<Seq<char>>)
    ensures
        cpu_lines_recorded(e, lines).probe_failures == e.probe_failures,
    decreases lines.len(),
{
    if lines.len() > 0 {
        lemma_cpu_failures(cpu_model_step(cpu_vendor_step(e, lines[0]), lines[0]), lines.skip(1));
    }
}

proof fn lemma_blacklists(
    h: Host,
    e: ExaminationView,
    u: ExaminationView,
    entries: Seq<DirEntryView>,
)
    requires
        same_modules(e, u),
    ensures
        blacklists_probed(h, e, entries) matches Ok(a) ==> (blacklists_probed(h, u, entries)
            matches Ok(b) && same_modules(a, b)),
    decreases entries.len(),
{
    if entries.len() > 0 {
        match entry_blacklists(h, entries[0]) {
            Ok(true) => {
                lemma_blacklists(
                    h,
                    with_blacklist(e, entries[0].path),
                    with_blacklist(u, entries[0].path),
                    entries.skip(1),
                );
            },
            Ok(false) => {
                lemma_blacklists(h, e, u, entries.skip(1));
            },
            Err(_) => {},
        }
    }
}

proof fn lemma_modprobe_dir(h: Host, e: ExaminationView, u: ExaminationView, dir: Seq<char>)
    requires
        same_modules(e, u),
    ensures
        modprobe_dir_probed(h, e, dir) matches Ok(a) ==> (modprobe_dir_probed(h, u, dir) matches Ok(
            b,
        ) && same_modules(a, b)),
{
    match crate::ask::listing_answer(h, QuestionView::ListDir(dir)) {
        Ok(Some(entries)) => {
            lemma_blacklists(h, e, u, entries);
        },
        _ => {},
    }
}

proof fn lemma_modules(h: Host, e: ExaminationView, u: ExaminationView)
    requires
        same_modules(e, u),
    ensures
        modules_probed(h, e) matches Ok(a) ==> (modules_probed(h, u) matches Ok(b) && same_modules(
            a,
            b,
        )),
{
    if modules_probed(h, e) is Ok {
        let text = module_list(h)->Ok_0;
        let e1 = modules_recorded(e, text);
        let u1 = modules_recorded(u, text);
        lemma_modprobe_dir(h, e1, u1, "/etc/modprobe.d"@);
        let e2 = modprobe_dir_probed(h, e1, "/etc/modprobe.d"@)->Ok_0;
        let u2 = modprobe_dir_probed(h, u1, "/etc/modprobe.d"@)->Ok_0;
        lemma_modprobe_dir(h, e2, u2, "/usr/lib/modprobe.d"@);
        let e3 = modprobe_dir_probed(h, e2, "/usr/lib/modprobe.d"@)->Ok_0;
        let u3 = modprobe_dir_probed(h, u2, "/usr/lib/modprobe.d"@)->Ok_0;
        lemma_modprobe_dir(h, e3, u3, "/run/modprobe.d"@);
    }
}

proof fn lemma_render(h: Host, e: ExaminationView, u: ExaminationView, paths: Seq<Seq<char>>)
    requires
        same_nodes(e, u),
        e.user_name == u.user_name,
        e.user_groups == u.user_groups,
    ensures
        render_probed(h, e, paths) matches Ok(a) ==> (render_probed(h, u, paths) matches Ok(b)
            && same_nodes(a, b)),
    decreases paths.len(),
{
    if paths.len() > 0 {
        match crate::devices::device_stat(h, paths[0], e.user_name, e.user_groups) {
            Ok(device) => {
                lemma_render(
                    h,
                    with_render_device(e, device),
                    with_render_device(u, device),
                    paths.skip(1),
                );
            },
            Err(_) => {},
        }
    }
}

proof fn lemma_devices(h: Host, e: ExaminationView, u: ExaminationView)
    requires
        same_nodes(e, u),
        e.user_name == u.user_name,
        e.user_groups == u.user_groups,
    ensures
        devices_probed(h, e) matches Ok(a) ==> (devices_probed(h, u) matches Ok(b) && same_nodes(
            a,
            b,
        )),
{
    if devices_probed(h, e) is Ok {
        let kfd = crate::devices::device_stat(
            h,
            "/dev/kfd"@,
            e.user_name,
            e.user_groups,
        )->Ok_0;
        match crate::ask::listing_answer(h, QuestionView::ListDir("/dev/dri"@)) {
            Ok(Some(entries)) => {
                lemma_render(
                    h,
                    ExaminationView { kfd: Some(kfd), ..e },
                    ExaminationView { kfd: Some(kfd), ..u },
                    in_order(render_paths(entries)),
                );
            },
            _ => {},
        }
    }
}

proof fn lemma_markers(h: Host, e: ExaminationView, u: ExaminationView, markers: Seq<Seq<char>>)
    requires
        same_install(e, u),
    ensures
        markers_probed(h, e, markers) matches Ok(a) ==> (markers_probed(h, u, markers) matches Ok(b)
            && same_install(a, b)),
    decreases markers.len(),
{
    if markers.len() > 0 {
        lemma_markers(h, e, u, markers.skip(1));
        lemma_markers(
            h,
            marker_recorded(e, markers[0]),
            marker_recorded(u, markers[0]),
            markers.skip(1),
        );
    }
}

proof fn lemma_install(h: Host, e: ExaminationView, u: ExaminationView)
    requires
        same_install(e, u),
    ensures
        rocm_install_probed(h, e) matches Ok(a) ==> (rocm_install_probed(h, u) matches Ok(b)
            && same_install(a, b)),
{
    if rocm_install_probed(h, e) is Ok {
        let install = crate::ask::install_answer(h, QuestionView::ActiveRocmInstall)->Ok_0;
        let e1 = install_recorded(e, install);
        let u1 = install_recorded(u, install);
        lemma_markers(h, e1, u1, install_markers());
        let e2 = markers_probed(h, e1, install_markers())->Ok_0;
        let u2 = markers_probed(h, u1, install_markers())->Ok_0;
        let e3 = package_probed(h, e2, "dpkg"@, "-l"@, "apt"@)->Ok_0;
        let u3 = package_probed(h, u2, "dpkg"@, "-l"@, "apt"@)->Ok_0;
        assert(package_probed(h, u2, "dpkg"@, "-l"@, "apt"@) is Ok && same_install(e3, u3));
        let e4 = package_probed(h, e3, "rpm"@, "-q"@, "dnf"@)->Ok_0;
        let u4 = package_probed(h, u3, "rpm"@, "-q"@, "dnf"@)->Ok_0;
        assert(package_probed(h, u3, "rpm"@, "-q"@, "dnf"@) is Ok && same_install(e4, u4));
        let e5 = method_settled(e4);
        let u5 = method_settled(u4);
        assert(method_probed(h, u1) == Ok::<ExaminationView, QuestionView>(u5));
        assert(repo_dir_probed(h, u5, "/etc/apt/sources.list.d"@) is Ok);
    }
}

proof fn lemma_variables(h: Host, e: ExaminationView, u: ExaminationView, keys: Seq<Seq<char>>)
    requires
        same_env(e, u),
    ensures
        variables_probed(h, e, keys) matches Ok(a) ==> (variables_probed(h, u, keys) matches Ok(b)
            && same_env(a, b) && a.notes == e.notes && b.notes == u.notes),
    decreases keys.len(),
{
    if keys.len() > 0 {
        match crate::ask::optional_text_answer(h, QuestionView::EnvVar(keys[0])) {
            Ok(value) => {
                lemma_variables(
                    h,
                    variable_recorded(e, keys[0], value),
                    variable_recorded(u, keys[0], value),
                    keys.skip(1),
                );
            },
            Err(_) => {},
        }
    }
}

proof fn lemma_env(h: Host, e: ExaminationView, u: ExaminationView)
    requires
        same_env(e, u),
        u.notes.len() == 0,
    ensures
        env_probed(h, e) matches Ok(a) ==> (env_probed(h, u) matches Ok(b) && same_env(a, b)
            && a.notes == e.notes + b.notes),
{
    lemma_variables(h, e, u, tracked_env_vars());
    if env_probed(h, e) is Ok {
        let e1 = variables_probed(h, e, tracked_env_vars())->Ok_0;
        let u1 = variables_probed(h, u, tracked_env_vars())->Ok_0;
        let a = hip_libs_probed(h, e1)->Ok_0;
        let b = hip_libs_probed(h, u1)->Ok_0;
        assert(hip_libs_probed(h, u1) is Ok);
        assert(a.notes =~= e.notes + b.notes);
    }
}

proof fn lemma_recorded(e: ExaminationView, u: ExaminationView, out: CommandOutputView)
    requires
        same_framework(e, u),
    ensures
        same_framework(pytorch_recorded(e, out), pytorch_recorded(u, out)),
{
}

proof fn lemma_torch(
    h: Host,
    e: ExaminationView,
    u: ExaminationView,
    interpreter: Option<FrameworkInterpreterView>,
)
    requires
        same_framework(e, u),
    ensures
        pytorch_probed(h, e, interpreter) matches Ok(a) ==> (pytorch_probed(h, u, interpreter)
            matches Ok(b) && same_framework(a, b)),
{
    if pytorch_probed(h, e, interpreter) is Ok {
        match interpreter {
            Some(i) => {
                let e1 = runtime_noted(e, i.python);
                let u1 = runtime_noted(u, i.python);
                let (e2, envs) = library_env_probed(h, e1, i.library_paths)->Ok_0;
                let (u2, other) = library_env_probed(h, u1, i.library_paths)->Ok_0;
                assert(library_env_probed(h, u1, i.library_paths) is Ok);
                assert(same_framework(e2, u2) && envs == other);
                assert forall|out: CommandOutputView| same_framework(
                    #[trigger] pytorch_recorded(e2, out),
                    pytorch_recorded(u2, out),
                ) by {
                    lemma_recorded(e2, u2, out);
                }
            },
            None => {
                let e1 = ExaminationView { framework_source: "path"@, ..e };
                let u1 = ExaminationView { framework_source: "path"@, ..u };
                assert forall|out: CommandOutputView| same_framework(
                    #[trigger] pytorch_recorded(e1, out),
                    pytorch_recorded(u1, out),
                ) by {
                    lemma_recorded(e1, u1, out);
                }
            },
        }
    }
}

proof fn lemma_llama(h: Host, e: ExaminationView, u: ExaminationView)
    requires
        same_framework(e, u),
    ensures
        llama_probed(h, e) matches Ok(a) ==> (llama_probed(h, u) matches Ok(b) && same_framework(
            a,
            b,
        )),
{
}

proof fn lemma_framework(
    h: Host,
    e: ExaminationView,
    u: ExaminationView,
    framework: FrameworkProbe,
    interpreter: Option<FrameworkInterpreterView>,
)
    requires
        same_framework(e, u),
    ensures
        framework_probed(h, e, framework, interpreter) matches Ok(a) ==> (framework_probed(
            h,
            u,
            framework,
            interpreter,
        ) matches Ok(b) && same_framework(a, b)),
{
    lemma_llama(h, e, u);
    lemma_torch(h, e, u, interpreter);
    if pytorch_probed(h, e, interpreter) is Ok && pytorch_probed(h, u, interpreter) is Ok {
        lemma_llama(
            h,
            pytorch_probed(h, e, interpreter)->Ok_0,
            pytorch_probed(h, u, interpreter)->Ok_0,
        );
    }
}

proof fn lemma_inventory(e: ExaminationView, u: ExaminationView, lines: Seq<Seq<char>>)
    requires
        e.gpus == u.gpus,
        e.has_nvidia_gpu == u.has_nvidia_gpu,
    ensures
        inventory_recorded(e, lines).gpus == inventory_recorded(u, lines).gpus,
        inventory_recorded(e, lines).has_nvidia_gpu == inventory_recorded(u, lines).has_nvidia_gpu,
        inventory_recorded(e, lines).probe_failures == e.probe_failures,
        inventory_recorded(u, lines).probe_failures == u.probe_failures,
    decreases lines.len(),
{
    if lines.len() > 0 {
        lemma_inventory(e, u, lines.drop_last());
    }
}

proof fn lemma_windows_gpus(h: Host, e: ExaminationView, u: ExaminationView)
    requires
        e.gpus == u.gpus,
        e.has_nvidia_gpu == u.has_nvidia_gpu,
        u.probe_failures.len() == 0,
    ensures
        windows_gpus_probed(h, e) matches Ok(a) ==> (windows_gpus_probed(h, u) matches Ok(b)
            && a.gpus == b.gpus && a.has_nvidia_gpu == b.has_nvidia_gpu && a.probe_failures
            == e.probe_failures + b.probe_failures),
{
    match crate::ask::output_answer(
        h,
        crate::ask::plain_command(
            "powershell"@,
            crate::windows::powershell_args(crate::windows::WIN_GPU_SCRIPT@),
            crate::ask::MEDIUM,
        ),
    ) {
        Ok(out) => {
            lemma_inventory(e, u, lines_of(out.stdout));
            let a = windows_gpus_probed(h, e)->Ok_0;
            let b = windows_gpus_probed(h, u)->Ok_0;
            assert(a.probe_failures =~= e.probe_failures + b.probe_failures);
        },
        Err(_) => {},
    }
}

proof fn lemma_hipinfo_lines(
    h: Host,
    e: ExaminationView,
    u: ExaminationView,
    lines: Seq<Seq<char>>,
)
    requires
        e.gpus == u.gpus,
        same_sdk(e, u),
    ensures
        hipinfo_lines_probed(h, e, lines) matches Ok(a) ==> (hipinfo_lines_probed(h, u, lines)
            matches Ok(b) && a.gpus == b.gpus && same_sdk(a, b)),
    decreases lines.len(),
{
    if lines.len() > 0 {
        let rest = lines.skip(1);
        match crate::text::after_prefix(crate::text::trimmed(lines[0]), "gcnArchName:"@) {
            None => {
                lemma_hipinfo_lines(h, e, u, rest);
            },
            Some(said) => match crate::ask::optional_text_answer(
                h,
                QuestionView::FirstGfxToken(said),
            ) {
                Ok(Some(gfx)) => {
                    lemma_hipinfo_lines(h, target_recorded(e, gfx), target_recorded(u, gfx), rest);
                },
                Ok(None) => {
                    lemma_hipinfo_lines(h, e, u, rest);
                },
                Err(_) => {},
            },
        }
    }
}

proof fn lemma_sdk(h: Host, e: ExaminationView, u: ExaminationView)
    requires
        e.gpus == u.gpus,
        same_sdk(e, u),
    ensures
        hip_sdk_probed(h, e) matches Ok(a) ==> (hip_sdk_probed(h, u) matches Ok(b) && a.gpus
            == b.gpus && same_sdk(a, b)),
{
    let root = crate::windows::sdk_root(h)->Ok_0;
    if hip_sdk_probed(h, e) is Ok && root.len() > 0 {
        let version = crate::windows::sdk_version(h, root)->Ok_0;
        let e1 = ExaminationView { hip_sdk_path: root, hip_sdk_version: version, ..e };
        let u1 = ExaminationView { hip_sdk_path: root, hip_sdk_version: version, ..u };
        assert(hip_sdk_probed(h, e) == hipinfo_probed(h, e1, root));
        assert(hip_sdk_probed(h, u) == hipinfo_probed(h, u1, root));
        let e2 = ExaminationView { hipinfo_present: true, hipinfo_status: "ok"@, ..e1 };
        let u2 = ExaminationView { hipinfo_present: true, hipinfo_status: "ok"@, ..u1 };
        assert forall|lines: Seq<Seq<char>>|
            (#[trigger] hipinfo_lines_probed(h, e2, lines)) is Ok implies hipinfo_lines_probed(
            h,
            u2,
            lines,
        ) is Ok && hipinfo_lines_probed(h, e2, lines)->Ok_0.gpus == hipinfo_lines_probed(
            h,
            u2,
            lines,
        )->Ok_0.gpus && same_sdk(
            hipinfo_lines_probed(h, e2, lines)->Ok_0,
            hipinfo_lines_probed(h, u2, lines)->Ok_0,
        ) by {
            lemma_hipinfo_lines(h, e2, u2, lines);
        }
    }
}

// ---------------------------------------------------------------------------
// The laws
// ---------------------------------------------------------------------------

/// On a Linux host every probe is heard, and none speaks for another: each field
/// of the examination is what its own probe makes of the host, started on a
/// blank examination. The sources of GPUs build on one another, and the access
/// to the device nodes is that of the user who was found.
pub proof fn law_linux_probes_are_heard(
    h: Host,
    framework: FrameworkProbe,
    interpreter: Option<FrameworkInterpreterView>,
)
    ensures
        examined(h, framework, interpreter) matches Ok(e) ==> e.os_family == "linux"@ && !e.is_wsl
            ==> {
            let u = unexamined();
            &&& os_probed(h, u) matches Ok(x) && same_system(e, x)
            &&& cpu_linux_probed(h, u) matches Ok(x) && same_cpu(e, x)
            &&& lspci_probed(h, u) matches Ok(bus) && {
                &&& e.has_nvidia_gpu == bus.has_nvidia_gpu
                &&& rocminfo_probed(h, bus) matches Ok(agents) && {
                    &&& e.rocminfo_present == agents.rocminfo_present
                    &&& e.rocminfo_status == agents.rocminfo_status
                    &&& topology_probed(h, agents) matches Ok(all) && {
                        &&& e.gpus == all.gpus
                        &&& e.has_amd_gpu == summarised(all).has_amd_gpu
                        &&& e.has_apu == summarised(all).has_apu
                        &&& e.has_discrete_amd == summarised(all).has_discrete_amd
                        &&& env_probed(h, u) matches Ok(x) && same_env(e, x) && e.notes == all.notes
                            + x.notes
                    }
                }
                &&& shared_memory_probed(h, u, "/dev/shm"@) matches Ok(x) && same_memory(e, x)
                    && e.probe_failures == bus.probe_failures + x.probe_failures
            }
            &&& modules_probed(h, u) matches Ok(x) && same_modules(e, x)
            &&& user_probed(h, u) matches Ok(x) && same_user(e, x)
            &&& devices_probed(
                h,
                ExaminationView { user_name: e.user_name, user_groups: e.user_groups, ..u },
            ) matches Ok(x) && same_nodes(e, x)
            &&& secure_boot_probed(h, u) matches Ok(x) && e.secure_boot == x.secure_boot
            &&& rocm_install_probed(h, u) matches Ok(x) && same_install(e, x)
            &&& container_probed(h, u) matches Ok(x) && same_container(e, x)
            &&& log_probed(h, u) matches Ok(x) && e.dmesg_amdgpu_tail == x.dmesg_amdgpu_tail
            &&& framework_probed(h, u, framework, interpreter) matches Ok(x) && same_framework(e, x)
        },
{
    let u = unexamined();
    lemma_os_probed(h, u);
    let r = examined(h, framework, interpreter);
    let e0 = os_probed(h, u)->Ok_0;
    if r is Ok && r->Ok_0.os_family == "linux"@ && !r->Ok_0.is_wsl {
        lemma_start(h, framework, interpreter);
        let e1 = cpu_linux_probed(h, e0)->Ok_0;
        lemma_cpu_linux_probed(h, e0);
        match crate::ask::text_answer(h, QuestionView::ReadText("/proc/cpuinfo"@)) {
            Ok(text) => {
                lemma_cpu_lines(e0, u, lines_of(text));
                lemma_cpu_failures(e0, lines_of(text));
            },
            Err(_) => {},
        }
        let e2 = lspci_probed(h, e1)->Ok_0;
        lemma_lspci_probed(h, e1);
        let bus = lspci_probed(h, u)->Ok_0;
        lemma_lspci_probed(h, u);
        assert(bus.gpus == e2.gpus && bus.has_nvidia_gpu == e2.has_nvidia_gpu);
        assert(bus.probe_failures == e2.probe_failures);
        let e3 = rocminfo_probed(h, e2)->Ok_0;
        lemma_rocminfo_probed(h, e2);
        let agents = rocminfo_probed(h, bus)->Ok_0;
        lemma_rocminfo_probed(h, bus);
        assert(agents.gpus == e3.gpus);
        let e4 = topology_probed(h, e3)->Ok_0;
        lemma_topology_probed(h, e3);
        let all = topology_probed(h, agents)->Ok_0;
        assert(all.gpus == e4.gpus && all.notes == e4.notes);
        let e5 = summarised(e4);
        let e6 = modules_probed(h, e5)->Ok_0;
        lemma_modules_probed(h, e5);
        lemma_modules(h, e5, u);
        let e7 = user_probed(h, e6)->Ok_0;
        lemma_user_probed(h, e6);
        assert(user_probed(h, u) is Ok && same_user(user_probed(h, u)->Ok_0, e7));
        let e8 = devices_probed(h, e7)->Ok_0;
        lemma_devices_probed(h, e7);
        lemma_devices(
            h,
            e7,
            ExaminationView { user_name: e7.user_name, user_groups: e7.user_groups, ..u },
        );
        let e9 = secure_boot_probed(h, e8)->Ok_0;
        lemma_secure_boot_probed(h, e8);
        let e10 = rocm_install_probed(h, e9)->Ok_0;
        lemma_rocm_install_probed(h, e9);
        lemma_install(h, e9, u);
        let e11 = env_probed(h, e10)->Ok_0;
        lemma_env_probed(h, e10);
        lemma_env(h, e10, u);
        let e12 = container_probed(h, e11)->Ok_0;
        lemma_container_probed(h, e11);
        let e13 = shared_memory_probed(h, e12, "/dev/shm"@)->Ok_0;
        lemma_shared_memory_probed(h, e12, "/dev/shm"@);
        assert(e13.probe_failures =~= e12.probe_failures + shared_memory_probed(
            h,
            u,
            "/dev/shm"@,
        )->Ok_0.probe_failures);
        let e14 = log_probed(h, e13)->Ok_0;
        lemma_log_probed(h, e13);
        let e15 = framework_probed(h, e14, framework, interpreter)->Ok_0;
        lemma_framework_probed(h, e14, framework, interpreter);
        lemma_framework(h, e14, u, framework, interpreter);
    }
}

/// In a WSL guest every probe that is not of the bare metal is heard.
pub proof fn law_guest_probes_are_heard(
    h: Host,
    framework: FrameworkProbe,
    interpreter: Option<FrameworkInterpreterView>,
)
    ensures
        examined(h, framework, interpreter) matches Ok(e) ==> e.is_wsl ==> {
            let u = unexamined();
            &&& os_probed(h, u) matches Ok(x) && same_system(e, x)
            &&& wsl_probed(
                h,
                ExaminationView {
                    kernel_release: e.kernel_release,
                    distro_id: e.distro_id,
                    distro_version: e.distro_version,
                    ..u
                },
            ) matches Ok(guest) && {
                &&& e.wsl == guest.wsl
                &&& e.rocminfo_present == guest.rocminfo_present
                &&& e.rocminfo_status == guest.rocminfo_status
                &&& env_probed(h, u) matches Ok(x) && same_env(e, x) && e.notes == guest.notes
                    + x.notes
            }
            &&& rocm_install_probed(h, u) matches Ok(x) && same_install(e, x)
            &&& container_probed(h, u) matches Ok(x) && same_container(e, x)
            &&& framework_probed(h, u, framework, interpreter) matches Ok(x) && same_framework(e, x)
            &&& shared_memory_probed(h, u, "/dev/shm"@) matches Ok(x) && same_memory(e, x)
                && e.probe_failures == x.probe_failures
        },
{
    let u = unexamined();
    lemma_os_probed(h, u);
    let r = examined(h, framework, interpreter);
    let e0 = os_probed(h, u)->Ok_0;
    if r is Ok && r->Ok_0.is_wsl {
        lemma_start(h, framework, interpreter);
        let e1 = wsl_probed(h, e0)->Ok_0;
        lemma_wsl_probed(h, e0);
        let e2 = rocm_install_probed(h, e1)->Ok_0;
        lemma_rocm_install_probed(h, e1);
        lemma_install(h, e1, u);
        let e3 = env_probed(h, e2)->Ok_0;
        lemma_env_probed(h, e2);
        lemma_env(h, e2, u);
        let e4 = container_probed(h, e3)->Ok_0;
        lemma_container_probed(h, e3);
        let e5 = framework_probed(h, e4, framework, interpreter)->Ok_0;
        lemma_framework_probed(h, e4, framework, interpreter);
        lemma_framework(h, e4, u, framework, interpreter);
        let e6 = shared_memory_probed(h, e5, "/dev/shm"@)->Ok_0;
        lemma_shared_memory_probed(h, e5, "/dev/shm"@);
    }
}

/// On a Windows host every probe is heard: the SDK builds on the inventory, and
/// every other field is what its own probe makes of the host.
pub proof fn law_windows_probes_are_heard(
    h: Host,
    framework: FrameworkProbe,
    interpreter: Option<FrameworkInterpreterView>,
)
    ensures
        examined(h, framework, interpreter) matches Ok(e) ==> e.os_family == "windows"@ && !e.is_wsl
            ==> {
            let u = unexamined();
            &&& os_probed(h, u) matches Ok(x) && same_system(e, x)
            &&& cpu_windows_probed(h, u) matches Ok(cpu) && {
                &&& same_cpu(e, cpu)
                &&& windows_gpus_probed(h, u) matches Ok(inventory) && {
                    &&& e.has_nvidia_gpu == inventory.has_nvidia_gpu
                    &&& e.probe_failures == cpu.probe_failures + inventory.probe_failures
                    &&& hip_sdk_probed(h, inventory) matches Ok(all) && {
                        &&& e.gpus == all.gpus
                        &&& e.has_amd_gpu == summarised(all).has_amd_gpu
                        &&& e.has_apu == summarised(all).has_apu
                        &&& e.has_discrete_amd == summarised(all).has_discrete_amd
                        &&& same_sdk(e, all)
                    }
                }
            }
            &&& adrenalin_probed(h, u) matches Ok(x) && e.adrenalin_version == x.adrenalin_version
            &&& msvc_probed(h, u) matches Ok(x) && e.msvc_redist_present == x.msvc_redist_present
            &&& env_probed(h, u) matches Ok(x) && same_env(e, x) && e.notes == x.notes
            &&& framework_probed(h, u, framework, interpreter) matches Ok(x) && same_framework(e, x)
        },
{
    let u = unexamined();
    lemma_os_probed(h, u);
    let r = examined(h, framework, interpreter);
    let e0 = os_probed(h, u)->Ok_0;
    if r is Ok && r->Ok_0.os_family == "windows"@ && !r->Ok_0.is_wsl {
        lemma_start(h, framework, interpreter);
        reveal_strlit("linux");
        reveal_strlit("windows");
        assert("linux"@.len() != "windows"@.len());
        assert(windows_inventory_probed(h, e0) is Ok);
        lemma_windows_inventory(h, e0);
        let e6 = windows_inventory_probed(h, e0)->Ok_0;
        lemma_windows_rest(h, e6, framework, interpreter);
    }
}

/// What the inventory of a Windows host says, probe by probe.
spec fn inventory_heard(h: Host, e: ExaminationView) -> bool {
    let u = unexamined();
    &&& cpu_windows_probed(h, u) matches Ok(cpu) && {
        &&& same_cpu(e, cpu)
        &&& windows_gpus_probed(h, u) matches Ok(inventory) && {
            &&& e.has_nvidia_gpu == inventory.has_nvidia_gpu
            &&& e.probe_failures == cpu.probe_failures + inventory.probe_failures
            &&& hip_sdk_probed(h, inventory) matches Ok(all) && {
                &&& e.gpus == all.gpus
                &&& e.has_amd_gpu == summarised(all).has_amd_gpu
                &&& e.has_apu == summarised(all).has_apu
                &&& e.has_discrete_amd == summarised(all).has_discrete_amd
                &&& same_sdk(e, all)
            }
        }
    }
    &&& adrenalin_probed(h, u) matches Ok(x) && e.adrenalin_version == x.adrenalin_version
    &&& msvc_probed(h, u) matches Ok(x) && e.msvc_redist_present == x.msvc_redist_present
}

proof fn lemma_cpu_windows(h: Host, e: ExaminationView, u: ExaminationView)
    requires
        same_cpu(e, u),
        e.probe_failures == u.probe_failures,
    ensures
        cpu_windows_probed(h, e) matches Ok(a) ==> (cpu_windows_probed(h, u) matches Ok(b)
            && same_cpu(a, b) && a.probe_failures == b.probe_failures),
{
}

proof fn lemma_driver(h: Host, e: ExaminationView, u: ExaminationView)
    requires
        e.adrenalin_version == u.adrenalin_version,
    ensures
        adrenalin_probed(h, e) matches Ok(a) ==> (adrenalin_probed(h, u) matches Ok(b)
            && a.adrenalin_version == b.adrenalin_version),
{
}

proof fn lemma_runtime(h: Host, e: ExaminationView, u: ExaminationView)
    ensures
        msvc_probed(h, e) matches Ok(a) ==> (msvc_probed(h, u) matches Ok(b)
            && a.msvc_redist_present == b.msvc_redist_present),
{
}

proof fn lemma_windows_inventory(h: Host, e0: ExaminationView)
    requires
        crate::laws::frames::os_frame(unexamined(), e0),
    ensures
        windows_inventory_probed(h, e0) matches Ok(e) ==> {
            &&& inventory_heard(h, e)
            &&& e.env == unexamined().env
            &&& e.hip_libs_on_ld_path == unexamined().hip_libs_on_ld_path
            &&& e.notes == unexamined().notes
            &&& same_framework(e, unexamined())
        },
{
    let u = unexamined();
    if windows_inventory_probed(h, e0) is Ok {
        let e1 = cpu_windows_probed(h, e0)->Ok_0;
        lemma_cpu_windows_probed(h, e0);
        lemma_cpu_windows(h, e0, u);
        let e2 = windows_gpus_probed(h, e1)->Ok_0;
        lemma_windows_gpus_probed(h, e1);
        lemma_windows_gpus_probed(h, u);
        lemma_windows_gpus(h, e1, u);
        let inventory = windows_gpus_probed(h, u)->Ok_0;
        let e3 = hip_sdk_probed(h, e2)->Ok_0;
        lemma_hip_sdk_probed(h, e2);
        lemma_sdk(h, e2, inventory);
        let e4 = adrenalin_probed(h, e3)->Ok_0;
        lemma_adrenalin_probed(h, e3);
        let e5 = msvc_probed(h, e4)->Ok_0;
        lemma_msvc_probed(h, e4);
        lemma_driver(h, e3, u);
        lemma_runtime(h, e4, u);
    }
}

proof fn lemma_windows_rest(
    h: Host,
    e6: ExaminationView,
    framework: FrameworkProbe,
    interpreter: Option<FrameworkInterpreterView>,
)
    requires
        inventory_heard(h, e6),
        e6.env == unexamined().env,
        e6.hip_libs_on_ld_path == unexamined().hip_libs_on_ld_path,
        e6.notes == unexamined().notes,
        same_framework(e6, unexamined()),
        env_probed(h, e6) is Ok,
        framework_probed(h, env_probed(h, e6)->Ok_0, framework, interpreter) is Ok,
    ensures
        ({
            let e = framework_probed(h, env_probed(h, e6)->Ok_0, framework, interpreter)->Ok_0;
            let u = unexamined();
            &&& inventory_heard(h, e)
            &&& env_probed(h, u) matches Ok(x) && same_env(e, x) && e.notes == x.notes
            &&& framework_probed(h, u, framework, interpreter) matches Ok(x) && same_framework(e, x)
        }),
{
    let u = unexamined();
    let e7 = env_probed(h, e6)->Ok_0;
    lemma_env_probed(h, e6);
    lemma_env(h, e6, u);
    assert(e7.notes =~= env_probed(h, u)->Ok_0.notes);
    lemma_framework_probed(h, e7, framework, interpreter);
    lemma_framework(h, e7, u, framework, interpreter);
}

/// The system that the examination ends with is the one that it started with.
proof fn lemma_start(
    h: Host,
    framework: FrameworkProbe,
    interpreter: Option<FrameworkInterpreterView>,
)
    ensures
        examined(h, framework, interpreter) matches Ok(e) ==> (os_probed(h, unexamined()) matches Ok(
            x,
        ) && same_system(e, x)),
{
    let u = unexamined();
    let r = examined(h, framework, interpreter);
    if r is Ok {
        let e0 = os_probed(h, u)->Ok_0;
        if e0.is_wsl {
            lemma_guest_system(h, e0, framework, interpreter);
        } else if e0.os_family == "linux"@ {
            lemma_linux_system(h, e0, framework, interpreter);
        } else if e0.os_family == "windows"@ {
            lemma_windows_system(h, e0, framework, interpreter);
        }
    }
}

proof fn lemma_guest_system(
    h: Host,
    e0: ExaminationView,
    framework: FrameworkProbe,
    interpreter: Option<FrameworkInterpreterView>,
)
    ensures
        crate::probe::wsl_guest_probed(h, e0, framework, interpreter) matches Ok(e) ==> same_system(
            e,
            e0,
        ),
{
    if crate::probe::wsl_guest_probed(h, e0, framework, interpreter) is Ok {
        let e1 = wsl_probed(h, e0)->Ok_0;
        lemma_wsl_probed(h, e0);
        let e2 = rocm_install_probed(h, e1)->Ok_0;
        lemma_rocm_install_probed(h, e1);
        let e3 = env_probed(h, e2)->Ok_0;
        lemma_env_probed(h, e2);
        let e4 = container_probed(h, e3)->Ok_0;
        lemma_container_probed(h, e3);
        let e5 = framework_probed(h, e4, framework, interpreter)->Ok_0;
        lemma_framework_probed(h, e4, framework, interpreter);
        lemma_shared_memory_probed(h, e5, "/dev/shm"@);
    }
}

proof fn lemma_linux_system(
    h: Host,
    e0: ExaminationView,
    framework: FrameworkProbe,
    interpreter: Option<FrameworkInterpreterView>,
)
    ensures
        crate::probe::linux_host_probed(h, e0, framework, interpreter) matches Ok(e)
            ==> same_system(e, e0),
{
    if crate::probe::linux_host_probed(h, e0, framework, interpreter) is Ok {
        let e1 = cpu_linux_probed(h, e0)->Ok_0;
        lemma_cpu_linux_probed(h, e0);
        let e2 = lspci_probed(h, e1)->Ok_0;
        lemma_lspci_probed(h, e1);
        let e3 = rocminfo_probed(h, e2)->Ok_0;
        lemma_rocminfo_probed(h, e2);
        let e4 = topology_probed(h, e3)->Ok_0;
        lemma_topology_probed(h, e3);
        let e5 = summarised(e4);
        let e6 = modules_probed(h, e5)->Ok_0;
        lemma_modules_probed(h, e5);
        let e7 = user_probed(h, e6)->Ok_0;
        lemma_user_probed(h, e6);
        let e8 = devices_probed(h, e7)->Ok_0;
        lemma_devices_probed(h, e7);
        let e9 = secure_boot_probed(h, e8)->Ok_0;
        lemma_secure_boot_probed(h, e8);
        let e10 = rocm_install_probed(h, e9)->Ok_0;
        lemma_rocm_install_probed(h, e9);
        let e11 = env_probed(h, e10)->Ok_0;
        lemma_env_probed(h, e10);
        let e12 = container_probed(h, e11)->Ok_0;
        lemma_container_probed(h, e11);
        let e13 = shared_memory_probed(h, e12, "/dev/shm"@)->Ok_0;
        lemma_shared_memory_probed(h, e12, "/dev/shm"@);
        let e14 = log_probed(h, e13)->Ok_0;
        lemma_log_probed(h, e13);
        lemma_framework_probed(h, e14, framework, interpreter);
    }
}

proof fn lemma_windows_system(
    h: Host,
    e0: ExaminationView,
    framework: FrameworkProbe,
    interpreter: Option<FrameworkInterpreterView>,
)
    ensures
        crate::probe::windows_host_probed(h, e0, framework, interpreter) matches Ok(e)
            ==> same_system(e, e0),
{
    if crate::probe::windows_host_probed(h, e0, framework, interpreter) is Ok {
        let e1 = cpu_windows_probed(h, e0)->Ok_0;
        lemma_cpu_windows_probed(h, e0);
        let e2 = windows_gpus_probed(h, e1)->Ok_0;
        lemma_windows_gpus_probed(h, e1);
        let e3 = hip_sdk_probed(h, e2)->Ok_0;
        lemma_hip_sdk_probed(h, e2);
        let e4 = adrenalin_probed(h, e3)->Ok_0;
        lemma_adrenalin_probed(h, e3);
        let e5 = msvc_probed(h, e4)->Ok_0;
        lemma_msvc_probed(h, e4);
        let e6 = summarised(e5);
        let e7 = env_probed(h, e6)->Ok_0;
        lemma_env_probed(h, e6);
        lemma_framework_probed(h, e7, framework, interpreter);
    }
}

} // verus!
