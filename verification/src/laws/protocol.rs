//! Answers never go to waste: a probe asks only what has no fitting answer yet,
//! and what it found out stands however many answers follow.

use vstd::prelude::*;

use crate::ask::{
    any_file, any_file_in, install_answer, listing_answer, on_path, optional_text_answer,
    output_answer, path_separator, plain_command, platform_answer, program_names, utf16_answer,
    MEDIUM,
};
use crate::devices::{
    blacklists_probed, device_stat, devices_probed, modprobe_dir_probed, module_list,
    modules_probed, modules_recorded, render_paths, render_probed, secure_boot_probed, user_probed,
    with_blacklist, with_render_device,
};
use crate::examination::{unexamined, ExaminationView, FrameworkProbe};
use crate::framework::{
    either_probed, framework_probed, library_env_probed, llama_on_path, llama_probed,
    path_torch_probed, python_on_path, pytorch_probed, runtime_noted, runtime_torch_probed,
    script_answer, FrameworkInterpreterView,
};
use crate::gpu::{lspci_probed, topology_probed};
use crate::host::{fits, DirEntryView, Host, QuestionView};
use crate::install::{
    install_markers, install_recorded, marker_recorded, markers_probed, method_probed,
    package_probed, repo_dir_probed, rocm_install_probed,
};
use crate::order::in_order;
use crate::platform::{cpu_linux_probed, cpu_windows_probed, linux_probed, os_probed};
use crate::probe::{
    examined, linux_driver_probed, linux_gpus_probed, linux_host_probed, linux_surroundings_probed,
    platform_probed, windows_host_probed, windows_inventory_probed, wsl_guest_probed,
};
use crate::rocminfo::rocminfo_probed;
use crate::split::{lines_of, pieces_of};
use crate::surroundings::{
    container_probed, env_probed, hip_lib_in, hip_libs_probed, kernel_log, log_probed,
    shared_memory_probed, tracked_env_vars, variable_recorded, variables_probed, SHM_PATH,
};
use crate::text::after_prefix;
use crate::windows::{
    adrenalin_probed, hip_sdk_probed, hipinfo_lines_probed, hipinfo_probed, hipinfo_question,
    msvc_probed, runtime_dirs, runtime_dlls, sdk_root, sdk_version, target_recorded,
    windows_gpus_probed,
};
use crate::wsl::{
    distro_names, distro_probed, host_side_probed, selected_distro, without_nul, wsl_probed,
};

verus! {

/// Whether a question has no fitting answer yet.
pub open spec fn is_open(h: Host, q: QuestionView) -> bool {
    !h.contains_key(q) || !fits(q, h[q])
}

/// Whether a probe finished, or waits for an open question.
pub open spec fn asks_open<T>(h: Host, r: Result<T, QuestionView>) -> bool {
    match r {
        Ok(_) => true,
        Err(q) => is_open(h, q),
    }
}

/// Whether what was found out stands.
pub open spec fn stands<T>(
    before: Result<T, QuestionView>,
    after: Result<T, QuestionView>,
) -> bool {
    before is Ok ==> after == before
}

/// A question that has an answer keeps it.
pub(crate) proof fn lemma_grown(h: Host, h2: Host)
    requires
        h.submap_of(h2),
    ensures
        forall|q: QuestionView|
            #[trigger] h.dom().contains(q) ==> h2.dom().contains(q) && h2[q] == h[q],
{
}

pub(crate) proof fn lemma_any_file(h: Host, h2: Host, dir: Seq<char>, names: Seq<Seq<char>>)
    requires
        h.submap_of(h2),
    ensures
        asks_open(h, any_file(h, dir, names)),
        stands(any_file(h, dir, names), any_file(h2, dir, names)),
    decreases names.len(),
{
    lemma_grown(h, h2);
    if names.len() > 0 {
        lemma_any_file(h, h2, dir, names.skip(1));
    }
}

pub(crate) proof fn lemma_any_file_in(h: Host, h2: Host, dirs: Seq<Seq<char>>, names: Seq<Seq<char>>)
    requires
        h.submap_of(h2),
    ensures
        asks_open(h, any_file_in(h, dirs, names)),
        stands(any_file_in(h, dirs, names), any_file_in(h2, dirs, names)),
    decreases dirs.len(),
{
    lemma_grown(h, h2);
    if dirs.len() > 0 {
        lemma_any_file(h, h2, dirs[0], names);
        lemma_any_file_in(h, h2, dirs.skip(1), names);
    }
}

pub(crate) proof fn lemma_on_path(h: Host, h2: Host, program: Seq<char>)
    requires
        h.submap_of(h2),
    ensures
        asks_open(h, on_path(h, program)),
        stands(on_path(h, program), on_path(h2, program)),
{
    lemma_grown(h, h2);
    match optional_text_answer(h, QuestionView::EnvVar("PATH"@)) {
        Ok(Some(path)) => match platform_answer(h, QuestionView::Platform) {
            Ok(os) => {
                lemma_any_file_in(
                    h,
                    h2,
                    pieces_of(path, path_separator(os)),
                    program_names(os, program),
                );
            },
            Err(_) => {},
        },
        _ => {},
    }
}

pub(crate) proof fn lemma_lspci_probed(h: Host, h2: Host, e: ExaminationView)
    requires
        h.submap_of(h2),
    ensures
        asks_open(h, lspci_probed(h, e)),
        stands(lspci_probed(h, e), lspci_probed(h2, e)),
{
    lemma_grown(h, h2);
    lemma_on_path(h, h2, "lspci"@);
}

pub(crate) proof fn lemma_rocminfo_probed(h: Host, h2: Host, e: ExaminationView)
    requires
        h.submap_of(h2),
    ensures
        asks_open(h, rocminfo_probed(h, e)),
        stands(rocminfo_probed(h, e), rocminfo_probed(h2, e)),
{
    lemma_grown(h, h2);
    lemma_on_path(h, h2, "rocminfo"@);
}

pub(crate) proof fn lemma_topology_probed(h: Host, h2: Host, e: ExaminationView)
    requires
        h.submap_of(h2),
    ensures
        asks_open(h, topology_probed(h, e)),
        stands(topology_probed(h, e), topology_probed(h2, e)),
{
    lemma_grown(h, h2);
}

pub(crate) proof fn lemma_linux_probed(h: Host, h2: Host, e: ExaminationView)
    requires
        h.submap_of(h2),
    ensures
        asks_open(h, linux_probed(h, e)),
        stands(linux_probed(h, e), linux_probed(h2, e)),
{
    lemma_grown(h, h2);
}

pub(crate) proof fn lemma_os_probed(h: Host, h2: Host, e: ExaminationView)
    requires
        h.submap_of(h2),
    ensures
        asks_open(h, os_probed(h, e)),
        stands(os_probed(h, e), os_probed(h2, e)),
{
    lemma_grown(h, h2);
    lemma_linux_probed(h, h2, e);
}

pub(crate) proof fn lemma_cpu_linux_probed(h: Host, h2: Host, e: ExaminationView)
    requires
        h.submap_of(h2),
    ensures
        asks_open(h, cpu_linux_probed(h, e)),
        stands(cpu_linux_probed(h, e), cpu_linux_probed(h2, e)),
{
    lemma_grown(h, h2);
}

pub(crate) proof fn lemma_cpu_windows_probed(h: Host, h2: Host, e: ExaminationView)
    requires
        h.submap_of(h2),
    ensures
        asks_open(h, cpu_windows_probed(h, e)),
        stands(cpu_windows_probed(h, e), cpu_windows_probed(h2, e)),
{
    lemma_grown(h, h2);
}

pub(crate) proof fn lemma_blacklists_probed(h: Host, h2: Host, e: ExaminationView, entries: Seq<DirEntryView>)
    requires
        h.submap_of(h2),
    ensures
        asks_open(h, blacklists_probed(h, e, entries)),
        stands(blacklists_probed(h, e, entries), blacklists_probed(h2, e, entries)),
    decreases entries.len(),
{
    lemma_grown(h, h2);
    if entries.len() > 0 {
        lemma_blacklists_probed(h, h2, with_blacklist(e, entries[0].path), entries.skip(1));
        lemma_blacklists_probed(h, h2, e, entries.skip(1));
    }
}

pub(crate) proof fn lemma_modprobe_dir_probed(h: Host, h2: Host, e: ExaminationView, dir: Seq<char>)
    requires
        h.submap_of(h2),
    ensures
        asks_open(h, modprobe_dir_probed(h, e, dir)),
        stands(modprobe_dir_probed(h, e, dir), modprobe_dir_probed(h2, e, dir)),
{
    lemma_grown(h, h2);
    match listing_answer(h, QuestionView::ListDir(dir)) {
        Ok(Some(entries)) => {
            lemma_blacklists_probed(h, h2, e, entries);
        },
        _ => {},
    }
}

pub(crate) proof fn lemma_module_list(h: Host, h2: Host)
    requires
        h.submap_of(h2),
    ensures
        asks_open(h, module_list(h)),
        stands(module_list(h), module_list(h2)),
{
    lemma_grown(h, h2);
}

pub(crate) proof fn lemma_modules_probed(h: Host, h2: Host, e: ExaminationView)
    requires
        h.submap_of(h2),
    ensures
        asks_open(h, modules_probed(h, e)),
        stands(modules_probed(h, e), modules_probed(h2, e)),
{
    lemma_grown(h, h2);
    lemma_module_list(h, h2);
    match module_list(h) {
        Ok(text) => {
            let first = modules_recorded(e, text);
            lemma_modprobe_dir_probed(h, h2, first, "/etc/modprobe.d"@);
            match modprobe_dir_probed(h, first, "/etc/modprobe.d"@) {
                Ok(second) => {
                    lemma_modprobe_dir_probed(h, h2, second, "/usr/lib/modprobe.d"@);
                    match modprobe_dir_probed(h, second, "/usr/lib/modprobe.d"@) {
                        Ok(third) => {
                            lemma_modprobe_dir_probed(h, h2, third, "/run/modprobe.d"@);
                        },
                        Err(_) => {},
                    }
                },
                Err(_) => {},
            }
        },
        Err(_) => {},
    }
}

pub(crate) proof fn lemma_device_stat(
    h: Host,
    h2: Host,
    path: Seq<char>,
    user: Seq<char>,
    groups: Seq<Seq<char>>,
)
    requires
        h.submap_of(h2),
    ensures
        asks_open(h, device_stat(h, path, user, groups)),
        stands(device_stat(h, path, user, groups), device_stat(h2, path, user, groups)),
{
    lemma_grown(h, h2);
}

pub(crate) proof fn lemma_render_probed(h: Host, h2: Host, e: ExaminationView, paths: Seq<Seq<char>>)
    requires
        h.submap_of(h2),
    ensures
        asks_open(h, render_probed(h, e, paths)),
        stands(render_probed(h, e, paths), render_probed(h2, e, paths)),
    decreases paths.len(),
{
    lemma_grown(h, h2);
    if paths.len() > 0 {
        lemma_device_stat(h, h2, paths[0], e.user_name, e.user_groups);
        match device_stat(h, paths[0], e.user_name, e.user_groups) {
            Ok(device) => {
                lemma_render_probed(h, h2, with_render_device(e, device), paths.skip(1));
            },
            Err(_) => {},
        }
    }
}

pub(crate) proof fn lemma_devices_probed(h: Host, h2: Host, e: ExaminationView)
    requires
        h.submap_of(h2),
    ensures
        asks_open(h, devices_probed(h, e)),
        stands(devices_probed(h, e), devices_probed(h2, e)),
{
    lemma_grown(h, h2);
    lemma_device_stat(h, h2, "/dev/kfd"@, e.user_name, e.user_groups);
    match device_stat(h, "/dev/kfd"@, e.user_name, e.user_groups) {
        Ok(kfd) => {
            let e = ExaminationView { kfd: Some(kfd), ..e };
            match listing_answer(h, QuestionView::ListDir("/dev/dri"@)) {
                Ok(Some(entries)) => {
                    lemma_render_probed(h, h2, e, in_order(render_paths(entries)));
                },
                _ => {},
            }
        },
        Err(_) => {},
    }
}

pub(crate) proof fn lemma_user_probed(h: Host, h2: Host, e: ExaminationView)
    requires
        h.submap_of(h2),
    ensures
        asks_open(h, user_probed(h, e)),
        stands(user_probed(h, e), user_probed(h2, e)),
{
    lemma_grown(h, h2);
}

pub(crate) proof fn lemma_secure_boot_probed(h: Host, h2: Host, e: ExaminationView)
    requires
        h.submap_of(h2),
    ensures
        asks_open(h, secure_boot_probed(h, e)),
        stands(secure_boot_probed(h, e), secure_boot_probed(h2, e)),
{
    lemma_grown(h, h2);
    lemma_on_path(h, h2, "mokutil"@);
}

pub(crate) proof fn lemma_markers_probed(h: Host, h2: Host, e: ExaminationView, markers: Seq<Seq<char>>)
    requires
        h.submap_of(h2),
    ensures
        asks_open(h, markers_probed(h, e, markers)),
        stands(markers_probed(h, e, markers), markers_probed(h2, e, markers)),
    decreases markers.len(),
{
    lemma_grown(h, h2);
    if markers.len() > 0 {
        lemma_markers_probed(h, h2, marker_recorded(e, markers[0]), markers.skip(1));
        lemma_markers_probed(h, h2, e, markers.skip(1));
    }
}

pub(crate) proof fn lemma_package_probed(
    h: Host,
    h2: Host,
    e: ExaminationView,
    manager: Seq<char>,
    flag: Seq<char>,
    method: Seq<char>,
)
    requires
        h.submap_of(h2),
    ensures
        asks_open(h, package_probed(h, e, manager, flag, method)),
        stands(package_probed(h, e, manager, flag, method), package_probed(h2, e, manager, flag, method)),
{
    lemma_grown(h, h2);
    lemma_on_path(h, h2, manager);
}

pub(crate) proof fn lemma_repo_dir_probed(h: Host, h2: Host, e: ExaminationView, dir: Seq<char>)
    requires
        h.submap_of(h2),
    ensures
        asks_open(h, repo_dir_probed(h, e, dir)),
        stands(repo_dir_probed(h, e, dir), repo_dir_probed(h2, e, dir)),
{
    lemma_grown(h, h2);
}

pub(crate) proof fn lemma_method_probed(h: Host, h2: Host, e: ExaminationView)
    requires
        h.submap_of(h2),
    ensures
        asks_open(h, method_probed(h, e)),
        stands(method_probed(h, e), method_probed(h2, e)),
{
    lemma_grown(h, h2);
    lemma_markers_probed(h, h2, e, install_markers());
    match markers_probed(h, e, install_markers()) {
        Ok(first) => {
            lemma_package_probed(h, h2, first, "dpkg"@, "-l"@, "apt"@);
            match package_probed(h, first, "dpkg"@, "-l"@, "apt"@) {
                Ok(second) => {
                    lemma_package_probed(h, h2, second, "rpm"@, "-q"@, "dnf"@);
                },
                Err(_) => {},
            }
        },
        Err(_) => {},
    }
}

pub(crate) proof fn lemma_rocm_install_probed(h: Host, h2: Host, e: ExaminationView)
    requires
        h.submap_of(h2),
    ensures
        asks_open(h, rocm_install_probed(h, e)),
        stands(rocm_install_probed(h, e), rocm_install_probed(h2, e)),
{
    lemma_grown(h, h2);
    match install_answer(h, QuestionView::ActiveRocmInstall) {
        Ok(install) => {
            let first = install_recorded(e, install);
            lemma_method_probed(h, h2, first);
            match method_probed(h, first) {
                Ok(second) => {
                    lemma_repo_dir_probed(h, h2, second, "/etc/apt/sources.list.d"@);
                    match repo_dir_probed(h, second, "/etc/apt/sources.list.d"@) {
                        Ok(third) => {
                            lemma_repo_dir_probed(h, h2, third, "/etc/yum.repos.d"@);
                        },
                        Err(_) => {},
                    }
                },
                Err(_) => {},
            }
        },
        Err(_) => {},
    }
}

pub(crate) proof fn lemma_library_env_probed(
    h: Host,
    h2: Host,
    e: ExaminationView,
    library_paths: Seq<Seq<char>>,
)
    requires
        h.submap_of(h2),
    ensures
        asks_open(h, library_env_probed(h, e, library_paths)),
        stands(library_env_probed(h, e, library_paths), library_env_probed(h2, e, library_paths)),
{
    lemma_grown(h, h2);
}

pub(crate) proof fn lemma_runtime_torch_probed(
    h: Host,
    h2: Host,
    e: ExaminationView,
    interpreter: FrameworkInterpreterView,
)
    requires
        h.submap_of(h2),
    ensures
        asks_open(h, runtime_torch_probed(h, e, interpreter)),
        stands(runtime_torch_probed(h, e, interpreter), runtime_torch_probed(h2, e, interpreter)),
{
    lemma_grown(h, h2);
    lemma_library_env_probed(
        h,
        h2,
        runtime_noted(e, interpreter.python),
        interpreter.library_paths,
    );
}

pub(crate) proof fn lemma_python_on_path(h: Host, h2: Host)
    requires
        h.submap_of(h2),
    ensures
        asks_open(h, python_on_path(h)),
        stands(python_on_path(h), python_on_path(h2)),
{
    lemma_grown(h, h2);
    lemma_on_path(h, h2, "python"@);
    lemma_on_path(h, h2, "python3"@);
}

pub(crate) proof fn lemma_script_answer(h: Host, h2: Host, py: Seq<char>)
    requires
        h.submap_of(h2),
    ensures
        asks_open(h, script_answer(h, py)),
        stands(script_answer(h, py), script_answer(h2, py)),
{
    lemma_grown(h, h2);
    lemma_on_path(h, h2, "python3"@);
}

pub(crate) proof fn lemma_path_torch_probed(h: Host, h2: Host, e: ExaminationView)
    requires
        h.submap_of(h2),
    ensures
        asks_open(h, path_torch_probed(h, e)),
        stands(path_torch_probed(h, e), path_torch_probed(h2, e)),
{
    lemma_grown(h, h2);
    lemma_python_on_path(h, h2);
    match python_on_path(h) {
        Ok(Some(py)) => {
            lemma_script_answer(h, h2, py);
        },
        _ => {},
    }
}

pub(crate) proof fn lemma_pytorch_probed(
    h: Host,
    h2: Host,
    e: ExaminationView,
    interpreter: Option<FrameworkInterpreterView>,
)
    requires
        h.submap_of(h2),
    ensures
        asks_open(h, pytorch_probed(h, e, interpreter)),
        stands(pytorch_probed(h, e, interpreter), pytorch_probed(h2, e, interpreter)),
{
    lemma_grown(h, h2);
    match interpreter {
        Some(interpreter) => {
            lemma_runtime_torch_probed(h, h2, e, interpreter);
        },
        None => {
            lemma_path_torch_probed(h, h2, e);
        },
    }
}

pub(crate) proof fn lemma_llama_on_path(h: Host, h2: Host)
    requires
        h.submap_of(h2),
    ensures
        asks_open(h, llama_on_path(h)),
        stands(llama_on_path(h), llama_on_path(h2)),
{
    lemma_grown(h, h2);
    lemma_on_path(h, h2, "llama-cli"@);
    lemma_on_path(h, h2, "llama-server"@);
    lemma_on_path(h, h2, "main"@);
}

pub(crate) proof fn lemma_llama_probed(h: Host, h2: Host, e: ExaminationView)
    requires
        h.submap_of(h2),
    ensures
        asks_open(h, llama_probed(h, e)),
        stands(llama_probed(h, e), llama_probed(h2, e)),
{
    lemma_grown(h, h2);
    lemma_llama_on_path(h, h2);
}

pub(crate) proof fn lemma_either_probed(
    h: Host,
    h2: Host,
    e: ExaminationView,
    interpreter: Option<FrameworkInterpreterView>,
)
    requires
        h.submap_of(h2),
    ensures
        asks_open(h, either_probed(h, e, interpreter)),
        stands(either_probed(h, e, interpreter), either_probed(h2, e, interpreter)),
{
    lemma_grown(h, h2);
    lemma_python_on_path(h, h2);
    lemma_pytorch_probed(h, h2, e, interpreter);
    lemma_llama_probed(h, h2, e);
    match pytorch_probed(h, e, interpreter) {
        Ok(asked) => {
            lemma_llama_probed(h, h2, asked);
        },
        Err(_) => {},
    }
}

pub(crate) proof fn lemma_framework_probed(
    h: Host,
    h2: Host,
    e: ExaminationView,
    framework: FrameworkProbe,
    interpreter: Option<FrameworkInterpreterView>,
)
    requires
        h.submap_of(h2),
    ensures
        asks_open(h, framework_probed(h, e, framework, interpreter)),
        stands(framework_probed(h, e, framework, interpreter), framework_probed(h2, e, framework, interpreter)),
{
    lemma_grown(h, h2);
    lemma_pytorch_probed(h, h2, e, interpreter);
    lemma_llama_probed(h, h2, e);
    lemma_either_probed(h, h2, e, interpreter);
}

pub(crate) proof fn lemma_variables_probed(h: Host, h2: Host, e: ExaminationView, keys: Seq<Seq<char>>)
    requires
        h.submap_of(h2),
    ensures
        asks_open(h, variables_probed(h, e, keys)),
        stands(variables_probed(h, e, keys), variables_probed(h2, e, keys)),
    decreases keys.len(),
{
    lemma_grown(h, h2);
    if keys.len() > 0 {
        match optional_text_answer(h, QuestionView::EnvVar(keys[0])) {
            Ok(value) => {
                lemma_variables_probed(h, h2, variable_recorded(e, keys[0], value), keys.skip(1));
            },
            Err(_) => {},
        }
    }
}

pub(crate) proof fn lemma_hip_lib_in(h: Host, h2: Host, dirs: Seq<Seq<char>>)
    requires
        h.submap_of(h2),
    ensures
        asks_open(h, hip_lib_in(h, dirs)),
        stands(hip_lib_in(h, dirs), hip_lib_in(h2, dirs)),
    decreases dirs.len(),
{
    lemma_grown(h, h2);
    if dirs.len() > 0 {
        lemma_hip_lib_in(h, h2, dirs.skip(1));
    }
}

pub(crate) proof fn lemma_hip_libs_probed(h: Host, h2: Host, e: ExaminationView)
    requires
        h.submap_of(h2),
    ensures
        asks_open(h, hip_libs_probed(h, e)),
        stands(hip_libs_probed(h, e), hip_libs_probed(h2, e)),
{
    lemma_grown(h, h2);
    match optional_text_answer(h, QuestionView::EnvVar("LD_LIBRARY_PATH"@)) {
        Ok(Some(ld)) => {
            lemma_hip_lib_in(h, h2, pieces_of(ld, ':'));
        },
        _ => {
            lemma_hip_lib_in(h, h2, pieces_of(Seq::empty(), ':'));
        },
    }
}

pub(crate) proof fn lemma_env_probed(h: Host, h2: Host, e: ExaminationView)
    requires
        h.submap_of(h2),
    ensures
        asks_open(h, env_probed(h, e)),
        stands(env_probed(h, e), env_probed(h2, e)),
{
    lemma_grown(h, h2);
    lemma_variables_probed(h, h2, e, tracked_env_vars());
    match variables_probed(h, e, tracked_env_vars()) {
        Ok(captured) => {
            lemma_hip_libs_probed(h, h2, captured);
        },
        Err(_) => {},
    }
}

pub(crate) proof fn lemma_shared_memory_probed(h: Host, h2: Host, e: ExaminationView, path: Seq<char>)
    requires
        h.submap_of(h2),
    ensures
        asks_open(h, shared_memory_probed(h, e, path)),
        stands(shared_memory_probed(h, e, path), shared_memory_probed(h2, e, path)),
{
    lemma_grown(h, h2);
}

pub(crate) proof fn lemma_container_probed(h: Host, h2: Host, e: ExaminationView)
    requires
        h.submap_of(h2),
    ensures
        asks_open(h, container_probed(h, e)),
        stands(container_probed(h, e), container_probed(h2, e)),
{
    lemma_grown(h, h2);
}

pub(crate) proof fn lemma_kernel_log(h: Host, h2: Host)
    requires
        h.submap_of(h2),
    ensures
        asks_open(h, kernel_log(h)),
        stands(kernel_log(h), kernel_log(h2)),
{
    lemma_grown(h, h2);
}

pub(crate) proof fn lemma_log_probed(h: Host, h2: Host, e: ExaminationView)
    requires
        h.submap_of(h2),
    ensures
        asks_open(h, log_probed(h, e)),
        stands(log_probed(h, e), log_probed(h2, e)),
{
    lemma_grown(h, h2);
    lemma_kernel_log(h, h2);
}

pub(crate) proof fn lemma_windows_gpus_probed(h: Host, h2: Host, e: ExaminationView)
    requires
        h.submap_of(h2),
    ensures
        asks_open(h, windows_gpus_probed(h, e)),
        stands(windows_gpus_probed(h, e), windows_gpus_probed(h2, e)),
{
    lemma_grown(h, h2);
}

pub(crate) proof fn lemma_hipinfo_lines_probed(h: Host, h2: Host, e: ExaminationView, lines: Seq<Seq<char>>)
    requires
        h.submap_of(h2),
    ensures
        asks_open(h, hipinfo_lines_probed(h, e, lines)),
        stands(hipinfo_lines_probed(h, e, lines), hipinfo_lines_probed(h2, e, lines)),
    decreases lines.len(),
{
    lemma_grown(h, h2);
    if lines.len() > 0 {
        lemma_hipinfo_lines_probed(h, h2, e, lines.skip(1));
        match after_prefix(crate::text::trimmed(lines[0]), "gcnArchName:"@) {
            Some(rest) => match optional_text_answer(h, QuestionView::FirstGfxToken(rest)) {
                Ok(Some(gfx)) => {
                    lemma_hipinfo_lines_probed(h, h2, target_recorded(e, gfx), lines.skip(1));
                },
                _ => {},
            },
            None => {},
        }
    }
}

pub(crate) proof fn lemma_hipinfo_probed(h: Host, h2: Host, e: ExaminationView, root: Seq<char>)
    requires
        h.submap_of(h2),
    ensures
        asks_open(h, hipinfo_probed(h, e, root)),
        stands(hipinfo_probed(h, e, root), hipinfo_probed(h2, e, root)),
{
    lemma_grown(h, h2);
    match optional_text_answer(h, hipinfo_question(root)) {
        Ok(Some(program)) => match output_answer(h, plain_command(program, Seq::empty(), 15)) {
            Ok(out) => {
                let e = ExaminationView { hipinfo_present: true, hipinfo_status: "ok"@, ..e };
                lemma_hipinfo_lines_probed(h, h2, e, lines_of(out.stdout));
            },
            Err(_) => {},
        },
        _ => {},
    }
}

pub(crate) proof fn lemma_sdk_root(h: Host, h2: Host)
    requires
        h.submap_of(h2),
    ensures
        asks_open(h, sdk_root(h)),
        stands(sdk_root(h), sdk_root(h2)),
{
    lemma_grown(h, h2);
}

pub(crate) proof fn lemma_sdk_version(h: Host, h2: Host, root: Seq<char>)
    requires
        h.submap_of(h2),
    ensures
        asks_open(h, sdk_version(h, root)),
        stands(sdk_version(h, root), sdk_version(h2, root)),
{
    lemma_grown(h, h2);
}

pub(crate) proof fn lemma_hip_sdk_probed(h: Host, h2: Host, e: ExaminationView)
    requires
        h.submap_of(h2),
    ensures
        asks_open(h, hip_sdk_probed(h, e)),
        stands(hip_sdk_probed(h, e), hip_sdk_probed(h2, e)),
{
    lemma_grown(h, h2);
    lemma_sdk_root(h, h2);
    match sdk_root(h) {
        Ok(root) => {
            lemma_sdk_version(h, h2, root);
            match sdk_version(h, root) {
                Ok(version) => {
                    let e = ExaminationView { hip_sdk_path: root, hip_sdk_version: version, ..e };
                    lemma_hipinfo_probed(h, h2, e, root);
                },
                Err(_) => {},
            }
        },
        Err(_) => {},
    }
}

pub(crate) proof fn lemma_adrenalin_probed(h: Host, h2: Host, e: ExaminationView)
    requires
        h.submap_of(h2),
    ensures
        asks_open(h, adrenalin_probed(h, e)),
        stands(adrenalin_probed(h, e), adrenalin_probed(h2, e)),
{
    lemma_grown(h, h2);
}

pub(crate) proof fn lemma_msvc_probed(h: Host, h2: Host, e: ExaminationView)
    requires
        h.submap_of(h2),
    ensures
        asks_open(h, msvc_probed(h, e)),
        stands(msvc_probed(h, e), msvc_probed(h2, e)),
{
    lemma_grown(h, h2);
    match optional_text_answer(h, QuestionView::EnvVar("PATH"@)) {
        Ok(path) => {
            lemma_any_file_in(h, h2, runtime_dirs(path), runtime_dlls());
        },
        Err(_) => {},
    }
}

pub(crate) proof fn lemma_wsl_probed(h: Host, h2: Host, e: ExaminationView)
    requires
        h.submap_of(h2),
    ensures
        asks_open(h, wsl_probed(h, e)),
        stands(wsl_probed(h, e), wsl_probed(h2, e)),
{
    lemma_grown(h, h2);
    lemma_on_path(h, h2, "rocminfo"@);
}

pub(crate) proof fn lemma_linux_gpus_probed(h: Host, h2: Host, e: ExaminationView)
    requires
        h.submap_of(h2),
    ensures
        asks_open(h, linux_gpus_probed(h, e)),
        stands(linux_gpus_probed(h, e), linux_gpus_probed(h2, e)),
{
    lemma_grown(h, h2);
    lemma_cpu_linux_probed(h, h2, e);
    match cpu_linux_probed(h, e) {
        Ok(e1) => {
            lemma_lspci_probed(h, h2, e1);
            match lspci_probed(h, e1) {
                Ok(e2) => {
                    lemma_rocminfo_probed(h, h2, e2);
                    match rocminfo_probed(h, e2) {
                        Ok(e3) => {
                            lemma_topology_probed(h, h2, e3);
                        },
                        Err(_) => {},
                    }
                },
                Err(_) => {},
            }
        },
        Err(_) => {},
    }
}

pub(crate) proof fn lemma_linux_driver_probed(h: Host, h2: Host, e: ExaminationView)
    requires
        h.submap_of(h2),
    ensures
        asks_open(h, linux_driver_probed(h, e)),
        stands(linux_driver_probed(h, e), linux_driver_probed(h2, e)),
{
    lemma_grown(h, h2);
    lemma_modules_probed(h, h2, e);
    match modules_probed(h, e) {
        Ok(e1) => {
            lemma_user_probed(h, h2, e1);
            match user_probed(h, e1) {
                Ok(e2) => {
                    lemma_devices_probed(h, h2, e2);
                    match devices_probed(h, e2) {
                        Ok(e3) => {
                            lemma_secure_boot_probed(h, h2, e3);
                        },
                        Err(_) => {},
                    }
                },
                Err(_) => {},
            }
        },
        Err(_) => {},
    }
}

pub(crate) proof fn lemma_linux_surroundings_probed(h: Host, h2: Host, e: ExaminationView)
    requires
        h.submap_of(h2),
    ensures
        asks_open(h, linux_surroundings_probed(h, e)),
        stands(linux_surroundings_probed(h, e), linux_surroundings_probed(h2, e)),
{
    lemma_grown(h, h2);
    lemma_rocm_install_probed(h, h2, e);
    match rocm_install_probed(h, e) {
        Ok(e1) => {
            lemma_env_probed(h, h2, e1);
            match env_probed(h, e1) {
                Ok(e2) => {
                    lemma_container_probed(h, h2, e2);
                    match container_probed(h, e2) {
                        Ok(e3) => {
                            lemma_shared_memory_probed(h, h2, e3, SHM_PATH@);
                            match shared_memory_probed(h, e3, SHM_PATH@) {
                                Ok(e4) => {
                                    lemma_log_probed(h, h2, e4);
                                },
                                Err(_) => {},
                            }
                        },
                        Err(_) => {},
                    }
                },
                Err(_) => {},
            }
        },
        Err(_) => {},
    }
}

pub(crate) proof fn lemma_linux_host_probed(
    h: Host,
    h2: Host,
    e: ExaminationView,
    framework: FrameworkProbe,
    interpreter: Option<FrameworkInterpreterView>,
)
    requires
        h.submap_of(h2),
    ensures
        asks_open(h, linux_host_probed(h, e, framework, interpreter)),
        stands(linux_host_probed(h, e, framework, interpreter), linux_host_probed(h2, e, framework, interpreter)),
{
    lemma_grown(h, h2);
    lemma_linux_gpus_probed(h, h2, e);
    match linux_gpus_probed(h, e) {
        Ok(e1) => {
            lemma_linux_driver_probed(h, h2, e1);
            match linux_driver_probed(h, e1) {
                Ok(e2) => {
                    lemma_linux_surroundings_probed(h, h2, e2);
                    match linux_surroundings_probed(h, e2) {
                        Ok(e3) => {
                            lemma_framework_probed(h, h2, e3, framework, interpreter);
                        },
                        Err(_) => {},
                    }
                },
                Err(_) => {},
            }
        },
        Err(_) => {},
    }
}

pub(crate) proof fn lemma_windows_inventory_probed(h: Host, h2: Host, e: ExaminationView)
    requires
        h.submap_of(h2),
    ensures
        asks_open(h, windows_inventory_probed(h, e)),
        stands(windows_inventory_probed(h, e), windows_inventory_probed(h2, e)),
{
    lemma_grown(h, h2);
    lemma_cpu_windows_probed(h, h2, e);
    match cpu_windows_probed(h, e) {
        Ok(e1) => {
            lemma_windows_gpus_probed(h, h2, e1);
            match windows_gpus_probed(h, e1) {
                Ok(e2) => {
                    lemma_hip_sdk_probed(h, h2, e2);
                    match hip_sdk_probed(h, e2) {
                        Ok(e3) => {
                            lemma_adrenalin_probed(h, h2, e3);
                            match adrenalin_probed(h, e3) {
                                Ok(e4) => {
                                    lemma_msvc_probed(h, h2, e4);
                                },
                                Err(_) => {},
                            }
                        },
                        Err(_) => {},
                    }
                },
                Err(_) => {},
            }
        },
        Err(_) => {},
    }
}

pub(crate) proof fn lemma_windows_host_probed(
    h: Host,
    h2: Host,
    e: ExaminationView,
    framework: FrameworkProbe,
    interpreter: Option<FrameworkInterpreterView>,
)
    requires
        h.submap_of(h2),
    ensures
        asks_open(h, windows_host_probed(h, e, framework, interpreter)),
        stands(windows_host_probed(h, e, framework, interpreter), windows_host_probed(h2, e, framework, interpreter)),
{
    lemma_grown(h, h2);
    lemma_windows_inventory_probed(h, h2, e);
    match windows_inventory_probed(h, e) {
        Ok(e1) => {
            lemma_env_probed(h, h2, e1);
            match env_probed(h, e1) {
                Ok(e2) => {
                    lemma_framework_probed(h, h2, e2, framework, interpreter);
                },
                Err(_) => {},
            }
        },
        Err(_) => {},
    }
}

pub(crate) proof fn lemma_wsl_guest_probed(
    h: Host,
    h2: Host,
    e: ExaminationView,
    framework: FrameworkProbe,
    interpreter: Option<FrameworkInterpreterView>,
)
    requires
        h.submap_of(h2),
    ensures
        asks_open(h, wsl_guest_probed(h, e, framework, interpreter)),
        stands(wsl_guest_probed(h, e, framework, interpreter), wsl_guest_probed(h2, e, framework, interpreter)),
{
    lemma_grown(h, h2);
    lemma_wsl_probed(h, h2, e);
    match wsl_probed(h, e) {
        Ok(e1) => {
            lemma_rocm_install_probed(h, h2, e1);
            match rocm_install_probed(h, e1) {
                Ok(e2) => {
                    lemma_env_probed(h, h2, e2);
                    match env_probed(h, e2) {
                        Ok(e3) => {
                            lemma_container_probed(h, h2, e3);
                            match container_probed(h, e3) {
                                Ok(e4) => {
                                    lemma_framework_probed(h, h2, e4, framework, interpreter);
                                    match framework_probed(h, e4, framework, interpreter) {
                                        Ok(e5) => {
                                            lemma_shared_memory_probed(h, h2, e5, SHM_PATH@);
                                        },
                                        Err(_) => {},
                                    }
                                },
                                Err(_) => {},
                            }
                        },
                        Err(_) => {},
                    }
                },
                Err(_) => {},
            }
        },
        Err(_) => {},
    }
}

pub(crate) proof fn lemma_platform_probed(
    h: Host,
    h2: Host,
    e: ExaminationView,
    framework: FrameworkProbe,
    interpreter: Option<FrameworkInterpreterView>,
)
    requires
        h.submap_of(h2),
    ensures
        asks_open(h, platform_probed(h, e, framework, interpreter)),
        stands(platform_probed(h, e, framework, interpreter), platform_probed(h2, e, framework, interpreter)),
{
    lemma_grown(h, h2);
    lemma_wsl_guest_probed(h, h2, e, framework, interpreter);
    lemma_linux_host_probed(h, h2, e, framework, interpreter);
    lemma_windows_host_probed(h, h2, e, framework, interpreter);
}

pub(crate) proof fn lemma_examined(
    h: Host,
    h2: Host,
    framework: FrameworkProbe,
    interpreter: Option<FrameworkInterpreterView>,
)
    requires
        h.submap_of(h2),
    ensures
        asks_open(h, examined(h, framework, interpreter)),
        stands(examined(h, framework, interpreter), examined(h2, framework, interpreter)),
{
    lemma_grown(h, h2);
    lemma_os_probed(h, h2, unexamined());
    match os_probed(h, unexamined()) {
        Ok(e) => {
            lemma_platform_probed(h, h2, e, framework, interpreter);
        },
        Err(_) => {},
    }
}

pub(crate) proof fn lemma_distro_probed(h: Host, h2: Host, selected: Seq<char>)
    requires
        h.submap_of(h2),
    ensures
        asks_open(h, distro_probed(h, selected)),
        stands(distro_probed(h, selected), distro_probed(h2, selected)),
{
    lemma_grown(h, h2);
}

pub(crate) proof fn lemma_host_side_probed(h: Host, h2: Host, distro: Option<Seq<char>>)
    requires
        h.submap_of(h2),
    ensures
        asks_open(h, host_side_probed(h, distro)),
        stands(host_side_probed(h, distro), host_side_probed(h2, distro)),
{
    lemma_grown(h, h2);
    lemma_on_path(h, h2, "wsl.exe"@);
    match utf16_answer(h, plain_command("wsl.exe"@, seq!["-l"@, "-q"@], MEDIUM)) {
        Ok((rc, listed)) => match selected_distro(
            distro,
            distro_names(lines_of(without_nul(listed))),
        ) {
            Ok(selected) => {
                lemma_distro_probed(h, h2, selected);
            },
            Err(_) => {},
        },
        Err(_) => {},
    }
}

/// An examination asks only what has no fitting answer yet: whoever answers each
/// question is never asked the same one twice.
pub proof fn law_examination_asks_open_questions(
    h: Host,
    framework: FrameworkProbe,
    interpreter: Option<FrameworkInterpreterView>,
)
    ensures
        examined(h, framework, interpreter) matches Err(q) ==> is_open(h, q),
{
    lemma_examined(h, h, framework, interpreter);
}

/// A finished examination stands, whatever answers are added.
pub proof fn law_examination_stands(
    h: Host,
    more: Host,
    framework: FrameworkProbe,
    interpreter: Option<FrameworkInterpreterView>,
)
    requires
        h.submap_of(more),
        examined(h, framework, interpreter) is Ok,
    ensures
        examined(more, framework, interpreter) == examined(h, framework, interpreter),
{
    lemma_examined(h, more, framework, interpreter);
}

/// A host that answers every question fittingly is examined: an examination
/// never fails.
pub proof fn law_examination_never_fails(
    h: Host,
    framework: FrameworkProbe,
    interpreter: Option<FrameworkInterpreterView>,
)
    requires
        forall|q: QuestionView| !is_open(h, q),
    ensures
        examined(h, framework, interpreter) is Ok,
{
    lemma_examined(h, h, framework, interpreter);
}

/// The inspection of a WSL distribution from the Windows host asks only what has
/// no fitting answer yet.
pub proof fn law_inspection_asks_open_questions(h: Host, distro: Option<Seq<char>>)
    ensures
        host_side_probed(h, distro) matches Err(q) ==> is_open(h, q),
{
    lemma_host_side_probed(h, h, distro);
}

/// On a host that answers every question fittingly an inspection of a WSL
/// distribution comes to a result, be it an examination or a refusal.
pub proof fn law_inspection_never_waits(h: Host, distro: Option<Seq<char>>)
    requires
        forall|q: QuestionView| !is_open(h, q),
    ensures
        host_side_probed(h, distro) is Ok,
{
    lemma_host_side_probed(h, h, distro);
}

/// A finished inspection of a WSL distribution stands, whatever answers are
/// added.
pub proof fn law_inspection_stands(h: Host, more: Host, distro: Option<Seq<char>>)
    requires
        h.submap_of(more),
        host_side_probed(h, distro) is Ok,
    ensures
        host_side_probed(more, distro) == host_side_probed(h, distro),
{
    lemma_host_side_probed(h, more, distro);
}

} // verus!
