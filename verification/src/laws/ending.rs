//! An examination comes to an end: every finished one rests on finitely many
//! answers, and whoever keeps answering is done after finitely many rounds.

use vstd::prelude::*;
use vstd::set_lib::*;

use crate::ask::{
    any_file, any_file_in, flag_answer, install_answer, listing_answer, on_path,
    optional_text_answer, output_answer, path_separator, paths_answer, plain_command,
    platform_answer, program_names, utf16_answer, MEDIUM, SHORT,
};
use crate::devices::{
    blacklists_probed, device_stat, devices_probed, entry_blacklists, modprobe_dir_probed,
    module_list, modules_probed, modules_recorded, render_paths, render_probed, secure_boot_probed,
    user_probed, with_blacklist, with_render_device,
};
use crate::examination::{unexamined, ExaminationView, FrameworkProbe};
use crate::framework::{
    either_probed, framework_probed, library_env_probed, llama_on_path, llama_probed,
    loader_entries, path_torch_probed, python_on_path, pytorch_probed, runtime_noted,
    runtime_torch_probed, script_answer, script_args, FrameworkInterpreterView, TORCH_SECS,
};
use crate::gpu::{lspci_probed, topology_probed};
use crate::host::{CommandView, DirEntryView, Host, QuestionView};
use crate::install::{
    install_markers, install_recorded, marker_recorded, markers_probed, method_probed,
    package_probed, repo_dir_probed, rocm_install_probed,
};
use crate::laws::protocol::{
    asks_open, is_open, law_examination_never_fails, law_inspection_never_waits,
    lemma_adrenalin_probed, lemma_any_file, lemma_container_probed, lemma_cpu_linux_probed,
    lemma_cpu_windows_probed, lemma_device_stat, lemma_devices_probed, lemma_env_probed,
    lemma_examined, lemma_framework_probed, lemma_grown, lemma_hip_sdk_probed,
    lemma_host_side_probed, lemma_kernel_log, lemma_library_env_probed, lemma_linux_driver_probed,
    lemma_linux_gpus_probed, lemma_linux_surroundings_probed, lemma_llama_on_path,
    lemma_lspci_probed, lemma_markers_probed, lemma_method_probed, lemma_modprobe_dir_probed,
    lemma_module_list, lemma_modules_probed, lemma_on_path, lemma_os_probed, lemma_package_probed,
    lemma_python_on_path, lemma_pytorch_probed, lemma_repo_dir_probed, lemma_rocm_install_probed,
    lemma_rocminfo_probed, lemma_sdk_root, lemma_sdk_version, lemma_shared_memory_probed,
    lemma_user_probed, lemma_variables_probed, lemma_windows_gpus_probed,
    lemma_windows_inventory_probed, lemma_wsl_probed, stands,
};
use crate::order::in_order;
use crate::platform::{cpu_linux_probed, cpu_windows_probed, linux_probed, os_probed};
use crate::probe::{
    examined, linux_driver_probed, linux_gpus_probed, linux_host_probed, linux_surroundings_probed,
    platform_probed, windows_host_probed, windows_inventory_probed, wsl_guest_probed,
};
use crate::rocminfo::rocminfo_probed;
use crate::split::{lines_of, pieces_of};
use crate::surroundings::{
    container_probed, env_probed, hip_lib_in, hip_libs_probed, kernel_log, log_probed,
    shared_memory_probed, tracked_env_vars, variable_recorded, variables_probed, SHM_PATH,
};
use crate::text::{after_prefix, trimmed};
use crate::windows::{
    adrenalin_probed, hip_sdk_probed, hipinfo_lines_probed, hipinfo_probed, hipinfo_question,
    msvc_probed, powershell_args, runtime_dirs, runtime_dlls, sdk_root, sdk_version,
    target_recorded, windows_gpus_probed, WIN_DRIVER_SCRIPT, WIN_GPU_SCRIPT,
};
use crate::wsl::{
    distro_names, distro_probed, host_side_probed, remote_args, remote_fields, remote_text,
    selected_distro, without_nul, wsl_probed, HostSideView,
};

verus! {

// ---------------------------------------------------------------------------
// The questions that a probe can ask
// ---------------------------------------------------------------------------

/// Whether a probe finished, or waits for a question of the set that the whole
/// host answers.
pub open spec fn asks_within<T>(
    whole: Host,
    r: Result<T, QuestionView>,
    d: Set<QuestionView>,
) -> bool {
    match r {
        Ok(_) => true,
        Err(q) => d.contains(q) && !is_open(whole, q),
    }
}

proof fn questions_of_any_file(
    h: Host,
    dir: Seq<char>,
    names: Seq<Seq<char>>,
) -> (d: Set<QuestionView>)
    ensures
        d.finite(),
        any_file(h, dir, names) is Ok ==> forall|part: Host|
            part.submap_of(h) ==> asks_within(h, #[trigger] any_file(part, dir, names), d),
    decreases names.len(),
{
    if names.len() == 0 {
        Set::empty()
    } else {
        let rest = questions_of_any_file(h, dir, names.skip(1));
        let d = rest.insert(QuestionView::FileIn { dir, name: names[0] });
        if any_file(h, dir, names) is Ok {
            assert forall|part: Host| part.submap_of(h) implies asks_within(
                h,
                #[trigger] any_file(part, dir, names),
                d,
            ) by {
                lemma_grown(part, h);
                assert(any_file(h, dir, names.skip(1)) is Ok ==> asks_within(
                    h,
                    any_file(part, dir, names.skip(1)),
                    rest,
                ));
            }
        }
        d
    }
}

proof fn questions_of_any_file_in(
    h: Host,
    dirs: Seq<Seq<char>>,
    names: Seq<Seq<char>>,
) -> (d: Set<QuestionView>)
    ensures
        d.finite(),
        any_file_in(h, dirs, names) is Ok ==> forall|part: Host|
            part.submap_of(h) ==> asks_within(h, #[trigger] any_file_in(part, dirs, names), d),
    decreases dirs.len(),
{
    if dirs.len() == 0 {
        Set::empty()
    } else {
        let first = questions_of_any_file(h, dirs[0], names);
        let rest = questions_of_any_file_in(h, dirs.skip(1), names);
        let d = first.union(rest);
        if any_file_in(h, dirs, names) is Ok {
            assert forall|part: Host| part.submap_of(h) implies asks_within(
                h,
                #[trigger] any_file_in(part, dirs, names),
                d,
            ) by {
                lemma_grown(part, h);
                lemma_any_file(part, h, dirs[0], names);
                assert(any_file_in(h, dirs.skip(1), names) is Ok ==> asks_within(
                    h,
                    any_file_in(part, dirs.skip(1), names),
                    rest,
                ));
            }
        }
        d
    }
}

proof fn questions_of_on_path(h: Host, program: Seq<char>) -> (d: Set<QuestionView>)
    ensures
        d.finite(),
        on_path(h, program) is Ok ==> forall|part: Host|
            part.submap_of(h) ==> asks_within(h, #[trigger] on_path(part, program), d),
{
    let path = optional_text_answer(h, QuestionView::EnvVar("PATH"@))->Ok_0->0;
    let os = platform_answer(h, QuestionView::Platform)->Ok_0;
    let dirs = pieces_of(path, path_separator(os));
    let files = questions_of_any_file_in(h, dirs, program_names(os, program));
    let d = files.insert(QuestionView::EnvVar("PATH"@)).insert(QuestionView::Platform);
    if on_path(h, program) is Ok {
        assert forall|part: Host| part.submap_of(h) implies asks_within(
            h,
            #[trigger] on_path(part, program),
            d,
        ) by {
            lemma_grown(part, h);
        }
    }
    d
}

proof fn questions_of_lspci_probed(h: Host, e: ExaminationView) -> (d: Set<QuestionView>)
    ensures
        d.finite(),
        lspci_probed(h, e) is Ok ==> forall|part: Host|
            part.submap_of(h) ==> asks_within(h, #[trigger] lspci_probed(part, e), d),
{
    let search = questions_of_on_path(h, "lspci"@);
    let d = search.insert(QuestionView::Run(plain_command("lspci"@, seq!["-nn"@, "-D"@], MEDIUM)));
    if lspci_probed(h, e) is Ok {
        assert forall|part: Host| part.submap_of(h) implies asks_within(
            h,
            #[trigger] lspci_probed(part, e),
            d,
        ) by {
            lemma_grown(part, h);
            lemma_on_path(part, h, "lspci"@);
        }
    }
    d
}

proof fn questions_of_rocminfo_probed(h: Host, e: ExaminationView) -> (d: Set<QuestionView>)
    ensures
        d.finite(),
        rocminfo_probed(h, e) is Ok ==> forall|part: Host|
            part.submap_of(h) ==> asks_within(h, #[trigger] rocminfo_probed(part, e), d),
{
    let search = questions_of_on_path(h, "rocminfo"@);
    let d = search.insert(QuestionView::Run(plain_command("rocminfo"@, Seq::empty(), 15)));
    if rocminfo_probed(h, e) is Ok {
        assert forall|part: Host| part.submap_of(h) implies asks_within(
            h,
            #[trigger] rocminfo_probed(part, e),
            d,
        ) by {
            lemma_grown(part, h);
            lemma_on_path(part, h, "rocminfo"@);
        }
    }
    d
}

proof fn questions_of_topology_probed(h: Host, e: ExaminationView) -> (d: Set<QuestionView>)
    ensures
        d.finite(),
        topology_probed(h, e) is Ok ==> forall|part: Host|
            part.submap_of(h) ==> asks_within(h, #[trigger] topology_probed(part, e), d),
{
    let d = set![QuestionView::SysfsGfxTarget];
    if topology_probed(h, e) is Ok {
        assert forall|part: Host| part.submap_of(h) implies asks_within(
            h,
            #[trigger] topology_probed(part, e),
            d,
        ) by {
            lemma_grown(part, h);
        }
    }
    d
}

proof fn questions_of_linux_probed(h: Host, e: ExaminationView) -> (d: Set<QuestionView>)
    ensures
        d.finite(),
        linux_probed(h, e) is Ok ==> forall|part: Host|
            part.submap_of(h) ==> asks_within(h, #[trigger] linux_probed(part, e), d),
{
    let d = set![
        QuestionView::Run(plain_command("uname"@, seq!["-v"@], SHORT)),
        QuestionView::Run(plain_command("uname"@, seq!["-r"@], SHORT)),
        QuestionView::ReadText("/proc/cmdline"@),
        QuestionView::ReadText("/etc/os-release"@),
        QuestionView::IsWslHost,
    ];
    if linux_probed(h, e) is Ok {
        assert forall|part: Host| part.submap_of(h) implies asks_within(
            h,
            #[trigger] linux_probed(part, e),
            d,
        ) by {
            lemma_grown(part, h);
        }
    }
    d
}

proof fn questions_of_os_probed(h: Host, e: ExaminationView) -> (d: Set<QuestionView>)
    ensures
        d.finite(),
        os_probed(h, e) is Ok ==> forall|part: Host|
            part.submap_of(h) ==> asks_within(h, #[trigger] os_probed(part, e), d),
{
    let linux = questions_of_linux_probed(h, e);
    let asked = set![
        QuestionView::Platform,
        QuestionView::Run(plain_command("cmd"@, seq!["/C"@, "ver"@], SHORT)),
    ];
    let d = linux.union(asked);
    if os_probed(h, e) is Ok {
        assert forall|part: Host| part.submap_of(h) implies asks_within(
            h,
            #[trigger] os_probed(part, e),
            d,
        ) by {
            lemma_grown(part, h);
        }
    }
    d
}

proof fn questions_of_cpu_linux_probed(h: Host, e: ExaminationView) -> (d: Set<QuestionView>)
    ensures
        d.finite(),
        cpu_linux_probed(h, e) is Ok ==> forall|part: Host|
            part.submap_of(h) ==> asks_within(h, #[trigger] cpu_linux_probed(part, e), d),
{
    let d = set![QuestionView::ReadText("/proc/cpuinfo"@)];
    if cpu_linux_probed(h, e) is Ok {
        assert forall|part: Host| part.submap_of(h) implies asks_within(
            h,
            #[trigger] cpu_linux_probed(part, e),
            d,
        ) by {
            lemma_grown(part, h);
        }
    }
    d
}

proof fn questions_of_cpu_windows_probed(h: Host, e: ExaminationView) -> (d: Set<QuestionView>)
    ensures
        d.finite(),
        cpu_windows_probed(h, e) is Ok ==> forall|part: Host|
            part.submap_of(h) ==> asks_within(h, #[trigger] cpu_windows_probed(part, e), d),
{
    let script = "(Get-CimInstance Win32_Processor | Select-Object -First 1).Name"@;
    let args = seq!["-NoProfile"@, "-Command"@, script];
    let d = set![QuestionView::Run(plain_command("powershell"@, args, MEDIUM))];
    if cpu_windows_probed(h, e) is Ok {
        assert forall|part: Host| part.submap_of(h) implies asks_within(
            h,
            #[trigger] cpu_windows_probed(part, e),
            d,
        ) by {
            lemma_grown(part, h);
        }
    }
    d
}

proof fn questions_of_blacklists_probed(
    h: Host,
    e: ExaminationView,
    entries: Seq<DirEntryView>,
) -> (d: Set<QuestionView>)
    ensures
        d.finite(),
        blacklists_probed(h, e, entries) is Ok ==> forall|part: Host|
            part.submap_of(h) ==> asks_within(h, #[trigger] blacklists_probed(part, e, entries), d),
    decreases entries.len(),
{
    if entries.len() == 0 {
        Set::empty()
    } else {
        let listed = with_blacklist(e, entries[0].path);
        let hit = questions_of_blacklists_probed(h, listed, entries.skip(1));
        let miss = questions_of_blacklists_probed(h, e, entries.skip(1));
        let d0 = if entry_blacklists(h, entries[0]) == Ok::<bool, QuestionView>(true) {
            hit
        } else {
            miss
        };
        let d = d0.insert(QuestionView::ReadText(entries[0].path));
        if blacklists_probed(h, e, entries) is Ok {
            assert forall|part: Host| part.submap_of(h) implies asks_within(
                h,
                #[trigger] blacklists_probed(part, e, entries),
                d,
            ) by {
                lemma_grown(part, h);
                assert(blacklists_probed(h, listed, entries.skip(1)) is Ok ==> asks_within(
                    h,
                    blacklists_probed(part, listed, entries.skip(1)),
                    hit,
                ));
                assert(blacklists_probed(h, e, entries.skip(1)) is Ok ==> asks_within(
                    h,
                    blacklists_probed(part, e, entries.skip(1)),
                    miss,
                ));
            }
        }
        d
    }
}

proof fn questions_of_modprobe_dir_probed(
    h: Host,
    e: ExaminationView,
    dir: Seq<char>,
) -> (d: Set<QuestionView>)
    ensures
        d.finite(),
        modprobe_dir_probed(h, e, dir) is Ok ==> forall|part: Host|
            part.submap_of(h) ==> asks_within(h, #[trigger] modprobe_dir_probed(part, e, dir), d),
{
    let entries = listing_answer(h, QuestionView::ListDir(dir))->Ok_0->0;
    let files = questions_of_blacklists_probed(h, e, entries);
    let d = files.insert(QuestionView::ListDir(dir));
    if modprobe_dir_probed(h, e, dir) is Ok {
        assert forall|part: Host| part.submap_of(h) implies asks_within(
            h,
            #[trigger] modprobe_dir_probed(part, e, dir),
            d,
        ) by {
            lemma_grown(part, h);
        }
    }
    d
}

proof fn questions_of_module_list(h: Host) -> (d: Set<QuestionView>)
    ensures
        d.finite(),
        module_list(h) is Ok ==> forall|part: Host|
            part.submap_of(h) ==> asks_within(h, #[trigger] module_list(part), d),
{
    let d = set![
        QuestionView::Run(plain_command("lsmod"@, Seq::empty(), SHORT)),
        QuestionView::ReadText("/proc/modules"@),
    ];
    if module_list(h) is Ok {
        assert forall|part: Host| part.submap_of(h) implies asks_within(
            h,
            #[trigger] module_list(part),
            d,
        ) by {
            lemma_grown(part, h);
        }
    }
    d
}

proof fn questions_of_modules_probed(h: Host, e: ExaminationView) -> (d: Set<QuestionView>)
    ensures
        d.finite(),
        modules_probed(h, e) is Ok ==> forall|part: Host|
            part.submap_of(h) ==> asks_within(h, #[trigger] modules_probed(part, e), d),
{
    let d0 = questions_of_module_list(h);
    let e1 = modules_recorded(e, module_list(h)->Ok_0);
    let d1 = questions_of_modprobe_dir_probed(h, e1, "/etc/modprobe.d"@);
    let e2 = modprobe_dir_probed(h, e1, "/etc/modprobe.d"@)->Ok_0;
    let d2 = questions_of_modprobe_dir_probed(h, e2, "/usr/lib/modprobe.d"@);
    let e3 = modprobe_dir_probed(h, e2, "/usr/lib/modprobe.d"@)->Ok_0;
    let d3 = questions_of_modprobe_dir_probed(h, e3, "/run/modprobe.d"@);
    let d = d0.union(d1).union(d2).union(d3);
    if modules_probed(h, e) is Ok {
        assert forall|part: Host| part.submap_of(h) implies asks_within(
            h,
            #[trigger] modules_probed(part, e),
            d,
        ) by {
            lemma_grown(part, h);
            lemma_module_list(part, h);
            lemma_modprobe_dir_probed(part, h, e1, "/etc/modprobe.d"@);
            lemma_modprobe_dir_probed(part, h, e2, "/usr/lib/modprobe.d"@);
        }
    }
    d
}

proof fn questions_of_device_stat(
    h: Host,
    path: Seq<char>,
    user: Seq<char>,
    groups: Seq<Seq<char>>,
) -> (d: Set<QuestionView>)
    ensures
        d.finite(),
        device_stat(h, path, user, groups) is Ok ==> forall|part: Host|
            part.submap_of(h) ==> asks_within(
                h,
                #[trigger] device_stat(part, path, user, groups),
                d,
            ),
{
    let d = set![
        QuestionView::Exists(path),
        QuestionView::Run(plain_command("stat"@, seq!["-c"@, "%A|%U|%G"@, path], SHORT)),
    ];
    if device_stat(h, path, user, groups) is Ok {
        assert forall|part: Host| part.submap_of(h) implies asks_within(
            h,
            #[trigger] device_stat(part, path, user, groups),
            d,
        ) by {
            lemma_grown(part, h);
        }
    }
    d
}

proof fn questions_of_render_probed(
    h: Host,
    e: ExaminationView,
    paths: Seq<Seq<char>>,
) -> (d: Set<QuestionView>)
    ensures
        d.finite(),
        render_probed(h, e, paths) is Ok ==> forall|part: Host|
            part.submap_of(h) ==> asks_within(h, #[trigger] render_probed(part, e, paths), d),
    decreases paths.len(),
{
    if paths.len() == 0 {
        Set::empty()
    } else {
        let first = questions_of_device_stat(h, paths[0], e.user_name, e.user_groups);
        let device = device_stat(h, paths[0], e.user_name, e.user_groups)->Ok_0;
        let next = with_render_device(e, device);
        let rest = questions_of_render_probed(h, next, paths.skip(1));
        let d = first.union(rest);
        if render_probed(h, e, paths) is Ok {
            assert forall|part: Host| part.submap_of(h) implies asks_within(
                h,
                #[trigger] render_probed(part, e, paths),
                d,
            ) by {
                lemma_grown(part, h);
                lemma_device_stat(part, h, paths[0], e.user_name, e.user_groups);
                assert(render_probed(h, next, paths.skip(1)) is Ok ==> asks_within(
                    h,
                    render_probed(part, next, paths.skip(1)),
                    rest,
                ));
            }
        }
        d
    }
}

proof fn questions_of_devices_probed(h: Host, e: ExaminationView) -> (d: Set<QuestionView>)
    ensures
        d.finite(),
        devices_probed(h, e) is Ok ==> forall|part: Host|
            part.submap_of(h) ==> asks_within(h, #[trigger] devices_probed(part, e), d),
{
    let d0 = questions_of_device_stat(h, "/dev/kfd"@, e.user_name, e.user_groups);
    let kfd = device_stat(h, "/dev/kfd"@, e.user_name, e.user_groups)->Ok_0;
    let e1 = ExaminationView { kfd: Some(kfd), ..e };
    let entries = listing_answer(h, QuestionView::ListDir("/dev/dri"@))->Ok_0->0;
    let d1 = questions_of_render_probed(h, e1, in_order(render_paths(entries)));
    let d = d0.union(d1).insert(QuestionView::ListDir("/dev/dri"@));
    if devices_probed(h, e) is Ok {
        assert forall|part: Host| part.submap_of(h) implies asks_within(
            h,
            #[trigger] devices_probed(part, e),
            d,
        ) by {
            lemma_grown(part, h);
            lemma_device_stat(part, h, "/dev/kfd"@, e.user_name, e.user_groups);
        }
    }
    d
}

proof fn questions_of_user_probed(h: Host, e: ExaminationView) -> (d: Set<QuestionView>)
    ensures
        d.finite(),
        user_probed(h, e) is Ok ==> forall|part: Host|
            part.submap_of(h) ==> asks_within(h, #[trigger] user_probed(part, e), d),
{
    let d = set![
        QuestionView::EnvVar("USER"@),
        QuestionView::EnvVar("LOGNAME"@),
        QuestionView::Run(plain_command("id"@, seq!["-Gn"@], 3)),
    ];
    if user_probed(h, e) is Ok {
        assert forall|part: Host| part.submap_of(h) implies asks_within(
            h,
            #[trigger] user_probed(part, e),
            d,
        ) by {
            lemma_grown(part, h);
        }
    }
    d
}

proof fn questions_of_secure_boot_probed(h: Host, e: ExaminationView) -> (d: Set<QuestionView>)
    ensures
        d.finite(),
        secure_boot_probed(h, e) is Ok ==> forall|part: Host|
            part.submap_of(h) ==> asks_within(h, #[trigger] secure_boot_probed(part, e), d),
{
    let search = questions_of_on_path(h, "mokutil"@);
    let d = search.insert(QuestionView::Run(plain_command("mokutil"@, seq!["--sb-state"@], 3)));
    if secure_boot_probed(h, e) is Ok {
        assert forall|part: Host| part.submap_of(h) implies asks_within(
            h,
            #[trigger] secure_boot_probed(part, e),
            d,
        ) by {
            lemma_grown(part, h);
            lemma_on_path(part, h, "mokutil"@);
        }
    }
    d
}

proof fn questions_of_markers_probed(
    h: Host,
    e: ExaminationView,
    markers: Seq<Seq<char>>,
) -> (d: Set<QuestionView>)
    ensures
        d.finite(),
        markers_probed(h, e, markers) is Ok ==> forall|part: Host|
            part.submap_of(h) ==> asks_within(h, #[trigger] markers_probed(part, e, markers), d),
    decreases markers.len(),
{
    if markers.len() == 0 {
        Set::empty()
    } else {
        let found = marker_recorded(e, markers[0]);
        let hit = questions_of_markers_probed(h, found, markers.skip(1));
        let miss = questions_of_markers_probed(h, e, markers.skip(1));
        let answer = flag_answer(h, QuestionView::Exists(markers[0]));
        let d0 = if answer == Ok::<bool, QuestionView>(true) {
            hit
        } else {
            miss
        };
        let d = d0.insert(QuestionView::Exists(markers[0]));
        if markers_probed(h, e, markers) is Ok {
            assert forall|part: Host| part.submap_of(h) implies asks_within(
                h,
                #[trigger] markers_probed(part, e, markers),
                d,
            ) by {
                lemma_grown(part, h);
                assert(markers_probed(h, found, markers.skip(1)) is Ok ==> asks_within(
                    h,
                    markers_probed(part, found, markers.skip(1)),
                    hit,
                ));
                assert(markers_probed(h, e, markers.skip(1)) is Ok ==> asks_within(
                    h,
                    markers_probed(part, e, markers.skip(1)),
                    miss,
                ));
            }
        }
        d
    }
}

proof fn questions_of_package_probed(
    h: Host,
    e: ExaminationView,
    manager: Seq<char>,
    flag: Seq<char>,
    method: Seq<char>,
) -> (d: Set<QuestionView>)
    ensures
        d.finite(),
        package_probed(h, e, manager, flag, method) is Ok ==> forall|part: Host|
            part.submap_of(h) ==> asks_within(
                h,
                #[trigger] package_probed(part, e, manager, flag, method),
                d,
            ),
{
    let search = questions_of_on_path(h, manager);
    let d = search.insert(
        QuestionView::Run(plain_command(manager, seq![flag, "rocm-hip-runtime"@], MEDIUM)),
    );
    if package_probed(h, e, manager, flag, method) is Ok {
        assert forall|part: Host| part.submap_of(h) implies asks_within(
            h,
            #[trigger] package_probed(part, e, manager, flag, method),
            d,
        ) by {
            lemma_grown(part, h);
            lemma_on_path(part, h, manager);
        }
    }
    d
}

proof fn questions_of_repo_dir_probed(
    h: Host,
    e: ExaminationView,
    dir: Seq<char>,
) -> (d: Set<QuestionView>)
    ensures
        d.finite(),
        repo_dir_probed(h, e, dir) is Ok ==> forall|part: Host|
            part.submap_of(h) ==> asks_within(h, #[trigger] repo_dir_probed(part, e, dir), d),
{
    let d = set![QuestionView::ListDir(dir)];
    if repo_dir_probed(h, e, dir) is Ok {
        assert forall|part: Host| part.submap_of(h) implies asks_within(
            h,
            #[trigger] repo_dir_probed(part, e, dir),
            d,
        ) by {
            lemma_grown(part, h);
        }
    }
    d
}

proof fn questions_of_method_probed(h: Host, e: ExaminationView) -> (d: Set<QuestionView>)
    ensures
        d.finite(),
        method_probed(h, e) is Ok ==> forall|part: Host|
            part.submap_of(h) ==> asks_within(h, #[trigger] method_probed(part, e), d),
{
    let d0 = questions_of_markers_probed(h, e, install_markers());
    let e1 = markers_probed(h, e, install_markers())->Ok_0;
    let d1 = questions_of_package_probed(h, e1, "dpkg"@, "-l"@, "apt"@);
    let e2 = package_probed(h, e1, "dpkg"@, "-l"@, "apt"@)->Ok_0;
    let d2 = questions_of_package_probed(h, e2, "rpm"@, "-q"@, "dnf"@);
    let d = d0.union(d1).union(d2);
    if method_probed(h, e) is Ok {
        assert forall|part: Host| part.submap_of(h) implies asks_within(
            h,
            #[trigger] method_probed(part, e),
            d,
        ) by {
            lemma_grown(part, h);
            lemma_markers_probed(part, h, e, install_markers());
            lemma_package_probed(part, h, e1, "dpkg"@, "-l"@, "apt"@);
        }
    }
    d
}

proof fn questions_of_rocm_install_probed(h: Host, e: ExaminationView) -> (d: Set<QuestionView>)
    ensures
        d.finite(),
        rocm_install_probed(h, e) is Ok ==> forall|part: Host|
            part.submap_of(h) ==> asks_within(h, #[trigger] rocm_install_probed(part, e), d),
{
    let install = install_answer(h, QuestionView::ActiveRocmInstall)->Ok_0;
    let e1 = install_recorded(e, install);
    let d1 = questions_of_method_probed(h, e1);
    let e2 = method_probed(h, e1)->Ok_0;
    let d2 = questions_of_repo_dir_probed(h, e2, "/etc/apt/sources.list.d"@);
    let e3 = repo_dir_probed(h, e2, "/etc/apt/sources.list.d"@)->Ok_0;
    let d3 = questions_of_repo_dir_probed(h, e3, "/etc/yum.repos.d"@);
    let d = d1.union(d2).union(d3).insert(QuestionView::ActiveRocmInstall);
    if rocm_install_probed(h, e) is Ok {
        assert forall|part: Host| part.submap_of(h) implies asks_within(
            h,
            #[trigger] rocm_install_probed(part, e),
            d,
        ) by {
            lemma_grown(part, h);
            lemma_method_probed(part, h, e1);
            lemma_repo_dir_probed(part, h, e2, "/etc/apt/sources.list.d"@);
        }
    }
    d
}

proof fn questions_of_library_env_probed(
    h: Host,
    e: ExaminationView,
    library_paths: Seq<Seq<char>>,
) -> (d: Set<QuestionView>)
    ensures
        d.finite(),
        library_env_probed(h, e, library_paths) is Ok ==> forall|part: Host|
            part.submap_of(h) ==> asks_within(
                h,
                #[trigger] library_env_probed(part, e, library_paths),
                d,
            ),
{
    let existing = paths_answer(h, QuestionView::LoaderPathEntries)->Ok_0;
    let entries = loader_entries(library_paths, existing);
    let d = set![QuestionView::LoaderPathEntries, QuestionView::JoinLoaderPath(entries)];
    if library_env_probed(h, e, library_paths) is Ok {
        assert forall|part: Host| part.submap_of(h) implies asks_within(
            h,
            #[trigger] library_env_probed(part, e, library_paths),
            d,
        ) by {
            lemma_grown(part, h);
        }
    }
    d
}

proof fn questions_of_runtime_torch_probed(
    h: Host,
    e: ExaminationView,
    interpreter: FrameworkInterpreterView,
) -> (d: Set<QuestionView>)
    ensures
        d.finite(),
        runtime_torch_probed(h, e, interpreter) is Ok ==> forall|part: Host|
            part.submap_of(h) ==> asks_within(
                h,
                #[trigger] runtime_torch_probed(part, e, interpreter),
                d,
            ),
{
    let noted = runtime_noted(e, interpreter.python);
    let d0 = questions_of_library_env_probed(h, noted, interpreter.library_paths);
    let composed = library_env_probed(h, noted, interpreter.library_paths)->Ok_0;
    let command = CommandView {
        program: interpreter.python,
        args: script_args(),
        envs: composed.1,
        timeout_secs: TORCH_SECS,
    };
    let d = d0.insert(QuestionView::Run(command));
    if runtime_torch_probed(h, e, interpreter) is Ok {
        assert forall|part: Host| part.submap_of(h) implies asks_within(
            h,
            #[trigger] runtime_torch_probed(part, e, interpreter),
            d,
        ) by {
            lemma_grown(part, h);
            lemma_library_env_probed(part, h, noted, interpreter.library_paths);
        }
    }
    d
}

proof fn questions_of_python_on_path(h: Host) -> (d: Set<QuestionView>)
    ensures
        d.finite(),
        python_on_path(h) is Ok ==> forall|part: Host|
            part.submap_of(h) ==> asks_within(h, #[trigger] python_on_path(part), d),
{
    let first = questions_of_on_path(h, "python"@);
    let second = questions_of_on_path(h, "python3"@);
    let d = first.union(second);
    if python_on_path(h) is Ok {
        assert forall|part: Host| part.submap_of(h) implies asks_within(
            h,
            #[trigger] python_on_path(part),
            d,
        ) by {
            lemma_grown(part, h);
            lemma_on_path(part, h, "python"@);
            lemma_on_path(part, h, "python3"@);
        }
    }
    d
}

proof fn questions_of_script_answer(h: Host, py: Seq<char>) -> (d: Set<QuestionView>)
    ensures
        d.finite(),
        script_answer(h, py) is Ok ==> forall|part: Host|
            part.submap_of(h) ==> asks_within(h, #[trigger] script_answer(part, py), d),
{
    let search = questions_of_on_path(h, "python3"@);
    let asked = set![
        QuestionView::Run(plain_command(py, script_args(), TORCH_SECS)),
        QuestionView::Run(plain_command("python3"@, script_args(), TORCH_SECS)),
    ];
    let d = search.union(asked);
    if script_answer(h, py) is Ok {
        assert forall|part: Host| part.submap_of(h) implies asks_within(
            h,
            #[trigger] script_answer(part, py),
            d,
        ) by {
            lemma_grown(part, h);
            lemma_on_path(part, h, "python3"@);
        }
    }
    d
}

proof fn questions_of_path_torch_probed(h: Host, e: ExaminationView) -> (d: Set<QuestionView>)
    ensures
        d.finite(),
        path_torch_probed(h, e) is Ok ==> forall|part: Host|
            part.submap_of(h) ==> asks_within(h, #[trigger] path_torch_probed(part, e), d),
{
    let search = questions_of_python_on_path(h);
    let script = questions_of_script_answer(h, python_on_path(h)->Ok_0->0);
    let d = search.union(script);
    if path_torch_probed(h, e) is Ok {
        assert forall|part: Host| part.submap_of(h) implies asks_within(
            h,
            #[trigger] path_torch_probed(part, e),
            d,
        ) by {
            lemma_grown(part, h);
            lemma_python_on_path(part, h);
        }
    }
    d
}

proof fn questions_of_pytorch_probed(
    h: Host,
    e: ExaminationView,
    interpreter: Option<FrameworkInterpreterView>,
) -> (d: Set<QuestionView>)
    ensures
        d.finite(),
        pytorch_probed(h, e, interpreter) is Ok ==> forall|part: Host|
            part.submap_of(h) ==> asks_within(
                h,
                #[trigger] pytorch_probed(part, e, interpreter),
                d,
            ),
{
    let runtime = questions_of_runtime_torch_probed(h, e, interpreter->0);
    let path = questions_of_path_torch_probed(h, e);
    let d = runtime.union(path);
    if pytorch_probed(h, e, interpreter) is Ok {
        assert forall|part: Host| part.submap_of(h) implies asks_within(
            h,
            #[trigger] pytorch_probed(part, e, interpreter),
            d,
        ) by {
            lemma_grown(part, h);
        }
    }
    d
}

proof fn questions_of_llama_on_path(h: Host) -> (d: Set<QuestionView>)
    ensures
        d.finite(),
        llama_on_path(h) is Ok ==> forall|part: Host|
            part.submap_of(h) ==> asks_within(h, #[trigger] llama_on_path(part), d),
{
    let first = questions_of_on_path(h, "llama-cli"@);
    let second = questions_of_on_path(h, "llama-server"@);
    let third = questions_of_on_path(h, "main"@);
    let d = first.union(second).union(third);
    if llama_on_path(h) is Ok {
        assert forall|part: Host| part.submap_of(h) implies asks_within(
            h,
            #[trigger] llama_on_path(part),
            d,
        ) by {
            lemma_grown(part, h);
            lemma_on_path(part, h, "llama-cli"@);
            lemma_on_path(part, h, "llama-server"@);
            lemma_on_path(part, h, "main"@);
        }
    }
    d
}

proof fn questions_of_llama_probed(h: Host, e: ExaminationView) -> (d: Set<QuestionView>)
    ensures
        d.finite(),
        llama_probed(h, e) is Ok ==> forall|part: Host|
            part.submap_of(h) ==> asks_within(h, #[trigger] llama_probed(part, e), d),
{
    let search = questions_of_llama_on_path(h);
    let binary = llama_on_path(h)->Ok_0->0;
    let d = search.insert(QuestionView::Run(plain_command(binary, seq!["--version"@], 10)));
    if llama_probed(h, e) is Ok {
        assert forall|part: Host| part.submap_of(h) implies asks_within(
            h,
            #[trigger] llama_probed(part, e),
            d,
        ) by {
            lemma_grown(part, h);
            lemma_llama_on_path(part, h);
        }
    }
    d
}

proof fn questions_of_either_probed(
    h: Host,
    e: ExaminationView,
    interpreter: Option<FrameworkInterpreterView>,
) -> (d: Set<QuestionView>)
    ensures
        d.finite(),
        either_probed(h, e, interpreter) is Ok ==> forall|part: Host|
            part.submap_of(h) ==> asks_within(h, #[trigger] either_probed(part, e, interpreter), d),
{
    let search = questions_of_python_on_path(h);
    let torch = questions_of_pytorch_probed(h, e, interpreter);
    let llama = questions_of_llama_probed(h, e);
    let asked = pytorch_probed(h, e, interpreter)->Ok_0;
    let later = questions_of_llama_probed(h, asked);
    let d = search.union(torch).union(llama).union(later);
    if either_probed(h, e, interpreter) is Ok {
        assert forall|part: Host| part.submap_of(h) implies asks_within(
            h,
            #[trigger] either_probed(part, e, interpreter),
            d,
        ) by {
            lemma_grown(part, h);
            lemma_python_on_path(part, h);
            lemma_pytorch_probed(part, h, e, interpreter);
        }
    }
    d
}

proof fn questions_of_framework_probed(
    h: Host,
    e: ExaminationView,
    framework: FrameworkProbe,
    interpreter: Option<FrameworkInterpreterView>,
) -> (d: Set<QuestionView>)
    ensures
        d.finite(),
        framework_probed(h, e, framework, interpreter) is Ok ==> forall|part: Host|
            part.submap_of(h) ==> asks_within(
                h,
                #[trigger] framework_probed(part, e, framework, interpreter),
                d,
            ),
{
    let torch = questions_of_pytorch_probed(h, e, interpreter);
    let llama = questions_of_llama_probed(h, e);
    let either = questions_of_either_probed(h, e, interpreter);
    let d = torch.union(llama).union(either);
    if framework_probed(h, e, framework, interpreter) is Ok {
        assert forall|part: Host| part.submap_of(h) implies asks_within(
            h,
            #[trigger] framework_probed(part, e, framework, interpreter),
            d,
        ) by {
            lemma_grown(part, h);
        }
    }
    d
}

proof fn questions_of_variables_probed(
    h: Host,
    e: ExaminationView,
    keys: Seq<Seq<char>>,
) -> (d: Set<QuestionView>)
    ensures
        d.finite(),
        variables_probed(h, e, keys) is Ok ==> forall|part: Host|
            part.submap_of(h) ==> asks_within(h, #[trigger] variables_probed(part, e, keys), d),
    decreases keys.len(),
{
    if keys.len() == 0 {
        Set::empty()
    } else {
        let value = optional_text_answer(h, QuestionView::EnvVar(keys[0]))->Ok_0;
        let next = variable_recorded(e, keys[0], value);
        let rest = questions_of_variables_probed(h, next, keys.skip(1));
        let d = rest.insert(QuestionView::EnvVar(keys[0]));
        if variables_probed(h, e, keys) is Ok {
            assert forall|part: Host| part.submap_of(h) implies asks_within(
                h,
                #[trigger] variables_probed(part, e, keys),
                d,
            ) by {
                lemma_grown(part, h);
                assert(variables_probed(h, next, keys.skip(1)) is Ok ==> asks_within(
                    h,
                    variables_probed(part, next, keys.skip(1)),
                    rest,
                ));
            }
        }
        d
    }
}

proof fn questions_of_hip_lib_in(h: Host, dirs: Seq<Seq<char>>) -> (d: Set<QuestionView>)
    ensures
        d.finite(),
        hip_lib_in(h, dirs) is Ok ==> forall|part: Host|
            part.submap_of(h) ==> asks_within(h, #[trigger] hip_lib_in(part, dirs), d),
    decreases dirs.len(),
{
    if dirs.len() == 0 {
        Set::empty()
    } else {
        let rest = questions_of_hip_lib_in(h, dirs.skip(1));
        let d = rest.insert(QuestionView::ListDir(dirs[0]));
        if hip_lib_in(h, dirs) is Ok {
            assert forall|part: Host| part.submap_of(h) implies asks_within(
                h,
                #[trigger] hip_lib_in(part, dirs),
                d,
            ) by {
                lemma_grown(part, h);
                assert(hip_lib_in(h, dirs.skip(1)) is Ok ==> asks_within(
                    h,
                    hip_lib_in(part, dirs.skip(1)),
                    rest,
                ));
            }
        }
        d
    }
}

proof fn questions_of_hip_libs_probed(h: Host, e: ExaminationView) -> (d: Set<QuestionView>)
    ensures
        d.finite(),
        hip_libs_probed(h, e) is Ok ==> forall|part: Host|
            part.submap_of(h) ==> asks_within(h, #[trigger] hip_libs_probed(part, e), d),
{
    let value = optional_text_answer(h, QuestionView::EnvVar("LD_LIBRARY_PATH"@))->Ok_0;
    let ld = match value {
        Some(ld) => ld,
        None => Seq::empty(),
    };
    let dirs = questions_of_hip_lib_in(h, pieces_of(ld, ':'));
    let d = dirs.insert(QuestionView::EnvVar("LD_LIBRARY_PATH"@));
    if hip_libs_probed(h, e) is Ok {
        assert forall|part: Host| part.submap_of(h) implies asks_within(
            h,
            #[trigger] hip_libs_probed(part, e),
            d,
        ) by {
            lemma_grown(part, h);
        }
    }
    d
}

proof fn questions_of_env_probed(h: Host, e: ExaminationView) -> (d: Set<QuestionView>)
    ensures
        d.finite(),
        env_probed(h, e) is Ok ==> forall|part: Host|
            part.submap_of(h) ==> asks_within(h, #[trigger] env_probed(part, e), d),
{
    let d0 = questions_of_variables_probed(h, e, tracked_env_vars());
    let e1 = variables_probed(h, e, tracked_env_vars())->Ok_0;
    let d1 = questions_of_hip_libs_probed(h, e1);
    let d = d0.union(d1);
    if env_probed(h, e) is Ok {
        assert forall|part: Host| part.submap_of(h) implies asks_within(
            h,
            #[trigger] env_probed(part, e),
            d,
        ) by {
            lemma_grown(part, h);
            lemma_variables_probed(part, h, e, tracked_env_vars());
        }
    }
    d
}

proof fn questions_of_shared_memory_probed(
    h: Host,
    e: ExaminationView,
    path: Seq<char>,
) -> (d: Set<QuestionView>)
    ensures
        d.finite(),
        shared_memory_probed(h, e, path) is Ok ==> forall|part: Host|
            part.submap_of(h) ==> asks_within(h, #[trigger] shared_memory_probed(part, e, path), d),
{
    let d = set![QuestionView::Filesystem(path)];
    if shared_memory_probed(h, e, path) is Ok {
        assert forall|part: Host| part.submap_of(h) implies asks_within(
            h,
            #[trigger] shared_memory_probed(part, e, path),
            d,
        ) by {
            lemma_grown(part, h);
        }
    }
    d
}

proof fn questions_of_container_probed(h: Host, e: ExaminationView) -> (d: Set<QuestionView>)
    ensures
        d.finite(),
        container_probed(h, e) is Ok ==> forall|part: Host|
            part.submap_of(h) ==> asks_within(h, #[trigger] container_probed(part, e), d),
{
    let d = set![
        QuestionView::Exists("/.dockerenv"@),
        QuestionView::Exists("/run/.containerenv"@),
        QuestionView::ReadText("/proc/1/cgroup"@),
    ];
    if container_probed(h, e) is Ok {
        assert forall|part: Host| part.submap_of(h) implies asks_within(
            h,
            #[trigger] container_probed(part, e),
            d,
        ) by {
            lemma_grown(part, h);
        }
    }
    d
}

proof fn questions_of_kernel_log(h: Host) -> (d: Set<QuestionView>)
    ensures
        d.finite(),
        kernel_log(h) is Ok ==> forall|part: Host|
            part.submap_of(h) ==> asks_within(h, #[trigger] kernel_log(part), d),
{
    let args = seq!["-k"@, "--no-pager"@, "-n"@, "400"@];
    let d = set![
        QuestionView::Run(plain_command("journalctl"@, args, MEDIUM)),
        QuestionView::Run(plain_command("dmesg"@, Seq::empty(), SHORT)),
    ];
    if kernel_log(h) is Ok {
        assert forall|part: Host| part.submap_of(h) implies asks_within(
            h,
            #[trigger] kernel_log(part),
            d,
        ) by {
            lemma_grown(part, h);
        }
    }
    d
}

proof fn questions_of_log_probed(h: Host, e: ExaminationView) -> (d: Set<QuestionView>)
    ensures
        d.finite(),
        log_probed(h, e) is Ok ==> forall|part: Host|
            part.submap_of(h) ==> asks_within(h, #[trigger] log_probed(part, e), d),
{
    let log = questions_of_kernel_log(h);
    let d = log;
    if log_probed(h, e) is Ok {
        assert forall|part: Host| part.submap_of(h) implies asks_within(
            h,
            #[trigger] log_probed(part, e),
            d,
        ) by {
            lemma_grown(part, h);
            lemma_kernel_log(part, h);
        }
    }
    d
}

proof fn questions_of_windows_gpus_probed(h: Host, e: ExaminationView) -> (d: Set<QuestionView>)
    ensures
        d.finite(),
        windows_gpus_probed(h, e) is Ok ==> forall|part: Host|
            part.submap_of(h) ==> asks_within(h, #[trigger] windows_gpus_probed(part, e), d),
{
    let d = set![
        QuestionView::Run(plain_command("powershell"@, powershell_args(WIN_GPU_SCRIPT@), MEDIUM)),
    ];
    if windows_gpus_probed(h, e) is Ok {
        assert forall|part: Host| part.submap_of(h) implies asks_within(
            h,
            #[trigger] windows_gpus_probed(part, e),
            d,
        ) by {
            lemma_grown(part, h);
        }
    }
    d
}

proof fn questions_of_hipinfo_lines_probed(
    h: Host,
    e: ExaminationView,
    lines: Seq<Seq<char>>,
) -> (d: Set<QuestionView>)
    ensures
        d.finite(),
        hipinfo_lines_probed(h, e, lines) is Ok ==> forall|part: Host|
            part.submap_of(h) ==> asks_within(
                h,
                #[trigger] hipinfo_lines_probed(part, e, lines),
                d,
            ),
    decreases lines.len(),
{
    if lines.len() == 0 {
        Set::empty()
    } else {
        let rest = after_prefix(trimmed(lines[0]), "gcnArchName:"@)->0;
        let gfx = optional_text_answer(h, QuestionView::FirstGfxToken(rest))->Ok_0->0;
        let next = target_recorded(e, gfx);
        let hit = questions_of_hipinfo_lines_probed(h, next, lines.skip(1));
        let miss = questions_of_hipinfo_lines_probed(h, e, lines.skip(1));
        let d = hit.union(miss).insert(QuestionView::FirstGfxToken(rest));
        if hipinfo_lines_probed(h, e, lines) is Ok {
            assert forall|part: Host| part.submap_of(h) implies asks_within(
                h,
                #[trigger] hipinfo_lines_probed(part, e, lines),
                d,
            ) by {
                lemma_grown(part, h);
                assert(hipinfo_lines_probed(h, next, lines.skip(1)) is Ok ==> asks_within(
                    h,
                    hipinfo_lines_probed(part, next, lines.skip(1)),
                    hit,
                ));
                assert(hipinfo_lines_probed(h, e, lines.skip(1)) is Ok ==> asks_within(
                    h,
                    hipinfo_lines_probed(part, e, lines.skip(1)),
                    miss,
                ));
            }
        }
        d
    }
}

proof fn questions_of_hipinfo_probed(
    h: Host,
    e: ExaminationView,
    root: Seq<char>,
) -> (d: Set<QuestionView>)
    ensures
        d.finite(),
        hipinfo_probed(h, e, root) is Ok ==> forall|part: Host|
            part.submap_of(h) ==> asks_within(h, #[trigger] hipinfo_probed(part, e, root), d),
{
    let program = optional_text_answer(h, hipinfo_question(root))->Ok_0->0;
    let command = plain_command(program, Seq::empty(), 15);
    let out = output_answer(h, command)->Ok_0;
    let e1 = ExaminationView { hipinfo_present: true, hipinfo_status: "ok"@, ..e };
    let lines = questions_of_hipinfo_lines_probed(h, e1, lines_of(out.stdout));
    let d = lines.insert(hipinfo_question(root)).insert(QuestionView::Run(command));
    if hipinfo_probed(h, e, root) is Ok {
        assert forall|part: Host| part.submap_of(h) implies asks_within(
            h,
            #[trigger] hipinfo_probed(part, e, root),
            d,
        ) by {
            lemma_grown(part, h);
        }
    }
    d
}

proof fn questions_of_sdk_root(h: Host) -> (d: Set<QuestionView>)
    ensures
        d.finite(),
        sdk_root(h) is Ok ==> forall|part: Host|
            part.submap_of(h) ==> asks_within(h, #[trigger] sdk_root(part), d),
{
    let named = optional_text_answer(h, QuestionView::EnvVar("HIP_PATH"@))->Ok_0->0;
    let install = install_answer(h, QuestionView::ActiveRocmInstall)->Ok_0->0;
    let d = set![
        QuestionView::EnvVar("HIP_PATH"@),
        QuestionView::ActiveRocmInstall,
        QuestionView::IsDir(named),
        QuestionView::IsDir(install.path),
    ];
    if sdk_root(h) is Ok {
        assert forall|part: Host| part.submap_of(h) implies asks_within(
            h,
            #[trigger] sdk_root(part),
            d,
        ) by {
            lemma_grown(part, h);
        }
    }
    d
}

proof fn questions_of_sdk_version(h: Host, root: Seq<char>) -> (d: Set<QuestionView>)
    ensures
        d.finite(),
        sdk_version(h, root) is Ok ==> forall|part: Host|
            part.submap_of(h) ==> asks_within(h, #[trigger] sdk_version(part, root), d),
{
    let d = set![QuestionView::RocmInstallVersion(root), QuestionView::FileName(root)];
    if sdk_version(h, root) is Ok {
        assert forall|part: Host| part.submap_of(h) implies asks_within(
            h,
            #[trigger] sdk_version(part, root),
            d,
        ) by {
            lemma_grown(part, h);
        }
    }
    d
}

proof fn questions_of_hip_sdk_probed(h: Host, e: ExaminationView) -> (d: Set<QuestionView>)
    ensures
        d.finite(),
        hip_sdk_probed(h, e) is Ok ==> forall|part: Host|
            part.submap_of(h) ==> asks_within(h, #[trigger] hip_sdk_probed(part, e), d),
{
    let d0 = questions_of_sdk_root(h);
    let root = sdk_root(h)->Ok_0;
    let d1 = questions_of_sdk_version(h, root);
    let version = sdk_version(h, root)->Ok_0;
    let e1 = ExaminationView { hip_sdk_path: root, hip_sdk_version: version, ..e };
    let d2 = questions_of_hipinfo_probed(h, e1, root);
    let d = d0.union(d1).union(d2);
    if hip_sdk_probed(h, e) is Ok {
        assert forall|part: Host| part.submap_of(h) implies asks_within(
            h,
            #[trigger] hip_sdk_probed(part, e),
            d,
        ) by {
            lemma_grown(part, h);
            lemma_sdk_root(part, h);
            lemma_sdk_version(part, h, root);
        }
    }
    d
}

proof fn questions_of_adrenalin_probed(h: Host, e: ExaminationView) -> (d: Set<QuestionView>)
    ensures
        d.finite(),
        adrenalin_probed(h, e) is Ok ==> forall|part: Host|
            part.submap_of(h) ==> asks_within(h, #[trigger] adrenalin_probed(part, e), d),
{
    let script = powershell_args(WIN_DRIVER_SCRIPT@);
    let d = set![QuestionView::Run(plain_command("powershell"@, script, MEDIUM))];
    if adrenalin_probed(h, e) is Ok {
        assert forall|part: Host| part.submap_of(h) implies asks_within(
            h,
            #[trigger] adrenalin_probed(part, e),
            d,
        ) by {
            lemma_grown(part, h);
        }
    }
    d
}

proof fn questions_of_msvc_probed(h: Host, e: ExaminationView) -> (d: Set<QuestionView>)
    ensures
        d.finite(),
        msvc_probed(h, e) is Ok ==> forall|part: Host|
            part.submap_of(h) ==> asks_within(h, #[trigger] msvc_probed(part, e), d),
{
    let path = optional_text_answer(h, QuestionView::EnvVar("PATH"@))->Ok_0;
    let files = questions_of_any_file_in(h, runtime_dirs(path), runtime_dlls());
    let d = files.insert(QuestionView::EnvVar("PATH"@));
    if msvc_probed(h, e) is Ok {
        assert forall|part: Host| part.submap_of(h) implies asks_within(
            h,
            #[trigger] msvc_probed(part, e),
            d,
        ) by {
            lemma_grown(part, h);
        }
    }
    d
}

proof fn questions_of_wsl_probed(h: Host, e: ExaminationView) -> (d: Set<QuestionView>)
    ensures
        d.finite(),
        wsl_probed(h, e) is Ok ==> forall|part: Host|
            part.submap_of(h) ==> asks_within(h, #[trigger] wsl_probed(part, e), d),
{
    let search = questions_of_on_path(h, "rocminfo"@);
    let asked = set![
        QuestionView::WslPlumbing,
        QuestionView::WslHostDriver,
        QuestionView::IsWsl1Kernel(e.kernel_release),
        QuestionView::IsDir("/usr/lib/wsl/lib"@),
        QuestionView::LdconfigListsRocdxg,
        QuestionView::Run(plain_command("rocminfo"@, Seq::empty(), MEDIUM)),
    ];
    let d = search.union(asked);
    if wsl_probed(h, e) is Ok {
        assert forall|part: Host| part.submap_of(h) implies asks_within(
            h,
            #[trigger] wsl_probed(part, e),
            d,
        ) by {
            lemma_grown(part, h);
            lemma_on_path(part, h, "rocminfo"@);
        }
    }
    d
}

proof fn questions_of_linux_gpus_probed(h: Host, e: ExaminationView) -> (d: Set<QuestionView>)
    ensures
        d.finite(),
        linux_gpus_probed(h, e) is Ok ==> forall|part: Host|
            part.submap_of(h) ==> asks_within(h, #[trigger] linux_gpus_probed(part, e), d),
{
    let d0 = questions_of_cpu_linux_probed(h, e);
    let e1 = cpu_linux_probed(h, e)->Ok_0;
    let d1 = questions_of_lspci_probed(h, e1);
    let e2 = lspci_probed(h, e1)->Ok_0;
    let d2 = questions_of_rocminfo_probed(h, e2);
    let e3 = rocminfo_probed(h, e2)->Ok_0;
    let d3 = questions_of_topology_probed(h, e3);
    let d = d0.union(d1).union(d2).union(d3);
    if linux_gpus_probed(h, e) is Ok {
        assert forall|part: Host| part.submap_of(h) implies asks_within(
            h,
            #[trigger] linux_gpus_probed(part, e),
            d,
        ) by {
            lemma_grown(part, h);
            lemma_cpu_linux_probed(part, h, e);
            lemma_lspci_probed(part, h, e1);
            lemma_rocminfo_probed(part, h, e2);
        }
    }
    d
}

proof fn questions_of_linux_driver_probed(h: Host, e: ExaminationView) -> (d: Set<QuestionView>)
    ensures
        d.finite(),
        linux_driver_probed(h, e) is Ok ==> forall|part: Host|
            part.submap_of(h) ==> asks_within(h, #[trigger] linux_driver_probed(part, e), d),
{
    let d0 = questions_of_modules_probed(h, e);
    let e1 = modules_probed(h, e)->Ok_0;
    let d1 = questions_of_user_probed(h, e1);
    let e2 = user_probed(h, e1)->Ok_0;
    let d2 = questions_of_devices_probed(h, e2);
    let e3 = devices_probed(h, e2)->Ok_0;
    let d3 = questions_of_secure_boot_probed(h, e3);
    let d = d0.union(d1).union(d2).union(d3);
    if linux_driver_probed(h, e) is Ok {
        assert forall|part: Host| part.submap_of(h) implies asks_within(
            h,
            #[trigger] linux_driver_probed(part, e),
            d,
        ) by {
            lemma_grown(part, h);
            lemma_modules_probed(part, h, e);
            lemma_user_probed(part, h, e1);
            lemma_devices_probed(part, h, e2);
        }
    }
    d
}

proof fn questions_of_linux_surroundings_probed(
    h: Host,
    e: ExaminationView,
) -> (d: Set<QuestionView>)
    ensures
        d.finite(),
        linux_surroundings_probed(h, e) is Ok ==> forall|part: Host|
            part.submap_of(h) ==> asks_within(h, #[trigger] linux_surroundings_probed(part, e), d),
{
    let d0 = questions_of_rocm_install_probed(h, e);
    let e1 = rocm_install_probed(h, e)->Ok_0;
    let d1 = questions_of_env_probed(h, e1);
    let e2 = env_probed(h, e1)->Ok_0;
    let d2 = questions_of_container_probed(h, e2);
    let e3 = container_probed(h, e2)->Ok_0;
    let d3 = questions_of_shared_memory_probed(h, e3, SHM_PATH@);
    let e4 = shared_memory_probed(h, e3, SHM_PATH@)->Ok_0;
    let d4 = questions_of_log_probed(h, e4);
    let d = d0.union(d1).union(d2).union(d3).union(d4);
    if linux_surroundings_probed(h, e) is Ok {
        assert forall|part: Host| part.submap_of(h) implies asks_within(
            h,
            #[trigger] linux_surroundings_probed(part, e),
            d,
        ) by {
            lemma_grown(part, h);
            lemma_rocm_install_probed(part, h, e);
            lemma_env_probed(part, h, e1);
            lemma_container_probed(part, h, e2);
            lemma_shared_memory_probed(part, h, e3, SHM_PATH@);
        }
    }
    d
}

proof fn questions_of_linux_host_probed(
    h: Host,
    e: ExaminationView,
    framework: FrameworkProbe,
    interpreter: Option<FrameworkInterpreterView>,
) -> (d: Set<QuestionView>)
    ensures
        d.finite(),
        linux_host_probed(h, e, framework, interpreter) is Ok ==> forall|part: Host|
            part.submap_of(h) ==> asks_within(
                h,
                #[trigger] linux_host_probed(part, e, framework, interpreter),
                d,
            ),
{
    let d0 = questions_of_linux_gpus_probed(h, e);
    let e1 = linux_gpus_probed(h, e)->Ok_0;
    let d1 = questions_of_linux_driver_probed(h, e1);
    let e2 = linux_driver_probed(h, e1)->Ok_0;
    let d2 = questions_of_linux_surroundings_probed(h, e2);
    let e3 = linux_surroundings_probed(h, e2)->Ok_0;
    let d3 = questions_of_framework_probed(h, e3, framework, interpreter);
    let d = d0.union(d1).union(d2).union(d3);
    if linux_host_probed(h, e, framework, interpreter) is Ok {
        assert forall|part: Host| part.submap_of(h) implies asks_within(
            h,
            #[trigger] linux_host_probed(part, e, framework, interpreter),
            d,
        ) by {
            lemma_grown(part, h);
            lemma_linux_gpus_probed(part, h, e);
            lemma_linux_driver_probed(part, h, e1);
            lemma_linux_surroundings_probed(part, h, e2);
        }
    }
    d
}

proof fn questions_of_windows_inventory_probed(
    h: Host,
    e: ExaminationView,
) -> (d: Set<QuestionView>)
    ensures
        d.finite(),
        windows_inventory_probed(h, e) is Ok ==> forall|part: Host|
            part.submap_of(h) ==> asks_within(h, #[trigger] windows_inventory_probed(part, e), d),
{
    let d0 = questions_of_cpu_windows_probed(h, e);
    let e1 = cpu_windows_probed(h, e)->Ok_0;
    let d1 = questions_of_windows_gpus_probed(h, e1);
    let e2 = windows_gpus_probed(h, e1)->Ok_0;
    let d2 = questions_of_hip_sdk_probed(h, e2);
    let e3 = hip_sdk_probed(h, e2)->Ok_0;
    let d3 = questions_of_adrenalin_probed(h, e3);
    let e4 = adrenalin_probed(h, e3)->Ok_0;
    let d4 = questions_of_msvc_probed(h, e4);
    let d = d0.union(d1).union(d2).union(d3).union(d4);
    if windows_inventory_probed(h, e) is Ok {
        assert forall|part: Host| part.submap_of(h) implies asks_within(
            h,
            #[trigger] windows_inventory_probed(part, e),
            d,
        ) by {
            lemma_grown(part, h);
            lemma_cpu_windows_probed(part, h, e);
            lemma_windows_gpus_probed(part, h, e1);
            lemma_hip_sdk_probed(part, h, e2);
            lemma_adrenalin_probed(part, h, e3);
        }
    }
    d
}

proof fn questions_of_windows_host_probed(
    h: Host,
    e: ExaminationView,
    framework: FrameworkProbe,
    interpreter: Option<FrameworkInterpreterView>,
) -> (d: Set<QuestionView>)
    ensures
        d.finite(),
        windows_host_probed(h, e, framework, interpreter) is Ok ==> forall|part: Host|
            part.submap_of(h) ==> asks_within(
                h,
                #[trigger] windows_host_probed(part, e, framework, interpreter),
                d,
            ),
{
    let d0 = questions_of_windows_inventory_probed(h, e);
    let e1 = windows_inventory_probed(h, e)->Ok_0;
    let d1 = questions_of_env_probed(h, e1);
    let e2 = env_probed(h, e1)->Ok_0;
    let d2 = questions_of_framework_probed(h, e2, framework, interpreter);
    let d = d0.union(d1).union(d2);
    if windows_host_probed(h, e, framework, interpreter) is Ok {
        assert forall|part: Host| part.submap_of(h) implies asks_within(
            h,
            #[trigger] windows_host_probed(part, e, framework, interpreter),
            d,
        ) by {
            lemma_grown(part, h);
            lemma_windows_inventory_probed(part, h, e);
            lemma_env_probed(part, h, e1);
        }
    }
    d
}

proof fn questions_of_wsl_guest_probed(
    h: Host,
    e: ExaminationView,
    framework: FrameworkProbe,
    interpreter: Option<FrameworkInterpreterView>,
) -> (d: Set<QuestionView>)
    ensures
        d.finite(),
        wsl_guest_probed(h, e, framework, interpreter) is Ok ==> forall|part: Host|
            part.submap_of(h) ==> asks_within(
                h,
                #[trigger] wsl_guest_probed(part, e, framework, interpreter),
                d,
            ),
{
    let d0 = questions_of_wsl_probed(h, e);
    let e1 = wsl_probed(h, e)->Ok_0;
    let d1 = questions_of_rocm_install_probed(h, e1);
    let e2 = rocm_install_probed(h, e1)->Ok_0;
    let d2 = questions_of_env_probed(h, e2);
    let e3 = env_probed(h, e2)->Ok_0;
    let d3 = questions_of_container_probed(h, e3);
    let e4 = container_probed(h, e3)->Ok_0;
    let d4 = questions_of_framework_probed(h, e4, framework, interpreter);
    let e5 = framework_probed(h, e4, framework, interpreter)->Ok_0;
    let d5 = questions_of_shared_memory_probed(h, e5, SHM_PATH@);
    let d = d0.union(d1).union(d2).union(d3).union(d4).union(d5);
    if wsl_guest_probed(h, e, framework, interpreter) is Ok {
        assert forall|part: Host| part.submap_of(h) implies asks_within(
            h,
            #[trigger] wsl_guest_probed(part, e, framework, interpreter),
            d,
        ) by {
            lemma_grown(part, h);
            lemma_wsl_probed(part, h, e);
            lemma_rocm_install_probed(part, h, e1);
            lemma_env_probed(part, h, e2);
            lemma_container_probed(part, h, e3);
            lemma_framework_probed(part, h, e4, framework, interpreter);
        }
    }
    d
}

proof fn questions_of_platform_probed(
    h: Host,
    e: ExaminationView,
    framework: FrameworkProbe,
    interpreter: Option<FrameworkInterpreterView>,
) -> (d: Set<QuestionView>)
    ensures
        d.finite(),
        platform_probed(h, e, framework, interpreter) is Ok ==> forall|part: Host|
            part.submap_of(h) ==> asks_within(
                h,
                #[trigger] platform_probed(part, e, framework, interpreter),
                d,
            ),
{
    let guest = questions_of_wsl_guest_probed(h, e, framework, interpreter);
    let linux = questions_of_linux_host_probed(h, e, framework, interpreter);
    let windows = questions_of_windows_host_probed(h, e, framework, interpreter);
    let d = guest.union(linux).union(windows);
    if platform_probed(h, e, framework, interpreter) is Ok {
        assert forall|part: Host| part.submap_of(h) implies asks_within(
            h,
            #[trigger] platform_probed(part, e, framework, interpreter),
            d,
        ) by {
            lemma_grown(part, h);
        }
    }
    d
}

proof fn questions_of_examined(
    h: Host,
    framework: FrameworkProbe,
    interpreter: Option<FrameworkInterpreterView>,
) -> (d: Set<QuestionView>)
    ensures
        d.finite(),
        examined(h, framework, interpreter) is Ok ==> forall|part: Host|
            part.submap_of(h) ==> asks_within(
                h,
                #[trigger] examined(part, framework, interpreter),
                d,
            ),
{
    let d0 = questions_of_os_probed(h, unexamined());
    let e = os_probed(h, unexamined())->Ok_0;
    let d1 = questions_of_platform_probed(h, e, framework, interpreter);
    let d = d0.union(d1);
    if examined(h, framework, interpreter) is Ok {
        assert forall|part: Host| part.submap_of(h) implies asks_within(
            h,
            #[trigger] examined(part, framework, interpreter),
            d,
        ) by {
            lemma_grown(part, h);
            lemma_os_probed(part, h, unexamined());
        }
    }
    d
}

proof fn questions_of_distro_probed(h: Host, selected: Seq<char>) -> (d: Set<QuestionView>)
    ensures
        d.finite(),
        distro_probed(h, selected) is Ok ==> forall|part: Host|
            part.submap_of(h) ==> asks_within(h, #[trigger] distro_probed(part, selected), d),
{
    let command = plain_command("wsl.exe"@, remote_args(selected), 30);
    let fields = remote_fields(lines_of(output_answer(h, command)->Ok_0.stdout));
    let d = set![
        QuestionView::Run(command),
        QuestionView::LocalHostDriver,
        QuestionView::IsWsl1Kernel(remote_text(fields, "kernel"@)),
    ];
    if distro_probed(h, selected) is Ok {
        assert forall|part: Host| part.submap_of(h) implies asks_within(
            h,
            #[trigger] distro_probed(part, selected),
            d,
        ) by {
            lemma_grown(part, h);
        }
    }
    d
}

proof fn questions_of_host_side_probed(h: Host, distro: Option<Seq<char>>) -> (d: Set<QuestionView>)
    ensures
        d.finite(),
        host_side_probed(h, distro) is Ok ==> forall|part: Host|
            part.submap_of(h) ==> asks_within(h, #[trigger] host_side_probed(part, distro), d),
{
    let search = questions_of_on_path(h, "wsl.exe"@);
    let command = plain_command("wsl.exe"@, seq!["-l"@, "-q"@], MEDIUM);
    let listed = utf16_answer(h, command)->Ok_0.1;
    let names = distro_names(lines_of(without_nul(listed)));
    let inside = questions_of_distro_probed(h, selected_distro(distro, names)->Ok_0);
    let d = search.union(inside).insert(QuestionView::Run(command));
    if host_side_probed(h, distro) is Ok {
        assert forall|part: Host| part.submap_of(h) implies asks_within(
            h,
            #[trigger] host_side_probed(part, distro),
            d,
        ) by {
            lemma_grown(part, h);
            lemma_on_path(part, h, "wsl.exe"@);
        }
    }
    d
}

// ---------------------------------------------------------------------------
// Finitely many answers
// ---------------------------------------------------------------------------

/// Whether a probe asks, of a part of a host, only open questions out of a
/// finite set that the host answers, and comes to what the host gives it once it
/// is done.
pub open spec fn is_driven_by<T>(
    probe: spec_fn(Host) -> Result<T, QuestionView>,
    h: Host,
    d: Set<QuestionView>,
) -> bool {
    &&& d.finite()
    &&& forall|part: Host|
        part.submap_of(h) ==> {
            &&& asks_within(h, #[trigger] probe(part), d)
            &&& asks_open(part, probe(part))
            &&& stands(probe(part), probe(h))
        }
}

/// The examination, as a function of what the host has answered.
pub open spec fn examination(
    framework: FrameworkProbe,
    interpreter: Option<FrameworkInterpreterView>,
) -> spec_fn(Host) -> Result<ExaminationView, QuestionView> {
    |h: Host| examined(h, framework, interpreter)
}

/// The inspection of a WSL distribution from the Windows host, as a function of
/// what the host has answered.
pub open spec fn inspection(distro: Option<Seq<char>>) -> spec_fn(Host) -> Result<
    HostSideView,
    QuestionView,
> {
    |h: Host| host_side_probed(h, distro)
}

/// What is recorded after `n` rounds of running a probe, answering the question
/// that it asks as the host answers it, and recording the answer.
pub open spec fn recorded_after<T>(
    probe: spec_fn(Host) -> Result<T, QuestionView>,
    h: Host,
    n: nat,
) -> Host
    decreases n,
{
    if n == 0 {
        Map::empty()
    } else {
        let before = recorded_after(probe, h, (n - 1) as nat);
        match probe(before) {
            Ok(_) => before,
            Err(q) => before.insert(q, h[q]),
        }
    }
}

proof fn lemma_restricted<T>(
    probe: spec_fn(Host) -> Result<T, QuestionView>,
    h: Host,
    d: Set<QuestionView>,
)
    requires
        is_driven_by(probe, h, d),
    ensures
        probe(h.restrict(d)) == probe(h),
{
    let part = h.restrict(d);
    assert(part.submap_of(h));
    assert(asks_within(h, probe(part), d));
}

proof fn lemma_rounds<T>(
    probe: spec_fn(Host) -> Result<T, QuestionView>,
    h: Host,
    d: Set<QuestionView>,
    n: nat,
)
    requires
        is_driven_by(probe, h, d),
    ensures
        ({
            let recorded = recorded_after(probe, h, n);
            &&& recorded.submap_of(h)
            &&& recorded.dom().finite()
            &&& recorded.dom().subset_of(d)
            &&& probe(recorded) is Ok || recorded.dom().len() == n
        }),
    decreases n,
{
    if n > 0 {
        let before = recorded_after(probe, h, (n - 1) as nat);
        lemma_rounds(probe, h, d, (n - 1) as nat);
        match probe(before) {
            Ok(_) => {},
            Err(q) => {
                assert(asks_within(h, probe(before), d));
                assert(!before.dom().contains(q));
                assert(before.insert(q, h[q]).dom() =~= before.dom().insert(q));
            },
        }
    } else {
        assert(recorded_after(probe, h, 0).dom() =~= Set::empty());
    }
}

proof fn lemma_rounds_end<T>(
    probe: spec_fn(Host) -> Result<T, QuestionView>,
    h: Host,
    d: Set<QuestionView>,
) -> (n: nat)
    requires
        is_driven_by(probe, h, d),
    ensures
        probe(recorded_after(probe, h, n)) is Ok,
        probe(recorded_after(probe, h, n)) == probe(h),
{
    let n = d.len() + 1;
    let recorded = recorded_after(probe, h, n);
    lemma_rounds(probe, h, d, n);
    lemma_len_subset(recorded.dom(), d);
    n
}

proof fn lemma_examination_is_driven(
    h: Host,
    framework: FrameworkProbe,
    interpreter: Option<FrameworkInterpreterView>,
) -> (d: Set<QuestionView>)
    requires
        examined(h, framework, interpreter) is Ok,
    ensures
        is_driven_by(examination(framework, interpreter), h, d),
{
    let probe = examination(framework, interpreter);
    let d = questions_of_examined(h, framework, interpreter);
    assert forall|part: Host| part.submap_of(h) implies {
        &&& asks_within(h, #[trigger] probe(part), d)
        &&& asks_open(part, probe(part))
        &&& stands(probe(part), probe(h))
    } by {
        assert(asks_within(h, examined(part, framework, interpreter), d));
        lemma_examined(part, h, framework, interpreter);
    }
    d
}

proof fn lemma_inspection_is_driven(h: Host, distro: Option<Seq<char>>) -> (d: Set<QuestionView>)
    requires
        host_side_probed(h, distro) is Ok,
    ensures
        is_driven_by(inspection(distro), h, d),
{
    let probe = inspection(distro);
    let d = questions_of_host_side_probed(h, distro);
    assert forall|part: Host| part.submap_of(h) implies {
        &&& asks_within(h, #[trigger] probe(part), d)
        &&& asks_open(part, probe(part))
        &&& stands(probe(part), probe(h))
    } by {
        assert(asks_within(h, host_side_probed(part, distro), d));
        lemma_host_side_probed(part, h, distro);
    }
    d
}

// ---------------------------------------------------------------------------
// The laws
// ---------------------------------------------------------------------------

/// Every finished examination rests on finitely many answers: the rest of what
/// the host answers could be left out.
pub proof fn law_examination_rests_on_finitely_many_answers(
    h: Host,
    framework: FrameworkProbe,
    interpreter: Option<FrameworkInterpreterView>,
)
    requires
        examined(h, framework, interpreter) is Ok,
    ensures
        exists|d: Set<QuestionView>|
            d.finite() && examined(#[trigger] h.restrict(d), framework, interpreter) == examined(
                h,
                framework,
                interpreter,
            ),
{
    let d = lemma_examination_is_driven(h, framework, interpreter);
    lemma_restricted(examination(framework, interpreter), h, d);
    assert(examination(framework, interpreter)(h.restrict(d)) == examined(
        h.restrict(d),
        framework,
        interpreter,
    ));
}

/// Every inspection of a WSL distribution that has come to a result, be it an
/// examination or a refusal, rests on finitely many answers.
pub proof fn law_inspection_rests_on_finitely_many_answers(h: Host, distro: Option<Seq<char>>)
    requires
        host_side_probed(h, distro) is Ok,
    ensures
        exists|d: Set<QuestionView>|
            d.finite() && host_side_probed(#[trigger] h.restrict(d), distro) == host_side_probed(
                h,
                distro,
            ),
{
    let d = lemma_inspection_is_driven(h, distro);
    lemma_restricted(inspection(distro), h, d);
    assert(inspection(distro)(h.restrict(d)) == host_side_probed(h.restrict(d), distro));
}

/// An examination comes to an end on every host: whoever answers one question
/// after the other holds it after finitely many rounds, and it is the one that
/// all answers of the host together give.
pub proof fn law_examination_ends(
    h: Host,
    framework: FrameworkProbe,
    interpreter: Option<FrameworkInterpreterView>,
)
    requires
        forall|q: QuestionView| !is_open(h, q),
    ensures
        examined(h, framework, interpreter) is Ok,
        exists|n: nat|
            examined(
                #[trigger] recorded_after(examination(framework, interpreter), h, n),
                framework,
                interpreter,
            ) == examined(h, framework, interpreter),
{
    law_examination_never_fails(h, framework, interpreter);
    let probe = examination(framework, interpreter);
    let d = lemma_examination_is_driven(h, framework, interpreter);
    let n = lemma_rounds_end(probe, h, d);
    let recorded = recorded_after(probe, h, n);
    assert(probe(recorded) == examined(recorded, framework, interpreter));
}

/// An inspection of a WSL distribution comes to an end on every host.
pub proof fn law_inspection_ends(h: Host, distro: Option<Seq<char>>)
    requires
        forall|q: QuestionView| !is_open(h, q),
    ensures
        host_side_probed(h, distro) is Ok,
        exists|n: nat|
            host_side_probed(#[trigger] recorded_after(inspection(distro), h, n), distro)
                == host_side_probed(h, distro),
{
    law_inspection_never_waits(h, distro);
    let probe = inspection(distro);
    let d = lemma_inspection_is_driven(h, distro);
    let n = lemma_rounds_end(probe, h, d);
    let recorded = recorded_after(probe, h, n);
    assert(probe(recorded) == host_side_probed(recorded, distro));
}

} // verus!
