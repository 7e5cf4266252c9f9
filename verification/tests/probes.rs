use rocm_examine::ask::{run, run_utf16le, run_with_env, which, MEDIUM, SHORT};
use rocm_examine::devices::{
    has_conf_extension, has_module, line_blacklists_amdgpu, mode_access, probe_devices,
    probe_modules, probe_secure_boot, probe_user,
};
use rocm_examine::examination::{Examination, FrameworkProbe, Gpu};
use rocm_examine::framework::{
    probe_framework, read_torch_report, record_llama, record_pytorch_probe, record_torch_report,
    FrameworkInterpreter, TorchReport,
};
use rocm_examine::gfx::{classify_amd_marketing_name, gfx_apu_family_verdict};
use rocm_examine::gpu::{probe_gpus_lspci, probe_gpus_sysfs_fallback, record_lspci};
use rocm_examine::host::{
    Answers, CommandOutput, DirEntry, FilesystemStats, LoaderPath, OsFamily, Question, RawOutput,
    Reply, RocmInstall,
};
use rocm_examine::install::{extract_rocm_version, probe_rocm_install};
use rocm_examine::platform::{probe_cpu_windows, record_cpuinfo, record_os_release};
use rocm_examine::rocminfo::{parse_rocminfo_gpu_agents, probe_gpus_rocminfo, record_rocminfo};
use rocm_examine::surroundings::{
    filesystem_size, probe_container, probe_dmesg_amdgpu, probe_env, record_log,
    record_shared_memory, truncate_to_chars,
};
use rocm_examine::unicode::decode_utf8_bytes;
use rocm_examine::wait::{next_step, Sight, Step};
use rocm_examine::windows::{
    probe_adrenalin_windows, probe_hip_sdk_windows, probe_msvc_redist_windows, record_inventory,
    record_target,
};
use rocm_examine::wsl::{parse_remote_fields, parse_remote_flag, parse_remote_tristate};

fn settle<T>(
    probe: impl Fn(&Answers) -> Result<T, Question>,
    answer: impl Fn(&Question) -> Reply,
) -> T {
    let mut h = Answers::new();
    loop {
        match probe(&h) {
            Ok(done) => return done,
            Err(q) => {
                let reply = answer(&q);
                h.record(q, reply);
            }
        }
    }
}

fn exited(rc: i32, stdout: &str, stderr: &str) -> Reply {
    Reply::Output(RawOutput {
        rc,
        stdout: stdout.as_bytes().to_vec(),
        stderr: stderr.as_bytes().to_vec(),
    })
}

fn amd(name: &str, gfx_target: &str, is_apu: Option<bool>) -> Gpu {
    Gpu {
        name: name.to_owned(),
        gfx_target: gfx_target.to_owned(),
        pci_id: String::new(),
        is_apu,
        is_amd: true,
    }
}

fn entries(names: &[&str], dir: &str) -> Reply {
    Reply::Listing(Some(
        names
            .iter()
            .map(|name| DirEntry {
                name: (*name).to_owned(),
                path: format!("{dir}/{name}"),
            })
            .collect(),
    ))
}

// Questions and commands.

#[test]
fn a_question_is_asked_until_it_has_a_fitting_answer() {
    let mut h = Answers::new();
    let q = || Question::EnvVar("PATH".to_owned());
    assert_eq!(which(&h, "lspci"), Err(q()));
    // An answer of another kind is none.
    h.record(q(), Reply::Flag(true));
    assert_eq!(which(&h, "lspci"), Err(q()));
    h.record(q(), Reply::OptionalText(None));
    assert_eq!(which(&h, "lspci"), Ok(false));
    // A later answer replaces an earlier one.
    h.record(q(), Reply::OptionalText(Some(":/bin:".to_owned())));
    assert_eq!(which(&h, "lspci"), Err(Question::Platform));
}

#[test]
fn a_program_is_sought_in_every_directory_under_every_name() {
    let on = |os: OsFamily, path: &str, file: &str| {
        settle(
            |h| which(h, "tool"),
            |q| match q {
                Question::EnvVar(_) => Reply::OptionalText(Some(path.to_owned())),
                Question::Platform => Reply::Platform(os),
                Question::FileIn { dir, name } => {
                    assert!(!dir.is_empty());
                    Reply::Flag(format!("{dir}/{name}") == file)
                }
                other => panic!("{other:?}"),
            },
        )
    };
    assert!(on(OsFamily::Linux, "/a::/b", "/b/tool"));
    assert!(!on(OsFamily::Linux, "/a::/b", "/b/tool.exe"));
    assert!(!on(OsFamily::Linux, "/a;/b", "/b/tool"));
    for name in ["tool.exe", "tool.bat", "tool.cmd", "tool"] {
        assert!(on(OsFamily::Windows, "C:/a;;C:/b", &format!("C:/b/{name}")));
    }
    assert!(!on(OsFamily::Windows, "C:/a", "C:/a/tool.com"));
    assert!(!on(OsFamily::Linux, "", "/tool"));
}

#[test]
fn a_command_is_waited_for() {
    assert_eq!(next_step(Sight::NeverRan), Step::Report(127));
    assert_eq!(next_step(Sight::Ended(Some(3))), Step::Report(3));
    assert_eq!(next_step(Sight::Ended(None)), Step::Report(-1));
    assert_eq!(next_step(Sight::Running { out_of_time: false }), Step::Pause(20));
    assert_eq!(next_step(Sight::Running { out_of_time: true }), Step::Kill(124));
    assert_eq!(next_step(Sight::Lost), Step::Report(124));
}

#[test]
fn undecodable_output_is_replaced_and_not_dropped() {
    let out = CommandOutput::from_raw(&RawOutput {
        rc: 3,
        stdout: b"a\xffb".to_vec(),
        stderr: "\u{e9}".as_bytes().to_vec(),
    });
    assert_eq!(out.rc, 3);
    assert_eq!(out.stdout, "a\u{fffd}b");
    assert_eq!(out.stderr, "\u{e9}");
    for stray in 0x80..=0xff {
        let mut bytes = "\u{e9}".as_bytes().to_vec();
        bytes.push(stray);
        bytes.extend_from_slice("\u{1f600}".as_bytes());
        let out = CommandOutput::from_raw(&RawOutput {
            rc: 0,
            stdout: bytes.clone(),
            stderr: bytes,
        });
        assert_eq!(out.stdout, "\u{e9}\u{fffd}\u{1f600}");
        assert_eq!(out.stderr, "\u{e9}\u{fffd}\u{1f600}");
    }
}

#[test]
fn a_command_keeps_what_surrounds_stray_bytes() {
    // First, last, a leading byte with nothing to lead, a lone continuation.
    let printed = b"\xe9 caf\xc3 \x80x\xc3\xa9\xf0";
    let kept = "\u{fffd} caf\u{fffd} \u{fffd}x\u{e9}\u{fffd}";
    let host = |_: &Question| {
        Reply::Output(RawOutput {
            rc: 2,
            stdout: printed.to_vec(),
            stderr: printed.to_vec(),
        })
    };
    let plain = settle(|h| run(h, "tool", Vec::new(), SHORT), host);
    let envs = || vec![("A".to_owned(), "b".to_owned())];
    let overlaid = settle(|h| run_with_env(h, "tool", Vec::new(), envs(), SHORT), host);
    for out in [plain, overlaid] {
        assert_eq!((out.rc, out.stdout.as_str(), out.stderr.as_str()), (2, kept, kept));
    }
    assert_eq!(decode_utf8_bytes(printed), kept);
    assert_eq!(decode_utf8_bytes(b""), "");
}

#[test]
fn utf16_output_is_read_by_declaration() {
    let (rc, text) = settle(
        |h| run_utf16le(h, "wsl.exe", vec!["-l".to_owned()], MEDIUM),
        |_| {
            Reply::Output(RawOutput {
                rc: 1,
                stdout: vec![0xff, 0xfe, 0x41, 0x04, 0x0a, 0x00],
                stderr: Vec::new(),
            })
        },
    );
    assert_eq!((rc, text.as_str()), (1, "\u{441}\n"));
}

// GPUs.

#[test]
fn lspci_lines_become_gpus_by_vendor() {
    let out = "\
0000:00:00.0 Host bridge [0600]: Advanced Micro Devices, Inc. [AMD] Root [1022:14d8]
0000:01:00.0 VGA compatible controller [0300]: NVIDIA Corporation AD102 [GeForce RTX 4090] [10de:2684] (rev a1)
0000:03:00.0 VGA compatible controller [0300]: Advanced Micro Devices, Inc. [AMD/ATI] Navi 31 [1002:744c]
0000:0f:00.0 Display controller [0380]: Advanced Micro Devices, Inc. [AMD/ATI] Phoenix3 [1002:1900]
0000:10:00.0 3D controller [0302]: Intel Corporation Something [8086:0bd5]
";
    let mut e = Examination::default();
    record_lspci(&mut e, out);
    assert!(e.has_nvidia_gpu);
    assert_eq!(e.gpus.len(), 3);
    assert_eq!(e.gpus[0].name, "NVIDIA Corporation AD102 [GeForce RTX 4090]");
    assert_eq!(e.gpus[0].pci_id, "0000:01:00.0");
    assert_eq!((e.gpus[0].is_amd, e.gpus[0].is_apu), (false, Some(false)));
    assert_eq!(e.gpus[1].gfx_target, "");
    assert_eq!((e.gpus[1].is_amd, e.gpus[1].is_apu), (true, Some(false)));
    assert_eq!(e.gpus[2].gfx_target, "gfx1103");
    assert_eq!((e.gpus[2].is_amd, e.gpus[2].is_apu), (true, Some(true)));
}

#[test]
fn a_missing_or_failing_lspci_is_a_failure() {
    let found = |present: bool, rc: i32| {
        settle(
            |h| probe_gpus_lspci(Examination::default(), h),
            |q| match q {
                Question::EnvVar(_) => Reply::OptionalText(Some("/bin".to_owned())),
                Question::Platform => Reply::Platform(OsFamily::Linux),
                Question::FileIn { .. } => Reply::Flag(present),
                _ => exited(rc, "", ""),
            },
        )
        .probe_failures
    };
    assert_eq!(found(false, 0), vec!["lspci not found; cannot enumerate PCI GPUs"]);
    assert_eq!(
        found(true, 1),
        vec!["lspci returned non-zero; PCI enumeration incomplete"]
    );
    assert!(found(true, 0).is_empty());
}

#[test]
fn marketing_names_are_classified_whatever_their_case_and_marks() {
    let check = |name: &str, gfx: &str, apu: bool| {
        assert_eq!(classify_amd_marketing_name(name), (gfx.to_owned(), apu), "{name}");
    };
    check("AMD RADEON(TM)   890M", "gfx1150", true);
    check("Strix(R) Point", "gfx1150", true);
    check("Krackan", "gfx1150", true);
    check("Hawk Point1", "gfx1103", true);
    check("Radeon(\u{2122}) 780M", "gfx1103", true);
    check("Strix Halo", "gfx1151", true);
    check("Raphael", "", true);
    check("CEZANNE [Radeon Vega]", "", true);
    check("Navi 31 [Radeon RX 7900 XTX]", "", false);
    check("", "", false);
}

#[test]
fn targets_are_looked_up_in_any_case() {
    assert_eq!(gfx_apu_family_verdict("GFX1103"), Some(true));
    assert_eq!(gfx_apu_family_verdict("Gfx1102:xnack-"), Some(false));
    assert_eq!(gfx_apu_family_verdict("gfx115"), None);
    assert_eq!(gfx_apu_family_verdict("gfx115x"), None);
}

#[test]
fn the_complaint_of_rocminfo_is_named() {
    let status = |rc: i32, out: &str, err: &str| {
        let mut e = Examination::default();
        record_rocminfo(&mut e, rc, out, err);
        assert!(e.rocminfo_present);
        e.rocminfo_status
    };
    assert_eq!(status(1, "", "ROCk module is NOT loaded"), "not-loaded");
    assert_eq!(status(1, "Permission denied\n", ""), "permission-denied");
    assert_eq!(status(1, "", "Operation not permitted"), "permission-denied");
    assert_eq!(status(-1, "", ""), "error rc=-1");
    assert_eq!(status(124, "x", "y"), "error rc=124");
    assert_eq!(status(0, "", ""), "ok");
}

#[test]
fn a_missing_rocminfo_is_told() {
    let e = settle(
        |h| probe_gpus_rocminfo(Examination::default(), h),
        |_| Reply::OptionalText(None),
    );
    assert!(!e.rocminfo_present);
    assert_eq!(e.rocminfo_status, "missing");
}

#[test]
fn the_last_device_type_and_the_first_names_count() {
    let out = "Agent 1\nName: gfx942\nMarketing Name:\nMarketing Name: MI300X\nDevice Type: CPU\nDevice Type: GPU\n";
    assert_eq!(
        parse_rocminfo_gpu_agents(out),
        vec![("gfx942".to_owned(), "MI300X".to_owned())]
    );
    assert!(parse_rocminfo_gpu_agents("Name: gfx942\nDevice Type: CPU\n").is_empty());
    assert!(parse_rocminfo_gpu_agents("Name: Ryzen\nName: gfx942\nDevice Type: GPU\n").is_empty());
}

#[test]
fn the_kernel_topology_fills_a_gap() {
    let e = settle(
        |h| probe_gpus_sysfs_fallback(Examination::default(), h),
        |q| {
            assert_eq!(*q, Question::SysfsGfxTarget);
            Reply::OptionalText(Some("gfx942".to_owned()))
        },
    );
    assert_eq!(e.gpus, vec![amd("AMD GPU (from kernel topology)", "gfx942", None)]);
    assert_eq!(e.notes.len(), 1);
    let e = settle(
        |h| probe_gpus_sysfs_fallback(Examination::default(), h),
        |_| Reply::OptionalText(None),
    );
    assert!(e.gpus.is_empty() && e.notes.is_empty());
}

// Modules, devices, user.

#[test]
fn blacklisting_needs_a_blank_and_a_whole_word() {
    assert!(line_blacklists_amdgpu("\tblacklist\tamdgpu # no"));
    assert!(line_blacklists_amdgpu("blacklist amdgpu-pro"));
    assert!(!line_blacklists_amdgpu("blacklistamdgpu"));
    assert!(!line_blacklists_amdgpu("blacklist amdgpu_x"));
    assert!(!line_blacklists_amdgpu("blacklist amdgpu\u{e9}"));
    assert!(!line_blacklists_amdgpu("blacklist"));
    assert!(!line_blacklists_amdgpu("blacklist radeon"));
    assert!(!line_blacklists_amdgpu("install amdgpu /bin/true"));
}

#[test]
fn only_configuration_files_are_read() {
    assert!(has_conf_extension("amdgpu.conf"));
    assert!(has_conf_extension("..conf"));
    assert!(!has_conf_extension(".conf"));
    assert!(!has_conf_extension("amdgpu.conf.bak"));
    assert!(!has_conf_extension("amdgpuconf"));
    assert!(!has_conf_extension("conf"));
}

#[test]
fn modules_are_taken_from_lsmod_or_proc() {
    let probed = |rc: i32, proc_modules: &'static str| {
        settle(
            |h| probe_modules(Examination::default(), h),
            |q| match q {
                Question::Run(_) => exited(rc, "amdkfd header\namdgpu 1 2\nother amdkfd\n", ""),
                Question::ReadText(path) if path == "/proc/modules" => {
                    Reply::Text(proc_modules.to_owned())
                }
                Question::ReadText(path) => {
                    assert_eq!(path, "/etc/modprobe.d/b.conf");
                    Reply::Text("# x\nblacklist amdgpu\n".to_owned())
                }
                Question::ListDir(dir) if dir == "/etc/modprobe.d" => {
                    entries(&["a.txt", "b.conf"], dir)
                }
                Question::ListDir(_) => Reply::Listing(None),
                other => panic!("{other:?}"),
            },
        )
    };
    let e = probed(0, "");
    assert_eq!((e.amdgpu_loaded, e.amdkfd_loaded), (Some(true), Some(false)));
    assert_eq!(e.amdgpu_blacklisted_in, vec!["/etc/modprobe.d/b.conf"]);
    let e = probed(127, "amdkfd 1 0\n");
    assert_eq!((e.amdgpu_loaded, e.amdkfd_loaded), (Some(false), Some(true)));
    let e = probed(127, "");
    assert_eq!((e.amdgpu_loaded, e.amdkfd_loaded), (None, None));
    assert!(has_module("x\n  amdgpu y\n", "amdgpu"));
    assert!(!has_module("", "amdgpu"));
}

#[test]
fn access_follows_the_class_of_the_user() {
    let groups = vec!["render".to_owned()];
    // The owner is the owner, even where the group may do more.
    assert_eq!(
        mode_access("c---rw-r--", "alice", "render", "alice", &groups),
        (Some(false), Some(false))
    );
    assert_eq!(
        mode_access("c---rw-r--", "root", "render", "alice", &[]),
        (Some(true), Some(false))
    );
    // Nobody owns a device without an owner.
    assert_eq!(
        mode_access("crw-------", "", "", "", &[]),
        (Some(false), Some(false))
    );
    assert_eq!(mode_access("crw-rw---", "root", "render", "root", &[]), (None, None));
}

#[test]
fn devices_are_statted_in_the_order_of_their_paths() {
    let e = Examination {
        user_name: "alice".to_owned(),
        user_groups: vec!["render".to_owned()],
        ..Examination::default()
    };
    let e = settle(
        |h| probe_devices(e.clone(), h),
        |q| match q {
            Question::Exists(path) => Reply::Flag(path != "/dev/kfd"),
            Question::ListDir(dir) => entries(&["renderD129", "card0", "renderD128"], dir),
            Question::Run(command) => match command.args[2].as_str() {
                "/dev/dri/renderD128" => exited(0, "crw-rw----|root|render\n", ""),
                _ => exited(0, "crw-rw----|root\n", ""),
            },
            other => panic!("{other:?}"),
        },
    );
    let kfd = e.kfd.expect("kfd was statted");
    assert!(!kfd.exists && kfd.mode.is_empty() && kfd.user_can_read.is_none());
    assert_eq!(e.render_devices.len(), 2);
    assert_eq!(e.render_devices[0].path, "/dev/dri/renderD128");
    assert_eq!(e.render_devices[0].owner_group, "render");
    assert_eq!(e.render_devices[0].user_can_write, Some(true));
    assert_eq!(e.render_devices[1].path, "/dev/dri/renderD129");
    assert!(e.render_devices[1].exists && e.render_devices[1].mode.is_empty());
}

#[test]
fn the_user_is_named_by_either_variable() {
    let probed = |user: Option<&'static str>, logname: Option<&'static str>, rc: i32| {
        settle(
            |h| probe_user(Examination::default(), h),
            |q| match q {
                Question::EnvVar(key) if key == "USER" => {
                    Reply::OptionalText(user.map(str::to_owned))
                }
                Question::EnvVar(_) => Reply::OptionalText(logname.map(str::to_owned)),
                _ => exited(rc, "alice video\n", ""),
            },
        )
    };
    let e = probed(None, Some("alice"), 0);
    assert_eq!(e.user_name, "alice");
    assert_eq!(e.user_groups, vec!["alice", "video"]);
    assert_eq!((e.in_render_group, e.in_video_group), (Some(false), Some(true)));
    assert_eq!(probed(Some(""), Some("alice"), 0).user_name, "");
    let e = probed(None, None, 1);
    assert_eq!(e.user_name, "");
    assert!(e.user_groups.is_empty());
    assert_eq!(e.in_video_group, Some(false));
}

#[test]
fn secure_boot_is_read_in_any_case() {
    let probed = |rc: i32, out: &'static str| {
        settle(
            |h| probe_secure_boot(Examination::default(), h),
            |q| match q {
                Question::EnvVar(_) => Reply::OptionalText(Some("/bin".to_owned())),
                Question::Platform => Reply::Platform(OsFamily::Linux),
                Question::FileIn { .. } => Reply::Flag(true),
                _ => exited(rc, out, ""),
            },
        )
        .secure_boot
    };
    assert_eq!(probed(0, "SecureBoot ENABLED\n"), "enabled");
    assert_eq!(probed(0, "SecureBoot disabled\n"), "disabled");
    assert_eq!(probed(0, "This system doesn't support Secure Boot\n"), "unknown");
    assert_eq!(probed(1, "SecureBoot enabled\n"), "unknown");
}

// Platform.

#[test]
fn the_last_release_line_of_a_key_counts() {
    let mut e = Examination::default();
    record_os_release(
        &mut e,
        "NAME=\"Ubuntu\"\nID=debian\nVERSION_ID=\"24.04\"\nID=  ubuntu \nID_LIKE=x\nno equals\n",
    );
    assert_eq!(e.distro_id, "ubuntu");
    assert_eq!(e.distro_version, "24.04");
}

#[test]
fn the_first_processor_counts() {
    let mut e = Examination::default();
    record_cpuinfo(
        &mut e,
        "processor: 0\nvendor_id\t: AuthenticAMD\nmodel name\t: Ryzen: 9\nvendor_id\t: GenuineIntel\n",
    );
    assert_eq!((e.cpu_vendor.as_str(), e.cpu_model.as_str()), ("amd", "Ryzen: 9"));
    let mut e = Examination::default();
    record_cpuinfo(&mut e, "vendor_id: GenuineIntel\n");
    assert_eq!((e.cpu_vendor.as_str(), e.cpu_model.as_str()), ("intel", ""));
    let mut e = Examination::default();
    record_cpuinfo(&mut e, "vendor_id: Some \u{c9}\nmodel name: x");
    assert_eq!((e.cpu_vendor.as_str(), e.cpu_model.as_str()), ("some \u{e9}", "x"));
}

#[test]
fn the_windows_processor_is_named_by_the_inventory() {
    let probed = |rc: i32, out: &'static str| {
        settle(
            |h| probe_cpu_windows(Examination::default(), h),
            |_| exited(rc, out, ""),
        )
    };
    let e = probed(0, "\r\n AMD Ryzen 9 \r\nother");
    assert_eq!((e.cpu_vendor.as_str(), e.cpu_model.as_str()), ("amd", "AMD Ryzen 9"));
    assert_eq!(probed(0, "INTEL Xeon").cpu_vendor, "intel");
    assert_eq!(probed(0, "Snapdragon").cpu_vendor, "unknown");
    for e in [probed(1, "AMD"), probed(0, " \n")] {
        assert_eq!(
            e.probe_failures,
            vec!["Get-CimInstance Win32_Processor failed; cannot identify CPU."]
        );
        assert_eq!(e.cpu_model, "");
    }
}

// The install.

#[test]
fn versions_are_read_out_of_paths() {
    let read = |path: &str| extract_rocm_version(path);
    assert_eq!(read("/opt/rocm-6.4.1/lib"), Some("6.4.1".to_owned()));
    assert_eq!(read("/opt/rocm-.7.0.-rc"), Some("7.0".to_owned()));
    assert_eq!(read("/opt/rocm-7"), None);
    assert_eq!(read("/opt/rocm-x/rocm-6.4"), None);
    assert_eq!(read("rocm-"), None);
}

#[test]
fn the_method_of_the_install_is_found_in_order() {
    let probed = |marker: &'static str, dpkg: bool, rpm: bool, installed: bool| {
        settle(
            |h| probe_rocm_install(Examination::default(), h),
            |q| match q {
                Question::ActiveRocmInstall => Reply::Install(installed.then(|| RocmInstall {
                    path: "/opt/rocm-6.4.1".to_owned(),
                    version: Some("6.4.1".to_owned()),
                })),
                Question::Exists(path) => Reply::Flag(path == marker),
                Question::EnvVar(_) => Reply::OptionalText(Some("/bin".to_owned())),
                Question::Platform => Reply::Platform(OsFamily::Linux),
                Question::FileIn { .. } => Reply::Flag(true),
                Question::Run(command) if command.program == "dpkg" => {
                    exited(if dpkg { 0 } else { 1 }, "ii rocm-hip-runtime 6.4", "")
                }
                Question::Run(_) => exited(0, if rpm { "rocm-hip-runtime-6" } else { "" }, ""),
                Question::ListDir(dir) if dir == "/etc/apt/sources.list.d" => {
                    entries(&["ROCM.list", "ubuntu.list", "rocm.list"], dir)
                }
                Question::ListDir(_) => Reply::Listing(None),
                other => panic!("{other:?}"),
            },
        )
    };
    let marker = "/etc/apt/sources.list.d/rocm.list";
    let e = probed(marker, true, true, true);
    assert_eq!(e.rocm_install_method, "amdgpu-install");
    assert_eq!(
        e.rocm_repos_seen,
        vec![marker, "/etc/apt/sources.list.d/ROCM.list"],
        "a repository is listed once"
    );
    assert_eq!((e.rocm_path.as_str(), e.rocm_version.as_str()), ("/opt/rocm-6.4.1", "6.4.1"));
    assert_eq!(probed("", true, true, true).rocm_install_method, "apt");
    assert_eq!(probed("", false, true, true).rocm_install_method, "dnf");
    assert_eq!(probed("", false, false, true).rocm_install_method, "tarball-or-other");
    let e = probed("", false, false, false);
    assert_eq!(e.rocm_install_method, "none");
    assert_eq!((e.rocm_path.as_str(), e.rocm_version.as_str()), ("", ""));
}

// Frameworks.

#[test]
fn a_torch_report_is_read_field_by_field() {
    let report = read_torch_report(
        r#"{"ok":true,"version":"2.8","hip":null,"cuda":"12.4","arch_list":["gfx942",7,"gfx90a"],"is_available":false}"#,
    )
    .expect("this is JSON");
    assert_eq!(
        report,
        TorchReport {
            ok: Some(true),
            error: None,
            version: Some("2.8".to_owned()),
            hip: None,
            cuda: Some("12.4".to_owned()),
            arch_list: Some(vec![Some("gfx942".to_owned()), None, Some("gfx90a".to_owned())]),
            is_available: Some(false),
        }
    );
    let mut e = Examination::default();
    record_torch_report(&mut e, &report);
    assert_eq!(e.framework, "pytorch");
    assert_eq!(e.framework_rocm_version, "cuda=12.4");
    assert_eq!(e.framework_arch_list, vec!["gfx942", "gfx90a"]);
    assert_eq!(e.framework_notes.len(), 2);
    // No object has no keys, and what is no JSON is no report.
    let report = read_torch_report("[1]").expect("this is JSON");
    assert_eq!((report.ok, report.arch_list), (None, None));
    assert_eq!(read_torch_report("{"), None);
    assert_eq!(read_torch_report(""), None);
    let report = read_torch_report(r#"{"ok":"true","version":2}"#).expect("this is JSON");
    assert_eq!((report.ok, report.version), (None, None));
}

#[test]
fn what_an_interpreter_prints_is_recorded() {
    let recorded = |source: &str, rc: i32, out: &str, err: &str| {
        let mut e = Examination {
            framework_source: source.to_owned(),
            ..Examination::default()
        };
        record_pytorch_probe(&mut e, rc, out, err);
        e
    };
    let notes = |source: &str, rc: i32, out: &str, err: &str| {
        recorded(source, rc, out, err).framework_notes
    };
    assert_eq!(
        notes("path", 127, " \n", ""),
        vec!["The torch probe interpreter could not be started."]
    );
    assert_eq!(notes("path", 124, "", ""), vec!["The torch probe timed out."]);
    assert_eq!(
        notes("managed-runtime", 1, "", "\nTraceback\nImportError: x\n"),
        vec![
            "The active managed runtime's interpreter returned nothing for the torch probe.",
            "python stderr: ImportError: x",
        ]
    );
    assert_eq!(
        notes("path", 0, "", ""),
        vec![
            "Could not import torch; if PyTorch is in a venv, activate it and re-run inside that venv."
        ]
    );
    let long = "x".repeat(300);
    assert_eq!(
        notes("path", 0, &long, ""),
        vec![format!("torch probe returned non-JSON: {}", "x".repeat(200))]
    );
    assert_eq!(
        notes("path", 0, r#"{"ok":false}"#, ""),
        vec!["torch import failed: unknown"]
    );
    assert_eq!(
        notes("path", 0, r#"{"ok":false,"error":"E: y"}"#, ""),
        vec!["torch import failed: E: y"]
    );
    let e = recorded("path", 0, " {\"ok\":true,\"hip\":\"6.4\",\"cuda\":\"12\"}\n", "");
    assert_eq!(e.framework, "pytorch");
    assert_eq!(e.framework_version, "");
    assert_eq!(e.framework_rocm_version, "hip=6.4");
    assert!(e.framework_notes.is_empty());
}

#[test]
fn a_llama_binary_is_recorded() {
    let recorded = |rc: i32, out: &str, err: &str| {
        let mut e = Examination::default();
        record_llama(&mut e, "llama-cli", rc, out, err);
        e
    };
    let e = recorded(3, "", "");
    assert_eq!(e.framework, "unknown");
    assert_eq!(e.framework_source, "");
    assert_eq!(e.framework_notes, vec!["llama-cli --version exited rc=3"]);
    let e = recorded(3, "\nversion: 1 (HIP)\nmore", "");
    assert_eq!(e.framework, "llama-cpp");
    assert_eq!(e.framework_source, "path");
    assert_eq!(e.framework_version, "version: 1 (HIP)");
    assert_eq!(e.framework_rocm_version, "GGML_HIP=ON");
    let e = recorded(0, "", "");
    assert_eq!(e.framework_version, "unknown");
    assert_eq!(e.framework_notes.len(), 1);
}

/// A host with these programs on `PATH`, whose interpreters print this.
fn framework_host(
    programs: &'static [&'static str],
    python: &'static str,
    python3: &'static str,
) -> impl Fn(&Question) -> Reply {
    move |q| match q {
        Question::EnvVar(_) => Reply::OptionalText(Some("/bin".to_owned())),
        Question::Platform => Reply::Platform(OsFamily::Linux),
        Question::FileIn { name, .. } => Reply::Flag(programs.contains(&name.as_str())),
        Question::LoaderPathEntries => Reply::Paths(None),
        Question::JoinLoaderPath(entries) => Reply::LoaderPath(LoaderPath {
            variable: "LD_LIBRARY_PATH".to_owned(),
            composed: Err(format!("bad {}", entries.join(","))),
        }),
        Question::Run(command) => match command.program.as_str() {
            "python" => exited(0, python, ""),
            "python3" => exited(0, python3, ""),
            "/rt/python" => exited(1, "", "boom"),
            _ => exited(0, "llama ROCm", ""),
        },
        other => panic!("{other:?}"),
    }
}

#[test]
fn the_second_interpreter_answers_for_a_silent_first() {
    let probed = |programs, python, python3| {
        settle(
            |h| probe_framework(Examination::default(), h, FrameworkProbe::PyTorch, None),
            framework_host(programs, python, python3),
        )
    };
    let both: &[&str] = &["python", "python3"];
    let a = r#"{"ok":true,"version":"a"}"#;
    let b = r#"{"ok":true,"version":"b"}"#;
    assert_eq!(probed(both, a, b).framework_version, "a");
    assert_eq!(probed(both, "", b).framework_version, "b");
    assert_eq!(probed(both, "", " ").framework, "unknown");
    assert_eq!(probed(&["python"], "", b).framework, "unknown");
    assert_eq!(probed(&["python3"], a, b).framework_version, "b");
    let e = probed(&[], a, b);
    assert_eq!(e.framework_source, "");
    assert_eq!(
        e.framework_notes,
        vec!["No python interpreter found to probe torch."]
    );
}

#[test]
fn either_framework_is_found() {
    let probed = |programs, python, interpreter: Option<&FrameworkInterpreter>| {
        settle(
            |h| probe_framework(Examination::default(), h, FrameworkProbe::Auto, interpreter),
            framework_host(programs, python, ""),
        )
    };
    let torch = r#"{"ok":true}"#;
    let e = probed(&["python", "llama-server"], torch, None);
    assert_eq!((e.framework.as_str(), e.framework_source.as_str()), ("pytorch", "path"));
    let e = probed(&["python", "llama-server"], "", None);
    assert_eq!((e.framework.as_str(), e.framework_source.as_str()), ("llama-cpp", "path"));
    let e = probed(&["main"], torch, None);
    assert_eq!((e.framework.as_str(), e.framework_source.as_str()), ("llama-cpp", "path"));
    let e = probed(&[], torch, None);
    assert_eq!(
        e.framework_notes,
        vec!["No llama.cpp binary (llama-cli/llama-server/main) on PATH."]
    );
    // A broken runtime is not made up for by the interpreter on PATH.
    let runtime = FrameworkInterpreter {
        python: "/rt/python".to_owned(),
        library_paths: vec!["/rt/lib".to_owned()],
    };
    let e = probed(&["python"], torch, Some(&runtime));
    assert_eq!((e.framework.as_str(), e.framework_source.as_str()), ("unknown", "managed-runtime"));
    assert_eq!(
        e.framework_notes[1],
        "Could not compose LD_LIBRARY_PATH for the runtime's interpreter (bad /rt/lib); \
         its torch may fail to load the runtime's ROCm libraries."
    );
    let e = settle(
        |h| probe_framework(Examination::default(), h, FrameworkProbe::LlamaCpp, None),
        framework_host(&["python"], torch, ""),
    );
    assert_eq!(e.framework, "unknown");
}

// Surroundings.

#[test]
fn the_environment_is_captured() {
    let long = "x".repeat(16_001);
    let e = settle(
        |h| probe_env(Examination::default(), h),
        |q| match q {
            Question::EnvVar(key) => Reply::OptionalText(match key.as_str() {
                "PATH" => Some(long.clone()),
                "HIP_PATH" => Some(long.clone()),
                "LD_LIBRARY_PATH" => Some("/none::/libs:/more".to_owned()),
                _ => None,
            }),
            Question::ListDir(dir) if dir == "/libs" => {
                entries(&["libc.so", "libamdhip64.so.6", "libamdhip64.so"], dir)
            }
            Question::ListDir(dir) => {
                assert_eq!(dir, "/none");
                Reply::Listing(None)
            }
            other => panic!("{other:?}"),
        },
    );
    assert_eq!(e.env.entries().len(), 3);
    assert_eq!(e.env.get("HIP_PATH"), Some(long.clone()));
    assert_eq!(
        e.env.get("PATH"),
        Some(format!("{}...[truncated]", "x".repeat(16_000)))
    );
    assert_eq!(e.env.get("ROCM_PATH"), None);
    assert_eq!(e.hip_libs_on_ld_path, Some(true));
    assert_eq!(
        e.notes,
        vec!["libamdhip64 visible via LD_LIBRARY_PATH: /libs/libamdhip64.so.6"]
    );
    let without = |ld: Option<&'static str>| {
        settle(
            |h| probe_env(Examination::default(), h),
            |q| match q {
                Question::EnvVar(key) if key == "LD_LIBRARY_PATH" => {
                    Reply::OptionalText(ld.map(str::to_owned))
                }
                Question::EnvVar(_) => Reply::OptionalText(None),
                _ => Reply::Listing(Some(Vec::new())),
            },
        )
        .hip_libs_on_ld_path
    };
    assert_eq!(without(None), None);
    assert_eq!(without(Some("")), None);
    assert_eq!(without(Some("/libs")), Some(false));
}

#[test]
fn long_values_are_cut_between_characters() {
    assert_eq!(truncate_to_chars("abc".to_owned(), 3), "abc");
    assert_eq!(truncate_to_chars("abc".to_owned(), 2), "ab...[truncated]");
    assert_eq!(truncate_to_chars("\u{1f600}b".to_owned(), 1), "\u{1f600}...[truncated]");
    assert_eq!(truncate_to_chars("a".to_owned(), 0), "...[truncated]");
}

#[test]
fn shared_memory_is_measured_to_the_byte() {
    let stats = |fragment_size, blocks, available| FilesystemStats {
        fragment_size,
        blocks,
        available,
    };
    assert_eq!(filesystem_size(stats(4096, 16384, 3)), Some((67_108_864, 12_288)));
    assert_eq!(filesystem_size(stats(0, 0, 0)), Some((0, 0)));
    assert_eq!(filesystem_size(stats(2, u64::MAX, 0)), None);
    assert_eq!(filesystem_size(stats(2, 0, u64::MAX)), None);
    assert_eq!(filesystem_size(stats(1, u64::MAX, 1)), Some((u64::MAX, 1)));
    let mut e = Examination::default();
    record_shared_memory(&mut e, "/dev/shm", Some(stats(4096, 16384, 3)));
    assert_eq!(e.shm_total_bytes, Some(67_108_864));
    assert_eq!(e.shm_available_bytes, Some(12_288));
    assert!(e.probe_failures.is_empty());
    record_shared_memory(&mut e, "/x", None);
    assert_eq!(
        e.probe_failures,
        vec!["could not query /x; shared-memory allowance unknown"]
    );
}

#[test]
fn containers_are_told_by_their_marks() {
    let probed = |marker: &'static str, cgroup: &'static str| {
        let e = settle(
            |h| probe_container(Examination::default(), h),
            |q| match q {
                Question::Exists(path) => Reply::Flag(path == marker),
                _ => Reply::Text(cgroup.to_owned()),
            },
        );
        (e.in_container, e.container_kind)
    };
    assert_eq!(probed("/.dockerenv", ""), (true, "docker".to_owned()));
    assert_eq!(probed("/run/.containerenv", ""), (true, "podman".to_owned()));
    assert_eq!(probed("", "0::/kubepods/x\n"), (true, "container".to_owned()));
    assert_eq!(probed("", "0::/init.scope\n"), (false, String::new()));
    assert_eq!(probed("", ""), (false, String::new()));
}

#[test]
fn the_kernel_log_is_searched_for_the_drivers_troubles() {
    let mut log = String::new();
    for i in 0..20 {
        log.push_str(&format!("  [{i}] amdgpu: GPU Reset {}\n", "y".repeat(400)));
        log.push_str("usb: gpu reset\namdgpu: all fine\n");
    }
    let mut e = Examination::default();
    record_log(&mut e, &log);
    assert_eq!(e.dmesg_amdgpu_tail.len(), 15);
    assert!(e.dmesg_amdgpu_tail[0].starts_with("[5] amdgpu: GPU Reset y"));
    assert!(e.dmesg_amdgpu_tail.iter().all(|line| line.chars().count() == 300));
    let probed = |journal: (i32, &'static str), dmesg: (i32, &'static str)| {
        settle(
            |h| probe_dmesg_amdgpu(Examination::default(), h),
            |q| match q {
                Question::Run(command) if command.program == "journalctl" => {
                    exited(journal.0, journal.1, "")
                }
                _ => exited(dmesg.0, dmesg.1, ""),
            },
        )
        .dmesg_amdgpu_tail
    };
    assert_eq!(probed((0, "amdkfd: VM_FAULT j"), (0, "")), vec!["amdkfd: VM_FAULT j"]);
    assert_eq!(probed((0, ""), (0, "amdgpu psp d")), vec!["amdgpu psp d"]);
    assert_eq!(probed((1, "amdgpu psp j"), (0, "amdgpu psp d")), vec!["amdgpu psp d"]);
    assert!(probed((1, ""), (1, "amdgpu psp d")).is_empty());
}

// Windows.

#[test]
fn the_display_inventory_becomes_gpus() {
    let mut e = Examination::default();
    record_inventory(
        &mut e,
        "AMD Radeon(TM) 780M\t31.0\tPCI\\VEN_1002&DEV_1\r\n\r\n NVIDIA GeForce \t1\tpci\\ven_10de\r\nBasic Display\r\nNVIDIA by AMD\t1\t\r\nplain\t1\tpci\\ven_1002\r\n",
    );
    assert!(e.has_nvidia_gpu);
    assert_eq!(e.gpus.len(), 4);
    assert_eq!(e.gpus[0].gfx_target, "gfx1103");
    assert_eq!(e.gpus[0].pci_id, "PCI\\VEN_1002&DEV_1");
    assert_eq!((e.gpus[1].name.as_str(), e.gpus[1].is_amd), ("NVIDIA GeForce", false));
    assert!(e.gpus[2].is_amd && e.gpus[2].pci_id.is_empty());
    assert!(e.gpus[3].is_amd);
}

#[test]
fn a_target_goes_to_the_first_gpu_that_lacks_one() {
    let mut e = Examination {
        gpus: vec![
            Gpu::default(),
            amd("a", "gfx942", None),
            amd("b", "", Some(false)),
            amd("c", "", Some(true)),
        ],
        ..Examination::default()
    };
    record_target(&mut e, "gfx1103".to_owned());
    record_target(&mut e, "gfx1036".to_owned());
    record_target(&mut e, "gfx1100".to_owned());
    assert_eq!(e.gpus[0], Gpu::default());
    assert_eq!(e.gpus[1], amd("a", "gfx942", None));
    assert_eq!(e.gpus[2], amd("b", "gfx1103", Some(true)));
    assert_eq!(e.gpus[3], amd("c", "gfx1036", Some(true)));
}

/// A Windows host with this `HIP_PATH` and this install.
fn sdk_host(
    hip_path: Option<&'static str>,
    install: Option<&'static str>,
    rc: i32,
) -> impl Fn(&Question) -> Reply {
    move |q| match q {
        Question::EnvVar(_) => Reply::OptionalText(hip_path.map(str::to_owned)),
        Question::IsDir(path) => Reply::Flag(path.starts_with("C:")),
        Question::ActiveRocmInstall => Reply::Install(install.map(|path| RocmInstall {
            path: path.to_owned(),
            version: None,
        })),
        Question::RocmInstallVersion(root) => {
            Reply::OptionalText((root == "C:/hip").then(|| "6.4".to_owned()))
        }
        Question::FileName(_) => Reply::OptionalText(Some("name".to_owned())),
        Question::ProgramUnder { root, dir, name } => {
            assert_eq!((dir.as_str(), name.as_str()), ("bin", "hipInfo.exe"));
            Reply::OptionalText((root == "C:/hip").then(|| "C:/hip/bin/hipInfo.exe".to_owned()))
        }
        Question::Run(_) => exited(rc, "name: x\n gcnArchName: gfx1151\ngcnArchName: none\n", ""),
        Question::FirstGfxToken(text) => {
            Reply::OptionalText(text.contains("gfx").then(|| text.trim().to_owned()))
        }
        other => panic!("{other:?}"),
    }
}

#[test]
fn the_hip_sdk_is_found_and_asked() {
    let probed = |hip_path, install, rc| {
        let e = Examination {
            gpus: vec![amd("a", "", Some(false))],
            ..Examination::default()
        };
        settle(
            |h| probe_hip_sdk_windows(e.clone(), h),
            sdk_host(hip_path, install, rc),
        )
    };
    let e = probed(Some("C:/hip"), Some("C:/rocm"), 0);
    assert_eq!((e.hip_sdk_path.as_str(), e.hip_sdk_version.as_str()), ("C:/hip", "6.4"));
    assert_eq!((e.hipinfo_present, e.hipinfo_status.as_str()), (true, "ok"));
    assert_eq!(e.gpus[0], amd("a", "gfx1151", Some(true)));
    let e = probed(Some("D:/gone"), Some("C:/rocm"), 0);
    assert_eq!((e.hip_sdk_path.as_str(), e.hip_sdk_version.as_str()), ("C:/rocm", "name"));
    assert_eq!((e.hipinfo_present, e.hipinfo_status.as_str()), (false, "missing"));
    let e = probed(None, Some("D:/gone"), 0);
    assert_eq!((e.hip_sdk_path.as_str(), e.hipinfo_status.as_str()), ("", ""));
    assert_eq!(probed(None, None, 0).hip_sdk_path, "");
    let e = probed(Some("C:/hip"), None, -5);
    assert_eq!((e.hipinfo_present, e.hipinfo_status.as_str()), (true, "error rc=-5"));
    assert_eq!(e.gpus[0].gfx_target, "");
}

#[test]
fn the_driver_version_is_the_first_line() {
    let probed = |rc: i32, out: &'static str| {
        settle(
            |h| probe_adrenalin_windows(Examination::default(), h),
            |_| exited(rc, out, ""),
        )
        .adrenalin_version
    };
    assert_eq!(probed(0, "\r\n 32.0.1 \r\n33\r\n"), "32.0.1");
    assert_eq!(probed(0, " "), "");
    assert_eq!(probed(1, "32.0.1"), "");
}

#[test]
fn the_c_runtime_is_sought_on_path_and_in_the_system() {
    let probed = |path: Option<&'static str>, file: &'static str| {
        settle(
            |h| probe_msvc_redist_windows(Examination::default(), h),
            |q| match q {
                Question::EnvVar(_) => Reply::OptionalText(path.map(str::to_owned)),
                Question::FileIn { dir, name } => Reply::Flag(format!("{dir}|{name}") == file),
                other => panic!("{other:?}"),
            },
        )
        .msvc_redist_present
    };
    assert_eq!(probed(Some("C:\\a;C:\\b"), "C:\\b|vcruntime140_1.dll"), Some(true));
    assert_eq!(probed(None, r"C:\Windows\SysWOW64|vcruntime140.dll"), Some(true));
    assert_eq!(probed(Some("C:\\a"), "C:\\b|vcruntime140.dll"), Some(false));
}

// The script that is run inside a WSL guest.

#[test]
fn remote_fields_are_read() {
    let fields = parse_remote_fields("kernel=5.15 = x\ndxg=1\r\nldconfig=\n dids = 0 \nnoise\ndxg=0\n");
    assert_eq!(fields.get("kernel"), Some("5.15 = x".to_owned()));
    assert!(!parse_remote_flag(&fields, "dxg"), "the last value counts");
    assert_eq!(parse_remote_tristate(&fields, "dids"), Some(false));
    assert_eq!(parse_remote_tristate(&fields, "ldconfig"), None);
    assert_eq!(parse_remote_tristate(&fields, "absent"), None);
    let fields = parse_remote_fields("rocminfo=1\nx=11\n");
    assert!(parse_remote_flag(&fields, "rocminfo"));
    assert_eq!(parse_remote_tristate(&fields, "rocminfo"), Some(true));
    assert!(!parse_remote_flag(&fields, "x"));
}
