use rocm_examine::examination::{Examination, FrameworkProbe};
use rocm_examine::host::{
    Answers, DirEntry, FilesystemStats, OsFamily, Question, RawOutput, Reply, RocmInstall,
    WslHostDriverProbe, WslSummary,
};
use rocm_examine::wsl::{probe_wsl_distro_from_host, WSL_PLATFORM_NOTE, WSL_REMOTE_PROBE};

/// Runs a probe, answering each question that it asks, until it is done. Hands
/// out the questions too, in the order in which they were asked.
fn settle<T>(
    probe: impl Fn(&Answers) -> Result<T, Question>,
    answer: impl Fn(&Question) -> Reply,
) -> (T, Answers, usize) {
    let mut h = Answers::new();
    let mut asked: usize = 0;
    loop {
        match probe(&h) {
            Ok(done) => return (done, h, asked),
            Err(q) => {
                let reply = answer(&q);
                assert!(h.find(&q).is_none(), "{q:?} was asked twice");
                h.record(q, reply);
                asked += 1;
            }
        }
    }
}

fn exited(rc: i32, stdout: &str) -> Reply {
    Reply::Output(RawOutput {
        rc,
        stdout: stdout.as_bytes().to_vec(),
        stderr: Vec::new(),
    })
}

fn utf16le(text: &str) -> Vec<u8> {
    text.encode_utf16().flat_map(u16::to_le_bytes).collect()
}

/// A Linux workstation with an AMD card, lightly equipped.
fn linux_host(q: &Question) -> Reply {
    match q {
        Question::Platform => Reply::Platform(OsFamily::Linux),
        Question::IsWslHost => Reply::Flag(false),
        Question::EnvVar(key) => Reply::OptionalText(match key.as_str() {
            "PATH" => Some("/usr/bin".to_owned()),
            "USER" => Some("alice".to_owned()),
            "HSA_OVERRIDE_GFX_VERSION" => Some("11.0.0".to_owned()),
            _ => None,
        }),
        Question::FileIn { name, .. } => {
            Reply::Flag(["lspci", "rocminfo", "dpkg", "python3"].contains(&name.as_str()))
        }
        Question::Run(command) => match command.program.as_str() {
            "uname" if command.args[0] == "-v" => exited(0, "#45 SMP\n"),
            "uname" => exited(0, "6.8.0\n"),
            "lspci" => exited(
                0,
                "0000:03:00.0 VGA compatible controller [0300]: AMD Navi 31 [1002:744c]\n",
            ),
            "rocminfo" => exited(
                0,
                "Agent 1\n Name: gfx1100\n Marketing Name: AMD Radeon RX 7900 XT\n Device Type: GPU\n",
            ),
            "lsmod" => exited(0, "Module Size\namdgpu 1\n"),
            "id" => exited(0, "alice render\n"),
            "stat" => exited(0, "crw-rw----|root|render\n"),
            "dpkg" => exited(0, "ii rocm-hip-runtime\n"),
            "journalctl" => exited(0, "amdgpu: ring gfx timeout\n"),
            "python3" => exited(0, r#"{"ok":true,"version":"2.8","hip":"6.4"}"#),
            other => panic!("{other}"),
        },
        Question::ReadText(path) => Reply::Text(match path.as_str() {
            "/proc/cmdline" => "quiet iommu= iommu=pt\n".to_owned(),
            "/etc/os-release" => "ID=ubuntu\nVERSION_ID=\"24.04\"\n".to_owned(),
            "/proc/cpuinfo" => "vendor_id: AuthenticAMD\nmodel name: Ryzen\n".to_owned(),
            _ => String::new(),
        }),
        Question::Exists(path) => Reply::Flag(path.starts_with("/dev/")),
        Question::ListDir(dir) if dir == "/dev/dri" => Reply::Listing(Some(vec![DirEntry {
            name: "renderD128".to_owned(),
            path: "/dev/dri/renderD128".to_owned(),
        }])),
        Question::ListDir(_) => Reply::Listing(None),
        Question::ActiveRocmInstall => Reply::Install(Some(RocmInstall {
            path: "/opt/rocm".to_owned(),
            version: None,
        })),
        Question::Filesystem(_) => Reply::Filesystem(Some(FilesystemStats {
            fragment_size: 4096,
            blocks: 1000,
            available: 10,
        })),
        other => panic!("{other:?}"),
    }
}

#[test]
fn a_linux_workstation_is_examined() {
    let (e, h, asked) = settle(|h| Examination::probe(FrameworkProbe::Auto, h), linux_host);
    assert!(asked > 30);
    assert_eq!(e.status, "ok");
    assert_eq!(e.os_family, "linux");
    assert_eq!(e.os_version, "#45 SMP");
    assert_eq!(e.kernel_release, "6.8.0");
    assert_eq!(e.iommu_kernel_param, "pt");
    assert_eq!((e.distro_id.as_str(), e.distro_version.as_str()), ("ubuntu", "24.04"));
    assert!(!e.is_wsl && e.wsl.is_none());
    assert_eq!((e.cpu_vendor.as_str(), e.cpu_model.as_str()), ("amd", "Ryzen"));
    assert_eq!(e.gpus.len(), 1);
    assert_eq!(e.gpus[0].gfx_target, "gfx1100");
    assert_eq!(e.gpus[0].name, "AMD Navi 31");
    assert!(e.has_amd_gpu && e.has_discrete_amd && !e.has_apu && !e.has_nvidia_gpu);
    assert_eq!(e.rocminfo_status, "ok");
    assert_eq!((e.amdgpu_loaded, e.amdkfd_loaded), (Some(true), Some(false)));
    assert_eq!(e.in_render_group, Some(true));
    assert_eq!(e.kfd.as_ref().expect("kfd").user_can_write, Some(true));
    assert_eq!(e.render_devices.len(), 1);
    assert_eq!(e.secure_boot, "unknown");
    assert_eq!(e.rocm_install_method, "apt");
    assert_eq!(e.rocm_path, "/opt/rocm");
    assert_eq!(e.env.get("HSA_OVERRIDE_GFX_VERSION"), Some("11.0.0".to_owned()));
    assert_eq!(e.env.entries().len(), 2);
    assert_eq!(e.shm_total_bytes, Some(4_096_000));
    assert_eq!(e.dmesg_amdgpu_tail, vec!["amdgpu: ring gfx timeout"]);
    assert_eq!((e.framework.as_str(), e.framework_source.as_str()), ("pytorch", "path"));
    assert_eq!(e.framework_rocm_version, "hip=6.4");
    assert!(e.notes.is_empty() && e.probe_failures.is_empty());

    // What was found out stands when more answers follow.
    let mut more = h;
    more.record(Question::FirstGfxToken("x".to_owned()), Reply::OptionalText(None));
    let again = Examination::probe(FrameworkProbe::Auto, &more).expect("nothing is open");
    assert_eq!(again.status, "ok");
    assert_eq!(again.gpus, e.gpus);
}

#[test]
fn the_answers_asked_for_suffice() {
    // One round for each answer, and then the recorded ones give the same.
    let (e, h, rounds) = settle(|h| Examination::probe(FrameworkProbe::Auto, h), linux_host);
    assert!(rounds < 100);
    let again = Examination::probe(FrameworkProbe::Auto, &h).expect("nothing is open");
    assert_eq!(again.gpus, e.gpus);
    assert_eq!(again.framework_notes, e.framework_notes);
    let host = wsl_host(true, 0, "my distro\r\n", 0);
    let (inspected, h, _) = settle(|h| probe_wsl_distro_from_host(None, h), host);
    let again = probe_wsl_distro_from_host(None, &h).expect("nothing is open");
    assert_eq!(again.expect("inspected").wsl, inspected.expect("inspected").wsl);
}

#[test]
fn a_linux_host_without_tools_degrades_gracefully() {
    let bare = |gfx: Option<&'static str>| {
        settle(
            |h| Examination::probe(FrameworkProbe::Skip, h),
            |q| match q {
                Question::FileIn { .. } => Reply::Flag(false),
                Question::Run(_) => exited(127, ""),
                Question::Filesystem(_) => Reply::Filesystem(None),
                Question::SysfsGfxTarget => Reply::OptionalText(gfx.map(str::to_owned)),
                Question::ReadText(_) => Reply::Text(String::new()),
                Question::ActiveRocmInstall => Reply::Install(None),
                Question::Exists(_) => Reply::Flag(false),
                other => linux_host(other),
            },
        )
        .0
    };
    let e = bare(Some("gfx942"));
    assert_eq!(e.status, "degraded");
    assert!(e.has_amd_gpu && !e.has_apu && !e.has_discrete_amd);
    assert_eq!(
        e.probe_failures,
        vec![
            "lspci not found; cannot enumerate PCI GPUs",
            "could not query /dev/shm; shared-memory allowance unknown",
        ]
    );
    assert_eq!(e.framework, "skipped");
    assert_eq!(e.rocm_install_method, "none");
    assert_eq!(e.amdgpu_loaded, None);
    let e = bare(None);
    assert_eq!(e.status, "no-amd-gpu");
    assert!(e.gpus.is_empty());
}

#[test]
fn a_windows_host_is_examined() {
    let (e, _, _) = settle(
        |h| Examination::probe(FrameworkProbe::LlamaCpp, h),
        |q| match q {
            Question::Platform => Reply::Platform(OsFamily::Windows),
            Question::EnvVar(key) if key == "PATH" => {
                Reply::OptionalText(Some(r"C:\bin".to_owned()))
            }
            Question::EnvVar(_) => Reply::OptionalText(None),
            Question::FileIn { name, .. } => {
                Reply::Flag(name == "llama-cli.exe" || name == "vcruntime140.dll")
            }
            Question::Run(command) => match command.program.as_str() {
                "cmd" => exited(0, "\r\nMicrosoft Windows [Version 10.0]\r\n"),
                "llama-cli" => exited(0, "version: 5 (ROCm)\n"),
                _ if command.args[2].contains("Win32_Processor") => exited(0, "AMD Ryzen\r\n"),
                _ if command.args[2].contains("ForEach-Object") => {
                    exited(0, "AMD Radeon 8060S\t32\tPCI\\VEN_1002\r\n")
                }
                _ => exited(0, "32.0\r\n"),
            },
            Question::ActiveRocmInstall => Reply::Install(None),
            other => panic!("{other:?}"),
        },
    );
    assert_eq!(e.status, "ok");
    assert_eq!((e.os_family.as_str(), e.os_version.as_str()), ("windows", "Microsoft Windows [Version 10.0]"));
    assert_eq!(e.gpus[0].gfx_target, "gfx1151");
    assert!(e.has_apu && !e.has_discrete_amd);
    assert_eq!(e.adrenalin_version, "32.0");
    assert_eq!(e.msvc_redist_present, Some(true));
    assert_eq!(e.framework, "llama-cpp");
    assert_eq!(e.shm_total_bytes, None);
    assert!(e.probe_failures.is_empty());
}

#[test]
fn a_wsl_guest_is_examined_without_its_driver() {
    let (e, _, _) = settle(
        |h| Examination::probe(FrameworkProbe::Skip, h),
        |q| match q {
            Question::IsWslHost => Reply::Flag(true),
            Question::WslPlumbing => Reply::WslSummary(Some(WslSummary {
                dxg_device: true,
                dxcore: true,
                librocdxg: false,
                rocdxg_dids: true,
            })),
            Question::WslHostDriver => {
                Reply::HostDriver(WslHostDriverProbe::Version("32.0.1".to_owned()))
            }
            Question::IsWsl1Kernel(release) => {
                assert_eq!(release, "6.8.0");
                Reply::Flag(false)
            }
            Question::IsDir(path) => Reply::Flag(path == "/usr/lib/wsl/lib"),
            Question::LdconfigListsRocdxg => Reply::OptionalFlag(None),
            Question::Run(command) if command.program == "lsmod" => {
                panic!("the driver is not asked")
            }
            other => linux_host(other),
        },
    );
    assert_eq!(e.status, "wsl");
    let wsl = e.wsl.as_ref().expect("the WSL facts are there");
    assert_eq!(wsl.version, 2);
    assert!(wsl.dxg_device && wsl.dxcore && !wsl.librocdxg && wsl.rocdxg_dids && wsl.wsl_lib_dir);
    assert_eq!(wsl.ldconfig_librocdxg, None);
    assert_eq!(wsl.rocm_sees_gpu, Some(true));
    assert_eq!(wsl.distro_supported, Some(true));
    assert_eq!(wsl.host_driver_version, Some("32.0.1".to_owned()));
    assert!(wsl.host_reachable && wsl.locally_probed);
    assert!(e.rocminfo_present);
    assert_eq!(e.rocminfo_status, "ok");
    assert_eq!(e.notes, vec![WSL_PLATFORM_NOTE]);
    assert!(e.gpus.is_empty() && !e.has_amd_gpu && e.kfd.is_none());
    assert_eq!((e.amdgpu_loaded, e.in_render_group), (None, None));
    assert_eq!(e.framework, "skipped");
    assert_eq!(e.shm_total_bytes, Some(4_096_000));
    assert_eq!(e.rocm_install_method, "apt");
}

#[test]
fn another_platform_is_not_probed() {
    let (e, _, asked) = settle(
        |h| Examination::probe(FrameworkProbe::Auto, h),
        |_| Reply::Platform(OsFamily::Other),
    );
    assert_eq!(asked, 1);
    assert_eq!(e.status, "unsupported-os");
    assert_eq!(e.os_version, "");
    assert_eq!(e.framework, "unknown");
    assert_eq!(
        e.notes,
        vec![
            "rocm examine supports Linux and Windows; got other. This skill cannot help on this platform."
        ]
    );
}

/// A Windows host whose `wsl.exe` lists these distributions.
fn wsl_host(
    present: bool,
    list_rc: i32,
    listed: &'static str,
    probe_rc: i32,
) -> impl Fn(&Question) -> Reply {
    move |q| match q {
        Question::EnvVar(_) => Reply::OptionalText(Some(r"C:\Windows".to_owned())),
        Question::Platform => Reply::Platform(OsFamily::Windows),
        Question::FileIn { name, .. } => Reply::Flag(present && name == "wsl.exe"),
        Question::Run(command) if command.args[0] == "-l" => {
            assert_eq!(command.args[1], "-q");
            Reply::Output(RawOutput {
                rc: list_rc,
                stdout: utf16le(listed),
                stderr: Vec::new(),
            })
        }
        Question::Run(command) => {
            assert_eq!(command.args[..5], ["-d", "my distro", "--exec", "/bin/sh", "-c"]);
            assert_eq!(command.args[5], WSL_REMOTE_PROBE);
            assert_eq!(command.timeout_secs, 30);
            exited(
                probe_rc,
                "kernel=5.15-microsoft\ndxg=1\ndxcore=0\nwsllib=1\nlibrocdxg=1\ndids=0\nldconfig=0\nrocminfo=1\nrocmgfx=0\nid=ubuntu\nversion=22.04\n",
            )
        }
        Question::LocalHostDriver => Reply::HostDriver(WslHostDriverProbe::NoAmdDisplay),
        Question::IsWsl1Kernel(release) => {
            assert_eq!(release, "5.15-microsoft");
            Reply::Flag(true)
        }
        other => panic!("{other:?}"),
    }
}

#[test]
fn a_distribution_is_inspected_from_the_windows_host() {
    let list = "My Distro\r\nUbuntu\r\n";
    let inspect = |distro: Option<&'static str>, host: Box<dyn Fn(&Question) -> Reply>| {
        settle(|h| probe_wsl_distro_from_host(distro, h), host).0
    };
    let e = inspect(Some("my distro"), Box::new(wsl_host(true, 0, list, 0))).expect("inspected");
    assert_eq!(e.status, "wsl");
    assert_eq!(e.os_family, "linux");
    assert!(e.is_wsl);
    assert_eq!(e.kernel_release, "5.15-microsoft");
    assert_eq!((e.distro_id.as_str(), e.distro_version.as_str()), ("ubuntu", "22.04"));
    assert_eq!(e.rocminfo_status, "no-agents");
    let wsl = e.wsl.expect("the WSL facts are there");
    assert_eq!(wsl.version, 1);
    assert!(wsl.dxg_device && !wsl.dxcore && wsl.wsl_lib_dir && wsl.librocdxg && !wsl.rocdxg_dids);
    assert_eq!(wsl.ldconfig_librocdxg, Some(false));
    assert_eq!(wsl.rocm_sees_gpu, Some(false));
    assert_eq!(wsl.distro_supported, Some(false));
    assert_eq!(wsl.host_driver_version, Some(String::new()));
    assert!(wsl.host_reachable && !wsl.locally_probed);

    let refused = |distro, host: Box<dyn Fn(&Question) -> Reply>| {
        inspect(distro, host).expect_err("refused")
    };
    assert_eq!(
        refused(None, Box::new(wsl_host(false, 0, list, 0))),
        "wsl.exe was not found; inspecting a distribution this way only works from the Windows host"
    );
    assert_eq!(
        refused(None, Box::new(wsl_host(true, 1, list, 0))),
        "could not list WSL distributions"
    );
    assert_eq!(
        refused(None, Box::new(wsl_host(true, 0, "\r\n", 0))),
        "no WSL distributions were found"
    );
    assert_eq!(
        refused(None, Box::new(wsl_host(true, 0, list, 0))),
        "several WSL distributions are installed; name one with --distro: My Distro, Ubuntu"
    );
    assert_eq!(
        refused(Some("Fedora"), Box::new(wsl_host(true, 0, list, 0))),
        "no WSL distribution named 'Fedora'; found: My Distro, Ubuntu"
    );
    assert_eq!(
        refused(Some("my distro"), Box::new(wsl_host(true, 0, list, 1))),
        "could not inspect 'my distro'; the distribution may be stopped or unreachable"
    );
}

#[test]
fn header_and_mark_are_no_names_in_any_case() {
    let parse = rocm_examine::wsl::parse_wsl_distro_list;
    assert_eq!(
        parse("  Name  State\n* Ubuntu\n  My Distro \n*\n"),
        vec!["Ubuntu", "My Distro"]
    );
    assert!(parse("name\n").is_empty());
}
