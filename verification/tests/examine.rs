use rocm_examine::ask::{run, SHORT};
use rocm_examine::devices::{line_blacklists_amdgpu, mode_access};
use rocm_examine::examination::{Examination, FrameworkProbe, Gpu, WslFacts};
use rocm_examine::framework::{probe_framework, FrameworkInterpreter};
use rocm_examine::gfx::{classify_amd_marketing_name, gfx_apu_family_verdict, gfx_is_apu_family};
use rocm_examine::gpu::{
    extract_lspci_name, probe_gpus_sysfs_fallback, summarise_gpu_categories,
};
use rocm_examine::host::{
    Answers, Command, LoaderPath, OsFamily, Question, RawOutput, Reply, WslHostDriverProbe,
};
use rocm_examine::install::extract_rocm_version;
use rocm_examine::platform::{parse_iommu_param, probe_os};
use rocm_examine::rocminfo::{apply_rocminfo_gpu_agents, parse_rocminfo_gpu_agents};
use rocm_examine::surroundings::{probe_shared_memory_at, truncate_to_chars};
use rocm_examine::utf16::decode_utf16le;
use rocm_examine::wsl::{
    distro_clears_wsl_floor, host_driver_fields, parse_wsl_distro_list, probe_wsl,
    select_wsl_distro, sync_shared_fields_from_wsl,
};

/// Runs a probe, answering each question that it asks, until it is done.
fn settle<T>(
    probe: impl Fn(&Answers) -> Result<T, Question>,
    answer: impl Fn(&Question) -> Reply,
) -> T {
    let mut h = Answers::new();
    loop {
        match probe(&h) {
            Ok(done) => return done,
            Err(q) => {
                let reply = answer(&q);
                h.record(q, reply);
            }
        }
    }
}

/// A command that succeeded and printed this.
fn printed(text: &str) -> Reply {
    Reply::Output(RawOutput {
        rc: 0,
        stdout: text.as_bytes().to_vec(),
        stderr: Vec::new(),
    })
}

/// The shape of `rocminfo` output: a GPU agent's ISAs follow as further `Name:`
/// lines.
const ROCMINFO_APU_PLUS_DGPU: &str = "\
*******
Agent 1
*******
  Name:                    AMD Ryzen 5 7500X3D 6-Core Processor
  Uuid:                    CPU-XX
  Marketing Name:          AMD Ryzen 5 7500X3D 6-Core Processor
  Vendor Name:             CPU
  Device Type:             CPU
*******
Agent 2
*******
  Name:                    gfx1100
  Uuid:                    GPU-XX
  Marketing Name:          AMD Radeon RX 7900 XT
  Vendor Name:             AMD
  Device Type:             GPU
  ISA Info:
    ISA 1
      Name:                    amdgcn-amd-amdhsa--gfx1100
      Machine Models:          HSA_MACHINE_MODEL_LARGE
    ISA 2
      Name:                    amdgcn-amd-amdhsa--gfx11-generic
*******
Agent 3
*******
  Name:                    gfx1036
  Marketing Name:          AMD Ryzen 5 7500X3D 6-Core Processor
  Vendor Name:             AMD
  Device Type:             GPU
  ISA Info:
    ISA 1
      Name:                    amdgcn-amd-amdhsa--gfx1036
    ISA 2
      Name:                    amdgcn-amd-amdhsa--gfx10-3-generic
*** Done ***
";

#[test]
fn the_distro_list_survives_the_markers_wsl_puts_around_it() {
    assert_eq!(
        parse_wsl_distro_list("Ubuntu\nDebian\n"),
        vec!["Ubuntu", "Debian"]
    );
    assert_eq!(
        parse_wsl_distro_list("Ubuntu-24.04\n"),
        vec!["Ubuntu-24.04"]
    );

    assert_eq!(
        parse_wsl_distro_list("My Distro\nUbuntu\n"),
        vec!["My Distro", "Ubuntu"]
    );

    assert_eq!(
        parse_wsl_distro_list("\0U\0b\0u\0n\0t\0u\0\n\0"),
        vec!["Ubuntu"]
    );
    assert!(parse_wsl_distro_list("").is_empty());
    assert!(parse_wsl_distro_list("\n\n  \n").is_empty());

    assert!(parse_wsl_distro_list("  NAME   STATE   VERSION\n").is_empty());
}

#[test]
fn a_named_distro_that_does_not_exist_is_refused() {
    let distros = vec!["Ubuntu".to_owned(), "Debian".to_owned()];
    let err = select_wsl_distro(Some("Fedora"), &distros).expect_err("must be refused");
    assert!(err.contains("Fedora"), "names the distro asked for: {err}");
    assert!(err.contains("Ubuntu"), "lists what does exist: {err}");
    assert!(err.contains("Debian"), "lists what does exist: {err}");
}

#[test]
fn a_named_distro_that_exists_is_selected_case_insensitively() {
    let distros = vec!["Ubuntu-24.04".to_owned()];
    assert_eq!(
        select_wsl_distro(Some("ubuntu-24.04"), &distros).expect("must be selected"),
        "ubuntu-24.04"
    );
}

#[test]
fn no_distro_named_falls_back_to_the_lone_one_or_refuses_ambiguity() {
    assert_eq!(
        select_wsl_distro(None, &["Ubuntu".to_owned()]).expect("the only one"),
        "Ubuntu"
    );
    assert!(select_wsl_distro(None, &[]).is_err(), "nothing installed");
    let many = vec!["Ubuntu".to_owned(), "Debian".to_owned()];
    let err = select_wsl_distro(None, &many).expect_err("ambiguous without --distro");
    assert!(
        err.contains("--distro"),
        "tells the user how to resolve it: {err}"
    );
}

#[test]
fn sync_shared_fields_from_wsl_copies_the_actual_rocminfo_values() {
    let mut missing = Examination {
        wsl: Some(WslFacts {
            rocminfo: false,
            rocm_sees_gpu: None,
            ..WslFacts::default()
        }),
        ..Examination::default()
    };
    sync_shared_fields_from_wsl(&mut missing);
    assert!(!missing.rocminfo_present);
    assert_eq!(missing.rocminfo_status, "missing");

    let mut healthy = Examination {
        wsl: Some(WslFacts {
            rocminfo: true,
            rocm_sees_gpu: Some(true),
            ..WslFacts::default()
        }),
        ..Examination::default()
    };
    sync_shared_fields_from_wsl(&mut healthy);
    assert!(healthy.rocminfo_present);
    assert_eq!(healthy.rocminfo_status, "ok");

    let mut no_agents = Examination {
        wsl: Some(WslFacts {
            rocminfo: true,
            rocm_sees_gpu: Some(false),
            ..WslFacts::default()
        }),
        ..Examination::default()
    };
    sync_shared_fields_from_wsl(&mut no_agents);
    assert!(no_agents.rocminfo_present);
    assert_eq!(no_agents.rocminfo_status, "no-agents");

    let mut unasked = Examination {
        wsl: Some(WslFacts {
            rocminfo: true,
            rocm_sees_gpu: None,
            ..WslFacts::default()
        }),
        ..Examination::default()
    };
    sync_shared_fields_from_wsl(&mut unasked);
    assert!(unasked.rocminfo_present);
    assert_eq!(unasked.rocminfo_status, "unknown");
}

#[test]
fn the_distro_list_decodes_as_utf16_whatever_script_it_is_in() {
    fn utf16le(text: &str, bom: bool) -> Vec<u8> {
        let mut bytes = if bom { vec![0xFF, 0xFE] } else { Vec::new() };
        for unit in text.encode_utf16() {
            bytes.extend_from_slice(&unit.to_le_bytes());
        }
        bytes
    }

    assert_eq!(decode_utf16le(&utf16le("Ubuntu\n", true)), "Ubuntu\n");
    assert_eq!(decode_utf16le(&utf16le("Ubuntu\n", false)), "Ubuntu\n");
    assert_eq!(decode_utf16le(b""), "");

    for name in [
        "Ubuntu-24.04\nÉtat\n",
        "Ubuntu\nУбунту\n",
        "Ubuntu\n日本語\n",
    ] {
        assert_eq!(decode_utf16le(&utf16le(name, true)), name);
        assert_eq!(decode_utf16le(&utf16le(name, false)), name);
    }

    assert_eq!(
        parse_wsl_distro_list(&decode_utf16le(&utf16le("Ubuntu\nУбунту\n", true))),
        vec!["Ubuntu", "Убунту"]
    );

    let mut truncated = utf16le("Ubuntu", false);
    truncated.push(0x00);
    assert_eq!(decode_utf16le(&truncated), "Ubuntu");
}

#[test]
fn the_distro_floor_fails_closed_on_anything_it_cannot_read() {
    for supported in ["24.04", "24.10", "25.04", "26.04", "28.04"] {
        assert_eq!(
            distro_clears_wsl_floor("ubuntu", supported),
            Some(true),
            "ubuntu {supported} clears the floor"
        );
    }
    assert_eq!(distro_clears_wsl_floor("ubuntu", "22.04"), Some(false));
    assert_eq!(distro_clears_wsl_floor("ubuntu", "20.04"), Some(false));

    for unreadable in ["24.04.1", "unknown", "", "24", "24.x", "..", "24.04.1.2"] {
        assert_eq!(
            distro_clears_wsl_floor("ubuntu", unreadable),
            None,
            "{unreadable:?} cannot be read as a release"
        );
    }

    for other in ["debian", "fedora", "arch", ""] {
        assert_eq!(distro_clears_wsl_floor(other, "12.0"), None, "{other}");
    }
    assert_eq!(distro_clears_wsl_floor("UBUNTU", "24.04"), Some(true));
}

#[test]
fn default_uses_unknown_sentinels() {
    let e = Examination::default();
    assert_eq!(e.os_family, "unknown");
    assert_eq!(e.cpu_vendor, "unknown");
    assert_eq!(e.secure_boot, "unknown");
    assert_eq!(e.framework, "unknown");
}

#[test]
fn a_topology_sourced_gpu_counts_as_present_without_claiming_a_package() {
    let mut e = Examination {
        os_family: "linux".to_owned(),
        gpus: vec![Gpu {
            name: "AMD GPU (from kernel topology)".to_owned(),
            gfx_target: "gfx942".to_owned(),
            is_amd: true,
            is_apu: None,
            ..Gpu::default()
        }],
        ..Examination::default()
    };
    summarise_gpu_categories(&mut e);
    assert!(e.has_amd_gpu, "the machine has a GPU and must say so");
    assert!(!e.has_apu);
    assert!(!e.has_discrete_amd);
    assert_eq!(e.compute_status(), "ok");
}

#[test]
fn status_reflects_scope_precedence() {
    let mut e = Examination {
        os_family: "linux".to_owned(),
        has_amd_gpu: true,
        ..Examination::default()
    };
    assert_eq!(e.compute_status(), "ok");
    e.probe_failures.push("lspci missing".to_owned());
    assert_eq!(e.compute_status(), "degraded");
    e.probe_failures.clear();
    e.has_amd_gpu = false;
    assert_eq!(e.compute_status(), "no-amd-gpu");
    e.os_family = "other".to_owned();
    assert_eq!(e.compute_status(), "unsupported-os");
    e.is_wsl = true;
    assert_eq!(e.compute_status(), "wsl");
}

#[test]
fn env_truncation_is_char_safe_across_multibyte_boundary() {
    let value = "é".repeat(5000);
    let out = truncate_to_chars(value, 4000);
    assert!(out.ends_with("...[truncated]"));
    assert_eq!(out.chars().filter(|&c| c == 'é').count(), 4000);
}

#[test]
fn env_truncation_leaves_short_values_untouched() {
    assert_eq!(truncate_to_chars("short".to_owned(), 4000), "short");
}

#[test]
fn iommu_param_parsed_from_cmdline() {
    assert_eq!(
        parse_iommu_param("BOOT_IMAGE=/vmlinuz iommu=pt amd_iommu=on quiet"),
        Some("pt".to_owned())
    );
    assert_eq!(parse_iommu_param("BOOT_IMAGE=/vmlinuz quiet"), None);
}

#[test]
fn lspci_name_extraction() {
    let line = "0000:03:00.0 VGA compatible controller [0300]: Advanced Micro Devices, Inc. [AMD/ATI] Navi 31 [Radeon RX 7900 XTX] [1002:744c]";
    assert_eq!(
        extract_lspci_name(line),
        "Advanced Micro Devices, Inc. [AMD/ATI] Navi 31 [Radeon RX 7900 XTX]"
    );
}

#[test]
fn blacklist_amdgpu_detection() {
    assert!(line_blacklists_amdgpu("blacklist amdgpu"));
    assert!(line_blacklists_amdgpu("  blacklist   amdgpu"));
    assert!(!line_blacklists_amdgpu("blacklist amdgpufoo"));
    assert!(!line_blacklists_amdgpu("# blacklist amdgpu"));
}

#[test]
fn mode_access_owner_group_other_precedence() {
    let groups = vec!["render".to_owned()];
    let (r, w) = mode_access("crw-rw----", "root", "render", "alice", &groups);
    assert_eq!((r, w), (Some(true), Some(true)));
    let (r, w) = mode_access("crw-rw----", "root", "render", "alice", &[]);
    assert_eq!((r, w), (Some(false), Some(false)));
}

#[test]
fn rocminfo_gpu_agents_survive_isa_name_lines() {
    let agents = parse_rocminfo_gpu_agents(ROCMINFO_APU_PLUS_DGPU);
    assert_eq!(
        agents,
        vec![
            ("gfx1100".to_owned(), "AMD Radeon RX 7900 XT".to_owned()),
            (
                "gfx1036".to_owned(),
                "AMD Ryzen 5 7500X3D 6-Core Processor".to_owned()
            ),
        ]
    );
}

#[test]
fn rocminfo_last_agent_is_committed_at_end_of_input() {
    let out = "\
Agent 1
  Name:                    gfx1100
  Marketing Name:          AMD Radeon RX 7900 XT
  Device Type:             GPU
  ISA Info:
    ISA 1
      Name:                    amdgcn-amd-amdhsa--gfx1100
";
    assert_eq!(
        parse_rocminfo_gpu_agents(out),
        vec![("gfx1100".to_owned(), "AMD Radeon RX 7900 XT".to_owned())]
    );
}

#[test]
fn rocminfo_cpu_only_host_yields_no_targets() {
    let out = "\
Agent 1
  Name:                    AMD EPYC 9654 96-Core Processor
  Marketing Name:          AMD EPYC 9654 96-Core Processor
  Device Type:             CPU
*** Done ***
";
    assert!(parse_rocminfo_gpu_agents(out).is_empty());
}

#[test]
fn rocminfo_agents_without_isa_lines_still_parse() {
    let out = "\
Agent 1
  Name:                    AMD Ryzen 9 7950X 16-Core Processor
  Marketing Name:          AMD Ryzen 9 7950X 16-Core Processor
  Device Type:             CPU
Agent 2
  Name:                    gfx942
  Marketing Name:          AMD Instinct MI300X
  Device Type:             GPU
Agent 3
  Name:                    gfx942
  Marketing Name:          AMD Instinct MI300X
  Device Type:             GPU
";
    assert_eq!(
        parse_rocminfo_gpu_agents(out),
        vec![
            ("gfx942".to_owned(), "AMD Instinct MI300X".to_owned()),
            ("gfx942".to_owned(), "AMD Instinct MI300X".to_owned()),
        ]
    );
}

#[test]
fn rocminfo_targets_fill_lspci_gpus_without_changing_their_apu_verdict() {
    let mut e = Examination {
        gpus: vec![
            Gpu {
                name: "Navi 31 [Radeon RX 7900 XT]".to_owned(),
                is_amd: true,
                is_apu: Some(false),
                ..Gpu::default()
            },
            Gpu {
                name: "Raphael".to_owned(),
                is_amd: true,
                is_apu: Some(true),
                ..Gpu::default()
            },
        ],
        ..Examination::default()
    };
    apply_rocminfo_gpu_agents(&mut e, parse_rocminfo_gpu_agents(ROCMINFO_APU_PLUS_DGPU));
    assert_eq!(e.gpus[0].gfx_target, "gfx1100");
    assert_eq!(e.gpus[0].is_apu, Some(false));
    assert_eq!(e.gpus[1].gfx_target, "gfx1036");
    assert_eq!(
        e.gpus[1].is_apu,
        Some(true),
        "lspci's APU verdict must survive"
    );
    assert_eq!(
        e.gpus.len(),
        2,
        "no extra GPUs appended when lspci listed both"
    );
}

#[test]
fn rocminfo_agents_beyond_lspci_are_appended_with_a_family_verdict() {
    let mut e = Examination::default();
    apply_rocminfo_gpu_agents(&mut e, parse_rocminfo_gpu_agents(ROCMINFO_APU_PLUS_DGPU));
    assert_eq!(e.gpus.len(), 2);
    assert_eq!(e.gpus[0].gfx_target, "gfx1100");
    assert_eq!(e.gpus[0].name, "AMD Radeon RX 7900 XT");
    assert_eq!(e.gpus[0].is_apu, Some(false));
    assert!(e.gpus[0].is_amd);
    assert_eq!(e.gpus[1].gfx_target, "gfx1036");
}

#[test]
fn rocminfo_target_overrides_an_lspci_guess_the_family_table_can_settle() {
    let mut e = Examination {
        gpus: vec![Gpu {
            name: "AMD Radeon(TM) Graphics".to_owned(),
            is_amd: true,
            is_apu: Some(false),
            ..Gpu::default()
        }],
        ..Examination::default()
    };
    apply_rocminfo_gpu_agents(
        &mut e,
        vec![("gfx1151".to_owned(), "AMD Radeon 8060S Graphics".to_owned())],
    );
    assert_eq!(e.gpus[0].gfx_target, "gfx1151");
    assert_eq!(
        e.gpus[0].is_apu,
        Some(true),
        "rocminfo's target outranks lspci's marketing-name guess where the family table has a verdict"
    );
}

#[test]
fn rocminfo_agents_map_onto_lspci_gpus_positionally_and_must_not_swap() {
    let mut e = Examination {
        gpus: vec![
            Gpu {
                name: "Navi 31 [Radeon RX 7900 XT]".to_owned(),
                pci_id: "0000:03:00.0".to_owned(),
                is_amd: true,
                is_apu: Some(false),
                ..Gpu::default()
            },
            Gpu {
                name: "Raphael".to_owned(),
                pci_id: "0000:0f:00.0".to_owned(),
                is_amd: true,
                is_apu: Some(true),
                ..Gpu::default()
            },
        ],
        ..Examination::default()
    };
    apply_rocminfo_gpu_agents(&mut e, parse_rocminfo_gpu_agents(ROCMINFO_APU_PLUS_DGPU));
    assert_eq!(
        (e.gpus[0].pci_id.as_str(), e.gpus[0].gfx_target.as_str()),
        ("0000:03:00.0", "gfx1100"),
        "the first agent's target must land on the first AMD GPU lspci listed"
    );
    assert_eq!(
        (e.gpus[1].pci_id.as_str(), e.gpus[1].gfx_target.as_str()),
        ("0000:0f:00.0", "gfx1036"),
        "the second agent's target must land on the second AMD GPU lspci listed"
    );
}

#[test]
fn gfx_family_verdict_separates_no_opinion_from_discrete() {
    assert_eq!(gfx_apu_family_verdict("gfx1151"), Some(true));
    assert_eq!(gfx_apu_family_verdict("gfx1103"), Some(true));
    assert_eq!(gfx_apu_family_verdict("gfx1100"), Some(false));
    assert_eq!(gfx_apu_family_verdict("gfx1036"), None);
    assert_eq!(gfx_apu_family_verdict("gfx942"), None);
    assert_eq!(gfx_apu_family_verdict("gfx1030"), None);
    assert_eq!(gfx_apu_family_verdict(""), None);
    assert!(!gfx_is_apu_family("gfx1036"));
}

#[test]
fn gfx_apu_family_neighboring_contract() {
    assert!(!gfx_is_apu_family("gfx1100"));
    assert!(!gfx_is_apu_family("gfx1101"));
    assert!(!gfx_is_apu_family("gfx1102"));
    assert!(gfx_is_apu_family("gfx1103"));
    assert!(gfx_is_apu_family("gfx1150"));
    assert!(gfx_is_apu_family("gfx1151"));
    assert!(gfx_is_apu_family("gfx1152"));
    assert!(gfx_is_apu_family("gfx1153"));
    assert!(!gfx_is_apu_family("gfx1200"));
    assert!(!gfx_is_apu_family("gfx942"));
    assert!(gfx_is_apu_family("gfx1103:sramecc+:xnack-"));
    assert!(!gfx_is_apu_family("gfx1100:xnack-"));
    assert!(!gfx_is_apu_family("gfx110"));
    assert!(!gfx_is_apu_family(""));
}

#[test]
fn apu_plus_discrete_neighbor_sets_both_category_flags() {
    let mut e = Examination {
        gpus: vec![
            Gpu {
                gfx_target: "gfx1103".to_owned(),
                is_amd: true,
                is_apu: Some(gfx_is_apu_family("gfx1103")),
                ..Gpu::default()
            },
            Gpu {
                gfx_target: "gfx1100".to_owned(),
                is_amd: true,
                is_apu: Some(gfx_is_apu_family("gfx1100")),
                ..Gpu::default()
            },
        ],
        ..Examination::default()
    };
    summarise_gpu_categories(&mut e);
    assert!(e.has_apu, "gfx1103 APU should set has_apu");
    assert!(
        e.has_discrete_amd,
        "gfx1100 dGPU should set has_discrete_amd"
    );
}

#[test]
fn lone_discrete_rdna3_is_not_reported_as_apu() {
    let mut e = Examination {
        gpus: vec![Gpu {
            gfx_target: "gfx1100".to_owned(),
            is_amd: true,
            is_apu: Some(gfx_is_apu_family("gfx1100")),
            ..Gpu::default()
        }],
        ..Examination::default()
    };
    summarise_gpu_categories(&mut e);
    assert!(!e.has_apu, "a lone gfx1100 dGPU must not set has_apu");
    assert!(e.has_discrete_amd);
}

#[test]
fn marketing_name_maps_strix_halo() {
    assert_eq!(
        classify_amd_marketing_name("AMD Radeon(TM) 8060S Graphics"),
        ("gfx1151".to_owned(), true)
    );
    assert_eq!(
        classify_amd_marketing_name("Ryzen AI Max+ 395"),
        ("gfx1151".to_owned(), true)
    );
}

#[test]
fn rocm_version_extracted_from_path() {
    assert_eq!(
        extract_rocm_version("/opt/rocm-6.4.1"),
        Some("6.4.1".to_owned())
    );
    assert_eq!(extract_rocm_version("/opt/rocm"), None);
}

#[test]
fn an_unmeasurable_shared_memory_allowance_leaves_a_trace() {
    let e = Examination {
        os_family: "linux".to_owned(),
        has_amd_gpu: true,
        ..Examination::default()
    };
    let path = "/nonexistent-shm-for-this-test";
    let mut h = Answers::new();
    h.record(Question::Filesystem(path.to_owned()), Reply::Filesystem(None));
    let e = probe_shared_memory_at(e, &h, path).expect("every question is answered");

    assert_eq!(
        e.shm_total_bytes, None,
        "an unreadable path must not invent a measurement"
    );
    assert!(
        e.probe_failures.iter().any(|f| f.contains("shared-memory")),
        "the failure has to be recorded, not swallowed: {:?}",
        e.probe_failures
    );
    assert_eq!(
        e.compute_status(),
        "degraded",
        "a probe that could not run must not leave the machine looking clean"
    );
}

#[test]
fn a_host_that_could_not_be_queried_is_unknown_not_driverless() {
    assert_eq!(
        host_driver_fields(WslHostDriverProbe::Unreachable),
        (false, None),
        "unreachable must stay unknown"
    );
    assert_eq!(
        host_driver_fields(WslHostDriverProbe::NoAmdDisplay),
        (true, Some(String::new())),
        "answered with no adapter is evidence, and is not the same thing"
    );
    assert_eq!(
        host_driver_fields(WslHostDriverProbe::Version("32.0.1".to_owned())),
        (true, Some("32.0.1".to_owned()))
    );
}

#[test]
fn probe_wsl_leaves_rocminfo_status_synced_not_at_its_uninitialized_default() {
    // Whatever the host answers: with and without `rocminfo` on PATH.
    for present in [false, true] {
        let e = settle(
            |h| probe_wsl(Examination::default(), h),
            |q| match q {
                Question::WslPlumbing => Reply::WslSummary(None),
                Question::WslHostDriver => Reply::HostDriver(WslHostDriverProbe::Unreachable),
                Question::EnvVar(_) => Reply::OptionalText(Some("/usr/bin".to_owned())),
                Question::Platform => Reply::Platform(OsFamily::Linux),
                Question::FileIn { .. } => Reply::Flag(present),
                Question::LdconfigListsRocdxg => Reply::OptionalFlag(None),
                Question::Run(_) => printed("  Name: gfx1100\n"),
                _ => Reply::Flag(false),
            },
        );
        assert_ne!(
            e.rocminfo_status, "",
            "sync_shared_fields_from_wsl must have run and set a real status"
        );
        assert_eq!(e.rocminfo_present, present);
    }
}

#[test]
fn command_output_that_is_not_utf8_is_kept_rather_than_dropped() {
    let mut h = Answers::new();
    let args = vec!["ok\\xffdone".to_owned()];
    h.record(
        Question::Run(Command {
            program: "printf".to_owned(),
            args: args.clone(),
            envs: Vec::new(),
            timeout_secs: SHORT,
        }),
        Reply::Output(RawOutput {
            rc: 0,
            stdout: b"ok\xffdone".to_vec(),
            stderr: Vec::new(),
        }),
    );
    let out = run(&h, "printf", args, SHORT).expect("the command was run").stdout;
    assert!(
        out.starts_with("ok") && out.ends_with("done"),
        "the undecodable byte must not take the rest of the output with it: {out:?}"
    );
}

#[test]
fn asking_to_skip_the_frameworks_is_recorded_as_skipped() {
    let h = Answers::new();
    let e = probe_framework(Examination::default(), &h, FrameworkProbe::Skip, None)
        .expect("nothing is asked");
    assert_eq!(e.framework, "skipped");
}

#[test]
fn a_skipped_framework_probe_runs_no_interpreter() {
    let h = Answers::new();
    let e = probe_framework(Examination::default(), &h, FrameworkProbe::Skip, None)
        .expect("nothing is asked");
    assert!(e.framework_version.is_empty());
    assert!(e.framework_rocm_version.is_empty());
    assert!(e.framework_arch_list.is_empty());
    assert!(e.framework_notes.is_empty());
}

/// A stand-in for a managed runtime's interpreter. It answers like a ROCm torch
/// only when the runtime's library directory reached it on the loader path.
fn fake_runtime_host(q: &Question) -> Reply {
    let ok = r#"{"ok":true,"version":"2.11.0+rocm7.14.1","hip":"7.14.60850","cuda":null,"is_available":true,"device_count":1,"arch_list":["gfx942"]}"#;
    let broken = r#"{"ok":false,"error":"ImportError: libroctx64.so.4: cannot open shared object file"}"#;
    match q {
        Question::LoaderPathEntries => Reply::Paths(Some(vec!["/usr/lib".to_owned()])),
        Question::JoinLoaderPath(entries) => Reply::LoaderPath(LoaderPath {
            variable: "LD_LIBRARY_PATH".to_owned(),
            composed: Ok(entries.join(":")),
        }),
        Question::Run(command) => {
            assert_eq!(command.program, "/runtime/python");
            let marked = command
                .envs
                .iter()
                .any(|(key, value)| key == "LD_LIBRARY_PATH" && value.contains("/runtime/lib"));
            printed(if marked { ok } else { broken })
        }
        other => panic!("the managed runtime's probe asked for {other:?}"),
    }
}

#[test]
fn the_framework_probe_reads_the_active_runtimes_torch() {
    let interpreter = FrameworkInterpreter {
        python: "/runtime/python".to_owned(),
        library_paths: vec!["/runtime/lib".to_owned()],
    };
    let e = settle(
        |h| {
            probe_framework(
                Examination::default(),
                h,
                FrameworkProbe::PyTorch,
                Some(&interpreter),
            )
        },
        fake_runtime_host,
    );

    assert_eq!(e.framework, "pytorch");
    assert_eq!(e.framework_version, "2.11.0+rocm7.14.1");
    assert_eq!(e.framework_rocm_version, "hip=7.14.60850");
    assert_eq!(e.framework_arch_list, vec!["gfx942".to_owned()]);
    assert_eq!(e.framework_source, "managed-runtime");
    assert!(
        e.framework_notes
            .iter()
            .any(|note| note.contains("active managed runtime's interpreter")),
        "the shift away from PATH must be self-describing: {:?}",
        e.framework_notes
    );
}

#[test]
fn the_framework_probe_gives_the_runtimes_torch_its_library_path() {
    let interpreter = FrameworkInterpreter {
        python: "/runtime/python".to_owned(),
        library_paths: Vec::new(),
    };
    let e = settle(
        |h| {
            probe_framework(
                Examination::default(),
                h,
                FrameworkProbe::PyTorch,
                Some(&interpreter),
            )
        },
        fake_runtime_host,
    );

    assert_eq!(e.framework, "unknown");
    assert_eq!(e.framework_source, "managed-runtime");
    assert!(
        e.framework_notes
            .iter()
            .any(|note| note.contains("libroctx64.so.4")),
        "expected the loader failure to be reported: {:?}",
        e.framework_notes
    );
}

#[test]
fn the_sysfs_fallback_leaves_a_real_pci_enumeration_alone() {
    let e = Examination {
        os_family: "linux".to_owned(),
        gpus: vec![Gpu {
            name: "Instinct MI300X".to_owned(),
            gfx_target: "gfx942".to_owned(),
            pci_id: "1002:74a1".to_owned(),
            is_amd: true,
            is_apu: Some(false),
        }],
        ..Examination::default()
    };
    let h = Answers::new();
    let e = probe_gpus_sysfs_fallback(e, &h).expect("nothing is asked");
    assert_eq!(e.gpus.len(), 1, "the fallback must not add a second entry");
    assert_eq!(e.gpus[0].pci_id, "1002:74a1");
    assert!(
        e.notes.is_empty(),
        "a no-op fallback should not annotate the report"
    );
}

#[test]
fn os_version_carries_a_version_not_the_os_name() {
    for os in [OsFamily::Linux, OsFamily::Windows, OsFamily::Other] {
        let e = settle(
            |h| probe_os(Examination::default(), h),
            |q| match q {
                Question::Platform => Reply::Platform(os),
                Question::Run(command) if command.program == "uname" => {
                    if command.args[0] == "-v" {
                        printed("#1 SMP PREEMPT_DYNAMIC Mon Jan 1\n")
                    } else {
                        printed("6.8.0-45-generic\n")
                    }
                }
                Question::Run(_) => printed("\r\nMicrosoft Windows [Version 10.0.26100]\r\n"),
                Question::IsWslHost => Reply::Flag(false),
                _ => Reply::Text(String::new()),
            },
        );
        assert_ne!(e.os_version, "linux");
        assert_ne!(e.os_version, "windows");
        if os == OsFamily::Other {
            assert!(
                e.os_version.is_empty(),
                "unsupported hosts report no version, got {:?}",
                e.os_version
            );
        } else {
            assert!(
                !e.os_version.is_empty(),
                "a supported host must report an OS version"
            );
            assert_ne!(e.os_version, e.os_family);
        }
    }
}
