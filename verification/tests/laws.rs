use rocm_examine::devices::probe_devices;
use rocm_examine::examination::{Examination, FrameworkProbe, Gpu};
use rocm_examine::framework::{probe_framework, FrameworkInterpreter};
use rocm_examine::gfx::gfx_apu_family_verdict;
use rocm_examine::gpu::{record_lspci, summarise_gpu_categories};
use rocm_examine::host::{
    Answers, DirEntry, LoaderPath, OsFamily, Question, RawOutput, Reply, WslHostDriverProbe,
    WslSummary,
};
use rocm_examine::rocminfo::{apply_rocminfo_gpu_agents, parse_rocminfo_gpu_agents};
use rocm_examine::utf16::decode_utf16le;
use rocm_examine::wsl::{
    examine_remote, parse_remote_fields, parse_wsl_distro_list, probe_wsl_distro_from_host,
    record_guest, select_wsl_distro,
};

fn exited(rc: i32, stdout: &str) -> Reply {
    Reply::Output(RawOutput {
        rc,
        stdout: stdout.as_bytes().to_vec(),
        stderr: Vec::new(),
    })
}

fn amd(gfx_target: &str) -> Gpu {
    Gpu {
        gfx_target: gfx_target.to_owned(),
        is_amd: true,
        ..Gpu::default()
    }
}

#[test]
fn both_sides_of_a_guest_agree() {
    let fields = parse_remote_fields(
        "dxg=1\ndxcore=0\nwsllib=1\nlibrocdxg=1\ndids=0\nldconfig=1\nrocminfo=1\nrocmgfx=1\nid=Ubuntu\nversion=24.04\n",
    );
    let outside = examine_remote(&fields, WslHostDriverProbe::Unreachable, false);
    let mut inside = Examination {
        distro_id: "Ubuntu".to_owned(),
        distro_version: "24.04".to_owned(),
        ..Examination::default()
    };
    record_guest(
        &mut inside,
        Some(WslSummary {
            dxg_device: true,
            dxcore: false,
            librocdxg: true,
            rocdxg_dids: false,
        }),
        WslHostDriverProbe::Unreachable,
        true,
        false,
        true,
        Some(true),
        Some(true),
    );
    let mut facts = inside.wsl.expect("the facts are there");
    assert!(facts.locally_probed);
    facts.locally_probed = false;
    assert_eq!(outside.wsl, Some(facts));
    assert_eq!(outside.rocminfo_status, inside.rocminfo_status);
}

#[test]
fn a_finished_inspection_stands() {
    let mut h = Answers::new();
    h.record(Question::EnvVar("PATH".to_owned()), Reply::OptionalText(None));
    let reason = "wsl.exe was not found; inspecting a distribution this way only works from the Windows host";
    let first = probe_wsl_distro_from_host(None, &h).expect("nothing is open");
    assert_eq!(first.expect_err("there is no wsl.exe"), reason);
    h.record(Question::Platform, Reply::Platform(OsFamily::Linux));
    let second = probe_wsl_distro_from_host(None, &h).expect("nothing is open");
    assert_eq!(second.expect_err("there is no wsl.exe"), reason);
}

#[test]
fn agents_skip_what_is_not_amds() {
    let nvidia = Gpu {
        name: "NVIDIA".to_owned(),
        is_apu: Some(false),
        ..Gpu::default()
    };
    let mut e = Examination {
        gpus: vec![amd("old"), nvidia.clone(), amd("kept")],
        ..Examination::default()
    };
    apply_rocminfo_gpu_agents(&mut e, vec![("gfx942".to_owned(), "MI300X".to_owned())]);
    assert_eq!(e.gpus.len(), 3);
    assert_eq!(e.gpus[0].gfx_target, "gfx942");
    assert_eq!(e.gpus[0].name, "MI300X");
    assert_eq!(e.gpus[1], nvidia);
    assert_eq!(e.gpus[2], amd("kept"));
    // Two more agents than AMD GPUs become GPUs of their own, behind the others.
    let agents = ["gfx1", "gfx2", "gfx1151", "gfx1100"]
        .iter()
        .map(|gfx| ((*gfx).to_owned(), String::new()))
        .collect();
    apply_rocminfo_gpu_agents(&mut e, agents);
    let targets: Vec<&str> = e.gpus.iter().map(|gpu| gpu.gfx_target.as_str()).collect();
    assert_eq!(targets, vec!["gfx1", "", "gfx2", "gfx1151", "gfx1100"]);
    assert_eq!(e.gpus[3].name, "AMD GPU");
    assert_eq!((e.gpus[3].is_apu, e.gpus[4].is_apu), (Some(true), Some(false)));
    let before = e.gpus.clone();
    apply_rocminfo_gpu_agents(&mut e, Vec::new());
    assert_eq!(e.gpus, before);
}

#[test]
fn names_behind_the_first_change_nothing() {
    let with = "Agent 1\nName: gfx90a\nName: amdgcn\nDevice Type: GPU\n  Name: gfx942\nAgent 2\n";
    let without = "Agent 1\nName: gfx90a\nDevice Type: GPU\nAgent 2\n";
    assert_eq!(parse_rocminfo_gpu_agents(with), parse_rocminfo_gpu_agents(without));
    assert_eq!(parse_rocminfo_gpu_agents(with).len(), 1);
}

#[test]
fn every_digit_of_the_two_families_has_its_verdict() {
    for digit in 0..10 {
        for suffix in ["", "0", ":xnack-"] {
            assert_eq!(
                gfx_apu_family_verdict(&format!("gfx110{digit}{suffix}")),
                Some(digit >= 3)
            );
            assert_eq!(
                gfx_apu_family_verdict(&format!("gfx115{digit}{suffix}")),
                Some(true)
            );
            assert_eq!(gfx_apu_family_verdict(&format!("gfx120{digit}{suffix}")), None);
        }
    }
}

#[test]
fn categories_and_flags_agree_with_the_list() {
    let mut e = Examination::default();
    record_lspci(
        &mut e,
        "01:00.0 3D controller: NVIDIA [10de:1]\n02:00.0 VGA compatible controller: AMD Phoenix [1002:1]\n",
    );
    summarise_gpu_categories(&mut e);
    assert!(e.has_nvidia_gpu && e.has_amd_gpu && e.has_apu && !e.has_discrete_amd);
    let mut e = Examination::default();
    summarise_gpu_categories(&mut e);
    assert!(!e.has_nvidia_gpu && !e.has_amd_gpu && !e.has_apu && !e.has_discrete_amd);
}

#[test]
fn the_runtimes_directories_come_first() {
    let runtime = FrameworkInterpreter {
        python: "/rt/python".to_owned(),
        library_paths: vec!["/rt/b".to_owned(), "/rt/a".to_owned()],
    };
    let mut h = Answers::new();
    let e = loop {
        match probe_framework(Examination::default(), &h, FrameworkProbe::PyTorch, Some(&runtime)) {
            Ok(e) => break e,
            Err(q) => {
                let reply = match &q {
                    Question::LoaderPathEntries => {
                        Reply::Paths(Some(vec!["/usr/lib".to_owned(), "/rt/a".to_owned()]))
                    }
                    Question::JoinLoaderPath(entries) => {
                        assert_eq!(*entries, vec!["/rt/b", "/rt/a", "/usr/lib", "/rt/a"]);
                        Reply::LoaderPath(LoaderPath {
                            variable: "V".to_owned(),
                            composed: Ok("joined".to_owned()),
                        })
                    }
                    Question::Run(command) => {
                        assert_eq!(command.program, "/rt/python");
                        assert_eq!(command.envs, vec![("V".to_owned(), "joined".to_owned())]);
                        assert_eq!(command.timeout_secs, 20);
                        exited(0, r#"{"ok":true}"#)
                    }
                    other => panic!("{other:?}"),
                };
                h.record(q, reply);
            }
        }
    };
    assert_eq!(e.framework, "pytorch");
    assert_eq!(e.framework_notes.len(), 1);
}

#[test]
fn names_survive_the_list_with_their_blanks() {
    let names = ["My Distro", "Ubuntu-24.04", "\u{423}\u{431}", "a  b"];
    let mut bytes = vec![0xff, 0xfe];
    for name in names {
        for unit in format!("{name}\r\n").encode_utf16() {
            bytes.extend_from_slice(&unit.to_le_bytes());
        }
    }
    let read = parse_wsl_distro_list(&decode_utf16le(&bytes));
    assert_eq!(read, names);
    for name in names {
        assert_eq!(select_wsl_distro(Some(name), &read), Ok(name.to_owned()));
    }
}

#[test]
fn render_nodes_are_ordered_by_path() {
    let names = ["renderD9", "renderD128", "renderD130", "renderD129"];
    let mut h = Answers::new();
    let e = loop {
        match probe_devices(Examination::default(), &h) {
            Ok(e) => break e,
            Err(q) => {
                let reply = match &q {
                    Question::ListDir(dir) => Reply::Listing(Some(
                        names
                            .iter()
                            .map(|name| DirEntry {
                                name: (*name).to_owned(),
                                path: format!("{dir}/{name}"),
                            })
                            .collect(),
                    )),
                    Question::Exists(_) => Reply::Flag(false),
                    other => panic!("{other:?}"),
                };
                h.record(q, reply);
            }
        }
    };
    let paths: Vec<&str> = e.render_devices.iter().map(|d| d.path.as_str()).collect();
    assert_eq!(
        paths,
        vec![
            "/dev/dri/renderD128",
            "/dev/dri/renderD129",
            "/dev/dri/renderD130",
            "/dev/dri/renderD9",
        ]
    );
}
