//! The examination of a host, probe by probe.

use vstd::prelude::*;
use vstd::string::*;

use crate::ask::outcome;
use crate::devices::{
    devices_probed, modules_probed, probe_devices, probe_modules, probe_secure_boot, probe_user,
    secure_boot_probed, user_probed,
};
use crate::examination::{
    status_of, unexamined, with_note, Examination, ExaminationView, FrameworkProbe,
};
use crate::framework::{
    framework_probed, interpreter_view, probe_framework, FrameworkInterpreter,
    FrameworkInterpreterView,
};
use crate::gpu::{
    lspci_probed, probe_gpus_lspci, probe_gpus_sysfs_fallback, summarise_gpu_categories, summarised,
    topology_probed,
};
use crate::host::{Answers, Host, Question, QuestionView};
use crate::install::{probe_rocm_install, rocm_install_probed};
use crate::platform::{
    cpu_linux_probed, cpu_windows_probed, os_probed, probe_cpu_linux, probe_cpu_windows, probe_os,
};
use crate::rocminfo::{probe_gpus_rocminfo, rocminfo_probed};
use crate::split::concat3;
use crate::surroundings::{
    container_probed, env_probed, log_probed, probe_container, probe_dmesg_amdgpu, probe_env,
    probe_shared_memory, shared_memory_probed, SHM_PATH,
};
use crate::text::same_text;
use crate::windows::{
    adrenalin_probed, hip_sdk_probed, msvc_probed, probe_adrenalin_windows, probe_gpus_windows,
    probe_hip_sdk_windows, probe_msvc_redist_windows, windows_gpus_probed,
};
use crate::wsl::{probe_wsl, wsl_probed};

verus! {

/// `e` after processor and GPUs of a Linux host were asked about. Each source of
/// GPUs builds on the ones before it.
pub open spec fn linux_gpus_probed(h: Host, e: ExaminationView) -> Result<
    ExaminationView,
    QuestionView,
> {
    match cpu_linux_probed(h, e) {
        Err(q) => Err(q),
        Ok(e) => match lspci_probed(h, e) {
            Err(q) => Err(q),
            Ok(e) => match rocminfo_probed(h, e) {
                Err(q) => Err(q),
                Ok(e) => match topology_probed(h, e) {
                    Err(q) => Err(q),
                    Ok(e) => Ok(summarised(e)),
                },
            },
        },
    }
}

fn probe_linux_gpus(e: Examination, h: &Answers) -> (r: Result<Examination, Question>)
    ensures
        outcome(r) == linux_gpus_probed(h@, e@),
{
    let e = match probe_cpu_linux(e, h) {
        Ok(e) => e,
        Err(q) => {
            return Err(q);
        },
    };
    let e = match probe_gpus_lspci(e, h) {
        Ok(e) => e,
        Err(q) => {
            return Err(q);
        },
    };
    let e = match probe_gpus_rocminfo(e, h) {
        Ok(e) => e,
        Err(q) => {
            return Err(q);
        },
    };
    let mut e = match probe_gpus_sysfs_fallback(e, h) {
        Ok(e) => e,
        Err(q) => {
            return Err(q);
        },
    };
    summarise_gpu_categories(&mut e);
    Ok(e)
}

/// `e` after the driver of a Linux host was asked about. The user comes before
/// the devices, whose access depends on the groups.
pub open spec fn linux_driver_probed(h: Host, e: ExaminationView) -> Result<
    ExaminationView,
    QuestionView,
> {
    match modules_probed(h, e) {
        Err(q) => Err(q),
        Ok(e) => match user_probed(h, e) {
            Err(q) => Err(q),
            Ok(e) => match devices_probed(h, e) {
                Err(q) => Err(q),
                Ok(e) => secure_boot_probed(h, e),
            },
        },
    }
}

fn probe_linux_driver(e: Examination, h: &Answers) -> (r: Result<Examination, Question>)
    ensures
        outcome(r) == linux_driver_probed(h@, e@),
{
    let e = match probe_modules(e, h) {
        Ok(e) => e,
        Err(q) => {
            return Err(q);
        },
    };
    let e = match probe_user(e, h) {
        Ok(e) => e,
        Err(q) => {
            return Err(q);
        },
    };
    let e = match probe_devices(e, h) {
        Ok(e) => e,
        Err(q) => {
            return Err(q);
        },
    };
    probe_secure_boot(e, h)
}

/// `e` after the ROCm install of a Linux host and its surroundings were asked
/// about.
pub open spec fn linux_surroundings_probed(h: Host, e: ExaminationView) -> Result<
    ExaminationView,
    QuestionView,
> {
    match rocm_install_probed(h, e) {
        Err(q) => Err(q),
        Ok(e) => match env_probed(h, e) {
            Err(q) => Err(q),
            Ok(e) => match container_probed(h, e) {
                Err(q) => Err(q),
                Ok(e) => match shared_memory_probed(h, e, SHM_PATH@) {
                    Err(q) => Err(q),
                    Ok(e) => log_probed(h, e),
                },
            },
        },
    }
}

fn probe_linux_surroundings(e: Examination, h: &Answers) -> (r: Result<Examination, Question>)
    ensures
        outcome(r) == linux_surroundings_probed(h@, e@),
{
    let e = match probe_rocm_install(e, h) {
        Ok(e) => e,
        Err(q) => {
            return Err(q);
        },
    };
    let e = match probe_env(e, h) {
        Ok(e) => e,
        Err(q) => {
            return Err(q);
        },
    };
    let e = match probe_container(e, h) {
        Ok(e) => e,
        Err(q) => {
            return Err(q);
        },
    };
    let e = match probe_shared_memory(e, h) {
        Ok(e) => e,
        Err(q) => {
            return Err(q);
        },
    };
    probe_dmesg_amdgpu(e, h)
}

/// `e` after a Linux host was probed.
pub open spec fn linux_host_probed(
    h: Host,
    e: ExaminationView,
    framework: FrameworkProbe,
    interpreter: Option<FrameworkInterpreterView>,
) -> Result<ExaminationView, QuestionView> {
    match linux_gpus_probed(h, e) {
        Err(q) => Err(q),
        Ok(e) => match linux_driver_probed(h, e) {
            Err(q) => Err(q),
            Ok(e) => match linux_surroundings_probed(h, e) {
                Err(q) => Err(q),
                Ok(e) => framework_probed(h, e, framework, interpreter),
            },
        },
    }
}

fn probe_linux_host(
    e: Examination,
    h: &Answers,
    framework: FrameworkProbe,
    interpreter: Option<&FrameworkInterpreter>,
) -> (r: Result<Examination, Question>)
    ensures
        outcome(r) == linux_host_probed(h@, e@, framework, interpreter_view(interpreter)),
{
    let e = match probe_linux_gpus(e, h) {
        Ok(e) => e,
        Err(q) => {
            return Err(q);
        },
    };
    let e = match probe_linux_driver(e, h) {
        Ok(e) => e,
        Err(q) => {
            return Err(q);
        },
    };
    let e = match probe_linux_surroundings(e, h) {
        Ok(e) => e,
        Err(q) => {
            return Err(q);
        },
    };
    probe_framework(e, h, framework, interpreter)
}

/// `e` after processor, GPUs and libraries of a Windows host were asked about.
pub open spec fn windows_inventory_probed(h: Host, e: ExaminationView) -> Result<
    ExaminationView,
    QuestionView,
> {
    match cpu_windows_probed(h, e) {
        Err(q) => Err(q),
        Ok(e) => match windows_gpus_probed(h, e) {
            Err(q) => Err(q),
            Ok(e) => match hip_sdk_probed(h, e) {
                Err(q) => Err(q),
                Ok(e) => match adrenalin_probed(h, e) {
                    Err(q) => Err(q),
                    Ok(e) => match msvc_probed(h, e) {
                        Err(q) => Err(q),
                        Ok(e) => Ok(summarised(e)),
                    },
                },
            },
        },
    }
}

fn probe_windows_inventory(e: Examination, h: &Answers) -> (r: Result<Examination, Question>)
    ensures
        outcome(r) == windows_inventory_probed(h@, e@),
{
    let e = match probe_cpu_windows(e, h) {
        Ok(e) => e,
        Err(q) => {
            return Err(q);
        },
    };
    let e = match probe_gpus_windows(e, h) {
        Ok(e) => e,
        Err(q) => {
            return Err(q);
        },
    };
    let e = match probe_hip_sdk_windows(e, h) {
        Ok(e) => e,
        Err(q) => {
            return Err(q);
        },
    };
    let e = match probe_adrenalin_windows(e, h) {
        Ok(e) => e,
        Err(q) => {
            return Err(q);
        },
    };
    let mut e = match probe_msvc_redist_windows(e, h) {
        Ok(e) => e,
        Err(q) => {
            return Err(q);
        },
    };
    summarise_gpu_categories(&mut e);
    Ok(e)
}

/// `e` after a Windows host was probed.
pub open spec fn windows_host_probed(
    h: Host,
    e: ExaminationView,
    framework: FrameworkProbe,
    interpreter: Option<FrameworkInterpreterView>,
) -> Result<ExaminationView, QuestionView> {
    match windows_inventory_probed(h, e) {
        Err(q) => Err(q),
        Ok(e) => match env_probed(h, e) {
            Err(q) => Err(q),
            Ok(e) => framework_probed(h, e, framework, interpreter),
        },
    }
}

fn probe_windows_host(
    e: Examination,
    h: &Answers,
    framework: FrameworkProbe,
    interpreter: Option<&FrameworkInterpreter>,
) -> (r: Result<Examination, Question>)
    ensures
        outcome(r) == windows_host_probed(h@, e@, framework, interpreter_view(interpreter)),
{
    let e = match probe_windows_inventory(e, h) {
        Ok(e) => e,
        Err(q) => {
            return Err(q);
        },
    };
    let e = match probe_env(e, h) {
        Ok(e) => e,
        Err(q) => {
            return Err(q);
        },
    };
    probe_framework(e, h, framework, interpreter)
}

/// `e` after a WSL guest was probed. The driver probes are skipped: a guest
/// reaches the GPU through `/dev/dxg` and the Windows host driver, so asking
/// about modules, groups or `/dev/kfd` would only mislead.
pub open spec fn wsl_guest_probed(
    h: Host,
    e: ExaminationView,
    framework: FrameworkProbe,
    interpreter: Option<FrameworkInterpreterView>,
) -> Result<ExaminationView, QuestionView> {
    match wsl_probed(h, e) {
        Err(q) => Err(q),
        Ok(e) => match rocm_install_probed(h, e) {
            Err(q) => Err(q),
            Ok(e) => match env_probed(h, e) {
                Err(q) => Err(q),
                Ok(e) => match container_probed(h, e) {
                    Err(q) => Err(q),
                    Ok(e) => match framework_probed(h, e, framework, interpreter) {
                        Err(q) => Err(q),
                        Ok(e) => shared_memory_probed(h, e, SHM_PATH@),
                    },
                },
            },
        },
    }
}

fn probe_wsl_guest(
    e: Examination,
    h: &Answers,
    framework: FrameworkProbe,
    interpreter: Option<&FrameworkInterpreter>,
) -> (r: Result<Examination, Question>)
    ensures
        outcome(r) == wsl_guest_probed(h@, e@, framework, interpreter_view(interpreter)),
{
    let e = match probe_wsl(e, h) {
        Ok(e) => e,
        Err(q) => {
            return Err(q);
        },
    };
    let e = match probe_rocm_install(e, h) {
        Ok(e) => e,
        Err(q) => {
            return Err(q);
        },
    };
    let e = match probe_env(e, h) {
        Ok(e) => e,
        Err(q) => {
            return Err(q);
        },
    };
    let e = match probe_container(e, h) {
        Ok(e) => e,
        Err(q) => {
            return Err(q);
        },
    };
    let e = match probe_framework(e, h, framework, interpreter) {
        Ok(e) => e,
        Err(q) => {
            return Err(q);
        },
    };
    probe_shared_memory(e, h)
}

/// `e` with a note that its platform is not supported.
pub open spec fn unsupported_noted(e: ExaminationView) -> ExaminationView {
    with_note(
        e,
        "rocm examine supports Linux and Windows; got "@ + e.os_family
            + ". This skill cannot help on this platform."@,
    )
}

/// `e` after the probes that fit the operating system.
pub open spec fn platform_probed(
    h: Host,
    e: ExaminationView,
    framework: FrameworkProbe,
    interpreter: Option<FrameworkInterpreterView>,
) -> Result<ExaminationView, QuestionView> {
    if e.is_wsl {
        wsl_guest_probed(h, e, framework, interpreter)
    } else if e.os_family == "linux"@ {
        linux_host_probed(h, e, framework, interpreter)
    } else if e.os_family == "windows"@ {
        windows_host_probed(h, e, framework, interpreter)
    } else {
        Ok(unsupported_noted(e))
    }
}

/// `e` with the verdict on what it found.
pub open spec fn with_status(e: ExaminationView) -> ExaminationView {
    ExaminationView { status: status_of(e), ..e }
}

/// The examination of a host, or the question it is waiting for.
pub open spec fn examined(
    h: Host,
    framework: FrameworkProbe,
    interpreter: Option<FrameworkInterpreterView>,
) -> Result<ExaminationView, QuestionView> {
    match os_probed(h, unexamined()) {
        Err(q) => Err(q),
        Ok(e) => match platform_probed(h, e, framework, interpreter) {
            Err(q) => Err(q),
            Ok(e) => Ok(with_status(e)),
        },
    }
}

fn probe_platform(
    e: Examination,
    h: &Answers,
    framework: FrameworkProbe,
    interpreter: Option<&FrameworkInterpreter>,
) -> (r: Result<Examination, Question>)
    ensures
        outcome(r) == platform_probed(h@, e@, framework, interpreter_view(interpreter)),
{
    let mut e = e;
    if e.is_wsl {
        probe_wsl_guest(e, h, framework, interpreter)
    } else if same_text(e.os_family.as_str(), "linux") {
        probe_linux_host(e, h, framework, interpreter)
    } else if same_text(e.os_family.as_str(), "windows") {
        probe_windows_host(e, h, framework, interpreter)
    } else {
        e.add_note(
            concat3(
                "rocm examine supports Linux and Windows; got ",
                e.os_family.as_str(),
                ". This skill cannot help on this platform.",
            ),
        );
        Ok(e)
    }
}

impl Examination {
    /// Probe the host and return the examination. What a probe cannot find out
    /// is recorded in `probe_failures` or `notes`, and the fields it would have
    /// filled are left at their defaults.
    #[must_use]
    pub fn probe(framework: FrameworkProbe, h: &Answers) -> (r: Result<Examination, Question>)
        ensures
            outcome(r) == examined(h@, framework, None),
    {
        Self::probe_with_interpreter(framework, None, h)
    }

    /// As [`Self::probe`], but running the framework probe under `interpreter`
    /// when one is given.
    ///
    /// The interpreter is injected rather than resolved here on purpose: which
    /// runtime is active is registry and config policy, and threading it in
    /// keeps that out of the host prober.
    #[must_use]
    pub fn probe_with_interpreter(
        framework: FrameworkProbe,
        interpreter: Option<&FrameworkInterpreter>,
        h: &Answers,
    ) -> (r: Result<Examination, Question>)
        ensures
            outcome(r) == examined(h@, framework, interpreter_view(interpreter)),
    {
        let e = match probe_os(Examination::default(), h) {
            Ok(e) => e,
            Err(q) => {
                return Err(q);
            },
        };
        let mut e = match probe_platform(e, h, framework, interpreter) {
            Ok(e) => e,
            Err(q) => {
                return Err(q);
            },
        };
        e.status = e.compute_status();
        Ok(e)
    }
}

} // verus!
