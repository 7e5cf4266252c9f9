//! Probes of a Windows host.

use vstd::prelude::*;
use vstd::string::*;

use crate::ask::{
    any_file_in, ask_any_file_in, ask_flag, ask_install, ask_optional_text, flag_answer,
    install_answer, no_args, optional_text_answer, outcome, output_answer, plain_command, run,
    three_args, MEDIUM,
};
use crate::examination::{
    gpu_views, lemma_gpu_views_push, unknown_gpu, with_failure, Examination, ExaminationView, Gpu,
    GpuView,
};
use crate::gfx::{
    classify_amd_marketing_name, family_verdict, gfx_apu_family_verdict, marketing_guess,
};
use crate::host::{Answers, Host, Question, QuestionView};
use crate::number::{decimal, decimal_of};
use crate::platform::{headline, headline_of};
use crate::split::{concat, lines, lines_of, pieces_of, split};
use crate::text::{
    after_prefix, contains, has_text, lemma_texts_push, strip_prefix, texts, trim, trimmed,
};
use crate::unicode::{lower_case, lower_text, upper_case, upper_text};

verus! {

broadcast use {lemma_texts_push, lemma_gpu_views_push};

// ---------------------------------------------------------------------------
// The display inventory
// ---------------------------------------------------------------------------

/// The script that lists the display adapters of AMD and NVIDIA: name, driver
/// version and device id, between tabs.
pub const WIN_GPU_SCRIPT: &'static str = "Get-CimInstance Win32_VideoController | Where-Object { $_.PNPDeviceID -match 'VEN_1002' -or $_.AdapterCompatibility -match 'AMD|Advanced Micro Devices' -or $_.Name -match 'AMD|Radeon|Instinct' -or $_.PNPDeviceID -match 'VEN_10DE' -or $_.Name -match 'NVIDIA' } | ForEach-Object { \"$($_.Name)`t$($_.DriverVersion)`t$($_.PNPDeviceID)\" }";

/// The script that gives the driver version of the first AMD adapter.
pub const WIN_DRIVER_SCRIPT: &'static str = "(Get-CimInstance Win32_VideoController | Where-Object { $_.PNPDeviceID -match 'VEN_1002' -or $_.Name -match 'AMD|Radeon|Instinct' } | Select-Object -First 1).DriverVersion";

/// Whether an adapter is AMD's, by its device id in upper case or its name in
/// lower case.
pub open spec fn adapter_is_amd(upper_id: Seq<char>, lower_name: Seq<char>) -> bool {
    ||| has_text(upper_id, "VEN_1002"@)
    ||| has_text(lower_name, "amd"@)
    ||| has_text(lower_name, "radeon"@)
    ||| has_text(lower_name, "instinct"@)
}

/// Whether an adapter is NVIDIA's, by its device id in upper case or its name
/// in lower case.
pub open spec fn adapter_is_nvidia(upper_id: Seq<char>, lower_name: Seq<char>) -> bool {
    ||| has_text(upper_id, "VEN_10DE"@)
    ||| has_text(lower_name, "nvidia"@)
}

/// The GPU that an adapter is, given its device id in upper case and its name in
/// lower case. One that answers to both vendors is taken for AMD's.
pub open spec fn adapter_gpu(
    name: Seq<char>,
    id: Seq<char>,
    upper_id: Seq<char>,
    lower_name: Seq<char>,
) -> Option<GpuView> {
    if adapter_is_amd(upper_id, lower_name) {
        let guess = marketing_guess(name);
        Some(
            GpuView {
                name,
                gfx_target: guess.0,
                pci_id: id,
                is_apu: Some(guess.1),
                is_amd: true,
            },
        )
    } else if adapter_is_nvidia(upper_id, lower_name) {
        Some(
            GpuView { name, pci_id: id, is_amd: false, is_apu: Some(false), ..unknown_gpu() },
        )
    } else {
        None
    }
}

/// The name in a line of the inventory.
pub open spec fn adapter_name(line: Seq<char>) -> Seq<char> {
    trimmed(pieces_of(trimmed(line), '\t')[0])
}

/// The device id in a line of the inventory, empty where it has none.
pub open spec fn adapter_id(line: Seq<char>) -> Seq<char> {
    let fields = pieces_of(trimmed(line), '\t');
    if fields.len() > 2 {
        trimmed(fields[2])
    } else {
        Seq::empty()
    }
}

/// The GPU in a line of the inventory.
pub open spec fn inventory_gpu(line: Seq<char>) -> Option<GpuView> {
    if trimmed(line).len() == 0 {
        None
    } else {
        adapter_gpu(
            adapter_name(line),
            adapter_id(line),
            upper_text(adapter_id(line)),
            lower_text(adapter_name(line)),
        )
    }
}

/// `e` with one more GPU of the inventory, AMD's or NVIDIA's.
pub open spec fn with_adapter(e: ExaminationView, gpu: GpuView) -> ExaminationView {
    ExaminationView {
        gpus: e.gpus.push(gpu),
        has_nvidia_gpu: e.has_nvidia_gpu || !gpu.is_amd,
        ..e
    }
}

/// `e` with the GPUs in the lines of the inventory.
pub open spec fn inventory_recorded(e: ExaminationView, lines: Seq<Seq<char>>) -> ExaminationView
    decreases lines.len(),
{
    if lines.len() == 0 {
        e
    } else {
        let before = inventory_recorded(e, lines.drop_last());
        match inventory_gpu(lines.last()) {
            Some(gpu) => with_adapter(before, gpu),
            None => before,
        }
    }
}

/// Classifies an adapter, given its device id in upper case and its name in
/// lower case.
pub fn classify_adapter(name: String, id: String, upper_id: &str, lower_name: &str) -> (r: Option<
    Gpu,
>)
    ensures
        match r {
            Some(gpu) => adapter_gpu(name@, id@, upper_id@, lower_name@) == Some(gpu@),
            None => adapter_gpu(name@, id@, upper_id@, lower_name@) is None,
        },
{
    let is_amd = contains(upper_id, "VEN_1002") || contains(lower_name, "amd") || contains(
        lower_name,
        "radeon",
    ) || contains(lower_name, "instinct");
    let is_nvidia = contains(upper_id, "VEN_10DE") || contains(lower_name, "nvidia");
    if is_amd {
        let (gfx_target, is_apu) = classify_amd_marketing_name(name.as_str());
        Some(Gpu { name, gfx_target, pci_id: id, is_apu: Some(is_apu), is_amd: true })
    } else if is_nvidia {
        Some(
            Gpu {
                name,
                gfx_target: String::new(),
                pci_id: id,
                is_apu: Some(false),
                is_amd: false,
            },
        )
    } else {
        None
    }
}

fn read_inventory_line(line: &str) -> (r: Option<Gpu>)
    ensures
        match r {
            Some(gpu) => inventory_gpu(line@) == Some(gpu@),
            None => inventory_gpu(line@) is None,
        },
{
    let line = trim(line);
    if line.as_str().is_empty() {
        return None;
    }
    let fields = split(line.as_str(), '\t');
    let ghost views = texts(fields@);
    assert(views[0] == fields@[0]@);
    let name = trim(fields[0].as_str());
    let id = if fields.len() > 2 {
        assert(views[2] == fields@[2]@);
        trim(fields[2].as_str())
    } else {
        String::new()
    };
    let upper_id = upper_case(id.as_str());
    let lower_name = lower_case(name.as_str());
    classify_adapter(name, id, upper_id.as_str(), lower_name.as_str())
}

/// Records the GPUs of the display inventory.
pub fn record_inventory(e: &mut Examination, out: &str)
    ensures
        final(e)@ == inventory_recorded(old(e)@, lines_of(out@)),
{
    let found = lines(out);
    let n: usize = found.len();
    let mut i: usize = 0;
    let ghost all = lines_of(out@);
    while i < n
        invariant
            n == found@.len(),
            i <= n,
            all == texts(found@),
            e@ == inventory_recorded(old(e)@, all.take(i as int)),
        decreases n - i,
    {
        assert(all.take(i + 1).drop_last() =~= all.take(i as int));
        assert(all.take(i + 1).last() == found@[i as int]@);
        match read_inventory_line(found[i].as_str()) {
            Some(gpu) => {
                if !gpu.is_amd {
                    e.has_nvidia_gpu = true;
                }
                e.gpus.push(gpu);
            },
            None => {},
        }
        i += 1;
    }
    assert(all.take(n as int) =~= all);
}

/// The arguments that make PowerShell run a script.
pub open spec fn powershell_args(script: Seq<char>) -> Seq<Seq<char>> {
    seq!["-NoProfile"@, "-Command"@, script]
}

/// `e` after the display inventory was read.
pub open spec fn windows_gpus_probed(h: Host, e: ExaminationView) -> Result<
    ExaminationView,
    QuestionView,
> {
    match output_answer(
        h,
        plain_command("powershell"@, powershell_args(WIN_GPU_SCRIPT@), MEDIUM),
    ) {
        Err(q) => Err(q),
        Ok(out) => if out.rc != 0 {
            Ok(with_failure(e, "Win32_VideoController query failed; cannot enumerate GPUs."@))
        } else {
            Ok(inventory_recorded(e, lines_of(out.stdout)))
        },
    }
}

/// Enumerates the GPUs of the display inventory.
pub fn probe_gpus_windows(e: Examination, h: &Answers) -> (r: Result<Examination, Question>)
    ensures
        outcome(r) == windows_gpus_probed(h@, e@),
{
    let mut e = e;
    let args = three_args("-NoProfile", "-Command", WIN_GPU_SCRIPT);
    match run(h, "powershell", args, MEDIUM) {
        Err(q) => Err(q),
        Ok(out) => {
            if out.rc != 0 {
                e.add_failure(
                    "Win32_VideoController query failed; cannot enumerate GPUs.".to_owned(),
                );
            } else {
                record_inventory(&mut e, out.stdout.as_str());
            }
            Ok(e)
        },
    }
}

// ---------------------------------------------------------------------------
// The HIP SDK
// ---------------------------------------------------------------------------

/// The position of the first AMD GPU at or after `from` of which the target is
/// not known.
pub open spec fn untargeted_from(gpus: Seq<GpuView>, from: int) -> Option<int>
    decreases gpus.len() - from,
{
    if from < 0 || from >= gpus.len() {
        None
    } else if gpus[from].is_amd && gpus[from].gfx_target.len() == 0 {
        Some(from)
    } else {
        untargeted_from(gpus, from + 1)
    }
}

/// A GPU with the target that `hipInfo` gave. The verdict on being integrated
/// stands unless the family table has one for the target.
pub open spec fn targeted(gpu: GpuView, gfx: Seq<char>) -> GpuView {
    GpuView {
        gfx_target: gfx,
        is_apu: match family_verdict(gfx) {
            Some(verdict) => Some(verdict),
            None => gpu.is_apu,
        },
        ..gpu
    }
}

/// `e` with a target given to the first AMD GPU that has none.
pub open spec fn target_recorded(e: ExaminationView, gfx: Seq<char>) -> ExaminationView {
    match untargeted_from(e.gpus, 0) {
        Some(i) => ExaminationView { gpus: e.gpus.update(i, targeted(e.gpus[i], gfx)), ..e },
        None => e,
    }
}

/// Gives a target to the first AMD GPU that has none.
pub fn record_target(e: &mut Examination, gfx: String)
    ensures
        final(e)@ == target_recorded(old(e)@, gfx@),
{
    let n: usize = e.gpus.len();
    let mut i: usize = 0;
    let ghost views = e@.gpus;
    while i < n
        invariant
            n == e.gpus@.len(),
            i <= n,
            *e == *old(e),
            views == e@.gpus,
            untargeted_from(views, 0) == untargeted_from(views, i as int),
        decreases n - i,
    {
        assert(views[i as int] == e.gpus@[i as int]@);
        if e.gpus[i].is_amd && e.gpus[i].gfx_target.as_str().is_empty() {
            let mut gpu = e.gpus[i].clone();
            let verdict = gfx_apu_family_verdict(gfx.as_str());
            gpu.gfx_target = gfx;
            match verdict {
                Some(verdict) => {
                    gpu.is_apu = Some(verdict);
                },
                None => {},
            }
            assert(gpu@ == targeted(views[i as int], gfx@));
            e.gpus.set(i, gpu);
            assert(gpu_views(e.gpus@) =~= views.update(i as int, gpu@));
            return;
        }
        i += 1;
    }
}

/// `e` with the targets in the lines that `hipInfo` printed.
pub open spec fn hipinfo_lines_probed(h: Host, e: ExaminationView, lines: Seq<Seq<char>>) -> Result<
    ExaminationView,
    QuestionView,
>
    decreases lines.len(),
{
    if lines.len() == 0 {
        Ok(e)
    } else {
        match after_prefix(trimmed(lines[0]), "gcnArchName:"@) {
            None => hipinfo_lines_probed(h, e, lines.skip(1)),
            Some(rest) => match optional_text_answer(h, QuestionView::FirstGfxToken(rest)) {
                Err(q) => Err(q),
                Ok(None) => hipinfo_lines_probed(h, e, lines.skip(1)),
                Ok(Some(gfx)) => hipinfo_lines_probed(h, target_recorded(e, gfx), lines.skip(1)),
            },
        }
    }
}

fn probe_hipinfo_lines(e: Examination, h: &Answers, out: &str) -> (r: Result<
    Examination,
    Question,
>)
    ensures
        outcome(r) == hipinfo_lines_probed(h@, e@, lines_of(out@)),
{
    let mut now = e;
    let found = lines(out);
    let n: usize = found.len();
    let mut i: usize = 0;
    let ghost all = lines_of(out@);
    assert(all.skip(0) =~= all);
    while i < n
        invariant
            n == found@.len(),
            i <= n,
            all == texts(found@),
            hipinfo_lines_probed(h@, e@, lines_of(out@)) == hipinfo_lines_probed(
                h@,
                now@,
                all.skip(i as int),
            ),
        decreases n - i,
    {
        assert(all.skip(i as int).skip(1) =~= all.skip(i + 1));
        assert(all.skip(i as int)[0] == found@[i as int]@);
        match strip_prefix(trim(found[i].as_str()).as_str(), "gcnArchName:") {
            None => {},
            Some(rest) => match ask_optional_text(h, Question::FirstGfxToken(rest)) {
                Err(q) => {
                    return Err(q);
                },
                Ok(None) => {},
                Ok(Some(gfx)) => {
                    record_target(&mut now, gfx);
                },
            },
        }
        i += 1;
    }
    Ok(now)
}

/// The question for the `hipInfo` of the SDK at a root.
pub open spec fn hipinfo_question(root: Seq<char>) -> QuestionView {
    QuestionView::ProgramUnder { root, dir: "bin"@, name: "hipInfo.exe"@ }
}

/// `e` after the `hipInfo` of the SDK was run, where it has one.
pub open spec fn hipinfo_probed(h: Host, e: ExaminationView, root: Seq<char>) -> Result<
    ExaminationView,
    QuestionView,
> {
    match optional_text_answer(h, hipinfo_question(root)) {
        Err(q) => Err(q),
        Ok(None) => Ok(
            ExaminationView { hipinfo_present: false, hipinfo_status: "missing"@, ..e },
        ),
        Ok(Some(program)) => match output_answer(h, plain_command(program, Seq::empty(), 15)) {
            Err(q) => Err(q),
            Ok(out) => if out.rc == 0 {
                hipinfo_lines_probed(
                    h,
                    ExaminationView { hipinfo_present: true, hipinfo_status: "ok"@, ..e },
                    lines_of(out.stdout),
                )
            } else {
                Ok(
                    ExaminationView {
                        hipinfo_present: true,
                        hipinfo_status: "error rc="@ + decimal_of(out.rc as int),
                        ..e
                    },
                )
            },
        },
    }
}

fn probe_hipinfo(e: Examination, h: &Answers, root: &str) -> (r: Result<Examination, Question>)
    ensures
        outcome(r) == hipinfo_probed(h@, e@, root@),
{
    let mut e = e;
    let q = Question::ProgramUnder {
        root: root.to_owned(),
        dir: "bin".to_owned(),
        name: "hipInfo.exe".to_owned(),
    };
    let program = match ask_optional_text(h, q) {
        Err(q) => {
            return Err(q);
        },
        Ok(None) => {
            e.hipinfo_present = false;
            e.hipinfo_status = "missing".to_owned();
            return Ok(e);
        },
        Ok(Some(program)) => program,
    };
    match run(h, program.as_str(), no_args(), 15) {
        Err(q) => Err(q),
        Ok(out) => {
            e.hipinfo_present = true;
            if out.rc == 0 {
                e.hipinfo_status = "ok".to_owned();
                probe_hipinfo_lines(e, h, out.stdout.as_str())
            } else {
                e.hipinfo_status = concat("error rc=", decimal(out.rc).as_str());
                Ok(e)
            }
        },
    }
}

/// A path where it is a directory, and nothing otherwise.
pub open spec fn directory_at(h: Host, root: Seq<char>) -> Result<Seq<char>, QuestionView> {
    if root.len() == 0 {
        Ok(Seq::empty())
    } else {
        match flag_answer(h, QuestionView::IsDir(root)) {
            Err(q) => Err(q),
            Ok(true) => Ok(root),
            Ok(false) => Ok(Seq::empty()),
        }
    }
}

fn find_directory(h: &Answers, root: String) -> (r: Result<String, Question>)
    ensures
        match r {
            Ok(dir) => directory_at(h@, root@) == Ok::<Seq<char>, QuestionView>(dir@),
            Err(q) => directory_at(h@, root@) == Err::<Seq<char>, QuestionView>(q@),
        },
{
    if root.as_str().is_empty() {
        return Ok(String::new());
    }
    match ask_flag(h, Question::IsDir(root.clone())) {
        Err(q) => Err(q),
        Ok(true) => Ok(root),
        Ok(false) => Ok(String::new()),
    }
}

/// The directory of the HIP SDK, or nothing. `HIP_PATH` names the SDK
/// specifically and so wins over the active ROCm install.
pub open spec fn sdk_root(h: Host) -> Result<Seq<char>, QuestionView> {
    match optional_text_answer(h, QuestionView::EnvVar("HIP_PATH"@)) {
        Err(q) => Err(q),
        Ok(named) => match directory_at(
            h,
            match named {
                Some(root) => root,
                None => Seq::empty(),
            },
        ) {
            Err(q) => Err(q),
            Ok(root) => if root.len() > 0 {
                Ok(root)
            } else {
                match install_answer(h, QuestionView::ActiveRocmInstall) {
                    Err(q) => Err(q),
                    Ok(Some(install)) => directory_at(h, install.path),
                    Ok(None) => Ok(Seq::empty()),
                }
            },
        },
    }
}

fn find_sdk_root(h: &Answers) -> (r: Result<String, Question>)
    ensures
        match r {
            Ok(root) => sdk_root(h@) == Ok::<Seq<char>, QuestionView>(root@),
            Err(q) => sdk_root(h@) == Err::<Seq<char>, QuestionView>(q@),
        },
{
    let named = match ask_optional_text(h, Question::EnvVar("HIP_PATH".to_owned())) {
        Ok(Some(root)) => root,
        Ok(None) => String::new(),
        Err(q) => {
            return Err(q);
        },
    };
    match find_directory(h, named) {
        Err(q) => {
            return Err(q);
        },
        Ok(root) => {
            if !root.as_str().is_empty() {
                return Ok(root);
            }
        },
    }
    match ask_install(h, Question::ActiveRocmInstall) {
        Err(q) => Err(q),
        Ok(Some(install)) => find_directory(h, install.path),
        Ok(None) => Ok(String::new()),
    }
}

/// The version of the SDK: what it says of itself, or else the name of its
/// directory.
pub open spec fn sdk_version(h: Host, root: Seq<char>) -> Result<Seq<char>, QuestionView> {
    match optional_text_answer(h, QuestionView::RocmInstallVersion(root)) {
        Err(q) => Err(q),
        Ok(Some(version)) => Ok(version),
        Ok(None) => match optional_text_answer(h, QuestionView::FileName(root)) {
            Err(q) => Err(q),
            Ok(Some(name)) => Ok(name),
            Ok(None) => Ok(Seq::empty()),
        },
    }
}

fn find_sdk_version(h: &Answers, root: &str) -> (r: Result<String, Question>)
    ensures
        match r {
            Ok(version) => sdk_version(h@, root@) == Ok::<Seq<char>, QuestionView>(version@),
            Err(q) => sdk_version(h@, root@) == Err::<Seq<char>, QuestionView>(q@),
        },
{
    match ask_optional_text(h, Question::RocmInstallVersion(root.to_owned())) {
        Err(q) => Err(q),
        Ok(Some(version)) => Ok(version),
        Ok(None) => match ask_optional_text(h, Question::FileName(root.to_owned())) {
            Err(q) => Err(q),
            Ok(Some(name)) => Ok(name),
            Ok(None) => Ok(String::new()),
        },
    }
}

/// `e` after the HIP SDK was asked about.
pub open spec fn hip_sdk_probed(h: Host, e: ExaminationView) -> Result<
    ExaminationView,
    QuestionView,
> {
    match sdk_root(h) {
        Err(q) => Err(q),
        Ok(root) => if root.len() == 0 {
            Ok(e)
        } else {
            match sdk_version(h, root) {
                Err(q) => Err(q),
                Ok(version) => hipinfo_probed(
                    h,
                    ExaminationView { hip_sdk_path: root, hip_sdk_version: version, ..e },
                    root,
                ),
            }
        },
    }
}

/// Asks for the HIP SDK and runs its `hipInfo`.
pub fn probe_hip_sdk_windows(e: Examination, h: &Answers) -> (r: Result<Examination, Question>)
    ensures
        outcome(r) == hip_sdk_probed(h@, e@),
{
    let mut e = e;
    let root = match find_sdk_root(h) {
        Ok(root) => root,
        Err(q) => {
            return Err(q);
        },
    };
    if root.as_str().is_empty() {
        return Ok(e);
    }
    match find_sdk_version(h, root.as_str()) {
        Err(q) => Err(q),
        Ok(version) => {
            e.hip_sdk_path = root.clone();
            e.hip_sdk_version = version;
            probe_hipinfo(e, h, root.as_str())
        },
    }
}

// ---------------------------------------------------------------------------
// Driver and runtime libraries
// ---------------------------------------------------------------------------

/// `e` with the driver version that the inventory printed.
pub open spec fn driver_recorded(e: ExaminationView, rc: i32, out: Seq<char>) -> ExaminationView {
    if rc == 0 && trimmed(out).len() > 0 {
        ExaminationView { adrenalin_version: headline(out), ..e }
    } else {
        e
    }
}

/// Records the driver version that the inventory printed.
pub fn record_driver(e: &mut Examination, rc: i32, out: &str)
    ensures
        final(e)@ == driver_recorded(old(e)@, rc, out@),
{
    if rc == 0 && !trim(out).as_str().is_empty() {
        e.adrenalin_version = headline_of(out);
    }
}

/// `e` after the inventory was asked for the driver version.
pub open spec fn adrenalin_probed(h: Host, e: ExaminationView) -> Result<
    ExaminationView,
    QuestionView,
> {
    match output_answer(
        h,
        plain_command("powershell"@, powershell_args(WIN_DRIVER_SCRIPT@), MEDIUM),
    ) {
        Err(q) => Err(q),
        Ok(out) => Ok(driver_recorded(e, out.rc, out.stdout)),
    }
}

/// Asks for the version of the display driver.
pub fn probe_adrenalin_windows(e: Examination, h: &Answers) -> (r: Result<Examination, Question>)
    ensures
        outcome(r) == adrenalin_probed(h@, e@),
{
    let mut e = e;
    let args = three_args("-NoProfile", "-Command", WIN_DRIVER_SCRIPT);
    match run(h, "powershell", args, MEDIUM) {
        Err(q) => Err(q),
        Ok(out) => {
            record_driver(&mut e, out.rc, out.stdout.as_str());
            Ok(e)
        },
    }
}

/// The directories that are searched for the C runtime: those on `PATH`, then
/// the system's own.
pub open spec fn runtime_dirs(path: Option<Seq<char>>) -> Seq<Seq<char>> {
    (match path {
        Some(path) => pieces_of(path, ';'),
        None => Seq::empty(),
    }).push(r"C:\Windows\System32"@).push(r"C:\Windows\SysWOW64"@)
}

/// The files of which one marks the C runtime.
pub open spec fn runtime_dlls() -> Seq<Seq<char>> {
    seq!["vcruntime140.dll"@, "vcruntime140_1.dll"@]
}

/// `e` after the directories were searched for the C runtime.
pub open spec fn msvc_probed(h: Host, e: ExaminationView) -> Result<ExaminationView, QuestionView> {
    match optional_text_answer(h, QuestionView::EnvVar("PATH"@)) {
        Err(q) => Err(q),
        Ok(path) => match any_file_in(h, runtime_dirs(path), runtime_dlls()) {
            Err(q) => Err(q),
            Ok(present) => Ok(ExaminationView { msvc_redist_present: Some(present), ..e }),
        },
    }
}

/// Looks for the C runtime that the ROCm libraries are linked against.
pub fn probe_msvc_redist_windows(e: Examination, h: &Answers) -> (r: Result<Examination, Question>)
    ensures
        outcome(r) == msvc_probed(h@, e@),
{
    let mut e = e;
    let mut dirs: Vec<String> = match ask_optional_text(h, Question::EnvVar("PATH".to_owned())) {
        Ok(Some(path)) => split(path.as_str(), ';'),
        Ok(None) => no_args(),
        Err(q) => {
            return Err(q);
        },
    };
    dirs.push(r"C:\Windows\System32".to_owned());
    dirs.push(r"C:\Windows\SysWOW64".to_owned());
    let mut dlls: Vec<String> = Vec::new();
    dlls.push("vcruntime140.dll".to_owned());
    dlls.push("vcruntime140_1.dll".to_owned());
    assert(texts(dlls@) =~= runtime_dlls());
    match ask_any_file_in(h, &dirs, &dlls) {
        Err(q) => Err(q),
        Ok(present) => {
            e.msvc_redist_present = Some(present);
            Ok(e)
        },
    }
}

} // verus!
