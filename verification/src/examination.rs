//! The record of an examination.

use vstd::prelude::*;
use vstd::string::*;

use crate::text::{lemma_texts_push, optional, same_text, texts};
use crate::textmap::TextMap;

verus! {

broadcast use lemma_texts_push;

/// A copy of a vector of strings.
pub fn copy_texts(v: &Vec<String>) -> (r: Vec<String>)
    ensures
        texts(r@) == texts(v@),
{
    let n: usize = v.len();
    let mut out: Vec<String> = Vec::new();
    let mut i: usize = 0;
    while i < n
        invariant
            n == v@.len(),
            i <= n,
            texts(out@) == texts(v@).take(i as int),
        decreases n - i,
    {
        out.push(v[i].clone());
        assert(texts(out@) =~= texts(v@).take(i + 1));
        i += 1;
    }
    assert(texts(v@).take(n as int) =~= texts(v@));
    out
}

/// A single GPU, as the PCI bus, `rocminfo` or the display inventory list it.
#[derive(Debug, PartialEq, Eq)]
pub struct Gpu {
    pub name: String,
    pub gfx_target: String,
    pub pci_id: String,
    /// Whether the GPU is integrated; `None` where no probe could tell.
    pub is_apu: Option<bool>,
    pub is_amd: bool,
}

/// What a [`Gpu`] holds.
pub struct GpuView {
    pub name: Seq<char>,
    pub gfx_target: Seq<char>,
    pub pci_id: Seq<char>,
    pub is_apu: Option<bool>,
    pub is_amd: bool,
}

impl View for Gpu {
    type V = GpuView;

    open spec fn view(&self) -> GpuView {
        GpuView {
            name: self.name@,
            gfx_target: self.gfx_target@,
            pci_id: self.pci_id@,
            is_apu: self.is_apu,
            is_amd: self.is_amd,
        }
    }
}

impl Clone for Gpu {
    fn clone(&self) -> (r: Self)
        ensures
            r@ == self@,
    {
        Gpu {
            name: self.name.clone(),
            gfx_target: self.gfx_target.clone(),
            pci_id: self.pci_id.clone(),
            is_apu: self.is_apu,
            is_amd: self.is_amd,
        }
    }
}

/// A GPU of which nothing is known.
pub open spec fn unknown_gpu() -> GpuView {
    GpuView {
        name: Seq::empty(),
        gfx_target: Seq::empty(),
        pci_id: Seq::empty(),
        is_apu: None,
        is_amd: false,
    }
}

impl Default for Gpu {
    fn default() -> (r: Self)
        ensures
            r@ == unknown_gpu(),
    {
        Gpu {
            name: String::new(),
            gfx_target: String::new(),
            pci_id: String::new(),
            is_apu: None,
            is_amd: false,
        }
    }
}

/// What each of several GPUs holds.
pub open spec fn gpu_views(v: Seq<Gpu>) -> Seq<GpuView> {
    Seq::new(v.len(), |i: int| v[i]@)
}

/// Pushing a GPU pushes its view.
pub broadcast proof fn lemma_gpu_views_push(v: Seq<Gpu>, g: Gpu)
    ensures
        #[trigger] gpu_views(v.push(g)) == gpu_views(v).push(g@),
{
    assert(gpu_views(v.push(g)) =~= gpu_views(v).push(g@));
}

fn copy_gpus(v: &Vec<Gpu>) -> (r: Vec<Gpu>)
    ensures
        gpu_views(r@) == gpu_views(v@),
{
    let n: usize = v.len();
    let mut out: Vec<Gpu> = Vec::new();
    let mut i: usize = 0;
    while i < n
        invariant
            n == v@.len(),
            i <= n,
            gpu_views(out@) == gpu_views(v@).take(i as int),
        decreases n - i,
    {
        let item = v[i].clone();
        proof {
            lemma_gpu_views_push(out@, item);
        }
        out.push(item);
        assert(gpu_views(out@) =~= gpu_views(v@).take(i + 1));
        i += 1;
    }
    assert(gpu_views(v@).take(n as int) =~= gpu_views(v@));
    out
}

/// Stat of a device node such as `/dev/kfd` or `/dev/dri/renderD*`.
#[derive(Debug, PartialEq, Eq)]
pub struct Device {
    pub path: String,
    pub exists: bool,
    pub mode: String,
    pub owner_user: String,
    pub owner_group: String,
    pub user_can_read: Option<bool>,
    pub user_can_write: Option<bool>,
}

/// What a [`Device`] holds.
pub struct DeviceView {
    pub path: Seq<char>,
    pub exists: bool,
    pub mode: Seq<char>,
    pub owner_user: Seq<char>,
    pub owner_group: Seq<char>,
    pub user_can_read: Option<bool>,
    pub user_can_write: Option<bool>,
}

impl View for Device {
    type V = DeviceView;

    open spec fn view(&self) -> DeviceView {
        DeviceView {
            path: self.path@,
            exists: self.exists,
            mode: self.mode@,
            owner_user: self.owner_user@,
            owner_group: self.owner_group@,
            user_can_read: self.user_can_read,
            user_can_write: self.user_can_write,
        }
    }
}

impl Clone for Device {
    fn clone(&self) -> (r: Self)
        ensures
            r@ == self@,
    {
        Device {
            path: self.path.clone(),
            exists: self.exists,
            mode: self.mode.clone(),
            owner_user: self.owner_user.clone(),
            owner_group: self.owner_group.clone(),
            user_can_read: self.user_can_read,
            user_can_write: self.user_can_write,
        }
    }
}

/// A device node of which only the path and its presence are known.
pub open spec fn bare_device(path: Seq<char>, exists_: bool) -> DeviceView {
    DeviceView {
        path,
        exists: exists_,
        mode: Seq::empty(),
        owner_user: Seq::empty(),
        owner_group: Seq::empty(),
        user_can_read: None,
        user_can_write: None,
    }
}

impl Default for Device {
    fn default() -> (r: Self)
        ensures
            r@ == bare_device(Seq::empty(), false),
    {
        Device {
            path: String::new(),
            exists: false,
            mode: String::new(),
            owner_user: String::new(),
            owner_group: String::new(),
            user_can_read: None,
            user_can_write: None,
        }
    }
}

/// What an optional device holds.
pub open spec fn device_view(d: Option<Device>) -> Option<DeviceView> {
    match d {
        Some(d) => Some(d@),
        None => None,
    }
}

/// What each of several devices holds.
pub open spec fn device_views(v: Seq<Device>) -> Seq<DeviceView> {
    Seq::new(v.len(), |i: int| v[i]@)
}

/// Pushing a device pushes its view.
pub broadcast proof fn lemma_device_views_push(v: Seq<Device>, d: Device)
    ensures
        #[trigger] device_views(v.push(d)) == device_views(v).push(d@),
{
    assert(device_views(v.push(d)) =~= device_views(v).push(d@));
}

fn copy_device(d: &Option<Device>) -> (r: Option<Device>)
    ensures
        device_view(r) == device_view(*d),
{
    match d {
        Some(d) => Some(d.clone()),
        None => None,
    }
}

fn copy_devices(v: &Vec<Device>) -> (r: Vec<Device>)
    ensures
        device_views(r@) == device_views(v@),
{
    let n: usize = v.len();
    let mut out: Vec<Device> = Vec::new();
    let mut i: usize = 0;
    while i < n
        invariant
            n == v@.len(),
            i <= n,
            device_views(out@) == device_views(v@).take(i as int),
        decreases n - i,
    {
        let item = v[i].clone();
        proof {
            lemma_device_views_push(out@, item);
        }
        out.push(item);
        assert(device_views(out@) =~= device_views(v@).take(i + 1));
        i += 1;
    }
    assert(device_views(v@).take(n as int) =~= device_views(v@));
    out
}

/// WSL2-specific machine state. `None` on every other platform.
///
/// WSL reaches the GPU through `/dev/dxg` and the Windows host driver rather than
/// the in-tree `amdgpu` module, so none of the bare-metal driver fields describe
/// it. These are the facts the WSL half of the catalog reasons over.
#[derive(Debug, PartialEq, Eq)]
pub struct WslFacts {
    /// `1` or `2`. `0` only in the default value, which stands for "the probe
    /// did not run".
    pub version: u8,
    pub dxg_device: bool,
    pub dxcore: bool,
    pub wsl_lib_dir: bool,
    pub librocdxg: bool,
    pub rocdxg_dids: bool,
    /// Whether the linker cache lists ROCDXG; `None` when `ldconfig` could not
    /// be run at all.
    pub ldconfig_librocdxg: Option<bool>,
    /// Whether `rocminfo` is on PATH.
    pub rocminfo: bool,
    /// Whether ROCm can actually enumerate a GPU here; `None` when `rocminfo`
    /// is absent, so the question could not be asked.
    pub rocm_sees_gpu: Option<bool>,
    /// `None` when the distro release could not be parsed, which fails closed:
    /// an unreadable release is not evidence of a supported one.
    pub distro_supported: Option<bool>,
    /// `None` when the Windows host could not be reached, distinct from a host
    /// that answered and reported no AMD adapter, which is `Some("")`.
    pub host_driver_version: Option<String>,
    pub host_reachable: bool,
    /// Whether these facts were gathered from inside the distribution.
    pub locally_probed: bool,
}

/// What [`WslFacts`] hold.
pub struct WslFactsView {
    pub version: u8,
    pub dxg_device: bool,
    pub dxcore: bool,
    pub wsl_lib_dir: bool,
    pub librocdxg: bool,
    pub rocdxg_dids: bool,
    pub ldconfig_librocdxg: Option<bool>,
    pub rocminfo: bool,
    pub rocm_sees_gpu: Option<bool>,
    pub distro_supported: Option<bool>,
    pub host_driver_version: Option<Seq<char>>,
    pub host_reachable: bool,
    pub locally_probed: bool,
}

impl View for WslFacts {
    type V = WslFactsView;

    open spec fn view(&self) -> WslFactsView {
        WslFactsView {
            version: self.version,
            dxg_device: self.dxg_device,
            dxcore: self.dxcore,
            wsl_lib_dir: self.wsl_lib_dir,
            librocdxg: self.librocdxg,
            rocdxg_dids: self.rocdxg_dids,
            ldconfig_librocdxg: self.ldconfig_librocdxg,
            rocminfo: self.rocminfo,
            rocm_sees_gpu: self.rocm_sees_gpu,
            distro_supported: self.distro_supported,
            host_driver_version: optional(self.host_driver_version),
            host_reachable: self.host_reachable,
            locally_probed: self.locally_probed,
        }
    }
}

/// A copy of an optional string.
pub fn copy_optional(s: &Option<String>) -> (r: Option<String>)
    ensures
        optional(r) == optional(*s),
{
    match s {
        Some(s) => Some(s.clone()),
        None => None,
    }
}

impl Clone for WslFacts {
    fn clone(&self) -> (r: Self)
        ensures
            r@ == self@,
    {
        WslFacts {
            version: self.version,
            dxg_device: self.dxg_device,
            dxcore: self.dxcore,
            wsl_lib_dir: self.wsl_lib_dir,
            librocdxg: self.librocdxg,
            rocdxg_dids: self.rocdxg_dids,
            ldconfig_librocdxg: self.ldconfig_librocdxg,
            rocminfo: self.rocminfo,
            rocm_sees_gpu: self.rocm_sees_gpu,
            distro_supported: self.distro_supported,
            host_driver_version: copy_optional(&self.host_driver_version),
            host_reachable: self.host_reachable,
            locally_probed: self.locally_probed,
        }
    }
}

/// The facts before the WSL probe has run.
pub open spec fn unprobed_wsl() -> WslFactsView {
    WslFactsView {
        version: 0,
        dxg_device: false,
        dxcore: false,
        wsl_lib_dir: false,
        librocdxg: false,
        rocdxg_dids: false,
        ldconfig_librocdxg: None,
        rocminfo: false,
        rocm_sees_gpu: None,
        distro_supported: None,
        host_driver_version: None,
        host_reachable: false,
        locally_probed: false,
    }
}

impl Default for WslFacts {
    fn default() -> (r: Self)
        ensures
            r@ == unprobed_wsl(),
    {
        WslFacts {
            version: 0,
            dxg_device: false,
            dxcore: false,
            wsl_lib_dir: false,
            librocdxg: false,
            rocdxg_dids: false,
            ldconfig_librocdxg: None,
            rocminfo: false,
            rocm_sees_gpu: None,
            distro_supported: None,
            host_driver_version: None,
            host_reachable: false,
            locally_probed: false,
        }
    }
}

/// What optional WSL facts hold.
pub open spec fn wsl_view(w: Option<WslFacts>) -> Option<WslFactsView> {
    match w {
        Some(w) => Some(w@),
        None => None,
    }
}

fn copy_wsl(w: &Option<WslFacts>) -> (r: Option<WslFacts>)
    ensures
        wsl_view(r) == wsl_view(*w),
{
    match w {
        Some(w) => Some(w.clone()),
        None => None,
    }
}

/// Which framework probe to run.
#[derive(Debug, Clone, Copy, PartialEq, Eq, Structural)]
pub enum FrameworkProbe {
    Auto,
    PyTorch,
    LlamaCpp,
    Skip,
}

/// Structured machine state, the input of the diagnosis catalog.
#[derive(Debug)]
pub struct Examination {
    // platform
    pub os_family: String,
    /// The version of the operating system, not its name.
    pub os_version: String,
    pub distro_id: String,
    pub distro_version: String,
    pub kernel_release: String,
    pub kernel_cmdline: String,
    pub is_wsl: bool,
    /// Populated only when `is_wsl`; see [`WslFacts`].
    pub wsl: Option<WslFacts>,

    // hardware
    pub cpu_vendor: String,
    pub cpu_model: String,
    pub gpus: Vec<Gpu>,
    pub has_amd_gpu: bool,
    pub has_nvidia_gpu: bool,
    pub has_apu: bool,
    pub has_discrete_amd: bool,

    // driver / runtime (Linux)
    pub amdgpu_loaded: Option<bool>,
    pub amdgpu_blacklisted_in: Vec<String>,
    pub amdkfd_loaded: Option<bool>,
    pub secure_boot: String,
    pub iommu_kernel_param: String,
    pub kfd: Option<Device>,
    pub render_devices: Vec<Device>,

    // user / groups (Linux)
    pub user_name: String,
    pub user_groups: Vec<String>,
    pub in_render_group: Option<bool>,
    pub in_video_group: Option<bool>,

    // ROCm install (Linux)
    pub rocm_version: String,
    pub rocm_install_method: String,
    pub rocm_path: String,
    pub rocminfo_present: bool,
    pub rocminfo_status: String,
    pub hip_libs_on_ld_path: Option<bool>,
    pub rocm_repos_seen: Vec<String>,

    // HIP SDK install (Windows)
    pub hip_sdk_path: String,
    pub hip_sdk_version: String,
    pub hipinfo_present: bool,
    pub hipinfo_status: String,
    pub adrenalin_version: String,
    pub msvc_redist_present: Option<bool>,

    // framework
    pub framework: String,
    pub framework_version: String,
    pub framework_rocm_version: String,
    pub framework_arch_list: Vec<String>,
    pub framework_notes: Vec<String>,
    /// Which interpreter answered: `"managed-runtime"`, `"path"`, or `""` when
    /// no framework was probed.
    ///
    /// A managed runtime ships its own ROCm and never loads the one of the
    /// system, so the versions alone do not tell what they may be held against.
    pub framework_source: String,

    // environment
    pub env: TextMap,

    // container
    pub in_container: bool,
    pub container_kind: String,

    // shared memory (Linux)
    /// Size of the `/dev/shm` filesystem in bytes.
    ///
    /// `None` when it could not be measured, which is a different answer from
    /// zero: a machine that was not measured is not a machine with a shortage.
    pub shm_total_bytes: Option<u64>,
    /// Free space on `/dev/shm` in bytes.
    pub shm_available_bytes: Option<u64>,

    // evidence
    pub dmesg_amdgpu_tail: Vec<String>,
    pub notes: Vec<String>,
    pub probe_failures: Vec<String>,

    // verdict
    /// One of `"ok"`, `"no-amd-gpu"`, `"wsl"`, `"unsupported-os"`, `"degraded"`.
    pub status: String,
}

/// What an [`Examination`] holds.
#[verifier::ext_equal]
pub struct ExaminationView {
    pub os_family: Seq<char>,
    pub os_version: Seq<char>,
    pub distro_id: Seq<char>,
    pub distro_version: Seq<char>,
    pub kernel_release: Seq<char>,
    pub kernel_cmdline: Seq<char>,
    pub is_wsl: bool,
    pub wsl: Option<WslFactsView>,
    pub cpu_vendor: Seq<char>,
    pub cpu_model: Seq<char>,
    pub gpus: Seq<GpuView>,
    pub has_amd_gpu: bool,
    pub has_nvidia_gpu: bool,
    pub has_apu: bool,
    pub has_discrete_amd: bool,
    pub amdgpu_loaded: Option<bool>,
    pub amdgpu_blacklisted_in: Seq<Seq<char>>,
    pub amdkfd_loaded: Option<bool>,
    pub secure_boot: Seq<char>,
    pub iommu_kernel_param: Seq<char>,
    pub kfd: Option<DeviceView>,
    pub render_devices: Seq<DeviceView>,
    pub user_name: Seq<char>,
    pub user_groups: Seq<Seq<char>>,
    pub in_render_group: Option<bool>,
    pub in_video_group: Option<bool>,
    pub rocm_version: Seq<char>,
    pub rocm_install_method: Seq<char>,
    pub rocm_path: Seq<char>,
    pub rocminfo_present: bool,
    pub rocminfo_status: Seq<char>,
    pub hip_libs_on_ld_path: Option<bool>,
    pub rocm_repos_seen: Seq<Seq<char>>,
    pub hip_sdk_path: Seq<char>,
    pub hip_sdk_version: Seq<char>,
    pub hipinfo_present: bool,
    pub hipinfo_status: Seq<char>,
    pub adrenalin_version: Seq<char>,
    pub msvc_redist_present: Option<bool>,
    pub framework: Seq<char>,
    pub framework_version: Seq<char>,
    pub framework_rocm_version: Seq<char>,
    pub framework_arch_list: Seq<Seq<char>>,
    pub framework_notes: Seq<Seq<char>>,
    pub framework_source: Seq<char>,
    pub env: Map<Seq<char>, Seq<char>>,
    pub in_container: bool,
    pub container_kind: Seq<char>,
    pub shm_total_bytes: Option<u64>,
    pub shm_available_bytes: Option<u64>,
    pub dmesg_amdgpu_tail: Seq<Seq<char>>,
    pub notes: Seq<Seq<char>>,
    pub probe_failures: Seq<Seq<char>>,
    pub status: Seq<char>,
}

impl View for Examination {
    type V = ExaminationView;

    open spec fn view(&self) -> ExaminationView {
        ExaminationView {
            os_family: self.os_family@,
            os_version: self.os_version@,
            distro_id: self.distro_id@,
            distro_version: self.distro_version@,
            kernel_release: self.kernel_release@,
            kernel_cmdline: self.kernel_cmdline@,
            is_wsl: self.is_wsl,
            wsl: wsl_view(self.wsl),
            cpu_vendor: self.cpu_vendor@,
            cpu_model: self.cpu_model@,
            gpus: gpu_views(self.gpus@),
            has_amd_gpu: self.has_amd_gpu,
            has_nvidia_gpu: self.has_nvidia_gpu,
            has_apu: self.has_apu,
            has_discrete_amd: self.has_discrete_amd,
            amdgpu_loaded: self.amdgpu_loaded,
            amdgpu_blacklisted_in: texts(self.amdgpu_blacklisted_in@),
            amdkfd_loaded: self.amdkfd_loaded,
            secure_boot: self.secure_boot@,
            iommu_kernel_param: self.iommu_kernel_param@,
            kfd: device_view(self.kfd),
            render_devices: device_views(self.render_devices@),
            user_name: self.user_name@,
            user_groups: texts(self.user_groups@),
            in_render_group: self.in_render_group,
            in_video_group: self.in_video_group,
            rocm_version: self.rocm_version@,
            rocm_install_method: self.rocm_install_method@,
            rocm_path: self.rocm_path@,
            rocminfo_present: self.rocminfo_present,
            rocminfo_status: self.rocminfo_status@,
            hip_libs_on_ld_path: self.hip_libs_on_ld_path,
            rocm_repos_seen: texts(self.rocm_repos_seen@),
            hip_sdk_path: self.hip_sdk_path@,
            hip_sdk_version: self.hip_sdk_version@,
            hipinfo_present: self.hipinfo_present,
            hipinfo_status: self.hipinfo_status@,
            adrenalin_version: self.adrenalin_version@,
            msvc_redist_present: self.msvc_redist_present,
            framework: self.framework@,
            framework_version: self.framework_version@,
            framework_rocm_version: self.framework_rocm_version@,
            framework_arch_list: texts(self.framework_arch_list@),
            framework_notes: texts(self.framework_notes@),
            framework_source: self.framework_source@,
            env: self.env@,
            in_container: self.in_container,
            container_kind: self.container_kind@,
            shm_total_bytes: self.shm_total_bytes,
            shm_available_bytes: self.shm_available_bytes,
            dmesg_amdgpu_tail: texts(self.dmesg_amdgpu_tail@),
            notes: texts(self.notes@),
            probe_failures: texts(self.probe_failures@),
            status: self.status@,
        }
    }
}

impl Clone for Examination {
    fn clone(&self) -> (r: Self)
        ensures
            r@ == self@,
    {
        Examination {
            os_family: self.os_family.clone(),
            os_version: self.os_version.clone(),
            distro_id: self.distro_id.clone(),
            distro_version: self.distro_version.clone(),
            kernel_release: self.kernel_release.clone(),
            kernel_cmdline: self.kernel_cmdline.clone(),
            is_wsl: self.is_wsl,
            wsl: copy_wsl(&self.wsl),
            cpu_vendor: self.cpu_vendor.clone(),
            cpu_model: self.cpu_model.clone(),
            gpus: copy_gpus(&self.gpus),
            has_amd_gpu: self.has_amd_gpu,
            has_nvidia_gpu: self.has_nvidia_gpu,
            has_apu: self.has_apu,
            has_discrete_amd: self.has_discrete_amd,
            amdgpu_loaded: self.amdgpu_loaded,
            amdgpu_blacklisted_in: copy_texts(&self.amdgpu_blacklisted_in),
            amdkfd_loaded: self.amdkfd_loaded,
            secure_boot: self.secure_boot.clone(),
            iommu_kernel_param: self.iommu_kernel_param.clone(),
            kfd: copy_device(&self.kfd),
            render_devices: copy_devices(&self.render_devices),
            user_name: self.user_name.clone(),
            user_groups: copy_texts(&self.user_groups),
            in_render_group: self.in_render_group,
            in_video_group: self.in_video_group,
            rocm_version: self.rocm_version.clone(),
            rocm_install_method: self.rocm_install_method.clone(),
            rocm_path: self.rocm_path.clone(),
            rocminfo_present: self.rocminfo_present,
            rocminfo_status: self.rocminfo_status.clone(),
            hip_libs_on_ld_path: self.hip_libs_on_ld_path,
            rocm_repos_seen: copy_texts(&self.rocm_repos_seen),
            hip_sdk_path: self.hip_sdk_path.clone(),
            hip_sdk_version: self.hip_sdk_version.clone(),
            hipinfo_present: self.hipinfo_present,
            hipinfo_status: self.hipinfo_status.clone(),
            adrenalin_version: self.adrenalin_version.clone(),
            msvc_redist_present: self.msvc_redist_present,
            framework: self.framework.clone(),
            framework_version: self.framework_version.clone(),
            framework_rocm_version: self.framework_rocm_version.clone(),
            framework_arch_list: copy_texts(&self.framework_arch_list),
            framework_notes: copy_texts(&self.framework_notes),
            framework_source: self.framework_source.clone(),
            env: self.env.clone(),
            in_container: self.in_container,
            container_kind: self.container_kind.clone(),
            shm_total_bytes: self.shm_total_bytes,
            shm_available_bytes: self.shm_available_bytes,
            dmesg_amdgpu_tail: copy_texts(&self.dmesg_amdgpu_tail),
            notes: copy_texts(&self.notes),
            probe_failures: copy_texts(&self.probe_failures),
            status: self.status.clone(),
        }
    }
}

/// An examination before any probe has run.
pub open spec fn unexamined() -> ExaminationView {
    ExaminationView {
        os_family: "unknown"@,
        os_version: Seq::empty(),
        distro_id: Seq::empty(),
        distro_version: Seq::empty(),
        kernel_release: Seq::empty(),
        kernel_cmdline: Seq::empty(),
        is_wsl: false,
        wsl: None,
        cpu_vendor: "unknown"@,
        cpu_model: Seq::empty(),
        gpus: Seq::empty(),
        has_amd_gpu: false,
        has_nvidia_gpu: false,
        has_apu: false,
        has_discrete_amd: false,
        amdgpu_loaded: None,
        amdgpu_blacklisted_in: Seq::empty(),
        amdkfd_loaded: None,
        secure_boot: "unknown"@,
        iommu_kernel_param: Seq::empty(),
        kfd: None,
        render_devices: Seq::empty(),
        user_name: Seq::empty(),
        user_groups: Seq::empty(),
        in_render_group: None,
        in_video_group: None,
        rocm_version: Seq::empty(),
        rocm_install_method: Seq::empty(),
        rocm_path: Seq::empty(),
        rocminfo_present: false,
        rocminfo_status: Seq::empty(),
        hip_libs_on_ld_path: None,
        rocm_repos_seen: Seq::empty(),
        hip_sdk_path: Seq::empty(),
        hip_sdk_version: Seq::empty(),
        hipinfo_present: false,
        hipinfo_status: Seq::empty(),
        adrenalin_version: Seq::empty(),
        msvc_redist_present: None,
        framework: "unknown"@,
        framework_version: Seq::empty(),
        framework_rocm_version: Seq::empty(),
        framework_arch_list: Seq::empty(),
        framework_notes: Seq::empty(),
        framework_source: Seq::empty(),
        env: Map::empty(),
        in_container: false,
        container_kind: Seq::empty(),
        shm_total_bytes: None,
        shm_available_bytes: None,
        dmesg_amdgpu_tail: Seq::empty(),
        notes: Seq::empty(),
        probe_failures: Seq::empty(),
        status: "ok"@,
    }
}

impl Default for Examination {
    fn default() -> (r: Self)
        ensures
            r@ == unexamined(),
    {
        let r = Examination {
            os_family: "unknown".to_owned(),
            os_version: String::new(),
            distro_id: String::new(),
            distro_version: String::new(),
            kernel_release: String::new(),
            kernel_cmdline: String::new(),
            is_wsl: false,
            wsl: None,
            cpu_vendor: "unknown".to_owned(),
            cpu_model: String::new(),
            gpus: Vec::new(),
            has_amd_gpu: false,
            has_nvidia_gpu: false,
            has_apu: false,
            has_discrete_amd: false,
            amdgpu_loaded: None,
            amdgpu_blacklisted_in: Vec::new(),
            amdkfd_loaded: None,
            secure_boot: "unknown".to_owned(),
            iommu_kernel_param: String::new(),
            kfd: None,
            render_devices: Vec::new(),
            user_name: String::new(),
            user_groups: Vec::new(),
            in_render_group: None,
            in_video_group: None,
            rocm_version: String::new(),
            rocm_install_method: String::new(),
            rocm_path: String::new(),
            rocminfo_present: false,
            rocminfo_status: String::new(),
            hip_libs_on_ld_path: None,
            rocm_repos_seen: Vec::new(),
            hip_sdk_path: String::new(),
            hip_sdk_version: String::new(),
            hipinfo_present: false,
            hipinfo_status: String::new(),
            adrenalin_version: String::new(),
            msvc_redist_present: None,
            framework: "unknown".to_owned(),
            framework_version: String::new(),
            framework_rocm_version: String::new(),
            framework_arch_list: Vec::new(),
            framework_notes: Vec::new(),
            framework_source: String::new(),
            env: TextMap::new(),
            in_container: false,
            container_kind: String::new(),
            shm_total_bytes: None,
            shm_available_bytes: None,
            dmesg_amdgpu_tail: Vec::new(),
            notes: Vec::new(),
            probe_failures: Vec::new(),
            status: "ok".to_owned(),
        };
        assert(r@ =~~= unexamined());
        r
    }
}

/// The coarse verdict on what an examination found. The platform decides first,
/// then whether there is an AMD GPU, then whether every probe could run.
pub open spec fn status_of(e: ExaminationView) -> Seq<char> {
    if e.is_wsl {
        "wsl"@
    } else if e.os_family != "linux"@ && e.os_family != "windows"@ {
        "unsupported-os"@
    } else if !e.has_amd_gpu {
        "no-amd-gpu"@
    } else if e.probe_failures.len() > 0 {
        "degraded"@
    } else {
        "ok"@
    }
}

/// `e` with one more probe failure.
pub open spec fn with_failure(e: ExaminationView, text: Seq<char>) -> ExaminationView {
    ExaminationView { probe_failures: e.probe_failures.push(text), ..e }
}

/// `e` with one more note.
pub open spec fn with_note(e: ExaminationView, text: Seq<char>) -> ExaminationView {
    ExaminationView { notes: e.notes.push(text), ..e }
}

/// `e` with one more note on the framework.
pub open spec fn with_framework_note(e: ExaminationView, text: Seq<char>) -> ExaminationView {
    ExaminationView { framework_notes: e.framework_notes.push(text), ..e }
}

impl Examination {
    /// Records that a probe could not run.
    pub fn add_failure(&mut self, text: String)
        ensures
            final(self)@ == with_failure(old(self)@, text@),
    {
        self.probe_failures.push(text);
    }

    /// Records a note.
    pub fn add_note(&mut self, text: String)
        ensures
            final(self)@ == with_note(old(self)@, text@),
    {
        self.notes.push(text);
    }

    /// Records a note on the framework.
    pub fn add_framework_note(&mut self, text: String)
        ensures
            final(self)@ == with_framework_note(old(self)@, text@),
    {
        self.framework_notes.push(text);
    }

    /// Coarse machine-readable verdict reported via the `status` field.
    pub fn compute_status(&self) -> (r: String)
        ensures
            r@ == status_of(self@),
    {
        let value = if self.is_wsl {
            "wsl"
        } else if !same_text(self.os_family.as_str(), "linux") && !same_text(
            self.os_family.as_str(),
            "windows",
        ) {
            "unsupported-os"
        } else if !self.has_amd_gpu {
            "no-amd-gpu"
        } else if self.probe_failures.len() > 0 {
            "degraded"
        } else {
            "ok"
        };
        value.to_owned()
    }
}

} // verus!
