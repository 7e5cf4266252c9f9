//! Windows Subsystem for Linux: the facts of a guest, gathered from inside it or
//! from the Windows host.

use vstd::prelude::*;
use vstd::string::*;

use crate::ask::{
    ask_flag, ask_host_driver, ask_optional_flag, ask_wsl_summary, flag_answer, host_driver_answer,
    no_args, on_path, optional_flag_answer, outcome, output_answer, plain_command, run, run_utf16le,
    two_args, utf16_answer, which, wsl_summary_answer, MEDIUM,
};
use crate::examination::{
    unexamined, with_note, Examination, ExaminationView, WslFacts, WslFactsView,
};
use crate::host::{
    Answers, Host, Question, QuestionView, WslHostDriverProbe, WslHostDriverProbeView, WslSummary,
};
use crate::number::{parse_u32, u32_of};
use crate::split::{concat, concat3, join, joined, lines, lines_of};
use crate::text::{
    after_prefix, begins_with, chars_of, contains, eq_ignore_ascii_case, has_text, lemma_texts_push,
    optional, same_but_case, same_text, sides_of, split_once, starts_with, strip_prefix, texts,
    trim, trimmed,
};
use crate::textmap::TextMap;
use crate::unicode::{lower_case, lower_text, upper_case, upper_text};

verus! {

broadcast use lemma_texts_push;

/// The oldest distro release the WSL path supports.
///
/// Ubuntu 22.04 ships glibc 2.35, below the glibc 2.38 / `GLIBCXX_3.4.32` floor
/// every published Lemonade embeddable is linked against, so the engine cannot
/// start there.
pub const WSL_MIN_UBUNTU: (u32, u32) = (24, 4);

/// Guidance shown when WSL2 is detected: which checks are skipped on this
/// platform, and which one covers it.
pub const WSL_PLATFORM_NOTE: &'static str = "Detected WSL2. The GPU is reached through /dev/dxg and the Windows host driver, so the bare-metal driver checks do not apply and are skipped. Run `rocm diagnose` for the WSL-specific checks. Setup guide: https://rocm.docs.amd.com/projects/radeon-ryzen/en/latest/docs/install/installryz/wsl/howto_wsl.html";

/// The script that gathers the WSL facts from outside the distro, over
/// `wsl.exe`.
///
/// It prints `key=value` lines, so the guest side needs nothing but a POSIX
/// shell. `librocdxg` is globbed across `/opt/rocm*`: a versioned root must not
/// read as missing.
pub const WSL_REMOTE_PROBE: &'static str = r#"
echo "kernel=$(uname -r 2>/dev/null)"
if [ -e /dev/dxg ]; then echo dxg=1; else echo dxg=0; fi
if [ -e /usr/lib/wsl/lib/libdxcore.so ]; then echo dxcore=1; else echo dxcore=0; fi
if [ -d /usr/lib/wsl/lib ]; then echo wsllib=1; else echo wsllib=0; fi
if ls /opt/rocm*/lib/librocdxg.so >/dev/null 2>&1 \
  || ls /usr/local/rocm*/lib/librocdxg.so >/dev/null 2>&1; then echo librocdxg=1; else echo librocdxg=0; fi
if ls /opt/rocm*/share/rocdxg/dids.conf >/dev/null 2>&1 \
  || ls /usr/local/rocm*/share/rocdxg/dids.conf >/dev/null 2>&1; then echo dids=1; else echo dids=0; fi
for ldc in ldconfig /sbin/ldconfig /usr/sbin/ldconfig; do
  if cache=$(command -v "$ldc" >/dev/null 2>&1 && "$ldc" -p 2>/dev/null); then
    case "$cache" in *librocdxg.so*) echo ldconfig=1 ;; *) echo ldconfig=0 ;; esac
    break
  fi
done
if command -v rocminfo >/dev/null 2>&1; then
  echo rocminfo=1
  if rocminfo 2>/dev/null | grep -qi gfx; then echo rocmgfx=1; else echo rocmgfx=0; fi
else
  echo rocminfo=0
fi
. /etc/os-release 2>/dev/null
echo "id=${ID}"
echo "version=${VERSION_ID}"
"#;

// ---------------------------------------------------------------------------
// The supported floor
// ---------------------------------------------------------------------------

/// Whether a release clears the floor.
pub open spec fn clears_floor(major: u32, minor: u32) -> bool {
    major > WSL_MIN_UBUNTU.0 || (major == WSL_MIN_UBUNTU.0 && minor >= WSL_MIN_UBUNTU.1)
}

/// Whether a distro release clears the WSL floor; `None` where it is not Ubuntu
/// or the release is no `major.minor` pair.
pub open spec fn floor_verdict(distro_id: Seq<char>, distro_version: Seq<char>) -> Option<bool> {
    if !same_but_case(distro_id, "ubuntu"@) {
        None
    } else {
        match sides_of(distro_version, '.') {
            Some((major, minor)) => match (u32_of(major), u32_of(minor)) {
                (Some(major), Some(minor)) => Some(clears_floor(major, minor)),
                _ => None,
            },
            None => None,
        }
    }
}

/// Whether the distro release clears the WSL floor in [`WSL_MIN_UBUNTU`].
///
/// `None` means the release could not be read as a `major.minor` pair. That is
/// deliberately not "supported": an unparseable release is not evidence of a
/// good one. Only Ubuntu carries a floor, because that is the only distro the
/// WSL path documents.
pub fn distro_clears_wsl_floor(distro_id: &str, distro_version: &str) -> (r: Option<bool>)
    ensures
        r == floor_verdict(distro_id@, distro_version@),
{
    if !eq_ignore_ascii_case(distro_id, "ubuntu") {
        return None;
    }
    match split_once(distro_version, '.') {
        Some((major, minor)) => match (parse_u32(major.as_str()), parse_u32(minor.as_str())) {
            (Some(major), Some(minor)) => Some(
                major > WSL_MIN_UBUNTU.0 || (major == WSL_MIN_UBUNTU.0 && minor
                    >= WSL_MIN_UBUNTU.1),
            ),
            _ => None,
        },
        None => None,
    }
}

// ---------------------------------------------------------------------------
// The host driver
// ---------------------------------------------------------------------------

/// Whether the Windows host answered, and the driver version it gave.
pub open spec fn driver_fields(probe: WslHostDriverProbeView) -> (bool, Option<Seq<char>>) {
    match probe {
        WslHostDriverProbeView::Unreachable => (false, None),
        WslHostDriverProbeView::NoAmdDisplay => (true, Some(Seq::empty())),
        WslHostDriverProbeView::Version(version) => (true, Some(version)),
    }
}

/// Flatten a host-driver probe into the two [`WslFacts`] fields that carry it.
///
/// `None` means the question went unanswered, and `Some("")` means it was
/// answered with "no AMD adapter". Only the second is evidence.
pub fn host_driver_fields(probe: WslHostDriverProbe) -> (r: (bool, Option<String>))
    ensures
        (r.0, optional(r.1)) == driver_fields(probe@),
{
    match probe {
        WslHostDriverProbe::Unreachable => (false, None),
        WslHostDriverProbe::NoAmdDisplay => {
            let version = String::new();
            assert(version@ =~= Seq::empty());
            (true, Some(version))
        },
        WslHostDriverProbe::Version(version) => (true, Some(version)),
    }
}

// ---------------------------------------------------------------------------
// Shared fields
// ---------------------------------------------------------------------------

/// What `rocminfo` comes to under WSL.
pub open spec fn wsl_rocminfo_status(rocminfo: bool, sees_gpu: Option<bool>) -> Seq<char> {
    if !rocminfo {
        "missing"@
    } else {
        match sees_gpu {
            Some(true) => "ok"@,
            Some(false) => "no-agents"@,
            None => "unknown"@,
        }
    }
}

/// `e` with the WSL facts mirrored onto the shared fields.
pub open spec fn wsl_synced(e: ExaminationView) -> ExaminationView {
    match e.wsl {
        Some(wsl) => ExaminationView {
            rocminfo_present: wsl.rocminfo,
            rocminfo_status: wsl_rocminfo_status(wsl.rocminfo, wsl.rocm_sees_gpu),
            ..e
        },
        None => e,
    }
}

/// Mirror the WSL facts onto the shared fields the cross-platform checks read.
///
/// Those checks read fields the bare-metal GPU probe populates, and that probe
/// is skipped here. Left at their defaults they do not read as "unknown", they
/// read as "absent".
pub fn sync_shared_fields_from_wsl(e: &mut Examination)
    ensures
        final(e)@ == wsl_synced(old(e)@),
{
    let facts = match &e.wsl {
        Some(wsl) => Some((wsl.rocminfo, wsl.rocm_sees_gpu)),
        None => None,
    };
    match facts {
        Some((rocminfo, sees_gpu)) => {
            e.rocminfo_present = rocminfo;
            e.rocminfo_status = if !rocminfo {
                "missing".to_owned()
            } else {
                match sees_gpu {
                    Some(true) => "ok".to_owned(),
                    Some(false) => "no-agents".to_owned(),
                    None => "unknown".to_owned(),
                }
            };
        },
        None => {},
    }
}

// ---------------------------------------------------------------------------
// From inside the guest
// ---------------------------------------------------------------------------

/// Whether a successful `rocminfo` listed a GPU, its output in lower case.
pub open spec fn lists_gfx(rc: i32, lowered: Seq<char>) -> bool {
    rc == 0 && has_text(lowered, "gfx"@)
}

/// Whether a successful `rocminfo` listed a GPU, its output in lower case.
pub fn rocminfo_lists_gfx(rc: i32, lowered: &str) -> (r: bool)
    ensures
        r == lists_gfx(rc, lowered@),
{
    rc == 0 && contains(lowered, "gfx")
}

/// Whether `rocminfo` enumerates a GPU agent.
pub open spec fn rocminfo_sees_gpu(h: Host) -> Result<bool, QuestionView> {
    match output_answer(h, plain_command("rocminfo"@, Seq::empty(), MEDIUM)) {
        Err(q) => Err(q),
        Ok(out) => Ok(lists_gfx(out.rc, lower_text(out.stdout))),
    }
}

/// Whether `rocminfo` enumerates a GPU agent.
///
/// Only the yes/no answer is taken, so that "the plumbing is complete but no
/// device is reachable" can be told from "the plumbing is incomplete".
pub fn probe_rocminfo_sees_gpu(h: &Answers) -> (r: Result<bool, Question>)
    ensures
        match r {
            Ok(v) => rocminfo_sees_gpu(h@) == Ok::<bool, QuestionView>(v),
            Err(q) => rocminfo_sees_gpu(h@) == Err::<bool, QuestionView>(q@),
        },
{
    match run(h, "rocminfo", no_args(), MEDIUM) {
        Err(q) => Err(q),
        Ok(out) => Ok(rocminfo_lists_gfx(out.rc, lower_case(out.stdout.as_str()).as_str())),
    }
}

/// What the guest knows of itself, as the probes answered.
pub struct GuestFacts {
    pub summary: Option<WslSummary>,
    pub driver: WslHostDriverProbeView,
    pub rocminfo: bool,
    pub is_wsl1: bool,
    pub wsl_lib_dir: bool,
    pub ldconfig: Option<bool>,
    pub sees_gpu: Option<bool>,
}

/// The WSL facts of a guest. Plumbing that could not be summarised counts as
/// missing.
pub open spec fn guest_facts(e: ExaminationView, g: GuestFacts) -> WslFactsView {
    WslFactsView {
        version: if g.is_wsl1 {
            1
        } else {
            2
        },
        dxg_device: g.summary is Some && g.summary->0.dxg_device,
        dxcore: g.summary is Some && g.summary->0.dxcore,
        wsl_lib_dir: g.wsl_lib_dir,
        librocdxg: g.summary is Some && g.summary->0.librocdxg,
        rocdxg_dids: g.summary is Some && g.summary->0.rocdxg_dids,
        ldconfig_librocdxg: g.ldconfig,
        rocminfo: g.rocminfo,
        rocm_sees_gpu: g.sees_gpu,
        distro_supported: floor_verdict(e.distro_id, e.distro_version),
        host_driver_version: driver_fields(g.driver).1,
        host_reachable: driver_fields(g.driver).0,
        locally_probed: true,
    }
}

/// `e` with the WSL facts of the guest.
pub open spec fn guest_recorded(e: ExaminationView, g: GuestFacts) -> ExaminationView {
    with_note(
        wsl_synced(ExaminationView { wsl: Some(guest_facts(e, g)), ..e }),
        WSL_PLATFORM_NOTE@,
    )
}

/// Records the WSL facts of the guest.
pub fn record_guest(
    e: &mut Examination,
    summary: Option<WslSummary>,
    driver: WslHostDriverProbe,
    rocminfo: bool,
    is_wsl1: bool,
    wsl_lib_dir: bool,
    ldconfig: Option<bool>,
    sees_gpu: Option<bool>,
)
    ensures
        final(e)@ == guest_recorded(
            old(e)@,
            (GuestFacts {
                summary,
                driver: driver@,
                rocminfo,
                is_wsl1,
                wsl_lib_dir,
                ldconfig,
                sees_gpu,
            }),
        ),
{
    let plumbing = match summary {
        Some(summary) => summary,
        None => WslSummary {
            dxg_device: false,
            dxcore: false,
            librocdxg: false,
            rocdxg_dids: false,
        },
    };
    let (host_reachable, host_driver_version) = host_driver_fields(driver);
    e.wsl = Some(
        WslFacts {
            version: if is_wsl1 {
                1
            } else {
                2
            },
            dxg_device: plumbing.dxg_device,
            dxcore: plumbing.dxcore,
            wsl_lib_dir,
            librocdxg: plumbing.librocdxg,
            rocdxg_dids: plumbing.rocdxg_dids,
            ldconfig_librocdxg: ldconfig,
            rocminfo,
            rocm_sees_gpu: sees_gpu,
            distro_supported: distro_clears_wsl_floor(
                e.distro_id.as_str(),
                e.distro_version.as_str(),
            ),
            host_driver_version,
            host_reachable,
            locally_probed: true,
        },
    );
    sync_shared_fields_from_wsl(e);
    e.add_note(WSL_PLATFORM_NOTE.to_owned());
}

/// Whether `rocminfo` enumerates a GPU agent, asked only where it is on PATH.
pub open spec fn sees_gpu_if(h: Host, rocminfo: bool) -> Result<Option<bool>, QuestionView> {
    if rocminfo {
        match rocminfo_sees_gpu(h) {
            Err(q) => Err(q),
            Ok(v) => Ok(Some(v)),
        }
    } else {
        Ok(None)
    }
}

/// `e` after the guest was asked about itself.
pub open spec fn wsl_probed(h: Host, e: ExaminationView) -> Result<ExaminationView, QuestionView> {
    match wsl_summary_answer(h, QuestionView::WslPlumbing) {
        Err(q) => Err(q),
        Ok(summary) => match host_driver_answer(h, QuestionView::WslHostDriver) {
            Err(q) => Err(q),
            Ok(driver) => match on_path(h, "rocminfo"@) {
                Err(q) => Err(q),
                Ok(rocminfo) => match flag_answer(
                    h,
                    QuestionView::IsWsl1Kernel(e.kernel_release),
                ) {
                    Err(q) => Err(q),
                    Ok(is_wsl1) => match flag_answer(
                        h,
                        QuestionView::IsDir("/usr/lib/wsl/lib"@),
                    ) {
                        Err(q) => Err(q),
                        Ok(wsl_lib_dir) => match optional_flag_answer(
                            h,
                            QuestionView::LdconfigListsRocdxg,
                        ) {
                            Err(q) => Err(q),
                            Ok(ldconfig) => match sees_gpu_if(h, rocminfo) {
                                Err(q) => Err(q),
                                Ok(sees_gpu) => Ok(
                                    guest_recorded(
                                        e,
                                        GuestFacts {
                                            summary,
                                            driver,
                                            rocminfo,
                                            is_wsl1,
                                            wsl_lib_dir,
                                            ldconfig,
                                            sees_gpu,
                                        },
                                    ),
                                ),
                            },
                        },
                    },
                },
            },
        },
    }
}

/// Collect the WSL-specific facts the WSL half of the catalog reasons over.
pub fn probe_wsl(e: Examination, h: &Answers) -> (r: Result<Examination, Question>)
    ensures
        outcome(r) == wsl_probed(h@, e@),
{
    let mut e = e;
    let summary = match ask_wsl_summary(h, Question::WslPlumbing) {
        Ok(summary) => summary,
        Err(q) => {
            return Err(q);
        },
    };
    let driver = match ask_host_driver(h, Question::WslHostDriver) {
        Ok(driver) => driver,
        Err(q) => {
            return Err(q);
        },
    };
    let rocminfo = match which(h, "rocminfo") {
        Ok(rocminfo) => rocminfo,
        Err(q) => {
            return Err(q);
        },
    };
    let is_wsl1 = match ask_flag(h, Question::IsWsl1Kernel(e.kernel_release.clone())) {
        Ok(is_wsl1) => is_wsl1,
        Err(q) => {
            return Err(q);
        },
    };
    let wsl_lib_dir = match ask_flag(h, Question::IsDir("/usr/lib/wsl/lib".to_owned())) {
        Ok(wsl_lib_dir) => wsl_lib_dir,
        Err(q) => {
            return Err(q);
        },
    };
    let ldconfig = match ask_optional_flag(h, Question::LdconfigListsRocdxg) {
        Ok(ldconfig) => ldconfig,
        Err(q) => {
            return Err(q);
        },
    };
    let sees_gpu = if rocminfo {
        match probe_rocminfo_sees_gpu(h) {
            Ok(v) => Some(v),
            Err(q) => {
                return Err(q);
            },
        }
    } else {
        None
    };
    record_guest(
        &mut e,
        summary,
        driver,
        rocminfo,
        is_wsl1,
        wsl_lib_dir,
        ldconfig,
        sees_gpu,
    );
    Ok(e)
}

// ---------------------------------------------------------------------------
// Choosing a distribution
// ---------------------------------------------------------------------------

/// The distribution that a line of `wsl.exe -l` names, if it names one. The
/// header row and the mark of the default distribution are no names.
pub open spec fn distro_name(raw: Seq<char>) -> Option<Seq<char>> {
    named_distro(trimmed(raw), upper_text(trimmed(raw)))
}

/// The distribution that a line without blanks around it names, given the line
/// in upper case.
pub open spec fn named_distro(line: Seq<char>, upper: Seq<char>) -> Option<Seq<char>> {
    if line.len() == 0 || begins_with(upper, "NAME"@) {
        None
    } else {
        let name = match after_prefix(line, "*"@) {
            Some(rest) => trimmed(rest),
            None => line,
        };
        if name.len() == 0 {
            None
        } else {
            Some(name)
        }
    }
}

/// The distributions that the lines of `wsl.exe -l` name.
pub open spec fn distro_names(lines: Seq<Seq<char>>) -> Seq<Seq<char>>
    decreases lines.len(),
{
    if lines.len() == 0 {
        Seq::empty()
    } else {
        match distro_name(lines.last()) {
            Some(name) => distro_names(lines.drop_last()).push(name),
            None => distro_names(lines.drop_last()),
        }
    }
}

/// `s` without NUL characters.
pub open spec fn without_nul(s: Seq<char>) -> Seq<char> {
    s.filter(|c: char| c != '\0')
}

/// Drops the NUL characters of a text.
pub fn drop_nul(s: &str) -> (r: String)
    ensures
        r@ == without_nul(s@),
{
    let chars = chars_of(s);
    let n: usize = chars.len();
    let mut out = String::new();
    let mut i: usize = 0;
    proof {
        reveal(Seq::filter);
    }
    assert(out@ =~= without_nul(chars@.take(0)));
    while i < n
        invariant
            n == chars@.len(),
            i <= n,
            out@ == without_nul(chars@.take(i as int)),
        decreases n - i,
    {
        proof {
            reveal(Seq::filter);
        }
        assert(chars@.take(i + 1).drop_last() =~= chars@.take(i as int));
        if chars[i] != '\0' {
            out.push(chars[i]);
        }
        i += 1;
    }
    assert(chars@.take(n as int) =~= chars@);
    out
}

/// Reads the name of a distribution off a line without blanks around it, given
/// the line in upper case.
pub fn read_distro_name(line: &str, upper: &str) -> (r: Option<String>)
    ensures
        optional(r) == named_distro(line@, upper@),
{
    if line.is_empty() || starts_with(upper, "NAME") {
        return None;
    }
    let name = match strip_prefix(line, "*") {
        Some(rest) => trim(rest.as_str()),
        None => line.to_owned(),
    };
    if name.as_str().is_empty() {
        None
    } else {
        Some(name)
    }
}

/// Parse `wsl.exe -l -q` into distribution names.
///
/// `-q` prints one bare name per line, so the whole line is the name. It is NOT
/// split on whitespace: `wsl --import "My Distro"` is legal, and truncating that
/// to `My` would hand a wrong name to `wsl.exe -d`.
///
/// A header row and the `*` of the default distribution are tolerated, though
/// `-q` emits neither.
pub fn parse_wsl_distro_list(text: &str) -> (r: Vec<String>)
    ensures
        texts(r@) == distro_names(lines_of(without_nul(text@))),
{
    let clean = drop_nul(text);
    let found = lines(clean.as_str());
    let n: usize = found.len();
    let mut out: Vec<String> = Vec::new();
    let mut i: usize = 0;
    let ghost all = lines_of(clean@);
    assert(texts(out@) =~= Seq::empty());
    while i < n
        invariant
            n == found@.len(),
            i <= n,
            all == texts(found@),
            texts(out@) == distro_names(all.take(i as int)),
        decreases n - i,
    {
        assert(all.take(i + 1).drop_last() =~= all.take(i as int));
        assert(all.take(i + 1).last() == found@[i as int]@);
        let line = trim(found[i].as_str());
        match read_distro_name(line.as_str(), upper_case(line.as_str()).as_str()) {
            Some(name) => {
                out.push(name);
            },
            None => {},
        }
        i += 1;
    }
    assert(all.take(n as int) =~= all);
    out
}

/// Whether a distribution of this name is listed, whatever the case of its
/// letters.
pub open spec fn is_listed(name: Seq<char>, distros: Seq<Seq<char>>) -> bool {
    exists|i: int| 0 <= i < distros.len() && same_but_case(#[trigger] distros[i], name)
}

/// The distribution to inspect, or why there is none.
pub open spec fn selected_distro(
    distro: Option<Seq<char>>,
    distros: Seq<Seq<char>>,
) -> Result<Seq<char>, Seq<char>> {
    match distro {
        Some(name) => if is_listed(name, distros) {
            Ok(name)
        } else {
            Err(
                "no WSL distribution named '"@ + name + "'; found: "@ + joined(distros, ", "@),
            )
        },
        None => if distros.len() == 0 {
            Err("no WSL distributions were found"@)
        } else if distros.len() == 1 {
            Ok(distros[0])
        } else {
            Err(
                "several WSL distributions are installed; name one with --distro: "@ + joined(
                    distros,
                    ", "@,
                ),
            )
        },
    }
}

fn lists_distro(name: &str, distros: &[String]) -> (r: bool)
    ensures
        r == is_listed(name@, texts(distros@)),
{
    let n: usize = distros.len();
    let mut i: usize = 0;
    while i < n
        invariant
            n == distros@.len(),
            i <= n,
            forall|j: int| 0 <= j < i ==> !same_but_case(#[trigger] texts(distros@)[j], name@),
        decreases n - i,
    {
        if eq_ignore_ascii_case(distros[i].as_str(), name) {
            assert(same_but_case(texts(distros@)[i as int], name@));
            return true;
        }
        i += 1;
    }
    false
}

/// What an optional text holds.
pub open spec fn optional_str(s: Option<&str>) -> Option<Seq<char>> {
    match s {
        Some(s) => Some(s@),
        None => None,
    }
}

/// Choose which WSL distribution to inspect, given the requested name (if any)
/// and the list of installed ones.
pub fn select_wsl_distro(distro: Option<&str>, distros: &[String]) -> (r: Result<
    String,
    String,
>)
    ensures
        match r {
            Ok(name) => selected_distro(optional_str(distro), texts(distros@)) == Ok::<
                Seq<char>,
                Seq<char>,
            >(name@),
            Err(reason) => selected_distro(optional_str(distro), texts(distros@)) == Err::<
                Seq<char>,
                Seq<char>,
            >(reason@),
        },
{
    match distro {
        Some(name) => {
            if !lists_distro(name, distros) {
                let reason = concat3("no WSL distribution named '", name, "'; found: ");
                return Err(concat(reason.as_str(), join(distros, ", ").as_str()));
            }
            Ok(name.to_owned())
        },
        None => {
            if distros.len() == 0 {
                Err("no WSL distributions were found".to_owned())
            } else if distros.len() == 1 {
                assert(texts(distros@)[0] == distros@[0]@);
                Ok(distros[0].clone())
            } else {
                Err(
                    concat(
                        "several WSL distributions are installed; name one with --distro: ",
                        join(distros, ", ").as_str(),
                    ),
                )
            }
        },
    }
}

// ---------------------------------------------------------------------------
// From the Windows host
// ---------------------------------------------------------------------------

/// The `key=value` lines that the script printed; of two with one key the last
/// counts.
pub open spec fn remote_fields(lines: Seq<Seq<char>>) -> Map<Seq<char>, Seq<char>>
    decreases lines.len(),
{
    if lines.len() == 0 {
        Map::empty()
    } else {
        match sides_of(lines.last(), '=') {
            Some((key, value)) => remote_fields(lines.drop_last()).insert(
                trimmed(key),
                trimmed(value),
            ),
            None => remote_fields(lines.drop_last()),
        }
    }
}

/// Reads the `key=value` lines that the script printed.
pub fn parse_remote_fields(out: &str) -> (r: TextMap)
    ensures
        r@ == remote_fields(lines_of(out@)),
{
    let found = lines(out);
    let n: usize = found.len();
    let mut fields = TextMap::new();
    let mut i: usize = 0;
    let ghost all = lines_of(out@);
    while i < n
        invariant
            n == found@.len(),
            i <= n,
            all == texts(found@),
            fields@ == remote_fields(all.take(i as int)),
        decreases n - i,
    {
        assert(all.take(i + 1).drop_last() =~= all.take(i as int));
        assert(all.take(i + 1).last() == found@[i as int]@);
        match split_once(found[i].as_str(), '=') {
            Some((key, value)) => {
                fields.insert(trim(key.as_str()).as_str(), trim(value.as_str()));
            },
            None => {},
        }
        i += 1;
    }
    assert(all.take(n as int) =~= all);
    fields
}

/// Whether a field says yes.
pub open spec fn remote_flag(fields: Map<Seq<char>, Seq<char>>, key: Seq<char>) -> bool {
    fields.contains_key(key) && fields[key] == "1"@
}

/// Whether a field says yes.
pub fn parse_remote_flag(fields: &TextMap, key: &str) -> (r: bool)
    ensures
        r == remote_flag(fields@, key@),
{
    match fields.get(key) {
        Some(value) => same_text(value.as_str(), "1"),
        None => false,
    }
}

/// What a field says that may also leave the question open.
pub open spec fn remote_tristate(fields: Map<Seq<char>, Seq<char>>, key: Seq<char>) -> Option<
    bool,
> {
    if !fields.contains_key(key) {
        None
    } else if fields[key] == "1"@ {
        Some(true)
    } else if fields[key] == "0"@ {
        Some(false)
    } else {
        None
    }
}

/// A remote flag that can also report that the question went unanswered.
pub fn parse_remote_tristate(fields: &TextMap, key: &str) -> (r: Option<bool>)
    ensures
        r == remote_tristate(fields@, key@),
{
    match fields.get(key) {
        Some(value) => if same_text(value.as_str(), "1") {
            Some(true)
        } else if same_text(value.as_str(), "0") {
            Some(false)
        } else {
            None
        },
        None => None,
    }
}

/// A field, empty where it is absent.
pub open spec fn remote_text(fields: Map<Seq<char>, Seq<char>>, key: Seq<char>) -> Seq<char> {
    if fields.contains_key(key) {
        fields[key]
    } else {
        Seq::empty()
    }
}

fn remote_text_of(fields: &TextMap, key: &str) -> (r: String)
    ensures
        r@ == remote_text(fields@, key@),
{
    match fields.get(key) {
        Some(value) => value,
        None => String::new(),
    }
}

/// The WSL facts of a guest that the script was run in.
pub open spec fn remote_facts(
    fields: Map<Seq<char>, Seq<char>>,
    driver: WslHostDriverProbeView,
    is_wsl1: bool,
) -> WslFactsView {
    WslFactsView {
        version: if is_wsl1 {
            1
        } else {
            2
        },
        dxg_device: remote_flag(fields, "dxg"@),
        dxcore: remote_flag(fields, "dxcore"@),
        wsl_lib_dir: remote_flag(fields, "wsllib"@),
        librocdxg: remote_flag(fields, "librocdxg"@),
        rocdxg_dids: remote_flag(fields, "dids"@),
        ldconfig_librocdxg: remote_tristate(fields, "ldconfig"@),
        rocminfo: remote_flag(fields, "rocminfo"@),
        rocm_sees_gpu: if remote_flag(fields, "rocminfo"@) {
            Some(remote_flag(fields, "rocmgfx"@))
        } else {
            None
        },
        distro_supported: floor_verdict(
            remote_text(fields, "id"@),
            remote_text(fields, "version"@),
        ),
        host_driver_version: driver_fields(driver).1,
        host_reachable: driver_fields(driver).0,
        locally_probed: false,
    }
}

/// The examination of a guest that the script was run in.
pub open spec fn remote_examination(
    fields: Map<Seq<char>, Seq<char>>,
    driver: WslHostDriverProbeView,
    is_wsl1: bool,
) -> ExaminationView {
    ExaminationView {
        status: "wsl"@,
        ..wsl_synced(
            ExaminationView {
                os_family: "linux"@,
                is_wsl: true,
                kernel_release: remote_text(fields, "kernel"@),
                distro_id: remote_text(fields, "id"@),
                distro_version: remote_text(fields, "version"@),
                wsl: Some(remote_facts(fields, driver, is_wsl1)),
                ..unexamined()
            },
        )
    }
}

/// Assembles the examination of a guest from what the script printed, the
/// driver of the host, and whether the kernel is one of WSL 1.
pub fn examine_remote(fields: &TextMap, driver: WslHostDriverProbe, is_wsl1: bool) -> (r:
    Examination)
    ensures
        r@ == remote_examination(fields@, driver@, is_wsl1),
{
    let ghost driver_view = driver@;
    let mut e = Examination::default();
    e.os_family = "linux".to_owned();
    e.is_wsl = true;
    e.kernel_release = remote_text_of(fields, "kernel");
    e.distro_id = remote_text_of(fields, "id");
    e.distro_version = remote_text_of(fields, "version");
    let (host_reachable, host_driver_version) = host_driver_fields(driver);
    let rocminfo = parse_remote_flag(fields, "rocminfo");
    let facts = WslFacts {
        version: if is_wsl1 {
            1
        } else {
            2
        },
        dxg_device: parse_remote_flag(fields, "dxg"),
        dxcore: parse_remote_flag(fields, "dxcore"),
        wsl_lib_dir: parse_remote_flag(fields, "wsllib"),
        librocdxg: parse_remote_flag(fields, "librocdxg"),
        rocdxg_dids: parse_remote_flag(fields, "dids"),
        ldconfig_librocdxg: parse_remote_tristate(fields, "ldconfig"),
        rocminfo,
        rocm_sees_gpu: if rocminfo {
            Some(parse_remote_flag(fields, "rocmgfx"))
        } else {
            None
        },
        distro_supported: distro_clears_wsl_floor(e.distro_id.as_str(), e.distro_version.as_str()),
        host_driver_version,
        host_reachable,
        locally_probed: false,
    };
    assert(facts@ == remote_facts(fields@, driver_view, is_wsl1));
    e.wsl = Some(facts);
    sync_shared_fields_from_wsl(&mut e);
    e.status = "wsl".to_owned();
    e
}

/// The examination of a distribution from the Windows host, or why there is
/// none.
pub type HostSideView = Result<ExaminationView, Seq<char>>;

/// The command that runs the script in a distribution.
pub open spec fn remote_args(distro: Seq<char>) -> Seq<Seq<char>> {
    seq!["-d"@, distro, "--exec"@, "/bin/sh"@, "-c"@, WSL_REMOTE_PROBE@]
}

/// The examination of the chosen distribution.
pub open spec fn distro_probed(h: Host, selected: Seq<char>) -> Result<HostSideView, QuestionView> {
    match output_answer(h, plain_command("wsl.exe"@, remote_args(selected), 30)) {
        Err(q) => Err(q),
        Ok(out) => if out.rc != 0 {
            Ok(
                Err(
                    "could not inspect '"@ + selected
                        + "'; the distribution may be stopped or unreachable"@,
                ),
            )
        } else {
            let fields = remote_fields(lines_of(out.stdout));
            match host_driver_answer(h, QuestionView::LocalHostDriver) {
                Err(q) => Err(q),
                Ok(driver) => match flag_answer(
                    h,
                    QuestionView::IsWsl1Kernel(remote_text(fields, "kernel"@)),
                ) {
                    Err(q) => Err(q),
                    Ok(is_wsl1) => Ok(Ok(remote_examination(fields, driver, is_wsl1))),
                },
            }
        },
    }
}

/// The examination of a distribution from the Windows host.
pub open spec fn host_side_probed(h: Host, distro: Option<Seq<char>>) -> Result<
    HostSideView,
    QuestionView,
> {
    match on_path(h, "wsl.exe"@) {
        Err(q) => Err(q),
        Ok(false) => Ok(
            Err(
                "wsl.exe was not found; inspecting a distribution this way only works from the Windows host"@,
            ),
        ),
        Ok(true) => match utf16_answer(
            h,
            plain_command("wsl.exe"@, seq!["-l"@, "-q"@], MEDIUM),
        ) {
            Err(q) => Err(q),
            Ok((rc, listed)) => if rc != 0 {
                Ok(Err("could not list WSL distributions"@))
            } else {
                match selected_distro(distro, distro_names(lines_of(without_nul(listed)))) {
                    Err(reason) => Ok(Err(reason)),
                    Ok(selected) => distro_probed(h, selected),
                }
            },
        },
    }
}

fn remote_args_for(distro: &str) -> (r: Vec<String>)
    ensures
        texts(r@) == remote_args(distro@),
{
    let mut v: Vec<String> = Vec::new();
    v.push("-d".to_owned());
    v.push(distro.to_owned());
    v.push("--exec".to_owned());
    v.push("/bin/sh".to_owned());
    v.push("-c".to_owned());
    v.push(WSL_REMOTE_PROBE.to_owned());
    assert(texts(v@) =~= remote_args(distro@));
    v
}

/// What a host-side inspection came to.
pub open spec fn host_side_outcome(r: Result<Result<Examination, String>, Question>) -> Result<
    HostSideView,
    QuestionView,
> {
    match r {
        Ok(Ok(e)) => Ok(Ok(e@)),
        Ok(Err(reason)) => Ok(Err(reason@)),
        Err(q) => Err(q@),
    }
}

fn probe_distro(h: &Answers, selected: &str) -> (r: Result<Result<Examination, String>, Question>)
    ensures
        host_side_outcome(r) == distro_probed(h@, selected@),
{
    let out = match run(h, "wsl.exe", remote_args_for(selected), 30) {
        Ok(out) => out,
        Err(q) => {
            return Err(q);
        },
    };
    if out.rc != 0 {
        return Ok(
            Err(
                concat3(
                    "could not inspect '",
                    selected,
                    "'; the distribution may be stopped or unreachable",
                ),
            ),
        );
    }
    let fields = parse_remote_fields(out.stdout.as_str());
    let driver = match ask_host_driver(h, Question::LocalHostDriver) {
        Ok(driver) => driver,
        Err(q) => {
            return Err(q);
        },
    };
    match ask_flag(h, Question::IsWsl1Kernel(remote_text_of(&fields, "kernel"))) {
        Err(q) => Err(q),
        Ok(is_wsl1) => Ok(Ok(examine_remote(&fields, driver, is_wsl1))),
    }
}

/// Inspect a WSL distribution from the Windows host.
///
/// The inner result is an [`Examination`] the ordinary catalog can be run
/// against, or the reason why there is none: `wsl.exe` is unavailable, no
/// distribution matches, or the probe cannot be run inside the selected one.
pub fn probe_wsl_distro_from_host(distro: Option<&str>, h: &Answers) -> (r: Result<
    Result<Examination, String>,
    Question,
>)
    ensures
        host_side_outcome(r) == host_side_probed(h@, optional_str(distro)),
{
    match which(h, "wsl.exe") {
        Err(q) => {
            return Err(q);
        },
        Ok(false) => {
            return Ok(
                Err(
                    "wsl.exe was not found; inspecting a distribution this way only works from the Windows host".to_owned(),
                ),
            );
        },
        Ok(true) => {},
    }
    let (rc, listed) = match run_utf16le(h, "wsl.exe", two_args("-l", "-q"), MEDIUM) {
        Ok(listed) => listed,
        Err(q) => {
            return Err(q);
        },
    };
    if rc != 0 {
        return Ok(Err("could not list WSL distributions".to_owned()));
    }
    let distros = parse_wsl_distro_list(listed.as_str());
    match select_wsl_distro(distro, distros.as_slice()) {
        Err(reason) => Ok(Err(reason)),
        Ok(selected) => probe_distro(h, selected.as_str()),
    }
}

} // verus!
