//! Kernel modules, device nodes and who may use them.

use vstd::prelude::*;
use vstd::string::*;
use vstd::utf8::*;

use crate::ask::{
    ask_flag, ask_listing, ask_optional_text, ask_text, flag_answer, listing_answer, no_args,
    on_path, one_arg, optional_text_answer, outcome, output_answer, plain_command, run, text_answer,
    three_args, which, SHORT,
};
use crate::examination::{
    bare_device, lemma_device_views_push, Device, DeviceView, Examination, ExaminationView,
};
use crate::host::{entry_views, Answers, DirEntry, DirEntryView, Host, Question, QuestionView};
use crate::order::{in_order, sort};
use crate::split::{
    first_word_of, has_item, join, joined, leading_word, lines, lines_of, pieces_of, split, words,
    words_of,
};
use crate::text::{
    after_prefix, begins_with, chars_of, contains, has_text, is_space, is_whitespace,
    lemma_texts_push, matches_at, same_text, starts_with, strip_prefix, texts, trim, trim_start,
    trimmed, trimmed_start,
};
use crate::unicode::{is_letter_or_digit, letter_or_digit, lower_case, lower_text};

verus! {

broadcast use {lemma_texts_push, lemma_device_views_push};

// ---------------------------------------------------------------------------
// Kernel modules
// ---------------------------------------------------------------------------

/// The lines behind the header of `lsmod`, as one text.
pub open spec fn behind_header(out: Seq<char>) -> Seq<char> {
    let lines = lines_of(out);
    joined(
        if lines.len() > 0 {
            lines.skip(1)
        } else {
            lines
        },
        "\n"@,
    )
}

/// Whether one of the lines starts with the name of the module.
pub open spec fn lists_module(text: Seq<char>, module: Seq<char>) -> bool {
    exists|i: int| 0 <= i < lines_of(text).len() && leading_word(#[trigger] lines_of(text)[i]) == module
}

/// `e` with what a list of loaded modules says; `None` stands for no list.
pub open spec fn modules_recorded(e: ExaminationView, text: Option<Seq<char>>) -> ExaminationView {
    match text {
        Some(text) => ExaminationView {
            amdgpu_loaded: Some(lists_module(text, "amdgpu"@)),
            amdkfd_loaded: Some(lists_module(text, "amdkfd"@)),
            ..e
        },
        None => e,
    }
}

/// The lines behind the header of `lsmod`, as one text.
pub fn drop_header(out: &str) -> (r: String)
    ensures
        r@ == behind_header(out@),
{
    let found = lines(out);
    let n: usize = found.len();
    let mut rest: Vec<String> = Vec::new();
    let ghost all = lines_of(out@);
    if n == 0 {
        assert(texts(rest@) =~= all);
        return join(rest.as_slice(), "\n");
    }
    let mut i: usize = 1;
    assert(texts(rest@) =~= all.subrange(1, 1));
    while i < n
        invariant
            n == found@.len(),
            1 <= i <= n,
            all == texts(found@),
            texts(rest@) == all.subrange(1, i as int),
        decreases n - i,
    {
        rest.push(found[i].clone());
        assert(texts(rest@) =~= all.subrange(1, i + 1));
        i += 1;
    }
    assert(texts(rest@) =~= all.skip(1));
    join(rest.as_slice(), "\n")
}

/// Whether one of the lines starts with the name of the module.
pub fn has_module(text: &str, module: &str) -> (r: bool)
    ensures
        r == lists_module(text@, module@),
{
    let found = lines(text);
    let n: usize = found.len();
    let mut i: usize = 0;
    let ghost all = lines_of(text@);
    while i < n
        invariant
            n == found@.len(),
            i <= n,
            all == texts(found@),
            all == lines_of(text@),
            forall|j: int| 0 <= j < i ==> leading_word(#[trigger] all[j]) != module@,
        decreases n - i,
    {
        assert(all[i as int] == found@[i as int]@);
        if same_text(first_word_of(found[i].as_str()).as_str(), module) {
            return true;
        }
        i += 1;
    }
    false
}

/// Records what a list of loaded modules says.
pub fn record_modules(e: &mut Examination, text: &str)
    ensures
        final(e)@ == modules_recorded(old(e)@, Some(text@)),
{
    e.amdgpu_loaded = Some(has_module(text, "amdgpu"));
    e.amdkfd_loaded = Some(has_module(text, "amdkfd"));
}

/// Whether a tail does not go on with the word before it.
pub open spec fn word_ends(tail: Seq<char>) -> bool {
    tail.len() == 0 || !(letter_or_digit(tail[0]) || tail[0] == '_')
}

/// Whether a line matches `^\s*blacklist\s+amdgpu\b`.
pub open spec fn blacklists_amdgpu(line: Seq<char>) -> bool {
    match after_prefix(trimmed_start(line), "blacklist"@) {
        Some(rest) => rest.len() > 0 && is_space(rest[0]) && match after_prefix(
            trimmed_start(rest),
            "amdgpu"@,
        ) {
            Some(tail) => word_ends(tail),
            None => false,
        },
        None => false,
    }
}

/// Matches `^\s*blacklist\s+amdgpu\b`.
pub fn line_blacklists_amdgpu(line: &str) -> (r: bool)
    ensures
        r == blacklists_amdgpu(line@),
{
    let rest = match strip_prefix(trim_start(line).as_str(), "blacklist") {
        Some(rest) => rest,
        None => {
            return false;
        },
    };
    let gap = chars_of(rest.as_str());
    if gap.len() == 0 || !is_whitespace(gap[0]) {
        return false;
    }
    match strip_prefix(trim_start(rest.as_str()).as_str(), "amdgpu") {
        Some(tail) => {
            let tail = chars_of(tail.as_str());
            tail.len() == 0 || !(is_letter_or_digit(tail[0]) || tail[0] == '_')
        },
        None => false,
    }
}

/// Whether a line of the text blacklists `amdgpu`.
pub open spec fn any_line_blacklists(text: Seq<char>) -> bool {
    exists|i: int| 0 <= i < lines_of(text).len() && blacklists_amdgpu(#[trigger] lines_of(text)[i])
}

/// Whether a line of the text blacklists `amdgpu`.
pub fn text_blacklists_amdgpu(text: &str) -> (r: bool)
    ensures
        r == any_line_blacklists(text@),
{
    let found = lines(text);
    let n: usize = found.len();
    let mut i: usize = 0;
    let ghost all = lines_of(text@);
    while i < n
        invariant
            n == found@.len(),
            i <= n,
            all == texts(found@),
            all == lines_of(text@),
            forall|j: int| 0 <= j < i ==> !blacklists_amdgpu(#[trigger] all[j]),
        decreases n - i,
    {
        assert(all[i as int] == found@[i as int]@);
        if line_blacklists_amdgpu(found[i].as_str()) {
            return true;
        }
        i += 1;
    }
    false
}

/// Whether a file name has the extension `conf`.
pub open spec fn is_conf(name: Seq<char>) -> bool {
    name.len() > 5 && name.skip(name.len() - 5) == ".conf"@
}

/// Whether a file name has the extension `conf`. A name that is all extension
/// has none.
pub fn has_conf_extension(name: &str) -> (r: bool)
    ensures
        r == is_conf(name@),
{
    proof {
        reveal_strlit(".conf");
    }
    let chars = chars_of(name);
    let n: usize = chars.len();
    let suffix = chars_of(".conf");
    if n <= 5 {
        return false;
    }
    let r = matches_at(&chars, &suffix, n - 5);
    assert(chars@.skip(n - 5) =~= chars@.subrange(n - 5, n - 5 + 5));
    r
}

/// Whether a directory entry is a configuration file that blacklists `amdgpu`.
pub open spec fn entry_blacklists(h: Host, entry: DirEntryView) -> Result<bool, QuestionView> {
    if !is_conf(entry.name) {
        Ok(false)
    } else {
        match text_answer(h, QuestionView::ReadText(entry.path)) {
            Err(q) => Err(q),
            Ok(text) => Ok(any_line_blacklists(text)),
        }
    }
}

/// `e` with one more file that blacklists `amdgpu`.
pub open spec fn with_blacklist(e: ExaminationView, path: Seq<char>) -> ExaminationView {
    ExaminationView { amdgpu_blacklisted_in: e.amdgpu_blacklisted_in.push(path), ..e }
}

/// `e` with the entries that blacklist `amdgpu`, in the order of the listing.
pub open spec fn blacklists_probed(
    h: Host,
    e: ExaminationView,
    entries: Seq<DirEntryView>,
) -> Result<ExaminationView, QuestionView>
    decreases entries.len(),
{
    if entries.len() == 0 {
        Ok(e)
    } else {
        match entry_blacklists(h, entries[0]) {
            Err(q) => Err(q),
            Ok(true) => blacklists_probed(h, with_blacklist(e, entries[0].path), entries.skip(1)),
            Ok(false) => blacklists_probed(h, e, entries.skip(1)),
        }
    }
}

/// `e` with the files of a directory that blacklist `amdgpu`.
pub open spec fn modprobe_dir_probed(h: Host, e: ExaminationView, dir: Seq<char>) -> Result<
    ExaminationView,
    QuestionView,
> {
    match listing_answer(h, QuestionView::ListDir(dir)) {
        Err(q) => Err(q),
        Ok(None) => Ok(e),
        Ok(Some(entries)) => blacklists_probed(h, e, entries),
    }
}

fn probe_modprobe_dir(e: Examination, h: &Answers, dir: &str) -> (r: Result<Examination, Question>)
    ensures
        outcome(r) == modprobe_dir_probed(h@, e@, dir@),
{
    let mut now = e;
    let entries = match ask_listing(h, Question::ListDir(dir.to_owned())) {
        Err(q) => {
            return Err(q);
        },
        Ok(None) => {
            return Ok(now);
        },
        Ok(Some(entries)) => entries,
    };
    let n: usize = entries.len();
    let mut i: usize = 0;
    let ghost all = entry_views(entries@);
    assert(all.skip(0) =~= all);
    while i < n
        invariant
            n == entries@.len(),
            i <= n,
            all == entry_views(entries@),
            modprobe_dir_probed(h@, e@, dir@) == blacklists_probed(h@, e@, all),
            blacklists_probed(h@, e@, all) == blacklists_probed(h@, now@, all.skip(i as int)),
        decreases n - i,
    {
        assert(all.skip(i as int).skip(1) =~= all.skip(i + 1));
        assert(all.skip(i as int)[0] == entries@[i as int]@);
        if has_conf_extension(entries[i].name.as_str()) {
            match ask_text(h, Question::ReadText(entries[i].path.clone())) {
                Err(q) => {
                    return Err(q);
                },
                Ok(text) => {
                    if text_blacklists_amdgpu(text.as_str()) {
                        now.amdgpu_blacklisted_in.push(entries[i].path.clone());
                    }
                },
            }
        }
        i += 1;
    }
    Ok(now)
}

/// The list of loaded modules, where there is one.
pub open spec fn module_list(h: Host) -> Result<Option<Seq<char>>, QuestionView> {
    match output_answer(h, plain_command("lsmod"@, Seq::empty(), SHORT)) {
        Err(q) => Err(q),
        Ok(out) => if out.rc == 0 {
            Ok(Some(behind_header(out.stdout)))
        } else {
            match text_answer(h, QuestionView::ReadText("/proc/modules"@)) {
                Err(q) => Err(q),
                Ok(text) => if text.len() == 0 {
                    Ok(None)
                } else {
                    Ok(Some(text))
                },
            }
        },
    }
}

fn find_module_list(h: &Answers) -> (r: Result<Option<String>, Question>)
    ensures
        match r {
            Ok(Some(text)) => module_list(h@) == Ok::<Option<Seq<char>>, QuestionView>(
                Some(text@),
            ),
            Ok(None) => module_list(h@) == Ok::<Option<Seq<char>>, QuestionView>(None),
            Err(q) => module_list(h@) == Err::<Option<Seq<char>>, QuestionView>(q@),
        },
{
    match run(h, "lsmod", no_args(), SHORT) {
        Err(q) => Err(q),
        Ok(out) => {
            if out.rc == 0 {
                return Ok(Some(drop_header(out.stdout.as_str())));
            }
            match ask_text(h, Question::ReadText("/proc/modules".to_owned())) {
                Err(q) => Err(q),
                Ok(text) => if text.as_str().is_empty() {
                    Ok(None)
                } else {
                    Ok(Some(text))
                },
            }
        },
    }
}

/// `e` after the kernel modules were asked about.
pub open spec fn modules_probed(h: Host, e: ExaminationView) -> Result<
    ExaminationView,
    QuestionView,
> {
    match module_list(h) {
        Err(q) => Err(q),
        Ok(text) => match modprobe_dir_probed(h, modules_recorded(e, text), "/etc/modprobe.d"@) {
            Err(q) => Err(q),
            Ok(e) => match modprobe_dir_probed(h, e, "/usr/lib/modprobe.d"@) {
                Err(q) => Err(q),
                Ok(e) => modprobe_dir_probed(h, e, "/run/modprobe.d"@),
            },
        },
    }
}

/// Asks which of the driver's modules are loaded, and where they are
/// blacklisted.
pub fn probe_modules(e: Examination, h: &Answers) -> (r: Result<Examination, Question>)
    ensures
        outcome(r) == modules_probed(h@, e@),
{
    let mut e = e;
    match find_module_list(h) {
        Err(q) => {
            return Err(q);
        },
        Ok(Some(text)) => {
            record_modules(&mut e, text.as_str());
        },
        Ok(None) => {},
    }
    let e = match probe_modprobe_dir(e, h, "/etc/modprobe.d") {
        Ok(e) => e,
        Err(q) => {
            return Err(q);
        },
    };
    let e = match probe_modprobe_dir(e, h, "/usr/lib/modprobe.d") {
        Ok(e) => e,
        Err(q) => {
            return Err(q);
        },
    };
    probe_modprobe_dir(e, h, "/run/modprobe.d")
}

// ---------------------------------------------------------------------------
// Access to a device node
// ---------------------------------------------------------------------------

/// Where the bits of the user's class start in a mode string. The owner's come
/// before the group's, and the group's before everyone else's.
pub open spec fn access_class(
    owner_user: Seq<char>,
    owner_group: Seq<char>,
    user_name: Seq<char>,
    user_groups: Seq<Seq<char>>,
) -> int {
    if user_name.len() > 0 && user_name == owner_user {
        1
    } else if user_groups.contains(owner_group) {
        4
    } else {
        7
    }
}

/// Whether the user may read and write; unknown where the mode string is too
/// short.
pub open spec fn access_of(
    mode: Seq<char>,
    owner_user: Seq<char>,
    owner_group: Seq<char>,
    user_name: Seq<char>,
    user_groups: Seq<Seq<char>>,
) -> (Option<bool>, Option<bool>) {
    let bytes = encode_utf8(mode);
    let class = access_class(owner_user, owner_group, user_name, user_groups);
    if bytes.len() < 10 {
        (None, None)
    } else {
        (Some(bytes[class] == 'r' as u8), Some(bytes[class + 1] == 'w' as u8))
    }
}

/// Derive read/write access from a `stat`-style mode string and group
/// membership, following POSIX precedence (owner, then group, then other).
pub fn mode_access(
    mode: &str,
    owner_user: &str,
    owner_group: &str,
    user_name: &str,
    user_groups: &[String],
) -> (r: (Option<bool>, Option<bool>))
    ensures
        r == access_of(mode@, owner_user@, owner_group@, user_name@, texts(user_groups@)),
{
    let bytes = mode.as_bytes();
    if bytes.len() < 10 {
        return (None, None);
    }
    let class: usize = if !user_name.is_empty() && same_text(user_name, owner_user) {
        1
    } else if has_item(user_groups, owner_group) {
        4
    } else {
        7
    };
    (Some(bytes[class] == 'r' as u8), Some(bytes[class + 1] == 'w' as u8))
}

/// The device with what `stat -c '%A|%U|%G'` printed of it.
pub open spec fn stat_recorded(
    d: DeviceView,
    rc: i32,
    out: Seq<char>,
    user_name: Seq<char>,
    user_groups: Seq<Seq<char>>,
) -> DeviceView {
    let fields = pieces_of(trimmed(out), '|');
    if rc != 0 || fields.len() != 3 {
        d
    } else {
        let access = access_of(fields[0], fields[1], fields[2], user_name, user_groups);
        DeviceView {
            mode: fields[0],
            owner_user: fields[1],
            owner_group: fields[2],
            user_can_read: access.0,
            user_can_write: access.1,
            ..d
        }
    }
}

/// Records what `stat -c '%A|%U|%G'` printed of a device.
pub fn record_stat(device: &mut Device, rc: i32, out: &str, user_name: &str, user_groups: &[String])
    ensures
        final(device)@ == stat_recorded(old(device)@, rc, out@, user_name@, texts(user_groups@)),
{
    let fields = split(trim(out).as_str(), '|');
    if rc != 0 || fields.len() != 3 {
        return;
    }
    let ghost views = texts(fields@);
    assert(views[0] == fields@[0]@ && views[1] == fields@[1]@ && views[2] == fields@[2]@);
    let (can_read, can_write) = mode_access(
        fields[0].as_str(),
        fields[1].as_str(),
        fields[2].as_str(),
        user_name,
        user_groups,
    );
    device.mode = fields[0].clone();
    device.owner_user = fields[1].clone();
    device.owner_group = fields[2].clone();
    device.user_can_read = can_read;
    device.user_can_write = can_write;
}

/// What `stat` says of a path for this user.
pub open spec fn device_stat(
    h: Host,
    path: Seq<char>,
    user_name: Seq<char>,
    user_groups: Seq<Seq<char>>,
) -> Result<DeviceView, QuestionView> {
    match flag_answer(h, QuestionView::Exists(path)) {
        Err(q) => Err(q),
        Ok(false) => Ok(bare_device(path, false)),
        Ok(true) => match output_answer(
            h,
            plain_command("stat"@, seq!["-c"@, "%A|%U|%G"@, path], SHORT),
        ) {
            Err(q) => Err(q),
            Ok(out) => Ok(
                stat_recorded(bare_device(path, true), out.rc, out.stdout, user_name, user_groups),
            ),
        },
    }
}

/// Stats a device node and works out what the user may do with it.
pub fn stat_device(h: &Answers, path: &str, user_name: &str, user_groups: &[String]) -> (r:
    Result<Device, Question>)
    ensures
        match r {
            Ok(device) => device_stat(h@, path@, user_name@, texts(user_groups@)) == Ok::<
                DeviceView,
                QuestionView,
            >(device@),
            Err(q) => device_stat(h@, path@, user_name@, texts(user_groups@)) == Err::<
                DeviceView,
                QuestionView,
            >(q@),
        },
{
    let exists_ = match ask_flag(h, Question::Exists(path.to_owned())) {
        Ok(exists_) => exists_,
        Err(q) => {
            return Err(q);
        },
    };
    let mut device = Device::default();
    device.path = path.to_owned();
    device.exists = exists_;
    if !exists_ {
        return Ok(device);
    }
    match run(h, "stat", three_args("-c", "%A|%U|%G", path), SHORT) {
        Err(q) => Err(q),
        Ok(out) => {
            record_stat(&mut device, out.rc, out.stdout.as_str(), user_name, user_groups);
            Ok(device)
        },
    }
}

// ---------------------------------------------------------------------------
// The device nodes
// ---------------------------------------------------------------------------

/// The paths of the render nodes in a listing, in its order.
pub open spec fn render_paths(entries: Seq<DirEntryView>) -> Seq<Seq<char>>
    decreases entries.len(),
{
    if entries.len() == 0 {
        Seq::empty()
    } else if begins_with(entries.last().name, "renderD"@) {
        render_paths(entries.drop_last()).push(entries.last().path)
    } else {
        render_paths(entries.drop_last())
    }
}

/// The paths of the render nodes in a listing, in its order.
pub fn find_render_paths(entries: &Vec<DirEntry>) -> (r: Vec<String>)
    ensures
        texts(r@) == render_paths(entry_views(entries@)),
{
    let n: usize = entries.len();
    let mut out: Vec<String> = Vec::new();
    let mut i: usize = 0;
    let ghost all = entry_views(entries@);
    assert(texts(out@) =~= Seq::empty());
    while i < n
        invariant
            n == entries@.len(),
            i <= n,
            all == entry_views(entries@),
            texts(out@) == render_paths(all.take(i as int)),
        decreases n - i,
    {
        assert(all.take(i + 1).drop_last() =~= all.take(i as int));
        assert(all.take(i + 1).last() == entries@[i as int]@);
        if starts_with(entries[i].name.as_str(), "renderD") {
            out.push(entries[i].path.clone());
        }
        i += 1;
    }
    assert(all.take(n as int) =~= all);
    out
}

/// `e` with one more render node.
pub open spec fn with_render_device(e: ExaminationView, device: DeviceView) -> ExaminationView {
    ExaminationView { render_devices: e.render_devices.push(device), ..e }
}

/// `e` with the render nodes at the paths.
pub open spec fn render_probed(h: Host, e: ExaminationView, paths: Seq<Seq<char>>) -> Result<
    ExaminationView,
    QuestionView,
>
    decreases paths.len(),
{
    if paths.len() == 0 {
        Ok(e)
    } else {
        match device_stat(h, paths[0], e.user_name, e.user_groups) {
            Err(q) => Err(q),
            Ok(device) => render_probed(h, with_render_device(e, device), paths.skip(1)),
        }
    }
}

/// `e` after the device nodes were asked about.
pub open spec fn devices_probed(h: Host, e: ExaminationView) -> Result<
    ExaminationView,
    QuestionView,
> {
    match device_stat(h, "/dev/kfd"@, e.user_name, e.user_groups) {
        Err(q) => Err(q),
        Ok(kfd) => {
            let e = ExaminationView { kfd: Some(kfd), ..e };
            match listing_answer(h, QuestionView::ListDir("/dev/dri"@)) {
                Err(q) => Err(q),
                Ok(None) => Ok(e),
                Ok(Some(entries)) => render_probed(h, e, in_order(render_paths(entries))),
            }
        },
    }
}

fn probe_render_devices(e: Examination, h: &Answers, paths: Vec<String>) -> (r: Result<
    Examination,
    Question,
>)
    ensures
        outcome(r) == render_probed(h@, e@, texts(paths@)),
{
    let mut now = e;
    let n: usize = paths.len();
    let mut i: usize = 0;
    let ghost all = texts(paths@);
    assert(all.skip(0) =~= all);
    while i < n
        invariant
            n == paths@.len(),
            i <= n,
            all == texts(paths@),
            render_probed(h@, e@, texts(paths@)) == render_probed(h@, now@, all.skip(i as int)),
        decreases n - i,
    {
        assert(all.skip(i as int).skip(1) =~= all.skip(i + 1));
        assert(all.skip(i as int)[0] == paths@[i as int]@);
        match stat_device(h, paths[i].as_str(), now.user_name.as_str(), now.user_groups.as_slice()) {
            Err(q) => {
                return Err(q);
            },
            Ok(device) => {
                now.render_devices.push(device);
            },
        }
        i += 1;
    }
    Ok(now)
}

/// Stats `/dev/kfd` and the render nodes, the latter in the order of their
/// paths.
pub fn probe_devices(e: Examination, h: &Answers) -> (r: Result<Examination, Question>)
    ensures
        outcome(r) == devices_probed(h@, e@),
{
    let mut e = e;
    match stat_device(h, "/dev/kfd", e.user_name.as_str(), e.user_groups.as_slice()) {
        Err(q) => {
            return Err(q);
        },
        Ok(kfd) => {
            e.kfd = Some(kfd);
        },
    }
    match ask_listing(h, Question::ListDir("/dev/dri".to_owned())) {
        Err(q) => Err(q),
        Ok(None) => Ok(e),
        Ok(Some(entries)) => probe_render_devices(e, h, sort(find_render_paths(&entries))),
    }
}

// ---------------------------------------------------------------------------
// The user
// ---------------------------------------------------------------------------

/// The name of the user, empty where the environment has none.
pub open spec fn user_name_answer(h: Host) -> Result<Seq<char>, QuestionView> {
    match optional_text_answer(h, QuestionView::EnvVar("USER"@)) {
        Err(q) => Err(q),
        Ok(Some(name)) => Ok(name),
        Ok(None) => match optional_text_answer(h, QuestionView::EnvVar("LOGNAME"@)) {
            Err(q) => Err(q),
            Ok(Some(name)) => Ok(name),
            Ok(None) => Ok(Seq::empty()),
        },
    }
}

fn find_user_name(h: &Answers) -> (r: Result<String, Question>)
    ensures
        match r {
            Ok(name) => user_name_answer(h@) == Ok::<Seq<char>, QuestionView>(name@),
            Err(q) => user_name_answer(h@) == Err::<Seq<char>, QuestionView>(q@),
        },
{
    match ask_optional_text(h, Question::EnvVar("USER".to_owned())) {
        Err(q) => Err(q),
        Ok(Some(name)) => Ok(name),
        Ok(None) => match ask_optional_text(h, Question::EnvVar("LOGNAME".to_owned())) {
            Err(q) => Err(q),
            Ok(Some(name)) => Ok(name),
            Ok(None) => Ok(String::new()),
        },
    }
}

/// `e` with the user and what `id -Gn` printed.
pub open spec fn user_recorded(
    e: ExaminationView,
    name: Seq<char>,
    rc: i32,
    out: Seq<char>,
) -> ExaminationView {
    let groups = if rc == 0 {
        words_of(out)
    } else {
        e.user_groups
    };
    ExaminationView {
        user_name: name,
        user_groups: groups,
        in_render_group: Some(groups.contains("render"@)),
        in_video_group: Some(groups.contains("video"@)),
        ..e
    }
}

/// Records the user and what `id -Gn` printed.
pub fn record_user(e: &mut Examination, name: String, rc: i32, out: &str)
    ensures
        final(e)@ == user_recorded(old(e)@, name@, rc, out@),
{
    e.user_name = name;
    if rc == 0 {
        e.user_groups = words(out);
    }
    e.in_render_group = Some(has_item(e.user_groups.as_slice(), "render"));
    e.in_video_group = Some(has_item(e.user_groups.as_slice(), "video"));
}

/// `e` after the user was asked about.
pub open spec fn user_probed(h: Host, e: ExaminationView) -> Result<ExaminationView, QuestionView> {
    match user_name_answer(h) {
        Err(q) => Err(q),
        Ok(name) => match output_answer(h, plain_command("id"@, seq!["-Gn"@], 3)) {
            Err(q) => Err(q),
            Ok(out) => Ok(user_recorded(e, name, out.rc, out.stdout)),
        },
    }
}

/// Asks who the user is and which groups they are in.
pub fn probe_user(e: Examination, h: &Answers) -> (r: Result<Examination, Question>)
    ensures
        outcome(r) == user_probed(h@, e@),
{
    let mut e = e;
    let name = match find_user_name(h) {
        Ok(name) => name,
        Err(q) => {
            return Err(q);
        },
    };
    match run(h, "id", one_arg("-Gn"), 3) {
        Err(q) => Err(q),
        Ok(out) => {
            record_user(&mut e, name, out.rc, out.stdout.as_str());
            Ok(e)
        },
    }
}

// ---------------------------------------------------------------------------
// Secure boot
// ---------------------------------------------------------------------------

/// What a successful `mokutil --sb-state` says of secure boot, its output in
/// lower case. What it does not say leaves the old state.
pub open spec fn secure_boot_in(lowered: Seq<char>, before: Seq<char>) -> Seq<char> {
    if has_text(lowered, "enabled"@) {
        "enabled"@
    } else if has_text(lowered, "disabled"@) {
        "disabled"@
    } else {
        before
    }
}

/// Records what a successful `mokutil --sb-state` says, its output in lower
/// case.
pub fn record_secure_boot(e: &mut Examination, lowered: &str)
    ensures
        final(e)@ == (ExaminationView {
            secure_boot: secure_boot_in(lowered@, old(e)@.secure_boot),
            ..old(e)@
        }),
{
    if contains(lowered, "enabled") {
        e.secure_boot = "enabled".to_owned();
    } else if contains(lowered, "disabled") {
        e.secure_boot = "disabled".to_owned();
    }
}

/// `e` after `mokutil` was asked for the state of secure boot.
pub open spec fn secure_boot_probed(h: Host, e: ExaminationView) -> Result<
    ExaminationView,
    QuestionView,
> {
    match on_path(h, "mokutil"@) {
        Err(q) => Err(q),
        Ok(false) => Ok(e),
        Ok(true) => match output_answer(h, plain_command("mokutil"@, seq!["--sb-state"@], 3)) {
            Err(q) => Err(q),
            Ok(out) => if out.rc == 0 {
                Ok(
                    ExaminationView {
                        secure_boot: secure_boot_in(lower_text(out.stdout), e.secure_boot),
                        ..e
                    },
                )
            } else {
                Ok(e)
            },
        },
    }
}

/// Asks `mokutil` for the state of secure boot, where it is on PATH.
pub fn probe_secure_boot(e: Examination, h: &Answers) -> (r: Result<Examination, Question>)
    ensures
        outcome(r) == secure_boot_probed(h@, e@),
{
    let mut e = e;
    match which(h, "mokutil") {
        Err(q) => {
            return Err(q);
        },
        Ok(false) => {
            return Ok(e);
        },
        Ok(true) => {},
    }
    match run(h, "mokutil", one_arg("--sb-state"), 3) {
        Err(q) => Err(q),
        Ok(out) => {
            if out.rc == 0 {
                record_secure_boot(&mut e, lower_case(out.stdout.as_str()).as_str());
            }
            Ok(e)
        },
    }
}

} // verus!
