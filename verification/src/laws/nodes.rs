//! What holds of the user, the device nodes and secure boot, as the host tells
//! of them.

use vstd::prelude::*;
use vstd::string::*;
use vstd::utf8::*;

use crate::ask::on_path;
use crate::devices::{
    device_stat, devices_probed, render_paths, render_probed, secure_boot_probed, user_probed,
    with_render_device,
};
use crate::examination::{DeviceView, ExaminationView};
use crate::host::{DirEntryView, Host, QuestionView, ReplyView};
use crate::laws::devices::{law_access_follows_posix, law_short_modes_have_no_verdict};
use crate::laws::text::{
    all_space, are_words, holds, is_bare, law_pieces_are_read_back, law_prefix, law_search,
    law_trim, law_words_are_read_back, spaced, strung, words_alone,
};
use crate::laws::told::{lemma_prints, prints, tells};
use crate::order::in_order;
use crate::split::pieces_of;
use crate::text::trimmed;
use crate::unicode::lower_text;

verus! {

broadcast use law_search;

// ---------------------------------------------------------------------------
// The user
// ---------------------------------------------------------------------------

/// The user is named by `USER`, or else by `LOGNAME`, or else by nothing. The
/// words that `id` prints are the groups, and membership in the two groups of
/// the driver is told by them.
pub proof fn law_user_and_groups_are_told(
    h: Host,
    e: ExaminationView,
    user: Option<Seq<char>>,
    logname: Option<Seq<char>>,
    lead: Seq<char>,
    words: Seq<(Seq<char>, Seq<char>)>,
    err: Seq<char>,
)
    requires
        tells(h, QuestionView::EnvVar("USER"@), ReplyView::OptionalText(user)),
        user is None ==> tells(
            h,
            QuestionView::EnvVar("LOGNAME"@),
            ReplyView::OptionalText(logname),
        ),
        all_space(lead),
        are_words(words),
        prints(h, "id"@, seq!["-Gn"@], 3, 0, lead + spaced(words), err),
    ensures
        user_probed(h, e) matches Ok(after) && {
            let groups = words_alone(words);
            &&& user matches Some(name) ==> after.user_name == name
            &&& user is None && logname is Some ==> after.user_name == logname->0
            &&& user is None && logname is None ==> after.user_name == Seq::<char>::empty()
            &&& after.user_groups == groups
            &&& after.in_render_group == Some(groups.contains("render"@))
            &&& after.in_video_group == Some(groups.contains("video"@))
            &&& after == (ExaminationView {
                user_name: after.user_name,
                user_groups: after.user_groups,
                in_render_group: after.in_render_group,
                in_video_group: after.in_video_group,
                ..e
            })
        },
{
    lemma_prints(h, "id"@, seq!["-Gn"@], 3, 0, lead + spaced(words), err);
    law_words_are_read_back(lead, words);
}

/// An `id` that fails leaves the groups as they were.
pub proof fn law_failed_id_keeps_the_groups(
    h: Host,
    e: ExaminationView,
    user: Seq<char>,
    rc: i32,
    out: Seq<char>,
    err: Seq<char>,
)
    requires
        rc != 0,
        tells(h, QuestionView::EnvVar("USER"@), ReplyView::OptionalText(Some(user))),
        prints(h, "id"@, seq!["-Gn"@], 3, rc, out, err),
    ensures
        user_probed(h, e) matches Ok(after) && {
            &&& after.user_name == user
            &&& after.user_groups == e.user_groups
            &&& after.in_render_group == Some(e.user_groups.contains("render"@))
            &&& after.in_video_group == Some(e.user_groups.contains("video"@))
        },
{
    lemma_prints(h, "id"@, seq!["-Gn"@], 3, rc, out, err);
}

// ---------------------------------------------------------------------------
// One node
// ---------------------------------------------------------------------------

/// The three fields that `stat` prints of a node.
pub open spec fn stat_fields(
    mode: Seq<char>,
    owner_user: Seq<char>,
    owner_group: Seq<char>,
) -> Seq<char> {
    mode + seq!['|'] + owner_user + seq!['|'] + owner_group
}

proof fn lemma_stat_fields(
    lead: Seq<char>,
    mode: Seq<char>,
    owner_user: Seq<char>,
    owner_group: Seq<char>,
    trail: Seq<char>,
)
    requires
        all_space(lead),
        is_bare(stat_fields(mode, owner_user, owner_group)),
        all_space(trail),
        !mode.contains('|'),
        !owner_user.contains('|'),
        !owner_group.contains('|'),
    ensures
        pieces_of(
            trimmed(lead + stat_fields(mode, owner_user, owner_group) + trail),
            '|',
        ) == seq![mode, owner_user, owner_group],
{
    let parts = seq![mode, owner_user, owner_group];
    let sep = seq!['|'];
    law_trim(lead, stat_fields(mode, owner_user, owner_group), trail);
    let two = parts.skip(1);
    let one = two.skip(1);
    assert(one.len() == 1 && one[0] == owner_group);
    assert(two[0] == owner_user);
    assert(strung(two, sep) == owner_user + sep + strung(one, sep));
    assert(strung(parts, sep) =~= stat_fields(mode, owner_user, owner_group));
    assert forall|i: int| 0 <= i < parts.len() implies !(#[trigger] parts[i]).contains('|') by {
        if i == 0 {
        } else if i == 1 {
        }
    }
    law_pieces_are_read_back(parts, '|');
}

/// What `stat` says of a node lands on the device: its mode, its owner and its
/// group, and whether the user may read and write it. The bits of one class
/// alone decide: the owner's for the owner, the group's for a member, and else
/// everyone's. A mode that is too short to be one gives no verdict.
pub proof fn law_verdicts_land_on_the_device(
    h: Host,
    path: Seq<char>,
    user_name: Seq<char>,
    user_groups: Seq<Seq<char>>,
    lead: Seq<char>,
    mode: Seq<char>,
    owner_user: Seq<char>,
    owner_group: Seq<char>,
    trail: Seq<char>,
    err: Seq<char>,
)
    requires
        tells(h, QuestionView::Exists(path), ReplyView::Flag(true)),
        prints(
            h,
            "stat"@,
            seq!["-c"@, "%A|%U|%G"@, path],
            5,
            0,
            lead + stat_fields(mode, owner_user, owner_group) + trail,
            err,
        ),
        all_space(lead),
        is_bare(stat_fields(mode, owner_user, owner_group)),
        all_space(trail),
        !mode.contains('|'),
        !owner_user.contains('|'),
        !owner_group.contains('|'),
        is_ascii_chars(mode),
    ensures
        device_stat(h, path, user_name, user_groups) matches Ok(device) && {
            let owner = user_name.len() > 0 && user_name == owner_user;
            let member = user_groups.contains(owner_group);
            &&& device.path == path
            &&& device.exists
            &&& device.mode == mode
            &&& device.owner_user == owner_user
            &&& device.owner_group == owner_group
            &&& mode.len() < 10 ==> device.user_can_read is None && device.user_can_write is None
            &&& mode.len() >= 10 && owner ==> device.user_can_read == Some(mode[1] == 'r') && device.user_can_write
                == Some(mode[2] == 'w')
            &&& mode.len() >= 10 && !owner && member ==> device.user_can_read == Some(mode[4] == 'r')
                && device.user_can_write == Some(mode[5] == 'w')
            &&& mode.len() >= 10 && !owner && !member ==> device.user_can_read == Some(mode[7] == 'r')
                && device.user_can_write == Some(mode[8] == 'w')
        },
{
    lemma_stat_fields(lead, mode, owner_user, owner_group, trail);
    lemma_prints(
        h,
        "stat"@,
        seq!["-c"@, "%A|%U|%G"@, path],
        5,
        0,
        lead + stat_fields(mode, owner_user, owner_group) + trail,
        err,
    );
    if mode.len() >= 10 {
        law_access_follows_posix(mode, owner_user, owner_group, user_name, user_groups);
    } else {
        law_short_modes_have_no_verdict(mode, owner_user, owner_group, user_name, user_groups);
    }
}

/// A node that is there but of which `stat` fails, or says anything but three
/// fields, is there and no more is known of it.
pub proof fn law_unreadable_stat_gives_no_verdict(
    h: Host,
    path: Seq<char>,
    user_name: Seq<char>,
    user_groups: Seq<Seq<char>>,
    rc: i32,
    fields: Seq<Seq<char>>,
    err: Seq<char>,
)
    requires
        tells(h, QuestionView::Exists(path), ReplyView::Flag(true)),
        fields.len() > 0,
        forall|i: int| 0 <= i < fields.len() ==> !(#[trigger] fields[i]).contains('|'),
        is_bare(strung(fields, seq!['|'])),
        rc != 0 || fields.len() != 3,
        prints(
            h,
            "stat"@,
            seq!["-c"@, "%A|%U|%G"@, path],
            5,
            rc,
            strung(fields, seq!['|']),
            err,
        ),
    ensures
        device_stat(h, path, user_name, user_groups) == Ok::<DeviceView, QuestionView>(
            DeviceView {
                path,
                exists: true,
                mode: Seq::empty(),
                owner_user: Seq::empty(),
                owner_group: Seq::empty(),
                user_can_read: None,
                user_can_write: None,
            },
        ),
{
    let s = strung(fields, seq!['|']);
    let none = Seq::<char>::empty();
    law_trim(none, s, none);
    assert(none + s + none =~= s);
    law_pieces_are_read_back(fields, '|');
    lemma_prints(h, "stat"@, seq!["-c"@, "%A|%U|%G"@, path], 5, rc, s, err);
}

/// A node that is not there is not asked about.
pub proof fn law_absent_node_is_not_asked_about(
    h: Host,
    path: Seq<char>,
    user_name: Seq<char>,
    user_groups: Seq<Seq<char>>,
)
    requires
        tells(h, QuestionView::Exists(path), ReplyView::Flag(false)),
    ensures
        device_stat(h, path, user_name, user_groups) == Ok::<DeviceView, QuestionView>(
            DeviceView {
                path,
                exists: false,
                mode: Seq::empty(),
                owner_user: Seq::empty(),
                owner_group: Seq::empty(),
                user_can_read: None,
                user_can_write: None,
            },
        ),
{
}

// ---------------------------------------------------------------------------
// All nodes
// ---------------------------------------------------------------------------

/// The render nodes of a listing are the entries whose name starts with
/// `renderD`, under their paths.
pub proof fn law_render_nodes_by_name(entries: Seq<DirEntryView>, entry: DirEntryView)
    ensures
        render_paths(Seq::empty()) == Seq::<Seq<char>>::empty(),
        "renderD"@.is_prefix_of(entry.name) ==> render_paths(entries.push(entry)) == render_paths(
            entries,
        ).push(entry.path),
        !"renderD"@.is_prefix_of(entry.name) ==> render_paths(entries.push(entry)) == render_paths(
            entries,
        ),
{
    assert(entries.push(entry).drop_last() =~= entries);
    law_prefix(entry.name, "renderD"@);
}

proof fn lemma_render(h: Host, e: ExaminationView, paths: Seq<Seq<char>>)
    ensures
        render_probed(h, e, paths) matches Ok(after) ==> {
            &&& after.render_devices.len() == e.render_devices.len() + paths.len()
            &&& forall|i: int|
                0 <= i < e.render_devices.len() ==> #[trigger] after.render_devices[i]
                    == e.render_devices[i]
            &&& forall|i: int|
                0 <= i < paths.len() ==> device_stat(
                    h,
                    #[trigger] paths[i],
                    e.user_name,
                    e.user_groups,
                ) == Ok::<DeviceView, QuestionView>(
                    after.render_devices[e.render_devices.len() + i],
                )
            &&& after == (ExaminationView { render_devices: after.render_devices, ..e })
        },
    decreases paths.len(),
{
    if paths.len() > 0 {
        match device_stat(h, paths[0], e.user_name, e.user_groups) {
            Ok(device) => {
                let next = with_render_device(e, device);
                let rest = paths.skip(1);
                lemma_render(h, next, rest);
                match render_probed(h, next, rest) {
                    Ok(after) => {
                        let n = e.render_devices.len();
                        assert(after.render_devices[n as int] == next.render_devices[n as int]);
                        assert forall|i: int| 0 <= i < e.render_devices.len() implies
                            #[trigger] after.render_devices[i] == e.render_devices[i] by {
                            assert(next.render_devices[i] == e.render_devices[i]);
                        }
                        assert forall|i: int| 0 <= i < paths.len() implies device_stat(
                            h,
                            #[trigger] paths[i],
                            e.user_name,
                            e.user_groups,
                        ) == Ok::<DeviceView, QuestionView>(after.render_devices[n + i]) by {
                            if i > 0 {
                                assert(rest[i - 1] == paths[i]);
                            }
                        }
                    },
                    Err(_) => {},
                }
            },
            Err(_) => {},
        }
    }
}

/// The compute node is `/dev/kfd`, and the render nodes are those in `/dev/dri`;
/// each is recorded as what `stat` makes of it for this user and these groups.
pub proof fn law_nodes_are_recorded(h: Host, e: ExaminationView, entries: Seq<DirEntryView>)
    requires
        tells(h, QuestionView::ListDir("/dev/dri"@), ReplyView::Listing(Some(entries))),
        e.render_devices.len() == 0,
    ensures
        devices_probed(h, e) matches Ok(after) ==> {
            let paths = in_order(render_paths(entries));
            &&& after.kfd is Some
            &&& device_stat(h, "/dev/kfd"@, e.user_name, e.user_groups) == Ok::<
                DeviceView,
                QuestionView,
            >(after.kfd->0)
            &&& after.render_devices.len() == paths.len()
            &&& forall|i: int|
                0 <= i < paths.len() ==> device_stat(
                    h,
                    #[trigger] paths[i],
                    e.user_name,
                    e.user_groups,
                ) == Ok::<DeviceView, QuestionView>(after.render_devices[i])
        },
{
    match device_stat(h, "/dev/kfd"@, e.user_name, e.user_groups) {
        Ok(kfd) => {
            let next = ExaminationView { kfd: Some(kfd), ..e };
            lemma_render(h, next, in_order(render_paths(entries)));
        },
        Err(_) => {},
    }
}

/// Without a directory of render nodes the compute node is all there is.
pub proof fn law_no_render_nodes(h: Host, e: ExaminationView)
    requires
        tells(h, QuestionView::ListDir("/dev/dri"@), ReplyView::Listing(None)),
    ensures
        devices_probed(h, e) matches Ok(after) ==> {
            &&& after.render_devices == e.render_devices
            &&& after.kfd is Some
            &&& device_stat(h, "/dev/kfd"@, e.user_name, e.user_groups) == Ok::<
                DeviceView,
                QuestionView,
            >(after.kfd->0)
        },
{
}

// ---------------------------------------------------------------------------
// Secure boot
// ---------------------------------------------------------------------------

/// Secure boot is what a successful `mokutil` calls it, in whatever case, and
/// stays as it was where that says neither.
pub proof fn law_secure_boot_is_told(
    h: Host,
    e: ExaminationView,
    rc: i32,
    out: Seq<char>,
    err: Seq<char>,
)
    requires
        on_path(h, "mokutil"@) == Ok::<bool, QuestionView>(true),
        prints(h, "mokutil"@, seq!["--sb-state"@], 3, rc, out, err),
    ensures
        secure_boot_probed(h, e) matches Ok(after) && {
            let enabled = rc == 0 && holds(lower_text(out), "enabled"@);
            let disabled = rc == 0 && holds(lower_text(out), "disabled"@);
            &&& enabled ==> after == (ExaminationView { secure_boot: "enabled"@, ..e })
            &&& disabled && !enabled ==> after == (ExaminationView {
                secure_boot: "disabled"@,
                ..e
            })
            &&& !enabled && !disabled ==> after == e
        },
{
    lemma_prints(h, "mokutil"@, seq!["--sb-state"@], 3, rc, out, err);
}

/// Without `mokutil` nothing is known of secure boot.
pub proof fn law_secure_boot_may_be_untold(h: Host, e: ExaminationView)
    requires
        on_path(h, "mokutil"@) == Ok::<bool, QuestionView>(false),
    ensures
        secure_boot_probed(h, e) == Ok::<ExaminationView, QuestionView>(e),
{
}

} // verus!
