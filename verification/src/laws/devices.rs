//! What holds of the probes of modules and device nodes.

use vstd::prelude::*;
use vstd::string::*;
use vstd::utf8::*;

use crate::devices::{
    access_of, device_stat, render_paths, render_probed, user_recorded, with_render_device,
};
use crate::examination::{DeviceView, ExaminationView};
use crate::host::{DirEntryView, Host};
use crate::order::{in_order, lemma_text_order, not_after, text_order};

verus! {

/// The class of the user decides alone, in the order of POSIX: the owner's bits
/// for the owner whatever the groups, then the group's, then everyone else's.
/// A user without a name owns nothing.
pub proof fn law_access_follows_posix(
    mode: Seq<char>,
    owner_user: Seq<char>,
    owner_group: Seq<char>,
    user_name: Seq<char>,
    user_groups: Seq<Seq<char>>,
)
    requires
        is_ascii_chars(mode),
        mode.len() >= 10,
    ensures
        ({
            let access = access_of(mode, owner_user, owner_group, user_name, user_groups);
            &&& user_name.len() > 0 && user_name == owner_user ==> access == (
                Some(mode[1] == 'r'),
                Some(mode[2] == 'w'),
            )
            &&& (user_name.len() == 0 || user_name != owner_user) && user_groups.contains(
                owner_group,
            ) ==> access == (Some(mode[4] == 'r'), Some(mode[5] == 'w'))
            &&& (user_name.len() == 0 || user_name != owner_user) && !user_groups.contains(
                owner_group,
            ) ==> access == (Some(mode[7] == 'r'), Some(mode[8] == 'w'))
        }),
{
    is_ascii_chars_encode_utf8(mode);
    is_ascii_chars_nat_bound(mode);
    let bytes = encode_utf8(mode);
    lemma_ascii_byte(mode[1], 'r');
    lemma_ascii_byte(mode[2], 'w');
    lemma_ascii_byte(mode[4], 'r');
    lemma_ascii_byte(mode[5], 'w');
    lemma_ascii_byte(mode[7], 'r');
    lemma_ascii_byte(mode[8], 'w');
    assert(bytes[1] == mode[1] as u8 && bytes[2] == mode[2] as u8);
    assert(bytes[4] == mode[4] as u8 && bytes[5] == mode[5] as u8);
    assert(bytes[7] == mode[7] as u8 && bytes[8] == mode[8] as u8);
}

proof fn lemma_ascii_byte(a: char, b: char)
    requires
        (a as nat) < 128,
        (b as nat) < 128,
    ensures
        (a as u8 == b as u8) == (a == b),
{
}

/// A mode that is too short to be one gives no verdict.
pub proof fn law_short_modes_have_no_verdict(
    mode: Seq<char>,
    owner_user: Seq<char>,
    owner_group: Seq<char>,
    user_name: Seq<char>,
    user_groups: Seq<Seq<char>>,
)
    requires
        is_ascii_chars(mode),
        mode.len() < 10,
    ensures
        access_of(mode, owner_user, owner_group, user_name, user_groups) == (
            None::<bool>,
            None::<bool>,
        ),
{
    is_ascii_chars_encode_utf8(mode);
}

/// A device that does not exist has no owner and gives no verdict on access.
pub proof fn law_absent_devices_have_no_verdict(
    h: Host,
    path: Seq<char>,
    user_name: Seq<char>,
    user_groups: Seq<Seq<char>>,
)
    ensures
        device_stat(h, path, user_name, user_groups) matches Ok(device) ==> {
            &&& device.path == path
            &&& !device.exists ==> device.mode == Seq::<char>::empty() && device.user_can_read
                is None && device.user_can_write is None
        },
{
}

/// The paths of several devices, in order.
pub open spec fn device_paths(devices: Seq<DeviceView>) -> Seq<Seq<char>> {
    Seq::new(devices.len(), |i: int| devices[i].path)
}

proof fn lemma_render_paths(h: Host, e: ExaminationView, paths: Seq<Seq<char>>)
    ensures
        render_probed(h, e, paths) matches Ok(after) ==> device_paths(after.render_devices)
            == device_paths(e.render_devices) + paths,
    decreases paths.len(),
{
    if paths.len() == 0 {
        assert(device_paths(e.render_devices) + paths =~= device_paths(e.render_devices));
    } else {
        match device_stat(h, paths[0], e.user_name, e.user_groups) {
            Ok(device) => {
                let next = with_render_device(e, device);
                lemma_render_paths(h, next, paths.skip(1));
                assert(device_paths(next.render_devices) =~= device_paths(e.render_devices).push(
                    paths[0],
                ));
                assert(device_paths(e.render_devices).push(paths[0]) + paths.skip(1)
                    =~= device_paths(e.render_devices) + paths);
            },
            Err(_) => {},
        }
    }
}

/// The render nodes of a fresh examination stand in the order of their paths,
/// and are those of the listing, each as often as it is listed.
pub proof fn law_render_nodes_are_in_order(h: Host, e: ExaminationView, entries: Seq<DirEntryView>)
    requires
        e.render_devices.len() == 0,
    ensures
        render_probed(h, e, in_order(render_paths(entries))) matches Ok(after) ==> {
            let paths = device_paths(after.render_devices);
            &&& paths.to_multiset() == render_paths(entries).to_multiset()
            &&& forall|i: int, j: int|
                0 <= i <= j < paths.len() ==> #[trigger] not_after(paths[i], paths[j])
        },
{
    let listed = render_paths(entries);
    let sorted = in_order(listed);
    lemma_text_order();
    listed.lemma_sort_by_ensures(text_order());
    lemma_render_paths(h, e, sorted);
    match render_probed(h, e, sorted) {
        Ok(after) => {
            let paths = device_paths(after.render_devices);
            assert(paths =~= sorted);
            assert forall|i: int, j: int| 0 <= i <= j < paths.len() implies #[trigger] not_after(
                paths[i],
                paths[j],
            ) by {
                let leq = text_order();
                if i < j {
                    assert(leq(sorted[i], sorted[j]));
                } else {
                    assert(leq(sorted[i], sorted[i]));
                }
            }
        },
        Err(_) => {},
    }
}

/// Whether the user is in the groups of the driver is told exactly by the list
/// of their groups.
pub proof fn law_group_flags_agree(e: ExaminationView, name: Seq<char>, rc: i32, out: Seq<char>)
    ensures
        ({
            let after = user_recorded(e, name, rc, out);
            &&& after.in_render_group == Some(after.user_groups.contains("render"@))
            &&& after.in_video_group == Some(after.user_groups.contains("video"@))
        }),
{
}

} // verus!
