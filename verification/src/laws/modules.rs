//! What holds of the probe of kernel modules, as the host tells of them.

use vstd::prelude::*;
use vstd::string::*;

use crate::devices::{
    any_line_blacklists, blacklists_amdgpu, blacklists_probed, modprobe_dir_probed, module_list,
    modules_probed, modules_recorded, with_blacklist,
};
use crate::examination::ExaminationView;
use crate::host::{DirEntryView, Host, QuestionView, ReplyView};
use crate::laws::text::{
    all_space, are_lines, ended, is_line, law_after_prefix, law_join, law_lines_are_read_back,
    law_prefix, law_printed_lines, lemma_first_word_is, lemma_trimmed_start, no_space, strung,
    text_of,
};
use crate::laws::told::{lemma_prints, prints, tells};
use crate::split::{leading_word, lemma_first_word, lines_of, words_of};
use crate::text::{after_prefix, is_space, trimmed_start};
use crate::unicode::letter_or_digit;

verus! {

// ---------------------------------------------------------------------------
// Loaded modules
// ---------------------------------------------------------------------------

/// A row of a list of modules: the name, and what follows it.
pub open spec fn row(name: Seq<char>, rest: Seq<char>) -> Seq<char> {
    name + rest
}

/// Whether these are rows: a name without blanks, and behind it a blank or
/// nothing.
pub open spec fn are_rows(rows: Seq<(Seq<char>, Seq<char>)>) -> bool {
    forall|i: int|
        0 <= i < rows.len() ==> {
            &&& (#[trigger] rows[i]).0.len() > 0
            &&& no_space(rows[i].0)
            &&& rows[i].1.len() == 0 || is_space(rows[i].1[0])
            &&& is_line(row(rows[i].0, rows[i].1))
        }
}

/// The rows as lines.
pub open spec fn row_lines(rows: Seq<(Seq<char>, Seq<char>)>) -> Seq<Seq<char>> {
    Seq::new(rows.len(), |i: int| row(rows[i].0, rows[i].1))
}

/// Whether one of the rows is that of a module.
pub open spec fn is_in_rows(rows: Seq<(Seq<char>, Seq<char>)>, module: Seq<char>) -> bool {
    exists|i: int| 0 <= i < rows.len() && (#[trigger] rows[i]).0 == module
}

pub(crate) proof fn lemma_leading_word(name: Seq<char>, rest: Seq<char>)
    requires
        name.len() > 0,
        no_space(name),
        rest.len() == 0 || is_space(rest[0]),
    ensures
        leading_word(name + rest) == name,
{
    let s = name + rest;
    assert(s[0] == name[0]);
    assert(trimmed_start(s) == s);
    lemma_first_word_is(name, rest);
    lemma_first_word(s);
    assert(words_of(s)[0] == name);
}

proof fn lemma_rows(rows: Seq<(Seq<char>, Seq<char>)>, text: Seq<char>, module: Seq<char>)
    requires
        are_rows(rows),
        lines_of(text) == row_lines(rows),
    ensures
        crate::devices::lists_module(text, module) == is_in_rows(rows, module),
{
    assert forall|i: int| 0 <= i < rows.len() implies leading_word(
        #[trigger] row_lines(rows)[i],
    ) == rows[i].0 by {
        lemma_leading_word(rows[i].0, rows[i].1);
    }
    if is_in_rows(rows, module) {
        let i = choose|i: int| 0 <= i < rows.len() && (#[trigger] rows[i]).0 == module;
        assert(leading_word(lines_of(text)[i]) == module);
    }
}

/// What is strung with line feeds between is read back, as long as the last line
/// says something.
pub(crate) proof fn lemma_strung_lines(lines: Seq<Seq<char>>)
    requires
        are_lines(lines),
        lines.len() > 0 ==> lines.last().len() > 0,
    ensures
        lines_of(strung(lines, seq!['\n'])) == lines,
{
    let sep = seq!['\n'];
    if lines.len() == 0 {
        law_lines_are_read_back(lines, sep, Seq::empty());
        assert(ended(lines, sep) + Seq::<char>::empty() =~= strung(lines, sep));
    } else {
        let before = lines.drop_last();
        assert forall|i: int| 0 <= i < before.len() implies is_line(#[trigger] before[i]) by {
            assert(before[i] == lines[i]);
        }
        assert(is_line(lines[lines.len() - 1]));
        law_lines_are_read_back(before, sep, lines.last());
        lemma_strung_is_ended(lines);
        assert(before.push(lines.last()) =~= lines);
    }
}

proof fn lemma_strung_is_ended(lines: Seq<Seq<char>>)
    requires
        lines.len() > 0,
    ensures
        strung(lines, seq!['\n']) == ended(lines.drop_last(), seq!['\n']) + lines.last(),
    decreases lines.len(),
{
    let sep = seq!['\n'];
    if lines.len() == 1 {
        assert(ended(lines.drop_last(), sep) + lines.last() =~= lines[0]);
    } else {
        let rest = lines.skip(1);
        lemma_strung_is_ended(rest);
        assert(lines.drop_last().skip(1) =~= rest.drop_last());
        assert(lines.drop_last()[0] == lines[0]);
        assert(ended(lines.drop_last(), sep) == lines[0] + sep + ended(rest.drop_last(), sep));
        assert(strung(lines, sep) =~= ended(lines.drop_last(), sep) + lines.last());
    }
}

proof fn lemma_blacklists_frame(h: Host, e: ExaminationView, entries: Seq<DirEntryView>)
    ensures
        blacklists_probed(h, e, entries) matches Ok(after) ==> after == (ExaminationView {
            amdgpu_blacklisted_in: after.amdgpu_blacklisted_in,
            ..e
        }),
    decreases entries.len(),
{
    if entries.len() > 0 {
        lemma_blacklists_frame(h, e, entries.skip(1));
        lemma_blacklists_frame(h, with_blacklist(e, entries[0].path), entries.skip(1));
    }
}

proof fn lemma_modules_frame(h: Host, e: ExaminationView, text: Option<Seq<char>>)
    requires
        module_list(h) == Ok::<Option<Seq<char>>, QuestionView>(text),
    ensures
        modules_probed(h, e) matches Ok(after) ==> {
            &&& after.amdgpu_loaded == modules_recorded(e, text).amdgpu_loaded
            &&& after.amdkfd_loaded == modules_recorded(e, text).amdkfd_loaded
        },
{
    assert forall|e: ExaminationView, dir: Seq<char>|
        (#[trigger] modprobe_dir_probed(h, e, dir)) is Ok implies modprobe_dir_probed(
        h,
        e,
        dir,
    )->Ok_0 == (ExaminationView {
        amdgpu_blacklisted_in: modprobe_dir_probed(h, e, dir)->Ok_0.amdgpu_blacklisted_in,
        ..e
    }) by {
        match crate::ask::listing_answer(h, QuestionView::ListDir(dir)) {
            Ok(Some(entries)) => {
                lemma_blacklists_frame(h, e, entries);
            },
            _ => {},
        }
    }
}

/// A module is loaded exactly where `lsmod` lists it by name, below the header.
pub proof fn law_lsmod_tells_what_is_loaded(
    h: Host,
    e: ExaminationView,
    header: Seq<char>,
    rows: Seq<(Seq<char>, Seq<char>)>,
    err: Seq<char>,
)
    requires
        is_line(header),
        are_rows(rows),
        prints(
            h,
            "lsmod"@,
            Seq::empty(),
            5,
            0,
            text_of(seq![header] + row_lines(rows)),
            err,
        ),
    ensures
        modules_probed(h, e) matches Ok(after) ==> {
            &&& after.amdgpu_loaded == Some(is_in_rows(rows, "amdgpu"@))
            &&& after.amdkfd_loaded == Some(is_in_rows(rows, "amdkfd"@))
        },
{
    let lines = seq![header] + row_lines(rows);
    assert forall|i: int| 0 <= i < lines.len() implies is_line(#[trigger] lines[i]) by {
        if i > 0 {
            assert(lines[i] == row(rows[i - 1].0, rows[i - 1].1));
        }
    }
    lemma_prints(h, "lsmod"@, Seq::empty(), 5, 0, text_of(lines), err);
    law_printed_lines(lines);
    assert(lines.skip(1) =~= row_lines(rows));
    reveal_strlit("\n");
    assert("\n"@ =~= seq!['\n']);
    law_join(row_lines(rows), "\n"@);
    assert forall|i: int| 0 <= i < row_lines(rows).len() implies is_line(
        #[trigger] row_lines(rows)[i],
    ) by {
        assert(row_lines(rows)[i] == row(rows[i].0, rows[i].1));
    }
    if rows.len() > 0 {
        assert(rows[rows.len() - 1].0.len() > 0);
    }
    lemma_strung_lines(row_lines(rows));
    let text = crate::devices::behind_header(text_of(lines));
    assert(lines_of(text) == row_lines(rows));
    lemma_rows(rows, text, "amdgpu"@);
    lemma_rows(rows, text, "amdkfd"@);
    lemma_modules_frame(h, e, Some(text));
}

/// Where `lsmod` fails, `/proc/modules` tells what is loaded; where that is
/// empty, nothing does.
pub proof fn law_proc_modules_stand_in(
    h: Host,
    e: ExaminationView,
    rc: i32,
    out: Seq<char>,
    err: Seq<char>,
    rows: Seq<(Seq<char>, Seq<char>)>,
)
    requires
        rc != 0,
        prints(h, "lsmod"@, Seq::empty(), 5, rc, out, err),
        are_rows(rows),
        tells(
            h,
            QuestionView::ReadText("/proc/modules"@),
            ReplyView::Text(text_of(row_lines(rows))),
        ),
    ensures
        modules_probed(h, e) matches Ok(after) ==> {
            &&& rows.len() > 0 ==> after.amdgpu_loaded == Some(is_in_rows(rows, "amdgpu"@))
            &&& rows.len() > 0 ==> after.amdkfd_loaded == Some(is_in_rows(rows, "amdkfd"@))
            &&& rows.len() == 0 ==> after.amdgpu_loaded == e.amdgpu_loaded && after.amdkfd_loaded
                == e.amdkfd_loaded
        },
{
    lemma_prints(h, "lsmod"@, Seq::empty(), 5, rc, out, err);
    let lines = row_lines(rows);
    let text = text_of(lines);
    assert forall|i: int| 0 <= i < lines.len() implies is_line(#[trigger] lines[i]) by {
        assert(lines[i] == row(rows[i].0, rows[i].1));
    }
    law_printed_lines(lines);
    if rows.len() > 0 {
        assert(text.len() > 0);
        lemma_rows(rows, text, "amdgpu"@);
        lemma_rows(rows, text, "amdkfd"@);
        lemma_modules_frame(h, e, Some(text));
    } else {
        assert(text.len() == 0);
        lemma_modules_frame(h, e, None);
    }
}

// ---------------------------------------------------------------------------
// Blacklists
// ---------------------------------------------------------------------------

/// A line blacklists the driver where `blacklist` stands first, blanks follow,
/// and then `amdgpu` as a whole word.
pub proof fn law_blacklist_line(lead: Seq<char>, gap: Seq<char>, tail: Seq<char>)
    requires
        all_space(lead),
        all_space(gap),
        gap.len() > 0,
    ensures
        blacklists_amdgpu(lead + "blacklist"@ + gap + "amdgpu"@ + tail) <==> tail.len() == 0 || !(
        letter_or_digit(tail[0]) || tail[0] == '_'),
{
    reveal_strlit("blacklist");
    reveal_strlit("amdgpu");
    let line = lead + "blacklist"@ + gap + "amdgpu"@ + tail;
    let rest = gap + "amdgpu"@ + tail;
    assert(line =~= lead + ("blacklist"@ + rest));
    lemma_trimmed_start(lead, "blacklist"@ + rest);
    assert(("blacklist"@ + rest)[0] == 'b');
    law_after_prefix("blacklist"@, rest);
    assert(rest[0] == gap[0]);
    assert(rest =~= gap + ("amdgpu"@ + tail));
    lemma_trimmed_start(gap, "amdgpu"@ + tail);
    assert(("amdgpu"@ + tail)[0] == 'a');
    law_after_prefix("amdgpu"@, tail);
}

proof fn lemma_split_blanks(s: Seq<char>) -> (lead: Seq<char>)
    ensures
        all_space(lead),
        s == lead + trimmed_start(s),
        s.len() > 0 && is_space(s[0]) ==> lead.len() > 0,
    decreases s.len(),
{
    if s.len() > 0 && is_space(s[0]) {
        let lead = lemma_split_blanks(s.skip(1));
        let more = seq![s[0]] + lead;
        assert forall|i: int| 0 <= i < more.len() implies is_space(#[trigger] more[i]) by {
            if i > 0 {
                assert(more[i] == lead[i - 1]);
            }
        }
        assert(s =~= seq![s[0]] + s.skip(1));
        assert(s =~= more + trimmed_start(s.skip(1)));
        more
    } else {
        assert(s =~= Seq::<char>::empty() + s);
        Seq::empty()
    }
}

/// No other line blacklists the driver.
pub proof fn law_no_other_line_blacklists(line: Seq<char>)
    requires
        blacklists_amdgpu(line),
    ensures
        exists|lead: Seq<char>, gap: Seq<char>, tail: Seq<char>|
            {
                &&& line == #[trigger] (lead + "blacklist"@ + gap + "amdgpu"@ + tail)
                &&& all_space(lead)
                &&& all_space(gap)
                &&& gap.len() > 0
            },
{
    let lead = lemma_split_blanks(line);
    law_prefix(trimmed_start(line), "blacklist"@);
    let rest = after_prefix(trimmed_start(line), "blacklist"@)->0;
    let gap = lemma_split_blanks(rest);
    law_prefix(trimmed_start(rest), "amdgpu"@);
    let tail = after_prefix(trimmed_start(rest), "amdgpu"@)->0;
    assert(line =~= lead + "blacklist"@ + gap + "amdgpu"@ + tail);
}

/// A file blacklists the driver where one of its lines does.
pub proof fn law_blacklisting_file(lines: Seq<Seq<char>>)
    requires
        are_lines(lines),
    ensures
        any_line_blacklists(text_of(lines)) <==> exists|i: int|
            0 <= i < lines.len() && blacklists_amdgpu(#[trigger] lines[i]),
{
    law_printed_lines(lines);
}

/// Of the entries of a directory the files with the extension `conf` are read,
/// and those that blacklist the driver are listed by their paths, in order.
pub proof fn law_conf_files_are_read(
    h: Host,
    e: ExaminationView,
    entry: DirEntryView,
    text: Seq<char>,
    rest: Seq<DirEntryView>,
)
    ensures
        blacklists_probed(h, e, Seq::empty()) == Ok::<ExaminationView, QuestionView>(e),
        (exists|stem: Seq<char>| stem.len() > 0 && entry.name == #[trigger] (stem + ".conf"@))
            && tells(h, QuestionView::ReadText(entry.path), ReplyView::Text(text))
            ==> blacklists_probed(h, e, seq![entry] + rest) == blacklists_probed(
            h,
            if any_line_blacklists(text) {
                ExaminationView {
                    amdgpu_blacklisted_in: e.amdgpu_blacklisted_in.push(entry.path),
                    ..e
                }
            } else {
                e
            },
            rest,
        ),
        !(exists|stem: Seq<char>| stem.len() > 0 && entry.name == #[trigger] (stem + ".conf"@))
            ==> blacklists_probed(h, e, seq![entry] + rest) == blacklists_probed(h, e, rest),
{
    let all = seq![entry] + rest;
    assert(all.skip(1) =~= rest);
    assert(all[0] == entry);
    let name = entry.name;
    reveal_strlit(".conf");
    if exists|stem: Seq<char>| stem.len() > 0 && name == #[trigger] (stem + ".conf"@) {
        let stem = choose|stem: Seq<char>| stem.len() > 0 && name == #[trigger] (stem + ".conf"@);
        assert(name.skip(name.len() - 5) =~= ".conf"@);
    } else if crate::devices::is_conf(name) {
        let stem = name.take(name.len() - 5);
        assert(name =~= stem + ".conf"@);
    }
}

proof fn lemma_blacklists_concat(
    h: Host,
    e: ExaminationView,
    a: Seq<DirEntryView>,
    b: Seq<DirEntryView>,
)
    ensures
        blacklists_probed(h, e, a + b) == (match blacklists_probed(h, e, a) {
            Ok(after) => blacklists_probed(h, after, b),
            Err(q) => Err(q),
        }),
    decreases a.len(),
{
    if a.len() == 0 {
        assert(a + b =~= b);
    } else {
        assert((a + b).skip(1) =~= a.skip(1) + b);
        assert((a + b)[0] == a[0]);
        lemma_blacklists_concat(h, e, a.skip(1), b);
        lemma_blacklists_concat(h, with_blacklist(e, a[0].path), a.skip(1), b);
    }
}

/// The entries of a listing, none where it could not be read.
pub open spec fn listed(entries: Option<Seq<DirEntryView>>) -> Seq<DirEntryView> {
    match entries {
        Some(entries) => entries,
        None => Seq::empty(),
    }
}

/// The three directories of `modprobe` are searched one after the other, and one
/// that cannot be read is passed over.
pub proof fn law_modprobe_directories_are_searched(
    h: Host,
    e: ExaminationView,
    text: Option<Seq<char>>,
    etc: Option<Seq<DirEntryView>>,
    usr: Option<Seq<DirEntryView>>,
    run: Option<Seq<DirEntryView>>,
)
    requires
        module_list(h) == Ok::<Option<Seq<char>>, QuestionView>(text),
        tells(h, QuestionView::ListDir("/etc/modprobe.d"@), ReplyView::Listing(etc)),
        tells(h, QuestionView::ListDir("/usr/lib/modprobe.d"@), ReplyView::Listing(usr)),
        tells(h, QuestionView::ListDir("/run/modprobe.d"@), ReplyView::Listing(run)),
    ensures
        modules_probed(h, e) == blacklists_probed(
            h,
            modules_recorded(e, text),
            listed(etc) + listed(usr) + listed(run),
        ),
{
    let start = modules_recorded(e, text);
    lemma_blacklists_concat(h, start, listed(etc) + listed(usr), listed(run));
    lemma_blacklists_concat(h, start, listed(etc), listed(usr));
}

} // verus!
