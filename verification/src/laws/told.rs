//! What a host tells: its answers, written down as they are given, and what is
//! made of them.

use vstd::prelude::*;
use vstd::string::*;
use vstd::utf8::*;

use crate::ask::{any_file, any_file_in, on_path, output_answer, plain_command, utf16_answer};
use crate::host::{
    fits, CommandOutputView, CommandView, Host, OsFamily, QuestionView, RawOutputView, ReplyView,
};
use crate::laws::text::{law_pieces_are_read_back, strung};
use crate::unicode::utf8_text;
use crate::utf16::{bytes_of, law_marked_text_survives, law_unmarked_text_survives, units_of};

verus! {

// ---------------------------------------------------------------------------
// Answers
// ---------------------------------------------------------------------------

/// Whether the host gives this reply to the question.
pub open spec fn tells(h: Host, q: QuestionView, reply: ReplyView) -> bool {
    h.contains_key(q) && h[q] == reply
}

/// Whether the host answers the question, in whatever way.
pub open spec fn answers(h: Host, q: QuestionView) -> bool {
    h.contains_key(q) && fits(q, h[q])
}

/// The question that a program be run with arguments, within a time in seconds.
pub open spec fn running(program: Seq<char>, args: Seq<Seq<char>>, secs: u64) -> QuestionView {
    QuestionView::Run(CommandView { program, args, envs: Seq::empty(), timeout_secs: secs })
}

/// What a program left behind that printed these texts and ended with this code.
pub open spec fn printing(rc: i32, out: Seq<char>, err: Seq<char>) -> ReplyView {
    ReplyView::Output(
        RawOutputView { rc, stdout: encode_utf8(out), stderr: encode_utf8(err) },
    )
}

/// Whether a program, run so, ends with this code and prints these texts.
pub open spec fn prints(
    h: Host,
    program: Seq<char>,
    args: Seq<Seq<char>>,
    secs: u64,
    rc: i32,
    out: Seq<char>,
    err: Seq<char>,
) -> bool {
    tells(h, running(program, args, secs), printing(rc, out, err))
}

pub(crate) proof fn lemma_read(s: Seq<char>)
    ensures
        utf8_text(encode_utf8(s)) == s,
{
    encode_utf8_valid_utf8(s);
    encode_utf8_decode_utf8(s);
}

/// What a program prints is what is read of it: text for text, the two streams
/// apart, and the code that it ended with.
pub proof fn law_output_is_read(
    h: Host,
    command: CommandView,
    rc: i32,
    out: Seq<char>,
    err: Seq<char>,
)
    requires
        tells(h, QuestionView::Run(command), printing(rc, out, err)),
    ensures
        output_answer(h, command) == Ok::<CommandOutputView, QuestionView>(
            CommandOutputView { rc, stdout: out, stderr: err },
        ),
{
    lemma_read(out);
    lemma_read(err);
}

pub(crate) proof fn lemma_prints(
    h: Host,
    program: Seq<char>,
    args: Seq<Seq<char>>,
    secs: u64,
    rc: i32,
    out: Seq<char>,
    err: Seq<char>,
)
    requires
        prints(h, program, args, secs, rc, out, err),
    ensures
        output_answer(h, plain_command(program, args, secs)) == Ok::<
            CommandOutputView,
            QuestionView,
        >(CommandOutputView { rc, stdout: out, stderr: err }),
{
    law_output_is_read(h, plain_command(program, args, secs), rc, out, err);
}

/// What a program writes in UTF-16 is what is read of it, with a byte order mark
/// or without one.
pub proof fn law_wide_output_is_read(
    h: Host,
    command: CommandView,
    rc: i32,
    out: Seq<char>,
    marked: bool,
    stderr: Seq<u8>,
)
    requires
        marked || out.len() == 0 || out[0] != '\u{feff}',
        tells(
            h,
            QuestionView::Run(command),
            ReplyView::Output(
                RawOutputView {
                    rc,
                    stdout: if marked {
                        seq![0xffu8, 0xfeu8] + bytes_of(units_of(out))
                    } else {
                        bytes_of(units_of(out))
                    },
                    stderr,
                },
            ),
        ),
    ensures
        utf16_answer(h, command) == Ok::<(i32, Seq<char>), QuestionView>((rc, out)),
{
    if marked {
        law_marked_text_survives(out);
    } else {
        law_unmarked_text_survives(out);
    }
}

// ---------------------------------------------------------------------------
// Programs on PATH
// ---------------------------------------------------------------------------

/// Whether the host says that a directory holds a file of this name.
pub open spec fn file_there(h: Host, dir: Seq<char>, name: Seq<char>) -> bool {
    tells(h, QuestionView::FileIn { dir, name }, ReplyView::Flag(true))
}

/// Whether one of the directories holds a file by one of the names. Nothing is
/// no directory.
pub open spec fn any_there(h: Host, dirs: Seq<Seq<char>>, names: Seq<Seq<char>>) -> bool {
    exists|i: int, k: int|
        0 <= i < dirs.len() && 0 <= k < names.len() && dirs[i].len() > 0 && #[trigger] file_there(
            h,
            dirs[i],
            names[k],
        )
}

/// Whether the host answers for each of the directories and each of the names.
pub open spec fn all_answered(h: Host, dirs: Seq<Seq<char>>, names: Seq<Seq<char>>) -> bool {
    forall|i: int, k: int|
        0 <= i < dirs.len() && 0 <= k < names.len() ==> #[trigger] answers(
            h,
            QuestionView::FileIn { dir: dirs[i], name: names[k] },
        )
}

proof fn lemma_any_there(h: Host, dir: Seq<char>, names: Seq<Seq<char>>)
    requires
        all_answered(h, seq![dir], names),
        dir.len() > 0,
    ensures
        any_file(h, dir, names) == Ok::<bool, QuestionView>(any_there(h, seq![dir], names)),
    decreases names.len(),
{
    let dirs = seq![dir];
    if names.len() > 0 {
        let rest = names.skip(1);
        assert(answers(h, QuestionView::FileIn { dir: dirs[0], name: names[0] }));
        assert(all_answered(h, dirs, rest)) by {
            assert forall|i: int, k: int| 0 <= i < dirs.len() && 0 <= k < rest.len() implies
                #[trigger] answers(
                h,
                QuestionView::FileIn { dir: dirs[i], name: rest[k] },
            ) by {
                assert(rest[k] == names[k + 1]);
                assert(answers(h, QuestionView::FileIn { dir: dirs[i], name: names[k + 1] }));
            }
        }
        lemma_any_there(h, dir, rest);
        if any_there(h, dirs, rest) {
            let (i, k) = choose|i: int, k: int|
                0 <= i < dirs.len() && 0 <= k < rest.len() && dirs[i].len() > 0
                    && #[trigger] file_there(h, dirs[i], rest[k]);
            assert(file_there(h, dirs[i], names[k + 1]));
        }
        if any_there(h, dirs, names) {
            let (i, k) = choose|i: int, k: int|
                0 <= i < dirs.len() && 0 <= k < names.len() && dirs[i].len() > 0
                    && #[trigger] file_there(h, dirs[i], names[k]);
            if k > 0 {
                assert(file_there(h, dirs[i], rest[k - 1]));
            }
        }
        if file_there(h, dir, names[0]) {
            assert(file_there(h, dirs[0], names[0]));
        }
    }
}

/// A search through directories finds a file exactly where one of them holds it
/// by one of the names.
pub proof fn law_directories_are_searched(h: Host, dirs: Seq<Seq<char>>, names: Seq<Seq<char>>)
    requires
        all_answered(h, dirs, names),
    ensures
        any_file_in(h, dirs, names) == Ok::<bool, QuestionView>(any_there(h, dirs, names)),
    decreases dirs.len(),
{
    if dirs.len() > 0 {
        let rest = dirs.skip(1);
        let one = seq![dirs[0]];
        assert(all_answered(h, rest, names)) by {
            assert forall|i: int, k: int| 0 <= i < rest.len() && 0 <= k < names.len() implies
                #[trigger] answers(
                h,
                QuestionView::FileIn { dir: rest[i], name: names[k] },
            ) by {
                assert(rest[i] == dirs[i + 1]);
                assert(answers(h, QuestionView::FileIn { dir: dirs[i + 1], name: names[k] }));
            }
        }
        assert(all_answered(h, one, names)) by {
            assert forall|i: int, k: int| 0 <= i < one.len() && 0 <= k < names.len() implies
                #[trigger] answers(
                h,
                QuestionView::FileIn { dir: one[i], name: names[k] },
            ) by {
                assert(answers(h, QuestionView::FileIn { dir: dirs[0], name: names[k] }));
            }
        }
        law_directories_are_searched(h, rest, names);
        if dirs[0].len() > 0 {
            lemma_any_there(h, dirs[0], names);
        }
        if any_there(h, rest, names) {
            let (i, k) = choose|i: int, k: int|
                0 <= i < rest.len() && 0 <= k < names.len() && rest[i].len() > 0
                    && #[trigger] file_there(h, rest[i], names[k]);
            assert(file_there(h, dirs[i + 1], names[k]));
        }
        if any_there(h, one, names) {
            let (i, k) = choose|i: int, k: int|
                0 <= i < one.len() && 0 <= k < names.len() && one[i].len() > 0
                    && #[trigger] file_there(h, one[i], names[k]);
            assert(file_there(h, dirs[0], names[k]));
        }
        if any_there(h, dirs, names) {
            let (i, k) = choose|i: int, k: int|
                0 <= i < dirs.len() && 0 <= k < names.len() && dirs[i].len() > 0
                    && #[trigger] file_there(h, dirs[i], names[k]);
            if i > 0 {
                assert(file_there(h, rest[i - 1], names[k]));
            } else {
                assert(file_there(h, one[0], names[k]));
            }
        }
    }
}

/// On Linux a program is on `PATH` exactly where one of the directories between
/// the colons holds a file of its name.
pub proof fn law_programs_are_found(h: Host, os: OsFamily, dirs: Seq<Seq<char>>, program: Seq<char>)
    requires
        os != OsFamily::Windows,
        tells(h, QuestionView::Platform, ReplyView::Platform(os)),
        dirs.len() > 0,
        forall|i: int| 0 <= i < dirs.len() ==> !(#[trigger] dirs[i]).contains(':'),
        tells(
            h,
            QuestionView::EnvVar("PATH"@),
            ReplyView::OptionalText(Some(strung(dirs, seq![':']))),
        ),
        all_answered(h, dirs, seq![program]),
    ensures
        on_path(h, program) == Ok::<bool, QuestionView>(
            exists|i: int|
                0 <= i < dirs.len() && dirs[i].len() > 0 && #[trigger] file_there(
                    h,
                    dirs[i],
                    program,
                ),
        ),
{
    let names = seq![program];
    law_pieces_are_read_back(dirs, ':');
    law_directories_are_searched(h, dirs, names);
    if any_there(h, dirs, names) {
        let (i, k) = choose|i: int, k: int|
            0 <= i < dirs.len() && 0 <= k < names.len() && dirs[i].len() > 0
                && #[trigger] file_there(h, dirs[i], names[k]);
        assert(file_there(h, dirs[i], program));
    }
    if exists|i: int|
        0 <= i < dirs.len() && dirs[i].len() > 0 && #[trigger] file_there(h, dirs[i], program) {
        let i = choose|i: int|
            0 <= i < dirs.len() && dirs[i].len() > 0 && #[trigger] file_there(h, dirs[i], program);
        assert(file_there(h, dirs[i], names[0]));
    }
}

/// On Windows the entries of `PATH` stand between semicolons, and a program may
/// also have one of three extensions.
pub proof fn law_windows_programs_are_found(h: Host, dirs: Seq<Seq<char>>, program: Seq<char>)
    requires
        tells(h, QuestionView::Platform, ReplyView::Platform(OsFamily::Windows)),
        dirs.len() > 0,
        forall|i: int| 0 <= i < dirs.len() ==> !(#[trigger] dirs[i]).contains(';'),
        tells(
            h,
            QuestionView::EnvVar("PATH"@),
            ReplyView::OptionalText(Some(strung(dirs, seq![';']))),
        ),
        all_answered(
            h,
            dirs,
            seq![program + ".exe"@, program + ".bat"@, program + ".cmd"@, program],
        ),
    ensures
        on_path(h, program) == Ok::<bool, QuestionView>(
            any_there(
                h,
                dirs,
                seq![program + ".exe"@, program + ".bat"@, program + ".cmd"@, program],
            ),
        ),
{
    law_pieces_are_read_back(dirs, ';');
    law_directories_are_searched(
        h,
        dirs,
        seq![program + ".exe"@, program + ".bat"@, program + ".cmd"@, program],
    );
}

/// Without a `PATH` no program is found.
pub proof fn law_no_path_no_program(h: Host, program: Seq<char>)
    requires
        tells(h, QuestionView::EnvVar("PATH"@), ReplyView::OptionalText(None)),
    ensures
        on_path(h, program) == Ok::<bool, QuestionView>(false),
{
}

} // verus!
