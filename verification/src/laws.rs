//! Properties that hold of the library as a whole, across its functions and
//! over every input.

use vstd::prelude::*;
use crate::text::{is_ws, trim, trim_start, trim_end, words};
use crate::command::joined_output;
use crate::text::{find, find_from, rfind_char, lines, split_newlines, strip_cr};
use crate::devices::{
    device_of_line, devices_of_lines, listed_devices, faithful, pass_named, scan_from, scan_next,
    awaits_model, queried_model, DeviceView, DeviceScanView, ScanMove,
};
use crate::args::model_query_argv;
use crate::foreground::focused_package;
use crate::uninstall::{uninstall_next, UninstallStage, UninstallView};
use crate::deletion::{deletion_next, printed, DeletionStageView, DeletionView};
use crate::backup::{backup_pull_next, BackupPullView, PullStageView};
use crate::restore::{restore_next, restore_done_message, RestoreStage, RestoreView};
use crate::args::{overscan_setting, uninstall_argv, BarCommand};
use crate::step::Move;
use crate::args::{decimal, digit_char};
use crate::scripts::filled;
use crate::deletion::removal_argv;
use crate::devices::model_field;
use crate::tools::mirror_report;
use crate::unpack::{
    tool_files, unpack_next_spec, unpack_run, unpack_start_spec, unpacking_valid, UnpackMove,
    Unpacking,
};

verus! {

/// Once leading whitespace is gone, what is left is empty or begins with a
/// character that is not whitespace.
proof fn lemma_trim_start_front(s: Seq<char>)
    ensures
        trim_start(s).len() > 0 ==> !is_ws(trim_start(s)[0]),
    decreases s.len(),
{
    if s.len() > 0 && is_ws(s[0]) {
        lemma_trim_start_front(s.drop_first());
    }
}

/// Removing trailing whitespace keeps a prefix of the text, and what is left
/// is empty or ends with a character that is not whitespace.
proof fn lemma_trim_end_prefix(s: Seq<char>)
    ensures
        trim_end(s).len() <= s.len(),
        trim_end(s) == s.take(trim_end(s).len() as int),
        trim_end(s).len() > 0 ==> !is_ws(trim_end(s).last()),
    decreases s.len(),
{
    if s.len() > 0 && is_ws(s.last()) {
        lemma_trim_end_prefix(s.drop_last());
        assert(s.drop_last().take(trim_end(s).len() as int) =~= s.take(trim_end(s).len() as int));
    } else {
        assert(s.take(s.len() as int) =~= s);
    }
}

/// Trimmed text neither begins nor ends with whitespace.
pub proof fn law_trimmed_has_no_outer_whitespace(s: Seq<char>)
    ensures
        trim(s).len() > 0 ==> !is_ws(trim(s)[0]) && !is_ws(trim(s).last()),
{
    lemma_trim_start_front(s);
    lemma_trim_end_prefix(trim_start(s));
    if trim(s).len() > 0 {
        assert(trim(s)[0] == trim_start(s)[0]);
    }
}

/// What a finished command reports as its output never begins or ends with
/// whitespace.
pub proof fn law_command_output_is_trimmed(stdout: Seq<char>, stderr: Seq<char>)
    ensures
        ({
            let o = joined_output(stdout, stderr);
            o.len() > 0 ==> !is_ws(o[0]) && !is_ws(o.last())
        }),
{
    law_trimmed_has_no_outer_whitespace(
        if stderr.len() == 0 {
            stdout
        } else {
            stdout + seq!['\n'] + stderr
        },
    );
}

/// Every word of a text is non-empty and holds no whitespace.
pub proof fn law_words_are_nonempty_and_unbroken(s: Seq<char>)
    ensures
        forall|k: int|
            0 <= k < words(s).len() ==> #[trigger] words(s)[k].len() > 0 && forall|j: int|
                0 <= j < words(s)[k].len() ==> !is_ws(#[trigger] words(s)[k][j]),
    decreases s.len(),
{
    if s.len() > 0 {
        law_words_are_nonempty_and_unbroken(s.drop_last());
        let w = words(s.drop_last());
        let c = s.last();
        if is_ws(c) {
        } else if s.len() >= 2 && !is_ws(s[s.len() - 2]) {
            lemma_words_end(s.drop_last());
            assert forall|k: int| 0 <= k < words(s).len() implies #[trigger] words(s)[k].len() > 0
                && forall|j: int|
                0 <= j < words(s)[k].len() ==> !is_ws(#[trigger] words(s)[k][j]) by {
                if k == w.len() - 1 {
                    assert(words(s)[k] == w.last().push(c));
                    assert forall|j: int| 0 <= j < words(s)[k].len() implies !is_ws(
                        #[trigger] words(s)[k][j],
                    ) by {
                        if j < w.last().len() {
                            assert(words(s)[k][j] == w[k][j]);
                        }
                    }
                } else {
                    assert(words(s)[k] == w[k]);
                }
            }
        } else {
            assert forall|k: int| 0 <= k < words(s).len() implies #[trigger] words(s)[k].len() > 0
                && forall|j: int|
                0 <= j < words(s)[k].len() ==> !is_ws(#[trigger] words(s)[k][j]) by {
                if k < w.len() {
                    assert(words(s)[k] == w[k]);
                } else {
                    assert(words(s)[k] == seq![c]);
                }
            }
        }
    }
}

/// A text that ends with a character that is not whitespace has at least one
/// word.
proof fn lemma_words_end(s: Seq<char>)
    requires
        s.len() > 0,
        !is_ws(s.last()),
    ensures
        words(s).len() > 0,
    decreases s.len(),
{
    if s.len() >= 2 && !is_ws(s[s.len() - 2]) {
        assert(s.drop_last().last() == s[s.len() - 2]);
        lemma_words_end(s.drop_last());
    }
}

/// A word with no whitespace in it, and not empty.
pub open spec fn unbroken_word(w: Seq<char>) -> bool {
    w.len() > 0 && forall|j: int| 0 <= j < w.len() ==> !is_ws(#[trigger] w[j])
}

/// Every device read from a listing has a serial and a state that are
/// non-empty and hold no whitespace.
pub proof fn law_listed_devices_have_unbroken_names(listing: Seq<char>)
    ensures
        forall|i: int|
            0 <= i < listed_devices(listing).len() ==> unbroken_word(
                #[trigger] listed_devices(listing)[i].0,
            ) && unbroken_word(listed_devices(listing)[i].1),
{
    let ls = lines(listing);
    lemma_devices_of_lines_unbroken(
        if ls.len() > 0 {
            ls.drop_first()
        } else {
            ls
        },
    );
}

proof fn lemma_devices_of_lines_unbroken(ls: Seq<Seq<char>>)
    ensures
        forall|i: int|
            0 <= i < devices_of_lines(ls).len() ==> unbroken_word(
                #[trigger] devices_of_lines(ls)[i].0,
            ) && unbroken_word(devices_of_lines(ls)[i].1),
    decreases ls.len(),
{
    if ls.len() > 0 {
        lemma_devices_of_lines_unbroken(ls.drop_last());
        let d = devices_of_lines(ls.drop_last());
        match device_of_line(ls.last()) {
            Some(x) => {
                let parts = words(trim(ls.last()));
                law_words_are_nonempty_and_unbroken(trim(ls.last()));
                assert(parts[0].len() > 0 && parts[1].len() > 0);
                assert(unbroken_word(x.0) && unbroken_word(x.1));
                assert forall|i: int| 0 <= i < devices_of_lines(ls).len() implies unbroken_word(
                    #[trigger] devices_of_lines(ls)[i].0,
                ) && unbroken_word(devices_of_lines(ls)[i].1) by {
                    if i < d.len() {
                        assert(devices_of_lines(ls)[i] == d[i]);
                    }
                }
            },
            None => {},
        }
    }
}

/// Where `find_from` reports a match, the pattern is there, and it is at no
/// earlier position from `i` on.
proof fn lemma_find_from_first(s: Seq<char>, pat: Seq<char>, i: nat)
    ensures
        find_from(s, pat, i) matches Some(k) ==> i <= k && k + pat.len() <= s.len()
            && s.subrange(k, k + pat.len()) == pat && forall|j: int|
            i <= j < k ==> #[trigger] s.subrange(j, j + pat.len()) != pat,
    decreases s.len() - i,
{
    if i + pat.len() > s.len() {
    } else if pat.len() == 0 || s.subrange(i as int, (i + pat.len()) as int) == pat {
        if pat.len() == 0 {
            assert(s.subrange(i as int, i as int) =~= pat);
        }
    } else {
        lemma_find_from_first(s, pat, i + 1);
    }
}

/// Where `rfind_char` reports `c`, it is there, and nowhere after.
proof fn lemma_rfind_char_last(s: Seq<char>, c: char)
    ensures
        rfind_char(s, c) matches Some(q) ==> 0 <= q < s.len() && s[q] == c && forall|j: int|
            q < j < s.len() ==> s[j] != c,
    decreases s.len(),
{
    if s.len() > 0 && s.last() != c {
        lemma_rfind_char_last(s.drop_last(), c);
        if let Some(q) = rfind_char(s, c) {
            assert forall|j: int| q < j < s.len() implies s[j] != c by {
                if j < s.len() - 1 {
                    assert(s.drop_last()[j] == s[j]);
                }
            }
            assert(s.drop_last()[q] == s[q]);
        }
    }
}

/// The package read from a focus report holds neither a space nor a `/`.
pub proof fn law_focused_package_is_one_name(report: Seq<char>)
    ensures
        focused_package(report) matches Some(p) ==> forall|j: int|
            0 <= j < p.len() ==> #[trigger] p[j] != ' ' && p[j] != '/',
{
    if let Some(start) = find(report, "mCurrentFocus"@) {
        lemma_find_from_first(report, "mCurrentFocus"@, 0);
        let tail = report.subrange(start, report.len() as int);
        if let Some(p) = find(tail, seq!['/']) {
            lemma_find_from_first(tail, seq!['/'], 0);
            let before = tail.subrange(0, p);
            lemma_rfind_char_last(before, ' ');
            if let Some(q) = rfind_char(before, ' ') {
                let pkg = before.subrange(q + 1, p);
                assert forall|j: int| 0 <= j < pkg.len() implies #[trigger] pkg[j] != ' '
                    && pkg[j] != '/' by {
                    assert(pkg[j] == before[q + 1 + j]);
                    assert(before[q + 1 + j] == tail[q + 1 + j]);
                    if tail[q + 1 + j] == '/' {
                        assert(tail.subrange(q + 1 + j, q + 1 + j + 1) =~= seq!['/']);
                    }
                }
            }
        }
    }
}

/// An uninstall falls back to removing the package for all users exactly
/// when removing it for the primary user failed, and its outcome is the
/// result of the last attempt.
pub proof fn law_uninstall_falls_back_only_on_failure(
    device_id: Seq<char>,
    package_name: Seq<char>,
    first: (bool, Seq<char>),
    second: (bool, Seq<char>),
)
    ensures
        ({
            let s0 = UninstallView { device_id, package_name, stage: UninstallStage::PrimaryUser };
            let s1 = UninstallView { device_id, package_name, stage: UninstallStage::AllUsers };
            &&& first.0 ==> uninstall_next(s0, first) == Move::<UninstallView>::Finish(first)
            &&& !first.0 ==> uninstall_next(s0, first) == Move::Run(
                s1,
                uninstall_argv(device_id, package_name, false),
            )
            &&& uninstall_next(s1, second) == Move::<UninstallView>::Finish(second)
        }),
{
}

/// A deletion whose first check reports the path absent ends there, with a
/// failure, and runs no removal.
pub proof fn law_absent_path_is_not_removed(
    device_id: Seq<char>,
    path: Seq<char>,
    check: (bool, Seq<char>),
)
    requires
        printed(check, "NOT_EXISTS"@),
    ensures
        deletion_next(
            DeletionView { device_id, path, stage: DeletionStageView::CheckExists },
            check,
        ) == Move::<DeletionView>::Finish((false, "文件或文件夹不存在"@)),
{
}

/// A deletion reports success only on the step after a confirming check that
/// printed `DELETED`.
pub proof fn law_deletion_succeeds_only_when_confirmed(s: DeletionView, r: (bool, Seq<char>))
    ensures
        deletion_next(s, r) matches Move::Finish(out) && out.0 ==> s.stage is Confirm && printed(
            r,
            "DELETED"@,
        ),
{
}

/// Whatever the commands report, a deletion finishes after at most four of
/// them.
pub proof fn law_deletion_finishes_within_four_commands(
    device_id: Seq<char>,
    path: Seq<char>,
    r1: (bool, Seq<char>),
    r2: (bool, Seq<char>),
    r3: (bool, Seq<char>),
    r4: (bool, Seq<char>),
)
    ensures
        ({
            let s0 = DeletionView { device_id, path, stage: DeletionStageView::CheckExists };
            match deletion_next(s0, r1) {
                Move::Finish(_) => true,
                Move::Run(s1, _) => match deletion_next(s1, r2) {
                    Move::Finish(_) => false,
                    Move::Run(s2, _) => match deletion_next(s2, r3) {
                        Move::Finish(_) => false,
                        Move::Run(s3, _) => deletion_next(s3, r4) is Finish,
                    },
                },
            }
        }),
{
}

/// Copying a backup off the device always deletes the archive on the device
/// next, whatever the copy reported, and then reports what the copy reported.
pub proof fn law_backup_pull_cleans_up_and_reports_copy(
    device_id: Seq<char>,
    copy: (bool, Seq<char>),
    cleanup: (bool, Seq<char>),
)
    ensures
        ({
            let s0 = BackupPullView { device_id, stage: PullStageView::Pull };
            match backup_pull_next(s0, copy) {
                Move::Run(s1, argv) => argv == crate::backup::archive_removal_argv(
                    device_id,
                    crate::backup::backup_archive(),
                ) && backup_pull_next(s1, cleanup) == Move::<BackupPullView>::Finish(copy),
                Move::Finish(_) => false,
            }
        }),
{
}

/// A restore whose copy of the archive fails ends with that result; one whose
/// copy succeeds runs five more commands and then reports success, whatever
/// those commands report.
pub proof fn law_restore_outcome(
    device_id: Seq<char>,
    package_name: Seq<char>,
    r1: (bool, Seq<char>),
    r2: (bool, Seq<char>),
    r3: (bool, Seq<char>),
    r4: (bool, Seq<char>),
    r5: (bool, Seq<char>),
    r6: (bool, Seq<char>),
)
    ensures
        ({
            let s0 = RestoreView { device_id, package_name, stage: RestoreStage::Push };
            match restore_next(s0, r1) {
                Move::Finish(out) => !r1.0 && out == r1,
                Move::Run(s1, _) => r1.0 && match restore_next(s1, r2) {
                    Move::Finish(_) => false,
                    Move::Run(s2, _) => match restore_next(s2, r3) {
                        Move::Finish(_) => false,
                        Move::Run(s3, _) => match restore_next(s3, r4) {
                            Move::Finish(_) => false,
                            Move::Run(s4, _) => match restore_next(s4, r5) {
                                Move::Finish(_) => false,
                                Move::Run(s5, _) => restore_next(s5, r6)
                                    == Move::<RestoreView>::Finish((true, restore_done_message())),
                            },
                        },
                    },
                },
            }
        }),
{
}

/// Every command that shows a bar sets the overscan back to none at all, so
/// any hiding is undone by any showing.
pub proof fn law_show_commands_reset_overscan()
    ensures
        overscan_setting(BarCommand::ShowStatusBar) == "0,0,0,0"@,
        overscan_setting(BarCommand::ShowNavigationBar) == "0,0,0,0"@,
        overscan_setting(BarCommand::ShowBothBars) == "0,0,0,0"@,
{
}

/// Passing over devices whose models are named keeps what was settled, stays
/// faithful to the listing, and stops at the end or at a device without a
/// named model.
proof fn lemma_pass_named(listed: Seq<DeviceView>, done: Seq<DeviceView>)
    requires
        faithful(listed, done),
    ensures
        ({
            let d = pass_named(listed, done);
            &&& faithful(listed, d)
            &&& done.len() <= d.len()
            &&& d.take(done.len() as int) == done
            &&& d.len() < listed.len() ==> listed[d.len() as int].2.len() == 0
        }),
    decreases listed.len() - done.len(),
{
    if done.len() < listed.len() && listed[done.len() as int].2.len() > 0 {
        let next = done.push(listed[done.len() as int]);
        assert forall|k: int| 0 <= k < next.len() implies #[trigger] next[k].0 == listed[k].0
            && next[k].1 == listed[k].1 && (listed[k].2.len() > 0 ==> next[k].2 == listed[k].2) by {
            if k < done.len() {
                assert(next[k] == done[k]);
            }
        }
        lemma_pass_named(listed, next);
        let d = pass_named(listed, next);
        assert(d.take(done.len() as int) =~= next.take(next.len() as int).take(done.len() as int));
        assert(next.take(next.len() as int) =~= next);
        assert(next.take(done.len() as int) =~= done);
    } else {
        assert(done.take(done.len() as int) =~= done);
    }
}

/// Going on from devices settled faithfully to the listing either asks the
/// next device that the listing left without a model, and only such a one,
/// or ends with exactly one device for each listed device, in order, each
/// with the serial, the state and (where named) the model of its listing.
pub proof fn law_device_scan_goes_on_faithfully(listed: Seq<DeviceView>, done: Seq<DeviceView>)
    requires
        faithful(listed, done),
    ensures
        match scan_from(listed, done) {
            ScanMove::Query(s, argv) => {
                &&& s.listed == listed
                &&& awaits_model(s)
                &&& argv == model_query_argv(listed[s.done.len() as int].0)
                &&& done.len() <= s.done.len()
                &&& s.done.take(done.len() as int) == done
            },
            ScanMove::Done(ds) => {
                &&& ds.len() == listed.len()
                &&& faithful(listed, ds)
                &&& ds.take(done.len() as int) == done
            },
        },
{
    lemma_pass_named(listed, done);
}

/// The device a walk waits on is settled once, with the model its answer
/// gives, and the walk then goes on faithfully, past it.
pub proof fn law_device_scan_settles_the_asked_device(
    s: DeviceScanView,
    answer: (bool, Seq<char>),
)
    requires
        awaits_model(s),
    ensures
        ({
            let i = s.done.len() as int;
            let settled = s.done.push((s.listed[i].0, s.listed[i].1, queried_model(answer.0, answer.1)));
            &&& faithful(s.listed, settled)
            &&& match scan_next(s, answer) {
                ScanMove::Query(t, argv) => {
                    &&& t.listed == s.listed
                    &&& awaits_model(t)
                    &&& argv == model_query_argv(s.listed[t.done.len() as int].0)
                    &&& i < t.done.len()
                    &&& t.done.take(i + 1) == settled
                },
                ScanMove::Done(ds) => {
                    &&& ds.len() == s.listed.len()
                    &&& faithful(s.listed, ds)
                    &&& ds.take(i + 1) == settled
                },
            }
        }),
{
    let i = s.done.len() as int;
    let settled = s.done.push((s.listed[i].0, s.listed[i].1, queried_model(answer.0, answer.1)));
    assert forall|k: int| 0 <= k < settled.len() implies #[trigger] settled[k].0 == s.listed[k].0
        && settled[k].1 == s.listed[k].1 && (s.listed[k].2.len() > 0 ==> settled[k].2
        == s.listed[k].2) by {
        if k < i {
            assert(settled[k] == s.done[k]);
        }
    }
    law_device_scan_goes_on_faithfully(s.listed, settled);
}

/// Starting a screen mirror reports success exactly when the program's
/// directory is known, `scrcpy` was found, and starting it worked.
pub proof fn law_mirror_succeeds_only_after_a_start(
    program_dir_known: bool,
    scrcpy_found: bool,
    spawned: Result<(), Seq<char>>,
)
    ensures
        mirror_report(program_dir_known, scrcpy_found, spawned).0 <==> (program_dir_known
            && scrcpy_found && spawned is Ok),
{
}

/// When `adb.exe` is already unpacked, nothing is created or written.
pub proof fn law_unpack_skipped_when_adb_present()
    ensures
        unpack_start_spec(true) == UnpackMove::Done(Ok(())),
{
}

/// A failed action ends the unpacking at once, with a failure: nothing after
/// it is attempted.
pub proof fn law_unpack_stops_at_first_failure(s: Unpacking, reason: Seq<char>)
    requires
        unpacking_valid(s),
    ensures
        unpack_next_spec(s, Err(reason)) matches UnpackMove::Done(r) && r is Err,
{
}

proof fn lemma_unpack_run_from_write(k: usize, outcomes: Seq<Result<(), Seq<char>>>)
    requires
        k < 11,
    ensures
        ({
            let (fs, f) = unpack_run(Unpacking::Write(k), outcomes);
            &&& k + 1 + fs.len() <= 11
            &&& fs == tool_files().subrange(k + 1, k + 1 + fs.len())
            &&& f == Some(Ok::<(), Seq<char>>(())) ==> k + 1 + fs.len() == 11
        }),
    decreases outcomes.len(),
{
    if outcomes.len() > 0 {
        match outcomes[0] {
            Ok(_) => {
                if k + 1 < 11 {
                    lemma_unpack_run_from_write((k + 1) as usize, outcomes.drop_first());
                    let rest = unpack_run(Unpacking::Write((k + 1) as usize), outcomes.drop_first());
                    assert(seq![tool_files()[k + 1]] + rest.0 =~= tool_files().subrange(
                        k + 1,
                        k + 1 + 1 + rest.0.len(),
                    ));
                } else {
                    assert(Seq::<Seq<char>>::empty() =~= tool_files().subrange(k + 1, k + 1));
                }
            },
            Err(_) => {
                assert(Seq::<Seq<char>>::empty() =~= tool_files().subrange(k + 1, k + 1));
            },
        }
    } else {
        assert(Seq::<Seq<char>>::empty() =~= tool_files().subrange(k + 1, k + 1));
    }
}

/// Unpacking writes the bundled files in their fixed order, skipping none:
/// the files it attempts are always a prefix of `tool_files()`, and when it
/// ends successfully it has written all eleven.
pub proof fn law_unpack_writes_all_files_in_order(outcomes: Seq<Result<(), Seq<char>>>)
    ensures
        ({
            let (fs, f) = unpack_run(Unpacking::CreateDir, outcomes);
            &&& fs.len() <= 11
            &&& fs == tool_files().take(fs.len() as int)
            &&& f == Some(Ok::<(), Seq<char>>(())) ==> fs == tool_files()
        }),
{
    if outcomes.len() > 0 && outcomes[0] is Ok {
        lemma_unpack_run_from_write(0, outcomes.drop_first());
        let rest = unpack_run(Unpacking::Write(0), outcomes.drop_first());
        assert(seq![tool_files()[0]] + rest.0 =~= tool_files().take((1 + rest.0.len()) as int));
        assert(tool_files().take(11) =~= tool_files());
    } else {
        assert(Seq::<Seq<char>>::empty() =~= tool_files().take(0));
    }
}

/// Every line that describes a device adds exactly that device at the end of
/// the list, however many came before; a line that describes none adds
/// nothing.
pub proof fn law_each_device_line_adds_its_device(ls: Seq<Seq<char>>, l: Seq<char>)
    ensures
        device_of_line(l) matches Some(x) ==> devices_of_lines(ls.push(l)) == devices_of_lines(
            ls,
        ).push(x),
        device_of_line(l) is None ==> devices_of_lines(ls.push(l)) == devices_of_lines(ls),
{
    assert(ls.push(l).drop_last() =~= ls);
}

/// The listing's devices are exactly the devices of the lines after the
/// heading: one per describing line, in order, with none dropped.
pub proof fn law_listed_devices_count_every_line(heading: Seq<char>, body: Seq<Seq<char>>, l: Seq<char>)
    ensures
        device_of_line(l) matches Some(x) ==> devices_of_lines((seq![heading] + body).push(l).drop_first())
            == devices_of_lines((seq![heading] + body).drop_first()).push(x),
{
    assert((seq![heading] + body).push(l).drop_first() =~= body.push(l));
    assert((seq![heading] + body).drop_first() =~= body);
    law_each_device_line_adds_its_device(body, l);
}

/// The numeric value of a string of decimal digits, each read as its
/// character code minus that of `'0'`.
pub open spec fn numeral_value(s: Seq<char>) -> int
    decreases s.len(),
{
    if s.len() == 0 {
        0
    } else {
        numeral_value(s.drop_last()) * 10 + (s.last() as int - '0' as int)
    }
}

/// Each decimal digit is the character whose code is that of `'0'` plus the
/// digit.
pub proof fn law_digit_char_is_code_offset(d: int)
    requires
        0 <= d < 10,
    ensures
        digit_char(d) as int == '0' as int + d,
{
    assert(seq!['0', '1', '2', '3', '4', '5', '6', '7', '8', '9'][d] as int == 48 + d) by {
        if d == 0 {} else if d == 1 {} else if d == 2 {} else if d == 3 {} else if d == 4 {}
        else if d == 5 {} else if d == 6 {} else if d == 7 {} else if d == 8 {} else {}
    }
}

/// The decimal numeral of `n` reads back as `n`, and is made of digits only,
/// with no leading zero.
pub proof fn law_decimal_reads_back(n: nat)
    ensures
        numeral_value(decimal(n)) == n,
        decimal(n).len() > 0,
        forall|i: int| 0 <= i < decimal(n).len() ==> '0' <= #[trigger] decimal(n)[i] <= '9',
        decimal(n).len() > 1 ==> decimal(n)[0] != '0',
        n >= 10 ==> decimal(n).len() > 1,
    decreases n,
{
    if n < 10 {
        law_digit_char_is_code_offset(n as int);
        assert(numeral_value(decimal(n).drop_last()) == 0) by {
            assert(decimal(n).drop_last() =~= Seq::<char>::empty());
        }
    } else {
        law_decimal_reads_back(n / 10);
        law_digit_char_is_code_offset((n % 10) as int);
        let hi = decimal(n / 10);
        assert(decimal(n).drop_last() =~= hi);
        assert(numeral_value(decimal(n)) == numeral_value(hi) * 10 + (n % 10));
        assert((n / 10) * 10 + n % 10 == n) by (nonlinear_arith);
        assert forall|i: int| 0 <= i < decimal(n).len() implies '0' <= #[trigger] decimal(n)[i]
            <= '9' by {
            if i < hi.len() {
                assert(decimal(n)[i] == hi[i]);
            }
        }
        assert(decimal(n)[0] == hi[0]);
        if n / 10 < 10 {
            law_digit_char_is_code_offset((n / 10) as int);
        }
    }
}

/// Filling a template puts the whole value, whatever its length, between
/// each two pieces: with two pieces the result is the first, the value and
/// the second.
pub proof fn law_filled_two_pieces(a: Seq<char>, b: Seq<char>, v: Seq<char>)
    ensures
        filled(seq![a, b], v) == a + v + b,
{
    assert(seq![a, b].drop_last() =~= seq![a]);
    assert(filled(seq![a], v) == a);
    assert(seq![a, b].last() == b);
}

/// Adding a piece to a template adds the whole value and that piece to the
/// end of the filled text.
pub proof fn law_filled_push(ps: Seq<Seq<char>>, b: Seq<char>, v: Seq<char>)
    requires
        ps.len() >= 1,
    ensures
        filled(ps.push(b), v) == filled(ps, v) + v + b,
{
    assert(ps.push(b).drop_last() =~= ps);
}

/// After a kind probe that printed `IS_DIR`, the removal is recursive, for
/// every device and path; otherwise it removes a file.
pub proof fn law_directory_removed_recursively(
    device_id: Seq<char>,
    path: Seq<char>,
    r: (bool, Seq<char>),
)
    ensures
        ({
            let s = DeletionView { device_id, path, stage: DeletionStageView::CheckKind };
            &&& printed(r, "IS_DIR"@) ==> deletion_next(s, r) == Move::Run(
                DeletionView { device_id, path, stage: DeletionStageView::Remove(true) },
                removal_argv(device_id, path, true),
            )
            &&& !printed(r, "IS_DIR"@) ==> deletion_next(s, r) == Move::Run(
                DeletionView { device_id, path, stage: DeletionStageView::Remove(false) },
                removal_argv(device_id, path, false),
            )
        }),
        removal_argv(device_id, path, true) == seq![
            "-s"@,
            device_id,
            "shell"@,
            "rm"@,
            "-rf"@,
            path,
        ],
        removal_argv(device_id, path, false) == seq![
            "-s"@,
            device_id,
            "shell"@,
            "rm"@,
            "-f"@,
            path,
        ],
{
}

/// The first `c` in `s` from `j` on is found where it is.
proof fn lemma_find_first_char(s: Seq<char>, c: char, j: nat, i: nat)
    requires
        j <= i < s.len(),
        s[i as int] == c,
        forall|k: int| j <= k < i ==> s[k] != c,
    ensures
        find_from(s, seq![c], j) == Some(i as int),
    decreases i - j,
{
    if j == i {
        assert(s.subrange(j as int, (j + 1) as int) =~= seq![c]);
    } else {
        assert(s.subrange(j as int, (j + 1) as int)[0] == s[j as int]);
        lemma_find_first_char(s, c, j + 1, i);
    }
}

/// The last `c` of `x + [c] + y`, where `y` holds no `c`, is the one between.
proof fn lemma_rfind_after(x: Seq<char>, c: char, y: Seq<char>)
    requires
        forall|k: int| 0 <= k < y.len() ==> y[k] != c,
    ensures
        rfind_char(x + seq![c] + y, c) == Some(x.len() as int),
    decreases y.len(),
{
    if y.len() > 0 {
        assert((x + seq![c] + y).drop_last() =~= x + seq![c] + y.drop_last());
        lemma_rfind_after(x, c, y.drop_last());
    }
}

/// A focus report of the usual form names its package in full, whatever its
/// length: for any window text `h` without `/`, any package `p` without spaces
/// or `/`, and any activity `a`, the package read is `p`.
pub proof fn law_focused_package_of_usual_report(h: Seq<char>, p: Seq<char>, a: Seq<char>)
    requires
        forall|k: int| 0 <= k < h.len() ==> h[k] != '/',
        forall|k: int| 0 <= k < p.len() ==> p[k] != ' ' && p[k] != '/',
    ensures
        focused_package(
            "mCurrentFocus=Window{"@ + h + " u0 "@ + p + seq!['/'] + a + "}"@,
        ) == Some(p),
{
    reveal_strlit("mCurrentFocus=Window{");
    reveal_strlit("mCurrentFocus");
    reveal_strlit(" u0 ");
    let pre = "mCurrentFocus=Window{"@;
    let m = "mCurrentFocus"@;
    let u = " u0 "@;
    assert(pre =~= seq![
        'm', 'C', 'u', 'r', 'r', 'e', 'n', 't', 'F', 'o', 'c', 'u', 's', '=', 'W', 'i', 'n', 'd',
        'o', 'w', '{',
    ]);
    assert(m =~= seq!['m', 'C', 'u', 'r', 'r', 'e', 'n', 't', 'F', 'o', 'c', 'u', 's']);
    assert(u =~= seq![' ', 'u', '0', ' ']);
    let r = pre + h + u + p + seq!['/'] + a + "}"@;
    assert(r.subrange(0, 13) =~= m);
    assert(find(r, m) == Some(0int));
    let tail = r.subrange(0, r.len() as int);
    assert(tail =~= r);
    let i = pre.len() + h.len() + u.len() + p.len();
    assert(r[i as int] == '/');
    assert forall|k: int| 0 <= k < i implies r[k] != '/' by {
        if k < pre.len() {
            assert(r[k] == pre[k]);
        } else if k < pre.len() + h.len() {
            assert(r[k] == h[k - pre.len()]);
        } else if k < pre.len() + h.len() + u.len() {
            assert(r[k] == u[k - pre.len() - h.len()]);
        } else {
            assert(r[k] == p[k - pre.len() - h.len() - u.len()]);
        }
    }
    lemma_find_first_char(r, '/', 0, i as nat);
    let before = tail.subrange(0, i as int);
    let x = pre + h + seq![' ', 'u', '0'];
    assert(before =~= x + seq![' '] + p);
    lemma_rfind_after(x, ' ', p);
    assert(before.subrange((x.len() + 1) as int, i as int) =~= p);
}

/// A space followed by a whole word adds that word to the words of a text.
proof fn lemma_words_space_word(x: Seq<char>, w: Seq<char>)
    requires
        unbroken_word(w),
    ensures
        words(x + seq![' '] + w) == words(x).push(w),
    decreases w.len(),
{
    let t = x + seq![' '] + w;
    if w.len() == 1 {
        assert(t.drop_last() =~= x + seq![' ']);
        assert((x + seq![' ']).drop_last() =~= x);
        assert(is_ws(' '));
        assert(words(x + seq![' ']) == words(x));
        assert(t[t.len() - 2] == ' ');
        assert(w =~= seq![w[0]]);
    } else {
        let w1 = w.drop_last();
        assert forall|j: int| 0 <= j < w1.len() implies !is_ws(#[trigger] w1[j]) by {
            assert(w1[j] == w[j]);
        }
        lemma_words_space_word(x, w1);
        assert(t.drop_last() =~= x + seq![' '] + w1);
        assert(t[t.len() - 2] == w[w.len() - 2]);
        assert(w1.push(w.last()) =~= w);
    }
}

/// A whole word alone is its only word.
proof fn lemma_words_single(w: Seq<char>)
    requires
        unbroken_word(w),
    ensures
        words(w) == seq![w],
    decreases w.len(),
{
    if w.len() == 1 {
        assert(w.drop_last() =~= Seq::<char>::empty());
        assert(words(Seq::<char>::empty()) == Seq::<Seq<char>>::empty());
        assert(w =~= seq![w[0]]);
        assert(words(w) == Seq::<Seq<char>>::empty().push(seq![w.last()]));
        assert(Seq::<Seq<char>>::empty().push(seq![w.last()]) =~= seq![w]);
    } else {
        let w1 = w.drop_last();
        assert forall|j: int| 0 <= j < w1.len() implies !is_ws(#[trigger] w1[j]) by {
            assert(w1[j] == w[j]);
        }
        lemma_words_single(w1);
        assert(w[w.len() - 2] == w1.last());
        assert(!is_ws(w[w.len() - 2]));
        assert(w1.push(w.last()) =~= w);
        assert(words(w) == seq![w1].update(0, w1.push(w.last())));
        assert(seq![w1].update(0, w1.push(w.last())) =~= seq![w]);
    }
}

/// Text that neither begins nor ends with whitespace is its own trim.
proof fn lemma_trim_of_bare(s: Seq<char>)
    requires
        s.len() > 0,
        !is_ws(s[0]),
        !is_ws(s.last()),
    ensures
        trim(s) == s,
{
}

/// A listing line made of a serial, a space and a state, each a whole word,
/// describes that device, with no model.
pub proof fn law_device_line_serial_state(serial: Seq<char>, state: Seq<char>)
    requires
        unbroken_word(serial),
        unbroken_word(state),
    ensures
        device_of_line(serial + seq![' '] + state) == Some((serial, state, Seq::<char>::empty())),
{
    let l = serial + seq![' '] + state;
    assert(l[0] == serial[0]);
    assert(l.last() == state.last());
    lemma_trim_of_bare(l);
    lemma_words_single(serial);
    lemma_words_space_word(serial, state);
    assert(seq![serial].push(state).skip(2) =~= Seq::<Seq<char>>::empty());
}

/// A listing line made of a serial, a state and a `model:` word names that
/// model, whatever it is.
pub proof fn law_device_line_with_model(serial: Seq<char>, state: Seq<char>, model: Seq<char>)
    requires
        unbroken_word(serial),
        unbroken_word(state),
        unbroken_word(model),
    ensures
        device_of_line(serial + seq![' '] + state + seq![' '] + "model:"@ + model) == Some(
            (serial, state, model),
        ),
{
    reveal_strlit("model:");
    let mw = "model:"@ + model;
    assert("model:"@ =~= seq!['m', 'o', 'd', 'e', 'l', ':']);
    assert forall|j: int| 0 <= j < mw.len() implies !is_ws(#[trigger] mw[j]) by {
        if j >= 6 {
            assert(mw[j] == model[j - 6]);
        }
    }
    let l = serial + seq![' '] + state + seq![' '] + mw;
    assert(l =~= serial + seq![' '] + state + seq![' '] + "model:"@ + model);
    assert(l[0] == serial[0]);
    assert(l.last() == model.last());
    lemma_trim_of_bare(l);
    lemma_words_single(serial);
    lemma_words_space_word(serial, state);
    lemma_words_space_word(serial + seq![' '] + state, mw);
    let parts = seq![serial, state, mw];
    assert(words(l) =~= parts);
    assert(parts.skip(2) =~= seq![mw]);
    assert(mw.take(6) =~= "model:"@);
    assert(mw.skip(6) =~= model);
}

/// Text after a last newline is the last piece of the split.
proof fn lemma_split_newlines_tail(s: Seq<char>, l: Seq<char>)
    requires
        forall|k: int| 0 <= k < l.len() ==> l[k] != '\n',
    ensures
        split_newlines(s + seq!['\n'] + l) == split_newlines(s).push(l),
    decreases l.len(),
{
    let t = s + seq!['\n'] + l;
    if l.len() == 0 {
        assert(t =~= s.push('\n'));
        assert(t.drop_last() =~= s);
        assert(t.last() == '\n');
        assert(l =~= Seq::<char>::empty());
        assert(split_newlines(t) == split_newlines(t.drop_last()).push(Seq::<char>::empty()));
    } else {
        let l1 = l.drop_last();
        assert forall|k: int| 0 <= k < l1.len() implies l1[k] != '\n' by {
            assert(l1[k] == l[k]);
        }
        lemma_split_newlines_tail(s, l1);
        assert(t.drop_last() =~= s + seq!['\n'] + l1);
        assert(t.last() == l.last());
        assert(l.last() != '\n');
        assert(l1.push(l.last()) =~= l);
        let w = split_newlines(s).push(l1);
        assert(w.last() == l1);
        assert(split_newlines(t) == w.update(w.len() - 1, w.last().push(t.last())));
        assert(w.update(w.len() - 1, l1.push(l.last())) =~= split_newlines(s).push(l));
    }
}

/// A non-empty last line, after a newline, is one more line of the text,
/// whatever came before: no line is lost, however many there are.
pub proof fn law_last_line_is_a_line(s: Seq<char>, l: Seq<char>)
    requires
        l.len() > 0,
        forall|k: int| 0 <= k < l.len() ==> l[k] != '\n',
    ensures
        lines(s + seq!['\n'] + l) == lines(s + seq!['\n']).push(l),
{
    lemma_split_newlines_tail(s, l);
    lemma_split_newlines_tail(s, Seq::<char>::empty());
    assert(s + seq!['\n'] + Seq::<char>::empty() =~= s + seq!['\n']);
    let g = split_newlines(s);
    assert(g.push(l).take(g.len() as int) =~= g);
    assert(g.push(Seq::<char>::empty()).take(g.len() as int) =~= g);
    assert(lines(s + seq!['\n']) =~= g.map_values(|t: Seq<char>| strip_cr(t)));
    assert(lines(s + seq!['\n'] + l) =~= g.map_values(|t: Seq<char>| strip_cr(t)).push(l));
}

/// All of `a` is whitespace.
pub open spec fn all_ws(a: Seq<char>) -> bool {
    forall|k: int| 0 <= k < a.len() ==> is_ws(#[trigger] a[k])
}

proof fn lemma_trim_start_skips(a: Seq<char>, c: Seq<char>)
    requires
        all_ws(a),
    ensures
        trim_start(a + c) == trim_start(c),
    decreases a.len(),
{
    if a.len() > 0 {
        assert((a + c)[0] == a[0]);
        assert((a + c).drop_first() =~= a.drop_first() + c);
        assert forall|k: int| 0 <= k < a.drop_first().len() implies is_ws(
            #[trigger] a.drop_first()[k],
        ) by {
            assert(a.drop_first()[k] == a[k + 1]);
        }
        lemma_trim_start_skips(a.drop_first(), c);
    } else {
        assert(a + c =~= c);
    }
}

proof fn lemma_trim_end_skips(c: Seq<char>, b: Seq<char>)
    requires
        all_ws(b),
    ensures
        trim_end(c + b) == trim_end(c),
    decreases b.len(),
{
    if b.len() > 0 {
        assert((c + b).last() == b.last());
        assert((c + b).drop_last() =~= c + b.drop_last());
        assert forall|k: int| 0 <= k < b.drop_last().len() implies is_ws(
            #[trigger] b.drop_last()[k],
        ) by {
            assert(b.drop_last()[k] == b[k]);
        }
        lemma_trim_end_skips(c, b.drop_last());
    } else {
        assert(c + b =~= c);
    }
}

/// Trimming removes exactly the surrounding whitespace: text that neither
/// begins nor ends with whitespace comes back whole from between any
/// whitespace around it.
pub proof fn law_trim_keeps_the_core(a: Seq<char>, c: Seq<char>, b: Seq<char>)
    requires
        all_ws(a),
        all_ws(b),
        c.len() > 0,
        !is_ws(c[0]),
        !is_ws(c.last()),
    ensures
        trim(a + c + b) == c,
{
    assert(a + c + b =~= a + (c + b));
    lemma_trim_start_skips(a, c + b);
    assert((c + b)[0] == c[0]);
    lemma_trim_end_skips(c, b);
}

} // verus!
