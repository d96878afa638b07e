//! Finding the package of the app in the foreground from the window manager's
//! report of the focused window.

use vstd::prelude::*;
use vstd::string::*;
use crate::text::{find, rfind_char, chars_of, find_seq, rfind_in, slice_chars};
use crate::command::CommandResult;

verus! {

/// The package named in a focus report: after the first `mCurrentFocus`,
/// the text before the next `/`, from just after its last space. A report
/// without these marks names no package.
pub open spec fn focused_package(report: Seq<char>) -> Option<Seq<char>> {
    match find(report, "mCurrentFocus"@) {
        None => None,
        Some(start) => {
            let tail = report.subrange(start, report.len() as int);
            match find(tail, seq!['/']) {
                None => None,
                Some(p) => {
                    let before = tail.subrange(0, p);
                    match rfind_char(before, ' ') {
                        None => None,
                        Some(q) => Some(before.subrange(q + 1, p)),
                    }
                },
            }
        },
    }
}

/// The package named in a focus report, if it names one.
pub fn parse_focused_package(report: &str) -> (r: Option<String>)
    ensures
        match r {
            Some(p) => focused_package(report@) == Some(p@),
            None => focused_package(report@) is None,
        },
{
    let cs = chars_of(report);
    let marker = chars_of("mCurrentFocus");
    let n = cs.len();
    match find_seq(&cs, &marker) {
        None => None,
        Some(start) => {
            let tail = slice_chars(&cs, start, n);
            let mut slash: Vec<char> = Vec::new();
            slash.push('/');
            assert(slash@ =~= seq!['/']);
            match find_seq(&tail, &slash) {
                None => None,
                Some(p) => {
                    let before = slice_chars(&tail, 0, p);
                    match rfind_in(&before, ' ') {
                        None => None,
                        Some(q) => {
                            let pkg = String::from_str(report.substring_char(start + q + 1, start + p));
                            assert(pkg@ =~= before@.subrange(q + 1, p as int));
                            Some(pkg)
                        },
                    }
                },
            }
        },
    }
}

/// The outcome of asking which app is in the foreground: a failed query is
/// passed on unchanged; otherwise the package its report names, or a failure
/// with the message "无法解析前台应用包名" when it names none.
pub fn foreground_app(query: CommandResult) -> (r: CommandResult)
    ensures
        !query.success ==> r == query,
        query.success ==> match focused_package(query.output@) {
            Some(p) => r.success && r.output@ == p,
            None => !r.success && r.output@ == "无法解析前台应用包名"@,
        },
{
    if !query.success {
        return query;
    }
    match parse_focused_package(query.output.as_str()) {
        Some(p) => CommandResult { success: true, output: p },
        None => CommandResult::failed("无法解析前台应用包名"),
    }
}

} // verus!
