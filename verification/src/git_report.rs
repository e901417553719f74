//! Interpreting the output of version-control queries.
//!
//! The host shells out to the version-control binary and hands the raw
//! standard output here; these functions turn it into the values the UI
//! shows: the current branch name, the branch list, a per-file status
//! table, and the combined output of a pull.

use crate::text::{lines_spec, split_lines, str_eq, strip_prefix_rep_spec, strip_prefix_repeated,
    trim_spec, trim_str};
use vstd::prelude::*;
use vstd::string::StrSliceExecFns;
use vstd::string::StringExecFns;

verus! {

/// The current-branch query prints one branch name, possibly padded
/// with whitespace and a newline: the name is the trimmed output.
pub fn current_branch_of(output: &str) -> (r: String)
    ensures
        r@ == trim_spec(output@),
{
    trim_str(output)
}

/// The combined transcript of a command: standard output, then
/// standard error.
pub fn combined_output(out: &str, err: &str) -> (r: String)
    ensures
        r@ == out@ + err@,
{
    String::from_str(out).concat(err)
}

/// The message shown after switching to `branch`.
pub fn switch_message(branch: &str) -> (r: String)
    ensures
        r@ == "Switched to branch '"@ + branch@ + "'"@,
{
    String::from_str("Switched to branch '").concat(branch).concat("'")
}

/// One line of the branch-list output, cleaned: the current-branch
/// marker `* ` is stripped, then surrounding whitespace.
pub open spec fn clean_branch_line(l: Seq<char>) -> Seq<char> {
    trim_spec(strip_prefix_rep_spec(l, "* "@))
}

/// The branch names among `lines`: each cleaned line that is not empty.
pub open spec fn branches_of(lines: Seq<Seq<char>>) -> Seq<Seq<char>>
    decreases lines.len(),
{
    if lines.len() == 0 {
        Seq::empty()
    } else {
        (if clean_branch_line(lines[0]).len() > 0 {
            seq![clean_branch_line(lines[0])]
        } else {
            Seq::<Seq<char>>::empty()
        }) + branches_of(lines.drop_first())
    }
}

/// Parse the output of the branch-list query into branch names.
pub fn parse_branch_list(output: &str) -> (r: Vec<String>)
    ensures
        r.deep_view() == branches_of(lines_spec(output@)),
{
    let lines = split_lines(output);
    let ghost ld = lines.deep_view();
    let mut r: Vec<String> = Vec::new();
    let mut idx: usize = 0;
    proof {
        assert(ld.subrange(0, ld.len() as int) =~= ld);
        assert(r.deep_view() =~= Seq::<Seq<char>>::empty());
        assert(Seq::<Seq<char>>::empty() + branches_of(ld) =~= branches_of(ld));
    }
    while idx < lines.len()
        invariant
            idx <= lines.len(),
            lines.deep_view() == ld,
            r.deep_view() + branches_of(ld.subrange(idx as int, ld.len() as int)) == branches_of(
                ld,
            ),
        decreases lines.len() - idx,
    {
        let ghost sub = ld.subrange(idx as int, ld.len() as int);
        proof {
            assert(sub[0] == ld[idx as int]);
            assert(sub.drop_first() =~= ld.subrange(idx + 1, ld.len() as int));
        }
        let stripped = strip_prefix_repeated(lines[idx].as_str(), "* ");
        let cleaned = trim_str(stripped.as_str());
        if !cleaned.as_str().is_empty() {
            r.push(cleaned);
            proof {
                assert(r.deep_view() =~= r.deep_view().drop_last().push(
                    clean_branch_line(ld[idx as int]),
                ));
                assert(r.deep_view().drop_last() + (seq![clean_branch_line(ld[idx as int])]
                    + branches_of(ld.subrange(idx + 1, ld.len() as int))) =~= r.deep_view()
                    + branches_of(ld.subrange(idx + 1, ld.len() as int)));
            }
        }
        idx = idx + 1;
    }
    proof {
        assert(ld.subrange(idx as int, ld.len() as int).len() == 0);
        assert(r.deep_view() + Seq::<Seq<char>>::empty() =~= r.deep_view());
    }
    r
}

/// The status word for a two-character index/work-tree code, compared
/// after trimming, as the status table shows it.
pub open spec fn status_of_code(c: Seq<char>) -> Seq<char> {
    if c == "M"@ || c == " M"@ || c == "MM"@ {
        "modified"@
    } else if c == "A"@ || c == "AM"@ {
        "added"@
    } else if c == "D"@ || c == " D"@ {
        "deleted"@
    } else if c == "R"@ {
        "renamed"@
    } else if c == "C"@ {
        "copied"@
    } else if c == "??"@ {
        "untracked"@
    } else {
        "unknown"@
    }
}

/// Map a trimmed status code to its status word.
pub fn classify_status_code(code: &str) -> (r: String)
    ensures
        r@ == status_of_code(code@),
{
    if str_eq(code, "M") || str_eq(code, " M") || str_eq(code, "MM") {
        String::from_str("modified")
    } else if str_eq(code, "A") || str_eq(code, "AM") {
        String::from_str("added")
    } else if str_eq(code, "D") || str_eq(code, " D") {
        String::from_str("deleted")
    } else if str_eq(code, "R") {
        String::from_str("renamed")
    } else if str_eq(code, "C") {
        String::from_str("copied")
    } else if str_eq(code, "??") {
        String::from_str("untracked")
    } else {
        String::from_str("unknown")
    }
}

/// `dir` and `rel` joined with exactly one separating slash.
pub open spec fn join_spec(dir: Seq<char>, rel: Seq<char>) -> Seq<char> {
    if dir.len() > 0 && dir[dir.len() - 1] == '/' {
        dir + rel
    } else {
        dir + "/"@ + rel
    }
}

/// Join a working directory and a relative path.
pub fn join_paths(dir: &str, rel: &str) -> (r: String)
    ensures
        r@ == join_spec(dir@, rel@),
{
    let n = dir.unicode_len();
    if n > 0 && dir.get_char(n - 1) == '/' {
        String::from_str(dir).concat(rel)
    } else {
        String::from_str(dir).concat("/").concat(rel)
    }
}

/// The status-table entry a short-format line yields: the absolute
/// path, and the status word of the line's two leading code
/// characters.  The path starts at the fourth character and is
/// trimmed.
pub open spec fn status_entry(l: Seq<char>, wd: Seq<char>) -> (Seq<char>, Seq<char>) {
    (
        join_spec(wd, trim_spec(l.subrange(3, l.len() as int))),
        status_of_code(trim_spec(l.subrange(0, 2))),
    )
}

/// The status-table entries of `lines`: one per line of at least four
/// characters; shorter lines are skipped.
pub open spec fn status_entries_of(lines: Seq<Seq<char>>, wd: Seq<char>) -> Seq<
    (Seq<char>, Seq<char>),
>
    decreases lines.len(),
{
    if lines.len() == 0 {
        Seq::empty()
    } else {
        (if lines[0].len() >= 4 {
            seq![status_entry(lines[0], wd)]
        } else {
            Seq::<(Seq<char>, Seq<char>)>::empty()
        }) + status_entries_of(lines.drop_first(), wd)
    }
}

/// Parse the short-format status output into (absolute path, status
/// word) pairs, in the order the lines arrive.  The host may lay the
/// pairs into a map keyed by path; a later line for the same path then
/// wins, as repeated insertion does.
pub fn parse_status_report(output: &str, working_dir: &str) -> (r: Vec<(String, String)>)
    ensures
        r.deep_view() == status_entries_of(lines_spec(output@), working_dir@),
{
    let lines = split_lines(output);
    let ghost ld = lines.deep_view();
    let ghost wd = working_dir@;
    let mut r: Vec<(String, String)> = Vec::new();
    let mut idx: usize = 0;
    proof {
        assert(ld.subrange(0, ld.len() as int) =~= ld);
        assert(r.deep_view() =~= Seq::<(Seq<char>, Seq<char>)>::empty());
        assert(Seq::<(Seq<char>, Seq<char>)>::empty() + status_entries_of(ld, wd)
            =~= status_entries_of(ld, wd));
    }
    while idx < lines.len()
        invariant
            idx <= lines.len(),
            lines.deep_view() == ld,
            wd == working_dir@,
            r.deep_view() + status_entries_of(ld.subrange(idx as int, ld.len() as int), wd)
                == status_entries_of(ld, wd),
        decreases lines.len() - idx,
    {
        let ghost sub = ld.subrange(idx as int, ld.len() as int);
        proof {
            assert(sub[0] == ld[idx as int]);
            assert(sub.drop_first() =~= ld.subrange(idx + 1, ld.len() as int));
        }
        let line = lines[idx].as_str();
        let len = line.unicode_len();
        if len >= 4 {
            let code = trim_str(line.substring_char(0, 2));
            let status = classify_status_code(code.as_str());
            let rel = trim_str(line.substring_char(3, len));
            let absolute = join_paths(working_dir, rel.as_str());
            r.push((absolute, status));
            proof {
                assert(r.deep_view() =~= r.deep_view().drop_last().push(
                    status_entry(ld[idx as int], wd),
                ));
                assert(r.deep_view().drop_last() + (seq![status_entry(ld[idx as int], wd)]
                    + status_entries_of(ld.subrange(idx + 1, ld.len() as int), wd))
                    =~= r.deep_view() + status_entries_of(
                    ld.subrange(idx + 1, ld.len() as int),
                    wd,
                ));
            }
        }
        idx = idx + 1;
    }
    proof {
        assert(ld.subrange(idx as int, ld.len() as int).len() == 0);
        assert(r.deep_view() + Seq::<(Seq<char>, Seq<char>)>::empty() =~= r.deep_view());
    }
    r
}

} // verus!
