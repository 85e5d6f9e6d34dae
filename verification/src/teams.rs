//! Team names: how a team directory's name files become display names, which
//! names a new team may have, and which directory a team picker shows.

use vstd::prelude::*;
use crate::text::{has_path_separator, trim, trimmed};

verus! {

/// The contents of a name file, or `fallback` where it could not be read.
pub open spec fn file_or(contents: Option<String>, fallback: Seq<char>) -> Seq<char> {
    match contents {
        Some(c) => c@,
        None => fallback,
    }
}

/// The full and short display names of the team in directory `sel`, given
/// what its `nameFull.txt` and `nameTrunc.txt` hold (`None` for a file that
/// could not be read). A missing file falls back to the directory name;
/// both names are trimmed. An empty `sel` names no team.
pub fn load_team_names(sel: &str, full_file: Option<String>, trunc_file: Option<String>) -> (r: Option<(String, String)>)
    ensures
        sel@.len() == 0 ==> r is None,
        sel@.len() > 0 ==> (r matches Some((full, trunc)) && full@ == trimmed(file_or(full_file, sel@))
            && trunc@ == trimmed(file_or(trunc_file, sel@))),
{
    if sel.is_empty() {
        return None;
    }
    let full = match full_file {
        Some(c) => trim(c.as_str()),
        None => trim(sel),
    };
    let trunc = match trunc_file {
        Some(c) => trim(c.as_str()),
        None => trim(sel),
    };
    Some((full, trunc))
}

/// Why a team with full name `full` and short name `trunc` cannot be
/// created, or `None` when it can.
pub open spec fn team_name_problem(full: Seq<char>, trunc: Seq<char>) -> Option<Seq<char>> {
    if trimmed(full).len() == 0 {
        Some("Full name is required"@)
    } else if trimmed(trunc).len() == 0 {
        Some("Short name is required"@)
    } else if trimmed(full).contains('/') || trimmed(full).contains('\\') {
        Some("Full name cannot contain path separators"@)
    } else {
        None
    }
}

/// Check the names of a team to be created: both are trimmed, both must be
/// non-empty, and the full name, which becomes a directory name, must hold
/// no path separator. Gives the trimmed names, or the message that says
/// what is wrong.
pub fn validate_team_names(full_name: &str, trunc_name: &str) -> (r: Result<(String, String), String>)
    ensures
        r is Ok <==> team_name_problem(full_name@, trunc_name@) is None,
        r matches Err(e) ==> team_name_problem(full_name@, trunc_name@) == Some(e@),
        r matches Ok((full, trunc)) ==> full@ == trimmed(full_name@) && trunc@ == trimmed(trunc_name@),
{
    let full = trim(full_name);
    let trunc = trim(trunc_name);
    if full.as_str().is_empty() {
        return Err(String::from_str("Full name is required"));
    }
    if trunc.as_str().is_empty() {
        return Err(String::from_str("Short name is required"));
    }
    if has_path_separator(full.as_str()) {
        return Err(String::from_str("Full name cannot contain path separators"));
    }
    Ok((full, trunc))
}

/// The team a picker shows as chosen for directory `dir`: none when `dir` is
/// empty.
pub fn dir_selection(dir: &String) -> (r: Option<String>)
    ensures
        r is None <==> dir@.len() == 0,
        r matches Some(d) ==> d@ == dir@,
{
    if dir.as_str().is_empty() {
        None
    } else {
        Some(dir.clone())
    }
}

/// The team a picker over `teams` shows as chosen for directory `dir`: none
/// when `dir` is empty or is not one of `teams`.
pub fn listed_dir_selection(teams: &Vec<String>, dir: &String) -> (r: Option<String>)
    ensures
        r is Some <==> dir@.len() > 0 && exists|k: int| 0 <= k < teams@.len() && #[trigger] teams@[k]@ == dir@,
        r matches Some(d) ==> d@ == dir@,
{
    if dir.as_str().is_empty() {
        return None;
    }
    let n = teams.len();
    let mut i: usize = 0;
    while i < n
        invariant
            i <= n,
            n == teams@.len(),
            dir@.len() > 0,
            forall|k: int| 0 <= k < i ==> #[trigger] teams@[k]@ != dir@,
        decreases n - i,
    {
        if teams[i] == *dir {
            assert(teams@[i as int]@ == dir@);
            return Some(dir.clone());
        }
        i = i + 1;
    }
    None
}

} // verus!
