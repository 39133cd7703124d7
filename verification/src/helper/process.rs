//! Finding a process in the process table by the name of its executable.

use crate::system::ProcessEntry;
use crate::wrapper::process::RemoteProcess;
use vstd::prelude::*;
use vstd::string::*;

verus! {

/// Whether the executable name of `entry` starts with `needle`. The match is
/// case-sensitive and a prefix match, so one name may fit many processes.
pub open spec fn name_matches(entry: ProcessEntry, needle: Seq<char>) -> bool {
    needle.is_prefix_of(entry.exe_file@)
}

/// The position of the first row at or after `from` whose name matches.
pub open spec fn first_match_from(table: Seq<ProcessEntry>, needle: Seq<char>, from: int) -> Option<
    int,
>
    decreases table.len() - from,
{
    if from < 0 || from >= table.len() {
        None
    } else if name_matches(table[from], needle) {
        Some(from)
    } else {
        first_match_from(table, needle, from + 1)
    }
}

/// The position of the first row of the table whose name matches.
pub open spec fn first_match(table: Seq<ProcessEntry>, needle: Seq<char>) -> Option<int> {
    first_match_from(table, needle, 0)
}

/// `first_match_from` finds the least matching position, and finds none only
/// where no row matches.
pub proof fn lemma_first_match_from(table: Seq<ProcessEntry>, needle: Seq<char>, from: int)
    requires
        0 <= from,
    ensures
        match first_match_from(table, needle, from) {
            Some(i) => {
                &&& from <= i < table.len()
                &&& name_matches(table[i], needle)
                &&& forall|j: int| from <= j < i ==> !name_matches(#[trigger] table[j], needle)
            },
            None => forall|j: int|
                from <= j < table.len() ==> !name_matches(#[trigger] table[j], needle),
        },
    decreases table.len() - from,
{
    if from < table.len() && !name_matches(table[from], needle) {
        lemma_first_match_from(table, needle, from + 1);
    }
}

/// Whether `text` starts with `prefix`, character by character.
pub fn starts_with(text: &str, prefix: &str) -> (found: bool)
    ensures
        found == prefix@.is_prefix_of(text@),
{
    let wanted: usize = prefix.unicode_len();
    if wanted > text.unicode_len() {
        return false;
    }
    let mut at: usize = 0;
    while at < wanted
        invariant
            at <= wanted,
            wanted == prefix@.len(),
            wanted <= text@.len(),
            forall|k: int| 0 <= k < at ==> prefix@[k] == text@[k],
        decreases wanted - at,
    {
        if prefix.get_char(at) != text.get_char(at) {
            return false;
        }
        at += 1;
    }
    assert(prefix@ =~= text@.subrange(0, prefix@.len() as int));
    true
}

/// Looks for the first process whose executable name starts with `p_name`
/// and returns a controller for it, not yet attached.
pub fn get_process_by_name(p_name: &str, table: &Vec<ProcessEntry>) -> (found: Option<RemoteProcess>)
    ensures
        match first_match(table@, p_name@) {
            Some(i) => found == Some(RemoteProcess::spec_from(table@[i])),
            None => found is None,
        },
{
    let mut at: usize = 0;
    while at < table.len()
        invariant
            at <= table.len(),
            first_match(table@, p_name@) == first_match_from(table@, p_name@, at as int),
        decreases table.len() - at,
    {
        if starts_with(table[at].exe_file.as_str(), p_name) {
            return Some(RemoteProcess::from(&table[at]));
        }
        at += 1;
    }
    None
}

} // verus!
