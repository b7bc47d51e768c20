//! The merge list: newline-delimited text naming the files to convert. The
//! piece after the final newline is an artifact of the split and is always
//! discarded, so a list of N entries carries N newlines. Each entry's first
//! field, up to the ` | ` separator, is a path with a one-character leading
//! selection flag: the field minus its flag is the source-relative path,
//! while the field with its flag is the destination-relative path.

use vstd::prelude::*;
use vstd::string::StrSliceExecFns;
use vstd::string::StringExecFns;
use crate::text::{
    split_char, split_on, find_sep, find_entry_sep, lemma_find_sep_range, lemma_split_len,
};

verus! {

/// One parsed merge-list entry: where the file comes from and where it goes,
/// both relative to their directories.
#[derive(Debug, Clone)]
pub struct MergeListEntry {
    pub source_rel: String,
    pub dest_rel: String,
}

/// The entry's first field: everything before the first ` | ` separator, or
/// the whole line when there is none.
pub open spec fn spec_field0(line: Seq<char>) -> Seq<char> {
    line.take(find_sep(line))
}

/// The first field minus its leading selection flag.
pub open spec fn spec_source_rel(line: Seq<char>) -> Seq<char> {
    if spec_field0(line).len() == 0 {
        Seq::<char>::empty()
    } else {
        spec_field0(line).drop_first()
    }
}

/// Parses one merge-list line. The destination keeps the leading flag
/// character that the source drops.
pub fn parse_entry(line: &str) -> (e: MergeListEntry)
    ensures
        e.dest_rel@ == spec_field0(line@),
        e.source_rel@ == spec_source_rel(line@),
{
    proof {
        lemma_find_sep_range(line@);
    }
    let pos = find_entry_sep(line);
    let field0 = line.substring_char(0, pos);
    proof {
        assert(line@.subrange(0, pos as int) =~= spec_field0(line@));
    }
    let dest_rel = String::from_str(field0);
    let source_rel = if pos == 0 {
        String::new()
    } else {
        let tail = line.substring_char(1, pos);
        proof {
            assert(line@.subrange(1, pos as int) =~= spec_source_rel(line@));
        }
        String::from_str(tail)
    };
    MergeListEntry { source_rel, dest_rel }
}

/// The effective entries of a merge list: its newline-separated lines with
/// the piece after the final newline discarded.
pub open spec fn spec_entries(text: Seq<char>) -> Seq<Seq<char>> {
    split_char(text, '\n').drop_last()
}

/// Splits the merge list into its effective entry lines.
pub fn effective_entries(text: &str) -> (r: Vec<String>)
    ensures
        r.deep_view() == spec_entries(text@),
{
    let mut lines = split_on(text, '\n');
    proof {
        lemma_split_len(text@, '\n');
    }
    let ghost whole = lines.deep_view();
    lines.pop();
    proof {
        assert(lines.deep_view() =~~= whole.drop_last());
    }
    lines
}

/// A path under a directory: the directory, a slash, the relative path.
pub open spec fn spec_join_path(dir: Seq<char>, rel: Seq<char>) -> Seq<char> {
    dir + seq!['/'] + rel
}

/// Joins a directory and a relative path.
pub fn join_path(dir: &str, rel: &str) -> (r: String)
    ensures
        r@ == spec_join_path(dir@, rel@),
{
    let mut s = String::from_str(dir);
    s.append("/");
    s.append(rel);
    proof {
        reveal_strlit("/");
        assert(s@ =~= spec_join_path(dir@, rel@));
    }
    s
}

} // verus!
