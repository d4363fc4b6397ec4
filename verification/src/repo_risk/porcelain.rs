//! Parsing of `git status --porcelain=1 -b` output.
use vstd::prelude::*;
use vstd::string::*;
use crate::lines::{byte_offset_to_char, char_index_of_byte, lines_of, split_lines, utf8_len};
use crate::text::{text_views, contains_seq, find, has_prefix, matches_at, occurs_at, slice, starts_with, trim, trimmed};

verus! {

/// One changed path reported by `git status`.
#[derive(Debug)]
pub struct GitStatusEntry {
    pub staged: char,
    pub unstaged: char,
    pub path: String,
}

/// The mathematical form of a status entry: staged code, unstaged code, path.
pub type EntrySpec = (char, char, Seq<char>);

impl GitStatusEntry {
    pub open spec fn spec_entry(&self) -> EntrySpec {
        (self.staged, self.unstaged, self.path@)
    }
}

pub open spec fn entry_specs(v: Seq<GitStatusEntry>) -> Seq<EntrySpec> {
    v.map_values(|e: GitStatusEntry| e.spec_entry())
}

/// `s.trim_start_matches(p)`: `p` removed from the front as often as it occurs there.
pub open spec fn strip_all_prefix(s: Seq<char>, p: Seq<char>) -> Seq<char>
    decreases s.len(),
{
    if p.len() > 0 && has_prefix(s, p) {
        strip_all_prefix(s.subrange(p.len() as int, s.len() as int), p)
    } else {
        s
    }
}

/// The first index at which `p` occurs in `s` (meaningful when it occurs).
pub open spec fn first_index(s: Seq<char>, p: Seq<char>) -> int {
    choose|i: int| occurs_at(s, p, i) && forall|j: int| 0 <= j < i ==> !occurs_at(s, p, j)
}

/// `s.split(p).next()`: the text before the first `p`, or all of `s`.
pub open spec fn before_first(s: Seq<char>, p: Seq<char>) -> Seq<char> {
    if contains_seq(s, p) {
        s.subrange(0, first_index(s, p))
    } else {
        s
    }
}

/// `s.split_once(p).map(|(_, after)| after)`.
pub open spec fn after_first(s: Seq<char>, p: Seq<char>) -> Option<Seq<char>> {
    if contains_seq(s, p) {
        Some(s.subrange(first_index(s, p) + p.len(), s.len() as int))
    } else {
        None
    }
}

proof fn lemma_first_index(s: Seq<char>, p: Seq<char>, i: int)
    requires
        occurs_at(s, p, i),
        forall|j: int| 0 <= j < i ==> !occurs_at(s, p, j),
    ensures
        first_index(s, p) == i,
        contains_seq(s, p),
{
    let c = first_index(s, p);
    assert(occurs_at(s, p, c) && forall|j: int| 0 <= j < c ==> !occurs_at(s, p, j));
    if c < i {
        assert(!occurs_at(s, p, c));
    } else if c > i {
        assert(!occurs_at(s, p, i));
    }
}

/// The branch named by a `## ` header line.
pub open spec fn branch_of(line: Seq<char>) -> Seq<char> {
    trimmed(before_first(strip_all_prefix(line, "## "@), "..."@))
}

/// The path of an entry line: the text after its first three bytes, trimmed,
/// and for a rename only the new name.
pub open spec fn path_of(line: Seq<char>, k: nat) -> Seq<char> {
    let raw = trimmed(line.subrange(k as int, line.len() as int));
    match after_first(raw, " -> "@) {
        Some(renamed_to) => trimmed(renamed_to),
        None => raw,
    }
}

/// The entry an ordinary line yields; lines shorter than three bytes yield none.
pub open spec fn entry_of(line: Seq<char>) -> Option<EntrySpec> {
    if utf8_len(line) < 3 {
        None
    } else {
        Some(
            (
                line[0],
                if line.len() > 1 {
                    line[1]
                } else {
                    ' '
                },
                path_of(line, char_index_of_byte(line, 3).unwrap()),
            ),
        )
    }
}

/// The entries of a run of ordinary lines.
pub open spec fn entries_of(lines: Seq<Seq<char>>) -> Seq<EntrySpec>
    decreases lines.len(),
{
    if lines.len() == 0 {
        seq![]
    } else {
        match entry_of(lines.last()) {
            Some(e) => entries_of(lines.drop_last()).push(e),
            None => entries_of(lines.drop_last()),
        }
    }
}

/// The first line is a branch header.
pub open spec fn has_branch_header(lines: Seq<Seq<char>>) -> bool {
    lines.len() > 0 && has_prefix(lines[0], "## "@)
}

/// The branch (if the first line is a `## ` header) and the entries of all
/// other lines.
pub open spec fn parse_porcelain(s: Seq<char>) -> (Option<Seq<char>>, Seq<EntrySpec>) {
    let ls = lines_of(s);
    if has_branch_header(ls) {
        (Some(branch_of(ls[0])), entries_of(ls.drop_first()))
    } else {
        (None, entries_of(ls))
    }
}

/// Taking the text after byte three of the line is defined: the line is
/// shorter than three bytes or byte three starts a char.
pub open spec fn line_sliceable(line: Seq<char>) -> bool {
    utf8_len(line) < 3 || char_index_of_byte(line, 3) is Some
}

/// Every entry line of `s` can be sliced after its first three bytes.
pub open spec fn porcelain_sliceable(s: Seq<char>) -> bool {
    let ls = lines_of(s);
    forall|i: int|
        0 <= i < ls.len() && !(i == 0 && has_prefix(ls[0], "## "@)) ==> line_sliceable(
            #[trigger] ls[i],
        )
}

fn strip_all_prefix_text(s: &str, p: &str) -> (r: String)
    ensures
        r@ == strip_all_prefix(s@, p@),
{
    let n = s.unicode_len();
    let m = p.unicode_len();
    if m == 0 {
        return String::from_str(s);
    }
    let mut i: usize = 0;
    assert(s@.subrange(0, n as int) =~= s@);
    while m <= n - i && matches_at(s, p, i)
        invariant
            n == s@.len(),
            m == p@.len(),
            m > 0,
            i <= n,
            strip_all_prefix(s@, p@) == strip_all_prefix(s@.subrange(i as int, n as int), p@),
        decreases n - i,
    {
        proof {
            let t = s@.subrange(i as int, n as int);
            assert(t.subrange(0, m as int) =~= s@.subrange(i as int, i + m));
            assert(has_prefix(t, p@));
            assert(t.subrange(m as int, t.len() as int) =~= s@.subrange(i + m, n as int));
        }
        i = i + m;
    }
    proof {
        let t = s@.subrange(i as int, n as int);
        if m <= t.len() {
            assert(t.subrange(0, m as int) =~= s@.subrange(i as int, i + m));
        }
        assert(!has_prefix(t, p@));
    }
    slice(s, i, n)
}

fn before_first_text(s: &str, p: &str) -> (r: String)
    ensures
        r@ == before_first(s@, p@),
{
    match find(s, p) {
        Some(i) => {
            proof { lemma_first_index(s@, p@, i as int); }
            slice(s, 0, i)
        },
        None => String::from_str(s),
    }
}

fn after_first_text(s: &str, p: &str) -> (r: Option<String>)
    ensures
        r is None <==> after_first(s@, p@) is None,
        r matches Some(t) ==> after_first(s@, p@) == Some(t@),
{
    match find(s, p) {
        Some(i) => {
            proof { lemma_first_index(s@, p@, i as int); }
            let m = p.unicode_len();
            let n = s.unicode_len();
            assert(i + m <= n);
            Some(slice(s, i + m, n))
        },
        None => None,
    }
}

fn entry_of_line(line: &str) -> (r: Option<GitStatusEntry>)
    requires
        line_sliceable(line@),
    ensures
        r is None <==> entry_of(line@) is None,
        r matches Some(e) ==> entry_of(line@) == Some(e.spec_entry()),
{
    let (short, k) = byte_offset_to_char(line, 3);
    if short {
        return None;
    }
    let k = k.unwrap();
    let n = line.unicode_len();
    // A line of at least three bytes has at least one char.
    assert(n > 0) by {
        if n == 0 {
            assert(line@ =~= seq![]);
        }
    }
    let staged = line.get_char(0);
    let unstaged = if n > 1 {
        line.get_char(1)
    } else {
        ' '
    };
    let raw = trim(line.substring_char(k, n));
    proof { reveal_strlit(" -> "); }
    let path = match after_first_text(raw.as_str(), " -> ") {
        Some(renamed_to) => trim(renamed_to.as_str()),
        None => raw,
    };
    Some(GitStatusEntry { staged, unstaged, path })
}

fn entries_from_lines(lines: &Vec<String>, start: usize) -> (r: Vec<GitStatusEntry>)
    requires
        start <= lines@.len(),
        forall|j: int|
            start <= j < lines@.len() ==> line_sliceable(#[trigger] text_views(lines@)[j]),
    ensures
        entry_specs(r@) == entries_of(text_views(lines@).subrange(start as int, lines@.len() as int)),
{
    let ghost ls = text_views(lines@);
    let mut entries: Vec<GitStatusEntry> = Vec::new();
    let mut i: usize = start;
    while i < lines.len()
        invariant
            start <= i <= lines@.len(),
            ls == text_views(lines@),
            forall|j: int| start <= j < lines@.len() ==> line_sliceable(#[trigger] ls[j]),
            entry_specs(entries@) == entries_of(ls.subrange(start as int, i as int)),
        decreases lines@.len() - i,
    {
        assert(ls[i as int] == lines@[i as int]@);
        assert(line_sliceable(ls[i as int]));
        let e = entry_of_line(lines[i].as_str());
        proof {
            assert(ls.subrange(start as int, i + 1).drop_last() =~= ls.subrange(start as int, i as int));
            assert(ls.subrange(start as int, i + 1).last() == ls[i as int]);
        }
        match e {
            Some(e) => {
                let ghost before = entries@;
                entries.push(e);
                assert(entry_specs(entries@) =~= entry_specs(before).push(e.spec_entry()));
            },
            None => {},
        }
        i = i + 1;
    }
    entries
}

/// Parses `git status --porcelain=1 -b` output into the branch name (when the
/// first line is a `## ` header) and the changed-path entries.
pub fn parse_status_porcelain(stdout: &str) -> (r: (Option<String>, Vec<GitStatusEntry>))
    requires
        porcelain_sliceable(stdout@),
    ensures
        r.0 is Some <==> parse_porcelain(stdout@).0 is Some,
        r.0 matches Some(b) ==> parse_porcelain(stdout@).0 == Some(b@),
        entry_specs(r.1@) == parse_porcelain(stdout@).1,
{
    let lines = split_lines(stdout);
    let ghost ls = lines_of(stdout@);
    assert(text_views(lines@) == ls);
    proof { reveal_strlit("## "); reveal_strlit("..."); }
    if lines.len() > 0 && starts_with(lines[0].as_str(), "## ") {
        assert(ls[0] == lines@[0]@);
        let stripped = strip_all_prefix_text(lines[0].as_str(), "## ");
        let head = before_first_text(stripped.as_str(), "...");
        let branch = trim(head.as_str());
        assert forall|j: int| 1 <= j < lines@.len() implies line_sliceable(#[trigger] text_views(lines@)[j]) by {
            assert(ls[j] == text_views(lines@)[j]);
        }
        let entries = entries_from_lines(&lines, 1);
        assert(ls.subrange(1, ls.len() as int) =~= ls.drop_first());
        (Some(branch), entries)
    } else {
        assert(!has_branch_header(ls)) by {
            if ls.len() > 0 {
                assert(ls[0] == lines@[0]@);
            }
        }
        assert forall|j: int| 0 <= j < lines@.len() implies line_sliceable(#[trigger] text_views(lines@)[j]) by {
            assert(ls[j] == text_views(lines@)[j]);
        }
        let entries = entries_from_lines(&lines, 0);
        assert(ls.subrange(0, ls.len() as int) =~= ls);
        (None, entries)
    }
}

} // verus!
