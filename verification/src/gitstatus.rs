//! Parsing of `git status --porcelain=v2 --branch` output and of the line
//! formats of `git log` and `git branch`. The subprocess that produces the
//! text runs in the host harness; the text itself is parsed here, line by
//! line, against an exact line grammar.

use vstd::prelude::*;
use vstd::string::*;
use crate::text::{
    after_char, before_char, has_char, lax_decimal_value, parse_lax_decimal, split_once_char,
    starts_with, str_starts_with,
};

verus! {

// ============================================================================
// TYPES
// ============================================================================

/// One changed file in a status report.
pub struct GitFileChange {
    pub path: String,
    pub old_path: Option<String>,
    pub status: String,
}

/// A working-tree status report.
pub struct GitStatus {
    pub is_repo: bool,
    pub branch: String,
    pub upstream: Option<String>,
    pub ahead: i32,
    pub behind: i32,
    pub staged: Vec<GitFileChange>,
    pub unstaged: Vec<GitFileChange>,
    pub untracked: Vec<String>,
    pub merge_conflicts: Vec<String>,
}

/// One commit of a log report.
pub struct GitLogEntry {
    pub hash: String,
    pub short_hash: String,
    pub author: String,
    pub date: String,
    pub message: String,
}

/// One branch of a branch report.
pub struct GitBranch {
    pub name: String,
    pub current: bool,
    pub remote: bool,
    pub upstream: Option<String>,
}

/// The mathematical content of one file change.
#[verifier::ext_equal]
pub ghost struct FileChangeV {
    pub path: Seq<char>,
    pub old_path: Option<Seq<char>>,
    pub status: Seq<char>,
}

/// The mathematical content of a status report.
#[verifier::ext_equal]
pub ghost struct GitStatusV {
    pub is_repo: bool,
    pub branch: Seq<char>,
    pub upstream: Option<Seq<char>>,
    pub ahead: int,
    pub behind: int,
    pub staged: Seq<FileChangeV>,
    pub unstaged: Seq<FileChangeV>,
    pub untracked: Seq<Seq<char>>,
    pub merge_conflicts: Seq<Seq<char>>,
}

impl View for GitFileChange {
    type V = FileChangeV;

    open spec fn view(&self) -> FileChangeV {
        FileChangeV {
            path: self.path@,
            old_path: match self.old_path {
                Option::Some(p) => Option::Some(p@),
                Option::None => Option::None,
            },
            status: self.status@,
        }
    }
}

impl View for GitStatus {
    type V = GitStatusV;

    open spec fn view(&self) -> GitStatusV {
        GitStatusV {
            is_repo: self.is_repo,
            branch: self.branch@,
            upstream: match self.upstream {
                Option::Some(u) => Option::Some(u@),
                Option::None => Option::None,
            },
            ahead: self.ahead as int,
            behind: self.behind as int,
            staged: self.staged@.map_values(|f: GitFileChange| f@),
            unstaged: self.unstaged@.map_values(|f: GitFileChange| f@),
            untracked: self.untracked@.map_values(|s: String| s@),
            merge_conflicts: self.merge_conflicts@.map_values(|s: String| s@),
        }
    }
}

// ============================================================================
// THE LINE GRAMMAR
// ============================================================================

/// The status letter a porcelain change character maps to; a type change
/// counts as a modification, as does anything unexpected.
pub open spec fn spec_status_char(c: char) -> Seq<char> {
    if c == 'A' {
        "A"@
    } else if c == 'D' {
        "D"@
    } else if c == 'R' {
        "R"@
    } else if c == 'C' {
        "C"@
    } else {
        "M"@
    }
}

/// Maps one porcelain change character to its status letter.
pub fn parse_status_char(c: char) -> (r: &'static str)
    ensures
        r@ == spec_status_char(c),
{
    proof {
        reveal_strlit("A");
        reveal_strlit("D");
        reveal_strlit("R");
        reveal_strlit("C");
        reveal_strlit("M");
    }
    if c == 'A' {
        "A"
    } else if c == 'D' {
        "D"
    } else if c == 'R' {
        "R"
    } else if c == 'C' {
        "C"
    } else {
        "M"
    }
}

/// The text after dropping `k` space-separated fields, if it has that many
/// separators.
pub open spec fn skip_fields(s: Seq<char>, k: nat) -> Option<Seq<char>>
    decreases k,
{
    if k == 0 {
        Option::Some(s)
    } else if !has_char(s, ' ') {
        Option::None
    } else {
        skip_fields(after_char(s, ' '), (k - 1) as nat)
    }
}

/// The `k`-th space-separated field, if the text has one.
pub open spec fn field_at(s: Seq<char>, k: nat) -> Option<Seq<char>> {
    match skip_fields(s, k) {
        Option::Some(t) => Option::Some(before_char(t, ' ')),
        Option::None => Option::None,
    }
}

/// Drops `k` space-separated fields of the text.
pub fn skip_fields_exec<'a>(s: &'a str, k: usize) -> (r: Option<&'a str>)
    ensures
        match r {
            Some(t) => skip_fields(s@, k as nat) == Option::Some(t@),
            None => skip_fields(s@, k as nat) is None,
        },
    decreases k,
{
    if k == 0 {
        return Some(s);
    }
    match split_once_char(s, ' ') {
        (_, Some(rest)) => skip_fields_exec(rest, k - 1),
        (_, None) => None,
    }
}

/// What the staged and unstaged columns of a change entry contribute: a
/// non-dot first column stages the change, a non-dot second column leaves
/// it unstaged.
pub open spec fn with_change(
    st: GitStatusV,
    xy: Seq<char>,
    path: Seq<char>,
    old_path: Option<Seq<char>>,
) -> GitStatusV {
    let staged = if xy.len() >= 2 && xy[0] != '.' {
        st.staged.push(
            FileChangeV { path, old_path, status: spec_status_char(xy[0]) },
        )
    } else {
        st.staged
    };
    let unstaged = if xy.len() >= 2 && xy[1] != '.' {
        st.unstaged.push(
            FileChangeV { path, old_path, status: spec_status_char(xy[1]) },
        )
    } else {
        st.unstaged
    };
    GitStatusV { staged, unstaged, ..st }
}

/// What one porcelain line contributes to the status: branch headers set
/// the branch fields, `?` lines collect untracked paths, `u` lines collect
/// conflicts, `1` lines ordinary changes, and `2` lines renames with their
/// origin after the tab.
pub open spec fn apply_line(st: GitStatusV, line: Seq<char>) -> GitStatusV {
    if starts_with(line, "# branch.head "@) {
        GitStatusV { branch: line.skip(14), ..st }
    } else if starts_with(line, "# branch.upstream "@) {
        GitStatusV { upstream: Option::Some(line.skip(18)), ..st }
    } else if starts_with(line, "# branch.ab "@) {
        let rest = line.skip(12);
        match (field_at(rest, 0), field_at(rest, 1)) {
            (Option::Some(a), Option::Some(b)) => GitStatusV {
                ahead: lax_decimal_value(a.skip(if a.len() >= 1 && a[0] == '+' {
                    1
                } else {
                    0
                })),
                behind: lax_decimal_value(b.skip(if b.len() >= 1 && b[0] == '-' {
                    1
                } else {
                    0
                })),
                ..st
            },
            _ => st,
        }
    } else if starts_with(line, "? "@) {
        GitStatusV { untracked: st.untracked.push(line.skip(2)), ..st }
    } else if starts_with(line, "u "@) {
        match skip_fields(line, 10) {
            Option::Some(path) => GitStatusV {
                merge_conflicts: st.merge_conflicts.push(path),
                ..st
            },
            Option::None => st,
        }
    } else if starts_with(line, "1 "@) {
        match (field_at(line, 1), skip_fields(line, 8)) {
            (Option::Some(xy), Option::Some(path)) => with_change(
                st,
                xy,
                path,
                Option::None,
            ),
            _ => st,
        }
    } else if starts_with(line, "2 "@) {
        match (field_at(line, 1), skip_fields(line, 9)) {
            (Option::Some(xy), Option::Some(rest)) => {
                let path = before_char(rest, '\t');
                let old_path = if has_char(rest, '\t') {
                    Option::Some(after_char(rest, '\t'))
                } else {
                    Option::None
                };
                with_change(st, xy, path, old_path)
            },
            _ => st,
        }
    } else {
        st
    }
}

/// The status an in-repository porcelain report starts from.
pub open spec fn initial_status() -> GitStatusV {
    GitStatusV {
        is_repo: true,
        branch: "HEAD"@,
        upstream: Option::None,
        ahead: 0,
        behind: 0,
        staged: Seq::empty(),
        unstaged: Seq::empty(),
        untracked: Seq::empty(),
        merge_conflicts: Seq::empty(),
    }
}

/// The status a sequence of porcelain lines denotes, first line first.
pub open spec fn parse_lines(lines: Seq<Seq<char>>) -> GitStatusV
    decreases lines.len(),
{
    if lines.len() == 0 {
        initial_status()
    } else {
        apply_line(parse_lines(lines.drop_last()), lines.last())
    }
}

// ============================================================================
// LINE SPLITTING
// ============================================================================

/// The newline-separated lines of a text: splitting at every newline, so a
/// trailing newline yields a final empty line, which no grammar rule
/// matches.
pub open spec fn spec_lines(s: Seq<char>) -> Seq<Seq<char>>
    decreases s.len(),
    via spec_lines_dec
{
    if !has_char(s, '\n') {
        seq![s]
    } else {
        seq![before_char(s, '\n')] + spec_lines(after_char(s, '\n'))
    }
}

#[via_fn]
proof fn spec_lines_dec(s: Seq<char>) {
    if has_char(s, '\n') {
        lemma_after_char_shorter(s, '\n');
    }
}

proof fn lemma_after_char_shorter(s: Seq<char>, c: char)
    requires
        has_char(s, c),
    ensures
        after_char(s, c).len() < s.len(),
    decreases s.len(),
{
    if s.len() > 0 && s[0] != c {
        assert(has_char(s.skip(1), c)) by {
            let j = choose|j: int| 0 <= j < s.len() && s[j] == c;
            assert(s.skip(1)[j - 1] == c);
        }
        lemma_after_char_shorter(s.skip(1), c);
    }
}

/// Splits a text at every newline.
pub fn split_lines(s: &str) -> (r: Vec<String>)
    ensures
        r@.map_values(|l: String| l@) == spec_lines(s@),
    decreases s@.len(),
{
    let (first, rest) = split_once_char(s, '\n');
    match rest {
        Some(rest) => {
            proof {
                lemma_after_char_shorter(s@, '\n');
            }
            let mut r = split_lines(rest);
            r.insert(0, first.to_owned());
            proof {
                assert(r@.map_values(|l: String| l@) =~= spec_lines(s@));
            }
            r
        }
        None => {
            let mut r: Vec<String> = Vec::new();
            r.push(first.to_owned());
            proof {
                assert(first@ == s@) by {
                    assert(before_char(s@, '\n') =~= s@) by {
                        lemma_no_char_before(s@, '\n');
                    }
                }
                assert(r@.map_values(|l: String| l@) =~= spec_lines(s@));
            }
            r
        }
    }
}

proof fn lemma_no_char_before(s: Seq<char>, c: char)
    requires
        !has_char(s, c),
    ensures
        before_char(s, c) == s,
    decreases s.len(),
{
    if s.len() > 0 {
        assert(s[0] != c);
        assert(!has_char(s.skip(1), c)) by {
            if has_char(s.skip(1), c) {
                let j = choose|j: int| 0 <= j < s.skip(1).len() && s.skip(1)[j] == c;
                assert(s[j + 1] == c);
            }
        }
        lemma_no_char_before(s.skip(1), c);
        assert(seq![s[0]] + s.skip(1) =~= s);
    } else {
        assert(before_char(s, c) =~= s);
    }
}

// ============================================================================
// THE PARSER
// ============================================================================

/// Parses one porcelain line into the running status.
fn apply_line_exec(st: GitStatus, line: &str) -> (r: GitStatus)
    ensures
        r@ == apply_line(st@, line@),
{
    let n = line.unicode_len();
    if str_starts_with(line, "# branch.head ") {
        proof {
            reveal_strlit("# branch.head ");
        }
        let branch = line.substring_char(14, n).to_owned();
        proof {
            assert(branch@ =~= line@.skip(14));
        }
        return GitStatus { branch, ..st };
    }
    if str_starts_with(line, "# branch.upstream ") {
        proof {
            reveal_strlit("# branch.upstream ");
        }
        let upstream = line.substring_char(18, n).to_owned();
        proof {
            assert(upstream@ =~= line@.skip(18));
        }
        return GitStatus { upstream: Some(upstream), ..st };
    }
    if str_starts_with(line, "# branch.ab ") {
        proof {
            reveal_strlit("# branch.ab ");
        }
        let rest = line.substring_char(12, n);
        proof {
            assert(rest@ =~= line@.skip(12));
        }
        let (a, after_a) = split_once_char(rest, ' ');
        match after_a {
            Some(after_a) => {
                let b = split_once_char(after_a, ' ').0;
                proof {
                    reveal_with_fuel(skip_fields, 3);
                    assert(field_at(rest@, 0) == Option::Some(a@));
                    assert(field_at(rest@, 1) == Option::Some(b@));
                }
                let an = a.unicode_len();
                let a_digits = if an >= 1 && a.get_char(0) == '+' {
                    a.substring_char(1, an)
                } else {
                    a
                };
                let bn = b.unicode_len();
                let b_digits = if bn >= 1 && b.get_char(0) == '-' {
                    b.substring_char(1, bn)
                } else {
                    b
                };
                proof {
                    assert(a@.skip(0) =~= a@);
                    assert(b@.skip(0) =~= b@);
                }
                let ahead = parse_lax_decimal(a_digits);
                let behind = parse_lax_decimal(b_digits);
                return GitStatus { ahead, behind, ..st };
            }
            None => {
                proof {
                    reveal_with_fuel(skip_fields, 3);
                    assert(field_at(rest@, 1) is None);
                }
                return st;
            }
        }
    }
    if str_starts_with(line, "? ") {
        proof {
            reveal_strlit("? ");
        }
        let path = line.substring_char(2, n).to_owned();
        proof {
            assert(path@ =~= line@.skip(2));
        }
        let ghost st0 = st@;
        let mut st = st;
        st.untracked.push(path);
        proof {
            assert(st@.untracked =~= st0.untracked.push(line@.skip(2)));
            assert(st@ =~= apply_line(st0, line@));
        }
        return st;
    }
    if str_starts_with(line, "u ") {
        proof {
            reveal_strlit("u ");
        }
        match skip_fields_exec(line, 10) {
            Some(path) => {
                let ghost st0 = st@;
                let ghost pv = path@;
                let mut st = st;
                st.merge_conflicts.push(path.to_owned());
                proof {
                    assert(st@.merge_conflicts =~= st0.merge_conflicts.push(pv));
                    assert(st@ =~= apply_line(st0, line@));
                }
                return st;
            }
            None => {
                return st;
            }
        }
    }
    if str_starts_with(line, "1 ") {
        proof {
            reveal_strlit("1 ");
        }
        match (skip_fields_exec(line, 1), skip_fields_exec(line, 8)) {
            (Some(xy_rest), Some(path)) => {
                let xy = split_once_char(xy_rest, ' ').0;
                proof {
                    assert(field_at(line@, 1) == Option::Some(xy@));
                }
                return push_change(st, xy, path.to_owned(), None);
            }
            _ => {
                return st;
            }
        }
    }
    if str_starts_with(line, "2 ") {
        proof {
            reveal_strlit("2 ");
        }
        match (skip_fields_exec(line, 1), skip_fields_exec(line, 9)) {
            (Some(xy_rest), Some(rest)) => {
                let xy = split_once_char(xy_rest, ' ').0;
                proof {
                    assert(field_at(line@, 1) == Option::Some(xy@));
                }
                let (path, old_path) = split_once_char(rest, '\t');
                let old_path = match old_path {
                    Some(o) => Some(o.to_owned()),
                    None => None,
                };
                return push_change(st, xy, path.to_owned(), old_path);
            }
            _ => {
                return st;
            }
        }
    }
    st
}

/// Pushes the staged and unstaged contributions of one change entry.
fn push_change(st: GitStatus, xy: &str, path: String, old_path: Option<String>) -> (r:
    GitStatus)
    ensures
        r@ == with_change(
            st@,
            xy@,
            path@,
            match old_path {
                Option::Some(o) => Option::Some(o@),
                Option::None => Option::None,
            },
        ),
{
    let ghost st0 = st@;
    let ghost pv = path@;
    let ghost opv: Option<Seq<char>> = match &old_path {
        Option::Some(o) => Option::Some(o@),
        Option::None => Option::None,
    };
    let mut st = st;
    let xn = xy.unicode_len();
    if xn >= 2 {
        let x = xy.get_char(0);
        let y = xy.get_char(1);
        if x != '.' {
            st.staged.push(
                GitFileChange {
                    path: path.clone(),
                    old_path: match &old_path {
                        Option::Some(o) => Option::Some(o.clone()),
                        Option::None => Option::None,
                    },
                    status: String::from_str(parse_status_char(x)),
                },
            );
            proof {
                assert(st@.staged =~= st0.staged.push(
                    FileChangeV { path: pv, old_path: opv, status: spec_status_char(xy@[0]) },
                ));
            }
        }
        let ghost st1 = st@;
        if y != '.' {
            st.unstaged.push(
                GitFileChange {
                    path,
                    old_path,
                    status: String::from_str(parse_status_char(y)),
                },
            );
            proof {
                assert(st@.unstaged =~= st0.unstaged.push(
                    FileChangeV { path: pv, old_path: opv, status: spec_status_char(xy@[1]) },
                ));
                assert(st@.staged =~= st1.staged);
            }
        }
    }
    proof {
        assert(st@ =~= with_change(st0, xy@, pv, opv));
    }
    st
}

/// Parses the whole `git status --porcelain=v2 --branch` output.
pub fn parse_porcelain_v2(output: &str) -> (r: GitStatus)
    ensures
        r@ == parse_lines(spec_lines(output@)),
{
    let lines = split_lines(output);
    let mut st = GitStatus {
        is_repo: true,
        branch: String::from_str("HEAD"),
        upstream: None,
        ahead: 0,
        behind: 0,
        staged: Vec::new(),
        unstaged: Vec::new(),
        untracked: Vec::new(),
        merge_conflicts: Vec::new(),
    };
    proof {
        assert(st@ =~= parse_lines(spec_lines(output@).take(0)));
    }
    let n = lines.len();
    let mut i: usize = 0;
    while i < n
        invariant
            i <= n,
            n == lines@.len(),
            lines@.map_values(|l: String| l@) == spec_lines(output@),
            st@ == parse_lines(spec_lines(output@).take(i as int)),
        decreases n - i,
    {
        proof {
            assert(spec_lines(output@).take(i + 1).drop_last() =~= spec_lines(
                output@,
            ).take(i as int));
            assert(spec_lines(output@).take(i + 1).last() == lines@[i as int]@);
        }
        st = apply_line_exec(st, lines[i].as_str());
        i += 1;
    }
    proof {
        assert(spec_lines(output@).take(n as int) =~= spec_lines(output@));
    }
    st
}

} // verus!
