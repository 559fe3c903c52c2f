use skretchpad_core::gitstatus::{parse_porcelain_v2, parse_status_char};

#[test]
fn test_parse_porcelain_v2_branch_info() {
    let output = "# branch.oid abc123\n# branch.head main\n# branch.upstream origin/main\n# branch.ab +3 -1\n";
    let status = parse_porcelain_v2(output);
    assert_eq!(status.branch, "main");
    assert_eq!(status.upstream, Some("origin/main".to_string()));
    assert_eq!(status.ahead, 3);
    assert_eq!(status.behind, 1);
    assert!(status.is_repo);
}

#[test]
fn test_parse_porcelain_v2_modified_files() {
    let output = "# branch.head main\n1 .M N... 100644 100644 100644 abc123 def456 src/main.rs\n1 M. N... 100644 100644 100644 abc123 def456 src/lib.rs\n";
    let status = parse_porcelain_v2(output);
    assert_eq!(status.unstaged.len(), 1);
    assert_eq!(status.unstaged[0].path, "src/main.rs");
    assert_eq!(status.unstaged[0].status, "M");
    assert_eq!(status.staged.len(), 1);
    assert_eq!(status.staged[0].path, "src/lib.rs");
    assert_eq!(status.staged[0].status, "M");
}

#[test]
fn test_parse_porcelain_v2_untracked() {
    let output = "# branch.head main\n? new_file.txt\n? another.txt\n";
    let status = parse_porcelain_v2(output);
    assert_eq!(status.untracked.len(), 2);
    assert_eq!(status.untracked[0], "new_file.txt");
    assert_eq!(status.untracked[1], "another.txt");
}

#[test]
fn test_parse_porcelain_v2_added_deleted() {
    let output = "# branch.head main\n1 A. N... 000000 100644 100644 0000000 abc1234 new.ts\n1 .D N... 100644 100644 000000 abc1234 0000000 old.ts\n";
    let status = parse_porcelain_v2(output);
    assert_eq!(status.staged.len(), 1);
    assert_eq!(status.staged[0].status, "A");
    assert_eq!(status.staged[0].path, "new.ts");
    assert_eq!(status.unstaged.len(), 1);
    assert_eq!(status.unstaged[0].status, "D");
    assert_eq!(status.unstaged[0].path, "old.ts");
}

#[test]
fn test_parse_porcelain_v2_empty() {
    let output = "# branch.head main\n";
    let status = parse_porcelain_v2(output);
    assert_eq!(status.branch, "main");
    assert!(status.staged.is_empty());
    assert!(status.unstaged.is_empty());
    assert!(status.untracked.is_empty());
}

#[test]
fn test_parse_status_char() {
    assert_eq!(parse_status_char('M'), "M");
    assert_eq!(parse_status_char('A'), "A");
    assert_eq!(parse_status_char('D'), "D");
    assert_eq!(parse_status_char('R'), "R");
    assert_eq!(parse_status_char('C'), "C");
    assert_eq!(parse_status_char('T'), "M");
}

#[test]
fn parse_porcelain_v2_rename_with_origin() {
    let output = "# branch.head main\n2 R. N... 100644 100644 100644 abc1234 def5678 R100 new_name.rs\told_name.rs\n";
    let status = parse_porcelain_v2(output);
    assert_eq!(status.staged.len(), 1);
    assert_eq!(status.staged[0].status, "R");
    assert_eq!(status.staged[0].path, "new_name.rs");
    assert_eq!(status.staged[0].old_path, Some("old_name.rs".to_string()));
    assert!(status.unstaged.is_empty());
}

#[test]
fn parse_porcelain_v2_merge_conflict() {
    let output = "# branch.head main\nu UU N... 100644 100644 100644 100644 abc1234 def5678 0123abc conflicted.rs\n";
    let status = parse_porcelain_v2(output);
    assert_eq!(status.merge_conflicts.len(), 1);
    assert_eq!(status.merge_conflicts[0], "conflicted.rs");
}
