use update_watcher::error::ProbeFault;
use update_watcher::pattern::{group_of, LinePattern};

fn cs(s: &str) -> Vec<char> {
    s.chars().collect()
}

fn group(groups: &Vec<Option<Vec<char>>>, i: usize) -> Option<String> {
    group_of(groups, i).map(|g| g.iter().collect())
}

#[test]
fn compile_rejects_a_broken_pattern() {
    assert!(LinePattern::compile(r"Updates:\D+(\d+)").is_ok());
    match LinePattern::compile(r"foo(bar") {
        Err(e) => assert_eq!(e, ProbeFault::Pattern),
        Ok(_) => panic!("an unclosed group was accepted"),
    }
}

#[test]
fn captures_give_the_groups_of_the_leftmost_match() {
    let p = LinePattern::compile(r"Updates:\D+(\d+)\D+(\d+)").ok().unwrap();
    let found = p.captures(&cs("    Updates:                5          7")).unwrap();
    assert_eq!(found.len(), 3);
    assert_eq!(group(&found, 0), Some("Updates:                5          7".to_string()));
    assert_eq!(group(&found, 1), Some("5".to_string()));
    assert_eq!(group(&found, 2), Some("7".to_string()));
    assert_eq!(group(&found, 3), None);
    assert!(p.captures(&cs("    Keepalives:            10         10")).is_none());
    assert!(p.captures(&cs("")).is_none());
}

#[test]
fn captures_mark_groups_that_took_no_part() {
    let p = LinePattern::compile(r"(\w)(\d)?(\w)").ok().unwrap();
    let found = p.captures(&cs("AZ")).unwrap();
    assert_eq!(found.len(), 4);
    assert_eq!(group(&found, 0), Some("AZ".to_string()));
    assert_eq!(group(&found, 1), Some("A".to_string()));
    assert_eq!(group(&found, 2), None);
    assert_eq!(group(&found, 3), Some("Z".to_string()));
}

#[test]
fn captures_keep_characters_beyond_ascii() {
    let p = LinePattern::compile(r"\b(\p{Greek}+)\b").ok().unwrap();
    let found = p.captures(&cs("Greek: \u{3b1}\u{3b2}\u{3b3}\u{3b4}")).unwrap();
    assert_eq!(group(&found, 1), Some("\u{3b1}\u{3b2}\u{3b3}\u{3b4}".to_string()));
}
