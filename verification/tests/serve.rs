use coursetrack::model::Assignment;
use coursetrack::serve::{assignment_filepath, browse};

fn assignment(name: &str, filepath: &str) -> Assignment {
    Assignment {
        name: name.to_string(),
        filepath: filepath.to_string(),
        deadline: 1_700_000_000,
        grader: "grader".to_string(),
    }
}

fn strings(items: &[&str]) -> Vec<String> {
    items.iter().map(|s| s.to_string()).collect()
}

#[test]
fn browse_drops_empty_entries_and_dotfiles() {
    let entries = strings(&["hw1.py", "", ".git", "src/main.rs", ".gitignore", "notes.md"]);
    let kept = browse(&entries);
    assert_eq!(kept, strings(&["hw1.py", "src/main.rs", "notes.md"]));
}

#[test]
fn browse_keeps_order() {
    let entries = strings(&["b", "a", "c"]);
    assert_eq!(browse(&entries), strings(&["b", "a", "c"]));
}

#[test]
fn browse_of_nothing_is_empty() {
    assert!(browse(&Vec::new()).is_empty());
    assert!(browse(&strings(&["", ".hidden"])).is_empty());
}

#[test]
fn a_dot_inside_a_name_is_kept() {
    let entries = strings(&["a.b", "dir/.hidden"]);
    assert_eq!(browse(&entries), strings(&["a.b", "dir/.hidden"]));
}

#[test]
fn the_named_deliverable_path_is_found() {
    let assignments = vec![assignment("hw1", "hw1.py"), assignment("hw2", "hw2.py")];
    let path = assignment_filepath(&assignments, &"hw2".to_string());
    assert_eq!(path, Some("hw2.py".to_string()));
}

#[test]
fn an_unknown_deliverable_has_no_path() {
    let assignments = vec![assignment("hw1", "hw1.py")];
    assert_eq!(assignment_filepath(&assignments, &"hw9".to_string()), None);
}

#[test]
fn the_first_match_in_configuration_order_wins() {
    let assignments = vec![assignment("hw1", "first.py"), assignment("hw1", "second.py")];
    assert_eq!(
        assignment_filepath(&assignments, &"hw1".to_string()),
        Some("first.py".to_string())
    );
}
