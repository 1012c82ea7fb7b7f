use std::collections::HashMap;

use inkflow::export::{export_plan, is_md_filename, note_filename, render_note};
use inkflow::note::Note;

fn note(id: &str, title: &str, content: &str, tags: &[&str]) -> Note {
    Note {
        id: id.to_string(),
        title: title.to_string(),
        content: content.to_string(),
        notebook_id: "nb1".to_string(),
        tags: tags.iter().map(|t| t.to_string()).collect(),
        status: "draft".to_string(),
        pinned: false,
        created_at: 0,
        updated_at: 0,
    }
}

/// What the caller does with a plan: drop every `.md` file, then write the
/// planned files in order.
fn apply_export(dir: &mut HashMap<String, String>, notes: &Vec<Note>) {
    dir.retain(|name, _| !is_md_filename(name));
    for (name, content) in export_plan(notes) {
        dir.insert(name, content);
    }
}

#[test]
fn concrete_scenario_filename() {
    assert_eq!(note_filename("Hello World!"), "Hello_World_.md");
}

#[test]
fn concrete_scenario_content() {
    let n = note("1", "Hello World!", "body", &[]);
    let rendered = render_note(&n);
    assert_eq!(
        rendered,
        "---\nid: 1\nnotebook: nb1\nstatus: draft\npinned: false\ntags: \ncreated: 0\nupdated: 0\n---\n\n# Hello World!\n\nbody"
    );
    assert!(rendered.contains("tags: \n"));
    assert!(rendered.contains("# Hello World!"));
}

#[test]
fn front_matter_tags_line() {
    let n = note("2", "Tagged", "text", &["work", "ideas"]);
    assert!(render_note(&n).contains("\ntags: work, ideas\n"));
}

#[test]
fn front_matter_negative_and_extreme_timestamps() {
    let mut n = note("3", "Times", "x", &[]);
    n.created_at = -5;
    n.updated_at = i64::MIN;
    let rendered = render_note(&n);
    assert!(rendered.contains("\ncreated: -5\n"));
    assert!(rendered.contains("\nupdated: -9223372036854775808\n"));
    n.updated_at = i64::MAX;
    assert!(render_note(&n).contains("\nupdated: 9223372036854775807\n"));
}

#[test]
fn front_matter_pinned_true() {
    let mut n = note("4", "Pinned", "x", &[]);
    n.pinned = true;
    assert!(render_note(&n).contains("\npinned: true\n"));
}

#[test]
fn plan_lists_every_note_in_order() {
    let notes = vec![note("1", "One", "a", &[]), note("2", "Two!", "b", &[])];
    let plan = export_plan(&notes);
    assert_eq!(plan.len(), 2);
    assert_eq!(plan[0].0, "One.md");
    assert_eq!(plan[1].0, "Two_.md");
    assert_eq!(plan[0].1, render_note(&notes[0]));
    assert_eq!(plan[1].1, render_note(&notes[1]));
}

#[test]
fn export_twice_gives_identical_files() {
    let notes = || vec![note("1", "One", "a", &[]), note("2", "Two", "b", &[])];
    let mut dir = HashMap::new();
    apply_export(&mut dir, &notes());
    let first = dir.clone();
    apply_export(&mut dir, &notes());
    assert_eq!(dir, first);
}

#[test]
fn export_removes_stale_files() {
    let a = vec![note("1", "Alpha", "a", &[]), note("2", "Beta", "b", &[])];
    let b = vec![note("3", "Gamma", "c", &[])];
    let mut dir = HashMap::new();
    apply_export(&mut dir, &a);
    assert!(dir.contains_key("Alpha.md") && dir.contains_key("Beta.md"));
    apply_export(&mut dir, &b);
    assert!(!dir.contains_key("Alpha.md"));
    assert!(!dir.contains_key("Beta.md"));
    assert_eq!(dir.len(), 1);
    assert!(dir.contains_key("Gamma.md"));
}

#[test]
fn export_keeps_non_md_files() {
    let mut dir = HashMap::new();
    dir.insert(".gitignore".to_string(), "target".to_string());
    apply_export(&mut dir, &vec![note("1", "One", "a", &[])]);
    assert_eq!(dir.get(".gitignore").map(String::as_str), Some("target"));
}

#[test]
fn colliding_titles_leave_one_file_with_last_content() {
    let notes = vec![note("1", "Hi!", "first", &[]), note("2", "Hi?", "second", &[])];
    assert_eq!(note_filename("Hi!"), note_filename("Hi?"));
    let mut dir = HashMap::new();
    apply_export(&mut dir, &notes);
    assert_eq!(dir.len(), 1);
    assert_eq!(dir.get("Hi_.md"), Some(&render_note(&notes[1])));
}

#[test]
fn md_filename_detection() {
    assert!(is_md_filename("a.md"));
    assert!(is_md_filename(".md"));
    assert!(!is_md_filename("md"));
    assert!(!is_md_filename("a.MD"));
    assert!(!is_md_filename("a.txt"));
}
