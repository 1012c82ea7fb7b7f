use inkflow::store::{
    data_dir_under, get_data_dir, get_notebooks_path, get_notes_path, get_sync_dir,
    load_notebooks_outcome, load_notes_outcome,
};

#[test]
fn paths_are_fixed_under_the_data_dir() {
    let d = "/home/u/.inkflow/data";
    assert_eq!(get_notes_path(d), "/home/u/.inkflow/data/notes.json");
    assert_eq!(get_notebooks_path(d), "/home/u/.inkflow/data/notebooks.json");
    assert_eq!(get_sync_dir(d), "/home/u/.inkflow/data/sync");
}

#[test]
fn data_dir_is_under_the_home_dir() {
    assert_eq!(data_dir_under("/home/u"), "/home/u/.inkflow/data");
}

#[test]
fn data_dir_from_environment_has_the_fixed_suffix() {
    if let Some(d) = get_data_dir() {
        assert!(d.ends_with("/.inkflow/data"));
    }
}

#[test]
fn loading_missing_notes_is_a_not_found_error() {
    let r = load_notes_outcome(false, Ok("ignored".to_string()));
    assert_eq!(r, Err("Notes file not found".to_string()));
}

#[test]
fn loading_existing_notes_passes_the_read_through() {
    assert_eq!(load_notes_outcome(true, Ok("[]".to_string())), Ok("[]".to_string()));
    assert_eq!(
        load_notes_outcome(true, Err("permission denied".to_string())),
        Err("permission denied".to_string())
    );
}

#[test]
fn loading_missing_notebooks_is_a_not_found_error() {
    let r = load_notebooks_outcome(false, Ok("ignored".to_string()));
    assert_eq!(r, Err("Notebooks file not found".to_string()));
}

#[test]
fn loading_existing_notebooks_passes_the_read_through() {
    assert_eq!(load_notebooks_outcome(true, Ok("[]".to_string())), Ok("[]".to_string()));
}
