use watchlog::files::FileList;
use watchlog::paths::FilePath;

fn path(dir: &str, name: &str) -> FilePath {
    FilePath::new(dir.to_string(), name.to_string()).unwrap()
}

fn names(list: &FileList) -> Vec<String> {
    let mut out = Vec::new();
    for i in 0..list.len() {
        out.push(list.path_at(i).unwrap().file_name().to_string());
    }
    out
}

#[test]
fn new_list_is_empty() {
    let list = FileList::new();
    assert_eq!(list.len(), 0);
    assert!(list.path_at(0).is_none());
}

#[test]
fn add_appends_in_order() {
    let mut list = FileList::new();
    list.add(path("/d", "first"));
    list.add(path("/d", "second"));
    list.add(path("/e", "third"));
    assert_eq!(list.len(), 3);
    assert_eq!(names(&list), vec!["first", "second", "third"]);
    assert_eq!(list.path_at(2).unwrap().directory(), "/e");
    assert!(list.path_at(3).is_none());
}

#[test]
fn contains_finds_listed_paths_only() {
    let mut list = FileList::new();
    list.add(path("/d", "first"));
    assert!(list.contains(&path("/d", "first")));
    assert!(!list.contains(&path("/d", "other")));
    assert!(!list.contains(&path("/e", "first")));
}

#[test]
fn deleted_row_stays_until_the_tick_ends() {
    let mut list = FileList::new();
    list.add(path("/d", "first"));
    list.add(path("/d", "second"));
    assert!(list.record_delete(0));
    assert_eq!(names(&list), vec!["first", "second"]);
    list.reconcile();
    assert_eq!(names(&list), vec!["second"]);
    assert!(!list.contains(&path("/d", "first")));
}

#[test]
fn delete_of_a_missing_row_changes_nothing() {
    let mut list = FileList::new();
    list.add(path("/d", "first"));
    assert!(!list.record_delete(1));
    assert!(!list.record_delete(usize::MAX));
    list.reconcile();
    assert_eq!(names(&list), vec!["first"]);
}

#[test]
fn reconcile_without_deletions_keeps_everything() {
    let mut list = FileList::new();
    list.add(path("/d", "first"));
    list.add(path("/d", "second"));
    list.reconcile();
    assert_eq!(names(&list), vec!["first", "second"]);
    list.reconcile();
    assert_eq!(names(&list), vec!["first", "second"]);
}

#[test]
fn reconcile_keeps_the_order_of_the_rest() {
    let mut list = FileList::new();
    for name in ["a", "b", "c", "d", "e"] {
        list.add(path("/d", name));
    }
    assert!(list.record_delete(1));
    assert!(list.record_delete(3));
    list.reconcile();
    assert_eq!(names(&list), vec!["a", "c", "e"]);
}

#[test]
fn reconcile_drops_every_row_with_a_deleted_path() {
    let mut list = FileList::new();
    list.add(path("/d", "same"));
    list.add(path("/d", "other"));
    list.add(path("/d", "same"));
    assert!(list.record_delete(0));
    list.reconcile();
    assert_eq!(names(&list), vec!["other"]);
}

#[test]
fn deletions_are_forgotten_after_the_tick() {
    let mut list = FileList::new();
    list.add(path("/d", "first"));
    assert!(list.record_delete(0));
    list.reconcile();
    assert_eq!(list.len(), 0);
    list.add(path("/d", "first"));
    list.reconcile();
    assert_eq!(names(&list), vec!["first"]);
}

#[test]
fn deleting_all_rows_empties_the_list() {
    let mut list = FileList::new();
    list.add(path("/d", "a"));
    list.add(path("/d", "b"));
    assert!(list.record_delete(0));
    assert!(list.record_delete(1));
    list.reconcile();
    assert_eq!(list.len(), 0);
}

#[test]
fn same_name_in_another_directory_survives() {
    let mut list = FileList::new();
    list.add(path("/d", "name"));
    list.add(path("/e", "name"));
    assert!(list.record_delete(0));
    list.reconcile();
    assert_eq!(list.len(), 1);
    assert_eq!(list.path_at(0).unwrap().directory(), "/e");
}

#[test]
fn rename_plan_keeps_the_directory() {
    let mut list = FileList::new();
    list.add(path("/tmp/work", "abc1234567"));
    for _ in 0..20 {
        let target = list.plan_rename(0).unwrap();
        assert_eq!(target.directory(), "/tmp/work");
        assert_eq!(target.file_name().chars().count(), 10);
        assert!(target.file_name().chars().all(|c| c.is_ascii_alphanumeric()));
    }
    assert_eq!(names(&list), vec!["abc1234567"]);
}

#[test]
fn rename_plan_for_a_missing_row_is_nothing() {
    let list = FileList::new();
    assert!(list.plan_rename(0).is_none());
    let mut one = FileList::new();
    one.add(path("/d", "a"));
    assert!(one.plan_rename(1).is_none());
}

#[test]
fn rename_updates_the_row_in_place() {
    let mut list = FileList::new();
    list.add(path("/d", "a"));
    list.add(path("/d", "b"));
    list.add(path("/d", "c"));
    let target = list.path_at(1).unwrap().with_file_name("renamed".to_string()).unwrap();
    assert!(list.record_rename(1, target));
    assert_eq!(names(&list), vec!["a", "renamed", "c"]);
    assert_eq!(list.path_at(1).unwrap().directory(), "/d");
    assert!(!list.contains(&path("/d", "b")));
    assert!(list.contains(&path("/d", "renamed")));
}

#[test]
fn rename_of_a_missing_row_changes_nothing() {
    let mut list = FileList::new();
    list.add(path("/d", "a"));
    assert!(!list.record_rename(1, path("/d", "z")));
    assert_eq!(names(&list), vec!["a"]);
}

#[test]
fn rename_survives_reconciliation() {
    let mut list = FileList::new();
    list.add(path("/d", "a"));
    assert!(list.record_rename(0, path("/d", "z")));
    list.reconcile();
    assert_eq!(names(&list), vec!["z"]);
}

#[test]
fn renamed_row_is_kept_when_its_old_path_was_deleted() {
    let mut list = FileList::new();
    list.add(path("/d", "a"));
    assert!(list.record_delete(0));
    assert!(list.record_rename(0, path("/d", "z")));
    list.reconcile();
    assert_eq!(names(&list), vec!["z"]);
    assert!(!list.contains(&path("/d", "a")));
}

#[test]
fn create_then_delete_scenario() {
    let mut list = FileList::new();
    list.add(path("/D", "abc1234567"));
    assert_eq!(list.len(), 1);
    assert_eq!(list.path_at(0).unwrap().file_name(), "abc1234567");
    assert!(list.record_delete(0));
    list.reconcile();
    assert_eq!(list.len(), 0);
    assert!(!list.contains(&path("/D", "abc1234567")));
}
