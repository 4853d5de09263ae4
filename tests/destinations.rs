use file_batches::{
    decimal_string, dest_dir, dest_file, dir_name, progress_line, progress_lines, CopyError,
};

#[test]
fn destination_sits_beside_the_source_file() {
    assert_eq!(dest_dir("/src/photos/a.jpg", "out", 2), Ok("/src/photos/out_2".to_string()));
    assert_eq!(dest_dir("a/b/c.txt", "batch", 10), Ok("a/b/batch_10".to_string()));
}

#[test]
fn destination_of_a_bare_file_name_is_relative() {
    assert_eq!(dest_dir("c.txt", "out", 0), Ok("out_0".to_string()));
}

#[test]
fn empty_path_has_no_parent() {
    assert_eq!(dest_dir("", "out", 0), Err(CopyError::NoParent(String::new())));
}

#[test]
fn root_has_no_parent() {
    assert_eq!(dest_dir("/", "out", 0), Err(CopyError::NoParent("/".to_string())));
}

#[test]
fn copied_file_keeps_its_name() {
    assert_eq!(dest_file("/src/a.jpg", "/src/out_1"), Ok("/src/out_1/a.jpg".to_string()));
}

#[test]
fn path_ending_in_parent_component_has_no_file_name() {
    assert_eq!(dest_file("/src/..", "/src/out_1"), Err(CopyError::NoFileName("/src/..".to_string())));
}

#[test]
fn same_batch_copied_twice_targets_the_same_paths() {
    let d1 = dest_dir("/x/y.txt", "o", 3).unwrap();
    let d2 = dest_dir("/x/y.txt", "o", 3).unwrap();
    assert_eq!(d1, d2);
    assert_eq!(dest_file("/x/y.txt", &d1), dest_file("/x/y.txt", &d2));
}

#[test]
fn directory_name_has_the_index_in_decimal() {
    assert_eq!(dir_name("out", 0), "out_0");
    assert_eq!(dir_name("out", 1234), "out_1234");
    assert_eq!(dir_name(".", 7), "._7");
}

#[test]
fn decimal_matches_formatting() {
    for n in [0usize, 9, 10, 99, 100, 4096, usize::MAX] {
        assert_eq!(decimal_string(n), format!("{}", n));
    }
}

#[test]
fn progress_line_names_the_count() {
    assert_eq!(progress_line(100), "Processing 100 files");
    assert_eq!(progress_line(50), "Processing 50 files");
}

#[test]
fn progress_lines_one_per_batch() {
    let bs = vec![vec!["a".to_string(), "b".to_string()], vec!["c".to_string()]];
    assert_eq!(progress_lines(&bs), vec!["Processing 2 files", "Processing 1 files"]);
    assert!(progress_lines(&Vec::new()).is_empty());
}
