use file_batches::{batches, chunk_dir, find_files, Config, ConfigError, Listed};

fn listing(files: usize, dirs: usize) -> Vec<Listed> {
    let mut entries = Vec::new();
    for i in 0..files {
        entries.push(Listed::File(format!("/data/f{}.txt", i)));
        if i < dirs {
            entries.push(Listed::NotFile(format!("/data/sub{}", i)));
        }
    }
    for i in files..dirs {
        entries.push(Listed::NotFile(format!("/data/sub{}", i)));
    }
    entries
}

fn names(n: usize) -> Vec<String> {
    (0..n).map(|i| format!("f{}", i)).collect()
}

#[test]
fn two_hundred_fifty_files_and_a_subdirectory_give_three_batches() {
    let entries = listing(250, 1);
    let bs = chunk_dir(&entries, 100).unwrap();
    let sizes: Vec<usize> = bs.iter().map(|b| b.len()).collect();
    assert_eq!(sizes, vec![100, 100, 50]);
    for b in &bs {
        assert!(b.iter().all(|p| p != "/data/sub0"));
    }
}

#[test]
fn empty_directory_gives_no_batches() {
    let bs = chunk_dir(&Vec::new(), 100).unwrap();
    assert!(bs.is_empty());
}

#[test]
fn zero_batch_size_is_refused() {
    assert_eq!(chunk_dir(&listing(3, 0), 0), Err(ConfigError::ZeroBatchSize));
}

#[test]
fn config_refuses_zero_batch_size() {
    let r = Config::new(".".to_string(), ".".to_string(), 0, true);
    assert!(matches!(r, Err(ConfigError::ZeroBatchSize)));
}

#[test]
fn config_refuses_a_source_that_is_not_a_directory() {
    let r = Config::new("notes.txt".to_string(), ".".to_string(), 0, false);
    assert!(matches!(r, Err(ConfigError::NotADirectory(p)) if p == "notes.txt"));
}

#[test]
fn config_keeps_valid_settings() {
    let c = Config::new("in".to_string(), "out".to_string(), 100, true).unwrap();
    assert_eq!(c.dir, "in");
    assert_eq!(c.output, "out");
    assert_eq!(c.batch_size, 100);
}

#[test]
fn batch_count_is_rounded_up() {
    assert_eq!(batches(&names(7), 3).len(), 3);
    assert_eq!(batches(&names(6), 3).len(), 2);
    assert_eq!(batches(&names(1), 3).len(), 1);
    assert_eq!(batches(&names(0), 3).len(), 0);
    assert_eq!(batches(&names(5), 1).len(), 5);
}

#[test]
fn batches_joined_give_back_the_list() {
    let files = names(11);
    let bs = batches(&files, 4);
    let joined: Vec<String> = bs.concat();
    assert_eq!(joined, files);
    assert_eq!(bs[0], vec!["f0", "f1", "f2", "f3"]);
    assert_eq!(bs[2], vec!["f8", "f9", "f10"]);
}

#[test]
fn last_batch_holds_the_rest() {
    for n in 1..20usize {
        for b in 1..7usize {
            let bs = batches(&names(n), b);
            let last = bs.last().unwrap().len();
            assert!(last >= 1 && last <= b);
            assert!(bs[..bs.len() - 1].iter().all(|x| x.len() == b));
        }
    }
}

#[test]
fn batch_larger_than_the_list_gives_one_batch() {
    let bs = batches(&names(3), 100);
    assert_eq!(bs, vec![names(3)]);
}

#[test]
fn listing_keeps_only_regular_files_in_order() {
    let entries = vec![
        Listed::File("/d/b".to_string()),
        Listed::NotFile("/d/sub".to_string()),
        Listed::Unreadable,
        Listed::File("/d/a".to_string()),
    ];
    assert_eq!(find_files(&entries), vec!["/d/b".to_string(), "/d/a".to_string()]);
}

#[test]
fn subdirectories_never_reach_a_batch() {
    let entries = listing(5, 5);
    let bs = chunk_dir(&entries, 2).unwrap();
    let all: Vec<String> = bs.concat();
    assert_eq!(all.len(), 5);
    assert!(all.iter().all(|p| p.contains("/f")));
}
