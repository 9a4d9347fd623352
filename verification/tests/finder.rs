use codecrafters_shell::finder::{find_executable, join_path, Search};

/// Drives the search with the file system given as a list of
/// (file, is executable) entries; returns the result and the files asked about.
fn search(name: &str, dirs: &[&str], files: &[(&str, bool)]) -> (Option<String>, Vec<String>) {
    let paths: Vec<String> = dirs.iter().map(|d| d.to_string()).collect();
    let mut answers = Vec::new();
    let mut asked = Vec::new();
    loop {
        match find_executable(name, &paths, &answers) {
            Search::Probe(file) => {
                let exec = files.iter().any(|(f, x)| *f == file && *x);
                asked.push(file);
                answers.push(exec);
            }
            Search::Done(found) => return (found, asked),
        }
    }
}

#[test]
fn single_path_with_executable() {
    let (found, _) = search("my_file", &["/tmp/d0"], &[("/tmp/d0/my_file", true)]);
    assert_eq!(found, Some("/tmp/d0/my_file".to_string()));
}

#[test]
fn single_path_without_file() {
    let (found, _) = search("my_file", &["/tmp/d0"], &[]);
    assert!(found.is_none());
}

#[test]
fn single_path_with_file_no_executable() {
    let (found, _) = search("my_file", &["/tmp/d0"], &[("/tmp/d0/my_file", false)]);
    assert!(found.is_none());
}

#[test]
fn multiple_paths_with_one_executable() {
    let (found, _) =
        search("my_file", &["/tmp/d0", "/tmp/d1", "/tmp/d2"], &[("/tmp/d1/my_file", true)]);
    assert_eq!(found, Some("/tmp/d1/my_file".to_string()));
}

#[test]
fn multiple_paths_with_multiple_executables() {
    let (found, asked) = search(
        "my_file",
        &["/tmp/d0", "/tmp/d1", "/tmp/d2"],
        &[("/tmp/d1/my_file", true), ("/tmp/d2/my_file", true)],
    );
    assert_eq!(found, Some("/tmp/d1/my_file".to_string()));
    assert_eq!(asked, vec!["/tmp/d0/my_file".to_string(), "/tmp/d1/my_file".to_string()]);
}

#[test]
fn multiple_paths_without_file() {
    let (found, asked) = search("my_file", &["/tmp/d0", "/tmp/d1", "/tmp/d2"], &[]);
    assert!(found.is_none());
    assert_eq!(asked.len(), 3);
}

#[test]
fn multiple_paths_with_one_executable_and_one_non_executable() {
    let (found, _) = search(
        "my_file",
        &["/tmp/d0", "/tmp/d1", "/tmp/d2"],
        &[("/tmp/d1/my_file", false), ("/tmp/d2/my_file", true)],
    );
    assert_eq!(found, Some("/tmp/d2/my_file".to_string()));
}

#[test]
fn empty_name_does_not_match_when_path_entry_is_a_file() {
    let (found, asked) = search("", &["/tmp/d0/bash"], &[("/tmp/d0/bash", true)]);
    assert!(found.is_none());
    assert!(asked.is_empty());
}

#[test]
fn no_search_path_finds_nothing() {
    let (found, asked) = search("ls", &[], &[]);
    assert!(found.is_none());
    assert!(asked.is_empty());
}

#[test]
fn paths_are_joined_like_path_join() {
    for (dir, name) in [("/usr/bin", "ls"), ("/usr/bin/", "ls"), ("", "ls"), ("bin", "/abs/ls"), ("a", "b/c")] {
        let expected = std::path::Path::new(dir).join(name);
        assert_eq!(join_path(&dir.to_string(), name), expected.to_str().unwrap());
    }
}
