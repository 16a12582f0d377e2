use lidar_batch::outcome::BatchError;
use lidar_batch::paths::{
    append_separator, file_extension, get_file_extension, has_source_extension, place_target,
    resolve,
};

#[test]
fn extension_follows_the_last_dot() {
    assert_eq!(get_file_extension("a.zlidar", '/'), "zlidar");
    assert_eq!(get_file_extension("dir/b.ZLIDAR", '/'), "ZLIDAR");
    assert_eq!(get_file_extension("archive.tar.gz", '/'), "gz");
    assert_eq!(get_file_extension("/data.dir/tile.las", '/'), "las");
    assert_eq!(get_file_extension("C:\\data\\tile.zlidar", '\\'), "zlidar");
    assert_eq!(get_file_extension("C:\\data/tile.zlidar", '\\'), "zlidar");
    assert_eq!(get_file_extension("dir/.hidden.txt", '/'), "txt");
}

#[test]
fn extension_may_be_empty() {
    assert_eq!(get_file_extension("a.", '/'), "");
    assert_eq!(file_extension("a.", '/'), Some(String::new()));
}

#[test]
fn backslash_separates_only_where_it_is_the_separator() {
    assert_eq!(get_file_extension("a\\.b", '/'), "b");
    assert_eq!(get_file_extension("a.b\\c", '/'), "b\\c");
    assert_eq!(file_extension("a\\.b", '\\'), None);
    assert_eq!(file_extension("a.b\\c", '\\'), None);
    assert_eq!(file_extension("data.dir\\file", '/'), Some("dir\\file".to_string()));
    assert_eq!(file_extension("data.dir\\file", '\\'), None);
}

#[test]
fn separators_and_dot_components_at_the_end_are_passed_over() {
    assert_eq!(get_file_extension("a/b.txt/", '/'), "txt");
    assert_eq!(get_file_extension("a/b.txt/.", '/'), "txt");
    assert_eq!(get_file_extension("a/b.txt//./", '/'), "txt");
    assert_eq!(get_file_extension("b.txt\\", '\\'), "txt");
    assert_eq!(file_extension("dir.d/", '/'), Some("d".to_string()));
    assert_eq!(file_extension("a.b/..", '/'), None);
    assert_eq!(file_extension("a.b/c", '/'), None);
}

#[test]
fn names_without_extension() {
    for path in ["abc", "", ".bashrc", "dir/.bashrc", "..", "dir/..", "data.dir/file", ".", "./", "/", "/."] {
        assert_eq!(file_extension(path, '/'), None, "{}", path);
    }
}

#[test]
fn file_extension_agrees_with_get_file_extension() {
    for path in ["a.zlidar", "x/y.z", "a.b.c", "...", "a..b", "a.b/"] {
        assert_eq!(file_extension(path, '/'), Some(get_file_extension(path, '/')));
    }
    assert_eq!(file_extension("...", '/'), Some(String::new()));
    assert_eq!(file_extension("a..b", '/'), Some("b".to_string()));
}

/// Every text of up to `length` characters over `alphabet`.
fn texts_over(alphabet: &[char], length: usize) -> Vec<String> {
    let mut all = vec![String::new()];
    let mut last = vec![String::new()];
    for _ in 0..length {
        let mut next = Vec::new();
        for text in &last {
            for c in alphabet {
                let mut longer = text.clone();
                longer.push(*c);
                next.push(longer);
            }
        }
        all.extend(next.iter().cloned());
        last = next;
    }
    all
}

#[test]
fn extension_agrees_with_the_standard_library() {
    let separator = std::path::MAIN_SEPARATOR;
    if separator != '/' {
        return;
    }
    for path in texts_over(&['a', 'B', '.', '/', '\\'], 7) {
        let expected = std::path::Path::new(&path)
            .extension()
            .map(|e| e.to_str().unwrap().to_string());
        assert_eq!(file_extension(&path, separator), expected, "{:?}", path);
    }
}

#[test]
fn source_extension_is_matched_in_any_case() {
    assert!(has_source_extension("a.zlidar", '/'));
    assert!(has_source_extension("A.ZLIDAR", '/'));
    assert!(has_source_extension("dir/a.ZLidar", '/'));
    assert!(has_source_extension("a.zlidar/", '/'));
    assert!(!has_source_extension("a.las", '/'));
    assert!(!has_source_extension("a.zlidar.bak", '/'));
    assert!(!has_source_extension("zlidar", '/'));
    assert!(!has_source_extension("a.zlidar/b", '/'));
    assert!(!has_source_extension("a.zlidarx", '/'));
    assert!(!has_source_extension("a.zlida", '/'));
}

#[test]
fn source_extension_matches_in_any_case_of_any_script() {
    for code in 0..0x11_0000u32 {
        if let Some(c) = char::from_u32(code) {
            for path in [format!("a.{}lidar", c), format!("a.zl{}dar", c), format!("a.zlida{}", c)] {
                let expected = match file_extension(&path, '/') {
                    Some(extension) => extension.to_lowercase() == "zlidar",
                    None => false,
                };
                assert_eq!(has_source_extension(&path, '/'), expected, "U+{:04X}", code);
            }
        }
    }
}

#[test]
fn bare_file_name_is_looked_for_in_the_working_directory() {
    assert_eq!(resolve("a.zlidar", "/wd/", '/'), "/wd/a.zlidar");
    assert_eq!(resolve("a.zlidar", "", '/'), "a.zlidar");
    assert_eq!(resolve("", "/wd/", '/'), "/wd/");
    assert_eq!(resolve("a\\b.zlidar", "/wd/", '/'), "/wd/a\\b.zlidar");
}

#[test]
fn path_with_a_separator_is_taken_as_it_is() {
    assert_eq!(resolve("dir/b.zlidar", "/wd/", '/'), "dir/b.zlidar");
    assert_eq!(resolve("/abs/b.zlidar", "/wd/", '/'), "/abs/b.zlidar");
    assert_eq!(resolve("./b.zlidar", "/wd/", '/'), "./b.zlidar");
    assert_eq!(resolve("dir\\b.zlidar", "C:\\wd\\", '\\'), "dir\\b.zlidar");
    assert_eq!(resolve("dir/b.zlidar", "C:\\wd\\", '\\'), "dir/b.zlidar");
}

#[test]
fn output_directory_ends_in_a_separator() {
    assert_eq!(append_separator("/out", '/'), "/out/");
    assert_eq!(append_separator("/out/", '/'), "/out/");
    assert_eq!(append_separator("", '/'), "");
    assert_eq!(append_separator("C:\\out", '\\'), "C:\\out\\");
    assert_eq!(append_separator("C:\\out\\", '\\'), "C:\\out\\");
    assert_eq!(append_separator("out/", '\\'), "out/\\");
}

#[test]
fn output_path_beside_the_source() {
    assert_eq!(place_target("a.zlidar", "a", "", '/'), Ok("a.las".to_string()));
    assert_eq!(place_target("/wd/a.zlidar", "a", "", '/'), Ok("/wd/a.las".to_string()));
    assert_eq!(place_target("dir/B.ZLIDAR", "B", "", '/'), Ok("dir/B.las".to_string()));
    assert_eq!(place_target("C:\\wd\\a.zlidar", "a", "", '\\'), Ok("C:\\wd\\a.las".to_string()));
}

#[test]
fn output_path_in_the_output_directory() {
    let outdir = append_separator("/out", '/');
    assert_eq!(place_target("dir/b.zlidar", "b", &outdir, '/'), Ok("/out/b.las".to_string()));
}

#[test]
fn only_the_extension_is_replaced() {
    assert_eq!(place_target("a.zlidar.zlidar", "a", "", '/'), Ok("a.zlidar.las".to_string()));
    assert_eq!(
        place_target("tiles.zlidar/a.zlidar", "a", "", '/'),
        Ok("tiles.zlidar/a.las".to_string())
    );
    assert_eq!(place_target("a.zlidar/", "a", "", '/'), Ok("a.las/".to_string()));
    assert_eq!(place_target("d/a.zlidar/./", "a", "", '/'), Ok("d/a.las/./".to_string()));
}

#[test]
fn wrong_extension_ends_the_batch() {
    assert_eq!(place_target("a.las", "a", "", '/'), Err(BatchError::WrongExtension));
    assert_eq!(place_target("a.las", "a", "/out/", '/'), Err(BatchError::WrongExtension));
    assert_eq!(place_target("a", "a", "", '/'), Err(BatchError::WrongExtension));
    assert_eq!(place_target("dir.zlidar/a", "a", "/out/", '/'), Err(BatchError::WrongExtension));
}

#[test]
fn distinct_sources_get_distinct_targets() {
    let sources = ["a.zlidar", "b.zlidar", "dir/a.zlidar", "dir/b.zlidar", "a.b.zlidar", "a.zlidar/"];
    let mut targets: Vec<String> =
        sources.iter().map(|s| place_target(s, "x", "", '/').unwrap()).collect();
    targets.sort();
    targets.dedup();
    assert_eq!(targets.len(), sources.len());
    let mut targets: Vec<String> = ["a", "b", "c"]
        .iter()
        .map(|name| place_target("same.zlidar", name, "/out/", '/').unwrap())
        .collect();
    targets.sort();
    targets.dedup();
    assert_eq!(targets.len(), 3);
}

#[test]
fn sources_that_differ_in_the_case_of_the_extension_share_a_target() {
    assert_eq!(place_target("a.zlidar", "a", "", '/'), place_target("a.ZLIDAR", "a", "", '/'));
}
