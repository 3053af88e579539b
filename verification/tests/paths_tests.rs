use utopian::paths::{chars_are, ends_with_path, extension_of, path_components_of};

fn strings(components: Vec<Vec<char>>) -> Vec<String> {
    components.into_iter().map(|c| c.into_iter().collect()).collect()
}

#[test]
fn components_skip_empty_and_current_directory() {
    assert_eq!(strings(path_components_of("utopian/shaders/a.frag")), vec!["utopian", "shaders", "a.frag"]);
    assert_eq!(strings(path_components_of("//home/./u//x/")), vec!["/", "home", "u", "x"]);
    assert_eq!(strings(path_components_of("a/../b")), vec!["a", "..", "b"]);
    assert!(path_components_of("").is_empty());
    assert_eq!(strings(path_components_of("/./")), vec!["/"]);
    assert_eq!(strings(path_components_of("./a/./b")), vec![".", "a", "b"]);
    assert_eq!(strings(path_components_of(".")), vec!["."]);
    assert_eq!(strings(path_components_of(".a/..")), vec![".a", ".."]);
}

#[test]
fn paths_end_with_whole_components() {
    assert!(ends_with_path("/home/u/utopian/shaders/a.frag", "utopian/shaders/a.frag"));
    assert!(ends_with_path("//home/u/shaders/a.frag", "shaders/./a.frag"));
    assert!(!ends_with_path("/home/u/myshaders/a.frag", "shaders/a.frag"));
    assert!(!ends_with_path("a.frag", "shaders/a.frag"));
    assert!(ends_with_path("x/a.frag", ""));
    // the root and a leading current directory are components too
    assert!(!ends_with_path("/x/a.frag", "/a.frag"));
    assert!(!ends_with_path("x/a.frag", "./a.frag"));
    assert!(ends_with_path("./a.frag", "./a.frag"));
    assert!(ends_with_path("/home/a.frag", "/home/a.frag"));
}

#[test]
fn extensions_of_the_last_component() {
    let ext = |p: &str| extension_of(p).map(|e| e.into_iter().collect::<String>());
    assert_eq!(ext("shaders/include/pbr.glsl"), Some("glsl".to_string()));
    assert_eq!(ext("archive.tar.gz"), Some("gz".to_string()));
    assert_eq!(ext("name."), Some(String::new()));
    assert_eq!(ext("shaders/.hidden"), None);
    assert_eq!(ext("shaders/README"), None);
    assert_eq!(ext("a.frag/."), Some("frag".to_string()));
    assert_eq!(ext("/"), None);
    assert_eq!(ext("."), None);
    assert_eq!(ext("shaders/.."), None);
    assert_eq!(ext("shaders.d/"), Some("d".to_string()));
    assert_eq!(ext("/"), None);
}

#[test]
fn characters_compare_with_text() {
    assert!(chars_are(&vec!['r', 'g', 'e', 'n'], "rgen"));
    assert!(!chars_are(&vec!['r', 'g', 'e'], "rgen"));
    assert!(!chars_are(&vec!['r', 'g', 'e', 'N'], "rgen"));
    assert!(chars_are(&vec![], ""));
}
