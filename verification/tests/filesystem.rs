use vivs_images_webserver::filesystem::images::{
    change_base_path, change_base_path_of_paths, has_extension, IMAGE_EXTENSIONS, TEXT_EXTENSIONS,
};

#[test]
fn image_extensions_match_without_regard_to_case() {
    assert!(has_extension("holiday.jpg", &IMAGE_EXTENSIONS));
    assert!(has_extension("HOLIDAY.JPG", &IMAGE_EXTENSIONS));
    assert!(has_extension("scan.Jpeg", &IMAGE_EXTENSIONS));
    assert!(has_extension("x.webp", &IMAGE_EXTENSIONS));
    assert!(!has_extension("notes.txt", &IMAGE_EXTENSIONS));
    assert!(!has_extension("archive.jpg.zip", &IMAGE_EXTENSIONS));
    assert!(!has_extension("jpg", &IMAGE_EXTENSIONS));
}

#[test]
fn text_extensions_match() {
    assert!(has_extension("page.TXT", &TEXT_EXTENSIONS));
    assert!(!has_extension("page.png", &TEXT_EXTENSIONS));
    assert!(!has_extension("page.txt", &[]));
}

#[test]
fn change_base_path_replaces_the_prefix() {
    assert_eq!(
        change_base_path("/home/a/pics/x.jpg", "/home/a/pics", "/mnt/b"),
        Some("/mnt/b/x.jpg".to_string())
    );
    assert_eq!(change_base_path("/other/x.jpg", "/home/a/pics", "/mnt/b"), None);
    assert_eq!(change_base_path("/p", "/p", ""), Some("".to_string()));
}

#[test]
fn change_base_path_back_gives_the_path_again() {
    let moved = change_base_path("/a/b/c.txt", "/a", "/zz").unwrap();
    assert_eq!(moved, "/zz/b/c.txt");
    assert_eq!(change_base_path(&moved, "/zz", "/a"), Some("/a/b/c.txt".to_string()));
}

#[test]
fn change_base_path_of_paths_keeps_only_paths_under_the_base() {
    let files = vec![
        "/docs/one.txt".to_string(),
        "/elsewhere/two.txt".to_string(),
        "/docs/sub/three.txt".to_string(),
    ];
    let r = change_base_path_of_paths(files, "/docs".to_string(), "/export".to_string()).unwrap();
    assert_eq!(r, vec!["/export/one.txt".to_string(), "/export/sub/three.txt".to_string()]);
}
