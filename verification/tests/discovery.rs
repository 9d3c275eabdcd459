use bulk_download::discover::{collect_downloads, FileContent};
use bulk_download::download::Download;
use bulk_download::error::DiscoveryError;
use bulk_download::extract::{downloads_from_file, extract, place, prefix_filename};
use bulk_download::gather::gather;
use bulk_download::paths::{containing_directory, relative_directory};
use std::collections::HashSet;

fn file(path: &str, content: &str) -> FileContent {
    FileContent { path: path.to_string(), content: content.to_string() }
}

fn download(url: &str, filename: &str) -> Download {
    Download { url: url.to_string(), filename: filename.to_string() }
}

fn tree() -> Vec<FileContent> {
    vec![
        file("/data/a.txt", "https://example.org/a.dat\nhttps://example.org/b.dat"),
        file("/data/subdir/x.txt", "https://example.org/x.dat\nhttps://example.org/y.dat"),
    ]
}

#[test]
fn test_read_urls() {
    let root = "/data";
    let a = format!("{}/{}", root, "a.txt");
    let subdir = format!("{}/{}", root, "subdir");
    let x = format!("{}/{}", subdir, "x.txt");
    let files = vec![
        file(&a, "https://example.org/a.dat\nhttps://example.org/b.dat"),
        file(&x, "https://example.org/x.dat\nhttps://example.org/y.dat"),
    ];
    let downloads = collect_downloads(root, &files).unwrap();
    let actual: HashSet<_> = downloads.iter().map(|d| d.url.as_str()).collect();
    let expected: HashSet<_> = [
        "https://example.org/a.dat",
        "https://example.org/b.dat",
        "https://example.org/x.dat",
        "https://example.org/y.dat",
    ]
    .into_iter()
    .collect();
    assert_eq!(actual, expected);
}

#[test]
fn discovery_mirrors_the_tree_in_file_names() {
    let files = vec![
        file("/data/a.txt", "https://example.org/a.dat https://example.org/b.dat"),
        file("/data/subdir/x.txt", "https://example.org/x.dat\nhttps://example.org/y.dat"),
    ];
    let downloads = collect_downloads("/data", &files).unwrap();
    assert_eq!(
        downloads,
        vec![
            download("https://example.org/a.dat", "a.dat"),
            download("https://example.org/b.dat", "b.dat"),
            download("https://example.org/x.dat", "subdir/x.dat"),
            download("https://example.org/y.dat", "subdir/y.dat"),
        ]
    );
}

#[test]
fn nested_file_prefixes_its_directories() {
    let entries = downloads_from_file(
        "/scan_root",
        "/scan_root/sub/dir/file.txt",
        "https://example.org/files/archive.tar.gz",
    );
    assert_eq!(
        entries,
        vec![Ok(download("https://example.org/files/archive.tar.gz", "sub/dir/archive.tar.gz"))]
    );
}

#[test]
fn file_in_the_scan_root_has_no_prefix() {
    let entries =
        downloads_from_file("/scan_root", "/scan_root/file.txt", "https://example.org/a.dat");
    assert_eq!(entries, vec![Ok(download("https://example.org/a.dat", "a.dat"))]);
}

#[test]
fn relative_scan_root_works_like_an_absolute_one() {
    let entries = downloads_from_file("data", "data/sub/list.txt", "https://example.org/a.dat");
    assert_eq!(entries, vec![Ok(download("https://example.org/a.dat", "sub/a.dat"))]);
}

#[test]
fn relative_directory_is_the_difference_to_the_scan_root() {
    assert_eq!(relative_directory("/data", "/data/sub/dir/f.txt"), Some("sub/dir".to_string()));
    assert_eq!(relative_directory("/data", "/data/f.txt"), Some(String::new()));
    assert_eq!(relative_directory("/data/", "/data/sub/f.txt"), Some("sub".to_string()));
    assert_eq!(relative_directory("/data/in", "/data/other/f.txt"), Some("../other".to_string()));
}

#[test]
fn relative_directory_fails_where_no_path_leads_there() {
    assert_eq!(relative_directory("/data", "sub/f.txt"), None);
    assert_eq!(relative_directory("../data", "sub/f.txt"), None);
}

#[test]
fn file_name_moves_below_the_directory() {
    let moved = prefix_filename("sub/dir", download("https://example.org/a.dat", "a.dat"));
    assert_eq!(moved, download("https://example.org/a.dat", "sub/dir/a.dat"));
    let kept = prefix_filename("", download("https://example.org/a.dat", "a.dat"));
    assert_eq!(kept, download("https://example.org/a.dat", "a.dat"));
}

#[test]
fn extract_reads_the_url_and_names_the_file_after_its_last_segment() {
    assert_eq!(
        extract("sub", "HTTPS://Example.org/dir/../files/report%20final.pdf?x=1"),
        Ok(download("https://example.org/files/report%20final.pdf?x=1", "sub/report final.pdf"))
    );
}

#[test]
fn extract_rejects_what_is_no_url() {
    match extract("sub", "nonsense") {
        Err(DiscoveryError::MalformedUrl(message)) => {
            assert!(message.starts_with("Invalid URL: "));
            assert!(message.contains("nonsense"));
        },
        other => panic!("unexpected: {:?}", other),
    }
}

#[test]
fn extract_rejects_a_url_without_path_segments() {
    let entry = extract("", "mailto:someone@example.org");
    assert!(matches!(entry, Err(DiscoveryError::MalformedUrl(_))));
}

#[test]
fn file_entries_follow_the_order_of_the_text() {
    let entries = downloads_from_file(
        "/data",
        "/data/list.txt",
        " \thttps://example.org/1.dat\r\n\nbad\u{c}https://example.org/2.dat  ",
    );
    assert_eq!(entries.len(), 3);
    assert_eq!(entries[0], Ok(download("https://example.org/1.dat", "1.dat")));
    assert!(matches!(entries[1], Err(DiscoveryError::MalformedUrl(_))));
    assert_eq!(entries[2], Ok(download("https://example.org/2.dat", "2.dat")));
}

#[test]
fn empty_and_blank_files_list_nothing() {
    assert_eq!(downloads_from_file("/data", "/data/empty.txt", ""), vec![]);
    assert_eq!(downloads_from_file("/data", "/data/blank.txt", " \n\t \r\n"), vec![]);
    assert_eq!(collect_downloads("/data", &vec![file("/data/empty.txt", "")]), Ok(vec![]));
    assert_eq!(collect_downloads("/data", &vec![]), Ok(vec![]));
}

#[test]
fn gather_keeps_all_or_gives_the_first_error() {
    let all = vec![Ok(download("u1", "f1")), Ok(download("u2", "f2"))];
    assert_eq!(gather(all), Ok(vec![download("u1", "f1"), download("u2", "f2")]));
    let some = vec![
        Ok(download("u1", "f1")),
        Err(DiscoveryError::MalformedUrl("first".to_string())),
        Ok(download("u2", "f2")),
        Err(DiscoveryError::MalformedUrl("second".to_string())),
    ];
    assert_eq!(gather(some), Err(DiscoveryError::MalformedUrl("first".to_string())));
    assert_eq!(gather(vec![]), Ok(vec![]));
}

#[test]
fn one_malformed_url_fails_the_whole_discovery() {
    let files = vec![
        file("/data/a.txt", "https://example.org/a.dat"),
        file("/data/b.txt", "https://example.org/b.dat not-a-url https://example.org/c.dat"),
        file("/data/c.txt", "also-bad"),
    ];
    match collect_downloads("/data", &files) {
        Err(DiscoveryError::MalformedUrl(message)) => assert!(message.contains("not-a-url")),
        other => panic!("unexpected: {:?}", other),
    }
}

#[test]
fn a_file_outside_the_reach_of_the_scan_root_fails_discovery() {
    let files = vec![
        file("/data/a.txt", "https://example.org/a.dat"),
        file("elsewhere/b.txt", "https://example.org/b.dat"),
    ];
    assert_eq!(
        collect_downloads("/data", &files),
        Err(DiscoveryError::NoRelativePath("elsewhere/b.txt".to_string()))
    );
}

#[test]
fn the_first_failure_in_visit_order_is_reported() {
    let files = vec![
        file("elsewhere/b.txt", "https://example.org/b.dat"),
        file("/data/a.txt", "broken"),
    ];
    assert_eq!(
        collect_downloads("/data", &files),
        Err(DiscoveryError::NoRelativePath("elsewhere/b.txt".to_string()))
    );
    let swapped = vec![
        file("/data/a.txt", "broken"),
        file("elsewhere/b.txt", "https://example.org/b.dat"),
    ];
    assert!(matches!(collect_downloads("/data", &swapped), Err(DiscoveryError::MalformedUrl(_))));
}

#[test]
fn discovered_urls_are_the_tokens_of_all_files() {
    let files = vec![
        file("/data/one.txt", "https://example.org/1 https://example.org/2"),
        file("/data/deep/er/two.txt", "https://example.org/2\thttps://example.net/3"),
        file("/data/three.txt", ""),
    ];
    let downloads = collect_downloads("/data", &files).unwrap();
    let urls: HashSet<&str> = downloads.iter().map(|d| d.url.as_str()).collect();
    let tokens: HashSet<&str> =
        files.iter().flat_map(|f| f.content.split_ascii_whitespace()).collect();
    assert_eq!(urls, tokens);
    assert_eq!(downloads.len(), 4);
}

#[test]
fn visit_order_does_not_change_what_is_discovered() {
    let forward = tree();
    let mut backward = tree();
    backward.reverse();
    let mut one = collect_downloads("/data", &forward).unwrap();
    let mut other = collect_downloads("/data", &backward).unwrap();
    assert_ne!(one, other);
    one.sort_by(|a, b| a.url.cmp(&b.url));
    other.sort_by(|a, b| a.url.cmp(&b.url));
    assert_eq!(one, other);
}

#[test]
fn discovery_gives_the_same_on_a_second_run() {
    let files = tree();
    assert_eq!(collect_downloads("/data", &files), collect_downloads("/data", &files));
}

#[test]
fn duplicate_urls_are_kept() {
    let files = vec![file("/data/a.txt", "https://example.org/a.dat https://example.org/a.dat")];
    assert_eq!(
        collect_downloads("/data", &files),
        Ok(vec![
            download("https://example.org/a.dat", "a.dat"),
            download("https://example.org/a.dat", "a.dat"),
        ])
    );
}

#[test]
fn a_parsed_download_is_placed_below_the_directory() {
    assert_eq!(
        place("sub", Ok(download("https://example.org/a.dat", "a.dat"))),
        Ok(download("https://example.org/a.dat", "sub/a.dat"))
    );
    assert_eq!(
        place("sub", Err("no url".to_string())),
        Err(DiscoveryError::MalformedUrl("no url".to_string()))
    );
}

#[test]
fn the_containing_directory_is_the_parent_if_there_is_one() {
    assert_eq!(containing_directory("/data/sub/f.txt", Some("/data/sub")), "/data/sub");
    assert_eq!(containing_directory("/", None), "/");
    assert_eq!(containing_directory("", None), "");
}
