use bulk_download::download::Download;
use bulk_download::error::DiscoveryError;
use bulk_download::mode::{
    select_mode, single_download, single_from, transfer_request, Config, Mode, TransferRequest,
    DEFAULT_CONCURRENCY, DEFAULT_RETRIES,
};
use bulk_download::report::{aggregate, failure_line, Report, Status, Summary};

fn download(url: &str, filename: &str) -> Download {
    Download { url: url.to_string(), filename: filename.to_string() }
}

fn summary(url: &str, status: Status) -> Summary {
    Summary { download: download(url, "file"), status }
}

#[test]
fn defaults_are_three_retries_and_thirty_two_downloads() {
    assert_eq!(DEFAULT_RETRIES, 3);
    assert_eq!(DEFAULT_CONCURRENCY, 32);
    let config = Config::new("dir".to_string());
    assert_eq!(
        config,
        Config { retries: 3, concurrency: 32, url: None, dir: "dir".to_string(), output_dir: None }
    );
}

#[test]
fn a_url_selects_single_mode() {
    let mut config = Config::new("dir".to_string());
    config.url = Some("https://example.org/a.dat".to_string());
    let mode = select_mode(&config);
    assert_eq!(
        mode,
        Mode::Single { url: "https://example.org/a.dat".to_string(), output_dir: "dir".to_string() }
    );
    assert_eq!(mode.output_dir(), "dir");
    let downloads = match &mode {
        Mode::Single { url, .. } => single_download(url),
        Mode::Bulk { .. } => panic!("no scan in single mode"),
    };
    assert_eq!(downloads, Ok(vec![download("https://example.org/a.dat", "a.dat")]));
}

#[test]
fn single_mode_saves_into_the_data_directory() {
    let config = Config {
        retries: 0,
        concurrency: 1,
        url: Some("https://example.org/a.dat".to_string()),
        dir: "dir".to_string(),
        output_dir: Some("elsewhere".to_string()),
    };
    assert_eq!(select_mode(&config).output_dir(), "dir");
}

#[test]
fn without_a_url_the_data_directory_is_scanned() {
    let config = Config::new("in".to_string());
    assert_eq!(
        select_mode(&config),
        Mode::Bulk { scan_root: "in".to_string(), output_dir: "in".to_string() }
    );
}

#[test]
fn bulk_mode_saves_into_the_output_directory_given() {
    let mut config = Config::new("in".to_string());
    config.output_dir = Some("out".to_string());
    let mode = select_mode(&config);
    assert_eq!(mode, Mode::Bulk { scan_root: "in".to_string(), output_dir: "out".to_string() });
    assert_eq!(mode.output_dir(), "out");
}

#[test]
fn single_download_normalises_the_url() {
    assert_eq!(
        single_download("HTTP://EXAMPLE.org:80/a/./b/file.zip"),
        Ok(vec![download("http://example.org/a/b/file.zip", "file.zip")])
    );
}

#[test]
fn single_download_rejects_what_is_no_url() {
    assert!(matches!(single_download("a.dat"), Err(DiscoveryError::MalformedUrl(_))));
}

#[test]
fn failure_line_names_url_and_reason() {
    assert_eq!(
        failure_line("https://example.org/a.dat", "timed out"),
        "Failed to download https://example.org/a.dat: timed out"
    );
    assert_eq!(failure_line("", ""), "Failed to download : ");
}

#[test]
fn all_downloads_succeed() {
    let summaries = vec![
        summary("https://example.org/a.dat", Status::Success),
        summary("https://example.org/b.dat", Status::Success),
        summary("https://example.org/c.dat", Status::Success),
    ];
    let report = aggregate(&summaries);
    assert_eq!(report, Report { failures: vec![] });
    assert!(report.all_succeeded());
    assert_eq!(report.exit_code(), 0);
    assert_eq!(report.error_message(), None);
}

#[test]
fn one_of_three_downloads_fails() {
    let summaries = vec![
        summary("https://example.org/a.dat", Status::Success),
        summary(
            "https://example.org/b.dat",
            Status::Fail("HTTP status server error (500)".to_string()),
        ),
        summary("https://example.org/c.dat", Status::Success),
    ];
    let report = aggregate(&summaries);
    assert_eq!(
        report.failures,
        vec!["Failed to download https://example.org/b.dat: HTTP status server error (500)"]
    );
    assert!(!report.all_succeeded());
    assert_ne!(report.exit_code(), 0);
    assert_eq!(report.exit_code(), 1);
    assert_eq!(report.error_message(), Some("Some downloads failed."));
}

#[test]
fn failure_lines_follow_the_order_of_the_summaries() {
    let summaries = vec![
        summary("https://example.org/3", Status::Fail("c".to_string())),
        summary("https://example.org/1", Status::Success),
        summary("https://example.org/2", Status::Fail("a".to_string())),
        summary("https://example.org/3", Status::Fail("b".to_string())),
    ];
    assert_eq!(
        aggregate(&summaries).failures,
        vec![
            "Failed to download https://example.org/3: c",
            "Failed to download https://example.org/2: a",
            "Failed to download https://example.org/3: b",
        ]
    );
}

#[test]
fn only_a_failed_status_counts_as_failure() {
    let summaries = vec![
        summary("https://example.org/1", Status::NotStarted),
        summary(
            "https://example.org/2",
            Status::Skipped("the file was already fully downloaded".to_string()),
        ),
        summary("https://example.org/3", Status::Success),
    ];
    let report = aggregate(&summaries);
    assert!(report.all_succeeded());
    assert_eq!(report.exit_code(), 0);
}

#[test]
fn a_download_that_failed_every_attempt_is_never_a_success() {
    let status = Status::Fail("gave up after 4 attempts".to_string());
    let summaries = vec![summary("https://example.org/1", status)];
    let report = aggregate(&summaries);
    assert!(!report.all_succeeded());
    assert_eq!(
        report.failures,
        vec!["Failed to download https://example.org/1: gave up after 4 attempts"]
    );
}

#[test]
fn no_download_is_a_success() {
    let report = aggregate(&vec![]);
    assert!(report.all_succeeded());
    assert_eq!(report.exit_code(), 0);
}

#[test]
fn settings_pass_through_to_the_transfer() {
    let config = Config {
        retries: 7,
        concurrency: 5,
        url: None,
        dir: "in".to_string(),
        output_dir: Some("out".to_string()),
    };
    let downloads = vec![download("https://example.org/a.dat", "a.dat")];
    assert_eq!(
        transfer_request(&config, downloads),
        TransferRequest {
            downloads: vec![download("https://example.org/a.dat", "a.dat")],
            output_dir: "out".to_string(),
            retries: 7,
            concurrency: 5,
        }
    );
    let single = Config {
        retries: 0,
        concurrency: 1,
        url: Some("https://example.org/a.dat".to_string()),
        dir: "dir".to_string(),
        output_dir: None,
    };
    let request = transfer_request(&single, vec![]);
    assert_eq!(request.output_dir, "dir");
    assert_eq!(request.retries, 0);
    assert_eq!(request.concurrency, 1);
}

#[test]
fn single_mode_has_exactly_one_download() {
    assert_eq!(
        single_from(Ok(download("https://example.org/a.dat", "a.dat"))),
        Ok(vec![download("https://example.org/a.dat", "a.dat")])
    );
    assert_eq!(
        single_from(Err("no url".to_string())),
        Err(DiscoveryError::MalformedUrl("no url".to_string()))
    );
}
