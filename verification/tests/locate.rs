use quantified_core::collectors::base::Collector;
use quantified_core::collectors::chrome::ChromeCollector;
use quantified_core::collectors::messages::MessagesCollector;
use quantified_core::collectors::podcasts::PodcastsCollector;
use quantified_core::find_source_db;
use quantified_core::locate::{
    discover_chrome_history_db, discover_podcasts_db, expand_paths, first_present,
    looks_like_profile, newest_profile, podcasts_match, ScannedDir,
};
use quantified_core::open_unified_db;
use quantified_core::types::ExtractionConfig;
use tempfile::TempDir;

fn entry(name: &str, is_dir: bool, exists: bool, modified: Option<i128>) -> ScannedDir {
    ScannedDir {
        name: name.to_string(),
        is_dir,
        target_exists: exists,
        target_size: Some(7),
        target_modified: modified,
    }
}

#[test]
fn the_most_recently_modified_profile_is_picked() {
    let entries = vec![
        entry("Default", true, true, Some(100)),
        entry("Profile 1", true, true, Some(300)),
        entry("Profile 2", true, true, Some(200)),
    ];
    assert_eq!(newest_profile(&entries), Some(1));
    assert_eq!(
        discover_chrome_history_db("/home/u/Chrome", &entries),
        Some("/home/u/Chrome/Profile 1/History".to_string())
    );
}

#[test]
fn of_profiles_equally_new_the_first_is_picked() {
    let entries = vec![
        entry("Profile 3", true, true, Some(500)),
        entry("Default", true, true, Some(500)),
        entry("Guest Profile", true, true, Some(499)),
    ];
    assert_eq!(newest_profile(&entries), Some(0));
    assert_eq!(
        discover_chrome_history_db("/c/", &entries),
        Some("/c/Profile 3/History".to_string())
    );
}

#[test]
fn only_dated_profiles_that_hold_a_history_count() {
    let entries = vec![
        entry("Crashpad", true, true, Some(900)),
        entry("Profile 1", false, true, Some(800)),
        entry("Profile 2", true, false, Some(700)),
        entry("Profile 3", true, true, None),
        entry("Profile", true, true, Some(600)),
        entry("profile 4", true, true, Some(500)),
        entry("Guest Profile", true, true, Some(-40)),
        entry("Default", true, true, Some(-50)),
    ];
    assert_eq!(newest_profile(&entries), Some(6));
    assert_eq!(newest_profile(&entries[..6]), None);
    assert_eq!(discover_chrome_history_db("/c", &entries[..6]), None);
    assert_eq!(discover_chrome_history_db("/c", &[]), None);
}

#[test]
fn profile_names() {
    assert!(looks_like_profile("Default"));
    assert!(looks_like_profile("Profile 1"));
    assert!(looks_like_profile("Profile "));
    assert!(looks_like_profile("Guest Profile"));
    assert!(!looks_like_profile("Profile"));
    assert!(!looks_like_profile("default"));
    assert!(!looks_like_profile(" Default"));
    assert!(!looks_like_profile("System Profile"));
    assert!(!looks_like_profile(""));
}

#[test]
fn the_first_container_of_the_vendor_is_picked() {
    let entries = vec![
        entry("group.com.apple.notes", true, true, None),
        entry("ABC.groups.com.apple.podcasts", true, false, None),
        entry("DEF.groups.com.apple.podcasts", false, true, None),
        entry("243LU875E5.groups.com.apple.podcasts", true, true, None),
        entry(".groups.com.apple.podcasts", true, true, None),
    ];
    assert_eq!(podcasts_match(&entries), Some(3));
    assert_eq!(
        discover_podcasts_db("/gc", &entries),
        Some(
            "/gc/243LU875E5.groups.com.apple.podcasts/Documents/MTLibrary.sqlite".to_string()
        )
    );
    assert_eq!(discover_podcasts_db("/gc", &entries[..3]), None);
    assert_eq!(podcasts_match(&entries[4..]), Some(0));
}

#[test]
fn the_first_path_that_exists_is_taken() {
    let paths = vec!["/a".to_string(), "/b".to_string(), "/c".to_string()];
    assert_eq!(first_present(&paths, &[false, true, true]), Some("/b".to_string()));
    assert_eq!(find_source_db(&paths, &[false, true, true]), Some("/b".to_string()));
    assert_eq!(find_source_db(&paths, &[true, true, true]), Some("/a".to_string()));
    assert_eq!(find_source_db(&paths, &[false, false, false]), None);
    assert_eq!(find_source_db(&paths, &[false, false]), None);
    assert_eq!(find_source_db(&paths, &[]), None);
    assert_eq!(find_source_db(&paths[..1], &[false, true]), None);
    assert_eq!(find_source_db(&[], &[true]), None);
}

#[test]
fn paths_without_a_tilde_stay_as_they_are() {
    let paths = vec!["/abs/x.db".to_string(), "rel/y.db".to_string(), "a~b".to_string(), String::new()];
    assert_eq!(expand_paths(&paths), paths);
    let expanded = expand_paths(&["~/Library/x.db".to_string(), "~other/x".to_string()]);
    assert!(expanded[0].ends_with("/Library/x.db"));
    assert_eq!(expanded[1], "~other/x");
}

#[test]
fn a_leading_tilde_becomes_the_home_directory() {
    let home = shellexpand::tilde("~").into_owned();
    let expanded = expand_paths(&["~/Library/x.db".to_string(), "~".to_string()]);
    assert_eq!(expanded[0], format!("{}/Library/x.db", home));
    assert_eq!(expanded[1], home);
    assert_ne!(expanded[0], "~/Library/x.db");
}

#[test]
fn a_found_path_has_its_tilde_expanded() {
    let home = shellexpand::tilde("~").into_owned();
    let paths = vec!["~/Library/x.db".to_string(), "/abs/y.db".to_string()];
    assert_eq!(find_source_db(&paths, &[true, true]), Some(format!("{}/Library/x.db", home)));
    assert_eq!(find_source_db(&paths, &[false, true]), Some("/abs/y.db".to_string()));
    assert_eq!(find_source_db(&paths, &[false, false]), None);
}

#[test]
fn a_collector_searches_its_own_paths() {
    let dir = TempDir::new().unwrap();
    let out = dir.path().to_str().unwrap().to_string();
    let config = ExtractionConfig::with_output_dir(out.clone());
    let unified = open_unified_db(&out).unwrap();
    let chrome = ChromeCollector::new(&config, &unified).unwrap();
    let candidates = chrome.candidate_paths();
    assert_eq!(candidates.len(), 1);
    assert!(candidates[0].ends_with("/Library/Application Support/Google/Chrome/Default/History"));
    let root = chrome.discovery_root().unwrap();
    assert!(root.ends_with("/Library/Application Support/Google/Chrome"));
    assert_eq!(chrome.snapshot_path(), format!("{}/source_dbs/chrome.db", out));

    let scanned = vec![
        entry("Default", true, true, Some(1)),
        entry("Profile 9", true, true, Some(2)),
    ];
    assert_eq!(
        chrome.find_source_db(&candidates, &[true], "/c", &scanned),
        Some(candidates[0].clone())
    );
    assert_eq!(
        chrome.find_source_db(&candidates, &[false], "/c", &scanned),
        Some("/c/Profile 9/History".to_string())
    );
    assert_eq!(chrome.find_source_db(&candidates, &[false], "/c", &[]), None);

    let podcasts = PodcastsCollector::new(&config, &unified).unwrap();
    assert!(podcasts.discovery_root().unwrap().ends_with("/Library/Group Containers"));
    let containers = vec![entry("X.groups.com.apple.podcasts", true, true, None)];
    assert_eq!(
        podcasts.find_source_db(&[], &[], "/gc", &containers),
        Some("/gc/X.groups.com.apple.podcasts/Documents/MTLibrary.sqlite".to_string())
    );

    let messages = MessagesCollector::new(&config, &unified).unwrap();
    assert_eq!(messages.discovery_root(), None);
    assert_eq!(messages.find_source_db(&candidates, &[false], "/c", &scanned), None);
}

#[test]
fn custom_paths_replace_the_defaults() {
    let dir = TempDir::new().unwrap();
    let out = dir.path().to_str().unwrap().to_string();
    let config = ExtractionConfig::with_output_dir(out.clone())
        .with_custom_paths(vec!["/data/one.db".to_string(), "/data/two.db".to_string()]);
    let unified = open_unified_db(&out).unwrap();
    let chrome = ChromeCollector::new(&config, &unified).unwrap();
    assert_eq!(
        chrome.candidate_paths(),
        vec!["/data/one.db".to_string(), "/data/two.db".to_string()]
    );
}
