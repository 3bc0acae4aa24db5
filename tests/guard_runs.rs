use webview_cache_guard::guard::{
    purge_target, Action, Event, Guard, GuardConfig, GuardError, Location, Outcome,
    PurgeStrategy, PURGE_TARGET_COUNT,
};

/// An in-memory disk that performs the guard's actions and records them.
struct SimDisk {
    local_exists: bool,
    marker: Option<String>,
    local: Vec<String>,
    cache: Vec<String>,
    removed: Vec<(Location, String)>,
    writes: usize,
    fail_at: Option<usize>,
    vanish: bool,
    steps: usize,
}

impl SimDisk {
    fn new(marker: Option<&str>, local: &[&str], cache: &[&str]) -> SimDisk {
        SimDisk {
            local_exists: true,
            marker: marker.map(|m| m.to_string()),
            local: local.iter().map(|s| s.to_string()).collect(),
            cache: cache.iter().map(|s| s.to_string()).collect(),
            removed: Vec::new(),
            writes: 0,
            fail_at: None,
            vanish: false,
            steps: 0,
        }
    }

    fn dirs(&mut self, at: Location) -> &mut Vec<String> {
        match at {
            Location::LocalData => &mut self.local,
            Location::Cache => &mut self.cache,
        }
    }

    fn perform(&mut self, action: &Action) -> Event {
        let fail = self.fail_at == Some(self.steps);
        self.steps += 1;
        match action {
            Action::CreateLocalDataDir => {
                if fail {
                    return Event::Failed("permission denied".to_string());
                }
                self.local_exists = true;
                Event::Completed
            }
            Action::ReadMarker => {
                if fail {
                    Event::Marker(None)
                } else {
                    Event::Marker(self.marker.clone())
                }
            }
            Action::CheckDir { at, name } => {
                let present = self.dirs(*at).contains(name);
                Event::Exists(present)
            }
            Action::RemoveDir { at, name } => {
                if fail {
                    return Event::Failed("directory in use".to_string());
                }
                let vanish = self.vanish;
                let dirs = self.dirs(*at);
                let before = dirs.len();
                dirs.retain(|d| d != name);
                let was_there = dirs.len() != before;
                if was_there {
                    self.removed.push((*at, name.clone()));
                }
                if vanish || !was_there {
                    Event::Absent
                } else {
                    Event::Completed
                }
            }
            Action::WriteMarker { content } => {
                if fail || !self.local_exists {
                    return Event::Failed("read-only filesystem".to_string());
                }
                self.marker = Some(content.clone());
                self.writes += 1;
                Event::Completed
            }
            Action::Finish(_) => Event::Completed,
        }
    }
}

fn config(version: &str, cache: bool) -> GuardConfig {
    GuardConfig {
        version: version.to_string(),
        strategy: PurgeStrategy::Active,
        local_data_resolved: true,
        cache_resolved: cache,
    }
}

fn drive(disk: &mut SimDisk, config: GuardConfig) -> Result<Outcome, GuardError> {
    let (mut guard, mut action) = Guard::start(config);
    loop {
        if let Action::Finish(r) = action {
            assert!(guard.is_finished());
            return r;
        }
        assert!(!guard.is_finished());
        let event = disk.perform(&action);
        action = guard.step(event);
    }
}

#[test]
fn scenario_a_no_marker_purges_both_bases() {
    let mut disk = SimDisk::new(None, &["WebView2", "settings"], &["WebView2"]);
    let r = drive(&mut disk, config("1.2.0", true));
    assert!(matches!(r, Ok(Outcome::Purged)));
    assert_eq!(disk.local, vec!["settings".to_string()]);
    assert!(disk.cache.is_empty());
    assert_eq!(
        disk.removed,
        vec![(Location::LocalData, "WebView2".to_string()), (Location::Cache, "WebView2".to_string())]
    );
    assert_eq!(disk.marker.as_deref(), Some("1.2.0"));
}

#[test]
fn scenario_b_matching_marker_touches_nothing() {
    let mut disk = SimDisk::new(Some("1.2.0\n"), &["WebView2"], &["EBWebView"]);
    let r = drive(&mut disk, config("1.2.0", true));
    assert!(matches!(r, Ok(Outcome::Current)));
    assert!(disk.removed.is_empty());
    assert_eq!(disk.writes, 0);
    assert_eq!(disk.marker.as_deref(), Some("1.2.0\n"));
    assert_eq!(disk.local, vec!["WebView2".to_string()]);
    assert_eq!(disk.cache, vec!["EBWebView".to_string()]);
}

#[test]
fn scenario_c_missing_local_data_dir_is_created() {
    let mut disk = SimDisk::new(None, &[], &["WebView2"]);
    disk.local_exists = false;
    let r = drive(&mut disk, config("1.2.0", true));
    assert!(matches!(r, Ok(Outcome::Purged)));
    assert!(disk.local_exists);
    assert!(disk.cache.is_empty());
    assert_eq!(disk.marker.as_deref(), Some("1.2.0"));
}

#[test]
fn second_run_on_same_version_is_noop() {
    let mut disk = SimDisk::new(Some("1.1.0"), &["EBWebView", "webview2"], &["WebView2"]);
    let first = drive(&mut disk, config("1.2.0", true));
    assert!(matches!(first, Ok(Outcome::Purged)));
    assert_eq!(disk.removed.len(), 3);
    disk.local.push("WebView2".to_string());
    let second = drive(&mut disk, config("1.2.0", true));
    assert!(matches!(second, Ok(Outcome::Current)));
    assert_eq!(disk.removed.len(), 3);
    assert_eq!(disk.writes, 1);
    assert_eq!(disk.local, vec!["WebView2".to_string()]);
}

#[test]
fn differing_run_removes_every_present_target() {
    let all = ["EBWebView", "WebView2", "webview2", "logs"];
    let mut disk = SimDisk::new(Some("0.9.0"), &all, &all);
    let r = drive(&mut disk, config("1.0.0", true));
    assert!(matches!(r, Ok(Outcome::Purged)));
    assert_eq!(disk.local, vec!["logs".to_string()]);
    assert_eq!(disk.cache, vec!["logs".to_string()]);
    assert_eq!(disk.removed.len(), 6);
}

#[test]
fn absent_targets_are_no_error() {
    let mut disk = SimDisk::new(Some("0.9.0"), &["logs"], &[]);
    let r = drive(&mut disk, config("1.0.0", true));
    assert!(matches!(r, Ok(Outcome::Purged)));
    assert!(disk.removed.is_empty());
    assert_eq!(disk.local, vec!["logs".to_string()]);
    assert_eq!(disk.marker.as_deref(), Some("1.0.0"));
}

#[test]
fn vanished_target_is_no_error() {
    let mut disk = SimDisk::new(None, &["WebView2"], &["webview2"]);
    disk.vanish = true;
    let r = drive(&mut disk, config("1.0.0", true));
    assert!(matches!(r, Ok(Outcome::Purged)));
    assert_eq!(disk.marker.as_deref(), Some("1.0.0"));
}

#[test]
fn marker_after_success_is_trimmed_version() {
    let mut disk = SimDisk::new(None, &[], &[]);
    let r = drive(&mut disk, config("  2.0.0 \r\n", false));
    assert!(matches!(r, Ok(Outcome::Purged)));
    assert_eq!(disk.marker.as_deref(), Some("2.0.0"));
}

#[test]
fn whitespace_difference_does_not_purge() {
    let mut disk = SimDisk::new(Some("\t 1.2.0  \n\n"), &["WebView2"], &[]);
    let r = drive(&mut disk, config("1.2.0", true));
    assert!(matches!(r, Ok(Outcome::Current)));
    assert!(disk.removed.is_empty());
    assert_eq!(disk.writes, 0);
}

#[test]
fn older_marker_triggers_purge() {
    let mut disk = SimDisk::new(Some("1.1.9"), &["EBWebView"], &[]);
    let r = drive(&mut disk, config("1.2.0", true));
    assert!(matches!(r, Ok(Outcome::Purged)));
    assert_eq!(disk.removed, vec![(Location::LocalData, "EBWebView".to_string())]);
    assert_eq!(disk.marker.as_deref(), Some("1.2.0"));
}

#[test]
fn unreadable_marker_triggers_purge() {
    let mut disk = SimDisk::new(Some("1.2.0"), &["WebView2"], &[]);
    disk.fail_at = Some(1);
    let r = drive(&mut disk, config("1.2.0", false));
    assert!(matches!(r, Ok(Outcome::Purged)));
    assert_eq!(disk.removed.len(), 1);
}

#[test]
fn unresolved_cache_dir_purges_local_data_only() {
    let mut disk = SimDisk::new(None, &["WebView2"], &["WebView2"]);
    let r = drive(&mut disk, config("1.2.0", false));
    assert!(matches!(r, Ok(Outcome::Purged)));
    assert!(disk.local.is_empty());
    assert_eq!(disk.cache, vec!["WebView2".to_string()]);
}

#[test]
fn noop_strategy_skips_everything() {
    let mut disk = SimDisk::new(None, &["WebView2"], &["WebView2"]);
    let mut c = config("1.2.0", true);
    c.strategy = PurgeStrategy::Noop;
    let r = drive(&mut disk, c);
    assert!(matches!(r, Ok(Outcome::Skipped)));
    assert_eq!(disk.steps, 0);
    assert_eq!(disk.marker, None);
}

#[test]
fn unresolved_local_data_dir_is_path_error() {
    let mut disk = SimDisk::new(None, &["WebView2"], &[]);
    let mut c = config("1.2.0", true);
    c.local_data_resolved = false;
    let r = drive(&mut disk, c);
    assert!(matches!(r, Err(GuardError::PathResolution)));
    assert_eq!(disk.steps, 0);
}

#[test]
fn create_failure_is_io_error() {
    let mut disk = SimDisk::new(None, &["WebView2"], &[]);
    disk.fail_at = Some(0);
    let r = drive(&mut disk, config("1.2.0", true));
    match r {
        Err(GuardError::Io(m)) => assert_eq!(m, "permission denied"),
        _ => panic!("expected an I/O error"),
    }
    assert!(disk.removed.is_empty());
}

#[test]
fn removal_failure_stops_the_run() {
    let mut disk = SimDisk::new(None, &["EBWebView", "WebView2"], &["WebView2"]);
    // create, read, check EBWebView, remove EBWebView, check WebView2, remove WebView2
    disk.fail_at = Some(5);
    let r = drive(&mut disk, config("1.2.0", true));
    match r {
        Err(GuardError::Io(m)) => assert_eq!(m, "directory in use"),
        _ => panic!("expected an I/O error"),
    }
    assert_eq!(disk.removed, vec![(Location::LocalData, "EBWebView".to_string())]);
    assert_eq!(disk.cache, vec!["WebView2".to_string()]);
    assert_eq!(disk.marker, None);
    assert_eq!(disk.steps, 6);
}

#[test]
fn write_failure_is_io_error() {
    let mut disk = SimDisk::new(None, &[], &[]);
    // create, read, three checks under each base, write
    disk.fail_at = Some(8);
    let r = drive(&mut disk, config("1.2.0", true));
    match r {
        Err(GuardError::Io(m)) => assert_eq!(m, "read-only filesystem"),
        _ => panic!("expected an I/O error"),
    }
    assert_eq!(disk.marker, None);
}

#[test]
fn unexpected_event_ends_the_run() {
    let (mut guard, action) = Guard::start(config("1.2.0", true));
    assert!(matches!(action, Action::CreateLocalDataDir));
    let action = guard.step(Event::Exists(true));
    assert!(matches!(action, Action::Finish(Err(GuardError::Unexpected))));
    assert!(guard.is_finished());
    let again = guard.step(Event::Completed);
    assert!(matches!(again, Action::Finish(Err(GuardError::Unexpected))));
}

#[test]
fn guard_asks_for_each_target_in_order() {
    let (mut guard, _) = Guard::start(config("1.2.0", false));
    assert!(matches!(guard.step(Event::Completed), Action::ReadMarker));
    let mut action = guard.step(Event::Marker(None));
    for i in 0..PURGE_TARGET_COUNT {
        match action {
            Action::CheckDir { at, name } => {
                assert_eq!(at, Location::LocalData);
                assert_eq!(name, purge_target(i));
            }
            _ => panic!("expected a directory check"),
        }
        action = guard.step(Event::Exists(false));
    }
    match action {
        Action::WriteMarker { content } => assert_eq!(content, "1.2.0"),
        _ => panic!("expected the marker to be written"),
    }
}

#[test]
fn purge_targets_are_the_known_engine_dirs() {
    assert_eq!(PURGE_TARGET_COUNT, 3);
    assert_eq!(purge_target(0), "EBWebView");
    assert_eq!(purge_target(1), "WebView2");
    assert_eq!(purge_target(2), "webview2");
}

#[test]
fn strategy_follows_platform() {
    assert_eq!(PurgeStrategy::for_platform("windows"), PurgeStrategy::Active);
    assert_eq!(PurgeStrategy::for_platform("linux"), PurgeStrategy::Noop);
    assert_eq!(PurgeStrategy::for_platform("macos"), PurgeStrategy::Noop);
    assert_eq!(PurgeStrategy::for_platform("Windows"), PurgeStrategy::Noop);
    assert_eq!(PurgeStrategy::for_platform(""), PurgeStrategy::Noop);
}

#[test]
fn error_messages_describe_the_failure() {
    assert_eq!(
        GuardError::PathResolution.message(),
        "the local-data directory could not be determined"
    );
    assert_eq!(
        GuardError::Io("access denied".to_string()).message(),
        "a filesystem operation failed: access denied"
    );
    assert_eq!(
        GuardError::Unexpected.message(),
        "the host reported an event that does not answer the last action"
    );
}

#[test]
fn marker_file_name_is_fixed() {
    assert_eq!(webview_cache_guard::guard::MARKER_FILE_NAME, "last-webview-cache-version.txt");
}

#[test]
fn greet_names_the_caller() {
    assert_eq!(
        webview_cache_guard::greeting::greet("Ada"),
        "Hello, Ada! You've been greeted from Rust!"
    );
    assert_eq!(webview_cache_guard::greeting::greet(""), "Hello, ! You've been greeted from Rust!");
}
