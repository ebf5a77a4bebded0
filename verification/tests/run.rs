use launcher_core::orchestrator::{Orchestrator, Stage};
use launcher_core::progress::{PROGRESS_DONE, PROGRESS_SCALE};

#[test]
fn successful_run_emits_monotone_fractions_ending_at_whole() {
    let mut o = Orchestrator::new(17);
    let mut seen: Vec<u32> = Vec::new();
    seen.push(o.begin_catalog_fetch().permille);
    seen.push(o.package_selected().permille);
    seen.push(o.begin_download().permille);
    seen.push(o.download_progress(0, 1000, "start".to_string()).permille);
    seen.push(o.download_progress(500, 1000, "half".to_string()).permille);
    seen.push(o.download_progress(1000, 1000, "all".to_string()).permille);
    seen.push(o.begin_extract().permille);
    seen.push(o.parsing_archive().permille);
    seen.push(o.entry_extracted(0, 4, "entry".to_string()).permille);
    seen.push(o.entry_extracted(1, 4, "entry".to_string()).permille);
    seen.push(o.entry_extracted(3, 4, "entry".to_string()).permille);
    seen.push(o.configuring().permille);
    seen.push(o.renaming().permille);
    seen.push(o.building_path().permille);
    seen.push(o.verifying().permille);
    let (ev, done) = o.finish("/data/java/zulu17/bin/java".to_string());
    seen.push(ev.permille);

    for w in seen.windows(2) {
        assert!(w[0] <= w[1], "progress went backwards: {} then {}", w[0], w[1]);
    }
    for p in &seen {
        assert!(*p <= PROGRESS_SCALE);
    }
    assert_eq!(*seen.last().unwrap(), PROGRESS_DONE);
    assert!(done.success);
    assert_eq!(done.detail.as_deref(), Some("/data/java/zulu17/bin/java"));
    assert_eq!(o.stage, Stage::Done);
}

#[test]
fn failed_run_never_reaches_the_whole() {
    let mut o = Orchestrator::new(21);
    let mut seen: Vec<u32> = Vec::new();
    seen.push(o.begin_catalog_fetch().permille);
    seen.push(o.package_selected().permille);
    seen.push(o.begin_download().permille);
    let done = o.fail("Download failed: unreachable".to_string());
    assert!(!done.success);
    assert_eq!(done.detail.as_deref(), Some("Download failed: unreachable"));
    assert_eq!(o.stage, Stage::Failed);
    for p in &seen {
        assert!(*p < PROGRESS_DONE);
    }
}

#[test]
fn checkpoint_values_follow_the_stage_plan() {
    let mut o = Orchestrator::new(8);
    assert_eq!(o.begin_catalog_fetch().permille, 100);
    assert_eq!(o.package_selected().permille, 150);
    assert_eq!(o.begin_download().permille, 200);
    assert_eq!(o.begin_extract().permille, 820);
    assert_eq!(o.parsing_archive().permille, 850);
    // An early entry reports below the parse note; the stream is clamped.
    let ev = o.entry_extracted(0, 100, "first entry".to_string());
    assert_eq!(ev.permille, 850);
    // A later entry pushes past the clamp.
    let ev = o.entry_extracted(49, 100, "mid entry".to_string());
    assert_eq!(ev.permille, 885);
    assert_eq!(o.configuring().permille, 960);
    assert_eq!(o.renaming().permille, 970);
    assert_eq!(o.building_path().permille, 980);
    assert_eq!(o.verifying().permille, 990);
    let (ev, _) = o.finish("/java".to_string());
    assert_eq!(ev.permille, 1000);
}
