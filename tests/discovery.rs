use qsv_config::config::{Config, Overrides};
use qsv_config::index::{
    companion_path, AutoIndexFlag, IndexAction, IndexEvent, IndexFile, IndexPhase,
    NO_INDEX_WARNING_FILESIZE,
};

fn cfg(p: &str, threshold: u64) -> Config {
    let env = Overrides { autoindex_size: threshold, ..Overrides::none() };
    Config::new(&Some(p.to_string()), &env)
}

#[test]
fn companion_path_appends_idx() {
    assert_eq!(companion_path("data/a.csv"), "data/a.csv.idx");
    let c = cfg("a.csv", 0);
    assert_eq!(c.index_file_path(IndexFile::Companion), Some("a.csv.idx".to_string()));
    assert_eq!(c.index_file_path(IndexFile::Explicit), None);
    assert_eq!(c.autoindex_target(), Some("a.csv.idx".to_string()));
    assert_eq!(cfg("a.csv.sz", 0).autoindex_target(), None);
}

#[test]
fn auto_index_then_short_circuit() {
    let c = cfg("big.csv", 1000);
    let mut flag = AutoIndexFlag::new();
    let (p, a) = c.discover_start(&flag);
    assert_eq!(a, IndexAction::StatData);
    let (p, a) = c.discover_next(&mut flag, p, IndexEvent::DataStat { size: 5000, modified: 10 });
    assert_eq!(a, IndexAction::ProbeCompanion);
    let (p, a) = c.discover_next(&mut flag, p, IndexEvent::CompanionMissing);
    assert_eq!(a, IndexAction::Build);
    assert!(!flag.is_set_for("big.csv"));
    let (p, a) = c.discover_next(&mut flag, p, IndexEvent::Built { ok: true });
    assert_eq!((p, a), (IndexPhase::Finished, IndexAction::OpenRebuilt));
    assert!(flag.is_set_for("big.csv"));
    assert_eq!(
        c.discover_start(&flag),
        (IndexPhase::Finished, IndexAction::OpenPair(IndexFile::Companion))
    );
    // The flag holds for the file that set it, not for another.
    let other = cfg("other.csv", 1000);
    assert_eq!(other.discover_start(&flag).1, IndexAction::StatData);
}

#[test]
fn threshold_equal_to_size_builds() {
    let c = cfg("a.csv", 5000);
    let mut flag = AutoIndexFlag::new();
    let p = IndexPhase::AwaitProbe { size: 5000, modified: 1 };
    assert_eq!(c.discover_next(&mut flag, p, IndexEvent::CompanionMissing).1, IndexAction::Build);
}

#[test]
fn failed_build_gives_no_index() {
    let c = cfg("a.csv", 10);
    let mut flag = AutoIndexFlag::new();
    let r = c.discover_next(&mut flag, IndexPhase::AwaitBuild, IndexEvent::Built { ok: false });
    assert_eq!(r, (IndexPhase::Finished, IndexAction::NoIndex { advise: false }));
    assert!(!flag.is_set_for("a.csv"));
}

#[test]
fn stale_index_is_rebuilt() {
    let c = cfg("a.csv", 0);
    let mut flag = AutoIndexFlag::new();
    let p = IndexPhase::AwaitProbe { size: 10, modified: 200 };
    let (p2, a) = c.discover_next(&mut flag, p, IndexEvent::CompanionFound { modified: 100 });
    assert_eq!(a, IndexAction::Build);
    let (_, a) = c.discover_next(&mut flag, p2, IndexEvent::Built { ok: true });
    assert_eq!(a, IndexAction::OpenRebuilt);
    let r = c.discover_next(&mut flag, p, IndexEvent::CompanionFound { modified: 200 });
    assert_eq!(r, (IndexPhase::Finished, IndexAction::OpenPair(IndexFile::Companion)));
}

#[test]
fn small_file_without_threshold_gets_nothing() {
    let c = cfg("a.csv", 0);
    let mut flag = AutoIndexFlag::new();
    let p = IndexPhase::AwaitProbe { size: NO_INDEX_WARNING_FILESIZE - 1, modified: 1 };
    let r = c.discover_next(&mut flag, p, IndexEvent::CompanionMissing);
    assert_eq!(r, (IndexPhase::Finished, IndexAction::NoIndex { advise: false }));
}

#[test]
fn large_file_without_threshold_is_advised() {
    let c = cfg("a.csv", 0);
    let mut flag = AutoIndexFlag::new();
    let p = IndexPhase::AwaitProbe { size: NO_INDEX_WARNING_FILESIZE, modified: 1 };
    let r = c.discover_next(&mut flag, p, IndexEvent::CompanionMissing);
    assert_eq!(r, (IndexPhase::Finished, IndexAction::NoIndex { advise: true }));
    assert_eq!(NO_INDEX_WARNING_FILESIZE, 100_000_000);
}

#[test]
fn compressed_file_is_never_indexed() {
    let c = cfg("a.csv.sz", 1);
    let mut flag = AutoIndexFlag::new();
    let p = IndexPhase::AwaitProbe { size: NO_INDEX_WARNING_FILESIZE, modified: 1 };
    let r = c.discover_next(&mut flag, p, IndexEvent::CompanionMissing);
    assert_eq!(r, (IndexPhase::Finished, IndexAction::NoIndex { advise: false }));
}

#[test]
fn stdin_cases() {
    let flag = AutoIndexFlag::new();
    let c = Config::new(&None, &Overrides::none());
    assert_eq!(c.discover_start(&flag), (IndexPhase::Finished, IndexAction::NoIndex { advise: false }));
    let c = c.index_path(Some("x.idx".to_string()));
    assert_eq!(c.discover_start(&flag), (IndexPhase::Finished, IndexAction::RejectStdin));
}

#[test]
fn explicit_pair_skips_checks() {
    let flag = AutoIndexFlag::new();
    let c = cfg("a.csv", 0).index_path(Some("elsewhere.idx".to_string()));
    assert_eq!(
        c.discover_start(&flag),
        (IndexPhase::Finished, IndexAction::OpenPair(IndexFile::Explicit))
    );
    assert_eq!(c.index_file_path(IndexFile::Explicit), Some("elsewhere.idx".to_string()));
}

#[test]
fn unexpected_event_ends_without_index() {
    let c = cfg("a.csv", 0);
    let mut flag = AutoIndexFlag::new();
    let r = c.discover_next(&mut flag, IndexPhase::AwaitStat, IndexEvent::CompanionMissing);
    assert_eq!(r, (IndexPhase::Finished, IndexAction::NoIndex { advise: false }));
}
