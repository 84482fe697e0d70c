use mem_file::layout::control_block_size;
use mem_file::lifecycle::{
    Action, OsError, Outcome, Phase, Region, RegionError, TeardownStep, TeardownWarning,
};

fn created(name: &str, user_size: usize) -> Region {
    let mut r = Region::begin_create(name.to_string(), user_size).unwrap();
    let len = user_size + control_block_size();
    assert_eq!(r.next_action(), Action::OpenExclusive);
    r.advance(Outcome::Opened(3));
    assert_eq!(r.next_action(), Action::Resize(len));
    r.advance(Outcome::Done);
    assert_eq!(r.next_action(), Action::MapRegion(len));
    r.advance(Outcome::Done);
    assert_eq!(r.next_action(), Action::InitLock);
    r.advance(Outcome::Done);
    assert_eq!(r.next_action(), Action::Finished);
    r
}

fn opened(name: &str, reported: i64) -> Region {
    let mut r = Region::begin_open(name.to_string()).unwrap();
    assert_eq!(r.next_action(), Action::OpenExisting);
    r.advance(Outcome::Opened(4));
    assert_eq!(r.next_action(), Action::QuerySize);
    r.advance(Outcome::Size(reported));
    r
}

#[test]
fn create_then_open_reports_user_size() {
    let c = created("/region-size", 1024);
    assert_eq!(c.state.phase, Phase::Ready);
    assert!(c.state.owner);
    assert_eq!(c.user_size(), Some(1024));
    let len = 1024 + control_block_size();
    let mut o = opened("/region-size", len as i64);
    assert_eq!(o.next_action(), Action::MapRegion(len));
    o.advance(Outcome::Done);
    assert_eq!(o.next_action(), Action::Finished);
    assert_eq!(o.state.phase, Phase::Ready);
    assert!(!o.state.owner);
    assert_eq!(o.user_size(), Some(1024));
    assert_eq!(o.failure(), None);
}

#[test]
fn create_with_no_user_data() {
    let c = created("/region-empty", 0);
    assert_eq!(c.user_size(), Some(0));
    assert_eq!(c.state.region_size, control_block_size());
}

#[test]
fn create_on_taken_name_fails_and_touches_nothing() {
    let mut r = Region::begin_create("/taken".to_string(), 64).unwrap();
    r.advance(Outcome::Failed(OsError::Exists));
    assert_eq!(r.failure(), Some(RegionError::AlreadyExists));
    assert_eq!(r.next_action(), Action::Finished);
    assert!(r.teardown_steps().is_empty());
}

#[test]
fn create_open_failure_other_errno() {
    let mut r = Region::begin_create("/denied".to_string(), 64).unwrap();
    r.advance(Outcome::Failed(OsError::Other(13)));
    assert_eq!(r.failure(), Some(RegionError::BackingAllocationError(Some(OsError::Other(13)))));
    assert!(r.teardown_steps().is_empty());
}

#[test]
fn open_missing_fails_with_not_found() {
    let mut r = Region::begin_open("/missing".to_string()).unwrap();
    r.advance(Outcome::Failed(OsError::Missing));
    assert_eq!(r.failure(), Some(RegionError::NotFound));
    assert!(r.teardown_steps().is_empty());
    assert_eq!(r.user_size(), None);
}

#[test]
fn open_denied_fails_with_map_error() {
    let mut r = Region::begin_open("/denied".to_string()).unwrap();
    r.advance(Outcome::Failed(OsError::Other(13)));
    assert_eq!(r.failure(), Some(RegionError::MapError(Some(OsError::Other(13)))));
}

#[test]
fn open_with_corrupt_size_fails_and_closes() {
    let ctl = control_block_size();
    let r = opened("/short", ctl as i64 - 1);
    assert_eq!(r.failure(), Some(RegionError::MapError(None)));
    assert_eq!(r.teardown_steps(), vec![TeardownStep::Close]);
    let r = opened("/negative", -1);
    assert_eq!(r.failure(), Some(RegionError::MapError(None)));
}

#[test]
fn open_of_bare_control_block_has_no_user_data() {
    let ctl = control_block_size();
    let mut r = opened("/bare", ctl as i64);
    r.advance(Outcome::Done);
    assert_eq!(r.user_size(), Some(0));
}

#[test]
fn open_map_failure_fails_with_map_error() {
    let mut r = opened("/nomap", 4096);
    r.advance(Outcome::Failed(OsError::Other(12)));
    assert_eq!(r.failure(), Some(RegionError::MapError(Some(OsError::Other(12)))));
    assert_eq!(r.teardown_steps(), vec![TeardownStep::Close]);
}

#[test]
fn failed_resize_rolls_back_the_new_object() {
    let mut r = Region::begin_create("/noresize".to_string(), 64).unwrap();
    r.advance(Outcome::Opened(5));
    r.advance(Outcome::Failed(OsError::Other(28)));
    assert_eq!(r.failure(), Some(RegionError::BackingAllocationError(Some(OsError::Other(28)))));
    assert_eq!(r.teardown_steps(), vec![TeardownStep::Unlink, TeardownStep::Close]);
}

#[test]
fn failed_map_on_create_rolls_back() {
    let mut r = Region::begin_create("/nomap".to_string(), 64).unwrap();
    r.advance(Outcome::Opened(5));
    r.advance(Outcome::Done);
    r.advance(Outcome::Failed(OsError::Other(12)));
    assert_eq!(r.failure(), Some(RegionError::BackingAllocationError(Some(OsError::Other(12)))));
    assert_eq!(r.teardown_steps(), vec![TeardownStep::Unlink, TeardownStep::Close]);
}

#[test]
fn failed_lock_init_unmaps_and_rolls_back() {
    let mut r = Region::begin_create("/nolock".to_string(), 64).unwrap();
    let len = 64 + control_block_size();
    r.advance(Outcome::Opened(5));
    r.advance(Outcome::Done);
    r.advance(Outcome::Done);
    r.advance(Outcome::Failed(OsError::Other(22)));
    assert_eq!(r.failure(), Some(RegionError::BackingAllocationError(Some(OsError::Other(22)))));
    assert_eq!(
        r.teardown_steps(),
        vec![TeardownStep::Unmap(len), TeardownStep::Unlink, TeardownStep::Close]
    );
}

#[test]
fn empty_identifier_is_invalid_state() {
    assert_eq!(Region::begin_create(String::new(), 8).err(), Some(RegionError::InvalidState));
    assert_eq!(Region::begin_open(String::new()).err(), Some(RegionError::InvalidState));
}

#[test]
fn oversized_create_is_refused() {
    assert_eq!(
        Region::begin_create("/huge".to_string(), usize::MAX).err(),
        Some(RegionError::BackingAllocationError(None))
    );
}

#[test]
fn mismatched_outcome_is_invalid_state() {
    let mut r = Region::begin_create("/odd".to_string(), 8).unwrap();
    r.advance(Outcome::Done);
    assert_eq!(r.failure(), Some(RegionError::InvalidState));
    let mut o = Region::begin_open("/odd".to_string()).unwrap();
    o.advance(Outcome::Opened(6));
    o.advance(Outcome::Done);
    assert_eq!(o.failure(), Some(RegionError::InvalidState));
}

#[test]
fn outcome_after_finish_is_ignored() {
    let mut c = created("/finished", 16);
    c.advance(Outcome::Failed(OsError::Other(5)));
    assert_eq!(c.state.phase, Phase::Ready);
    assert_eq!(c.user_size(), Some(16));
}

#[test]
fn teardown_order_and_idempotence() {
    let len = 32 + control_block_size();
    let mut c = created("/owner", 32);
    assert_eq!(
        c.teardown_steps(),
        vec![TeardownStep::Unmap(len), TeardownStep::Unlink, TeardownStep::Close]
    );
    c.finish_teardown();
    assert_eq!(c.state.phase, Phase::TornDown);
    assert!(c.teardown_steps().is_empty());
    c.finish_teardown();
    assert!(c.teardown_steps().is_empty());

    let mut o = opened("/owner", len as i64);
    o.advance(Outcome::Done);
    assert_eq!(o.teardown_steps(), vec![TeardownStep::Unmap(len), TeardownStep::Close]);
    o.finish_teardown();
    assert!(o.teardown_steps().is_empty());
    assert_eq!(o.user_size(), None);
}

#[test]
fn two_processes_share_region_a_then_it_is_gone() {
    let mut p = created("region-A", 1024);
    let len = p.state.region_size;
    assert_eq!(len, 1024 + control_block_size());
    let mut q = opened("region-A", len as i64);
    q.advance(Outcome::Done);
    assert_eq!(q.user_size(), Some(1024));
    assert_eq!(q.name, "region-A");

    let q_steps = q.teardown_steps();
    assert!(!q_steps.contains(&TeardownStep::Unlink));
    q.finish_teardown();

    let p_steps = p.teardown_steps();
    assert_eq!(p_steps[1], TeardownStep::Unlink);
    p.finish_teardown();

    let mut third = Region::begin_open("region-A".to_string()).unwrap();
    third.advance(Outcome::Failed(OsError::Missing));
    assert_eq!(third.failure(), Some(RegionError::NotFound));
}

#[test]
fn teardown_warnings_keep_failed_calls_in_order() {
    let steps = vec![TeardownStep::Unmap(128), TeardownStep::Unlink, TeardownStep::Close];
    let results = vec![Some(OsError::Other(22)), None, Some(OsError::Other(9))];
    let warnings = Region::teardown_warnings(&steps, &results);
    assert_eq!(
        warnings,
        vec![
            TeardownWarning { step: TeardownStep::Unmap(128), error: OsError::Other(22) },
            TeardownWarning { step: TeardownStep::Close, error: OsError::Other(9) },
        ]
    );
    assert!(Region::teardown_warnings(&steps, &vec![None, None, None]).is_empty());
    assert!(Region::teardown_warnings(&vec![], &vec![]).is_empty());
}
