use randomx4r::{
    partition, BuildAction, BuildEvent, BuildStage, DatasetBuild, ItemRange, RandomxError,
};

fn start(threads: u8) -> DatasetBuild {
    let (b, a) = DatasetBuild::new(threads).unwrap();
    assert_eq!(a, BuildAction::CreateCache);
    assert_eq!(b.stage(), BuildStage::AwaitCache);
    b
}

#[test]
fn zero_threads_is_refused_before_any_action() {
    assert!(DatasetBuild::new(0).is_none());
}

#[test]
fn serial_build_populates_whole_range() {
    let mut b = start(1);
    assert_eq!(b.step(BuildEvent::CacheCreated), BuildAction::AllocDataset);
    assert_eq!(b.step(BuildEvent::DatasetAllocated), BuildAction::QueryItemCount);
    assert_eq!(
        b.step(BuildEvent::ItemCount(34078719)),
        BuildAction::PopulateSerial(ItemRange { start: 0, count: 34078719 })
    );
    assert_eq!(b.step(BuildEvent::Populated), BuildAction::ReleaseCache);
    assert_eq!(b.step(BuildEvent::Released), BuildAction::Finish(Ok(())));
    assert_eq!(b.stage(), BuildStage::Finished);
}

#[test]
fn parallel_build_splits_range() {
    let mut b = start(4);
    assert_eq!(b.step(BuildEvent::CacheCreated), BuildAction::AllocDataset);
    assert_eq!(b.step(BuildEvent::DatasetAllocated), BuildAction::QueryItemCount);
    assert_eq!(
        b.step(BuildEvent::ItemCount(34078719)),
        BuildAction::PopulateParallel(partition(34078719, 4))
    );
    assert_eq!(b.step(BuildEvent::Populated), BuildAction::ReleaseCache);
    assert_eq!(b.step(BuildEvent::Released), BuildAction::Finish(Ok(())));
}

#[test]
fn parallel_ranges_cover_serial_range() {
    let mut serial = start(1);
    serial.step(BuildEvent::CacheCreated);
    serial.step(BuildEvent::DatasetAllocated);
    let whole = match serial.step(BuildEvent::ItemCount(1000)) {
        BuildAction::PopulateSerial(r) => r,
        other => panic!("unexpected action {:?}", other),
    };
    for threads in 2u8..=16 {
        let mut b = start(threads);
        b.step(BuildEvent::CacheCreated);
        b.step(BuildEvent::DatasetAllocated);
        let ranges = match b.step(BuildEvent::ItemCount(1000)) {
            BuildAction::PopulateParallel(v) => v,
            other => panic!("unexpected action {:?}", other),
        };
        let mut seen = vec![0u32; whole.count as usize];
        for r in &ranges {
            for item in r.start..r.start + r.count {
                seen[item as usize] += 1;
            }
        }
        assert!(seen.iter().all(|&n| n == 1));
    }
}

#[test]
fn cache_failure_reports_cache_error_and_holds_nothing() {
    let mut b = start(2);
    assert_eq!(
        b.step(BuildEvent::CacheFailed),
        BuildAction::Finish(Err(RandomxError::CacheAllocError))
    );
    assert_eq!(b.stage(), BuildStage::Finished);
    assert!(!b.expects(BuildEvent::Released));
}

#[test]
fn dataset_failure_releases_cache_first() {
    let mut b = start(2);
    b.step(BuildEvent::CacheCreated);
    assert_eq!(b.step(BuildEvent::DatasetFailed), BuildAction::ReleaseCache);
    assert_eq!(
        b.step(BuildEvent::Released),
        BuildAction::Finish(Err(RandomxError::DatasetAllocError))
    );
}

#[test]
fn lost_worker_releases_cache_then_dataset() {
    let mut b = start(3);
    b.step(BuildEvent::CacheCreated);
    b.step(BuildEvent::DatasetAllocated);
    b.step(BuildEvent::ItemCount(9));
    assert_eq!(b.step(BuildEvent::WorkerLost), BuildAction::ReleaseCache);
    assert_eq!(b.step(BuildEvent::Released), BuildAction::ReleaseDataset);
    assert_eq!(
        b.step(BuildEvent::Released),
        BuildAction::Finish(Err(RandomxError::DatasetAllocError))
    );
}

#[test]
fn expects_only_the_answer_to_the_last_action() {
    let mut b = start(2);
    assert!(b.expects(BuildEvent::CacheCreated));
    assert!(b.expects(BuildEvent::CacheFailed));
    assert!(!b.expects(BuildEvent::Released));
    b.step(BuildEvent::CacheCreated);
    assert!(!b.expects(BuildEvent::CacheCreated));
    assert!(b.expects(BuildEvent::DatasetAllocated));
    b.step(BuildEvent::DatasetAllocated);
    assert!(b.expects(BuildEvent::ItemCount(0)));
    assert!(!b.expects(BuildEvent::Populated));
}
