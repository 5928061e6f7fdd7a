use vstd::prelude::*;

use crate::error::RandomxError;
use crate::partition::{is_partition, partition, ItemRange};

verus! {

/// Where a dataset build stands.
#[derive(Clone, Copy, Debug, PartialEq, Eq, Structural)]
pub enum BuildStage {
    /// Waiting for the transient cache to be allocated and initialised.
    AwaitCache,
    /// Waiting for the dataset memory to be allocated.
    AwaitDataset,
    /// Waiting for the engine's dataset item count.
    AwaitItemCount,
    /// Waiting for every populate call to return.
    AwaitPopulate,
    /// Releasing what is held before reporting the outcome.
    Releasing,
    /// The outcome has been reported.
    Finished,
}

/// What the caller reports after performing a [`BuildAction`].
#[derive(Clone, Copy, Debug, PartialEq, Eq, Structural)]
pub enum BuildEvent {
    /// The cache was allocated and initialised from the key.
    CacheCreated,
    /// The engine returned no cache.
    CacheFailed,
    /// The dataset memory was allocated.
    DatasetAllocated,
    /// The engine returned no dataset memory.
    DatasetFailed,
    /// The engine's dataset item count.
    ItemCount(u64),
    /// Every populate call has returned and every worker was joined.
    Populated,
    /// Some worker could not be joined.
    WorkerLost,
    /// The resource named by the last action has been released.
    Released,
}

/// What the caller is asked to perform next.
#[derive(Debug, PartialEq, Eq)]
pub enum BuildAction {
    /// Allocate the transient cache and initialise it from the key.
    CreateCache,
    /// Allocate the dataset memory.
    AllocDataset,
    /// Ask the engine for its dataset item count.
    QueryItemCount,
    /// Populate this range in the calling thread.
    PopulateSerial(ItemRange),
    /// Populate each range on a worker thread of its own, against the same
    /// cache and dataset, then join every worker.
    PopulateParallel(Vec<ItemRange>),
    /// Release the transient cache.
    ReleaseCache,
    /// Release the dataset memory.
    ReleaseDataset,
    /// The build is over: hand the dataset out on `Ok`, report the error
    /// otherwise.
    Finish(Result<(), RandomxError>),
}

/// The abstract state of a build.
pub struct BuildModel {
    pub thread_count: u8,
    pub stage: BuildStage,
    pub holds_cache: bool,
    pub holds_dataset: bool,
    pub outcome: Result<(), RandomxError>,
}

/// The decisions of building a dataset from a key: which engine resource
/// to acquire, how to split the population among workers, and which
/// resources to release, in which order, before reporting the outcome.
pub struct DatasetBuild {
    thread_count: u8,
    stage: BuildStage,
    holds_cache: bool,
    holds_dataset: bool,
    outcome: Result<(), RandomxError>,
}

impl View for DatasetBuild {
    type V = BuildModel;

    closed spec fn view(&self) -> BuildModel {
        BuildModel {
            thread_count: self.thread_count,
            stage: self.stage,
            holds_cache: self.holds_cache,
            holds_dataset: self.holds_dataset,
            outcome: self.outcome,
        }
    }
}

/// The resources held at each stage.
pub open spec fn build_wf(m: BuildModel) -> bool {
    &&& m.thread_count >= 1
    &&& match m.stage {
        BuildStage::AwaitCache => !m.holds_cache && !m.holds_dataset && m.outcome is Ok,
        BuildStage::AwaitDataset => m.holds_cache && !m.holds_dataset && m.outcome is Ok,
        BuildStage::AwaitItemCount => m.holds_cache && m.holds_dataset && m.outcome is Ok,
        BuildStage::AwaitPopulate => m.holds_cache && m.holds_dataset && m.outcome is Ok,
        BuildStage::Releasing => if m.outcome is Ok {
            m.holds_cache && m.holds_dataset
        } else {
            m.holds_cache || m.holds_dataset
        },
        BuildStage::Finished => !m.holds_cache && (m.holds_dataset <==> m.outcome is Ok),
    }
}

/// Whether `e` answers the action that a build in state `m` asked for.
pub open spec fn expects(m: BuildModel, e: BuildEvent) -> bool {
    match m.stage {
        BuildStage::AwaitCache => e == BuildEvent::CacheCreated || e == BuildEvent::CacheFailed,
        BuildStage::AwaitDataset => e == BuildEvent::DatasetAllocated || e
            == BuildEvent::DatasetFailed,
        BuildStage::AwaitItemCount => e is ItemCount,
        BuildStage::AwaitPopulate => e == BuildEvent::Populated || e == BuildEvent::WorkerLost,
        BuildStage::Releasing => e == BuildEvent::Released,
        BuildStage::Finished => false,
    }
}

/// The step that follows once the resources of `m` are to be given back:
/// the cache first, then the dataset unless it is handed out, then the
/// outcome.
pub open spec fn unwind_action(m: BuildModel) -> BuildAction {
    if m.holds_cache {
        BuildAction::ReleaseCache
    } else if m.outcome is Err && m.holds_dataset {
        BuildAction::ReleaseDataset
    } else {
        BuildAction::Finish(m.outcome)
    }
}

/// A measure that every step lowers: a build always comes to an end.
pub open spec fn remaining_steps(m: BuildModel) -> nat {
    let held = (if m.holds_cache {
        1nat
    } else {
        0nat
    }) + (if m.holds_dataset {
        1nat
    } else {
        0nat
    });
    match m.stage {
        BuildStage::AwaitCache => 9,
        BuildStage::AwaitDataset => 8,
        BuildStage::AwaitItemCount => 7,
        BuildStage::AwaitPopulate => 6,
        BuildStage::Releasing => 1 + held,
        BuildStage::Finished => 0,
    }
}

/// Once a build has left its first stage it takes no second cache, and a
/// finished build holds no cache and waits for no release: the transient
/// cache is acquired at most once and released before the outcome is
/// reported.
pub proof fn lemma_cache_once(m: BuildModel)
    requires
        build_wf(m),
    ensures
        m.stage != BuildStage::AwaitCache ==> !expects(m, BuildEvent::CacheCreated),
        m.stage == BuildStage::Finished ==> !m.holds_cache,
        m.stage == BuildStage::Finished ==> !expects(m, BuildEvent::Released),
{
}

impl DatasetBuild {
    /// Starts a build on `thread_count` workers. A thread count of zero is
    /// refused before anything is acquired.
    pub fn new(thread_count: u8) -> (r: Option<(DatasetBuild, BuildAction)>)
        ensures
            r is None <==> thread_count == 0,
            r matches Some((b, a)) ==> {
                &&& b@.thread_count == thread_count
                &&& b@.stage == BuildStage::AwaitCache
                &&& !b@.holds_cache && !b@.holds_dataset
                &&& build_wf(b@)
                &&& a == BuildAction::CreateCache
            },
    {
        if thread_count == 0 {
            return None;
        }
        let b = DatasetBuild {
            thread_count,
            stage: BuildStage::AwaitCache,
            holds_cache: false,
            holds_dataset: false,
            outcome: Ok(()),
        };
        Some((b, BuildAction::CreateCache))
    }

    /// The current stage.
    pub fn stage(&self) -> (r: BuildStage)
        ensures
            r == self@.stage,
    {
        self.stage
    }

    /// Whether `event` answers the action asked for last.
    pub fn expects(&self, event: BuildEvent) -> (r: bool)
        ensures
            r <==> expects(self@, event),
    {
        match self.stage {
            BuildStage::AwaitCache => event == BuildEvent::CacheCreated || event
                == BuildEvent::CacheFailed,
            BuildStage::AwaitDataset => event == BuildEvent::DatasetAllocated || event
                == BuildEvent::DatasetFailed,
            BuildStage::AwaitItemCount => matches!(event, BuildEvent::ItemCount(_)),
            BuildStage::AwaitPopulate => event == BuildEvent::Populated || event
                == BuildEvent::WorkerLost,
            BuildStage::Releasing => event == BuildEvent::Released,
            BuildStage::Finished => false,
        }
    }

    fn unwind(&mut self) -> (r: BuildAction)
        requires
            old(self)@.stage == BuildStage::Releasing,
            old(self)@.thread_count >= 1,
            old(self)@.outcome is Ok ==> old(self)@.holds_dataset,
        ensures
            r == unwind_action(old(self)@),
            final(self)@.thread_count == old(self)@.thread_count,
            final(self)@.holds_cache == old(self)@.holds_cache,
            final(self)@.holds_dataset == old(self)@.holds_dataset,
            final(self)@.outcome == old(self)@.outcome,
            final(self)@.stage == (if r is Finish {
                BuildStage::Finished
            } else {
                BuildStage::Releasing
            }),
    {
        if self.holds_cache {
            BuildAction::ReleaseCache
        } else if self.outcome.is_err() && self.holds_dataset {
            BuildAction::ReleaseDataset
        } else {
            self.stage = BuildStage::Finished;
            BuildAction::Finish(self.outcome)
        }
    }

    /// Takes the result of the last action and says what to do next.
    pub fn step(&mut self, event: BuildEvent) -> (r: BuildAction)
        requires
            build_wf(old(self)@),
            expects(old(self)@, event),
        ensures
            build_wf(final(self)@),
            final(self)@.thread_count == old(self)@.thread_count,
            remaining_steps(final(self)@) < remaining_steps(old(self)@),
            final(self)@.stage != BuildStage::AwaitCache,
            // the cache is acquired only on its own event, and released
            // only once asked for
            final(self)@.holds_cache ==> old(self)@.holds_cache || event
                == BuildEvent::CacheCreated,
            final(self)@.holds_dataset ==> old(self)@.holds_dataset || event
                == BuildEvent::DatasetAllocated,
            r == BuildAction::ReleaseCache ==> final(self)@.holds_cache,
            r == BuildAction::ReleaseDataset ==> final(self)@.holds_dataset
                && !final(self)@.holds_cache,
            r is Finish ==> final(self)@.stage == BuildStage::Finished
                && !final(self)@.holds_cache
                && (final(self)@.holds_dataset <==> r->Finish_0 is Ok),
            r is ReleaseCache || r is ReleaseDataset ==> final(self)@.stage
                == BuildStage::Releasing,
            // the transitions
            event == BuildEvent::CacheCreated ==> r == BuildAction::AllocDataset
                && final(self)@.stage == BuildStage::AwaitDataset,
            event == BuildEvent::DatasetAllocated ==> final(self)@.stage
                == BuildStage::AwaitItemCount,
            event is ItemCount ==> final(self)@.stage == BuildStage::AwaitPopulate,
            event == BuildEvent::DatasetFailed || event == BuildEvent::Populated || event
                == BuildEvent::WorkerLost ==> final(self)@.holds_cache == old(self)@.holds_cache
                && final(self)@.holds_dataset == old(self)@.holds_dataset,
            event == BuildEvent::CacheFailed ==> r == BuildAction::Finish(
                Err(RandomxError::CacheAllocError),
            ),
            event == BuildEvent::DatasetAllocated ==> r == BuildAction::QueryItemCount,
            event == BuildEvent::DatasetFailed ==> r == BuildAction::ReleaseCache
                && final(self)@.outcome == Err::<(), RandomxError>(
                RandomxError::DatasetAllocError,
            ),
            event matches BuildEvent::ItemCount(n) ==> if old(self)@.thread_count == 1 {
                r == BuildAction::PopulateSerial(ItemRange { start: 0, count: n })
            } else {
                r matches BuildAction::PopulateParallel(v) && is_partition(
                    v@,
                    n,
                    old(self)@.thread_count,
                )
            },
            event == BuildEvent::Populated ==> r == BuildAction::ReleaseCache
                && final(self)@.outcome == Ok::<(), RandomxError>(()),
            event == BuildEvent::WorkerLost ==> r == BuildAction::ReleaseCache
                && final(self)@.outcome == Err::<(), RandomxError>(
                RandomxError::DatasetAllocError,
            ),
            event == BuildEvent::Released ==> {
                &&& final(self)@.outcome == old(self)@.outcome
                &&& if old(self)@.holds_cache {
                    !final(self)@.holds_cache && final(self)@.holds_dataset
                        == old(self)@.holds_dataset
                } else {
                    !final(self)@.holds_dataset
                }
                &&& r == unwind_action(final(self)@)
            },
    {
        match event {
            BuildEvent::CacheCreated => {
                self.holds_cache = true;
                self.stage = BuildStage::AwaitDataset;
                BuildAction::AllocDataset
            },
            BuildEvent::CacheFailed => {
                self.outcome = Err(RandomxError::CacheAllocError);
                self.stage = BuildStage::Finished;
                BuildAction::Finish(Err(RandomxError::CacheAllocError))
            },
            BuildEvent::DatasetAllocated => {
                self.holds_dataset = true;
                self.stage = BuildStage::AwaitItemCount;
                BuildAction::QueryItemCount
            },
            BuildEvent::DatasetFailed => {
                self.outcome = Err(RandomxError::DatasetAllocError);
                self.stage = BuildStage::Releasing;
                self.unwind()
            },
            BuildEvent::ItemCount(n) => {
                self.stage = BuildStage::AwaitPopulate;
                if self.thread_count == 1 {
                    BuildAction::PopulateSerial(ItemRange { start: 0, count: n })
                } else {
                    BuildAction::PopulateParallel(partition(n, self.thread_count))
                }
            },
            BuildEvent::Populated => {
                self.outcome = Ok(());
                self.stage = BuildStage::Releasing;
                self.unwind()
            },
            BuildEvent::WorkerLost => {
                self.outcome = Err(RandomxError::DatasetAllocError);
                self.stage = BuildStage::Releasing;
                self.unwind()
            },
            BuildEvent::Released => {
                if self.holds_cache {
                    self.holds_cache = false;
                } else {
                    self.holds_dataset = false;
                }
                self.unwind()
            },
        }
    }
}

} // verus!
