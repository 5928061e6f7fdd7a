use vstd::prelude::*;

verus! {

/// The three ways in which building an engine resource can fail.
#[derive(Clone, Copy, Debug, PartialEq, Eq, Structural)]
pub enum RandomxError {
    /// Occurs when allocating the RandomX cache fails.
    ///
    /// Reasons include:
    ///  * Memory allocation fails
    ///  * The JIT flag is set but the current platform does not support it
    ///  * An invalid or unsupported ARGON2 value is set
    CacheAllocError,
    /// Occurs when allocating a RandomX dataset fails, or when a worker
    /// that populates it cannot be joined.
    ///
    /// Reasons include:
    ///  * Memory allocation fails
    DatasetAllocError,
    /// Occurs when creating a VM fails.
    ///
    /// Reasons include:
    ///  * Scratchpad memory allocation fails
    ///  * Unsupported flags
    ///  * Light mode asked with the full-memory flag, or fast mode without it
    VmAllocError,
}

/// The text that describes an error.
pub open spec fn description_of(e: RandomxError) -> Seq<char> {
    match e {
        RandomxError::CacheAllocError => "Failed to allocate cache"@,
        RandomxError::DatasetAllocError => "Failed to allocate dataset"@,
        RandomxError::VmAllocError => "Failed to create VM"@,
    }
}

impl RandomxError {
    /// A short human-readable description of the error.
    pub fn description(&self) -> (r: &'static str)
        ensures
            r@ == description_of(*self),
    {
        match *self {
            RandomxError::CacheAllocError => "Failed to allocate cache",
            RandomxError::DatasetAllocError => "Failed to allocate dataset",
            RandomxError::VmAllocError => "Failed to create VM",
        }
    }
}

} // verus!
