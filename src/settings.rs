use vstd::prelude::*;

verus! {

/// Describe how data within a buffer gets retained. Most mechanisms that pull
/// data from a buffer remove the oldest item, so this policy deals with
/// situations where items are stored faster than they are pulled.
///
/// The default value is `KeepLast(1)`.
#[derive(Clone, Copy, PartialEq, Eq, Structural, PartialOrd, Ord, Debug)]
pub enum RetentionPolicy {
    /// Keep the last N items that were stored into the buffer. Once the limit
    /// is reached, the oldest item is removed any time a new item arrives.
    KeepLast(usize),
    /// Keep the first N items that are stored into the buffer. Once the limit
    /// is reached, any new item that arrives is discarded.
    KeepFirst(usize),
    /// Do not limit how many items can be stored in the buffer.
    KeepAll,
}

impl RetentionPolicy {
    /// Whether a session holding `len` items respects this policy.
    pub open spec fn admits(self, len: nat) -> bool {
        match self {
            RetentionPolicy::KeepLast(n) => len <= n,
            RetentionPolicy::KeepFirst(n) => len <= n,
            RetentionPolicy::KeepAll => true,
        }
    }

    /// Whether the policy can never retain any item.
    pub open spec fn retains_nothing(self) -> bool {
        match self {
            RetentionPolicy::KeepLast(n) => n == 0,
            RetentionPolicy::KeepFirst(n) => n == 0,
            RetentionPolicy::KeepAll => false,
        }
    }

    /// Executable form of [`RetentionPolicy::retains_nothing`].
    pub fn has_zero_capacity(&self) -> (r: bool)
        ensures
            r == self.retains_nothing(),
    {
        match self {
            RetentionPolicy::KeepLast(n) => *n == 0,
            RetentionPolicy::KeepFirst(n) => *n == 0,
            RetentionPolicy::KeepAll => false,
        }
    }
}

impl Default for RetentionPolicy {
    fn default() -> (r: Self)
        ensures
            r == RetentionPolicy::KeepLast(1),
    {
        RetentionPolicy::KeepLast(1)
    }
}

/// Settings to describe the behavior of a buffer.
#[derive(Clone, Copy, PartialEq, Eq, Structural, Debug)]
pub struct BufferSettings {
    retention: RetentionPolicy,
}

impl BufferSettings {
    /// The retention policy, for use in contracts.
    pub closed spec fn policy(self) -> RetentionPolicy {
        self.retention
    }

    /// Define new buffer settings.
    pub fn new(retention: RetentionPolicy) -> (r: Self)
        ensures
            r.policy() == retention,
    {
        Self { retention }
    }

    /// Create `BufferSettings` with a retention policy of `KeepLast(n)`.
    pub fn keep_last(n: usize) -> (r: Self)
        ensures
            r.policy() == RetentionPolicy::KeepLast(n),
    {
        Self::new(RetentionPolicy::KeepLast(n))
    }

    /// Create `BufferSettings` with a retention policy of `KeepFirst(n)`.
    pub fn keep_first(n: usize) -> (r: Self)
        ensures
            r.policy() == RetentionPolicy::KeepFirst(n),
    {
        Self::new(RetentionPolicy::KeepFirst(n))
    }

    /// Create `BufferSettings` with a retention policy of `KeepAll`.
    pub fn keep_all() -> (r: Self)
        ensures
            r.policy() == RetentionPolicy::KeepAll,
    {
        Self::new(RetentionPolicy::KeepAll)
    }

    /// Get the retention policy for the buffer.
    pub fn retention(&self) -> (r: RetentionPolicy)
        ensures
            r == self.policy(),
    {
        self.retention
    }

    /// Modify the retention policy for the buffer.
    pub fn retention_mut(&mut self) -> (r: &mut RetentionPolicy)
        ensures
            *r == old(self).policy(),
            final(self).policy() == *final(r),
    {
        &mut self.retention
    }
}

impl Default for BufferSettings {
    fn default() -> (r: Self)
        ensures
            r.policy() == RetentionPolicy::KeepLast(1),
    {
        Self::new(RetentionPolicy::KeepLast(1))
    }
}

} // verus!
