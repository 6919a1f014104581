//! Options for snapshot, export, and clone operations.

use vstd::prelude::*;

verus! {

/// Options for creating a snapshot.
#[derive(Debug, Clone)]
pub struct SnapshotOptions {
    /// Quiesce guest filesystems before the snapshot.
    pub quiesce: bool,
    /// How long to wait for the quiesce, in seconds.
    pub quiesce_timeout_secs: u64,
    /// Abort the snapshot when the quiesce fails.
    pub stop_on_quiesce_fail: bool,
}

impl Default for SnapshotOptions {
    /// Quiesce on, thirty seconds, abort on failure.
    fn default() -> (r: SnapshotOptions)
        ensures
            r.quiesce,
            r.quiesce_timeout_secs == 30,
            r.stop_on_quiesce_fail,
    {
        SnapshotOptions { quiesce: true, quiesce_timeout_secs: 30, stop_on_quiesce_fail: true }
    }
}

impl SnapshotOptions {
    /// Set whether to quiesce before the snapshot.
    pub fn quiesce(&mut self, quiesce: bool)
        ensures
            *final(self) == (SnapshotOptions { quiesce, ..*old(self) }),
    {
        self.quiesce = quiesce;
    }

    /// Set the quiesce timeout in seconds.
    pub fn quiesce_timeout_secs(&mut self, secs: u64)
        ensures
            *final(self) == (SnapshotOptions { quiesce_timeout_secs: secs, ..*old(self) }),
    {
        self.quiesce_timeout_secs = secs;
    }

    /// Set whether a failed quiesce aborts the snapshot.
    pub fn stop_on_quiesce_fail(&mut self, stop: bool)
        ensures
            *final(self) == (SnapshotOptions { stop_on_quiesce_fail: stop, ..*old(self) }),
    {
        self.stop_on_quiesce_fail = stop;
    }
}

/// Options for exporting a box archive.
#[derive(Debug, Clone)]
pub struct ExportOptions {
    /// Compress the archive.
    pub compress: bool,
    /// Compression level, between 1 and 22.
    pub compression_level: i32,
    /// Include metadata in the archive.
    pub include_metadata: bool,
}

impl Default for ExportOptions {
    /// Compressed at level three, with metadata.
    fn default() -> (r: ExportOptions)
        ensures
            r.compress,
            r.compression_level == 3,
            r.include_metadata,
    {
        ExportOptions { compress: true, compression_level: 3, include_metadata: true }
    }
}

impl ExportOptions {
    /// Set whether to compress the archive.
    pub fn compress(&mut self, compress: bool)
        ensures
            *final(self) == (ExportOptions { compress, ..*old(self) }),
    {
        self.compress = compress;
    }

    /// Set the compression level.
    pub fn compression_level(&mut self, level: i32)
        ensures
            *final(self) == (ExportOptions { compression_level: level, ..*old(self) }),
    {
        self.compression_level = level;
    }

    /// Set whether the archive carries metadata.
    pub fn include_metadata(&mut self, enabled: bool)
        ensures
            *final(self) == (ExportOptions { include_metadata: enabled, ..*old(self) }),
    {
        self.include_metadata = enabled;
    }
}

/// Options for cloning a box.
#[derive(Debug, Clone)]
pub struct CloneOptions {
    /// Share disk blocks with the source through copy-on-write children;
    /// a full copy flattens the chains instead.
    pub cow: bool,
    /// Start the clone once created.
    pub start_after_clone: bool,
    /// Clone from a named snapshot instead of the current state.
    pub from_snapshot: Option<String>,
}

impl Default for CloneOptions {
    /// Copy-on-write, not started, from the current state.
    fn default() -> (r: CloneOptions)
        ensures
            r.cow,
            !r.start_after_clone,
            r.from_snapshot is None,
    {
        CloneOptions { cow: true, start_after_clone: false, from_snapshot: None }
    }
}

impl CloneOptions {
    /// Set whether the clone shares blocks through copy-on-write.
    pub fn cow(&mut self, cow: bool)
        ensures
            *final(self) == (CloneOptions { cow, ..*old(self) }),
    {
        self.cow = cow;
    }

    /// Set whether the clone starts right after creation.
    pub fn start_after_clone(&mut self, start: bool)
        ensures
            *final(self) == (CloneOptions { start_after_clone: start, ..*old(self) }),
    {
        self.start_after_clone = start;
    }

    /// Clone from the named snapshot.
    pub fn from_snapshot(&mut self, name: String)
        ensures
            *final(self) == (CloneOptions { from_snapshot: Some(name), ..*old(self) }),
    {
        self.from_snapshot = Some(name);
    }
}

} // verus!
