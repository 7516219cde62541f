//! What machine monitors are asked over their API.

use vstd::prelude::*;
use vstd::string::*;

use crate::runtime::fc::config::DEFAULT_VMM_LOG_LEVEL;
use crate::runtime::fc::files::Node;
use crate::runtime::fc::sandbox::SnapshotFiles;

verus! {

/// The state that a machine is to be in.
#[derive(Clone, Copy, Debug, PartialEq, Eq, Structural)]
pub enum VmState {
    Paused,
    Resumed,
}

impl VmState {
    /// The state, as it is written in a request.
    pub fn name(&self) -> (r: &'static str)
        ensures
            r@ == (match *self {
                VmState::Paused => "Paused"@,
                VmState::Resumed => "Resumed"@,
            }),
    {
        match self {
            VmState::Paused => "Paused",
            VmState::Resumed => "Resumed",
        }
    }
}

/// A request to write a machine's snapshot.
#[derive(Debug)]
pub struct SnapshotCreateParams {
    /// All of the machine's memory, and not only what changed.
    pub full: bool,
    pub snapshot_path: String,
    pub mem_file_path: String,
}

impl SnapshotCreateParams {
    /// A request to write all of a machine to the paths given.
    pub fn new(state_file_path: &str, memory_file_path: &str) -> (r: SnapshotCreateParams)
        ensures
            r.full,
            r.snapshot_path@ == state_file_path@,
            r.mem_file_path@ == memory_file_path@,
    {
        SnapshotCreateParams {
            full: true,
            snapshot_path: state_file_path.to_owned(),
            mem_file_path: memory_file_path.to_owned(),
        }
    }
}

/// A request to load a machine from its snapshot.
#[derive(Debug)]
pub struct SnapshotLoadParams {
    pub snapshot_path: String,
    /// The file that the machine's memory is backed by.
    pub mem_backend_path: String,
    pub track_dirty_pages: bool,
    /// Have the machine run at once.
    pub resume_vm: bool,
}

impl SnapshotLoadParams {
    /// A request to load a machine from the files given, and to have it run.
    pub fn new(files: &SnapshotFiles) -> (r: SnapshotLoadParams)
        ensures
            r.snapshot_path@ == files.spec_state(),
            r.mem_backend_path@ == files.spec_memory(),
            !r.track_dirty_pages,
            r.resume_vm,
    {
        SnapshotLoadParams {
            snapshot_path: files.state().to_owned(),
            mem_backend_path: files.memory().to_owned(),
            track_dirty_pages: false,
            resume_vm: true,
        }
    }
}

/// A request to set the log up.
#[derive(Debug)]
pub struct LoggerParams {
    pub level: &'static str,
    pub log_path: String,
    pub show_level: bool,
    pub show_log_origin: bool,
}

impl LoggerParams {
    /// The log of a machine goes to the named pipe in its directory. It says everything if
    /// that would be logged here too.
    pub fn new(dir: &str, verbose: bool) -> (r: LoggerParams)
        ensures
            r.level@ == (if verbose {
                "Trace"@
            } else {
                DEFAULT_VMM_LOG_LEVEL@
            }),
            r.log_path@ == crate::paths::joined(dir@, Node::LogFifo.name()),
            r.show_level,
            r.show_log_origin,
    {
        LoggerParams {
            level: if verbose {
                "Trace"
            } else {
                DEFAULT_VMM_LOG_LEVEL
            },
            log_path: Node::LogFifo.path_in(dir),
            show_level: true,
            show_log_origin: true,
        }
    }
}

/// A request to set the metrics up.
#[derive(Debug)]
pub struct MetricsParams {
    pub metrics_path: String,
}

impl MetricsParams {
    /// The metrics of a machine go to the named pipe in its directory.
    pub fn new(dir: &str) -> (r: MetricsParams)
        ensures
            r.metrics_path@ == crate::paths::joined(dir@, Node::MetricsFifo.name()),
    {
        MetricsParams { metrics_path: Node::MetricsFifo.path_in(dir) }
    }
}

} // verus!
