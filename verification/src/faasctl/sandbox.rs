//! Preparing, snapshotting and destroying sandboxes.

use vstd::prelude::*;
use vstd::string::*;

use crate::durations::read_duration;
use crate::faasctl::cli::Address;
use crate::faasctl::seed::SeedCmd;
use crate::metadata::{FunctionId, SandboxId};
use crate::text::same;

verus! {

/// How a sandbox is provided.
#[derive(Clone, Copy, Debug, PartialEq, Eq, Structural)]
pub enum ProvisioningMode {
    /// From a snapshot if there is one.
    PreferSnapshot,
    /// From a snapshot.
    RequireSnapshot,
    /// A new one.
    ForceFresh,
}

impl Default for ProvisioningMode {
    fn default() -> (r: ProvisioningMode)
        ensures
            r == ProvisioningMode::PreferSnapshot,
    {
        ProvisioningMode::PreferSnapshot
    }
}

impl ProvisioningMode {
    /// The mode that goes by a name.
    pub open spec fn named(s: Seq<char>) -> Option<ProvisioningMode> {
        if s == "prefer_snapshot"@ {
            Some(ProvisioningMode::PreferSnapshot)
        } else if s == "require_snapshot"@ {
            Some(ProvisioningMode::RequireSnapshot)
        } else if s == "force_fresh"@ {
            Some(ProvisioningMode::ForceFresh)
        } else {
            None
        }
    }

    /// The mode that goes by a name.
    pub fn from_name(s: &str) -> (r: Option<ProvisioningMode>)
        ensures
            r == ProvisioningMode::named(s@),
    {
        if same(s, "prefer_snapshot") {
            Some(ProvisioningMode::PreferSnapshot)
        } else if same(s, "require_snapshot") {
            Some(ProvisioningMode::RequireSnapshot)
        } else if same(s, "force_fresh") {
            Some(ProvisioningMode::ForceFresh)
        } else {
            None
        }
    }
}

/// A duration.
#[derive(Clone, Copy, Debug, PartialEq, Eq, Structural)]
pub struct KeepaliveHint {
    pub secs: u64,
    pub nanos: u32,
}

/// The duration that a text stands for.
pub fn keepalive_hint(text: &str) -> (r: Result<KeepaliveHint, String>)
    ensures
        match crate::durations::read(text@) {
            Ok(span) => r == Ok::<_, String>(
                KeepaliveHint { secs: span.secs, nanos: span.nanos },
            ) && span.nanos < 1_000_000_000,
            Err(err) => r is Err && r->Err_0@ == err,
        },
{
    match read_duration(text) {
        Ok(span) => Ok(KeepaliveHint { secs: span.secs, nanos: span.nanos }),
        Err(err) => Err(err),
    }
}

/// A duration, as it travels in a message.
#[derive(Clone, Copy, Debug, PartialEq, Eq, Structural)]
pub struct ProtoDuration {
    pub seconds: i64,
    pub nanos: i32,
}

/// The duration does not fit in a message.
#[derive(Clone, Copy, Debug, PartialEq, Eq, Structural)]
pub struct DurationTooLong;

impl KeepaliveHint {
    /// The duration, as it travels in a message.
    pub fn to_proto(&self) -> (r: Result<ProtoDuration, DurationTooLong>)
        requires
            self.nanos < 1_000_000_000,
        ensures
            match r {
                Ok(d) => d.seconds == self.secs && d.nanos == self.nanos,
                Err(_) => self.secs > i64::MAX,
            },
    {
        if self.secs > i64::MAX as u64 {
            Err(DurationTooLong)
        } else {
            Ok(ProtoDuration { seconds: self.secs as i64, nanos: self.nanos as i32 })
        }
    }
}

/// Prepares a sandbox.
#[derive(Debug)]
pub struct PrepareCmd {
    pub function_id: FunctionId,
    pub mode: ProvisioningMode,
    pub initial_keepalive_hint: Option<KeepaliveHint>,
}

/// A request to prepare a sandbox.
#[derive(Debug)]
pub struct PrepareSandboxRequest {
    pub function_id: FunctionId,
    pub mode: ProvisioningMode,
    pub initial_keepalive_hint: Option<ProtoDuration>,
}

/// A request to prepare a sandbox.
pub fn prepare_request(
    function_id: &FunctionId,
    mode: ProvisioningMode,
    hint: Option<KeepaliveHint>,
) -> (r: Result<PrepareSandboxRequest, DurationTooLong>)
    requires
        hint is Some ==> hint->0.nanos < 1_000_000_000,
    ensures
        match r {
            Ok(req) => {
                &&& req.function_id == *function_id
                &&& req.mode == mode
                &&& match hint {
                    None => req.initial_keepalive_hint is None,
                    Some(h) => req.initial_keepalive_hint matches Some(d) && d.seconds == h.secs
                        && d.nanos == h.nanos,
                }
            },
            Err(_) => hint is Some && hint->0.secs > i64::MAX,
        },
{
    let initial_keepalive_hint = match hint {
        None => None,
        Some(hint) => match hint.to_proto() {
            Ok(d) => Some(d),
            Err(err) => {
                return Err(err);
            },
        },
    };
    Ok(PrepareSandboxRequest { function_id: function_id.clone(), mode, initial_keepalive_hint })
}

impl PrepareCmd {
    /// The request that the command stands for.
    pub fn request(&self) -> (r: Result<PrepareSandboxRequest, DurationTooLong>)
        requires
            self.initial_keepalive_hint is Some ==> self.initial_keepalive_hint->0.nanos
                < 1_000_000_000,
        ensures
            match r {
                Ok(req) => {
                    &&& req.function_id == self.function_id
                    &&& req.mode == self.mode
                    &&& match self.initial_keepalive_hint {
                        None => req.initial_keepalive_hint is None,
                        Some(h) => req.initial_keepalive_hint matches Some(d) && d.seconds == h.secs
                            && d.nanos == h.nanos,
                    }
                },
                Err(_) => self.initial_keepalive_hint is Some
                    && self.initial_keepalive_hint->0.secs > i64::MAX,
            },
    {
        prepare_request(&self.function_id, self.mode, self.initial_keepalive_hint)
    }
}

/// Destroys a sandbox.
#[derive(Debug)]
pub struct DestroyCmd {
    /// Not if it is active.
    pub no_active: bool,
    /// Its snapshot too.
    pub remove_snapshot: bool,
    pub sandbox_id: SandboxId,
}

/// A request to destroy a sandbox; what is left out is up to the orchestrator.
#[derive(Debug)]
pub struct DestroySandboxRequest {
    pub sandbox_id: SandboxId,
    pub allow_if_active: Option<bool>,
    pub remove_persisted_snapshot: Option<bool>,
}

/// What became of the snapshot of a sandbox that was destroyed.
#[derive(Clone, Copy, Debug, PartialEq, Eq, Structural)]
pub enum SnapshotFate {
    /// It was not to go.
    Kept,
    Removed,
    /// It was to go, and is still there.
    StillThere,
}

/// What became of a snapshot, given whether it was to go and whether it is still there.
pub fn snapshot_fate(remove: bool, still_exists: bool) -> (r: SnapshotFate)
    ensures
        r == (if !remove {
            SnapshotFate::Kept
        } else if still_exists {
            SnapshotFate::StillThere
        } else {
            SnapshotFate::Removed
        }),
{
    if !remove {
        SnapshotFate::Kept
    } else if still_exists {
        SnapshotFate::StillThere
    } else {
        SnapshotFate::Removed
    }
}

impl DestroyCmd {
    /// The request that the command stands for: it says only what it was told.
    pub fn request(&self) -> (r: DestroySandboxRequest)
        ensures
            r == (DestroySandboxRequest {
                sandbox_id: self.sandbox_id,
                allow_if_active: if self.no_active {
                    Some(false)
                } else {
                    None
                },
                remove_persisted_snapshot: if self.remove_snapshot {
                    Some(true)
                } else {
                    None
                },
            }),
    {
        DestroySandboxRequest {
            sandbox_id: self.sandbox_id.clone(),
            allow_if_active: if self.no_active {
                Some(false)
            } else {
                None
            },
            remove_persisted_snapshot: if self.remove_snapshot {
                Some(true)
            } else {
                None
            },
        }
    }
}

/// A request to destroy a sandbox.
pub fn destroy_request(
    allow_if_active: bool,
    remove_persisted_snapshot: bool,
    sandbox_id: &SandboxId,
) -> (r: DestroySandboxRequest)
    ensures
        r == (DestroySandboxRequest {
            sandbox_id: *sandbox_id,
            allow_if_active: Some(allow_if_active),
            remove_persisted_snapshot: Some(remove_persisted_snapshot),
        }),
{
    DestroySandboxRequest {
        sandbox_id: sandbox_id.clone(),
        allow_if_active: Some(allow_if_active),
        remove_persisted_snapshot: Some(remove_persisted_snapshot),
    }
}

/// Makes a snapshot of a sandbox.
#[derive(Debug)]
pub struct SnapshotCmd {
    pub sandbox_id: SandboxId,
}

#[derive(Debug)]
pub enum SandboxesSubCmd {
    Prepare(PrepareCmd),
    Destroy(DestroyCmd),
    Snapshot(SnapshotCmd),
    Seed(SeedCmd),
}

/// Manipulates sandboxes.
#[derive(Debug)]
pub struct SandboxesCmd {
    pub addr: Address,
    pub cmd: SandboxesSubCmd,
}

/// The modes go by three names, each by one, and by no others.
pub proof fn law_names_of_modes(s: Seq<char>)
    ensures
        ProvisioningMode::named("prefer_snapshot"@) == Some(ProvisioningMode::PreferSnapshot),
        ProvisioningMode::named("require_snapshot"@) == Some(ProvisioningMode::RequireSnapshot),
        ProvisioningMode::named("force_fresh"@) == Some(ProvisioningMode::ForceFresh),
        ProvisioningMode::named(s) is Some ==> s == "prefer_snapshot"@ || s == "require_snapshot"@
            || s == "force_fresh"@,
{
    reveal_strlit("prefer_snapshot");
    reveal_strlit("require_snapshot");
    reveal_strlit("force_fresh");
    assert("prefer_snapshot"@.len() == 15 && "require_snapshot"@.len() == 16);
    assert("force_fresh"@.len() == 11);
}

} // verus!
