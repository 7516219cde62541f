//! What the firecracker-containerd runtime has to know of a Function.

use vstd::prelude::*;
use vstd::std_specs::convert::FromSpecImpl;

use crate::metadata::FunctionId;
use crate::runtime::registration::{mebibytes, to_mebibytes, MEBIBYTE};

verus! {

/// How to size the micro virtual machines of a Function, and what runs in them.
#[derive(Debug)]
pub struct FcctrdFunctionInfo {
    pub id: FunctionId,
    /// The image that the machines' containers are made from.
    pub image_ref: String,
    /// The memory of a machine, in bytes.
    pub memory: u64,
    /// The snapshot that the containers' file systems start from, if it is known.
    pub parent_snapshot: Option<String>,
    /// The command that runs in the containers, if it is known.
    pub process_args: Option<String>,
}

/// The same, as it travels in a message.
#[derive(Debug)]
pub struct FunctionInfoProto {
    pub function_id: String,
    pub image_ref: String,
    pub memory_mib: u32,
    pub parent_snapshot: Option<String>,
    pub process_args: Option<String>,
}

/// A copy of an optional text.
pub fn copied(s: &Option<String>) -> (r: Option<String>)
    ensures
        r == *s,
{
    match s {
        Some(s) => Some(s.clone()),
        None => None,
    }
}

impl Clone for FcctrdFunctionInfo {
    fn clone(&self) -> (r: FcctrdFunctionInfo)
        ensures
            r == *self,
    {
        FcctrdFunctionInfo {
            id: self.id.clone(),
            image_ref: self.image_ref.clone(),
            memory: self.memory,
            parent_snapshot: copied(&self.parent_snapshot),
            process_args: copied(&self.process_args),
        }
    }
}

impl FcctrdFunctionInfo {
    /// What a message says of a Function.
    pub open spec fn of_proto(proto: FunctionInfoProto) -> FcctrdFunctionInfo {
        FcctrdFunctionInfo {
            id: proto.function_id,
            image_ref: proto.image_ref,
            memory: (proto.memory_mib * MEBIBYTE) as u64,
            parent_snapshot: proto.parent_snapshot,
            process_args: proto.process_args,
        }
    }

    /// The message that tells of the Function; the memory is rounded down to whole
    /// mebibytes, of which 32 bits are kept.
    pub open spec fn proto(self) -> FunctionInfoProto {
        FunctionInfoProto {
            function_id: self.id,
            image_ref: self.image_ref,
            memory_mib: ((self.memory / MEBIBYTE) % 0x1_0000_0000) as u32,
            parent_snapshot: self.parent_snapshot,
            process_args: self.process_args,
        }
    }

    pub fn id(&self) -> (r: &FunctionId)
        ensures
            *r == self.id,
    {
        &self.id
    }

    pub fn memory(&self) -> (r: u64)
        ensures
            r == self.memory,
    {
        self.memory
    }

    /// The message that tells of the Function.
    pub fn to_proto(&self) -> (r: FunctionInfoProto)
        ensures
            r == self.proto(),
    {
        FunctionInfoProto {
            function_id: self.id.clone(),
            image_ref: self.image_ref.clone(),
            memory_mib: to_mebibytes(self.memory),
            parent_snapshot: copied(&self.parent_snapshot),
            process_args: copied(&self.process_args),
        }
    }

    /// Something is still missing that an image's configuration tells.
    pub fn is_incomplete(&self) -> (r: bool)
        ensures
            r == (self.parent_snapshot is None || self.process_args is None),
    {
        self.parent_snapshot.is_none() || self.process_args.is_none()
    }
}

impl From<FunctionInfoProto> for FcctrdFunctionInfo {
    fn from(proto: FunctionInfoProto) -> (r: FcctrdFunctionInfo) {
        FcctrdFunctionInfo {
            id: proto.function_id,
            image_ref: proto.image_ref,
            memory: mebibytes(proto.memory_mib),
            parent_snapshot: proto.parent_snapshot,
            process_args: proto.process_args,
        }
    }
}

impl FromSpecImpl<FunctionInfoProto> for FcctrdFunctionInfo {
    open spec fn obeys_from_spec() -> bool {
        true
    }

    open spec fn from_spec(proto: FunctionInfoProto) -> FcctrdFunctionInfo {
        FcctrdFunctionInfo::of_proto(proto)
    }
}

/// A message comes back unchanged from the description it was turned into.
pub proof fn law_proto_roundtrip(proto: FunctionInfoProto)
    ensures
        FcctrdFunctionInfo::of_proto(proto).proto() == proto,
{
    let mib = proto.memory_mib;
    assert((mib * MEBIBYTE) / MEBIBYTE as int == mib);
}

/// A description comes back unchanged from the message it was turned into, if its memory is a
/// number of whole mebibytes that fits in 32 bits.
pub proof fn law_info_roundtrip(info: FcctrdFunctionInfo)
    requires
        info.memory % MEBIBYTE == 0,
        info.memory / MEBIBYTE < 0x1_0000_0000,
    ensures
        FcctrdFunctionInfo::of_proto(info.proto()) == info,
{
}

/// What a message says of a Function is what the Function is known by; its memory is told in
/// mebibytes.
pub proof fn law_what_a_message_says(proto: FunctionInfoProto)
    ensures
        ({
            let info = FcctrdFunctionInfo::of_proto(proto);
            &&& info.id == proto.function_id
            &&& info.image_ref == proto.image_ref
            &&& info.memory == proto.memory_mib * 0x10_0000
            &&& info.parent_snapshot == proto.parent_snapshot
            &&& info.process_args == proto.process_args
        }),
{
}

} // verus!
