//! What the Firecracker runtime has to know of a Function.

use vstd::prelude::*;
use vstd::std_specs::convert::FromSpecImpl;

use crate::metadata::FunctionId;
use crate::runtime::registration::{mebibytes, to_mebibytes, MEBIBYTE};

verus! {

/// How to size and boot the micro virtual machines of a Function.
#[derive(Debug)]
pub struct FcFunctionInfo {
    pub id: FunctionId,
    /// The memory of a machine, in bytes.
    pub memory: u64,
    pub vcpu_count: u8,
    /// The command to run, if the image does not start one itself.
    pub entrypoint: String,
}

impl Clone for FcFunctionInfo {
    fn clone(&self) -> (r: FcFunctionInfo)
        ensures
            r == *self,
    {
        FcFunctionInfo {
            id: self.id.clone(),
            memory: self.memory,
            vcpu_count: self.vcpu_count,
            entrypoint: self.entrypoint.clone(),
        }
    }
}

/// The same, as it travels in a message.
#[derive(Debug)]
pub struct FunctionInfoProto {
    pub function_id: String,
    pub memory_mib: u32,
    pub vcpu_count: u32,
    pub entrypoint: String,
}

impl FcFunctionInfo {
    /// What a message says of a Function; a number of processors is cut to eight bits.
    pub open spec fn of_proto(proto: FunctionInfoProto) -> FcFunctionInfo {
        FcFunctionInfo {
            id: proto.function_id,
            memory: (proto.memory_mib * MEBIBYTE) as u64,
            vcpu_count: (proto.vcpu_count % 256) as u8,
            entrypoint: proto.entrypoint,
        }
    }

    /// The message that tells of the Function; the memory is rounded down to whole
    /// mebibytes, of which 32 bits are kept.
    pub open spec fn proto(self) -> FunctionInfoProto {
        FunctionInfoProto {
            function_id: self.id,
            memory_mib: ((self.memory / MEBIBYTE) % 0x1_0000_0000) as u32,
            vcpu_count: self.vcpu_count as u32,
            entrypoint: self.entrypoint,
        }
    }

    pub fn id(&self) -> (r: &FunctionId)
        ensures
            *r == self.id,
    {
        &self.id
    }

    pub fn memory(&self) -> (r: u64)
        ensures
            r == self.memory,
    {
        self.memory
    }

    /// The message that tells of the Function.
    pub fn to_proto(&self) -> (r: FunctionInfoProto)
        ensures
            r == self.proto(),
    {
        FunctionInfoProto {
            function_id: self.id.clone(),
            memory_mib: to_mebibytes(self.memory),
            vcpu_count: self.vcpu_count as u32,
            entrypoint: self.entrypoint.clone(),
        }
    }
}

impl From<FunctionInfoProto> for FcFunctionInfo {
    fn from(proto: FunctionInfoProto) -> (r: FcFunctionInfo) {
        let vcpus: u32 = proto.vcpu_count;
        assert(vcpus as u8 == vcpus % 256) by (bit_vector);
        FcFunctionInfo {
            id: proto.function_id,
            memory: mebibytes(proto.memory_mib),
            vcpu_count: vcpus as u8,
            entrypoint: proto.entrypoint,
        }
    }
}

impl FromSpecImpl<FunctionInfoProto> for FcFunctionInfo {
    open spec fn obeys_from_spec() -> bool {
        true
    }

    open spec fn from_spec(proto: FunctionInfoProto) -> FcFunctionInfo {
        FcFunctionInfo::of_proto(proto)
    }
}

/// A message comes back unchanged from the description it was turned into, if its number of
/// processors fits in eight bits.
pub proof fn law_proto_roundtrip(proto: FunctionInfoProto)
    requires
        proto.vcpu_count < 256,
    ensures
        FcFunctionInfo::of_proto(proto).proto() == proto,
{
    let mib = proto.memory_mib;
    assert((mib * MEBIBYTE) / MEBIBYTE as int == mib);
}

/// A description comes back unchanged from the message it was turned into, if its memory is a
/// number of whole mebibytes that fits in 32 bits.
pub proof fn law_info_roundtrip(info: FcFunctionInfo)
    requires
        info.memory % MEBIBYTE == 0,
        info.memory / MEBIBYTE < 0x1_0000_0000,
    ensures
        FcFunctionInfo::of_proto(info.proto()) == info,
{
}

/// What a message says of a Function is what the Function is known by; its memory is told in
/// mebibytes.
pub proof fn law_what_a_message_says(proto: FunctionInfoProto)
    ensures
        ({
            let info = FcFunctionInfo::of_proto(proto);
            &&& info.id == proto.function_id
            &&& info.entrypoint == proto.entrypoint
            &&& info.memory == proto.memory_mib * 0x10_0000
            &&& proto.vcpu_count < 256 ==> info.vcpu_count == proto.vcpu_count
        }),
{
}

} // verus!
