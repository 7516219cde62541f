//! Registration requests, as far as they are the same for all runtimes.

use vstd::prelude::*;
use vstd::string::*;

use crate::text::{concat, concat3};

verus! {

/// The number of bytes in a mebibyte.
pub const MEBIBYTE: u64 = 0x10_0000;

/// The part of a registration request that is meant for one runtime.
#[derive(Debug)]
pub enum RuntimeSpecific {
    /// The value of an `Any` message.
    Proto3(Vec<u8>),
    /// A JSON document in Base64.
    B64Json(Vec<u8>),
}

/// What a registration request says of a Function.
#[derive(Debug)]
pub struct FunctionInfoMessage {
    pub runtime_specific: Option<RuntimeSpecific>,
}

/// A request to register a Function.
#[derive(Debug)]
pub struct RegisterFunctionRequest {
    pub function_info: Option<FunctionInfoMessage>,
}

/// The encoded description of a Function.
#[derive(Debug)]
pub enum EncodedInfo {
    /// The value of an `Any` message.
    Proto3(Vec<u8>),
    /// A JSON document.
    Json(Vec<u8>),
}

/// Why a Function could not be registered.
#[derive(Debug)]
#[allow(inconsistent_fields)]
pub enum RegistrationError {
    /// The request lacks `function_info`.
    MissingFunctionInfo,
    /// The request lacks `function_info.runtime_specific`.
    MissingRuntimeSpecific,
    /// The JSON document is not valid Base64.
    DecodeB64(String),
    /// The Function's name is not a prefix and a suffix with a dash between them.
    FunctionIdFormat(String),
    /// There is no root file system at the path given.
    MissingRootfs { path: String, err: String },
    /// The runtime could not be made or initialised, or failed.
    Runtime { what: RuntimeFault, err: Option<String> },
}

/// What a runtime failed at when a Function was to be registered.
#[derive(Debug)]
pub enum RuntimeFault {
    Instantiate,
    Initialize,
    RunImageTool,
    PullImage(String),
    GetImageConfig,
    ProcessArgs,
}

impl RuntimeFault {
    /// What the runtime failed at, in words.
    pub open spec fn text(self) -> Seq<char> {
        match self {
            RuntimeFault::Instantiate => "failed to instantiate FirecrackerContainerd runtime"@,
            RuntimeFault::Initialize => "failed to initialize FirecrackerContainerd runtime"@,
            RuntimeFault::RunImageTool => "failed to fork/exec firecracker-ctr"@,
            RuntimeFault::PullImage(status) => "firecracker-ctr: "@ + status@,
            RuntimeFault::GetImageConfig => "failed to get OCI Image config"@,
            RuntimeFault::ProcessArgs => "failed to extract command & args for the new process"@,
        }
    }

    /// What the runtime failed at, in words.
    pub fn message(&self) -> (r: String)
        ensures
            r@ == self.text(),
    {
        match self {
            RuntimeFault::Instantiate =>
                "failed to instantiate FirecrackerContainerd runtime".to_owned(),
            RuntimeFault::Initialize =>
                "failed to initialize FirecrackerContainerd runtime".to_owned(),
            RuntimeFault::RunImageTool => "failed to fork/exec firecracker-ctr".to_owned(),
            RuntimeFault::PullImage(status) => concat("firecracker-ctr: ", status.as_str()),
            RuntimeFault::GetImageConfig => "failed to get OCI Image config".to_owned(),
            RuntimeFault::ProcessArgs =>
                "failed to extract command & args for the new process".to_owned(),
        }
    }
}

impl RegistrationError {
    /// What is wrong, in words: a field's name, or a sentence.
    pub open spec fn text(self) -> Seq<char> {
        match self {
            RegistrationError::MissingFunctionInfo => "RegisterFunctionRequest.function_info"@,
            RegistrationError::MissingRuntimeSpecific =>
                "RegisterFunctionRequest.function_info.runtime_specific"@,
            RegistrationError::DecodeB64(err) => err@,
            RegistrationError::FunctionIdFormat(id) =>
                "expected Function ID in the form '$PREFIX-$SUFFIX'; got '"@ + id@ + "'"@,
            RegistrationError::MissingRootfs { path, .. } => "missing rootfs image at '"@ + path@
                + "'"@,
            RegistrationError::Runtime { what, .. } => what.text(),
        }
    }

    /// What is wrong, in words: a field's name, or a sentence.
    pub fn message(&self) -> (r: String)
        ensures
            r@ == self.text(),
    {
        match self {
            RegistrationError::MissingFunctionInfo =>
                "RegisterFunctionRequest.function_info".to_owned(),
            RegistrationError::MissingRuntimeSpecific =>
                "RegisterFunctionRequest.function_info.runtime_specific".to_owned(),
            RegistrationError::DecodeB64(err) => err.clone(),
            RegistrationError::FunctionIdFormat(id) => concat3(
                "expected Function ID in the form '$PREFIX-$SUFFIX'; got '",
                id.as_str(),
                "'",
            ),
            RegistrationError::MissingRootfs { path, .. } => concat3(
                "missing rootfs image at '",
                path.as_str(),
                "'",
            ),
            RegistrationError::Runtime { what, .. } => what.message(),
        }
    }
}

/// What Base64 text decodes to, or why it does not.
pub uninterp spec fn base64_decoded(text: Seq<u8>) -> Result<Seq<u8>, Seq<char>>;

/// Calls `base64::Engine::decode` of the standard engine; the error is shown with `{:#}`.
#[verifier::external_body]
pub(crate) fn decode_base64(text: &Vec<u8>) -> (r: Result<Vec<u8>, String>)
    ensures
        match r {
            Ok(bytes) => base64_decoded(text@) == Ok::<Seq<u8>, Seq<char>>(bytes@),
            Err(err) => base64_decoded(text@) == Err::<Seq<u8>, Seq<char>>(err@),
        },
{
    base64::Engine::decode(&base64::engine::general_purpose::STANDARD, text)
        .map_err(|err| format!("{err:#}"))
}

/// Calls `ubyte::ToByteUnit::mebibytes` on a `u32`, and then `ubyte::ByteUnit::as_u64`: so
/// many mebibytes in bytes, which always fit.
#[verifier::external_body]
pub(crate) fn mebibytes(n: u32) -> (r: u64)
    ensures
        r == n * MEBIBYTE,
{
    ubyte::ToByteUnit::mebibytes(n).as_u64()
}

/// So many bytes in whole mebibytes, cut to 32 bits.
pub open spec fn whole_mebibytes(bytes: u64) -> int {
    (bytes / MEBIBYTE) as int % 0x1_0000_0000
}

/// So many bytes in whole mebibytes; the number is cut to 32 bits.
pub fn to_mebibytes(bytes: u64) -> (r: u32)
    ensures
        r == (bytes / MEBIBYTE) % 0x1_0000_0000,
        r == whole_mebibytes(bytes),
{
    let mib: u64 = bytes / MEBIBYTE;
    assert(mib as u32 == mib % 0x1_0000_0000) by (bit_vector);
    mib as u32
}

/// The encoded description of a Function, given what came of decoding its Base64 text.
pub fn decoded_info(decoded: Result<Vec<u8>, String>) -> (r: Result<EncodedInfo, RegistrationError>)
    ensures
        r == (match decoded {
            Ok(json) => Ok(EncodedInfo::Json(json)),
            Err(err) => Err(RegistrationError::DecodeB64(err)),
        }),
{
    match decoded {
        Ok(json) => Ok(EncodedInfo::Json(json)),
        Err(err) => Err(RegistrationError::DecodeB64(err)),
    }
}

/// Takes the encoded description of a Function out of a request.
pub fn decode_request(req: RegisterFunctionRequest) -> (r: Result<EncodedInfo, RegistrationError>)
    ensures
        match req.function_info {
            None => r == Err::<EncodedInfo, _>(RegistrationError::MissingFunctionInfo),
            Some(FunctionInfoMessage { runtime_specific: None }) => r == Err::<EncodedInfo, _>(
                RegistrationError::MissingRuntimeSpecific,
            ),
            Some(FunctionInfoMessage { runtime_specific: Some(RuntimeSpecific::Proto3(any)) }) => r
                == Ok::<_, RegistrationError>(EncodedInfo::Proto3(any)),
            Some(FunctionInfoMessage { runtime_specific: Some(RuntimeSpecific::B64Json(text)) }) =>
                match base64_decoded(text@) {
                    Ok(json) => r matches Ok(EncodedInfo::Json(bytes)) && bytes@ == json,
                    Err(why) => r matches Err(RegistrationError::DecodeB64(err)) && err@ == why,
                },
        },
{
    match req.function_info {
        None => Err(RegistrationError::MissingFunctionInfo),
        Some(fi) => match fi.runtime_specific {
            None => Err(RegistrationError::MissingRuntimeSpecific),
            Some(RuntimeSpecific::Proto3(any)) => Ok(EncodedInfo::Proto3(any)),
            Some(RuntimeSpecific::B64Json(text)) => decoded_info(decode_base64(&text)),
        },
    }
}

/// Bytes are told in as many mebibytes as they fill, if these are a number of 32 bits.
pub proof fn law_whole_mebibytes(bytes: u64)
    requires
        bytes < 0x10_0000_0000_0000,
    ensures
        whole_mebibytes(bytes) * 0x10_0000 <= bytes,
        bytes < (whole_mebibytes(bytes) + 1) * 0x10_0000,
{
}

} // verus!
