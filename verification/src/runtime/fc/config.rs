//! The configuration of the runtime and of its machines.

use vstd::prelude::*;
use vstd::string::*;

use crate::runtime::fc::files::Node;
use crate::runtime::fc::info::FcFunctionInfo;
use crate::runtime::fc::kernel::{ip_boot_param, Architecture, KernelVerbosity};
use crate::runtime::net::TapInfo;
use crate::text::{concat3, itoa_u64};

verus! {

/// The configuration of the runtime.
#[derive(Debug)]
pub struct FirecrackerConfig {
    /// The directory of the machines' directories.
    pub uvms_root_path: String,
    /// The directory of the root file systems of registered Functions.
    pub uvms_rootfs_path: String,
    /// The machine monitor.
    pub firecracker_bin: String,
    /// The kernel that new machines boot.
    pub kernel_img: String,
    /// How much that kernel says.
    pub kernel_verbosity: KernelVerbosity,
}

impl Clone for FirecrackerConfig {
    fn clone(&self) -> (r: FirecrackerConfig)
        ensures
            r == *self,
    {
        FirecrackerConfig {
            uvms_root_path: self.uvms_root_path.clone(),
            uvms_rootfs_path: self.uvms_rootfs_path.clone(),
            firecracker_bin: self.firecracker_bin.clone(),
            kernel_img: self.kernel_img.clone(),
            kernel_verbosity: self.kernel_verbosity,
        }
    }
}

/// The log level of machine monitors.
pub const DEFAULT_VMM_LOG_LEVEL: &'static str = "Warning";

/// The lowest context identifier that a guest can have.
pub const MIN_GUEST_CID: u32 = 3;

/// The context identifier that the hash of a machine's name leads to.
pub open spec fn guest_cid(hash: u64) -> int {
    MIN_GUEST_CID + (hash % 0x1_0000_0000) as int % (u32::MAX - MIN_GUEST_CID)
}

/// The context identifier of a guest's vsock device, given the hash of the machine's name.
///
/// It is none of the reserved ones: 0, 1, 2 and `u32::MAX`.
pub fn vsock_guest_cid(hash: u64) -> (r: u32)
    ensures
        r == guest_cid(hash),
        MIN_GUEST_CID <= r < u32::MAX,
{
    assert(hash as u32 == hash % 0x1_0000_0000) by (bit_vector);
    MIN_GUEST_CID + hash as u32 % (u32::MAX - MIN_GUEST_CID)
}

/// What stands in a machine's configuration for what is only known when it is made. Numbers
/// stand there with quotes, which go with them.
pub open spec fn placeholders() -> Seq<Seq<char>> {
    seq![
        "\"$SNAPLACE_VCPU_COUNT\""@,
        "\"$SNAPLACE_MEM_SIZE_MIB\""@,
        "\"$SNAPLACE_VSOCK_GUEST_CID\""@,
        "$SNAPLACE_KERNEL_IMG_PATH"@,
        "$SNAPLACE_KERNEL_BOOT_ARGS"@,
        "$SNAPLACE_UVM_ROOTFS"@,
        "$SNAPLACE_HOST_TAP_NAME"@,
        "$SNAPLACE_VSOCK_UDS_PATH"@,
        "$SNAPLACE_VMM_LOG_LVL"@,
        "$SNAPLACE_VMM_LOG_PATH"@,
        "$SNAPLACE_VMM_METRICS_PATH"@,
    ]
}

/// What stands in a machine's configuration for what is only known when it is made.
pub fn uvm_config_patterns() -> (r: Vec<String>)
    ensures
        crate::text::texts(r@) == placeholders(),
{
    let mut r: Vec<String> = Vec::new();
    r.push("\"$SNAPLACE_VCPU_COUNT\"".to_owned());
    r.push("\"$SNAPLACE_MEM_SIZE_MIB\"".to_owned());
    r.push("\"$SNAPLACE_VSOCK_GUEST_CID\"".to_owned());
    r.push("$SNAPLACE_KERNEL_IMG_PATH".to_owned());
    r.push("$SNAPLACE_KERNEL_BOOT_ARGS".to_owned());
    r.push("$SNAPLACE_UVM_ROOTFS".to_owned());
    r.push("$SNAPLACE_HOST_TAP_NAME".to_owned());
    r.push("$SNAPLACE_VSOCK_UDS_PATH".to_owned());
    r.push("$SNAPLACE_VMM_LOG_LVL".to_owned());
    r.push("$SNAPLACE_VMM_LOG_PATH".to_owned());
    r.push("$SNAPLACE_VMM_METRICS_PATH".to_owned());
    r
}

/// What a machine is made from.
#[derive(Debug)]
pub struct UvmPlan {
    /// The machine's root file system.
    pub rootfs_path: String,
    /// The machine's network device.
    pub tap: TapInfo,
    /// The machine's directory.
    pub dir: String,
    /// The hash of the machine's name.
    pub vm_id_hash: u64,
    /// What it runs on.
    pub arch: Architecture,
}

/// The boot arguments of a machine: those of its kernel, then its network parameters.
pub open spec fn boot_args(config: FirecrackerConfig, arch: Architecture, tap: TapInfo) -> Seq<
    char,
> {
    arch.base_params() + " "@ + config.kernel_verbosity.console_params(arch) + " "@
        + crate::runtime::fc::kernel::ip_boot_text(
        tap,
        crate::runtime::net::Ipv4Addr::of_bits(
            crate::runtime::fc::kernel::netmask(tap.prefix_len),
        ),
    )
}

/// What comes in the places of [`placeholders`], one by one.
pub open spec fn replacements(
    config: FirecrackerConfig,
    fi: FcFunctionInfo,
    plan: UvmPlan,
) -> Seq<Seq<char>> {
    seq![
        crate::text::decimal(fi.vcpu_count as nat),
        crate::text::decimal((fi.memory / 0x10_0000) as nat),
        crate::text::decimal(guest_cid(plan.vm_id_hash) as nat),
        config.kernel_img@,
        boot_args(config, plan.arch, plan.tap),
        plan.rootfs_path@,
        plan.tap.name@,
        crate::paths::joined(plan.dir@, Node::VsockUds.name()),
        DEFAULT_VMM_LOG_LEVEL@,
        crate::paths::joined(plan.dir@, Node::LogFifo.name()),
        crate::paths::joined(plan.dir@, Node::MetricsFifo.name()),
    ]
}

/// What comes in the places of [`placeholders`], one by one.
pub fn uvm_config_replacements(
    config: &FirecrackerConfig,
    fi: &FcFunctionInfo,
    plan: &UvmPlan,
) -> (r: Vec<String>)
    requires
        plan.tap.prefix_len <= 32,
    ensures
        crate::text::texts(r@) == replacements(*config, *fi, *plan),
{
    let mem: u64 = fi.memory;
    assert(mem >> 20 == mem / 0x10_0000) by (bit_vector);
    let cid: u32 = vsock_guest_cid(plan.vm_id_hash);
    let mut r: Vec<String> = Vec::new();
    r.push(itoa_u64(fi.vcpu_count as u64));
    r.push(itoa_u64(mem >> 20));
    r.push(itoa_u64(cid as u64));
    r.push(config.kernel_img.clone());
    r.push(
        concat3(
            config.kernel_verbosity.boot_params(plan.arch),
            " ",
            ip_boot_param(&plan.tap).as_str(),
        ),
    );
    r.push(plan.rootfs_path.clone());
    r.push(plan.tap.name.clone());
    r.push(Node::VsockUds.path_in(plan.dir.as_str()));
    r.push(DEFAULT_VMM_LOG_LEVEL.to_owned());
    r.push(Node::LogFifo.path_in(plan.dir.as_str()));
    r.push(Node::MetricsFifo.path_in(plan.dir.as_str()));
    r
}

/// A text in which patterns are replaced; `None` if they are too many or too long.
pub uninterp spec fn substituted(
    patterns: Seq<Seq<char>>,
    text: Seq<char>,
    replacements: Seq<Seq<char>>,
) -> Option<Seq<char>>;

/// Calls `aho_corasick::AhoCorasick::new`, and then `aho_corasick::AhoCorasick::replace_all`
/// on what it made, if it made something. Which of the places where patterns overlap is
/// replaced is left to that crate.
#[verifier::external_body]
pub(crate) fn substitute(patterns: &Vec<String>, text: &str, with: &Vec<String>) -> (r: Option<
    String,
>)
    requires
        patterns@.len() == with@.len(),
    ensures
        match r {
            Some(t) => substituted(
                crate::text::texts(patterns@),
                text@,
                crate::text::texts(with@),
            ) == Some(t@),
            None => substituted(
                crate::text::texts(patterns@),
                text@,
                crate::text::texts(with@),
            ) is None,
        },
{
    aho_corasick::AhoCorasick::new(patterns).ok().map(|ac| ac.replace_all(text, with.as_slice()))
}

/// The configuration of a machine, made from a template: `None` if the search for the
/// placeholders cannot be set up.
pub fn render_uvm_config(
    config: &FirecrackerConfig,
    fi: &FcFunctionInfo,
    plan: &UvmPlan,
    template: &str,
) -> (r: Option<String>)
    requires
        plan.tap.prefix_len <= 32,
    ensures
        match r {
            Some(t) => substituted(
                placeholders(),
                template@,
                replacements(*config, *fi, *plan),
            ) == Some(t@),
            None => substituted(
                placeholders(),
                template@,
                replacements(*config, *fi, *plan),
            ) is None,
        },
{
    let patterns = uvm_config_patterns();
    let with = uvm_config_replacements(config, fi, plan);
    proof {
        assert(placeholders().len() == crate::text::texts(patterns@).len());
        assert(crate::text::texts(with@).len() == placeholders().len());
    }
    substitute(&patterns, template, &with)
}

/// A guest's context identifier is never a reserved one, and follows the hash: the next hash leads to
/// the next identifier, and after the last one to the first.
pub proof fn law_context_identifiers(hash: u64)
    requires
        hash < 0xffff_ffff,
    ensures
        3 <= guest_cid(hash) < 0xffff_ffff,
        guest_cid(0) == 3,
        guest_cid(hash) < 0xffff_fffe ==> guest_cid((hash + 1) as u64) == guest_cid(hash) + 1,
        guest_cid(hash) == 0xffff_fffe ==> guest_cid((hash + 1) as u64) == 3,
{
}

/// As many texts come in the places of placeholders as there are placeholders, and each comes from
/// what it stands for: numbers as they are, paths in the machine's directory, the rest unchanged.
pub proof fn law_what_a_configuration_says(
    config: FirecrackerConfig,
    fi: FcFunctionInfo,
    plan: UvmPlan,
    i: int,
)
    requires
        0 <= i < placeholders().len(),
    ensures
        placeholders().len() == 11,
        replacements(config, fi, plan).len() == 11,
        placeholders()[i] == "\"$SNAPLACE_VCPU_COUNT\""@ ==> crate::text::u64_of_text(
            replacements(config, fi, plan)[i],
        ) == Some(fi.vcpu_count as u64),
        placeholders()[i] == "\"$SNAPLACE_MEM_SIZE_MIB\""@ ==> crate::text::u64_of_text(
            replacements(config, fi, plan)[i],
        ) == Some((fi.memory / 0x10_0000) as u64),
        placeholders()[i] == "$SNAPLACE_KERNEL_IMG_PATH"@ ==> replacements(config, fi, plan)[i]
            == config.kernel_img@,
        placeholders()[i] == "$SNAPLACE_UVM_ROOTFS"@ ==> replacements(config, fi, plan)[i]
            == plan.rootfs_path@,
        placeholders()[i] == "$SNAPLACE_HOST_TAP_NAME"@ ==> replacements(config, fi, plan)[i]
            == plan.tap.name@,
{
    reveal_strlit("\"$SNAPLACE_VCPU_COUNT\"");
    reveal_strlit("\"$SNAPLACE_MEM_SIZE_MIB\"");
    reveal_strlit("\"$SNAPLACE_VSOCK_GUEST_CID\"");
    reveal_strlit("$SNAPLACE_KERNEL_IMG_PATH");
    reveal_strlit("$SNAPLACE_KERNEL_BOOT_ARGS");
    reveal_strlit("$SNAPLACE_UVM_ROOTFS");
    reveal_strlit("$SNAPLACE_HOST_TAP_NAME");
    reveal_strlit("$SNAPLACE_VSOCK_UDS_PATH");
    reveal_strlit("$SNAPLACE_VMM_LOG_LVL");
    reveal_strlit("$SNAPLACE_VMM_LOG_PATH");
    reveal_strlit("$SNAPLACE_VMM_METRICS_PATH");
    crate::text::law_numbers_are_read_back(fi.vcpu_count as nat, 0);
    crate::text::law_numbers_are_read_back((fi.memory / 0x10_0000) as nat, 0);
    assert("\"$SNAPLACE_VCPU_COUNT\""@[0] == '"' && "\"$SNAPLACE_MEM_SIZE_MIB\""@[0] == '"');
    assert("$SNAPLACE_HOST_TAP_NAME"@[10] == 'H' && "$SNAPLACE_UVM_ROOTFS"@[10] == 'U');
    assert("$SNAPLACE_VSOCK_UDS_PATH"@[10] == 'V' && "$SNAPLACE_VMM_LOG_PATH"@[10] == 'V');
    assert("$SNAPLACE_KERNEL_IMG_PATH"@[10] == 'K' && "$SNAPLACE_KERNEL_BOOT_ARGS"@[10] == 'K');
    assert("\"$SNAPLACE_VCPU_COUNT\""@.len() == 22 && "\"$SNAPLACE_MEM_SIZE_MIB\""@.len() == 24);
    assert("\"$SNAPLACE_VSOCK_GUEST_CID\""@.len() == 27);
    assert("$SNAPLACE_KERNEL_IMG_PATH"@.len() == 25 && "$SNAPLACE_KERNEL_BOOT_ARGS"@.len() == 26);
}

} // verus!
