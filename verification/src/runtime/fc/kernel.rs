//! Boot parameters of guest kernels.

use vstd::arithmetic::power2::*;
use vstd::bits::*;
use vstd::prelude::*;
use vstd::string::*;

use crate::runtime::net::{Ipv4Addr, TapInfo};
use crate::text::concat3;

verus! {

/// How much a guest kernel says on its serial console.
#[derive(Clone, Copy, Debug, PartialEq, Eq, Structural)]
pub enum KernelVerbosity {
    /// There is no serial console.
    Silent,
    /// There is a serial console, and userspace keeps off it.
    Minimal,
    /// There is a serial console, and userspace logs to it.
    Verbose,
}

impl Default for KernelVerbosity {
    fn default() -> (r: KernelVerbosity)
        ensures
            r == KernelVerbosity::Silent,
    {
        KernelVerbosity::Silent
    }
}

/// The machines that guests run on.
#[derive(Clone, Copy, Debug, PartialEq, Eq, Structural)]
pub enum Architecture {
    X86_64,
    Aarch64,
}

impl Architecture {
    /// What all guests boot with.
    pub open spec fn base_params(self) -> Seq<char> {
        match self {
            Architecture::X86_64 => BASE_KERNEL_BOOT_PARAMS@,
            Architecture::Aarch64 => BASE_AARCH64_BOOT_PARAMS@,
        }
    }
}

/// What all x86_64 guests boot with.
pub const BASE_KERNEL_BOOT_PARAMS: &'static str = "i8042.nokbd i8042.noaux i8042.nomux ipv6.disable=1 reboot=k panic=1 swiotlb=noforce nomodule random.trust_cpu=on tsc=reliable ro init=/sbin/overlay-init";

/// What silent x86_64 guests boot with.
pub const SILENT_KERNEL_BOOT_PARAMS: &'static str = "i8042.nokbd i8042.noaux i8042.nomux ipv6.disable=1 reboot=k panic=1 swiotlb=noforce nomodule random.trust_cpu=on tsc=reliable ro init=/sbin/overlay-init 8250.nr_uarts=0";

/// What verbose x86_64 guests boot with.
pub const VERBOSE_KERNEL_BOOT_PARAMS: &'static str = "i8042.nokbd i8042.noaux i8042.nomux ipv6.disable=1 reboot=k panic=1 swiotlb=noforce nomodule random.trust_cpu=on tsc=reliable ro init=/sbin/overlay-init 8250.nr_uarts=1 console=ttyS0,115200n8 systemd.journald.forward_to_console=yes";

/// What x86_64 guests of few words boot with.
pub const MINIVERB_KERNEL_BOOT_PARAMS: &'static str = "i8042.nokbd i8042.noaux i8042.nomux ipv6.disable=1 reboot=k panic=1 swiotlb=noforce nomodule random.trust_cpu=on tsc=reliable ro init=/sbin/overlay-init 8250.nr_uarts=1 console=ttyS0,115200n8 systemd.journald.forward_to_console=no systemd.getty_auto=no";

/// What all aarch64 guests boot with.
pub const BASE_AARCH64_BOOT_PARAMS: &'static str = "ipv6.disable=1 reboot=k panic=1 swiotlb=noforce nomodule random.trust_cpu=on ro init=/sbin/overlay-init";

/// What silent aarch64 guests boot with.
pub const SILENT_AARCH64_BOOT_PARAMS: &'static str = "ipv6.disable=1 reboot=k panic=1 swiotlb=noforce nomodule random.trust_cpu=on ro init=/sbin/overlay-init 8250.nr_uarts=0";

/// What verbose aarch64 guests boot with.
pub const VERBOSE_AARCH64_BOOT_PARAMS: &'static str = "ipv6.disable=1 reboot=k panic=1 swiotlb=noforce nomodule random.trust_cpu=on ro init=/sbin/overlay-init keep_bootcon 8250.nr_uarts=1 console=ttyS0,115200n8 systemd.journald.forward_to_console=yes";

/// What aarch64 guests of few words boot with.
pub const MINIVERB_AARCH64_BOOT_PARAMS: &'static str = "ipv6.disable=1 reboot=k panic=1 swiotlb=noforce nomodule random.trust_cpu=on ro init=/sbin/overlay-init keep_bootcon 8250.nr_uarts=1 console=ttyS0,115200n8 systemd.journald.forward_to_console=no systemd.getty_auto=no";

impl KernelVerbosity {
    /// What a guest of this verbosity boots with besides the base parameters. On aarch64 the
    /// early console is kept where there is a console.
    pub open spec fn console_params(self, arch: Architecture) -> Seq<char> {
        match (self, arch) {
            (KernelVerbosity::Silent, _) => "8250.nr_uarts=0"@,
            (KernelVerbosity::Minimal, Architecture::X86_64) =>
                "8250.nr_uarts=1 console=ttyS0,115200n8 systemd.journald.forward_to_console=no systemd.getty_auto=no"@,
            (KernelVerbosity::Verbose, Architecture::X86_64) =>
                "8250.nr_uarts=1 console=ttyS0,115200n8 systemd.journald.forward_to_console=yes"@,
            (KernelVerbosity::Minimal, Architecture::Aarch64) =>
                "keep_bootcon 8250.nr_uarts=1 console=ttyS0,115200n8 systemd.journald.forward_to_console=no systemd.getty_auto=no"@,
            (KernelVerbosity::Verbose, Architecture::Aarch64) =>
                "keep_bootcon 8250.nr_uarts=1 console=ttyS0,115200n8 systemd.journald.forward_to_console=yes"@,
        }
    }

    /// The boot parameters of a guest: the base parameters, then those of its console.
    pub fn boot_params(&self, arch: Architecture) -> (r: &'static str)
        ensures
            r@ == arch.base_params() + " "@ + self.console_params(arch),
    {
        proof {
            reveal_strlit(" ");
        }
        match arch {
            Architecture::X86_64 => {
                proof {
                    reveal_strlit(
                        "i8042.nokbd i8042.noaux i8042.nomux ipv6.disable=1 reboot=k panic=1 swiotlb=noforce nomodule random.trust_cpu=on tsc=reliable ro init=/sbin/overlay-init",
                    );
                }
                match self {
                    KernelVerbosity::Silent => {
                        proof {
                            reveal_strlit(
                                "i8042.nokbd i8042.noaux i8042.nomux ipv6.disable=1 reboot=k panic=1 swiotlb=noforce nomodule random.trust_cpu=on tsc=reliable ro init=/sbin/overlay-init 8250.nr_uarts=0",
                            );
                            reveal_strlit(
                                "8250.nr_uarts=0",
                            );
                            assert(SILENT_KERNEL_BOOT_PARAMS@ =~= BASE_KERNEL_BOOT_PARAMS@ + " "@
                                + "8250.nr_uarts=0"@);
                        }
                        SILENT_KERNEL_BOOT_PARAMS
                    },
                    KernelVerbosity::Minimal => {
                        proof {
                            reveal_strlit(
                                "i8042.nokbd i8042.noaux i8042.nomux ipv6.disable=1 reboot=k panic=1 swiotlb=noforce nomodule random.trust_cpu=on tsc=reliable ro init=/sbin/overlay-init 8250.nr_uarts=1 console=ttyS0,115200n8 systemd.journald.forward_to_console=no systemd.getty_auto=no",
                            );
                            reveal_strlit(
                                "8250.nr_uarts=1 console=ttyS0,115200n8 systemd.journald.forward_to_console=no systemd.getty_auto=no",
                            );
                            assert(MINIVERB_KERNEL_BOOT_PARAMS@ =~= BASE_KERNEL_BOOT_PARAMS@ + " "@
                                + "8250.nr_uarts=1 console=ttyS0,115200n8 systemd.journald.forward_to_console=no systemd.getty_auto=no"@);
                        }
                        MINIVERB_KERNEL_BOOT_PARAMS
                    },
                    KernelVerbosity::Verbose => {
                        proof {
                            reveal_strlit(
                                "i8042.nokbd i8042.noaux i8042.nomux ipv6.disable=1 reboot=k panic=1 swiotlb=noforce nomodule random.trust_cpu=on tsc=reliable ro init=/sbin/overlay-init 8250.nr_uarts=1 console=ttyS0,115200n8 systemd.journald.forward_to_console=yes",
                            );
                            reveal_strlit(
                                "8250.nr_uarts=1 console=ttyS0,115200n8 systemd.journald.forward_to_console=yes",
                            );
                            assert(VERBOSE_KERNEL_BOOT_PARAMS@ =~= BASE_KERNEL_BOOT_PARAMS@ + " "@
                                + "8250.nr_uarts=1 console=ttyS0,115200n8 systemd.journald.forward_to_console=yes"@);
                        }
                        VERBOSE_KERNEL_BOOT_PARAMS
                    },
                }
            },
            Architecture::Aarch64 => {
                proof {
                    reveal_strlit(
                        "ipv6.disable=1 reboot=k panic=1 swiotlb=noforce nomodule random.trust_cpu=on ro init=/sbin/overlay-init",
                    );
                }
                match self {
                    KernelVerbosity::Silent => {
                        proof {
                            reveal_strlit(
                                "ipv6.disable=1 reboot=k panic=1 swiotlb=noforce nomodule random.trust_cpu=on ro init=/sbin/overlay-init 8250.nr_uarts=0",
                            );
                            reveal_strlit(
                                "8250.nr_uarts=0",
                            );
                            assert(SILENT_AARCH64_BOOT_PARAMS@ =~= BASE_AARCH64_BOOT_PARAMS@ + " "@
                                + "8250.nr_uarts=0"@);
                        }
                        SILENT_AARCH64_BOOT_PARAMS
                    },
                    KernelVerbosity::Minimal => {
                        proof {
                            reveal_strlit(
                                "ipv6.disable=1 reboot=k panic=1 swiotlb=noforce nomodule random.trust_cpu=on ro init=/sbin/overlay-init keep_bootcon 8250.nr_uarts=1 console=ttyS0,115200n8 systemd.journald.forward_to_console=no systemd.getty_auto=no",
                            );
                            reveal_strlit(
                                "keep_bootcon 8250.nr_uarts=1 console=ttyS0,115200n8 systemd.journald.forward_to_console=no systemd.getty_auto=no",
                            );
                            assert(MINIVERB_AARCH64_BOOT_PARAMS@ =~= BASE_AARCH64_BOOT_PARAMS@ + " "@
                                + "keep_bootcon 8250.nr_uarts=1 console=ttyS0,115200n8 systemd.journald.forward_to_console=no systemd.getty_auto=no"@);
                        }
                        MINIVERB_AARCH64_BOOT_PARAMS
                    },
                    KernelVerbosity::Verbose => {
                        proof {
                            reveal_strlit(
                                "ipv6.disable=1 reboot=k panic=1 swiotlb=noforce nomodule random.trust_cpu=on ro init=/sbin/overlay-init keep_bootcon 8250.nr_uarts=1 console=ttyS0,115200n8 systemd.journald.forward_to_console=yes",
                            );
                            reveal_strlit(
                                "keep_bootcon 8250.nr_uarts=1 console=ttyS0,115200n8 systemd.journald.forward_to_console=yes",
                            );
                            assert(VERBOSE_AARCH64_BOOT_PARAMS@ =~= BASE_AARCH64_BOOT_PARAMS@ + " "@
                                + "keep_bootcon 8250.nr_uarts=1 console=ttyS0,115200n8 systemd.journald.forward_to_console=yes"@);
                        }
                        VERBOSE_AARCH64_BOOT_PARAMS
                    },
                }
            },
        }
    }
}

/// Exactly the `prefix_len` most significant bits of `mask` are set.
pub open spec fn is_netmask(mask: u32, prefix_len: u8) -> bool {
    forall|i: u32| i < 32 ==> (#[trigger] ((mask >> i) & 1) == 1 <==> i + prefix_len >= 32)
}

/// The network mask with the given prefix length, as a number.
pub open spec fn netmask(prefix_len: u8) -> u32
    recommends
        prefix_len <= 32,
{
    (0x1_0000_0000 - pow2((32 - prefix_len) as nat)) as u32
}

/// The network mask with the given prefix length.
pub fn prefix_to_mask(prefix_len: u8) -> (r: u32)
    requires
        prefix_len <= 32,
    ensures
        r == netmask(prefix_len),
        is_netmask(r, prefix_len),
{
    if prefix_len == 0 {
        assert forall|i: u32| i < 32 implies (#[trigger] ((0u32 >> i) & 1) == 1 <==> i + prefix_len
            >= 32) by {
            assert((0u32 >> i) & 1 == 0) by (bit_vector);
        }
        proof {
            lemma2_to64();
        }
        0
    } else {
        let shift: u8 = 32 - prefix_len;
        let mask: u32 = u32::MAX << shift;
        assert forall|i: u32| i < 32 implies (#[trigger] ((mask >> i) & 1) == 1 <==> i + prefix_len
            >= 32) by {
            assert(((mask >> i) & 1) == 1 <==> i >= shift) by (bit_vector)
                requires
                    mask == u32::MAX << shift,
                    shift < 32,
                    i < 32,
            ;
        }
        proof {
            let bit = 1u64 << (shift as u64);
            assert(mask + bit == 0x1_0000_0000) by (bit_vector)
                requires
                    mask == u32::MAX << shift,
                    bit == 1u64 << (shift as u64),
                    shift < 32,
            ;
            lemma2_to64();
            lemma_pow2_strictly_increases(shift as nat, 32);
            lemma_u64_shl_is_mul(1, shift as u64);
        }
        mask
    }
}

/// A guest's network parameters: its address, the gateway, the network mask, no host name,
/// the device, no autoconfiguration, two name servers and no time server.
pub open spec fn ip_boot_text(tap: TapInfo, mask: Ipv4Addr) -> Seq<char> {
    "ip="@ + tap.ip_addr.text() + "::"@ + tap.gateway.text() + ":"@ + mask.text()
        + "::eth0:off:1.1.1.1:1.0.0.1:"@
}

/// The `ip=` boot parameter of a guest behind `tap`.
pub fn ip_boot_param(tap: &TapInfo) -> (r: String)
    requires
        tap.prefix_len <= 32,
    ensures
        r@ == ip_boot_text(*tap, Ipv4Addr::of_bits(netmask(tap.prefix_len))),
{
    let mask: u32 = prefix_to_mask(tap.prefix_len);
    let mut r = concat3("ip=", tap.ip_addr.to_text().as_str(), "::");
    r.append(tap.gateway.to_text().as_str());
    r.append(":");
    r.append(Ipv4Addr::from_bits(mask).to_text().as_str());
    r.append("::eth0:off:1.1.1.1:1.0.0.1:");
    r
}

/// No bit is set in the mask of the longest network, and all are in that of a single address; with
/// each bit more of a prefix the next lower bit of the mask is set.
pub proof fn law_netmasks(prefix_len: u8)
    requires
        prefix_len < 32,
    ensures
        netmask(0) == 0,
        netmask(32) == 0xffff_ffff,
        netmask((prefix_len + 1) as u8) == netmask(prefix_len) + pow2((31 - prefix_len) as nat),
{
    lemma2_to64();
    lemma_pow2_unfold((32 - prefix_len) as nat);
    lemma_pow2_pos((31 - prefix_len) as nat);
    if prefix_len > 0 {
        lemma_pow2_strictly_increases((32 - prefix_len) as nat, 32);
    }
}

} // verus!
