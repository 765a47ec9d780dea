//! Access to the per-vCPU registers of a finalized interrupt controller.
//!
//! An access is validated and packed into one device-attribute call. A
//! request that fails validation yields no call at all, so it never reaches
//! the kernel.

use crate::gic::{
    DeviceAttr, GicVersion, Payload, KVM_DEV_ARM_VGIC_GRP_CPU_REGS,
    KVM_DEV_ARM_VGIC_GRP_CPU_SYSREGS, KVM_DEV_ARM_VGIC_GRP_DIST_REGS,
    KVM_DEV_ARM_VGIC_GRP_REDIST_REGS, KVM_VGIC_V2_CPU_SIZE, KVM_VGIC_V2_DIST_SIZE,
    KVM_VGIC_V3_DIST_SIZE, KVM_VGIC_V3_REDIST_SIZE,
};
use crate::setup::GICDevice;
use vstd::prelude::*;

verus! {

/// Position of the vCPU index in the attribute identifier of a register access.
pub const KVM_DEV_ARM_VGIC_CPUID_SHIFT: u64 = 32;

/// Size of the identifier space of the CPU-interface system registers.
pub const KVM_DEV_ARM_VGIC_SYSREG_SPAN: u64 = 0x1_0000;

/// The three register families of the controller.
#[derive(Clone, Copy, Debug, PartialEq, Eq, Structural)]
pub enum RegisterFamily {
    Distributor,
    Redistributor,
    CpuInterface,
}

#[derive(Clone, Copy, Debug, PartialEq, Eq, Structural)]
pub enum RegisterError {
    /// The vCPU index is not below the device's vCPU count.
    InvalidVcpu,
    /// The offset is not a multiple of four, or lies outside the registers
    /// that the device's revision has in this family.
    InvalidOffset,
}

/// A validated register access: the attribute call to make, and whether it
/// sets the attribute or gets it.
#[derive(Clone, Copy, Debug, PartialEq, Eq, Structural)]
pub struct RegisterAccess {
    pub is_set: bool,
    pub attr: DeviceAttr,
}

/// The attribute group through which a revision reaches a register family.
pub open spec fn spec_register_group(version: GicVersion, family: RegisterFamily) -> u32 {
    match (version, family) {
        (_, RegisterFamily::Distributor) => KVM_DEV_ARM_VGIC_GRP_DIST_REGS,
        (_, RegisterFamily::Redistributor) => KVM_DEV_ARM_VGIC_GRP_REDIST_REGS,
        (GicVersion::V2, RegisterFamily::CpuInterface) => KVM_DEV_ARM_VGIC_GRP_CPU_REGS,
        (GicVersion::V3, RegisterFamily::CpuInterface) => KVM_DEV_ARM_VGIC_GRP_CPU_SYSREGS,
    }
}

/// The end of the valid offsets of a register family. The older revision
/// has no redistributor, so no offset is valid there.
pub open spec fn spec_register_span(version: GicVersion, family: RegisterFamily) -> u64 {
    match (version, family) {
        (GicVersion::V2, RegisterFamily::Distributor) => KVM_VGIC_V2_DIST_SIZE,
        (GicVersion::V2, RegisterFamily::Redistributor) => 0,
        (GicVersion::V2, RegisterFamily::CpuInterface) => KVM_VGIC_V2_CPU_SIZE,
        (GicVersion::V3, RegisterFamily::Distributor) => KVM_VGIC_V3_DIST_SIZE,
        (GicVersion::V3, RegisterFamily::Redistributor) => KVM_VGIC_V3_REDIST_SIZE,
        (GicVersion::V3, RegisterFamily::CpuInterface) => KVM_DEV_ARM_VGIC_SYSREG_SPAN,
    }
}

/// The attribute identifier of a register access: the vCPU index in the
/// upper half, the offset in the lower.
pub open spec fn spec_register_attr(vcpu_index: u64, offset: u32) -> u64 {
    (vcpu_index << KVM_DEV_ARM_VGIC_CPUID_SHIFT) | (offset as u64)
}

/// The outcome of a register access on a device of `version` that serves
/// `vcpu_count` vCPUs. `value` is the value to set, or `None` for a get.
pub open spec fn spec_register_access(
    version: GicVersion,
    vcpu_count: u64,
    family: RegisterFamily,
    vcpu_index: u64,
    offset: u32,
    value: Option<u32>,
) -> Result<RegisterAccess, RegisterError> {
    if vcpu_index >= vcpu_count {
        Err(RegisterError::InvalidVcpu)
    } else if offset % 4 != 0 || offset >= spec_register_span(version, family) {
        Err(RegisterError::InvalidOffset)
    } else {
        Ok(
            RegisterAccess {
                is_set: value.is_some(),
                attr: DeviceAttr {
                    group: spec_register_group(version, family),
                    attr: spec_register_attr(vcpu_index, offset),
                    payload: match value {
                        Some(word) => Payload::Word(word),
                        None => Payload::WordBuffer,
                    },
                    flags: 0,
                },
            },
        )
    }
}

pub fn register_group(version: GicVersion, family: RegisterFamily) -> (group: u32)
    ensures
        group == spec_register_group(version, family),
{
    match family {
        RegisterFamily::Distributor => KVM_DEV_ARM_VGIC_GRP_DIST_REGS,
        RegisterFamily::Redistributor => KVM_DEV_ARM_VGIC_GRP_REDIST_REGS,
        RegisterFamily::CpuInterface => match version {
            GicVersion::V2 => KVM_DEV_ARM_VGIC_GRP_CPU_REGS,
            GicVersion::V3 => KVM_DEV_ARM_VGIC_GRP_CPU_SYSREGS,
        },
    }
}

pub fn register_span(version: GicVersion, family: RegisterFamily) -> (span: u64)
    ensures
        span == spec_register_span(version, family),
{
    match version {
        GicVersion::V2 => match family {
            RegisterFamily::Distributor => KVM_VGIC_V2_DIST_SIZE,
            RegisterFamily::Redistributor => 0,
            RegisterFamily::CpuInterface => KVM_VGIC_V2_CPU_SIZE,
        },
        GicVersion::V3 => match family {
            RegisterFamily::Distributor => KVM_VGIC_V3_DIST_SIZE,
            RegisterFamily::Redistributor => KVM_VGIC_V3_REDIST_SIZE,
            RegisterFamily::CpuInterface => KVM_DEV_ARM_VGIC_SYSREG_SPAN,
        },
    }
}

/// Validates an access to a register of `device` and packs it into an
/// attribute call.
pub fn register_access<H>(
    device: &GICDevice<H>,
    family: RegisterFamily,
    vcpu_index: u64,
    offset: u32,
    value: Option<u32>,
) -> (res: Result<RegisterAccess, RegisterError>)
    ensures
        res == spec_register_access(
            device@.version,
            device@.vcpu_count,
            family,
            vcpu_index,
            offset,
            value,
        ),
{
    let version = device.gic_version();
    if vcpu_index >= device.vcpu_count() {
        return Err(RegisterError::InvalidVcpu);
    }
    if offset % 4 != 0 || offset as u64 >= register_span(version, family) {
        return Err(RegisterError::InvalidOffset);
    }
    let payload = match value {
        Some(word) => Payload::Word(word),
        None => Payload::WordBuffer,
    };
    Ok(
        RegisterAccess {
            is_set: value.is_some(),
            attr: DeviceAttr {
                group: register_group(version, family),
                attr: (vcpu_index << KVM_DEV_ARM_VGIC_CPUID_SHIFT) | (offset as u64),
                payload,
                flags: 0,
            },
        },
    )
}

pub fn get_distributor_register<H>(device: &GICDevice<H>, vcpu_index: u64, offset: u32) -> (res:
    Result<RegisterAccess, RegisterError>)
    ensures
        res == spec_register_access(
            device@.version,
            device@.vcpu_count,
            RegisterFamily::Distributor,
            vcpu_index,
            offset,
            None,
        ),
{
    register_access(device, RegisterFamily::Distributor, vcpu_index, offset, None)
}

pub fn set_distributor_register<H>(
    device: &GICDevice<H>,
    vcpu_index: u64,
    offset: u32,
    value: u32,
) -> (res: Result<RegisterAccess, RegisterError>)
    ensures
        res == spec_register_access(
            device@.version,
            device@.vcpu_count,
            RegisterFamily::Distributor,
            vcpu_index,
            offset,
            Some(value),
        ),
{
    register_access(device, RegisterFamily::Distributor, vcpu_index, offset, Some(value))
}

pub fn get_redistributor_register<H>(device: &GICDevice<H>, vcpu_index: u64, offset: u32) -> (res:
    Result<RegisterAccess, RegisterError>)
    ensures
        res == spec_register_access(
            device@.version,
            device@.vcpu_count,
            RegisterFamily::Redistributor,
            vcpu_index,
            offset,
            None,
        ),
{
    register_access(device, RegisterFamily::Redistributor, vcpu_index, offset, None)
}

pub fn set_redistributor_register<H>(
    device: &GICDevice<H>,
    vcpu_index: u64,
    offset: u32,
    value: u32,
) -> (res: Result<RegisterAccess, RegisterError>)
    ensures
        res == spec_register_access(
            device@.version,
            device@.vcpu_count,
            RegisterFamily::Redistributor,
            vcpu_index,
            offset,
            Some(value),
        ),
{
    register_access(device, RegisterFamily::Redistributor, vcpu_index, offset, Some(value))
}

pub fn get_cpu_interface_register<H>(device: &GICDevice<H>, vcpu_index: u64, offset: u32) -> (res:
    Result<RegisterAccess, RegisterError>)
    ensures
        res == spec_register_access(
            device@.version,
            device@.vcpu_count,
            RegisterFamily::CpuInterface,
            vcpu_index,
            offset,
            None,
        ),
{
    register_access(device, RegisterFamily::CpuInterface, vcpu_index, offset, None)
}

pub fn set_cpu_interface_register<H>(
    device: &GICDevice<H>,
    vcpu_index: u64,
    offset: u32,
    value: u32,
) -> (res: Result<RegisterAccess, RegisterError>)
    ensures
        res == spec_register_access(
            device@.version,
            device@.vcpu_count,
            RegisterFamily::CpuInterface,
            vcpu_index,
            offset,
            Some(value),
        ),
{
    register_access(device, RegisterFamily::CpuInterface, vcpu_index, offset, Some(value))
}

/// An access with a vCPU index that the device does not serve is rejected,
/// whatever the family, the offset and the direction; and an access is
/// accepted only with an index that the device serves, a register group of
/// its revision and an identifier from which the offset can be read back,
/// and the index too where it fits the identifier's upper half.
pub proof fn law_register_access_checks_vcpu(
    version: GicVersion,
    vcpu_count: u64,
    family: RegisterFamily,
    vcpu_index: u64,
    offset: u32,
    value: Option<u32>,
)
    ensures
        vcpu_index >= vcpu_count ==> spec_register_access(
            version,
            vcpu_count,
            family,
            vcpu_index,
            offset,
            value,
        ) == Err::<RegisterAccess, RegisterError>(RegisterError::InvalidVcpu),
        match spec_register_access(version, vcpu_count, family, vcpu_index, offset, value) {
            Ok(access) => {
                &&& vcpu_index < vcpu_count
                &&& offset % 4 == 0
                &&& offset < spec_register_span(version, family)
                &&& access.is_set == value.is_some()
                &&& access.attr.group == spec_register_group(version, family)
                &&& vcpu_index <= 0xffff_ffff ==> access.attr.attr >> 32 == vcpu_index
                &&& access.attr.attr & 0xffff_ffff == offset
            },
            Err(_) => true,
        },
{
    if vcpu_index < vcpu_count {
        let attr = spec_register_attr(vcpu_index, offset);
        let wide = offset as u64;
        assert(((vcpu_index << 32) | wide) & 0xffff_ffff == wide && (vcpu_index <= 0xffff_ffff ==> ((
        vcpu_index << 32) | wide) >> 32 == vcpu_index)) by (bit_vector)
            requires
                wide <= 0xffff_ffff,
        ;
    }
}

} // verus!
