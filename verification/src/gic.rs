//! Construction of the virtual generic interrupt controller.
//!
//! The construction is a dialogue with the hypervisor. Each step of it names
//! one kernel call; the caller makes the call and hands its outcome back,
//! which yields the next step. The newer revision is attempted first and the
//! older one is the fallback.

use vstd::prelude::*;

verus! {

/// Start of the memory-mapped I/O range; the controller is placed right below it.
pub const MAPPED_IO_START: u64 = 0x4000_0000;

/// First interrupt line that is not reserved for per-CPU interrupts.
pub const IRQ_BASE: u32 = 32;

/// Architectural ceiling of interrupt lines of the machine.
pub const IRQ_MAX: u32 = 128;

/// Largest number of vCPUs whose redistributors, of the newer revision, fit
/// below the distributor.
pub const MAX_VCPU_COUNT: u64 = 8191;

/// Kernel device type of the older revision.
pub const KVM_DEV_TYPE_ARM_VGIC_V2: u32 = 5;

/// Kernel device type of the newer revision.
pub const KVM_DEV_TYPE_ARM_VGIC_V3: u32 = 7;

/// Attribute group that places the regions of the device in guest memory.
pub const KVM_DEV_ARM_VGIC_GRP_ADDR: u32 = 0;

/// Attribute group of the distributor registers.
pub const KVM_DEV_ARM_VGIC_GRP_DIST_REGS: u32 = 1;

/// Attribute group of the CPU-interface registers of the older revision.
pub const KVM_DEV_ARM_VGIC_GRP_CPU_REGS: u32 = 2;

/// Attribute group that sets the number of interrupt lines.
pub const KVM_DEV_ARM_VGIC_GRP_NR_IRQS: u32 = 3;

/// Attribute group of the control operations.
pub const KVM_DEV_ARM_VGIC_GRP_CTRL: u32 = 4;

/// Attribute group of the redistributor registers.
pub const KVM_DEV_ARM_VGIC_GRP_REDIST_REGS: u32 = 5;

/// Attribute group of the CPU-interface system registers of the newer revision.
pub const KVM_DEV_ARM_VGIC_GRP_CPU_SYSREGS: u32 = 6;

/// Control operation that initialises the device and locks its configuration.
pub const KVM_DEV_ARM_VGIC_CTRL_INIT: u64 = 0;

/// Address attribute of the distributor, older revision.
pub const KVM_VGIC_V2_ADDR_TYPE_DIST: u64 = 0;

/// Address attribute of the CPU interface, older revision.
pub const KVM_VGIC_V2_ADDR_TYPE_CPU: u64 = 1;

/// Address attribute of the distributor, newer revision.
pub const KVM_VGIC_V3_ADDR_TYPE_DIST: u64 = 2;

/// Address attribute of the redistributors, newer revision.
pub const KVM_VGIC_V3_ADDR_TYPE_REDIST: u64 = 3;

/// Size of the distributor region, older revision.
pub const KVM_VGIC_V2_DIST_SIZE: u64 = 0x1000;

/// Size of the CPU-interface region, older revision.
pub const KVM_VGIC_V2_CPU_SIZE: u64 = 0x2000;

/// Size of the distributor region, newer revision.
pub const KVM_VGIC_V3_DIST_SIZE: u64 = 0x1_0000;

/// Size of the redistributor frames of one vCPU, newer revision.
pub const KVM_VGIC_V3_REDIST_SIZE: u64 = 0x2_0000;

/// Maintenance interrupt line of the older revision.
pub const ARCH_GIC_V2_MAINT_IRQ: u32 = 8;

/// Maintenance interrupt line of the newer revision.
pub const ARCH_GIC_V3_MAINT_IRQ: u32 = 9;

/// The two architectural revisions of the controller.
#[derive(Clone, Copy, Debug, PartialEq, Eq, Structural)]
pub enum GicVersion {
    V2,
    V3,
}

/// What the `addr` field of a device attribute stands for.
#[derive(Clone, Copy, Debug, PartialEq, Eq, Structural)]
pub enum Payload {
    /// No payload: `addr` is zero.
    Empty,
    /// `addr` points at this 32-bit value.
    Word(u32),
    /// `addr` points at this 64-bit value.
    Long(u64),
    /// `addr` points at a 32-bit buffer that the kernel fills.
    WordBuffer,
}

/// One call of the hypervisor's device-attribute primitive.
#[derive(Clone, Copy, Debug, PartialEq, Eq, Structural)]
pub struct DeviceAttr {
    pub group: u32,
    pub attr: u64,
    pub payload: Payload,
    pub flags: u32,
}

/// Errors met while setting up the controller. The first field of each
/// variant is the error number that the kernel gave.
#[derive(Clone, Copy, Debug, PartialEq, Eq, Structural)]
pub enum Error {
    /// The kernel refused to create the device.
    CreateGIC(i32),
    /// Setting (`true`) or getting (`false`) an attribute of the given group failed.
    DeviceAttribute(i32, bool, u32),
}

impl GicVersion {
    /// Whether the regions of a device of this revision for `vcpu_count`
    /// vCPUs fit below the start of device memory. The older revision has
    /// one CPU interface whatever the count; the newer one has a
    /// redistributor frame per vCPU.
    pub open spec fn spec_layout_fits(self, vcpu_count: u64) -> bool {
        self == GicVersion::V2 || vcpu_count <= MAX_VCPU_COUNT
    }

    /// The device-type tag that the kernel knows this revision by.
    pub open spec fn spec_kernel_device_type(self) -> u32 {
        match self {
            GicVersion::V2 => KVM_DEV_TYPE_ARM_VGIC_V2,
            GicVersion::V3 => KVM_DEV_TYPE_ARM_VGIC_V3,
        }
    }

    /// Size of the distributor region.
    pub open spec fn spec_dist_size(self) -> u64 {
        match self {
            GicVersion::V2 => KVM_VGIC_V2_DIST_SIZE,
            GicVersion::V3 => KVM_VGIC_V3_DIST_SIZE,
        }
    }

    /// Base address of the distributor: it ends where device memory starts.
    pub open spec fn spec_dist_addr(self) -> u64 {
        (MAPPED_IO_START - self.spec_dist_size()) as u64
    }

    /// Size of the region below the distributor: the CPU interface of the
    /// older revision, one redistributor frame per vCPU of the newer one.
    pub open spec fn spec_cpu_region_size(self, vcpu_count: u64) -> int {
        match self {
            GicVersion::V2 => KVM_VGIC_V2_CPU_SIZE as int,
            GicVersion::V3 => vcpu_count * KVM_VGIC_V3_REDIST_SIZE,
        }
    }

    /// Base address of the per-CPU region: it ends where the distributor starts.
    pub open spec fn spec_cpu_region_addr(self, vcpu_count: u64) -> int {
        self.spec_dist_addr() - self.spec_cpu_region_size(vcpu_count)
    }

    /// The region list: distributor base and size, then base and size of the
    /// per-CPU region.
    pub open spec fn spec_device_properties(self, vcpu_count: u64) -> Seq<u64> {
        seq![
            self.spec_dist_addr(),
            self.spec_dist_size(),
            self.spec_cpu_region_addr(vcpu_count) as u64,
            self.spec_cpu_region_size(vcpu_count) as u64,
        ]
    }

    /// The name by which the guest's device tree identifies the device model.
    pub open spec fn spec_fdt_compatibility(self) -> Seq<char> {
        match self {
            GicVersion::V2 => "arm,gic-400"@,
            GicVersion::V3 => "arm,gic-v3"@,
        }
    }

    /// The interrupt line of the maintenance interrupt.
    pub open spec fn spec_fdt_maint_irq(self) -> u32 {
        match self {
            GicVersion::V2 => ARCH_GIC_V2_MAINT_IRQ,
            GicVersion::V3 => ARCH_GIC_V3_MAINT_IRQ,
        }
    }

    /// The address attribute that places the distributor.
    pub open spec fn spec_dist_addr_type(self) -> u64 {
        match self {
            GicVersion::V2 => KVM_VGIC_V2_ADDR_TYPE_DIST,
            GicVersion::V3 => KVM_VGIC_V3_ADDR_TYPE_DIST,
        }
    }

    /// The address attribute that places the per-CPU region.
    pub open spec fn spec_cpu_region_addr_type(self) -> u64 {
        match self {
            GicVersion::V2 => KVM_VGIC_V2_ADDR_TYPE_CPU,
            GicVersion::V3 => KVM_VGIC_V3_ADDR_TYPE_REDIST,
        }
    }

    pub fn layout_fits(self, vcpu_count: u64) -> (fits: bool)
        ensures
            fits == self.spec_layout_fits(vcpu_count),
    {
        match self {
            GicVersion::V2 => true,
            GicVersion::V3 => vcpu_count <= MAX_VCPU_COUNT,
        }
    }

    pub fn kernel_device_type(self) -> (tag: u32)
        ensures
            tag == self.spec_kernel_device_type(),
    {
        match self {
            GicVersion::V2 => KVM_DEV_TYPE_ARM_VGIC_V2,
            GicVersion::V3 => KVM_DEV_TYPE_ARM_VGIC_V3,
        }
    }

    /// The name by which the guest's device tree identifies this revision.
    pub fn fdt_compatibility(self) -> (name: &'static str)
        ensures
            name@ == self.spec_fdt_compatibility(),
    {
        match self {
            GicVersion::V2 => "arm,gic-400",
            GicVersion::V3 => "arm,gic-v3",
        }
    }

    /// The interrupt line of the maintenance interrupt.
    pub fn fdt_maint_irq(self) -> (irq: u32)
        ensures
            irq == self.spec_fdt_maint_irq(),
    {
        match self {
            GicVersion::V2 => ARCH_GIC_V2_MAINT_IRQ,
            GicVersion::V3 => ARCH_GIC_V3_MAINT_IRQ,
        }
    }

    pub fn dist_size(self) -> (size: u64)
        ensures
            size == self.spec_dist_size(),
    {
        match self {
            GicVersion::V2 => KVM_VGIC_V2_DIST_SIZE,
            GicVersion::V3 => KVM_VGIC_V3_DIST_SIZE,
        }
    }

    pub fn dist_addr(self) -> (addr: u64)
        ensures
            addr == self.spec_dist_addr(),
    {
        MAPPED_IO_START - self.dist_size()
    }

    pub fn cpu_region_size(self, vcpu_count: u64) -> (size: u64)
        requires
            self.spec_layout_fits(vcpu_count),
        ensures
            size == self.spec_cpu_region_size(vcpu_count),
    {
        match self {
            GicVersion::V2 => KVM_VGIC_V2_CPU_SIZE,
            GicVersion::V3 => vcpu_count * KVM_VGIC_V3_REDIST_SIZE,
        }
    }

    pub fn cpu_region_addr(self, vcpu_count: u64) -> (addr: u64)
        requires
            self.spec_layout_fits(vcpu_count),
        ensures
            addr == self.spec_cpu_region_addr(vcpu_count),
    {
        self.dist_addr() - self.cpu_region_size(vcpu_count)
    }

    /// The region list of a device of this revision that serves `vcpu_count` vCPUs.
    pub fn device_properties(self, vcpu_count: u64) -> (props: Vec<u64>)
        requires
            self.spec_layout_fits(vcpu_count),
        ensures
            props@ == self.spec_device_properties(vcpu_count),
    {
        let mut props: Vec<u64> = Vec::new();
        props.push(self.dist_addr());
        props.push(self.dist_size());
        props.push(self.cpu_region_addr(vcpu_count));
        props.push(self.cpu_region_size(vcpu_count));
        assert(props@ =~= self.spec_device_properties(vcpu_count));
        props
    }
}


impl GicVersion {
    /// The attribute calls that place the regions of a device of this
    /// revision: the distributor first, then the per-CPU region that lies
    /// below it.
    pub open spec fn spec_region_attributes(self, vcpu_count: u64) -> Seq<DeviceAttr> {
        seq![
            DeviceAttr {
                group: KVM_DEV_ARM_VGIC_GRP_ADDR,
                attr: self.spec_dist_addr_type(),
                payload: Payload::Long(self.spec_dist_addr()),
                flags: 0,
            },
            DeviceAttr {
                group: KVM_DEV_ARM_VGIC_GRP_ADDR,
                attr: self.spec_cpu_region_addr_type(),
                payload: Payload::Long(self.spec_cpu_region_addr(vcpu_count) as u64),
                flags: 0,
            },
        ]
    }

    /// All attribute calls of a construction, in the order in which they are made.
    pub open spec fn spec_setup_attributes(self, vcpu_count: u64) -> Seq<DeviceAttr> {
        self.spec_region_attributes(vcpu_count) + spec_finalize_attributes()
    }

    pub fn dist_addr_type(self) -> (id: u64)
        ensures
            id == self.spec_dist_addr_type(),
    {
        match self {
            GicVersion::V2 => KVM_VGIC_V2_ADDR_TYPE_DIST,
            GicVersion::V3 => KVM_VGIC_V3_ADDR_TYPE_DIST,
        }
    }

    pub fn cpu_region_addr_type(self) -> (id: u64)
        ensures
            id == self.spec_cpu_region_addr_type(),
    {
        match self {
            GicVersion::V2 => KVM_VGIC_V2_ADDR_TYPE_CPU,
            GicVersion::V3 => KVM_VGIC_V3_ADDR_TYPE_REDIST,
        }
    }

    /// The revision-specific attribute calls, in order.
    pub fn init_device_attributes(self, vcpu_count: u64) -> (attrs: Vec<DeviceAttr>)
        requires
            self.spec_layout_fits(vcpu_count),
        ensures
            attrs@ == self.spec_region_attributes(vcpu_count),
    {
        let mut attrs: Vec<DeviceAttr> = Vec::new();
        attrs.push(
            DeviceAttr {
                group: KVM_DEV_ARM_VGIC_GRP_ADDR,
                attr: self.dist_addr_type(),
                payload: Payload::Long(self.dist_addr()),
                flags: 0,
            },
        );
        attrs.push(
            DeviceAttr {
                group: KVM_DEV_ARM_VGIC_GRP_ADDR,
                attr: self.cpu_region_addr_type(),
                payload: Payload::Long(self.cpu_region_addr(vcpu_count)),
                flags: 0,
            },
        );
        assert(attrs@ =~= self.spec_region_attributes(vcpu_count));
        attrs
    }

    /// All attribute calls of a construction, in order.
    pub fn setup_attributes(self, vcpu_count: u64) -> (attrs: Vec<DeviceAttr>)
        requires
            self.spec_layout_fits(vcpu_count),
        ensures
            attrs@ == self.spec_setup_attributes(vcpu_count),
    {
        let mut attrs = self.init_device_attributes(vcpu_count);
        let mut rest = finalize_device();
        attrs.append(&mut rest);
        attrs
    }
}

/// The calls that end every construction: the number of usable shared
/// interrupt lines, then the initialisation that locks the configuration.
pub open spec fn spec_finalize_attributes() -> Seq<DeviceAttr> {
    seq![
        DeviceAttr {
            group: KVM_DEV_ARM_VGIC_GRP_NR_IRQS,
            attr: 0,
            payload: Payload::Word((IRQ_MAX - IRQ_BASE) as u32),
            flags: 0,
        },
        DeviceAttr {
            group: KVM_DEV_ARM_VGIC_GRP_CTRL,
            attr: KVM_DEV_ARM_VGIC_CTRL_INIT,
            payload: Payload::Empty,
            flags: 0,
        },
    ]
}

/// The finalization calls, shared by both revisions, in order.
pub fn finalize_device() -> (attrs: Vec<DeviceAttr>)
    ensures
        attrs@ == spec_finalize_attributes(),
{
    let mut attrs: Vec<DeviceAttr> = Vec::new();
    attrs.push(
        DeviceAttr {
            group: KVM_DEV_ARM_VGIC_GRP_NR_IRQS,
            attr: 0,
            payload: Payload::Word(IRQ_MAX - IRQ_BASE),
            flags: 0,
        },
    );
    attrs.push(
        DeviceAttr {
            group: KVM_DEV_ARM_VGIC_GRP_CTRL,
            attr: KVM_DEV_ARM_VGIC_CTRL_INIT,
            payload: Payload::Empty,
            flags: 0,
        },
    );
    assert(attrs@ =~= spec_finalize_attributes());
    attrs
}

/// What the outcome of a set-attribute call means to the construction: a
/// kernel error is annotated with the direction of the call and its group.
pub open spec fn spec_set_device_attribute(
    attr: DeviceAttr,
    outcome: Result<(), i32>,
) -> Result<
    (),
    Error,
> {
    match outcome {
        Ok(_) => Ok(()),
        Err(errno) => Err(Error::DeviceAttribute(errno, true, attr.group)),
    }
}

pub fn set_device_attribute(attr: &DeviceAttr, outcome: Result<(), i32>) -> (res: Result<
    (),
    Error,
>)
    ensures
        res == spec_set_device_attribute(*attr, outcome),
{
    match outcome {
        Ok(_) => Ok(()),
        Err(errno) => Err(Error::DeviceAttribute(errno, true, attr.group)),
    }
}

} // verus!
