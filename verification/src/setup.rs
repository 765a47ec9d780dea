//! The construction dialogue: which kernel call comes next, and what its
//! outcome leads to.
//!
//! A construction starts with [`create_gic`]. Each [`SetupStep`] names one
//! call for the caller to make; reporting its outcome gives the next step,
//! until the step is `Finished`. A device value reaches the caller only from
//! a `Finished` step, after the call that locks its configuration succeeded.

use crate::gic::{set_device_attribute, DeviceAttr, Error, GicVersion, Payload};
use vstd::prelude::*;

verus! {

/// Number of attribute calls of one construction.
pub const SETUP_ATTRIBUTE_COUNT: usize = 4;

/// A finalized interrupt controller. `H` is the handle of the kernel device,
/// which the value owns.
#[derive(Debug)]
pub struct GICDevice<H> {
    fd: H,
    version: GicVersion,
    properties: Vec<u64>,
    vcpu_count: u64,
}

/// What a device is to the contracts: its handle, its revision and the
/// number of vCPUs it serves.
pub struct DeviceView<H> {
    pub fd: H,
    pub version: GicVersion,
    pub vcpu_count: u64,
}

impl<H> View for GICDevice<H> {
    type V = DeviceView<H>;

    closed spec fn view(&self) -> DeviceView<H> {
        DeviceView { fd: self.fd, version: self.version, vcpu_count: self.vcpu_count }
    }
}

impl<H> GICDevice<H> {
    #[verifier::type_invariant]
    spec fn inv(self) -> bool {
        &&& self.version.spec_layout_fits(self.vcpu_count)
        &&& self.properties@ == self.version.spec_device_properties(self.vcpu_count)
    }

    fn create_device(fd: H, version: GicVersion, vcpu_count: u64) -> (device: GICDevice<H>)
        requires
            version.spec_layout_fits(vcpu_count),
        ensures
            device@ == (DeviceView { fd, version, vcpu_count }),
    {
        GICDevice { fd, version, properties: version.device_properties(vcpu_count), vcpu_count }
    }

    /// The handle of the kernel device.
    pub fn device_fd(&self) -> (fd: &H)
        ensures
            *fd == self@.fd,
    {
        &self.fd
    }

    /// The memory regions of the device.
    pub fn device_properties(&self) -> (props: &[u64])
        ensures
            props@ == self@.version.spec_device_properties(self@.vcpu_count),
            props@.len() == 4,
            self@.version.spec_layout_fits(self@.vcpu_count),
    {
        proof {
            use_type_invariant(self);
        }
        self.properties.as_slice()
    }

    /// The number of vCPUs that the device serves.
    pub fn vcpu_count(&self) -> (count: u64)
        ensures
            count == self@.vcpu_count,
            self@.version.spec_layout_fits(count),
    {
        proof {
            use_type_invariant(self);
        }
        self.vcpu_count
    }

    /// The revision of the device.
    pub fn gic_version(&self) -> (version: GicVersion)
        ensures
            version == self@.version,
    {
        self.version
    }

    /// The kernel's device-type tag of the device's revision.
    pub fn version(&self) -> (tag: u32)
        ensures
            tag == self@.version.spec_kernel_device_type(),
    {
        self.version.kernel_device_type()
    }

    /// The name by which the guest's device tree identifies the device model.
    pub fn fdt_compatibility(&self) -> (name: &'static str)
        ensures
            name@ == self@.version.spec_fdt_compatibility(),
    {
        self.version.fdt_compatibility()
    }

    /// The interrupt line of the maintenance interrupt.
    pub fn fdt_maint_irq(&self) -> (irq: u32)
        ensures
            irq == self@.version.spec_fdt_maint_irq(),
    {
        self.version.fdt_maint_irq()
    }
}

/// The argument of the hypervisor's device-creation primitive.
#[derive(Clone, Copy, Debug, PartialEq, Eq, Structural)]
pub struct CreateDevice {
    pub type_: u32,
    pub fd: u32,
    pub flags: u32,
}

/// A construction that waits for the kernel device to be created.
#[derive(Debug)]
pub struct PendingCreate {
    version: GicVersion,
    vcpu_count: u64,
}

/// A construction that waits for one attribute call to be made on its device.
#[derive(Debug)]
pub struct PendingAttribute<H> {
    device: GICDevice<H>,
    next: usize,
}

/// One step of a construction: the call to make next, or the end.
#[derive(Debug)]
pub enum SetupStep<H> {
    /// Create the kernel device, then report with [`PendingCreate::created`].
    CreateDevice(PendingCreate),
    /// Set an attribute, then report with [`PendingAttribute::completed`].
    SetAttribute(PendingAttribute<H>),
    /// The construction is over.
    Finished(Result<GICDevice<H>, Error>),
}

/// A step as the contracts see it.
pub enum StepView<H> {
    CreateDevice { version: GicVersion, vcpu_count: u64 },
    SetAttribute { device: DeviceView<H>, index: usize },
    Finished(Result<DeviceView<H>, Error>),
}

/// What the caller reports of the call that a step named.
pub enum Reply<H> {
    /// The device was created; this is its handle.
    Created(H),
    /// The attribute was set.
    Done,
    /// The call failed with this error number.
    Failed(i32),
}

impl<H> View for SetupStep<H> {
    type V = StepView<H>;

    open spec fn view(&self) -> StepView<H> {
        match *self {
            SetupStep::CreateDevice(p) => StepView::CreateDevice {
                version: p.spec_version(),
                vcpu_count: p.spec_vcpu_count(),
            },
            SetupStep::SetAttribute(p) => StepView::SetAttribute {
                device: p.spec_device()@,
                index: p.spec_index(),
            },
            SetupStep::Finished(Ok(device)) => StepView::Finished(Ok(device@)),
            SetupStep::Finished(Err(e)) => StepView::Finished(Err(e)),
        }
    }
}

/// Where a failed attempt leads: the newer revision falls back to the older
/// one, whose own failure ends the construction with its error.
pub open spec fn spec_after_failure<H>(version: GicVersion, vcpu_count: u64, error: Error) -> StepView<H> {
    match version {
        GicVersion::V3 => StepView::CreateDevice { version: GicVersion::V2, vcpu_count },
        GicVersion::V2 => StepView::Finished(Err(error)),
    }
}

/// The step that follows `step` once the caller has reported `reply`. A reply
/// that does not answer the step's call changes nothing.
pub open spec fn spec_advance<H>(step: StepView<H>, reply: Reply<H>) -> StepView<H> {
    match (step, reply) {
        (StepView::CreateDevice { version, vcpu_count }, Reply::Created(fd)) => StepView::SetAttribute {
            device: DeviceView { fd, version, vcpu_count },
            index: 0,
        },
        (StepView::CreateDevice { version, vcpu_count }, Reply::Failed(errno)) => spec_after_failure(
            version,
            vcpu_count,
            Error::CreateGIC(errno),
        ),
        (StepView::SetAttribute { device, index }, Reply::Done) => if index + 1
            < SETUP_ATTRIBUTE_COUNT {
            StepView::SetAttribute { device, index: (index + 1) as usize }
        } else {
            StepView::Finished(Ok(device))
        },
        (StepView::SetAttribute { device, index }, Reply::Failed(errno)) => spec_after_failure(
            device.version,
            device.vcpu_count,
            Error::DeviceAttribute(
                errno,
                true,
                device.version.spec_setup_attributes(device.vcpu_count)[index as int].group,
            ),
        ),
        _ => step,
    }
}

/// The first step of every construction: create a device of the newer revision.
pub open spec fn spec_create_gic<H>(vcpu_count: u64) -> StepView<H> {
    StepView::CreateDevice { version: GicVersion::V3, vcpu_count }
}

/// Starts the construction of the interrupt controller of a machine with
/// `vcpu_count` vCPUs.
pub fn create_gic<H>(vcpu_count: u64) -> (step: SetupStep<H>)
    ensures
        step@ == spec_create_gic::<H>(vcpu_count),
{
    SetupStep::CreateDevice(PendingCreate::new(GicVersion::V3, vcpu_count))
}

fn after_failure<H>(version: GicVersion, vcpu_count: u64, error: Error) -> (step: SetupStep<H>)
    ensures
        step@ == spec_after_failure::<H>(version, vcpu_count, error),
{
    match version {
        GicVersion::V3 => SetupStep::CreateDevice(PendingCreate::new(GicVersion::V2, vcpu_count)),
        GicVersion::V2 => SetupStep::Finished(Err(error)),
    }
}

impl PendingCreate {
    pub closed spec fn spec_version(self) -> GicVersion {
        self.version
    }

    pub closed spec fn spec_vcpu_count(self) -> u64 {
        self.vcpu_count
    }

    /// Starts an attempt with one revision.
    pub fn new(version: GicVersion, vcpu_count: u64) -> (pending: PendingCreate)
        ensures
            pending.spec_version() == version,
            pending.spec_vcpu_count() == vcpu_count,
    {
        PendingCreate { version, vcpu_count }
    }

    /// The argument of the creation call that this step asks for.
    pub fn init_device(&self) -> (request: CreateDevice)
        ensures
            request == (CreateDevice {
                type_: self.spec_version().spec_kernel_device_type(),
                fd: 0,
                flags: 0,
            }),
    {
        CreateDevice { type_: self.version.kernel_device_type(), fd: 0, flags: 0 }
    }

    /// Whether the regions of a device of this attempt can be laid out. A
    /// created device can be taken only if they can.
    pub fn layout_fits(&self) -> (fits: bool)
        ensures
            fits == self.spec_version().spec_layout_fits(self.spec_vcpu_count()),
    {
        self.version.layout_fits(self.vcpu_count)
    }

    /// Takes the outcome of the creation call: the device's handle, or the
    /// kernel's error number. A handle is taken only where the device's
    /// regions can be laid out; a failure is taken for every count.
    pub fn created<H>(self, outcome: Result<H, i32>) -> (step: SetupStep<H>)
        requires
            outcome is Ok ==> self.spec_version().spec_layout_fits(self.spec_vcpu_count()),
        ensures
            step@ == spec_advance(
                StepView::CreateDevice {
                    version: self.spec_version(),
                    vcpu_count: self.spec_vcpu_count(),
                },
                match outcome {
                    Ok(fd) => Reply::Created(fd),
                    Err(errno) => Reply::Failed(errno),
                },
            ),
    {
        match outcome {
            Ok(fd) => {
                let device = GICDevice::create_device(fd, self.version, self.vcpu_count);
                SetupStep::SetAttribute(PendingAttribute { device, next: 0 })
            },
            Err(errno) => after_failure(self.version, self.vcpu_count, Error::CreateGIC(errno)),
        }
    }
}

impl<H> PendingAttribute<H> {
    #[verifier::type_invariant]
    spec fn inv(self) -> bool {
        self.next < SETUP_ATTRIBUTE_COUNT
    }

    pub closed spec fn spec_device(self) -> GICDevice<H> {
        self.device
    }

    pub closed spec fn spec_index(self) -> usize {
        self.next
    }

    /// The handle of the device on which the attribute is to be set.
    pub fn device_fd(&self) -> (fd: &H)
        ensures
            *fd == self.spec_device()@.fd,
    {
        self.device.device_fd()
    }

    /// The attribute call that this step asks for.
    pub fn attribute(&self) -> (attr: DeviceAttr)
        ensures
            self.spec_index() < SETUP_ATTRIBUTE_COUNT,
            attr == self.spec_device()@.version.spec_setup_attributes(
                self.spec_device()@.vcpu_count,
            )[self.spec_index() as int],
    {
        proof {
            use_type_invariant(self);
        }
        let count = self.device.vcpu_count();
        let attrs = self.device.gic_version().setup_attributes(count);
        attrs[self.next]
    }

    /// Takes the outcome of the attribute call: success, or the kernel's
    /// error number.
    pub fn completed(self, outcome: Result<(), i32>) -> (step: SetupStep<H>)
        ensures
            step@ == spec_advance(
                StepView::SetAttribute { device: self.spec_device()@, index: self.spec_index() },
                match outcome {
                    Ok(_) => Reply::Done,
                    Err(errno) => Reply::Failed(errno),
                },
            ),
    {
        proof {
            use_type_invariant(&self);
        }
        let attr = self.attribute();
        match set_device_attribute(&attr, outcome) {
            Ok(_) => {
                if self.next + 1 < SETUP_ATTRIBUTE_COUNT {
                    SetupStep::SetAttribute(PendingAttribute { device: self.device, next: self.next + 1 })
                } else {
                    SetupStep::Finished(Ok(self.device))
                }
            },
            Err(error) => {
                let count = self.device.vcpu_count();
                after_failure(self.device.gic_version(), count, error)
            },
        }
    }
}

/// The step that a construction has reached after the caller reported
/// `replies`, one after the other, starting at `step`.
pub open spec fn spec_run<H>(step: StepView<H>, replies: Seq<Reply<H>>) -> StepView<H>
    decreases replies.len(),
{
    if replies.len() == 0 {
        step
    } else {
        spec_advance(spec_run(step, replies.drop_last()), replies.last())
    }
}

/// Whether everything that `step` holds was made for `vcpu_count` vCPUs.
pub open spec fn spec_serves<H>(step: StepView<H>, vcpu_count: u64) -> bool {
    match step {
        StepView::CreateDevice { version, vcpu_count: count } => count == vcpu_count,
        StepView::SetAttribute { device, index } => device.vcpu_count == vcpu_count,
        StepView::Finished(Ok(device)) => device.vcpu_count == vcpu_count,
        StepView::Finished(Err(_)) => true,
    }
}

proof fn lemma_run_serves<H>(step: StepView<H>, replies: Seq<Reply<H>>, vcpu_count: u64)
    requires
        spec_serves(step, vcpu_count),
    ensures
        spec_serves(spec_run(step, replies), vcpu_count),
    decreases replies.len(),
{
    if replies.len() > 0 {
        lemma_run_serves(step, replies.drop_last(), vcpu_count);
    }
}

/// Whatever the kernel answers, a construction that ends with a device ends
/// with one that serves the requested number of vCPUs, and whose region list
/// has the four entries of its revision's layout.
pub proof fn law_device_serves_requested_vcpus<H>(vcpu_count: u64, replies: Seq<Reply<H>>)
    ensures
        match spec_run(spec_create_gic::<H>(vcpu_count), replies) {
            StepView::Finished(Ok(device)) => {
                &&& device.vcpu_count == vcpu_count
                &&& device.version.spec_device_properties(device.vcpu_count).len() == 4
            },
            _ => true,
        },
{
    lemma_run_serves(spec_create_gic::<H>(vcpu_count), replies, vcpu_count);
}

/// Where every call succeeds, the construction takes one creation and four
/// attribute calls, and ends with a device of the newer revision. This is
/// stated of the counts for which that revision can be laid out.
pub proof fn law_newer_revision_is_preferred<H>(vcpu_count: u64, fd: H)
    requires
        GicVersion::V3.spec_layout_fits(vcpu_count),
    ensures
        ({
            let s1 = spec_advance(spec_create_gic::<H>(vcpu_count), Reply::Created(fd));
            let s2 = spec_advance(s1, Reply::Done);
            let s3 = spec_advance(s2, Reply::Done);
            let s4 = spec_advance(s3, Reply::Done);
            let s5 = spec_advance(s4, Reply::Done);
            s5 == StepView::Finished(Ok(DeviceView { fd, version: GicVersion::V3, vcpu_count }))
        }),
{
}

/// Where the creation of the newer revision fails and every call after it
/// succeeds, the construction ends with a device of the older revision,
/// which names itself as such to the guest.
pub proof fn law_fallback_after_failed_creation<H>(vcpu_count: u64, errno: i32, fd: H)
    ensures
        ({
            let s1 = spec_advance(spec_create_gic::<H>(vcpu_count), Reply::Failed(errno));
            let s2 = spec_advance(s1, Reply::Created(fd));
            let s3 = spec_advance(s2, Reply::Done);
            let s4 = spec_advance(s3, Reply::Done);
            let s5 = spec_advance(s4, Reply::Done);
            let s6 = spec_advance(s5, Reply::Done);
            &&& s1 == StepView::<H>::CreateDevice { version: GicVersion::V2, vcpu_count }
            &&& s6 == StepView::Finished(Ok(DeviceView { fd, version: GicVersion::V2, vcpu_count }))
            &&& GicVersion::V2.spec_fdt_compatibility() == "arm,gic-400"@
            &&& GicVersion::V2.spec_fdt_compatibility() != GicVersion::V3.spec_fdt_compatibility()
        }),
{
    reveal_strlit("arm,gic-400");
    reveal_strlit("arm,gic-v3");
    assert("arm,gic-400"@.len() != "arm,gic-v3"@.len());
}

/// Whether `step` asks for a call of an attempt with `version` for
/// `vcpu_count` vCPUs.
pub open spec fn spec_attempts<H>(step: StepView<H>, version: GicVersion, vcpu_count: u64) -> bool {
    match step {
        StepView::CreateDevice { version: attempted, vcpu_count: count } => attempted == version
            && count == vcpu_count,
        StepView::SetAttribute { device, index } => device.version == version && device.vcpu_count
            == vcpu_count,
        StepView::Finished(_) => false,
    }
}

/// Where any call of the attempt with the newer revision fails and every
/// call after it succeeds, the construction ends with a device of the older
/// revision that serves the requested vCPUs.
pub proof fn law_fallback_after_failure<H>(step: StepView<H>, vcpu_count: u64, errno: i32, fd: H)
    requires
        spec_attempts(step, GicVersion::V3, vcpu_count),
    ensures
        ({
            let s1 = spec_advance(step, Reply::Failed(errno));
            let s2 = spec_advance(s1, Reply::Created(fd));
            let s3 = spec_advance(s2, Reply::Done);
            let s4 = spec_advance(s3, Reply::Done);
            let s5 = spec_advance(s4, Reply::Done);
            let s6 = spec_advance(s5, Reply::Done);
            s6 == StepView::Finished(Ok(DeviceView { fd, version: GicVersion::V2, vcpu_count }))
        }),
{
}

/// A failure of the newer revision, at whichever call, is dropped and leads
/// to an attempt with the older one; a failure of the older revision ends
/// the construction with exactly that failure.
pub proof fn law_last_error_is_reported<H>(step: StepView<H>, errno: i32)
    ensures
        match step {
            StepView::CreateDevice { version: GicVersion::V3, vcpu_count } => spec_advance(
                step,
                Reply::Failed(errno),
            ) == StepView::<H>::CreateDevice { version: GicVersion::V2, vcpu_count },
            StepView::CreateDevice { version: GicVersion::V2, vcpu_count } => spec_advance(
                step,
                Reply::Failed(errno),
            ) == StepView::<H>::Finished(Err(Error::CreateGIC(errno))),
            StepView::SetAttribute { device, index } => spec_advance(step, Reply::Failed(errno)) == (
            match device.version {
                GicVersion::V3 => StepView::<H>::CreateDevice {
                    version: GicVersion::V2,
                    vcpu_count: device.vcpu_count,
                },
                GicVersion::V2 => StepView::<H>::Finished(
                    Err(
                        Error::DeviceAttribute(
                            errno,
                            true,
                            device.version.spec_setup_attributes(device.vcpu_count)[index as int].group,
                        ),
                    ),
                ),
            }),
            StepView::Finished(_) => spec_advance(step, Reply::Failed(errno)) == step,
        },
{
}

/// Where both creations fail, the construction ends after two calls with
/// the error of the second, the older revision's.
pub proof fn law_both_creations_fail<H>(vcpu_count: u64, first: i32, second: i32)
    ensures
        spec_advance(
            spec_advance(spec_create_gic::<H>(vcpu_count), Reply::Failed(first)),
            Reply::Failed(second),
        ) == StepView::<H>::Finished(Err(Error::CreateGIC(second))),
{
}

/// Every construction sets the number of interrupt lines in its third
/// attribute call and initialises the device in its fourth and last; no
/// earlier call touches either group.
pub proof fn law_finalization_is_last(version: GicVersion, vcpu_count: u64)
    ensures
        ({
            let attrs = version.spec_setup_attributes(vcpu_count);
            &&& attrs.len() == SETUP_ATTRIBUTE_COUNT
            &&& attrs[0].group == crate::gic::KVM_DEV_ARM_VGIC_GRP_ADDR
            &&& attrs[1].group == crate::gic::KVM_DEV_ARM_VGIC_GRP_ADDR
            &&& attrs[2].group == crate::gic::KVM_DEV_ARM_VGIC_GRP_NR_IRQS
            &&& attrs[2].payload == Payload::Word(96)
            &&& attrs[3].group == crate::gic::KVM_DEV_ARM_VGIC_GRP_CTRL
            &&& attrs[3].attr == crate::gic::KVM_DEV_ARM_VGIC_CTRL_INIT
        }),
{
}

/// Whatever the kernel answers, a construction asks for an attribute call
/// on a device only after it asked for the call before it on the same
/// device and the caller reported that one as done. With the order of the
/// calls, the initialisation is never asked for before the number of
/// interrupt lines was set.
pub proof fn law_attribute_calls_in_order<H>(vcpu_count: u64, replies: Seq<Reply<H>>)
    ensures
        match spec_run(spec_create_gic::<H>(vcpu_count), replies) {
            StepView::SetAttribute { device, index } => index > 0 ==> exists|k: int|
                {
                    &&& 0 <= k < replies.len()
                    &&& replies[k] is Done
                    &&& #[trigger] spec_run(spec_create_gic::<H>(vcpu_count), replies.take(k))
                        == StepView::SetAttribute { device, index: (index - 1) as usize }
                },
            _ => true,
        },
    decreases replies.len(),
{
    let start = spec_create_gic::<H>(vcpu_count);
    if replies.len() > 0 {
        let earlier = replies.drop_last();
        let before = spec_run(start, earlier);
        let after = spec_run(start, replies);
        if let StepView::SetAttribute { device, index } = after {
            if index > 0 {
                if before == after {
                    law_attribute_calls_in_order(vcpu_count, earlier);
                    let k = choose|k: int|
                        {
                            &&& 0 <= k < earlier.len()
                            &&& earlier[k] is Done
                            &&& #[trigger] spec_run(start, earlier.take(k))
                                == StepView::SetAttribute { device, index: (index - 1) as usize }
                        };
                    assert(earlier.take(k) =~= replies.take(k));
                    assert(replies[k] == earlier[k]);
                } else {
                    let k = replies.len() - 1;
                    assert(replies.take(k) =~= earlier);
                    assert(replies[k] is Done);
                    assert(spec_run(start, replies.take(k)) == StepView::SetAttribute {
                        device,
                        index: (index - 1) as usize,
                    });
                }
            }
        }
    }
}


/// Whether the attribute call that `step` asks for, if any, is one of the
/// calls of a construction.
pub open spec fn spec_within_calls<H>(step: StepView<H>) -> bool {
    match step {
        StepView::SetAttribute { device, index } => index < SETUP_ATTRIBUTE_COUNT,
        _ => true,
    }
}

proof fn lemma_run_within_calls<H>(step: StepView<H>, replies: Seq<Reply<H>>)
    requires
        spec_within_calls(step),
    ensures
        spec_within_calls(spec_run(step, replies)),
    decreases replies.len(),
{
    if replies.len() > 0 {
        lemma_run_within_calls(step, replies.drop_last());
    }
}

/// Whatever the kernel answers, a construction ends with a device only
/// after it asked for the last attribute call, the initialisation, on that
/// device and the caller reported it as done: no device reaches the caller
/// unfinished.
pub proof fn law_device_is_finalized<H>(vcpu_count: u64, replies: Seq<Reply<H>>)
    ensures
        match spec_run(spec_create_gic::<H>(vcpu_count), replies) {
            StepView::Finished(Ok(device)) => exists|k: int|
                {
                    &&& 0 <= k < replies.len()
                    &&& replies[k] is Done
                    &&& #[trigger] spec_run(spec_create_gic::<H>(vcpu_count), replies.take(k))
                        == StepView::SetAttribute {
                        device,
                        index: (SETUP_ATTRIBUTE_COUNT - 1) as usize,
                    }
                },
            _ => true,
        },
    decreases replies.len(),
{
    let start = spec_create_gic::<H>(vcpu_count);
    if replies.len() > 0 {
        let earlier = replies.drop_last();
        let before = spec_run(start, earlier);
        let after = spec_run(start, replies);
        if let StepView::Finished(Ok(device)) = after {
            if before == after {
                law_device_is_finalized(vcpu_count, earlier);
                let k = choose|k: int|
                    {
                        &&& 0 <= k < earlier.len()
                        &&& earlier[k] is Done
                        &&& #[trigger] spec_run(start, earlier.take(k)) == StepView::SetAttribute {
                            device,
                            index: (SETUP_ATTRIBUTE_COUNT - 1) as usize,
                        }
                    };
                assert(earlier.take(k) =~= replies.take(k));
                assert(replies[k] == earlier[k]);
            } else {
                let k = replies.len() - 1;
                lemma_run_within_calls(start, earlier);
                assert(replies.take(k) =~= earlier);
                assert(replies[k] is Done);
                assert(spec_run(start, replies.take(k)) == StepView::SetAttribute {
                    device,
                    index: (SETUP_ATTRIBUTE_COUNT - 1) as usize,
                });
            }
        }
    }
}

} // verus!
