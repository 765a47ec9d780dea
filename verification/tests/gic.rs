use gic_activation::gic::{
    finalize_device, set_device_attribute, DeviceAttr, Error, GicVersion, Payload,
    KVM_DEV_ARM_VGIC_GRP_ADDR, KVM_DEV_ARM_VGIC_GRP_CTRL, KVM_DEV_ARM_VGIC_GRP_NR_IRQS,
    KVM_DEV_TYPE_ARM_VGIC_V2, KVM_DEV_TYPE_ARM_VGIC_V3,
};
use gic_activation::setup::{create_gic, CreateDevice, GICDevice, PendingCreate, SetupStep};

const EINVAL: i32 = 22;
const ENODEV: i32 = 19;

/// A hypervisor stand-in: it knows some device types, hands out handles, and
/// keeps a log of the calls it saw.
struct StubVm {
    supported: Vec<u32>,
    failing_group: Option<(u32, u32)>,
    next_handle: u32,
    created: Vec<CreateDevice>,
    attrs: Vec<(u32, DeviceAttr)>,
    nr_irqs_set: Vec<u32>,
}

impl StubVm {
    fn new(supported: &[u32]) -> StubVm {
        StubVm {
            supported: supported.to_vec(),
            failing_group: None,
            next_handle: 100,
            created: Vec::new(),
            attrs: Vec::new(),
            nr_irqs_set: Vec::new(),
        }
    }

    fn create_device(&mut self, request: CreateDevice) -> Result<u32, i32> {
        self.created.push(request);
        if self.supported.contains(&request.type_) {
            self.next_handle += 1;
            Ok(self.next_handle)
        } else {
            Err(ENODEV)
        }
    }

    fn set_device_attr(&mut self, handle: u32, device_type: u32, attr: DeviceAttr) -> Result<(), i32> {
        self.attrs.push((handle, attr));
        if self.failing_group == Some((device_type, attr.group)) {
            return Err(EINVAL);
        }
        if attr.group == KVM_DEV_ARM_VGIC_GRP_NR_IRQS {
            self.nr_irqs_set.push(handle);
        }
        if attr.group == KVM_DEV_ARM_VGIC_GRP_CTRL && !self.nr_irqs_set.contains(&handle) {
            return Err(EINVAL);
        }
        Ok(())
    }
}

fn run(vm: &mut StubVm, vcpu_count: u64) -> Result<GICDevice<u32>, Error> {
    let mut step: SetupStep<u32> = create_gic(vcpu_count);
    let mut device_type = 0;
    loop {
        step = match step {
            SetupStep::CreateDevice(pending) => {
                let request = pending.init_device();
                device_type = request.type_;
                pending.created(vm.create_device(request))
            }
            SetupStep::SetAttribute(pending) => {
                let attr = pending.attribute();
                let handle = vm.next_handle;
                pending.completed(vm.set_device_attr(handle, device_type, attr))
            }
            SetupStep::Finished(result) => return result,
        };
    }
}

#[test]
fn test_create_gic() {
    let mut vm = StubVm::new(&[KVM_DEV_TYPE_ARM_VGIC_V2, KVM_DEV_TYPE_ARM_VGIC_V3]);
    assert!(run(&mut vm, 1).is_ok());
}

#[test]
fn newer_revision_is_attempted_first() {
    let mut vm = StubVm::new(&[KVM_DEV_TYPE_ARM_VGIC_V2, KVM_DEV_TYPE_ARM_VGIC_V3]);
    let device = run(&mut vm, 2).unwrap();
    assert_eq!(device.gic_version(), GicVersion::V3);
    assert_eq!(device.version(), 7);
    assert_eq!(device.vcpu_count(), 2);
    assert_eq!(device.fdt_compatibility(), "arm,gic-v3");
    assert_eq!(device.fdt_maint_irq(), 9);
    assert_eq!(*device.device_fd(), 101);
    assert_eq!(
        device.device_properties(),
        &[0x3fff_0000u64, 0x1_0000, 0x3ffb_0000, 0x4_0000][..]
    );
    assert_eq!(vm.created, vec![CreateDevice { type_: 7, fd: 0, flags: 0 }]);
}

#[test]
fn attribute_calls_of_the_newer_revision() {
    let mut vm = StubVm::new(&[KVM_DEV_TYPE_ARM_VGIC_V3]);
    run(&mut vm, 1).unwrap();
    let expected = vec![
        (101, DeviceAttr { group: 0, attr: 2, payload: Payload::Long(0x3fff_0000), flags: 0 }),
        (101, DeviceAttr { group: 0, attr: 3, payload: Payload::Long(0x3ffd_0000), flags: 0 }),
        (101, DeviceAttr { group: 3, attr: 0, payload: Payload::Word(96), flags: 0 }),
        (101, DeviceAttr { group: 4, attr: 0, payload: Payload::Empty, flags: 0 }),
    ];
    assert_eq!(vm.attrs, expected);
}

#[test]
fn attribute_calls_of_the_older_revision() {
    let attrs = GicVersion::V2.setup_attributes(8);
    let expected = vec![
        DeviceAttr { group: 0, attr: 0, payload: Payload::Long(0x3fff_f000), flags: 0 },
        DeviceAttr { group: 0, attr: 1, payload: Payload::Long(0x3fff_d000), flags: 0 },
        DeviceAttr { group: 3, attr: 0, payload: Payload::Word(96), flags: 0 },
        DeviceAttr { group: 4, attr: 0, payload: Payload::Empty, flags: 0 },
    ];
    assert_eq!(attrs, expected);
    assert_eq!(GicVersion::V2.init_device_attributes(8), expected[..2].to_vec());
    assert_eq!(finalize_device(), expected[2..].to_vec());
}

#[test]
fn every_vcpu_count_is_kept() {
    for vcpu_count in [1u64, 2, 3, 64, 255, 8191] {
        let mut vm = StubVm::new(&[KVM_DEV_TYPE_ARM_VGIC_V2, KVM_DEV_TYPE_ARM_VGIC_V3]);
        let device = run(&mut vm, vcpu_count).unwrap();
        assert_eq!(device.vcpu_count(), vcpu_count);
        assert_eq!(device.device_properties().len(), 4);
        assert_eq!(device.device_properties()[3], vcpu_count * 0x2_0000);
        assert_eq!(
            device.device_properties()[2] + device.device_properties()[3],
            device.device_properties()[0]
        );
    }
}

#[test]
fn largest_vcpu_count_fills_the_space_below_the_distributor() {
    assert_eq!(GicVersion::V3.cpu_region_addr(8191), 0x1_0000);
    assert_eq!(GicVersion::V3.cpu_region_size(8191), 0x3ffe_0000);
    assert_eq!(GicVersion::V3.device_properties(0), vec![0x3fff_0000, 0x1_0000, 0x3fff_0000, 0]);
}

#[test]
fn falls_back_when_newer_creation_fails() {
    let mut vm = StubVm::new(&[KVM_DEV_TYPE_ARM_VGIC_V2]);
    let device = run(&mut vm, 4).unwrap();
    assert_eq!(device.fdt_compatibility(), "arm,gic-400");
    assert_eq!(device.gic_version(), GicVersion::V2);
    assert_eq!(
        vm.created,
        vec![
            CreateDevice { type_: 7, fd: 0, flags: 0 },
            CreateDevice { type_: 5, fd: 0, flags: 0 },
        ]
    );
}

#[test]
fn older_revision_only() {
    let mut vm = StubVm::new(&[KVM_DEV_TYPE_ARM_VGIC_V2]);
    let device = run(&mut vm, 4).unwrap();
    assert_eq!(device.vcpu_count(), 4);
    assert_eq!(device.fdt_maint_irq(), 8);
    assert_eq!(device.version(), 5);
    assert_eq!(
        device.device_properties(),
        &[0x3fff_f000u64, 0x1000, 0x3fff_d000, 0x2000][..]
    );
}

#[test]
fn older_revision_serves_any_count() {
    for vcpu_count in [0u64, 8192, 1 << 40, u64::MAX] {
        let mut vm = StubVm::new(&[KVM_DEV_TYPE_ARM_VGIC_V2]);
        let device = run(&mut vm, vcpu_count).unwrap();
        assert_eq!(device.vcpu_count(), vcpu_count);
        assert_eq!(device.fdt_compatibility(), "arm,gic-400");
        assert_eq!(
            device.device_properties(),
            &[0x3fff_f000u64, 0x1000, 0x3fff_d000, 0x2000][..]
        );
        let mut vm = StubVm::new(&[]);
        assert_eq!(run(&mut vm, vcpu_count).unwrap_err(), Error::CreateGIC(ENODEV));
    }
    assert!(GicVersion::V2.layout_fits(u64::MAX));
    assert!(GicVersion::V3.layout_fits(8191));
    assert!(!GicVersion::V3.layout_fits(8192));
    assert!(!PendingCreate::new(GicVersion::V3, 8192).layout_fits());
}

#[test]
fn both_creations_fail() {
    let step: SetupStep<u32> = create_gic(1);
    let step: SetupStep<u32> = match step {
        SetupStep::CreateDevice(pending) => pending.created(Err(1)),
        _ => panic!("the first step creates a device"),
    };
    let step: SetupStep<u32> = match step {
        SetupStep::CreateDevice(pending) => {
            assert_eq!(pending.init_device().type_, KVM_DEV_TYPE_ARM_VGIC_V2);
            pending.created(Err(2))
        }
        _ => panic!("the second step creates a device"),
    };
    match step {
        SetupStep::Finished(Err(error)) => assert_eq!(error, Error::CreateGIC(2)),
        _ => panic!("the construction has failed"),
    }
}

#[test]
fn no_supported_revision() {
    let mut vm = StubVm::new(&[]);
    assert_eq!(run(&mut vm, 1).unwrap_err(), Error::CreateGIC(ENODEV));
    assert_eq!(vm.created.len(), 2);
    assert!(vm.attrs.is_empty());
}

#[test]
fn failed_attribute_of_the_newer_revision_falls_back() {
    let mut vm = StubVm::new(&[KVM_DEV_TYPE_ARM_VGIC_V2, KVM_DEV_TYPE_ARM_VGIC_V3]);
    vm.failing_group = Some((KVM_DEV_TYPE_ARM_VGIC_V3, KVM_DEV_ARM_VGIC_GRP_NR_IRQS));
    let device = run(&mut vm, 2).unwrap();
    assert_eq!(device.gic_version(), GicVersion::V2);
    assert_eq!(*device.device_fd(), 102);
    assert_eq!(vm.attrs.len(), 3 + 4);
}

#[test]
fn failed_attribute_of_the_older_revision_is_reported() {
    let mut vm = StubVm::new(&[KVM_DEV_TYPE_ARM_VGIC_V2]);
    vm.failing_group = Some((KVM_DEV_TYPE_ARM_VGIC_V2, KVM_DEV_ARM_VGIC_GRP_CTRL));
    assert_eq!(
        run(&mut vm, 2).unwrap_err(),
        Error::DeviceAttribute(EINVAL, true, KVM_DEV_ARM_VGIC_GRP_CTRL)
    );
    let mut vm = StubVm::new(&[KVM_DEV_TYPE_ARM_VGIC_V2]);
    vm.failing_group = Some((KVM_DEV_TYPE_ARM_VGIC_V2, KVM_DEV_ARM_VGIC_GRP_ADDR));
    assert_eq!(
        run(&mut vm, 2).unwrap_err(),
        Error::DeviceAttribute(EINVAL, true, KVM_DEV_ARM_VGIC_GRP_ADDR)
    );
    assert_eq!(vm.attrs.len(), 1);
}

#[test]
fn line_count_is_set_before_initialisation() {
    let mut vm = StubVm::new(&[KVM_DEV_TYPE_ARM_VGIC_V2, KVM_DEV_TYPE_ARM_VGIC_V3]);
    run(&mut vm, 1).unwrap();
    let groups: Vec<u32> = vm.attrs.iter().map(|(_, attr)| attr.group).collect();
    assert_eq!(groups, vec![0, 0, 3, 4]);
    for version in [GicVersion::V2, GicVersion::V3] {
        let attrs = version.setup_attributes(1);
        assert_eq!(attrs.len(), 4);
        assert_eq!(attrs[2].group, KVM_DEV_ARM_VGIC_GRP_NR_IRQS);
        assert_eq!(attrs[3].group, KVM_DEV_ARM_VGIC_GRP_CTRL);
    }
}

#[test]
fn attribute_error_is_annotated() {
    let attr = DeviceAttr { group: 3, attr: 0, payload: Payload::Word(96), flags: 0 };
    assert_eq!(set_device_attribute(&attr, Ok(())), Ok(()));
    assert_eq!(set_device_attribute(&attr, Err(16)), Err(Error::DeviceAttribute(16, true, 3)));
}

#[test]
fn attempt_with_the_older_revision_alone() {
    let pending = PendingCreate::new(GicVersion::V2, 3);
    assert_eq!(pending.init_device(), CreateDevice { type_: 5, fd: 0, flags: 0 });
    let step: SetupStep<u32> = pending.created(Err(12));
    assert!(matches!(step, SetupStep::Finished(Err(Error::CreateGIC(12)))));
    let step: SetupStep<u32> = PendingCreate::new(GicVersion::V2, 3).created(Ok(41));
    match step {
        SetupStep::SetAttribute(pending) => {
            assert_eq!(*pending.device_fd(), 41);
            assert_eq!(pending.attribute(), GicVersion::V2.setup_attributes(3)[0]);
        }
        _ => panic!("a created device is configured next"),
    }
}

#[test]
fn revision_constants() {
    assert_eq!(GicVersion::V2.kernel_device_type(), 5);
    assert_eq!(GicVersion::V3.kernel_device_type(), 7);
    assert_eq!(GicVersion::V2.dist_addr(), 0x3fff_f000);
    assert_eq!(GicVersion::V3.dist_addr(), 0x3fff_0000);
    assert_eq!(GicVersion::V2.dist_size(), 0x1000);
    assert_eq!(GicVersion::V3.dist_size(), 0x1_0000);
    assert_eq!(GicVersion::V2.dist_addr_type(), 0);
    assert_eq!(GicVersion::V2.cpu_region_addr_type(), 1);
    assert_eq!(GicVersion::V3.dist_addr_type(), 2);
    assert_eq!(GicVersion::V3.cpu_region_addr_type(), 3);
    assert_eq!(GicVersion::V2.fdt_compatibility(), "arm,gic-400");
    assert_eq!(GicVersion::V3.fdt_compatibility(), "arm,gic-v3");
    assert_eq!(GicVersion::V2.fdt_maint_irq(), 8);
    assert_eq!(GicVersion::V3.fdt_maint_irq(), 9);
}
