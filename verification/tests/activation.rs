use std::cell::Cell;

use gic_activation::activation::{
    activate, ActivationStep, EpollEvent, Registration, RegistryError, SubscriberRegistry,
    SubscriberVirtioDevice,
};

const EPOLLIN: u32 = 1;
const EPOLLOUT: u32 = 4;
const ENOMEM: i32 = 12;
const ENOENT: i32 = 2;

struct Device {
    activate_fd: i32,
    interests: Vec<EpollEvent>,
    lists_given: Cell<u32>,
}

impl Device {
    fn new(activate_fd: i32, interests: Vec<EpollEvent>) -> Device {
        Device { activate_fd, interests, lists_given: Cell::new(0) }
    }
}

impl SubscriberVirtioDevice for Device {
    fn activate_fd(&self) -> i32 {
        self.activate_fd
    }

    fn interest_list(&self) -> Vec<EpollEvent> {
        self.lists_given.set(self.lists_given.get() + 1);
        self.interests.clone()
    }
}

/// A poll set stand-in: it refuses what it is told to refuse and keeps a log.
struct PollSet {
    refused: Vec<i32>,
    added: Vec<i32>,
    removed: Vec<i32>,
}

impl PollSet {
    fn new(refused: &[i32]) -> PollSet {
        PollSet { refused: refused.to_vec(), added: Vec::new(), removed: Vec::new() }
    }

    fn add(&mut self, fd: i32) -> Result<(), i32> {
        self.added.push(fd);
        if self.refused.contains(&fd) {
            Err(ENOMEM)
        } else {
            Ok(())
        }
    }

    fn remove(&mut self, fd: i32) -> Result<(), i32> {
        self.removed.push(fd);
        if self.refused.contains(&fd) {
            Err(ENOENT)
        } else {
            Ok(())
        }
    }
}

fn finish(mut step: ActivationStep, registry: &mut SubscriberRegistry, poll: &mut PollSet) -> ActivationStep {
    loop {
        step = match step {
            ActivationStep::Register(activation) => {
                let event = activation.event().unwrap();
                let outcome = poll.add(event.fd());
                activation.added(registry, outcome)
            }
            ActivationStep::Unregister(activation) => {
                assert_eq!(activation.event(), None);
                let outcome = poll.remove(activation.activate_fd());
                activation.removed(registry, outcome)
            }
            done => return done,
        };
    }
}

fn deliver(
    device: &Device,
    drained: Result<u64, i32>,
    registry: &mut SubscriberRegistry,
    poll: &mut PollSet,
) -> ActivationStep {
    let step = device.process_activate_event(drained, registry);
    finish(step, registry, poll)
}

fn waiting_device() -> (Device, SubscriberRegistry) {
    let device = Device::new(10, vec![EpollEvent::new(EPOLLIN, 11), EpollEvent::new(EPOLLIN, 12)]);
    let mut registry = SubscriberRegistry::new();
    assert_eq!(registry.register(10, EpollEvent::new(EPOLLIN, 10), 77), Ok(()));
    (device, registry)
}

#[test]
fn activation_moves_the_registrations() {
    let (device, mut registry) = waiting_device();
    let mut poll = PollSet::new(&[]);
    match deliver(&device, Ok(1), &mut registry, &mut poll) {
        ActivationStep::Finished(activation) => {
            assert_eq!(activation.drain_error(), None);
            assert_eq!(activation.subscriber(), 77);
            assert_eq!(activation.registered(), &vec![true, true]);
            assert_eq!(activation.unregister_error(), None);
        }
        _ => panic!("the device is active"),
    }
    assert_eq!(registry.subscriber(11), Ok(77));
    assert_eq!(registry.subscriber(12), Ok(77));
    assert_eq!(registry.registration(11), Some(Registration { events: EPOLLIN, subscriber: 77 }));
    assert_eq!(registry.subscriber(10), Err(RegistryError::NotFound));
    assert_eq!(registry.registration(10), None);
    assert_eq!(poll.added, vec![11, 12]);
    assert_eq!(poll.removed, vec![10]);
}

#[test]
fn second_delivery_changes_nothing() {
    let (device, mut registry) = waiting_device();
    let mut poll = PollSet::new(&[]);
    deliver(&device, Ok(1), &mut registry, &mut poll);
    let step = deliver(&device, Ok(1), &mut registry, &mut poll);
    assert!(matches!(step, ActivationStep::Aborted(None)));
    assert_eq!(poll.added, vec![11, 12]);
    assert_eq!(poll.removed, vec![10]);
    assert_eq!(device.lists_given.get(), 1);
    assert_eq!(registry.subscriber(10), Err(RegistryError::NotFound));
    assert_eq!(registry.subscriber(11), Ok(77));
    assert_eq!(registry.subscriber(12), Ok(77));
    assert_eq!(registry.subscriber(13), Err(RegistryError::NotFound));
}

#[test]
fn refused_registration_is_skipped() {
    let (device, mut registry) = waiting_device();
    let mut poll = PollSet::new(&[11]);
    match deliver(&device, Ok(1), &mut registry, &mut poll) {
        ActivationStep::Finished(activation) => {
            assert_eq!(activation.registered(), &vec![false, true]);
        }
        _ => panic!("the device is active"),
    }
    assert_eq!(registry.registration(11), None);
    assert_eq!(registry.registration(12), Some(Registration { events: EPOLLIN, subscriber: 77 }));
    assert_eq!(registry.registration(10), None);
    assert_eq!(poll.added, vec![11, 12]);
    assert_eq!(poll.removed, vec![10]);
}

#[test]
fn refused_removal_still_drops_the_signal() {
    let (device, mut registry) = waiting_device();
    let mut poll = PollSet::new(&[10]);
    match deliver(&device, Ok(1), &mut registry, &mut poll) {
        ActivationStep::Finished(activation) => {
            assert_eq!(activation.unregister_error(), Some(ENOENT));
            assert_eq!(activation.registered(), &vec![true, true]);
        }
        _ => panic!("the device is active"),
    }
    assert_eq!(registry.registration(10), None);
    assert_eq!(registry.subscriber(11), Ok(77));
    let step = deliver(&device, Ok(1), &mut registry, &mut poll);
    assert!(matches!(step, ActivationStep::Aborted(None)));
}

#[test]
fn failed_drain_does_not_stop_the_activation() {
    let (device, mut registry) = waiting_device();
    let mut poll = PollSet::new(&[]);
    match deliver(&device, Err(11), &mut registry, &mut poll) {
        ActivationStep::Finished(activation) => assert_eq!(activation.drain_error(), Some(11)),
        _ => panic!("the device is active"),
    }
    assert_eq!(registry.subscriber(11), Ok(77));
    assert_eq!(registry.subscriber(10), Err(RegistryError::NotFound));
}

#[test]
fn unknown_signal_aborts() {
    let mut registry = SubscriberRegistry::new();
    registry.register(20, EpollEvent::new(EPOLLIN, 20), 5).unwrap();
    let device = Device::new(10, vec![EpollEvent::new(EPOLLIN, 11)]);
    let mut poll = PollSet::new(&[]);
    let step = deliver(&device, Err(4), &mut registry, &mut poll);
    assert!(matches!(step, ActivationStep::Aborted(Some(4))));
    assert_eq!(device.lists_given.get(), 0);
    assert!(poll.added.is_empty());
    assert!(poll.removed.is_empty());
    assert_eq!(registry.subscriber(11), Err(RegistryError::NotFound));
    assert_eq!(registry.subscriber(20), Ok(5));
    let step = activate(&registry, Ok(1), 10, vec![EpollEvent::new(EPOLLIN, 11)]);
    assert!(matches!(step, ActivationStep::Aborted(None)));
}

#[test]
fn taken_descriptor_is_skipped() {
    let mut registry = SubscriberRegistry::new();
    registry.register(10, EpollEvent::new(EPOLLIN, 10), 1).unwrap();
    registry.register(12, EpollEvent::new(EPOLLOUT, 12), 2).unwrap();
    let list = vec![
        EpollEvent::new(EPOLLIN, 11),
        EpollEvent::new(EPOLLIN, 12),
        EpollEvent::new(EPOLLOUT, 11),
        EpollEvent::new(EPOLLIN, 10),
        EpollEvent::new(EPOLLOUT, 13),
    ];
    let mut poll = PollSet::new(&[]);
    let step = activate(&registry, Ok(1), 10, list);
    match finish(step, &mut registry, &mut poll) {
        ActivationStep::Finished(activation) => {
            assert_eq!(activation.registered(), &vec![true, false, false, false, true]);
        }
        _ => panic!("the device is active"),
    }
    assert_eq!(poll.added, vec![11, 13]);
    assert_eq!(registry.registration(11), Some(Registration { events: EPOLLIN, subscriber: 1 }));
    assert_eq!(registry.registration(12), Some(Registration { events: EPOLLOUT, subscriber: 2 }));
    assert_eq!(registry.registration(13), Some(Registration { events: EPOLLOUT, subscriber: 1 }));
    assert_eq!(registry.registration(10), None);
}

#[test]
fn refused_entry_is_tried_again_when_listed_twice() {
    let mut registry = SubscriberRegistry::new();
    registry.register(10, EpollEvent::new(EPOLLIN, 10), 1).unwrap();
    let list = vec![EpollEvent::new(EPOLLIN, 11), EpollEvent::new(EPOLLOUT, 11)];
    let step = activate(&registry, Ok(1), 10, list);
    let step = match step {
        ActivationStep::Register(activation) => activation.added(&mut registry, Err(ENOMEM)),
        _ => panic!("the first entry is asked for"),
    };
    assert_eq!(registry.registration(11), None);
    let step = match step {
        ActivationStep::Register(activation) => {
            assert_eq!(activation.event(), Some(EpollEvent::new(EPOLLOUT, 11)));
            activation.added(&mut registry, Ok(()))
        }
        _ => panic!("the second entry is asked for"),
    };
    assert!(matches!(step, ActivationStep::Unregister(_)));
    assert_eq!(registry.registration(11), Some(Registration { events: EPOLLOUT, subscriber: 1 }));
    assert_eq!(registry.subscriber(10), Ok(1));
}

#[test]
fn empty_interest_list() {
    let mut registry = SubscriberRegistry::new();
    registry.register(10, EpollEvent::new(EPOLLIN, 10), 1).unwrap();
    let mut poll = PollSet::new(&[]);
    let step = activate(&registry, Ok(1), 10, Vec::new());
    assert!(matches!(step, ActivationStep::Unregister(_)));
    match finish(step, &mut registry, &mut poll) {
        ActivationStep::Finished(activation) => {
            assert_eq!(activation.subscriber(), 1);
            assert!(activation.registered().is_empty());
        }
        _ => panic!("the device is active"),
    }
    assert_eq!(registry.registration(10), None);
    assert!(poll.added.is_empty());
}

#[test]
fn registry_operations() {
    let mut registry = SubscriberRegistry::new();
    assert_eq!(registry.subscriber(3), Err(RegistryError::NotFound));
    assert_eq!(registry.unregister(3), Err(RegistryError::NotFound));
    assert_eq!(registry.register(3, EpollEvent::new(EPOLLIN, 3), 9), Ok(()));
    assert_eq!(
        registry.register(3, EpollEvent::new(EPOLLOUT, 3), 8),
        Err(RegistryError::AlreadyExists)
    );
    assert_eq!(registry.registration(3), Some(Registration { events: EPOLLIN, subscriber: 9 }));
    assert_eq!(registry.unregister(3), Ok(()));
    assert_eq!(registry.subscriber(3), Err(RegistryError::NotFound));
}

#[test]
fn descriptor_is_the_low_half_of_the_data_word() {
    assert_eq!(EpollEvent::new(EPOLLIN, 11).fd(), 11);
    assert_eq!(EpollEvent::new(EPOLLIN, 0x1_0000_000c).fd(), 12);
    assert_eq!(EpollEvent::new(EPOLLIN, 0xffff_ffff).fd(), -1);
}
