//! Activation of an event-driven virtio device.
//!
//! Until the guest starts it, a device is known to the reactor by its
//! activation signal alone. When that signal fires, the device's subscriber
//! takes on the device's steady-state event sources, and the signal's own
//! registration is then dropped. This module holds the reactor's
//! bookkeeping, a map from file descriptors to subscribers, and that
//! transition.
//!
//! The transition is a dialogue with the reactor's poll set. Each
//! [`ActivationStep`] names one call for the caller to make; the caller
//! reports what the poll set answered, which gives the next step. An entry
//! that the poll set refuses is skipped and the transition goes on.

use std::collections::HashMap;
use vstd::prelude::*;

verus! {

broadcast use vstd::std_specs::hash::group_hash_axioms;

/// An event source and the directions to watch it for. As with epoll, the
/// data word carries the file descriptor.
#[derive(Clone, Copy, Debug, PartialEq, Eq, Structural)]
pub struct EpollEvent {
    pub events: u32,
    pub data: u64,
}

impl EpollEvent {
    /// The file descriptor that the event is about: the low 32 bits of its data word.
    pub open spec fn spec_fd(self) -> i32 {
        self.data as i32
    }

    pub fn new(events: u32, data: u64) -> (event: EpollEvent)
        ensures
            event == (EpollEvent { events, data }),
    {
        EpollEvent { events, data }
    }

    pub fn fd(&self) -> (fd: i32)
        ensures
            fd == self.spec_fd(),
    {
        #[verifier::truncate]
        (self.data as i32)
    }
}

/// What the reactor keeps for a registered file descriptor: the directions
/// watched and the handle of the subscriber that answers for it.
#[derive(Clone, Copy, Debug, PartialEq, Eq, Structural)]
pub struct Registration {
    pub events: u32,
    pub subscriber: u64,
}

#[derive(Clone, Copy, Debug, PartialEq, Eq, Structural)]
pub enum RegistryError {
    /// The file descriptor is registered already.
    AlreadyExists,
    /// Nothing is registered under the file descriptor.
    NotFound,
}

/// The reactor's registrations, keyed by file descriptor.
pub struct SubscriberRegistry {
    subscribers: HashMap<i32, Registration>,
}

pub open spec fn spec_subscriber(subscribers: Map<i32, Registration>, fd: i32) -> Result<
    u64,
    RegistryError,
> {
    if subscribers.contains_key(fd) {
        Ok(subscribers[fd].subscriber)
    } else {
        Err(RegistryError::NotFound)
    }
}

/// The registrations after an attempt to register `event` for `subscriber`:
/// a file descriptor that is registered already keeps what it has.
pub open spec fn spec_register(
    subscribers: Map<i32, Registration>,
    event: EpollEvent,
    subscriber: u64,
) -> Map<i32, Registration> {
    if subscribers.contains_key(event.spec_fd()) {
        subscribers
    } else {
        subscribers.insert(event.spec_fd(), Registration { events: event.events, subscriber })
    }
}

impl View for SubscriberRegistry {
    type V = Map<i32, Registration>;

    closed spec fn view(&self) -> Map<i32, Registration> {
        self.subscribers@
    }
}

impl SubscriberRegistry {
    pub fn new() -> (registry: SubscriberRegistry)
        ensures
            registry@ == Map::<i32, Registration>::empty(),
    {
        SubscriberRegistry { subscribers: HashMap::new() }
    }

    /// The registration of `fd`, if it has one.
    pub fn registration(&self, fd: i32) -> (found: Option<Registration>)
        ensures
            found == (if self@.contains_key(fd) {
                Some(self@[fd])
            } else {
                None
            }),
    {
        match self.subscribers.get(&fd) {
            Some(registration) => Some(*registration),
            None => None,
        }
    }

    /// The handle of the subscriber that answers for `fd`.
    pub fn subscriber(&self, fd: i32) -> (found: Result<u64, RegistryError>)
        ensures
            found == spec_subscriber(self@, fd),
    {
        match self.registration(fd) {
            Some(registration) => Ok(registration.subscriber),
            None => Err(RegistryError::NotFound),
        }
    }

    /// Registers `event` under `fd` for `subscriber`, unless `fd` is taken.
    pub fn register(&mut self, fd: i32, event: EpollEvent, subscriber: u64) -> (res: Result<
        (),
        RegistryError,
    >)
        ensures
            old(self)@.contains_key(fd) ==> res == Err::<(), RegistryError>(
                RegistryError::AlreadyExists,
            ) && final(self)@ == old(self)@,
            !old(self)@.contains_key(fd) ==> res == Ok::<(), RegistryError>(()) && final(self)@
                == old(self)@.insert(fd, Registration { events: event.events, subscriber }),
    {
        if self.subscribers.contains_key(&fd) {
            Err(RegistryError::AlreadyExists)
        } else {
            self.subscribers.insert(fd, Registration { events: event.events, subscriber });
            Ok(())
        }
    }

    /// Drops the registration of `fd`.
    pub fn unregister(&mut self, fd: i32) -> (res: Result<(), RegistryError>)
        ensures
            final(self)@ == old(self)@.remove(fd),
            res == (if old(self)@.contains_key(fd) {
                Ok::<(), RegistryError>(())
            } else {
                Err::<(), RegistryError>(RegistryError::NotFound)
            }),
    {
        match self.subscribers.remove(&fd) {
            Some(_) => Ok(()),
            None => Err(RegistryError::NotFound),
        }
    }
}


/// A transition under way: what is known of it so far.
#[derive(Debug)]
pub struct Activation {
    activate_fd: i32,
    subscriber: u64,
    drain_error: Option<i32>,
    interest_list: Vec<EpollEvent>,
    registered: Vec<bool>,
    unregister_error: Option<i32>,
}

/// A transition as the contracts see it.
pub struct ActivationView {
    /// The file descriptor of the activation signal.
    pub activate_fd: i32,
    /// The subscriber found under the activation signal.
    pub subscriber: u64,
    /// The error number of a failed drain of the activation signal.
    pub drain_error: Option<i32>,
    /// The event sources that the device wants watched.
    pub interest_list: Seq<EpollEvent>,
    /// For each entry of the interest list that was dealt with, in order,
    /// whether it was registered.
    pub registered: Seq<bool>,
    /// The error number of a refused removal of the activation signal.
    pub unregister_error: Option<i32>,
}

impl ActivationView {
    /// Whether an entry of the interest list is still to be dealt with.
    pub open spec fn spec_pending(self) -> bool {
        self.registered.len() < self.interest_list.len()
    }

    /// The entry that is dealt with next.
    pub open spec fn spec_event(self) -> EpollEvent {
        self.interest_list[self.registered.len() as int]
    }

    /// The transition after its next entry was dealt with.
    pub open spec fn spec_noted(self, registered: bool) -> ActivationView {
        ActivationView { registered: self.registered.push(registered), ..self }
    }
}

impl View for Activation {
    type V = ActivationView;

    closed spec fn view(&self) -> ActivationView {
        ActivationView {
            activate_fd: self.activate_fd,
            subscriber: self.subscriber,
            drain_error: self.drain_error,
            interest_list: self.interest_list@,
            registered: self.registered@,
            unregister_error: self.unregister_error,
        }
    }
}

/// One step of a transition: the call to make next, or the end.
#[derive(Debug)]
pub enum ActivationStep {
    /// Add the next entry to the poll set, then report with [`Activation::added`].
    Register(Activation),
    /// Remove the activation signal from the poll set, then report with
    /// [`Activation::removed`].
    Unregister(Activation),
    /// The device is active.
    Finished(Activation),
    /// No subscriber was found under the activation signal: nothing was
    /// changed and the device stays as it was. The field is the error number
    /// of a failed drain.
    Aborted(Option<i32>),
}

/// A step as the contracts see it.
pub enum ActivationStepView {
    Register(ActivationView),
    Unregister(ActivationView),
    Finished(ActivationView),
    Aborted(Option<i32>),
}

impl View for ActivationStep {
    type V = ActivationStepView;

    open spec fn view(&self) -> ActivationStepView {
        match *self {
            ActivationStep::Register(activation) => ActivationStepView::Register(activation@),
            ActivationStep::Unregister(activation) => ActivationStepView::Unregister(activation@),
            ActivationStep::Finished(activation) => ActivationStepView::Finished(activation@),
            ActivationStep::Aborted(drain_error) => ActivationStepView::Aborted(drain_error),
        }
    }
}

/// What is reported of the drain of the activation signal.
pub open spec fn spec_drain_error(drained: Result<u64, i32>) -> Option<i32> {
    match drained {
        Ok(_) => None,
        Err(errno) => Some(errno),
    }
}

/// The step that asks for the next call: entries whose file descriptor is
/// taken are skipped without a call, and after the last entry the
/// activation signal is to be removed.
pub open spec fn spec_next_step(
    activation: ActivationView,
    subscribers: Map<i32, Registration>,
) -> ActivationStepView
    decreases activation.interest_list.len() - activation.registered.len(),
{
    if !activation.spec_pending() {
        ActivationStepView::Unregister(activation)
    } else if subscribers.contains_key(activation.spec_event().spec_fd()) {
        spec_next_step(activation.spec_noted(false), subscribers)
    } else {
        ActivationStepView::Register(activation)
    }
}

/// The first step of the transition of a device whose activation signal
/// `activate_fd` fired and that wants `interest_list` watched.
pub open spec fn spec_activate(
    subscribers: Map<i32, Registration>,
    drained: Result<u64, i32>,
    activate_fd: i32,
    interest_list: Seq<EpollEvent>,
) -> ActivationStepView {
    if subscribers.contains_key(activate_fd) {
        spec_next_step(
            ActivationView {
                activate_fd,
                subscriber: subscribers[activate_fd].subscriber,
                drain_error: spec_drain_error(drained),
                interest_list,
                registered: Seq::empty(),
                unregister_error: None,
            },
            subscribers,
        )
    } else {
        ActivationStepView::Aborted(spec_drain_error(drained))
    }
}

/// Whether the next entry is registered, given the poll set's answer.
pub open spec fn spec_accepted(
    activation: ActivationView,
    subscribers: Map<i32, Registration>,
    outcome: Result<(), i32>,
) -> bool {
    activation.spec_pending() && outcome is Ok && !subscribers.contains_key(
        activation.spec_event().spec_fd(),
    )
}

/// The registrations after the poll set answered the request to add the next
/// entry: an entry that it refused leaves them as they were.
pub open spec fn spec_added_registry(
    activation: ActivationView,
    subscribers: Map<i32, Registration>,
    outcome: Result<(), i32>,
) -> Map<i32, Registration> {
    if spec_accepted(activation, subscribers, outcome) {
        spec_register(subscribers, activation.spec_event(), activation.subscriber)
    } else {
        subscribers
    }
}

/// The step after the poll set answered the request to add the next entry.
pub open spec fn spec_added(
    activation: ActivationView,
    subscribers: Map<i32, Registration>,
    outcome: Result<(), i32>,
) -> ActivationStepView {
    if activation.spec_pending() {
        spec_next_step(
            activation.spec_noted(spec_accepted(activation, subscribers, outcome)),
            spec_added_registry(activation, subscribers, outcome),
        )
    } else {
        ActivationStepView::Unregister(activation)
    }
}

/// The end of the transition, after the poll set answered the request to
/// remove the activation signal.
pub open spec fn spec_removed(activation: ActivationView, outcome: Result<(), i32>) -> ActivationStepView {
    ActivationStepView::Finished(
        ActivationView {
            unregister_error: match outcome {
                Ok(_) => None,
                Err(errno) => Some(errno),
            },
            ..activation
        },
    )
}

/// What is reported of the drain of the activation signal: the error
/// number of a failed read.
pub fn drain_error(drained: Result<u64, i32>) -> (error: Option<i32>)
    ensures
        error == spec_drain_error(drained),
{
    match drained {
        Ok(_) => None,
        Err(errno) => Some(errno),
    }
}

fn next_step(activation: Activation, registry: &SubscriberRegistry) -> (step: ActivationStep)
    ensures
        step@ == spec_next_step(activation@, registry@),
{
    let ghost start = activation@;
    let Activation {
        activate_fd,
        subscriber,
        drain_error,
        interest_list,
        mut registered,
        unregister_error,
    } = activation;
    while registered.len() < interest_list.len()
        invariant
            spec_next_step(
                ActivationView { registered: registered@, ..start },
                registry@,
            ) == spec_next_step(start, registry@),
            start == activation@,
            interest_list@ == start.interest_list,
            activate_fd == start.activate_fd,
            subscriber == start.subscriber,
            drain_error == start.drain_error,
            unregister_error == start.unregister_error,
        decreases interest_list@.len() - registered@.len(),
    {
        let event = interest_list[registered.len()];
        if registry.registration(event.fd()).is_some() {
            registered.push(false);
        } else {
            let step = ActivationStep::Register(
                Activation {
                    activate_fd,
                    subscriber,
                    drain_error,
                    interest_list,
                    registered,
                    unregister_error,
                },
            );
            proof {
                let current = ActivationView { registered: registered@, ..start };
                assert(current.spec_pending());
                assert(current.spec_event() == event);
                assert(spec_next_step(current, registry@) == ActivationStepView::Register(current));
                assert(step@ == ActivationStepView::Register(current));
            }
            return step;
        }
    }
    ActivationStep::Unregister(
        Activation { activate_fd, subscriber, drain_error, interest_list, registered, unregister_error },
    )
}

/// Starts the transition of a device from waiting to running.
///
/// `drained` is the outcome of reading the activation signal, which the
/// caller has done; a failed read is noted and changes nothing else.
/// Without a subscriber under `activate_fd` the transition is aborted.
pub fn activate(
    registry: &SubscriberRegistry,
    drained: Result<u64, i32>,
    activate_fd: i32,
    interest_list: Vec<EpollEvent>,
) -> (step: ActivationStep)
    ensures
        step@ == spec_activate(registry@, drained, activate_fd, interest_list@),
{
    match registry.subscriber(activate_fd) {
        Ok(subscriber) => next_step(
            Activation {
                activate_fd,
                subscriber,
                drain_error: drain_error(drained),
                interest_list,
                registered: Vec::new(),
                unregister_error: None,
            },
            registry,
        ),
        Err(_) => ActivationStep::Aborted(drain_error(drained)),
    }
}

impl Activation {
    /// The file descriptor of the activation signal.
    pub fn activate_fd(&self) -> (fd: i32)
        ensures
            fd == self@.activate_fd,
    {
        self.activate_fd
    }

    /// The subscriber that takes on the device's event sources.
    pub fn subscriber(&self) -> (subscriber: u64)
        ensures
            subscriber == self@.subscriber,
    {
        self.subscriber
    }

    /// The error number of a failed drain of the activation signal.
    pub fn drain_error(&self) -> (error: Option<i32>)
        ensures
            error == self@.drain_error,
    {
        self.drain_error
    }

    /// The error number of a refused removal of the activation signal.
    pub fn unregister_error(&self) -> (error: Option<i32>)
        ensures
            error == self@.unregister_error,
    {
        self.unregister_error
    }

    /// For each entry dealt with so far, whether it was registered.
    pub fn registered(&self) -> (flags: &Vec<bool>)
        ensures
            flags@ == self@.registered,
    {
        &self.registered
    }

    /// The entry that is dealt with next, if one is left.
    pub fn event(&self) -> (event: Option<EpollEvent>)
        ensures
            event == (if self@.spec_pending() {
                Some(self@.spec_event())
            } else {
                None
            }),
    {
        if self.registered.len() < self.interest_list.len() {
            Some(self.interest_list[self.registered.len()])
        } else {
            None
        }
    }

    /// Takes the poll set's answer to the request to add the next entry. An
    /// accepted entry is registered for the device's subscriber; a refused
    /// one is skipped. Either way the transition goes on.
    pub fn added(self, registry: &mut SubscriberRegistry, outcome: Result<(), i32>) -> (step:
        ActivationStep)
        ensures
            final(registry)@ == spec_added_registry(self@, old(registry)@, outcome),
            step@ == spec_added(self@, old(registry)@, outcome),
    {
        let Activation {
            activate_fd,
            subscriber,
            drain_error,
            interest_list,
            mut registered,
            unregister_error,
        } = self;
        if registered.len() < interest_list.len() {
            let event = interest_list[registered.len()];
            let accepted = match outcome {
                Ok(_) => registry.register(event.fd(), event, subscriber).is_ok(),
                Err(_) => false,
            };
            registered.push(accepted);
            next_step(
                Activation {
                    activate_fd,
                    subscriber,
                    drain_error,
                    interest_list,
                    registered,
                    unregister_error,
                },
                registry,
            )
        } else {
            ActivationStep::Unregister(
                Activation {
                    activate_fd,
                    subscriber,
                    drain_error,
                    interest_list,
                    registered,
                    unregister_error,
                },
            )
        }
    }

    /// Takes the poll set's answer to the request to remove the activation
    /// signal. The signal's registration is dropped whatever the answer; a
    /// refusal is noted.
    pub fn removed(self, registry: &mut SubscriberRegistry, outcome: Result<(), i32>) -> (step:
        ActivationStep)
        ensures
            final(registry)@ == old(registry)@.remove(self@.activate_fd),
            step@ == spec_removed(self@, outcome),
    {
        let Activation {
            activate_fd,
            subscriber,
            drain_error,
            interest_list,
            registered,
            unregister_error: _,
        } = self;
        let _ = registry.unregister(activate_fd);
        let unregister_error: Option<i32> = match outcome {
            Ok(_) => None,
            Err(errno) => Some(errno),
        };
        ActivationStep::Finished(
            Activation {
                activate_fd,
                subscriber,
                drain_error,
                interest_list,
                registered,
                unregister_error,
            },
        )
    }
}

/// A virtio device that the reactor can activate.
pub trait SubscriberVirtioDevice {
    /// The file descriptor of the device's activation signal.
    fn activate_fd(&self) -> i32;

    /// The event sources that the device wants watched once it runs.
    fn interest_list(&self) -> Vec<EpollEvent>;

    /// Called when the activation signal fired, with the outcome of reading
    /// it. The subscriber is looked up under the device's signal first;
    /// without one the transition is aborted and the device is not asked
    /// for its interest list. Else the transition starts as [`activate`]
    /// says, with the list that the device gives.
    fn process_activate_event(&self, drained: Result<u64, i32>, registry: &SubscriberRegistry) -> (step:
        ActivationStep)
        ensures
            exists|fd: i32, events: Seq<EpollEvent>|
                step@ == #[trigger] spec_activate(registry@, drained, fd, events),
    {
        let activate_fd = self.activate_fd();
        match registry.subscriber(activate_fd) {
            Ok(_) => {
                let interest_list = self.interest_list();
                let step = activate(registry, drained, activate_fd, interest_list);
                assert(step@ == spec_activate(registry@, drained, activate_fd, interest_list@));
                step
            },
            Err(_) => {
                let step = ActivationStep::Aborted(drain_error(drained));
                assert(step@ == spec_activate(registry@, drained, activate_fd, Seq::empty()));
                step
            },
        }
    }
}


/// The step and the registrations after the poll set gave `answer` to the
/// call that `step` asked for. A step that asks for nothing stays.
pub open spec fn spec_answer(
    step: ActivationStepView,
    subscribers: Map<i32, Registration>,
    answer: Result<(), i32>,
) -> (ActivationStepView, Map<i32, Registration>) {
    match step {
        ActivationStepView::Register(activation) => (
            spec_added(activation, subscribers, answer),
            spec_added_registry(activation, subscribers, answer),
        ),
        ActivationStepView::Unregister(activation) => (
            spec_removed(activation, answer),
            subscribers.remove(activation.activate_fd),
        ),
        _ => (step, subscribers),
    }
}

/// The step and the registrations after the poll set gave `answers`, one
/// after the other, to the calls that the transition asked for.
pub open spec fn spec_run(
    step: ActivationStepView,
    subscribers: Map<i32, Registration>,
    answers: Seq<Result<(), i32>>,
) -> (ActivationStepView, Map<i32, Registration>)
    decreases answers.len(),
{
    if answers.len() == 0 {
        (step, subscribers)
    } else {
        let earlier = spec_run(step, subscribers, answers.drop_last());
        spec_answer(earlier.0, earlier.1, answers.last())
    }
}

/// What holds of a transition of the device with signal `fd` and interest
/// list `list` that started on the registrations `before`, whatever the
/// poll set answered so far: it works for the subscriber found under the
/// signal, every other registration that was there is as it was, every new
/// registration belongs to that subscriber, and every entry noted as
/// registered has a registration.
pub open spec fn spec_progress_holds(
    activation: ActivationView,
    subscribers: Map<i32, Registration>,
    before: Map<i32, Registration>,
    fd: i32,
    list: Seq<EpollEvent>,
) -> bool {
    &&& before.contains_key(fd)
    &&& activation.activate_fd == fd
    &&& activation.subscriber == before[fd].subscriber
    &&& activation.interest_list == list
    &&& activation.registered.len() <= list.len()
    &&& forall|k: i32|
        k != fd && #[trigger] before.contains_key(k) ==> subscribers.contains_key(k)
            && subscribers[k] == before[k]
    &&& forall|k: i32|
        #[trigger] subscribers.contains_key(k) && !before.contains_key(k) ==> subscribers[k].subscriber
            == activation.subscriber
    &&& forall|i: int|
        0 <= i < activation.registered.len() && #[trigger] activation.registered[i] ==> list[i].spec_fd()
            != fd && subscribers.contains_key(list[i].spec_fd())
}

/// What holds of every step of such a transition: while calls are asked
/// for, the signal keeps its registration, so the subscriber is never
/// without one; an entry is asked for only while one is left, the removal
/// of the signal only after the last; at the end the signal has none.
pub open spec fn spec_transition_holds(
    step: ActivationStepView,
    subscribers: Map<i32, Registration>,
    before: Map<i32, Registration>,
    fd: i32,
    list: Seq<EpollEvent>,
) -> bool {
    match step {
        ActivationStepView::Register(activation) => {
            &&& spec_progress_holds(activation, subscribers, before, fd, list)
            &&& activation.spec_pending()
            &&& !subscribers.contains_key(activation.spec_event().spec_fd())
            &&& subscribers.contains_key(fd)
            &&& subscribers[fd] == before[fd]
        },
        ActivationStepView::Unregister(activation) => {
            &&& spec_progress_holds(activation, subscribers, before, fd, list)
            &&& activation.registered.len() == list.len()
            &&& subscribers.contains_key(fd)
            &&& subscribers[fd] == before[fd]
        },
        ActivationStepView::Finished(activation) => {
            &&& spec_progress_holds(activation, subscribers, before, fd, list)
            &&& activation.registered.len() == list.len()
            &&& !subscribers.contains_key(fd)
        },
        ActivationStepView::Aborted(_) => false,
    }
}

proof fn lemma_next_step_holds(
    activation: ActivationView,
    subscribers: Map<i32, Registration>,
    before: Map<i32, Registration>,
    fd: i32,
    list: Seq<EpollEvent>,
)
    requires
        spec_progress_holds(activation, subscribers, before, fd, list),
        subscribers.contains_key(fd),
        subscribers[fd] == before[fd],
    ensures
        spec_transition_holds(spec_next_step(activation, subscribers), subscribers, before, fd, list),
    decreases activation.interest_list.len() - activation.registered.len(),
{
    if activation.spec_pending() && subscribers.contains_key(activation.spec_event().spec_fd()) {
        let skipped = activation.spec_noted(false);
        assert forall|i: int| 0 <= i < skipped.registered.len() && #[trigger] skipped.registered[i]
            implies list[i].spec_fd() != fd && subscribers.contains_key(list[i].spec_fd()) by {
            assert(i < activation.registered.len());
            assert(activation.registered[i]);
        }
        lemma_next_step_holds(skipped, subscribers, before, fd, list);
    }
}

proof fn lemma_answer_holds(
    step: ActivationStepView,
    subscribers: Map<i32, Registration>,
    answer: Result<(), i32>,
    before: Map<i32, Registration>,
    fd: i32,
    list: Seq<EpollEvent>,
)
    requires
        spec_transition_holds(step, subscribers, before, fd, list),
    ensures
        spec_transition_holds(
            spec_answer(step, subscribers, answer).0,
            spec_answer(step, subscribers, answer).1,
            before,
            fd,
            list,
        ),
{
    match step {
        ActivationStepView::Register(activation) => {
            let accepted = spec_accepted(activation, subscribers, answer);
            let noted = activation.spec_noted(accepted);
            let after = spec_added_registry(activation, subscribers, answer);
            assert forall|i: int| 0 <= i < noted.registered.len() && #[trigger] noted.registered[i]
                implies list[i].spec_fd() != fd && after.contains_key(list[i].spec_fd()) by {
                if i < activation.registered.len() {
                    assert(activation.registered[i]);
                }
            }
            lemma_next_step_holds(noted, after, before, fd, list);
        },
        ActivationStepView::Unregister(activation) => {
            let after = subscribers.remove(fd);
            let done = spec_removed(activation, answer)->Finished_0;
            assert forall|i: int| 0 <= i < done.registered.len() && #[trigger] done.registered[i]
                implies list[i].spec_fd() != fd && after.contains_key(list[i].spec_fd()) by {
                assert(activation.registered[i]);
            }
        },
        _ => {},
    }
}

/// A device that waits under its activation signal is activated by the
/// first delivery, and a second delivery changes nothing.
///
/// Whatever the poll set answers: at every step the transition works for
/// the subscriber found under the signal, the signal keeps its registration
/// until its removal was asked for, an entry noted as registered has a
/// registration, every registration that was there before is as it was, and
/// every new one belongs to the device's subscriber. Once the transition is
/// finished the signal has no registration, so a second delivery is aborted
/// at the lookup, asks for no call and leaves the registrations alone.
pub proof fn law_activation_runs_once(
    before: Map<i32, Registration>,
    drained: Result<u64, i32>,
    fd: i32,
    list: Seq<EpollEvent>,
    answers: Seq<Result<(), i32>>,
)
    requires
        before.contains_key(fd),
    ensures
        ({
            let reached = spec_run(spec_activate(before, drained, fd, list), before, answers);
            &&& spec_transition_holds(reached.0, reached.1, before, fd, list)
            &&& reached.0 is Finished ==> spec_activate(reached.1, drained, fd, list)
                == ActivationStepView::Aborted(spec_drain_error(drained))
            &&& reached.0 is Finished ==> forall|later: Seq<Result<(), i32>>|
                #[trigger] spec_run(spec_activate(reached.1, drained, fd, list), reached.1, later).1
                    == reached.1
        }),
    decreases answers.len(),
{
    let start = spec_activate(before, drained, fd, list);
    if answers.len() == 0 {
        lemma_next_step_holds(
            ActivationView {
                activate_fd: fd,
                subscriber: before[fd].subscriber,
                drain_error: spec_drain_error(drained),
                interest_list: list,
                registered: Seq::empty(),
                unregister_error: None,
            },
            before,
            before,
            fd,
            list,
        );
    } else {
        law_activation_runs_once(before, drained, fd, list, answers.drop_last());
        let earlier = spec_run(start, before, answers.drop_last());
        lemma_answer_holds(earlier.0, earlier.1, answers.last(), before, fd, list);
    }
    let reached = spec_run(start, before, answers);
    if reached.0 is Finished {
        assert forall|later: Seq<Result<(), i32>>|
            #[trigger] spec_run(spec_activate(reached.1, drained, fd, list), reached.1, later).1
                == reached.1 by {
            lemma_aborted_stays(spec_drain_error(drained), reached.1, later);
        }
    }
}

proof fn lemma_aborted_stays(
    drain_error: Option<i32>,
    subscribers: Map<i32, Registration>,
    answers: Seq<Result<(), i32>>,
)
    ensures
        spec_run(ActivationStepView::Aborted(drain_error), subscribers, answers) == (
            ActivationStepView::Aborted(drain_error),
            subscribers,
        ),
    decreases answers.len(),
{
    if answers.len() > 0 {
        lemma_aborted_stays(drain_error, subscribers, answers.drop_last());
    }
}

/// An entry that the poll set refuses is skipped: the registrations stay as
/// they were, the entry is noted as not registered, and the transition goes
/// on with the entries after it. An entry that it accepts, asked for while
/// its file descriptor is free, is registered as it stands for the device's
/// subscriber, and nothing else changes.
pub proof fn law_refused_registration_is_skipped(
    activation: ActivationView,
    subscribers: Map<i32, Registration>,
    errno: i32,
)
    requires
        activation.spec_pending(),
    ensures
        spec_added_registry(activation, subscribers, Err(errno)) == subscribers,
        spec_added(activation, subscribers, Err(errno)) == spec_next_step(
            activation.spec_noted(false),
            subscribers,
        ),
        !subscribers.contains_key(activation.spec_event().spec_fd()) ==> spec_added_registry(
            activation,
            subscribers,
            Ok(()),
        ) == subscribers.insert(
            activation.spec_event().spec_fd(),
            Registration { events: activation.spec_event().events, subscriber: activation.subscriber },
        ),
{
}

} // verus!
