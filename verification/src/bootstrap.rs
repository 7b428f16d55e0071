//! The order in which the compute context is brought up.
//!
//! The bring-up is a chain: loader, instance, device choice, logical
//! device, allocator, buffers. Each link needs the one before it, and the
//! first failure ends the chain. `Bootstrap` holds where the chain stands;
//! whoever talks to the driver performs the `Action` it is handed and
//! reports back with an `Event`.

use vstd::prelude::*;
use crate::buffer::{
    allocation_sizes, buffer_request, planned_sizes, workload_bytes, BufferRequest,
};
use crate::config::{device_request, instance_request, DeviceRequest, InstanceRequest};
use crate::error::BootstrapError;
use crate::select::{
    any_compute_device, family_masks, is_first_match, lemma_first_match_unique, select_device,
    PhysicalDeviceInfo,
};

verus! {

/// Where the bring-up stands: what was last asked of the driver and is
/// still awaited, or how the bring-up ended.
#[derive(Clone, Copy, Debug, PartialEq, Eq, Structural)]
pub enum Stage {
    /// The driver's loader is being opened.
    LoadingEntry,
    /// The instance is being created.
    CreatingInstance,
    /// The physical devices are being listed.
    EnumeratingDevices,
    /// The logical device is being created on the chosen physical device,
    /// with queues of the chosen family.
    CreatingDevice { physical_device: usize, queue_family_index: u32 },
    /// The allocator is being set up for the chosen physical device.
    CreatingAllocator { physical_device: usize },
    /// The buffer at position `index` of the plan is being allocated.
    Allocating { index: usize },
    /// Every planned buffer was allocated.
    Finished,
    /// The bring-up was given up.
    Failed(BootstrapError),
}

/// What came of the action that was last handed out.
#[derive(Debug)]
pub enum Event {
    /// The action succeeded and has nothing to report.
    Completed,
    /// The physical devices were listed; these are they, in the driver's
    /// order.
    Devices(Vec<PhysicalDeviceInfo>),
    /// The action failed.
    Failed,
}

/// What to ask of the driver next.
#[derive(Debug)]
pub enum Action {
    /// Open the driver's loader.
    LoadEntry,
    /// Create the instance.
    CreateInstance(InstanceRequest),
    /// List the physical devices and report them.
    EnumerateDevices,
    /// Create the logical device.
    CreateDevice(DeviceRequest),
    /// Set up the allocator for the physical device at this position in the
    /// enumeration.
    CreateAllocator { physical_device: usize },
    /// Create a buffer and bind memory to it.
    AllocateBuffer(BufferRequest),
    /// Release what was built, newest first, and report success.
    Finish,
    /// Release what was built, newest first, and report this failure.
    Abort(BootstrapError),
}

impl Stage {
    /// Whether the bring-up has ended, well or badly.
    pub open spec fn is_terminal(self) -> bool {
        self is Finished || self is Failed
    }

    /// The failure that is reported when the action awaited at this stage
    /// fails.
    pub open spec fn failure(self) -> BootstrapError {
        match self {
            Stage::LoadingEntry => BootstrapError::Loader,
            Stage::CreatingInstance => BootstrapError::InstanceCreation,
            Stage::EnumeratingDevices => BootstrapError::DeviceEnumeration,
            Stage::CreatingDevice { .. } => BootstrapError::DeviceCreation,
            Stage::CreatingAllocator { .. } => BootstrapError::AllocatorCreation,
            Stage::Allocating { .. } => BootstrapError::Allocation,
            Stage::Finished => BootstrapError::UnexpectedEvent,
            Stage::Failed(e) => e,
        }
    }

    /// The stage that follows when the action awaited at this stage
    /// succeeds with nothing to report, while `planned` buffers are
    /// planned. Listing the devices always reports, so that stage has no
    /// such successor.
    pub open spec fn successor(self, planned: nat) -> Stage {
        match self {
            Stage::LoadingEntry => Stage::CreatingInstance,
            Stage::CreatingInstance => Stage::EnumeratingDevices,
            Stage::EnumeratingDevices => Stage::Failed(BootstrapError::UnexpectedEvent),
            Stage::CreatingDevice { physical_device, .. } => Stage::CreatingAllocator {
                physical_device,
            },
            Stage::CreatingAllocator { .. } => if 0 < planned {
                Stage::Allocating { index: 0 }
            } else {
                Stage::Finished
            },
            Stage::Allocating { index } => if index + 1 < planned {
                Stage::Allocating { index: (index + 1) as usize }
            } else {
                Stage::Finished
            },
            Stage::Finished => Stage::Finished,
            Stage::Failed(e) => Stage::Failed(e),
        }
    }

    /// Whether the stage can occur while `planned` buffers are planned: a
    /// buffer that is being allocated is one of the plan.
    pub open spec fn within(self, planned: nat) -> bool {
        self matches Stage::Allocating { index } ==> index < planned
    }

    /// Whether `next` is the stage that a list of devices leads to: the
    /// creation of a logical device on the first device that has a
    /// compute-capable queue family, with the lowest such family, or
    /// failure when there is none.
    pub open spec fn chosen_from(devices: Seq<Seq<u32>>, next: Stage) -> bool {
        if any_compute_device(devices) {
            next matches Stage::CreatingDevice { physical_device, queue_family_index }
                && is_first_match(devices, physical_device as int, queue_family_index as int)
        } else {
            next == Stage::Failed(BootstrapError::NoSuitableDevice)
        }
    }

    /// Whether `next` is the stage that `event` leads to from this stage.
    ///
    /// An ended bring-up stays as it ended. A failure ends the bring-up
    /// with the failure of the stage it struck. A list of devices is
    /// awaited only while devices are listed, and nothing else is awaited
    /// then; anything out of turn ends the bring-up.
    pub open spec fn steps_to(self, planned: nat, event: Event, next: Stage) -> bool {
        if self.is_terminal() {
            next == self
        } else {
            match event {
                Event::Failed => next == Stage::Failed(self.failure()),
                Event::Completed => next == self.successor(planned),
                Event::Devices(devices) => if self is EnumeratingDevices {
                    Stage::chosen_from(family_masks(devices@), next)
                } else {
                    next == Stage::Failed(BootstrapError::UnexpectedEvent)
                },
            }
        }
    }
}

impl Action {
    /// Whether this is the action that `stage` awaits, for a debug build
    /// (`debug`) or a release build, while buffers of these sizes are
    /// planned.
    pub open spec fn serves(self, debug: bool, sizes: Seq<u64>, stage: Stage) -> bool {
        match stage {
            Stage::LoadingEntry => self is LoadEntry,
            Stage::CreatingInstance => self matches Action::CreateInstance(request)
                && request.is_for(debug),
            Stage::EnumeratingDevices => self is EnumerateDevices,
            Stage::CreatingDevice { physical_device, queue_family_index } => {
                self matches Action::CreateDevice(request)
                    && request.is_for(debug, physical_device, queue_family_index)
            },
            Stage::CreatingAllocator { physical_device } => {
                self matches Action::CreateAllocator { physical_device: p }
                    && p == physical_device
            },
            Stage::Allocating { index } => {
                self matches Action::AllocateBuffer(request)
                    && request.is_workload_buffer()
                    && index < sizes.len()
                    && request.size == sizes[index as int]
            },
            Stage::Finished => self is Finish,
            Stage::Failed(e) => self matches Action::Abort(f) && f == e,
        }
    }
}

/// The bring-up of one process: its build configuration, the number of
/// command-line tokens it was started with, and the stage it has reached.
#[derive(Clone, Copy, Debug)]
pub struct Bootstrap {
    debug: bool,
    arg_count: usize,
    stage: Stage,
}

/// What a `Bootstrap` stands for.
pub ghost struct BootstrapView {
    /// Whether the build is a debug build.
    pub debug: bool,
    /// The number of command-line tokens, the program's name included.
    pub arg_count: usize,
    /// The stage that was reached.
    pub stage: Stage,
}

impl BootstrapView {
    /// The buffer sizes that this process plans to allocate, in order.
    pub open spec fn sizes(self) -> Seq<u64> {
        planned_sizes(self.arg_count)
    }
}

impl View for Bootstrap {
    type V = BootstrapView;

    closed spec fn view(&self) -> BootstrapView {
        BootstrapView { debug: self.debug, arg_count: self.arg_count, stage: self.stage }
    }
}

impl Bootstrap {
    #[verifier::type_invariant]
    closed spec fn stage_within_plan(&self) -> bool {
        self.stage.within(planned_sizes(self.arg_count).len())
    }

    /// Begins the bring-up of a process that is a debug build or not and
    /// was started with `arg_count` command-line tokens, its own name
    /// included. The first thing to do is to open the loader.
    pub fn start(debug: bool, arg_count: usize) -> (r: (Bootstrap, Action))
        ensures
            r.0@ == (BootstrapView { debug, arg_count, stage: Stage::LoadingEntry }),
            r.1 is LoadEntry,
    {
        (Bootstrap { debug, arg_count, stage: Stage::LoadingEntry }, Action::LoadEntry)
    }

    /// The stage that was reached.
    pub fn stage(&self) -> (stage: Stage)
        ensures
            stage == self@.stage,
            stage.within(self@.sizes().len()),
    {
        proof {
            use_type_invariant(self);
        }
        self.stage
    }

    /// Whether the bring-up has ended, well or badly.
    pub fn is_terminal(&self) -> (ended: bool)
        ensures
            ended == self@.stage.is_terminal(),
    {
        match self.stage {
            Stage::Finished => true,
            Stage::Failed(_) => true,
            _ => false,
        }
    }

    /// The action that the reached stage awaits.
    pub fn pending(&self) -> (action: Action)
        ensures
            action.serves(self@.debug, self@.sizes(), self@.stage),
    {
        proof {
            use_type_invariant(self);
        }
        match self.stage {
            Stage::LoadingEntry => Action::LoadEntry,
            Stage::CreatingInstance => Action::CreateInstance(instance_request(self.debug)),
            Stage::EnumeratingDevices => Action::EnumerateDevices,
            Stage::CreatingDevice { physical_device, queue_family_index } => Action::CreateDevice(
                device_request(self.debug, physical_device, queue_family_index),
            ),
            Stage::CreatingAllocator { physical_device } => Action::CreateAllocator {
                physical_device,
            },
            Stage::Allocating { index } => {
                let sizes = allocation_sizes(self.arg_count);
                Action::AllocateBuffer(buffer_request(sizes[index]))
            },
            Stage::Finished => Action::Finish,
            Stage::Failed(e) => Action::Abort(e),
        }
    }

    /// Takes in what came of the pending action and moves on: returns the
    /// bring-up at its next stage, and the action which that stage awaits.
    pub fn advance(self, event: Event) -> (r: (Bootstrap, Action))
        ensures
            r.0@.debug == self@.debug,
            r.0@.arg_count == self@.arg_count,
            self@.stage.steps_to(self@.sizes().len(), event, r.0@.stage),
            r.1.serves(self@.debug, self@.sizes(), r.0@.stage),
    {
        proof {
            use_type_invariant(&self);
        }
        let stage: Stage = match self.stage {
            Stage::Finished => Stage::Finished,
            Stage::Failed(e) => Stage::Failed(e),
            current => match event {
                Event::Failed => Stage::Failed(stage_failure(current)),
                Event::Completed => {
                    let sizes = allocation_sizes(self.arg_count);
                    stage_successor(current, sizes.len())
                },
                Event::Devices(devices) => match current {
                    Stage::EnumeratingDevices => match select_device(&devices) {
                        Ok((queue_family_index, physical_device)) => Stage::CreatingDevice {
                            physical_device,
                            queue_family_index,
                        },
                        Err(e) => Stage::Failed(e),
                    },
                    _ => Stage::Failed(BootstrapError::UnexpectedEvent),
                },
            },
        };
        let next = Bootstrap { debug: self.debug, arg_count: self.arg_count, stage };
        let action = next.pending();
        (next, action)
    }
}

/// The failure that is reported when the action awaited at `stage` fails.
pub fn stage_failure(stage: Stage) -> (e: BootstrapError)
    ensures
        e == stage.failure(),
{
    match stage {
        Stage::LoadingEntry => BootstrapError::Loader,
        Stage::CreatingInstance => BootstrapError::InstanceCreation,
        Stage::EnumeratingDevices => BootstrapError::DeviceEnumeration,
        Stage::CreatingDevice { .. } => BootstrapError::DeviceCreation,
        Stage::CreatingAllocator { .. } => BootstrapError::AllocatorCreation,
        Stage::Allocating { .. } => BootstrapError::Allocation,
        Stage::Finished => BootstrapError::UnexpectedEvent,
        Stage::Failed(e) => e,
    }
}

/// The stage that follows when the action awaited at `stage` succeeds with
/// nothing to report, while `planned` buffers are planned.
pub fn stage_successor(stage: Stage, planned: usize) -> (next: Stage)
    requires
        stage.within(planned as nat),
    ensures
        next == stage.successor(planned as nat),
        next.within(planned as nat),
{
    match stage {
        Stage::LoadingEntry => Stage::CreatingInstance,
        Stage::CreatingInstance => Stage::EnumeratingDevices,
        Stage::EnumeratingDevices => Stage::Failed(BootstrapError::UnexpectedEvent),
        Stage::CreatingDevice { physical_device, .. } => Stage::CreatingAllocator {
            physical_device,
        },
        Stage::CreatingAllocator { .. } => if 0 < planned {
            Stage::Allocating { index: 0 }
        } else {
            Stage::Finished
        },
        Stage::Allocating { index } => if index + 1 < planned {
            Stage::Allocating { index: index + 1 }
        } else {
            Stage::Finished
        },
        Stage::Finished => Stage::Finished,
        Stage::Failed(e) => Stage::Failed(e),
    }
}

/// The stage reached from `stage` after `count` actions in a row have
/// succeeded with nothing to report, while `planned` buffers are planned.
pub open spec fn after_completions(stage: Stage, planned: nat, count: nat) -> Stage
    decreases count,
{
    if count == 0 {
        stage
    } else {
        after_completions(stage, planned, (count - 1) as nat).successor(planned)
    }
}

/// How far along the chain a stage is: each link counts one, each buffer
/// of the plan counts one, and both ends of the bring-up lie beyond every
/// buffer.
pub open spec fn progress(stage: Stage, planned: nat) -> nat {
    match stage {
        Stage::LoadingEntry => 0,
        Stage::CreatingInstance => 1,
        Stage::EnumeratingDevices => 2,
        Stage::CreatingDevice { .. } => 3,
        Stage::CreatingAllocator { .. } => 4,
        Stage::Allocating { index } => 5 + index as nat,
        Stage::Finished => 5 + planned,
        Stage::Failed(_) => 5 + planned,
    }
}

/// One event leads to one stage: two stages that the same event leads to
/// from the same stage are the same.
pub proof fn lemma_step_deterministic(
    stage: Stage,
    planned: nat,
    event: Event,
    first: Stage,
    second: Stage,
)
    requires
        stage.steps_to(planned, event, first),
        stage.steps_to(planned, event, second),
    ensures
        first == second,
{
    if !stage.is_terminal() && stage is EnumeratingDevices {
        if let Event::Devices(devices) = event {
            let masks = family_masks(devices@);
            if any_compute_device(masks) {
                match (first, second) {
                    (
                        Stage::CreatingDevice { physical_device: d1, queue_family_index: f1 },
                        Stage::CreatingDevice { physical_device: d2, queue_family_index: f2 },
                    ) => {
                        lemma_first_match_unique(masks, d1 as int, f1 as int, d2 as int, f2 as int);
                    },
                    _ => {},
                }
            }
        }
    }
}

/// The bring-up never goes back: from a stage that has not ended and lies
/// within the plan, every event leads to a stage further along the chain,
/// one that again lies within the plan.
pub proof fn lemma_step_moves_forward(stage: Stage, planned: nat, event: Event, next: Stage)
    requires
        planned <= usize::MAX,
        !stage.is_terminal(),
        stage.within(planned),
        stage.steps_to(planned, event, next),
    ensures
        progress(stage, planned) < progress(next, planned),
        next.within(planned),
{
}

/// A failure ends the bring-up at once, whatever the stage, with the
/// failure of that stage; and an ended bring-up stays as it ended,
/// whatever comes.
pub proof fn lemma_failure_is_final(
    stage: Stage,
    planned: nat,
    event: Event,
    next: Stage,
    last: Stage,
)
    requires
        !stage.is_terminal(),
        stage.steps_to(planned, Event::Failed, next),
        next.steps_to(planned, event, last),
    ensures
        next == Stage::Failed(stage.failure()),
        last == next,
{
}

/// Once the allocator stands, the buffers are allocated one after the
/// other in the order of the plan, each exactly once: after the allocator
/// and `count` buffers have succeeded, the buffer at position `count` is
/// being allocated if the plan has one there, and the bring-up has
/// finished if not.
pub proof fn lemma_allocations_follow_plan(physical_device: usize, planned: nat, count: nat)
    requires
        planned <= usize::MAX,
    ensures
        after_completions(Stage::CreatingAllocator { physical_device }, planned, count + 1) == (
        if count < planned {
            Stage::Allocating { index: count as usize }
        } else {
            Stage::Finished
        }),
    decreases count,
{
    reveal_with_fuel(after_completions, 2);
    if count > 0 {
        lemma_allocations_follow_plan(physical_device, planned, (count - 1) as nat);
    }
}

/// A process started with no argument beyond its own name allocates
/// exactly one buffer, of twice the workload's size; a process started
/// with at least one argument allocates exactly two, each of the
/// workload's size. The requests are handed out in this order, and after
/// the last of them the bring-up has finished.
pub proof fn lemma_allocations_by_arguments(
    debug: bool,
    arg_count: usize,
    physical_device: usize,
    action: Action,
    index: usize,
)
    requires
        action.serves(debug, planned_sizes(arg_count), Stage::Allocating { index }),
    ensures
        arg_count <= 1 ==> index == 0 && action->AllocateBuffer_0.size == 2 * workload_bytes()
            && after_completions(Stage::CreatingAllocator { physical_device }, 1, 2)
            == Stage::Finished,
        arg_count > 1 ==> index <= 1 && action->AllocateBuffer_0.size == workload_bytes()
            && after_completions(Stage::CreatingAllocator { physical_device }, 2, 3)
            == Stage::Finished,
        planned_sizes(arg_count).len() == if arg_count > 1 { 2nat } else { 1nat },
{
    lemma_allocations_follow_plan(physical_device, 1, 1);
    lemma_allocations_follow_plan(physical_device, 2, 2);
}

} // verus!
