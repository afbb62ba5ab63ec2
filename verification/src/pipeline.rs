//! The stages of a pipeline over one pair of buffers, the queues they use,
//! and the events they wait for.
//!
//! An iteration of the pipeline fills the source buffer with junk, writes
//! the start value, reads it back to verify the write, runs the kernel that
//! adds to it, and reads the sum back to verify it. Iterations overlap: the
//! next one begins before the last one has ended. What keeps that in order
//! is the events that each stage waits for, and what keeps it from locking
//! up is that every command is handed to the common queue, while the release
//! of host memory, whose event later commands wait for, goes to a queue set
//! aside for it.

use crate::error::{Error, ErrorView};
use crate::event::{into_raw_list, present, Event, EventList};
use crate::handle::CommandQueue;
use vstd::prelude::*;

verus! {

/// A stage of the pipeline.
#[derive(Clone, Copy, Debug, PartialEq, Eq, Structural)]
pub enum Stage {
    FillJunk,
    WriteInit,
    VerifyInit,
    KernelAdd,
    VerifyAdd,
}

/// What a queue is used for: everything, or the one thing it is set aside
/// for, the release that ends the given stage.
#[derive(Clone, Copy, Debug, PartialEq, Eq, Structural)]
pub enum QueueRole {
    Shared,
    Dedicated(Stage),
}

impl Stage {
    /// The place of the stage within an iteration.
    pub open spec fn spec_index(self) -> nat {
        match self {
            Stage::FillJunk => 0,
            Stage::WriteInit => 1,
            Stage::VerifyInit => 2,
            Stage::KernelAdd => 3,
            Stage::VerifyAdd => 4,
        }
    }

    /// The stage at a place within an iteration.
    pub open spec fn spec_from_index(index: nat) -> Stage {
        if index == 0 {
            Stage::FillJunk
        } else if index == 1 {
            Stage::WriteInit
        } else if index == 2 {
            Stage::VerifyInit
        } else if index == 3 {
            Stage::KernelAdd
        } else {
            Stage::VerifyAdd
        }
    }

    /// Whether the stage works on host memory that has to be released
    /// before later stages go on: the stages that write from it or read
    /// into it.
    pub open spec fn spec_releases(self) -> bool {
        match self {
            Stage::WriteInit | Stage::VerifyInit | Stage::VerifyAdd => true,
            Stage::FillJunk | Stage::KernelAdd => false,
        }
    }

    /// The role of the queue that the stage's command is handed to.
    pub open spec fn spec_command_role(self) -> QueueRole {
        QueueRole::Shared
    }

    /// The role of the queue that the stage's release is handed to, if the
    /// stage has one.
    pub open spec fn spec_release_role(self) -> Option<QueueRole> {
        if self.spec_releases() {
            Some(QueueRole::Dedicated(self))
        } else {
            None
        }
    }

    /// The place of the stage within an iteration.
    pub fn index(&self) -> (r: u64)
        ensures
            r == self.spec_index(),
            r < 5,
    {
        match self {
            Stage::FillJunk => 0,
            Stage::WriteInit => 1,
            Stage::VerifyInit => 2,
            Stage::KernelAdd => 3,
            Stage::VerifyAdd => 4,
        }
    }

    /// The stage at a place within an iteration; `None` past the last.
    pub fn from_index(index: u64) -> (r: Option<Stage>)
        ensures
            r == if index < 5 {
                Some(Stage::spec_from_index(index as nat))
            } else {
                None
            },
            r matches Some(stage) ==> stage.spec_index() == index,
    {
        match index {
            0 => Some(Stage::FillJunk),
            1 => Some(Stage::WriteInit),
            2 => Some(Stage::VerifyInit),
            3 => Some(Stage::KernelAdd),
            4 => Some(Stage::VerifyAdd),
            _ => None,
        }
    }

    /// The role of the queue that the stage's command is handed to: always
    /// the shared one.
    pub fn command_role(&self) -> (r: QueueRole)
        ensures
            r == self.spec_command_role(),
    {
        QueueRole::Shared
    }

    /// The role of the queue that the stage's release is handed to, if the
    /// stage has one: a queue set aside for this stage, never the shared
    /// one.
    pub fn release_role(&self) -> (r: Option<QueueRole>)
        ensures
            r == self.spec_release_role(),
            r != Some(self.spec_command_role()),
    {
        match self {
            Stage::WriteInit | Stage::VerifyInit | Stage::VerifyAdd => Some(
                QueueRole::Dedicated(*self),
            ),
            Stage::FillJunk | Stage::KernelAdd => None,
        }
    }
}

/// The queues of a pipeline: the common one, and one for the release of each
/// stage that has a release.
#[derive(Clone, Copy, Debug, PartialEq, Eq, Structural)]
pub struct QueueSet {
    common: CommandQueue,
    write_init_unmap: CommandQueue,
    verify_init: CommandQueue,
    verify_add_unmap: CommandQueue,
}

impl QueueSet {
    /// Whether four queues can serve a pipeline: each is a queue of the
    /// device, and no two are the same queue.
    pub open spec fn spec_distinct(
        common: CommandQueue,
        write_init_unmap: CommandQueue,
        verify_init: CommandQueue,
        verify_add_unmap: CommandQueue,
    ) -> bool {
        &&& common.ptr != 0 && write_init_unmap.ptr != 0 && verify_init.ptr != 0
            && verify_add_unmap.ptr != 0
        &&& common.ptr != write_init_unmap.ptr
        &&& common.ptr != verify_init.ptr
        &&& common.ptr != verify_add_unmap.ptr
        &&& write_init_unmap.ptr != verify_init.ptr
        &&& write_init_unmap.ptr != verify_add_unmap.ptr
        &&& verify_init.ptr != verify_add_unmap.ptr
    }

    #[verifier::type_invariant]
    closed spec fn inv(self) -> bool {
        QueueSet::spec_distinct(
            self.common,
            self.write_init_unmap,
            self.verify_init,
            self.verify_add_unmap,
        )
    }

    /// The queue that serves in a role, if the set has one for it.
    pub closed spec fn spec_queue_for(self, role: QueueRole) -> Option<CommandQueue> {
        match role {
            QueueRole::Shared => Some(self.common),
            QueueRole::Dedicated(Stage::WriteInit) => Some(self.write_init_unmap),
            QueueRole::Dedicated(Stage::VerifyInit) => Some(self.verify_init),
            QueueRole::Dedicated(Stage::VerifyAdd) => Some(self.verify_add_unmap),
            QueueRole::Dedicated(_) => None,
        }
    }

    /// The queues of a pipeline. Fails with `InvalidHandle` unless each is a
    /// queue of the device and no two are the same queue.
    pub fn new(
        common: CommandQueue,
        write_init_unmap: CommandQueue,
        verify_init: CommandQueue,
        verify_add_unmap: CommandQueue,
    ) -> (r: Result<QueueSet, Error>)
        ensures
            match r {
                Ok(set) => {
                    &&& QueueSet::spec_distinct(
                        common,
                        write_init_unmap,
                        verify_init,
                        verify_add_unmap,
                    )
                    &&& set.spec_queue_for(QueueRole::Shared) == Some(common)
                    &&& set.spec_queue_for(QueueRole::Dedicated(Stage::WriteInit)) == Some(
                        write_init_unmap,
                    )
                    &&& set.spec_queue_for(QueueRole::Dedicated(Stage::VerifyInit)) == Some(
                        verify_init,
                    )
                    &&& set.spec_queue_for(QueueRole::Dedicated(Stage::VerifyAdd)) == Some(
                        verify_add_unmap,
                    )
                    &&& set.spec_queue_for(QueueRole::Dedicated(Stage::FillJunk)) is None
                    &&& set.spec_queue_for(QueueRole::Dedicated(Stage::KernelAdd)) is None
                },
                Err(e) => e@ == ErrorView::InvalidHandle && !QueueSet::spec_distinct(
                    common,
                    write_init_unmap,
                    verify_init,
                    verify_add_unmap,
                ),
            },
    {
        let valid = common.ptr != 0 && write_init_unmap.ptr != 0 && verify_init.ptr != 0
            && verify_add_unmap.ptr != 0;
        let distinct = common.ptr != write_init_unmap.ptr && common.ptr != verify_init.ptr
            && common.ptr != verify_add_unmap.ptr && write_init_unmap.ptr != verify_init.ptr
            && write_init_unmap.ptr != verify_add_unmap.ptr && verify_init.ptr
            != verify_add_unmap.ptr;
        if valid && distinct {
            Ok(QueueSet { common, write_init_unmap, verify_init, verify_add_unmap })
        } else {
            Err(Error::InvalidHandle)
        }
    }

    /// The queue that serves in a role, if the set has one for it.
    pub fn queue_for(&self, role: QueueRole) -> (r: Option<CommandQueue>)
        ensures
            r == self.spec_queue_for(role),
    {
        match role {
            QueueRole::Shared => Some(self.common),
            QueueRole::Dedicated(Stage::WriteInit) => Some(self.write_init_unmap),
            QueueRole::Dedicated(Stage::VerifyInit) => Some(self.verify_init),
            QueueRole::Dedicated(Stage::VerifyAdd) => Some(self.verify_add_unmap),
            QueueRole::Dedicated(_) => None,
        }
    }

    /// The queue for the command of a stage, and the queue for its release,
    /// if the stage has one. The two are never the same queue: a release is
    /// not handed to the queue whose commands wait for it.
    pub fn queues_of(&self, stage: Stage) -> (r: (CommandQueue, Option<CommandQueue>))
        ensures
            Some(r.0) == self.spec_queue_for(stage.spec_command_role()),
            r.1 == match stage.spec_release_role() {
                Some(role) => self.spec_queue_for(role),
                None => None,
            },
            r.1 is Some <==> stage.spec_releases(),
            r.1 matches Some(release) ==> release.ptr != r.0.ptr && release.ptr != 0,
    {
        proof {
            use_type_invariant(self);
        }
        let release = match stage.release_role() {
            Some(role) => self.queue_for(role),
            None => None,
        };
        (self.common, release)
    }
}

/// The last event of each stage, as far as the stage has run.
#[derive(Clone, Copy, Debug, PartialEq, Eq, Structural)]
pub struct PipelineEvents {
    pub fill: Option<Event>,
    pub write_init: Option<Event>,
    pub verify_init: Option<Event>,
    pub kernel: Option<Event>,
    pub verify_add: Option<Event>,
}

impl PipelineEvents {
    /// The events that a stage waits for, present or not, in the order in
    /// which they are listed: an event of the iteration before, then an
    /// event of this iteration.
    pub open spec fn spec_waits_for(self, stage: Stage) -> Seq<Option<Event>> {
        match stage {
            Stage::FillJunk => seq![self.write_init, self.kernel],
            Stage::WriteInit => seq![self.verify_init, self.fill],
            Stage::VerifyInit => seq![self.verify_init, self.write_init],
            Stage::KernelAdd => seq![self.verify_add, self.write_init],
            Stage::VerifyAdd => seq![self.kernel],
        }
    }

    /// The record after `stage` has been handed in and signals `event`.
    pub open spec fn spec_record(self, stage: Stage, event: Event) -> PipelineEvents {
        match stage {
            Stage::FillJunk => PipelineEvents { fill: Some(event), ..self },
            Stage::WriteInit => PipelineEvents { write_init: Some(event), ..self },
            Stage::VerifyInit => PipelineEvents { verify_init: Some(event), ..self },
            Stage::KernelAdd => PipelineEvents { kernel: Some(event), ..self },
            Stage::VerifyAdd => PipelineEvents { verify_add: Some(event), ..self },
        }
    }

    /// The record of a pipeline of which no stage has run.
    pub fn new() -> (r: PipelineEvents)
        ensures
            r == (PipelineEvents {
                fill: None,
                write_init: None,
                verify_init: None,
                kernel: None,
                verify_add: None,
            }),
    {
        PipelineEvents {
            fill: None,
            write_init: None,
            verify_init: None,
            kernel: None,
            verify_add: None,
        }
    }

    /// The list of the events that `stage` has to wait for: those of
    /// [`PipelineEvents::spec_waits_for`] that are there.
    pub fn wait_list_for(&self, stage: Stage) -> (list: EventList)
        ensures
            list@ == present(self.spec_waits_for(stage)),
    {
        let mut events: Vec<Option<Event>> = Vec::new();
        match stage {
            Stage::FillJunk => {
                events.push(self.write_init);
                events.push(self.kernel);
            },
            Stage::WriteInit => {
                events.push(self.verify_init);
                events.push(self.fill);
            },
            Stage::VerifyInit => {
                events.push(self.verify_init);
                events.push(self.write_init);
            },
            Stage::KernelAdd => {
                events.push(self.verify_add);
                events.push(self.write_init);
            },
            Stage::VerifyAdd => {
                events.push(self.kernel);
            },
        }
        assert(events@ =~= self.spec_waits_for(stage));
        into_raw_list(events.as_slice())
    }

    /// Records the event that signals the end of `stage`: the event of its
    /// command, or, for a stage with a release, its release event.
    pub fn record(&mut self, stage: Stage, event: Event)
        ensures
            *final(self) == old(self).spec_record(stage, event),
    {
        match stage {
            Stage::FillJunk => {
                self.fill = Some(event);
            },
            Stage::WriteInit => {
                self.write_init = Some(event);
            },
            Stage::VerifyInit => {
                self.verify_init = Some(event);
            },
            Stage::KernelAdd => {
                self.kernel = Some(event);
            },
            Stage::VerifyAdd => {
                self.verify_add = Some(event);
            },
        }
    }
}

/// The number of stages of an iteration.
pub const STAGES: u64 = 5;

/// A command of the plan of a pipeline.
#[derive(Clone, Debug, PartialEq, Eq)]
pub struct PlannedCommand {
    /// The place of the command in the order of handing in.
    pub index: u64,
    pub iteration: u32,
    pub stage: Stage,
    /// The role of the queue that the command is handed to.
    pub queue: QueueRole,
    /// The role of the queue that the release is handed to, if there is one.
    pub release_queue: Option<QueueRole>,
    /// The places of the commands whose end this command waits for.
    pub waits: Vec<u64>,
}

/// The place of a stage of an iteration in the order of handing in.
pub open spec fn spec_command_index(iteration: nat, stage: Stage) -> nat {
    5 * iteration + stage.spec_index()
}

/// The places of the commands that a stage of an iteration waits for: what
/// [`PipelineEvents::spec_waits_for`] lists, where the first iteration has
/// no iteration before it to wait for.
pub open spec fn spec_plan_waits(iteration: nat, stage: Stage) -> Seq<u64> {
    let before = (iteration - 1) as nat;
    match stage {
        Stage::FillJunk => if iteration == 0 {
            Seq::empty()
        } else {
            seq![
                spec_command_index(before, Stage::WriteInit) as u64,
                spec_command_index(before, Stage::KernelAdd) as u64,
            ]
        },
        Stage::WriteInit => if iteration == 0 {
            seq![spec_command_index(iteration, Stage::FillJunk) as u64]
        } else {
            seq![
                spec_command_index(before, Stage::VerifyInit) as u64,
                spec_command_index(iteration, Stage::FillJunk) as u64,
            ]
        },
        Stage::VerifyInit => if iteration == 0 {
            seq![spec_command_index(iteration, Stage::WriteInit) as u64]
        } else {
            seq![
                spec_command_index(before, Stage::VerifyInit) as u64,
                spec_command_index(iteration, Stage::WriteInit) as u64,
            ]
        },
        Stage::KernelAdd => if iteration == 0 {
            seq![spec_command_index(iteration, Stage::WriteInit) as u64]
        } else {
            seq![
                spec_command_index(before, Stage::VerifyAdd) as u64,
                spec_command_index(iteration, Stage::WriteInit) as u64,
            ]
        },
        Stage::VerifyAdd => seq![spec_command_index(iteration, Stage::KernelAdd) as u64],
    }
}

/// Whether `command` is the command of the plan at place `k`.
pub open spec fn spec_planned(command: PlannedCommand, k: nat) -> bool {
    &&& command.index == k
    &&& command.iteration == k / 5
    &&& command.stage == Stage::spec_from_index(k % 5)
    &&& command.queue == command.stage.spec_command_role()
    &&& command.release_queue == command.stage.spec_release_role()
    &&& command.waits@ == spec_plan_waits(k / 5, command.stage)
}

/// The places of the commands that a stage of an iteration waits for.
pub fn plan_waits(iteration: u32, stage: Stage) -> (waits: Vec<u64>)
    ensures
        waits@ == spec_plan_waits(iteration as nat, stage),
{
    let base: u64 = 5 * (iteration as u64);
    let mut waits: Vec<u64> = Vec::new();
    match stage {
        Stage::FillJunk => {
            if iteration > 0 {
                waits.push(base - 5 + 1);
                waits.push(base - 5 + 3);
            }
        },
        Stage::WriteInit => {
            if iteration > 0 {
                waits.push(base - 5 + 2);
            }
            waits.push(base);
        },
        Stage::VerifyInit => {
            if iteration > 0 {
                waits.push(base - 5 + 2);
            }
            waits.push(base + 1);
        },
        Stage::KernelAdd => {
            if iteration > 0 {
                waits.push(base - 5 + 4);
            }
            waits.push(base + 1);
        },
        Stage::VerifyAdd => {
            waits.push(base + 3);
        },
    }
    assert(waits@ =~= spec_plan_waits(iteration as nat, stage));
    waits
}

/// The plan of a pipeline of so many iterations: its commands in the order
/// in which they are handed in, five to an iteration, each with the queues
/// it uses and the commands it waits for.
pub fn plan(iterations: u32) -> (commands: Vec<PlannedCommand>)
    ensures
        commands@.len() == 5 * iterations,
        forall|k: int| 0 <= k < commands@.len() ==> spec_planned(#[trigger] commands@[k], k as nat),
        spec_plan_sound(commands@),
{
    let mut commands: Vec<PlannedCommand> = Vec::new();
    let mut iteration: u32 = 0;
    while iteration < iterations
        invariant
            iteration <= iterations,
            commands@.len() == 5 * iteration,
            forall|k: int|
                0 <= k < commands@.len() ==> spec_planned(#[trigger] commands@[k], k as nat),
        decreases iterations - iteration,
    {
        let mut place: u64 = 0;
        while place < 5
            invariant
                place <= 5,
                iteration < iterations,
                commands@.len() == 5 * iteration + place,
                forall|k: int|
                    0 <= k < commands@.len() ==> spec_planned(#[trigger] commands@[k], k as nat),
            decreases 5 - place,
        {
            let stage = match Stage::from_index(place) {
                Some(stage) => stage,
                None => Stage::VerifyAdd,
            };
            let index: u64 = 5 * (iteration as u64) + place;
            let command = PlannedCommand {
                index,
                iteration,
                stage,
                queue: stage.command_role(),
                release_queue: stage.release_role(),
                waits: plan_waits(iteration, stage),
            };
            assert(index / 5 == iteration && index % 5 == place);
            assert(spec_planned(command, index as nat));
            let ghost before = commands@;
            commands.push(command);
            assert forall|k: int| 0 <= k < commands@.len() implies spec_planned(
                #[trigger] commands@[k],
                k as nat,
            ) by {
                if k < before.len() {
                    assert(commands@[k] == before[k]);
                }
            }
            place += 1;
        }
        iteration += 1;
    }
    proof {
        lemma_plan_is_sound(commands@);
    }
    commands
}

/// Whether a command at place `k` of a plan keeps the rules that rule out a
/// deadlock: it is numbered by its place; it waits only for commands that are
/// handed in before it; and its release, if it has one, is not handed to the
/// queue of the command itself.
pub open spec fn spec_command_sound(command: PlannedCommand, k: int) -> bool {
    &&& command.index == k
    &&& forall|i: int| 0 <= i < command.waits@.len() ==> #[trigger] command.waits@[i] < k
    &&& command.release_queue != Some(command.queue)
}

/// Whether every command of a plan keeps the rules of
/// [`spec_command_sound`].
pub open spec fn spec_plan_sound(commands: Seq<PlannedCommand>) -> bool {
    forall|k: int| 0 <= k < commands.len() ==> spec_command_sound(#[trigger] commands[k], k)
}

/// Checks a plan, of this pipeline or of any other, against the rules that
/// rule out a deadlock: see [`spec_command_sound`].
pub fn plan_is_sound(commands: &Vec<PlannedCommand>) -> (sound: bool)
    ensures
        sound == spec_plan_sound(commands@),
{
    let mut k: usize = 0;
    while k < commands.len()
        invariant
            k <= commands@.len(),
            forall|j: int| 0 <= j < k ==> spec_command_sound(#[trigger] commands@[j], j),
        decreases commands@.len() - k,
    {
        let command = &commands[k];
        if command.index != k as u64 {
            assert(!spec_command_sound(commands@[k as int], k as int));
            return false;
        }
        let released_on_own_queue = match command.release_queue {
            Some(role) => role == command.queue,
            None => false,
        };
        if released_on_own_queue {
            assert(!spec_command_sound(commands@[k as int], k as int));
            return false;
        }
        let mut i: usize = 0;
        while i < command.waits.len()
            invariant
                i <= command.waits@.len(),
                k < commands@.len(),
                *command == commands@[k as int],
                forall|j: int| 0 <= j < i ==> #[trigger] command.waits@[j] < k,
            decreases command.waits@.len() - i,
        {
            if command.waits[i] >= k as u64 {
                assert(!spec_command_sound(commands@[k as int], k as int));
                return false;
            }
            i += 1;
        }
        assert(spec_command_sound(commands@[k as int], k as int));
        k += 1;
    }
    true
}

/// The plan of this pipeline keeps the rules that rule out a deadlock,
/// whatever the number of its iterations.
pub proof fn lemma_plan_is_sound(commands: Seq<PlannedCommand>)
    requires
        commands.len() <= 5 * u32::MAX,
        forall|k: int| 0 <= k < commands.len() ==> spec_planned(#[trigger] commands[k], k as nat),
    ensures
        spec_plan_sound(commands),
{
    assert forall|k: int| 0 <= k < commands.len() implies spec_command_sound(
        #[trigger] commands[k],
        k,
    ) by {
        let command = commands[k];
        assert(spec_planned(command, k as nat));
        let iteration = (k / 5) as nat;
        assert(spec_command_index(iteration, command.stage) == k);
        assert forall|i: int| 0 <= i < command.waits@.len() implies #[trigger] command.waits@[i]
            < k by {
            lemma_plan_waits_for_earlier(iteration, command.stage, i);
        }
    }
}

/// No command of a plan waits for itself or for a command that is handed in
/// after it: every command that it waits for has a smaller place. So the
/// waiting of a plan runs in no circle, however many iterations overlap.
pub proof fn lemma_plan_waits_for_earlier(iteration: nat, stage: Stage, i: int)
    requires
        iteration <= u32::MAX,
        0 <= i < spec_plan_waits(iteration, stage).len(),
    ensures
        spec_plan_waits(iteration, stage)[i] < spec_command_index(iteration, stage),
{
}

/// The commands of a plan all go to the shared queue, and every release
/// goes to a queue set aside for it. So no release is handed to the queue of
/// the command that it ends, nor to the queue of a command that waits for
/// it.
pub proof fn lemma_release_off_the_shared_queue(stage: Stage, consumer: Stage)
    ensures
        stage.spec_release_role() != Some(stage.spec_command_role()),
        stage.spec_release_role() != Some(consumer.spec_command_role()),
        stage.spec_release_role() matches Some(role) ==> role == QueueRole::Dedicated(stage),
{
}

/// The place of the first value that differs from `expected`, if one does.
pub open spec fn spec_first_mismatch(data: Seq<i32>, expected: i32) -> Option<int>
    decreases data.len(),
{
    if data.len() == 0 {
        None
    } else {
        match spec_first_mismatch(data.drop_last(), expected) {
            Some(i) => Some(i),
            None => if data.last() != expected {
                Some(data.len() - 1)
            } else {
                None
            },
        }
    }
}

/// A mismatch says where a value differs, and that no value before it does;
/// no mismatch says that every value is the expected one.
pub proof fn lemma_first_mismatch(data: Seq<i32>, expected: i32)
    ensures
        match spec_first_mismatch(data, expected) {
            Some(i) => 0 <= i < data.len() && data[i] != expected && forall|j: int|
                0 <= j < i ==> data[j] == expected,
            None => forall|j: int| 0 <= j < data.len() ==> data[j] == expected,
        },
    decreases data.len(),
{
    if data.len() > 0 {
        lemma_first_mismatch(data.drop_last(), expected);
        match spec_first_mismatch(data.drop_last(), expected) {
            Some(i) => {
                assert forall|j: int| 0 <= j < i implies data[j] == expected by {
                    assert(data.drop_last()[j] == expected);
                }
            },
            None => {
                assert forall|j: int| 0 <= j < data.len() - 1 implies data[j] == expected by {
                    assert(data.drop_last()[j] == expected);
                }
            },
        }
    }
}

/// Verifies values read back from the device: the number of values if each
/// is the expected one, else a `ResultMismatch` with the place of the first
/// that is not.
pub fn verify_values(data: &[i32], expected: i32) -> (r: Result<usize, Error>)
    ensures
        match r {
            Ok(count) => count == data@.len() && spec_first_mismatch(data@, expected) is None,
            Err(e) => spec_first_mismatch(data@, expected) matches Some(i) && e@
                == (ErrorView::ResultMismatch { index: i as usize }),
        },
{
    let mut i: usize = 0;
    while i < data.len()
        invariant
            i <= data@.len(),
            spec_first_mismatch(data@.take(i as int), expected) is None,
        decreases data@.len() - i,
    {
        proof {
            assert(data@.take(i + 1).drop_last() =~= data@.take(i as int));
            assert(data@.take(i + 1).last() == data@[i as int]);
        }
        if data[i] != expected {
            proof {
                assert(spec_first_mismatch(data@.take(i + 1), expected) == Some(i as int));
                lemma_first_mismatch_extends(data@, expected, i + 1);
            }
            return Err(Error::ResultMismatch { index: i });
        }
        i += 1;
    }
    assert(data@.take(i as int) =~= data@);
    Ok(i)
}

/// A mismatch found among the first `n` values is the first of the whole.
pub proof fn lemma_first_mismatch_extends(data: Seq<i32>, expected: i32, n: int)
    requires
        0 <= n <= data.len(),
        spec_first_mismatch(data.take(n), expected) is Some,
    ensures
        spec_first_mismatch(data, expected) == spec_first_mismatch(data.take(n), expected),
    decreases data.len() - n,
{
    if n < data.len() {
        assert(data.take(n + 1).drop_last() =~= data.take(n));
        lemma_first_mismatch_extends(data, expected, n + 1);
    } else {
        assert(data.take(n) =~= data);
    }
}

} // verus!
