//! The container-acquisition state machine.
//!
//! The orchestrator never performs engine I/O itself.  It hands the caller
//! one [`Command`] at a time; the caller executes it against the engine and
//! the progress sink and reports what happened as an [`Event`].  Each
//! [`Orchestrator::step`] consumes one event and yields the updates to emit
//! and the next command, until a terminal [`Command::Succeed`] or
//! [`Command::Fail`] is reached.
//!
//! The specification-level transition function [`next`] is the state machine
//! itself; the executable [`Orchestrator::step`] is proved to follow it.

use crate::naming::{derive_container_name, derived_name, slash_prefix, slash_prefixed};
use crate::progress::{
    completed_after, distinct_ids, emitted, seen_after, AggregatorModel, PullProgressAggregator,
};
use crate::records::{
    find_first_match, first_match, has_match, is_first_match, lemma_first_match_unique,
    names_carry, record_matches, AcquireError, AcquireErrorModel, ContainerRecord,
    ContainerRecordModel, ContainerState, ProgressUpdate, ProgressUpdateModel, PullEvent,
    PullEventModel,
};
use vstd::pervasive::unreached;
use vstd::prelude::*;
use vstd::string::*;

verus! {

/// Specification model of a [`PortBinding`].
#[verifier::ext_equal]
pub struct PortBindingModel {
    pub container_port: u16,
    pub host_ip: Seq<char>,
    pub host_port: u16,
}

/// How a container port is published on the host.
#[derive(Clone, Debug)]
pub struct PortBinding {
    pub container_port: u16,
    pub host_ip: String,
    pub host_port: u16,
}

impl View for PortBinding {
    type V = PortBindingModel;

    open spec fn view(&self) -> PortBindingModel {
        PortBindingModel {
            container_port: self.container_port,
            host_ip: self.host_ip@,
            host_port: self.host_port,
        }
    }
}

/// The fixed publication policy: container port `5000/tcp` is always bound
/// to host `0.0.0.0:5000`.
pub open spec fn fixed_binding() -> PortBindingModel {
    PortBindingModel { container_port: 5000, host_ip: "0.0.0.0"@, host_port: 5000 }
}

/// Specification model of a [`Phase`].
#[verifier::ext_equal]
pub enum PhaseModel {
    /// Waiting to hear whether the engine is reachable.
    EngineCheck,
    /// Waiting for the list of running containers.
    RunningList,
    /// Waiting for the list of all containers, stopped ones included.
    AllList,
    /// Removing stale containers; `remaining` are the ids still to remove.
    Cleanup { remaining: Seq<Seq<char>> },
    /// Consuming the image-pull stream.
    Pull,
    /// Waiting for the engine to create the container.
    Create,
    /// Waiting for the engine to start the container with this id.
    Start { id: Seq<char> },
    /// Finished, successfully or not; no further event is expected.
    Done,
}

/// Where the orchestrator stands between two events.
pub enum Phase {
    EngineCheck,
    RunningList,
    AllList,
    Cleanup { remaining: Vec<String> },
    Pull,
    Create,
    Start { id: String },
    Done,
}

impl View for Phase {
    type V = PhaseModel;

    open spec fn view(&self) -> PhaseModel {
        match self {
            Phase::EngineCheck => PhaseModel::EngineCheck,
            Phase::RunningList => PhaseModel::RunningList,
            Phase::AllList => PhaseModel::AllList,
            Phase::Cleanup { remaining } => PhaseModel::Cleanup {
                remaining: remaining.deep_view(),
            },
            Phase::Pull => PhaseModel::Pull,
            Phase::Create => PhaseModel::Create,
            Phase::Start { id } => PhaseModel::Start { id: id@ },
            Phase::Done => PhaseModel::Done,
        }
    }
}

/// Specification model of an [`Event`].
#[verifier::ext_equal]
pub enum EventModel {
    EngineOk,
    EngineDown { detail: Seq<char> },
    Containers { records: Seq<ContainerRecordModel> },
    ListFailed { detail: Seq<char> },
    Removed,
    RemoveFailed { detail: Seq<char> },
    PullProgress { event: PullEventModel },
    PullFinished,
    PullFailed { detail: Seq<char> },
    Created { id: Seq<char> },
    CreateFailed { detail: Seq<char> },
    Started,
    StartFailed { detail: Seq<char> },
    EmitFailed { detail: Seq<char> },
}

/// What the caller reports back after executing a command: the outcome of
/// the engine call, one pull-stream message, or a failed update delivery.
pub enum Event {
    /// The engine answered the liveness check.
    EngineOk,
    /// The engine cannot be reached.
    EngineDown { detail: String },
    /// A container listing, for either listing command.
    Containers { records: Vec<ContainerRecord> },
    /// The listing call failed.
    ListFailed { detail: String },
    /// The commanded removal went through.
    Removed,
    /// The commanded removal failed.
    RemoveFailed { detail: String },
    /// One message of the pull stream.
    PullProgress { event: PullEvent },
    /// The pull stream ended without error.
    PullFinished,
    /// The pull stream ended with an error.
    PullFailed { detail: String },
    /// The engine created the container and reported its id.
    Created { id: String },
    /// The engine rejected the creation.
    CreateFailed { detail: String },
    /// The commanded start went through.
    Started,
    /// The commanded start failed.
    StartFailed { detail: String },
    /// A progress update could not be delivered to the sink.
    EmitFailed { detail: String },
}

impl View for Event {
    type V = EventModel;

    open spec fn view(&self) -> EventModel {
        match self {
            Event::EngineOk => EventModel::EngineOk,
            Event::EngineDown { detail } => EventModel::EngineDown { detail: detail@ },
            Event::Containers { records } => EventModel::Containers {
                records: records.deep_view(),
            },
            Event::ListFailed { detail } => EventModel::ListFailed { detail: detail@ },
            Event::Removed => EventModel::Removed,
            Event::RemoveFailed { detail } => EventModel::RemoveFailed { detail: detail@ },
            Event::PullProgress { event } => EventModel::PullProgress { event: event@ },
            Event::PullFinished => EventModel::PullFinished,
            Event::PullFailed { detail } => EventModel::PullFailed { detail: detail@ },
            Event::Created { id } => EventModel::Created { id: id@ },
            Event::CreateFailed { detail } => EventModel::CreateFailed { detail: detail@ },
            Event::Started => EventModel::Started,
            Event::StartFailed { detail } => EventModel::StartFailed { detail: detail@ },
            Event::EmitFailed { detail } => EventModel::EmitFailed { detail: detail@ },
        }
    }
}

/// Specification model of a [`Command`].
#[verifier::ext_equal]
pub enum CommandModel {
    CheckEngine,
    ListRunning,
    ListAll,
    RemoveContainer { id: Seq<char> },
    PullImage { image: Seq<char> },
    AwaitPull,
    CreateContainer { name: Seq<char>, image: Seq<char>, binding: PortBindingModel },
    StartContainer { id: Seq<char> },
    Succeed { container_id: Seq<char> },
    Fail { error: AcquireErrorModel },
}

/// What the caller must do next.
pub enum Command {
    /// Ask the engine whether it is reachable.
    CheckEngine,
    /// List the running containers.
    ListRunning,
    /// List all containers, stopped ones included.
    ListAll,
    /// Force-remove the container with this id.
    RemoveContainer { id: String },
    /// Open the pull stream for this image and read its first message.
    PullImage { image: String },
    /// Read the next message of the open pull stream.
    AwaitPull,
    /// Create a container under this name, from this image, with this
    /// port binding and a TTY.
    CreateContainer { name: String, image: String, binding: PortBinding },
    /// Start the container with this id.
    StartContainer { id: String },
    /// Terminal: the acquisition succeeded with this container id.
    Succeed { container_id: String },
    /// Terminal: the acquisition failed.
    Fail { error: AcquireError },
}

impl View for Command {
    type V = CommandModel;

    open spec fn view(&self) -> CommandModel {
        match self {
            Command::CheckEngine => CommandModel::CheckEngine,
            Command::ListRunning => CommandModel::ListRunning,
            Command::ListAll => CommandModel::ListAll,
            Command::RemoveContainer { id } => CommandModel::RemoveContainer { id: id@ },
            Command::PullImage { image } => CommandModel::PullImage { image: image@ },
            Command::AwaitPull => CommandModel::AwaitPull,
            Command::CreateContainer { name, image, binding } => CommandModel::CreateContainer {
                name: name@,
                image: image@,
                binding: binding@,
            },
            Command::StartContainer { id } => CommandModel::StartContainer { id: id@ },
            Command::Succeed { container_id } => CommandModel::Succeed {
                container_id: container_id@,
            },
            Command::Fail { error } => CommandModel::Fail { error: error@ },
        }
    }
}

/// Specification model of the whole orchestrator.
#[verifier::ext_equal]
pub struct OrchestratorModel {
    pub image: Seq<char>,
    pub name: Seq<char>,
    pub phase: PhaseModel,
    pub agg: AggregatorModel,
}

/// What one step yields: the successor state, the progress updates to emit
/// in order, and the next command.
#[verifier::ext_equal]
pub struct StepModel {
    pub post: OrchestratorModel,
    pub updates: Seq<ProgressUpdateModel>,
    pub command: CommandModel,
}

/// The update announcing the initial container check.
pub open spec fn checking_update() -> ProgressUpdateModel {
    ProgressUpdateModel { message: "Checking existing containers..."@, percent_hundredths: 0 }
}

/// The update announcing reuse of an existing, stopped container.
pub open spec fn starting_existing_update() -> ProgressUpdateModel {
    ProgressUpdateModel { message: "Starting existing container..."@, percent_hundredths: 5000 }
}

/// The terminal update: the container is running and reachable.
pub open spec fn ready_update() -> ProgressUpdateModel {
    ProgressUpdateModel { message: "Container ready"@, percent_hundredths: 10000 }
}

/// The update announcing the search for stale containers.
pub open spec fn checking_old_update() -> ProgressUpdateModel {
    ProgressUpdateModel {
        message: "Checking for old containers to remove..."@,
        percent_hundredths: 1000,
    }
}

/// The update announcing one stale-container removal.
pub open spec fn removing_update() -> ProgressUpdateModel {
    ProgressUpdateModel { message: "Removing old container..."@, percent_hundredths: 2000 }
}

/// The update announcing the start of the image pull.
pub open spec fn pulling_start_update() -> ProgressUpdateModel {
    ProgressUpdateModel { message: "Pulling Docker image..."@, percent_hundredths: 3000 }
}

/// The update announcing container creation.
pub open spec fn creating_update() -> ProgressUpdateModel {
    ProgressUpdateModel { message: "Creating container..."@, percent_hundredths: 8500 }
}

/// The update announcing the container start.
pub open spec fn starting_update() -> ProgressUpdateModel {
    ProgressUpdateModel { message: "Starting container..."@, percent_hundredths: 9500 }
}

/// The ids of all records carrying the derived name, in listing order.
pub open spec fn matching_ids(rs: Seq<ContainerRecordModel>, name: Seq<char>) -> Seq<Seq<char>>
    decreases rs.len(),
{
    if rs.len() == 0 {
        Seq::empty()
    } else {
        let rest = matching_ids(rs.drop_last(), name);
        if record_matches(rs.last(), name) {
            rest.push(rs.last().id)
        } else {
            rest
        }
    }
}

/// Every id in [`matching_ids`] is the id of a record that carries the name.
pub proof fn lemma_matching_id_at(rs: Seq<ContainerRecordModel>, name: Seq<char>, k: int)
    requires
        0 <= k < matching_ids(rs, name).len(),
    ensures
        exists|j: int|
            0 <= j < rs.len() && record_matches(#[trigger] rs[j], name) && rs[j].id
                == matching_ids(rs, name)[k],
    decreases rs.len(),
{
    let ids = matching_ids(rs, name);
    let rest = matching_ids(rs.drop_last(), name);
    if k < rest.len() {
        lemma_matching_id_at(rs.drop_last(), name, k);
        let j = choose|j: int|
            0 <= j < rs.drop_last().len() && record_matches(#[trigger] rs.drop_last()[j], name)
                && rs.drop_last()[j].id == rest[k];
        assert(ids[k] == rest[k]);
        assert(rs[j] == rs.drop_last()[j]);
        assert(record_matches(rs[j], name) && rs[j].id == ids[k]);
    } else {
        let j = rs.len() - 1;
        assert(record_matches(rs[j], name) && rs[j].id == ids[k]);
    }
}

/// A listing without a matching record contributes no ids.
pub proof fn lemma_no_match_no_ids(rs: Seq<ContainerRecordModel>, name: Seq<char>)
    requires
        !has_match(rs, name),
    ensures
        matching_ids(rs, name).len() == 0,
    decreases rs.len(),
{
    if rs.len() > 0 {
        assert(!record_matches(rs[rs.len() - 1], name));
        assert forall|i: int| 0 <= i < rs.drop_last().len() implies !record_matches(
            #[trigger] rs.drop_last()[i],
            name,
        ) by {
            assert(rs.drop_last()[i] == rs[i]);
        }
        lemma_no_match_no_ids(rs.drop_last(), name);
    }
}

/// The orchestrator's internal invariant: the container name is the one
/// derived from the image reference, and the recorded layer ids are
/// distinct.
pub open spec fn inv(m: OrchestratorModel) -> bool {
    &&& m.name == derived_name(m.image)
    &&& distinct_ids(m.agg.seen)
}

/// The state a fresh orchestrator starts in.
pub open spec fn init_model(image: Seq<char>) -> OrchestratorModel {
    OrchestratorModel {
        image,
        name: derived_name(image),
        phase: PhaseModel::EngineCheck,
        agg: AggregatorModel { seen: Seq::empty(), completed: 0 },
    }
}

/// Which events may answer the orchestrator's current phase.  A failed
/// update delivery may be reported at any point before the machine is done.
pub open spec fn expects_model(m: OrchestratorModel, e: EventModel) -> bool {
    &&& !(m.phase is Done)
    &&& (e is EmitFailed || match m.phase {
        PhaseModel::EngineCheck => e is EngineOk || e is EngineDown,
        PhaseModel::RunningList => e is Containers || e is ListFailed,
        PhaseModel::AllList => e is Containers || e is ListFailed,
        PhaseModel::Cleanup { .. } => e is Removed || e is RemoveFailed,
        PhaseModel::Pull => e is PullProgress || e is PullFinished || e is PullFailed,
        PhaseModel::Create => e is Created || e is CreateFailed,
        PhaseModel::Start { .. } => e is Started || e is StartFailed,
        PhaseModel::Done => false,
    })
}

/// A copy of `pre` standing in the given phase.
pub open spec fn with_phase(pre: OrchestratorModel, phase: PhaseModel) -> OrchestratorModel {
    OrchestratorModel { image: pre.image, name: pre.name, phase, agg: pre.agg }
}

/// The step that abandons the acquisition with the given error: the machine
/// is done, nothing more is emitted, and the caller is told to fail.
pub open spec fn fail_step(pre: OrchestratorModel, error: AcquireErrorModel) -> StepModel {
    StepModel {
        post: with_phase(pre, PhaseModel::Done),
        updates: Seq::empty(),
        command: CommandModel::Fail { error },
    }
}

/// Transition out of the engine liveness check.
pub open spec fn next_engine_check(pre: OrchestratorModel, event: EventModel) -> StepModel {
    match event {
        EventModel::EngineOk => StepModel {
            post: with_phase(pre, PhaseModel::RunningList),
            updates: seq![checking_update()],
            command: CommandModel::ListRunning,
        },
        EventModel::EngineDown { detail } => fail_step(
            pre,
            AcquireErrorModel::EngineUnreachable { detail },
        ),
        _ => vstd::pervasive::arbitrary(),
    }
}

/// Transition out of the running-container listing: reuse an exact name
/// match (starting it first if it is not running), otherwise go looking for
/// stale containers.
pub open spec fn next_running_list(pre: OrchestratorModel, event: EventModel) -> StepModel {
    match event {
        EventModel::Containers { records } => {
            if has_match(records, pre.name) {
                let i = first_match(records, pre.name);
                if records[i].state is Running {
                    StepModel {
                        post: with_phase(pre, PhaseModel::Done),
                        updates: seq![ready_update()],
                        command: CommandModel::Succeed { container_id: records[i].id },
                    }
                } else {
                    StepModel {
                        post: with_phase(pre, PhaseModel::Start { id: records[i].id }),
                        updates: seq![starting_existing_update()],
                        command: CommandModel::StartContainer { id: records[i].id },
                    }
                }
            } else {
                StepModel {
                    post: with_phase(pre, PhaseModel::AllList),
                    updates: seq![checking_old_update()],
                    command: CommandModel::ListAll,
                }
            }
        },
        EventModel::ListFailed { detail } => fail_step(
            pre,
            AcquireErrorModel::EngineOperationFailed { detail },
        ),
        _ => vstd::pervasive::arbitrary(),
    }
}

/// Transition out of the all-container listing: remove every stale match,
/// one at a time, then pull.
pub open spec fn next_all_list(pre: OrchestratorModel, event: EventModel) -> StepModel {
    match event {
        EventModel::Containers { records } => {
            let ids = matching_ids(records, pre.name);
            if ids.len() == 0 {
                StepModel {
                    post: with_phase(pre, PhaseModel::Pull),
                    updates: seq![pulling_start_update()],
                    command: CommandModel::PullImage { image: pre.image },
                }
            } else {
                StepModel {
                    post: with_phase(pre, PhaseModel::Cleanup { remaining: ids.skip(1) }),
                    updates: seq![removing_update()],
                    command: CommandModel::RemoveContainer { id: ids[0] },
                }
            }
        },
        EventModel::ListFailed { detail } => fail_step(
            pre,
            AcquireErrorModel::EngineOperationFailed { detail },
        ),
        _ => vstd::pervasive::arbitrary(),
    }
}

/// Transition after one removal: remove the next stale id, or pull once all
/// are gone.
pub open spec fn next_cleanup(
    pre: OrchestratorModel,
    remaining: Seq<Seq<char>>,
    event: EventModel,
) -> StepModel {
    match event {
        EventModel::Removed => {
            if remaining.len() == 0 {
                StepModel {
                    post: with_phase(pre, PhaseModel::Pull),
                    updates: seq![pulling_start_update()],
                    command: CommandModel::PullImage { image: pre.image },
                }
            } else {
                StepModel {
                    post: with_phase(pre, PhaseModel::Cleanup { remaining: remaining.skip(1) }),
                    updates: seq![removing_update()],
                    command: CommandModel::RemoveContainer { id: remaining[0] },
                }
            }
        },
        EventModel::RemoveFailed { detail } => fail_step(
            pre,
            AcquireErrorModel::EngineOperationFailed { detail },
        ),
        _ => vstd::pervasive::arbitrary(),
    }
}

/// Transition while consuming the pull stream: feed the aggregator and relay
/// what it emits; a clean end of the stream moves on to creation, an error
/// abandons the acquisition with nothing created.
pub open spec fn next_pull(pre: OrchestratorModel, event: EventModel) -> StepModel {
    match event {
        EventModel::PullProgress { event: pe } => {
            let agg = AggregatorModel {
                seen: seen_after(pre.agg, pe),
                completed: completed_after(pre.agg, pe),
            };
            let updates = match emitted(pre.agg, pe) {
                Some(u) => seq![u],
                None => Seq::empty(),
            };
            StepModel {
                post: OrchestratorModel {
                    image: pre.image,
                    name: pre.name,
                    phase: PhaseModel::Pull,
                    agg,
                },
                updates,
                command: CommandModel::AwaitPull,
            }
        },
        EventModel::PullFinished => StepModel {
            post: with_phase(pre, PhaseModel::Create),
            updates: seq![creating_update()],
            command: CommandModel::CreateContainer {
                name: pre.name,
                image: pre.image,
                binding: fixed_binding(),
            },
        },
        EventModel::PullFailed { detail } => fail_step(
            pre,
            AcquireErrorModel::PullFailed { detail },
        ),
        _ => vstd::pervasive::arbitrary(),
    }
}

/// Transition after the creation request.
pub open spec fn next_create(pre: OrchestratorModel, event: EventModel) -> StepModel {
    match event {
        EventModel::Created { id } => StepModel {
            post: with_phase(pre, PhaseModel::Start { id }),
            updates: seq![starting_update()],
            command: CommandModel::StartContainer { id },
        },
        EventModel::CreateFailed { detail } => fail_step(
            pre,
            AcquireErrorModel::CreateFailed { detail },
        ),
        _ => vstd::pervasive::arbitrary(),
    }
}

/// Transition after the start request.
pub open spec fn next_start(pre: OrchestratorModel, id: Seq<char>, event: EventModel) -> StepModel {
    match event {
        EventModel::Started => StepModel {
            post: with_phase(pre, PhaseModel::Done),
            updates: seq![ready_update()],
            command: CommandModel::Succeed { container_id: id },
        },
        EventModel::StartFailed { detail } => fail_step(
            pre,
            AcquireErrorModel::StartFailed { detail },
        ),
        _ => vstd::pervasive::arbitrary(),
    }
}

/// The state machine: what one event makes of the orchestrator.  Meaningful
/// exactly for the state/event pairs admitted by [`expects_model`].
pub open spec fn next(pre: OrchestratorModel, event: EventModel) -> StepModel {
    match event {
        EventModel::EmitFailed { detail } => fail_step(
            pre,
            AcquireErrorModel::ProgressDeliveryFailed { detail },
        ),
        _ => match pre.phase {
            PhaseModel::EngineCheck => next_engine_check(pre, event),
            PhaseModel::RunningList => next_running_list(pre, event),
            PhaseModel::AllList => next_all_list(pre, event),
            PhaseModel::Cleanup { remaining } => next_cleanup(pre, remaining, event),
            PhaseModel::Pull => next_pull(pre, event),
            PhaseModel::Create => next_create(pre, event),
            PhaseModel::Start { id } => next_start(pre, id, event),
            PhaseModel::Done => vstd::pervasive::arbitrary(),
        },
    }
}

/// What one step yields to the caller: the progress updates to emit, in
/// order, and then the command to execute.
pub struct Step {
    pub updates: Vec<ProgressUpdate>,
    pub command: Command,
}

/// A one-element update list.
fn one_update(message: &str, percent_hundredths: u32) -> (v: Vec<ProgressUpdate>)
    ensures
        v.deep_view() == seq![(ProgressUpdateModel { message: message@, percent_hundredths })],
{
    let mut v: Vec<ProgressUpdate> = Vec::new();
    v.push(ProgressUpdate::new(message, percent_hundredths));
    proof {
        assert(v.deep_view() =~= seq![
            (ProgressUpdateModel { message: message@, percent_hundredths }),
        ]);
    }
    v
}

/// An empty update list.
fn no_updates() -> (v: Vec<ProgressUpdate>)
    ensures
        v.deep_view() == Seq::<ProgressUpdateModel>::empty(),
{
    let v: Vec<ProgressUpdate> = Vec::new();
    proof {
        assert(v.deep_view() =~= Seq::<ProgressUpdateModel>::empty());
    }
    v
}

/// Collects the ids of all records carrying the slash-prefixed name.
fn collect_matching_ids(records: &Vec<ContainerRecord>, slashed: &String, name: &String) -> (ids:
    Vec<String>)
    requires
        slashed@ == slash_prefixed(name@),
    ensures
        ids.deep_view() == matching_ids(records.deep_view(), name@),
{
    let ghost rsv = records.deep_view();
    let n = records.len();
    let mut ids: Vec<String> = Vec::new();
    let mut i: usize = 0;
    proof {
        assert(ids.deep_view() =~= matching_ids(rsv.subrange(0, 0), name@));
    }
    while i < n
        invariant
            i <= n,
            n == records@.len(),
            rsv == records.deep_view(),
            rsv.len() == n,
            slashed@ == slash_prefixed(name@),
            ids.deep_view() == matching_ids(rsv.subrange(0, i as int), name@),
        decreases n - i,
    {
        let ghost prev = ids.deep_view();
        proof {
            assert(rsv[i as int] == records@[i as int].deep_view());
        }
        if names_carry(&records[i].names, slashed) {
            ids.push(records[i].id.clone());
            proof {
                assert(ids.deep_view() =~= prev.push(records@[i as int].id@));
            }
        }
        proof {
            let sub1 = rsv.subrange(0, i + 1);
            assert(sub1.drop_last() =~= rsv.subrange(0, i as int));
            assert(sub1.last() == rsv[i as int]);
            assert(ids.deep_view() =~= matching_ids(sub1, name@));
        }
        i = i + 1;
    }
    proof {
        assert(rsv.subrange(0, n as int) =~= rsv);
    }
    ids
}

/// The container-acquisition orchestrator: one sequential state machine per
/// acquisition attempt, driven by the caller through commands and events.
pub struct Orchestrator {
    image: String,
    name: String,
    phase: Phase,
    agg: PullProgressAggregator,
}

impl View for Orchestrator {
    type V = OrchestratorModel;

    closed spec fn view(&self) -> OrchestratorModel {
        OrchestratorModel {
            image: self.image@,
            name: self.name@,
            phase: self.phase@,
            agg: self.agg@,
        }
    }
}

impl Orchestrator {
    /// A fresh orchestrator for one image reference.  The derived container
    /// name is fixed here, once, for the whole attempt.
    pub fn new(image: &str) -> (o: Orchestrator)
        ensures
            o@ == init_model(image@),
            inv(o@),
    {
        let name = derive_container_name(image);
        let o = Orchestrator {
            image: String::from_str(image),
            name,
            phase: Phase::EngineCheck,
            agg: PullProgressAggregator::new(),
        };
        proof {
            assert(o@ =~~= init_model(image@));
        }
        o
    }

    /// The derived container name this attempt manages.
    pub fn container_name(&self) -> (r: &String)
        ensures
            r@ == self@.name,
    {
        &self.name
    }

    /// The protocol's first step: nothing to emit yet, and the caller must
    /// find out whether the engine is reachable.
    pub fn start(&self) -> (s: Step)
        ensures
            s.updates.deep_view() == Seq::<ProgressUpdateModel>::empty(),
            s.command@ == CommandModel::CheckEngine,
    {
        Step { updates: no_updates(), command: Command::CheckEngine }
    }

    /// Whether an event may answer the current phase; the caller reports
    /// exactly the outcome of the command it was handed, so this holds by
    /// construction for a faithful driver.
    pub fn expects(&self, event: &Event) -> (r: bool)
        ensures
            r == expects_model(self@, event@),
    {
        if let Phase::Done = &self.phase {
            return false;
        }
        if let Event::EmitFailed { .. } = event {
            return true;
        }
        match (&self.phase, event) {
            (Phase::EngineCheck, Event::EngineOk) => true,
            (Phase::EngineCheck, Event::EngineDown { .. }) => true,
            (Phase::RunningList, Event::Containers { .. }) => true,
            (Phase::RunningList, Event::ListFailed { .. }) => true,
            (Phase::AllList, Event::Containers { .. }) => true,
            (Phase::AllList, Event::ListFailed { .. }) => true,
            (Phase::Cleanup { .. }, Event::Removed) => true,
            (Phase::Cleanup { .. }, Event::RemoveFailed { .. }) => true,
            (Phase::Pull, Event::PullProgress { .. }) => true,
            (Phase::Pull, Event::PullFinished) => true,
            (Phase::Pull, Event::PullFailed { .. }) => true,
            (Phase::Create, Event::Created { .. }) => true,
            (Phase::Create, Event::CreateFailed { .. }) => true,
            (Phase::Start { .. }, Event::Started) => true,
            (Phase::Start { .. }, Event::StartFailed { .. }) => true,
            _ => false,
        }
    }

    /// Consumes one event and yields the updates to emit and the next
    /// command, following the transition function [`next`].
    pub fn step(&mut self, event: Event) -> (r: Step)
        requires
            inv(old(self)@),
            expects_model(old(self)@, event@),
        ensures
            final(self)@ == next(old(self)@, event@).post,
            r.updates.deep_view() == next(old(self)@, event@).updates,
            r.command@ == next(old(self)@, event@).command,
            inv(final(self)@),
    {
        let ghost pre = self@;
        let ghost ev = event@;
        let mut ph = Phase::Done;
        core::mem::swap(&mut self.phase, &mut ph);
        let r: Step = match event {
            Event::EmitFailed { detail } => Step {
                updates: no_updates(),
                command: Command::Fail {
                    error: AcquireError::ProgressDeliveryFailed { detail },
                },
            },
            event => match ph {
                Phase::EngineCheck => match event {
                    Event::EngineOk => {
                        self.phase = Phase::RunningList;
                        Step {
                            updates: one_update("Checking existing containers...", 0),
                            command: Command::ListRunning,
                        }
                    },
                    Event::EngineDown { detail } => Step {
                        updates: no_updates(),
                        command: Command::Fail {
                            error: AcquireError::EngineUnreachable { detail },
                        },
                    },
                    _ => unreached(),
                },
                Phase::RunningList => match event {
                    Event::Containers { records } => {
                        let slashed = slash_prefix(self.name.as_str());
                        match find_first_match(&records, &slashed, &self.name) {
                            Some(i) => {
                                proof {
                                    lemma_first_match_unique(
                                        records.deep_view(),
                                        pre.name,
                                        i as int,
                                        first_match(records.deep_view(), pre.name),
                                    );
                                }
                                let id = records[i].id.clone();
                                match records[i].state {
                                    ContainerState::Running => {
                                        self.phase = Phase::Done;
                                        Step {
                                            updates: one_update("Container ready", 10000),
                                            command: Command::Succeed { container_id: id },
                                        }
                                    },
                                    _ => {
                                        self.phase = Phase::Start { id: records[i].id.clone() };
                                        Step {
                                            updates: one_update(
                                                "Starting existing container...",
                                                5000,
                                            ),
                                            command: Command::StartContainer { id },
                                        }
                                    },
                                }
                            },
                            None => {
                                self.phase = Phase::AllList;
                                Step {
                                    updates: one_update(
                                        "Checking for old containers to remove...",
                                        1000,
                                    ),
                                    command: Command::ListAll,
                                }
                            },
                        }
                    },
                    Event::ListFailed { detail } => Step {
                        updates: no_updates(),
                        command: Command::Fail {
                            error: AcquireError::EngineOperationFailed { detail },
                        },
                    },
                    _ => unreached(),
                },
                Phase::AllList => match event {
                    Event::Containers { records } => {
                        let slashed = slash_prefix(self.name.as_str());
                        let mut ids = collect_matching_ids(&records, &slashed, &self.name);
                        if ids.len() == 0 {
                            self.phase = Phase::Pull;
                            Step {
                                updates: one_update("Pulling Docker image...", 3000),
                                command: Command::PullImage { image: self.image.clone() },
                            }
                        } else {
                            let ghost all = ids.deep_view();
                            let first = ids.remove(0);
                            proof {
                                assert(ids.deep_view() =~= all.skip(1));
                            }
                            self.phase = Phase::Cleanup { remaining: ids };
                            Step {
                                updates: one_update("Removing old container...", 2000),
                                command: Command::RemoveContainer { id: first },
                            }
                        }
                    },
                    Event::ListFailed { detail } => Step {
                        updates: no_updates(),
                        command: Command::Fail {
                            error: AcquireError::EngineOperationFailed { detail },
                        },
                    },
                    _ => unreached(),
                },
                Phase::Cleanup { remaining } => match event {
                    Event::Removed => {
                        let mut rem = remaining;
                        if rem.len() == 0 {
                            self.phase = Phase::Pull;
                            Step {
                                updates: one_update("Pulling Docker image...", 3000),
                                command: Command::PullImage { image: self.image.clone() },
                            }
                        } else {
                            let ghost all = rem.deep_view();
                            let first = rem.remove(0);
                            proof {
                                assert(rem.deep_view() =~= all.skip(1));
                            }
                            self.phase = Phase::Cleanup { remaining: rem };
                            Step {
                                updates: one_update("Removing old container...", 2000),
                                command: Command::RemoveContainer { id: first },
                            }
                        }
                    },
                    Event::RemoveFailed { detail } => Step {
                        updates: no_updates(),
                        command: Command::Fail {
                            error: AcquireError::EngineOperationFailed { detail },
                        },
                    },
                    _ => unreached(),
                },
                Phase::Pull => match event {
                    Event::PullProgress { event: pe } => {
                        let upd = self.agg.feed(&pe);
                        self.phase = Phase::Pull;
                        let updates: Vec<ProgressUpdate> = match upd {
                            Some(u) => {
                                let ghost um = u.deep_view();
                                let mut v: Vec<ProgressUpdate> = Vec::new();
                                v.push(u);
                                proof {
                                    assert(v.deep_view() =~= seq![um]);
                                }
                                v
                            },
                            None => no_updates(),
                        };
                        Step { updates, command: Command::AwaitPull }
                    },
                    Event::PullFinished => {
                        self.phase = Phase::Create;
                        let binding = PortBinding {
                            container_port: 5000,
                            host_ip: String::from_str("0.0.0.0"),
                            host_port: 5000,
                        };
                        Step {
                            updates: one_update("Creating container...", 8500),
                            command: Command::CreateContainer {
                                name: self.name.clone(),
                                image: self.image.clone(),
                                binding,
                            },
                        }
                    },
                    Event::PullFailed { detail } => Step {
                        updates: no_updates(),
                        command: Command::Fail { error: AcquireError::PullFailed { detail } },
                    },
                    _ => unreached(),
                },
                Phase::Create => match event {
                    Event::Created { id } => {
                        self.phase = Phase::Start { id: id.clone() };
                        Step {
                            updates: one_update("Starting container...", 9500),
                            command: Command::StartContainer { id },
                        }
                    },
                    Event::CreateFailed { detail } => Step {
                        updates: no_updates(),
                        command: Command::Fail { error: AcquireError::CreateFailed { detail } },
                    },
                    _ => unreached(),
                },
                Phase::Start { id } => match event {
                    Event::Started => {
                        self.phase = Phase::Done;
                        Step {
                            updates: one_update("Container ready", 10000),
                            command: Command::Succeed { container_id: id },
                        }
                    },
                    Event::StartFailed { detail } => Step {
                        updates: no_updates(),
                        command: Command::Fail { error: AcquireError::StartFailed { detail } },
                    },
                    _ => unreached(),
                },
                Phase::Done => unreached(),
            },
        };
        proof {
            assert(self@ =~~= next(pre, ev).post);
            assert(r.updates.deep_view() =~~= next(pre, ev).updates);
            assert(r.command@ =~~= next(pre, ev).command);
        }
        r
    }
}

/// If the engine reports a running container carrying the derived name, the
/// acquisition finishes at once with that container's id: nothing is pulled,
/// removed, created, or started.
pub proof fn lemma_running_match_reused(
    pre: OrchestratorModel,
    records: Seq<ContainerRecordModel>,
    i: int,
)
    requires
        pre.phase is RunningList,
        is_first_match(records, pre.name, i),
        records[i].state is Running,
    ensures
        next(pre, EventModel::Containers { records }).command == (CommandModel::Succeed {
            container_id: records[i].id,
        }),
        next(pre, EventModel::Containers { records }).post.phase is Done,
        next(pre, EventModel::Containers { records }).updates == seq![ready_update()],
{
    assert(has_match(records, pre.name));
    lemma_first_match_unique(records, pre.name, i, first_match(records, pre.name));
}

/// If the engine reports a stopped container carrying the derived name, the
/// orchestrator starts exactly that container — no removal, no recreation —
/// and the following step returns its id.
pub proof fn lemma_stopped_match_started(
    pre: OrchestratorModel,
    records: Seq<ContainerRecordModel>,
    i: int,
)
    requires
        pre.phase is RunningList,
        is_first_match(records, pre.name, i),
        !(records[i].state is Running),
    ensures
        next(pre, EventModel::Containers { records }).command == (CommandModel::StartContainer {
            id: records[i].id,
        }),
        next(pre, EventModel::Containers { records }).post.phase == (PhaseModel::Start {
            id: records[i].id,
        }),
        next(
            next(pre, EventModel::Containers { records }).post,
            EventModel::Started,
        ).command == (CommandModel::Succeed { container_id: records[i].id }),
{
    assert(has_match(records, pre.name));
    lemma_first_match_unique(records, pre.name, i, first_match(records, pre.name));
}

/// Containers that do not carry the derived name are left untouched: when no
/// listed record matches, neither listing response makes the orchestrator
/// remove anything — it moves on to the stale-container check and then to
/// the pull.
pub proof fn lemma_unrelated_left_untouched(
    pre: OrchestratorModel,
    records: Seq<ContainerRecordModel>,
)
    requires
        pre.phase is RunningList || pre.phase is AllList,
        !has_match(records, pre.name),
    ensures
        !(next(pre, EventModel::Containers { records }).command is RemoveContainer),
        pre.phase is RunningList ==> next(pre, EventModel::Containers { records }).command
            == CommandModel::ListAll,
        pre.phase is AllList ==> next(pre, EventModel::Containers { records }).command
            == (CommandModel::PullImage { image: pre.image }),
{
    if pre.phase is AllList {
        lemma_no_match_no_ids(records, pre.name);
    }
}

/// Every removal commanded from an all-container listing names the id of a
/// record that carries the derived name.
pub proof fn lemma_removals_only_matching(
    pre: OrchestratorModel,
    records: Seq<ContainerRecordModel>,
)
    requires
        pre.phase is AllList,
    ensures
        next(pre, EventModel::Containers { records }).command matches
            CommandModel::RemoveContainer { id } ==> exists|j: int|
            0 <= j < records.len() && record_matches(#[trigger] records[j], pre.name)
                && records[j].id == id,
{
    let ids = matching_ids(records, pre.name);
    if ids.len() > 0 {
        lemma_matching_id_at(records, pre.name, 0);
    }
}

} // verus!
