//! The data the orchestrator works on: engine-reported container records,
//! pull-stream events, progress updates, and the error taxonomy.
//!
//! Each executable type has a specification-level model reached through its
//! view, so contracts and proofs speak about sequences of characters rather
//! than heap-allocated strings.

use crate::strutil::str_eq;
use vstd::prelude::*;
use vstd::string::*;

verus! {

/// The run state of a container as the engine reports it.
#[derive(Clone, Copy, PartialEq, Eq, Structural, Debug)]
pub enum ContainerState {
    Running,
    Exited,
    Created,
    Other,
}

/// Specification model of a [`ContainerRecord`].
#[verifier::ext_equal]
pub struct ContainerRecordModel {
    pub id: Seq<char>,
    pub names: Seq<Seq<char>>,
    pub state: ContainerState,
}

/// An engine-reported snapshot of one container: its identifier, the names
/// the engine lists for it, and its run state.
#[derive(Clone, Debug)]
pub struct ContainerRecord {
    pub id: String,
    pub names: Vec<String>,
    pub state: ContainerState,
}

impl View for ContainerRecord {
    type V = ContainerRecordModel;

    open spec fn view(&self) -> ContainerRecordModel {
        ContainerRecordModel { id: self.id@, names: self.names.deep_view(), state: self.state }
    }
}

impl DeepView for ContainerRecord {
    type V = ContainerRecordModel;

    open spec fn deep_view(&self) -> ContainerRecordModel {
        self.view()
    }
}

/// Byte counts reported for one layer of an image pull.
#[derive(Clone, Copy, PartialEq, Eq, Structural, Debug)]
pub struct ByteProgress {
    pub current: u64,
    pub total: u64,
}

/// Specification model of a [`PullEvent`].
#[verifier::ext_equal]
pub struct PullEventModel {
    pub layer_id: Option<Seq<char>>,
    pub progress: Option<ByteProgress>,
    pub status: Option<Seq<char>>,
}

/// One message from the engine's image-pull stream: an optional layer
/// identifier, optional byte progress, and an optional status line.
#[derive(Clone, Debug)]
pub struct PullEvent {
    pub layer_id: Option<String>,
    pub progress: Option<ByteProgress>,
    pub status: Option<String>,
}

impl View for PullEvent {
    type V = PullEventModel;

    open spec fn view(&self) -> PullEventModel {
        PullEventModel {
            layer_id: self.layer_id.deep_view(),
            progress: self.progress,
            status: self.status.deep_view(),
        }
    }
}

/// Specification model of a [`ProgressUpdate`].
#[verifier::ext_equal]
pub struct ProgressUpdateModel {
    pub message: Seq<char>,
    pub percent_hundredths: u32,
}

/// One event of the progress stream: a human-readable status line and a
/// percentage, held in hundredths so that `10000` stands for `100%`.
#[derive(Clone, Debug)]
pub struct ProgressUpdate {
    pub message: String,
    pub percent_hundredths: u32,
}

impl View for ProgressUpdate {
    type V = ProgressUpdateModel;

    open spec fn view(&self) -> ProgressUpdateModel {
        ProgressUpdateModel {
            message: self.message@,
            percent_hundredths: self.percent_hundredths,
        }
    }
}

impl DeepView for ProgressUpdate {
    type V = ProgressUpdateModel;

    open spec fn deep_view(&self) -> ProgressUpdateModel {
        self.view()
    }
}

impl ProgressUpdate {
    /// Builds an update from a status line and a percentage in hundredths.
    pub fn new(message: &str, percent_hundredths: u32) -> (u: ProgressUpdate)
        ensures
            u@ == (ProgressUpdateModel { message: message@, percent_hundredths }),
    {
        ProgressUpdate { message: String::from_str(message), percent_hundredths }
    }
}

/// Specification model of an [`AcquireError`].
#[verifier::ext_equal]
pub enum AcquireErrorModel {
    EngineUnreachable { detail: Seq<char> },
    EngineOperationFailed { detail: Seq<char> },
    PullFailed { detail: Seq<char> },
    CreateFailed { detail: Seq<char> },
    StartFailed { detail: Seq<char> },
    ProgressDeliveryFailed { detail: Seq<char> },
}

/// Why an acquisition failed.  Every failure is fatal to the current
/// attempt; none is retried by the orchestrator itself.
#[derive(Clone, Debug)]
pub enum AcquireError {
    /// The engine daemon cannot be reached at all.
    EngineUnreachable { detail: String },
    /// Listing or removing containers failed.
    EngineOperationFailed { detail: String },
    /// The pull stream ended with an error; no container was created.
    PullFailed { detail: String },
    /// The engine rejected the container creation.
    CreateFailed { detail: String },
    /// The engine rejected the start request.
    StartFailed { detail: String },
    /// A progress update could not be delivered; the caller depends on the
    /// terminal event, so this aborts the attempt.
    ProgressDeliveryFailed { detail: String },
}

impl View for AcquireError {
    type V = AcquireErrorModel;

    open spec fn view(&self) -> AcquireErrorModel {
        match self {
            AcquireError::EngineUnreachable { detail } => AcquireErrorModel::EngineUnreachable {
                detail: detail@,
            },
            AcquireError::EngineOperationFailed { detail } => AcquireErrorModel::EngineOperationFailed {
                detail: detail@,
            },
            AcquireError::PullFailed { detail } => AcquireErrorModel::PullFailed { detail: detail@ },
            AcquireError::CreateFailed { detail } => AcquireErrorModel::CreateFailed {
                detail: detail@,
            },
            AcquireError::StartFailed { detail } => AcquireErrorModel::StartFailed {
                detail: detail@,
            },
            AcquireError::ProgressDeliveryFailed { detail } => AcquireErrorModel::ProgressDeliveryFailed {
                detail: detail@,
            },
        }
    }
}

/// The description of an error model: a fixed prefix naming the failed
/// operation, followed by the detail the engine or sink reported.
pub open spec fn error_description(e: AcquireErrorModel) -> Seq<char> {
    match e {
        AcquireErrorModel::EngineUnreachable { detail } => "Failed to connect to Docker: "@
            + detail,
        AcquireErrorModel::EngineOperationFailed { detail } => "Failed to list containers: "@
            + detail,
        AcquireErrorModel::PullFailed { detail } => "Failed to pull image: "@ + detail,
        AcquireErrorModel::CreateFailed { detail } => "Failed to create container: "@ + detail,
        AcquireErrorModel::StartFailed { detail } => "Failed to start container: "@ + detail,
        AcquireErrorModel::ProgressDeliveryFailed { detail } => "Failed to emit progress: "@
            + detail,
    }
}

impl AcquireError {
    /// A human-readable description: what failed, then the reported detail.
    pub fn describe(&self) -> (r: String)
        ensures
            r@ == error_description(self@),
    {
        match self {
            AcquireError::EngineUnreachable { detail } => {
                let mut s = String::from_str("Failed to connect to Docker: ");
                s.append(detail.as_str());
                s
            },
            AcquireError::EngineOperationFailed { detail } => {
                let mut s = String::from_str("Failed to list containers: ");
                s.append(detail.as_str());
                s
            },
            AcquireError::PullFailed { detail } => {
                let mut s = String::from_str("Failed to pull image: ");
                s.append(detail.as_str());
                s
            },
            AcquireError::CreateFailed { detail } => {
                let mut s = String::from_str("Failed to create container: ");
                s.append(detail.as_str());
                s
            },
            AcquireError::StartFailed { detail } => {
                let mut s = String::from_str("Failed to start container: ");
                s.append(detail.as_str());
                s
            },
            AcquireError::ProgressDeliveryFailed { detail } => {
                let mut s = String::from_str("Failed to emit progress: ");
                s.append(detail.as_str());
                s
            },
        }
    }
}

/// A record matches a container name when the engine lists the slash-prefixed
/// form of that name for it.
pub open spec fn record_matches(r: ContainerRecordModel, name: Seq<char>) -> bool {
    r.names.contains(crate::naming::slash_prefixed(name))
}

/// Whether a record with the given name occurs in a listing.
pub open spec fn has_match(rs: Seq<ContainerRecordModel>, name: Seq<char>) -> bool {
    exists|i: int| 0 <= i < rs.len() && record_matches(#[trigger] rs[i], name)
}

/// `i` is the position of the first record in `rs` that matches `name`.
pub open spec fn is_first_match(rs: Seq<ContainerRecordModel>, name: Seq<char>, i: int) -> bool {
    &&& 0 <= i < rs.len()
    &&& record_matches(rs[i], name)
    &&& forall|j: int| 0 <= j < i ==> !record_matches(#[trigger] rs[j], name)
}

/// The position of the first matching record, meaningful when one exists.
pub open spec fn first_match(rs: Seq<ContainerRecordModel>, name: Seq<char>) -> int {
    choose|i: int| is_first_match(rs, name, i)
}

/// At most one position is the first match.
pub proof fn lemma_first_match_unique(
    rs: Seq<ContainerRecordModel>,
    name: Seq<char>,
    i1: int,
    i2: int,
)
    requires
        is_first_match(rs, name, i1),
        is_first_match(rs, name, i2),
    ensures
        i1 == i2,
{
}

/// Whether one of the listed names equals the given slash-prefixed name.
pub(crate) fn names_carry(names: &Vec<String>, slashed: &String) -> (r: bool)
    ensures
        r == names.deep_view().contains(slashed@),
{
    let n = names.len();
    let mut i: usize = 0;
    while i < n
        invariant
            i <= n,
            n == names@.len(),
            forall|j: int| 0 <= j < i ==> names.deep_view()[j] != slashed@,
        decreases n - i,
    {
        if str_eq(names[i].as_str(), slashed.as_str()) {
            proof {
                assert(names.deep_view()[i as int] == slashed@);
            }
            return true;
        }
        i = i + 1;
    }
    proof {
        assert forall|j: int| 0 <= j < names.deep_view().len() implies names.deep_view()[j]
            != slashed@ by {}
    }
    false
}

/// Finds the first record whose name list carries the given slash-prefixed
/// name.  `slashed` must already carry the leading slash under which the
/// engine lists container names.
pub fn find_first_match(rs: &Vec<ContainerRecord>, slashed: &String, name: &String) -> (r: Option<
    usize,
>)
    requires
        slashed@ == crate::naming::slash_prefixed(name@),
    ensures
        match r {
            Some(i) => is_first_match(rs.deep_view(), name@, i as int),
            None => !has_match(rs.deep_view(), name@),
        },
{
    let n = rs.len();
    let mut i: usize = 0;
    while i < n
        invariant
            i <= n,
            n == rs@.len(),
            rs.deep_view().len() == rs@.len(),
            slashed@ == crate::naming::slash_prefixed(name@),
            forall|j: int| 0 <= j < i ==> !record_matches(#[trigger] rs.deep_view()[j], name@),
        decreases n - i,
    {
        proof {
            assert(rs.deep_view()[i as int] == rs@[i as int].deep_view());
        }
        if names_carry(&rs[i].names, slashed) {
            return Some(i);
        }
        i = i + 1;
    }
    None
}

} // verus!
