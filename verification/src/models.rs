//! The workflow's data model: stages, statuses and the rows of the local store.

use vstd::prelude::*;

use crate::encoding::str_eq;
use crate::json::{JsonField, JsonMembers};

verus! {

/// Number of stages in the delivery workflow.
pub const STAGE_COUNT: usize = 9;

/// Who carries out a stage.
#[derive(Clone, Copy, Debug, PartialEq, Eq, Structural)]
pub enum StageActor {
    Ai,
    Human,
}

/// One phase of the delivery workflow. The set is closed and linearly ordered
/// from `InitialReview` to `Delivered`.
#[derive(Clone, Copy, Debug, PartialEq, Eq, Structural)]
pub enum WebAssistStage {
    InitialReview,
    AiResearch,
    DesignMockup,
    ContentCollection,
    Development,
    QualityAssurance,
    ClientPreview,
    Deployment,
    Delivered,
}

/// The stages in workflow order.
pub open spec fn stage_sequence() -> Seq<WebAssistStage> {
    seq![
        WebAssistStage::InitialReview,
        WebAssistStage::AiResearch,
        WebAssistStage::DesignMockup,
        WebAssistStage::ContentCollection,
        WebAssistStage::Development,
        WebAssistStage::QualityAssurance,
        WebAssistStage::ClientPreview,
        WebAssistStage::Deployment,
        WebAssistStage::Delivered,
    ]
}

impl WebAssistStage {
    /// Position of the stage in the workflow order, from 0.
    pub open spec fn spec_index(self) -> int {
        match self {
            WebAssistStage::InitialReview => 0,
            WebAssistStage::AiResearch => 1,
            WebAssistStage::DesignMockup => 2,
            WebAssistStage::ContentCollection => 3,
            WebAssistStage::Development => 4,
            WebAssistStage::QualityAssurance => 5,
            WebAssistStage::ClientPreview => 6,
            WebAssistStage::Deployment => 7,
            WebAssistStage::Delivered => 8,
        }
    }

    /// The stage that follows this one, if any.
    pub open spec fn spec_next(self) -> Option<WebAssistStage> {
        if self.spec_index() + 1 < stage_sequence().len() {
            Some(stage_sequence()[self.spec_index() + 1])
        } else {
            None
        }
    }

    /// True for the stages that AI agents carry out.
    pub open spec fn spec_is_ai_stage(self) -> bool {
        self == WebAssistStage::AiResearch || self == WebAssistStage::DesignMockup || self
            == WebAssistStage::ContentCollection || self == WebAssistStage::Development || self
            == WebAssistStage::Deployment
    }

    /// A gated stage needs a client's sign-off before the workflow moves on.
    pub open spec fn spec_requires_approval(self) -> bool {
        self == WebAssistStage::DesignMockup || self == WebAssistStage::ContentCollection || self
            == WebAssistStage::ClientPreview
    }

    /// Expected duration of the stage in hours.
    pub open spec fn spec_duration_hours(self) -> u32 {
        match self {
            WebAssistStage::InitialReview => 2,
            WebAssistStage::AiResearch => 2,
            WebAssistStage::DesignMockup => 8,
            WebAssistStage::ContentCollection => 6,
            WebAssistStage::Development => 16,
            WebAssistStage::QualityAssurance => 4,
            WebAssistStage::ClientPreview => 6,
            WebAssistStage::Deployment => 4,
            WebAssistStage::Delivered => 0,
        }
    }

    /// The name under which the stage is stored and sent.
    pub open spec fn spec_name(self) -> Seq<char> {
        match self {
            WebAssistStage::InitialReview => "initial_review"@,
            WebAssistStage::AiResearch => "ai_research"@,
            WebAssistStage::DesignMockup => "design_mockup"@,
            WebAssistStage::ContentCollection => "content_collection"@,
            WebAssistStage::Development => "development"@,
            WebAssistStage::QualityAssurance => "quality_assurance"@,
            WebAssistStage::ClientPreview => "client_preview"@,
            WebAssistStage::Deployment => "deployment"@,
            WebAssistStage::Delivered => "delivered"@,
        }
    }

    /// The name shown to people.
    pub open spec fn spec_display_name(self) -> Seq<char> {
        match self {
            WebAssistStage::InitialReview => "Initial Review & Research Setup"@,
            WebAssistStage::AiResearch => "AI Research & Analysis"@,
            WebAssistStage::DesignMockup => "Design Mockup Creation"@,
            WebAssistStage::ContentCollection => "Content Collection & SEO"@,
            WebAssistStage::Development => "Full-Stack Development"@,
            WebAssistStage::QualityAssurance => "Quality Assurance & Testing"@,
            WebAssistStage::ClientPreview => "Client Preview & Final Review"@,
            WebAssistStage::Deployment => "Production Deployment"@,
            WebAssistStage::Delivered => "Project Delivered"@,
        }
    }

    /// The kind of approval that a gated stage asks for.
    pub open spec fn spec_approval_type(self) -> Option<Seq<char>> {
        match self {
            WebAssistStage::DesignMockup => Some("design_mockup"@),
            WebAssistStage::ContentCollection => Some("content_review"@),
            WebAssistStage::ClientPreview => Some("final_preview"@),
            _ => None,
        }
    }

    /// The stage's place in the workflow as a decimal number, from 1.
    pub open spec fn spec_ordinal_text(self) -> Seq<char> {
        match self {
            WebAssistStage::InitialReview => "1"@,
            WebAssistStage::AiResearch => "2"@,
            WebAssistStage::DesignMockup => "3"@,
            WebAssistStage::ContentCollection => "4"@,
            WebAssistStage::Development => "5"@,
            WebAssistStage::QualityAssurance => "6"@,
            WebAssistStage::ClientPreview => "7"@,
            WebAssistStage::Deployment => "8"@,
            WebAssistStage::Delivered => "9"@,
        }
    }

    /// Who carries out the stage.
    pub open spec fn spec_actor(self) -> StageActor {
        if self.spec_is_ai_stage() {
            StageActor::Ai
        } else {
            StageActor::Human
        }
    }

    /// A stage is the one that the workflow order holds at its position.
    pub proof fn is_at_own_position(self)
        ensures
            0 <= self.spec_index() < STAGE_COUNT,
            stage_sequence()[self.spec_index()] == self,
    {
    }

    /// Position of the stage in the workflow order, from 0.
    pub fn index(&self) -> (i: usize)
        ensures
            i == self.spec_index(),
            i < STAGE_COUNT,
            stage_sequence()[i as int] == *self,
    {
        match self {
            WebAssistStage::InitialReview => 0,
            WebAssistStage::AiResearch => 1,
            WebAssistStage::DesignMockup => 2,
            WebAssistStage::ContentCollection => 3,
            WebAssistStage::Development => 4,
            WebAssistStage::QualityAssurance => 5,
            WebAssistStage::ClientPreview => 6,
            WebAssistStage::Deployment => 7,
            WebAssistStage::Delivered => 8,
        }
    }

    /// The stage at a position of the workflow order.
    pub fn from_index(i: usize) -> (stage: Option<WebAssistStage>)
        ensures
            i < STAGE_COUNT ==> stage == Some(stage_sequence()[i as int]),
            i >= STAGE_COUNT ==> stage.is_none(),
    {
        match i {
            0 => Some(WebAssistStage::InitialReview),
            1 => Some(WebAssistStage::AiResearch),
            2 => Some(WebAssistStage::DesignMockup),
            3 => Some(WebAssistStage::ContentCollection),
            4 => Some(WebAssistStage::Development),
            5 => Some(WebAssistStage::QualityAssurance),
            6 => Some(WebAssistStage::ClientPreview),
            7 => Some(WebAssistStage::Deployment),
            8 => Some(WebAssistStage::Delivered),
            _ => None,
        }
    }

    /// True for the stages that AI agents carry out.
    pub fn is_ai_stage(&self) -> (ai: bool)
        ensures
            ai == self.spec_is_ai_stage(),
    {
        match self {
            WebAssistStage::AiResearch
            | WebAssistStage::DesignMockup
            | WebAssistStage::ContentCollection
            | WebAssistStage::Development
            | WebAssistStage::Deployment => true,
            _ => false,
        }
    }

    /// True for the stages that wait for a client's approval before the
    /// workflow proceeds.
    pub fn requires_approval(&self) -> (gated: bool)
        ensures
            gated == self.spec_requires_approval(),
    {
        match self {
            WebAssistStage::DesignMockup
            | WebAssistStage::ContentCollection
            | WebAssistStage::ClientPreview => true,
            _ => false,
        }
    }

    /// Expected duration of the stage in hours.
    pub fn duration_hours(&self) -> (hours: u32)
        ensures
            hours == self.spec_duration_hours(),
    {
        match self {
            WebAssistStage::InitialReview => 2,
            WebAssistStage::AiResearch => 2,
            WebAssistStage::DesignMockup => 8,
            WebAssistStage::ContentCollection => 6,
            WebAssistStage::Development => 16,
            WebAssistStage::QualityAssurance => 4,
            WebAssistStage::ClientPreview => 6,
            WebAssistStage::Deployment => 4,
            WebAssistStage::Delivered => 0,
        }
    }

    /// The stage that follows this one, or `None` for the last stage.
    pub fn next_stage(&self) -> (next: Option<WebAssistStage>)
        ensures
            next == self.spec_next(),
            next matches Some(n) ==> n.spec_index() == self.spec_index() + 1,
            next.is_none() <==> *self == WebAssistStage::Delivered,
    {
        match self {
            WebAssistStage::InitialReview => Some(WebAssistStage::AiResearch),
            WebAssistStage::AiResearch => Some(WebAssistStage::DesignMockup),
            WebAssistStage::DesignMockup => Some(WebAssistStage::ContentCollection),
            WebAssistStage::ContentCollection => Some(WebAssistStage::Development),
            WebAssistStage::Development => Some(WebAssistStage::QualityAssurance),
            WebAssistStage::QualityAssurance => Some(WebAssistStage::ClientPreview),
            WebAssistStage::ClientPreview => Some(WebAssistStage::Deployment),
            WebAssistStage::Deployment => Some(WebAssistStage::Delivered),
            WebAssistStage::Delivered => None,
        }
    }

    /// Who carries out the stage.
    pub fn actor(&self) -> (actor: StageActor)
        ensures
            actor == self.spec_actor(),
    {
        if self.is_ai_stage() {
            StageActor::Ai
        } else {
            StageActor::Human
        }
    }

    /// The kind of approval a gated stage asks for; `None` for the others.
    pub fn approval_type(&self) -> (kind: Option<&'static str>)
        ensures
            kind.is_some() == self.spec_requires_approval(),
            match kind {
                Some(text) => self.spec_approval_type() == Some(text@),
                None => self.spec_approval_type().is_none(),
            },
    {
        match self {
            WebAssistStage::DesignMockup => Some("design_mockup"),
            WebAssistStage::ContentCollection => Some("content_review"),
            WebAssistStage::ClientPreview => Some("final_preview"),
            _ => None,
        }
    }

    /// The name under which the stage is stored and sent.
    pub fn as_str(&self) -> (name: &'static str)
        ensures
            name@ == self.spec_name(),
    {
        match self {
            WebAssistStage::InitialReview => "initial_review",
            WebAssistStage::AiResearch => "ai_research",
            WebAssistStage::DesignMockup => "design_mockup",
            WebAssistStage::ContentCollection => "content_collection",
            WebAssistStage::Development => "development",
            WebAssistStage::QualityAssurance => "quality_assurance",
            WebAssistStage::ClientPreview => "client_preview",
            WebAssistStage::Deployment => "deployment",
            WebAssistStage::Delivered => "delivered",
        }
    }

    /// Reads a stage from the name under which it is stored.
    pub fn from_name(name: &str) -> (stage: Option<WebAssistStage>)
        ensures
            match stage {
                Some(s) => s.spec_name() == name@,
                None => forall|s: WebAssistStage| #[trigger] s.spec_name() != name@,
            },
    {
        let stages = Self::all_stages();
        let mut i: usize = 0;
        while i < stages.len()
            invariant
                i <= stages.len(),
                stages@ == stage_sequence(),
                forall|k: int| 0 <= k < i ==> (#[trigger] stages@[k]).spec_name() != name@,
            decreases stages.len() - i,
        {
            if str_eq(stages[i].as_str(), name) {
                return Some(stages[i]);
            }
            i = i + 1;
        }
        proof {
            assert forall|s: WebAssistStage| #[trigger] s.spec_name() != name@ by {
                s.is_at_own_position();
                assert(stages@[s.spec_index()] == s);
            }
        }
        None
    }

    /// The stored name as an owned string.
    pub fn to_string(&self) -> (name: String)
        ensures
            name@ == self.spec_name(),
    {
        String::from_str(self.as_str())
    }

    /// The name shown to people.
    pub fn display_name(&self) -> (name: &'static str)
        ensures
            name@ == self.spec_display_name(),
    {
        match self {
            WebAssistStage::InitialReview => "Initial Review & Research Setup",
            WebAssistStage::AiResearch => "AI Research & Analysis",
            WebAssistStage::DesignMockup => "Design Mockup Creation",
            WebAssistStage::ContentCollection => "Content Collection & SEO",
            WebAssistStage::Development => "Full-Stack Development",
            WebAssistStage::QualityAssurance => "Quality Assurance & Testing",
            WebAssistStage::ClientPreview => "Client Preview & Final Review",
            WebAssistStage::Deployment => "Production Deployment",
            WebAssistStage::Delivered => "Project Delivered",
        }
    }

    /// The stage's place in the workflow as a decimal number, from 1.
    pub fn ordinal_text(&self) -> (text: &'static str)
        ensures
            text@ == self.spec_ordinal_text(),
    {
        match self {
            WebAssistStage::InitialReview => "1",
            WebAssistStage::AiResearch => "2",
            WebAssistStage::DesignMockup => "3",
            WebAssistStage::ContentCollection => "4",
            WebAssistStage::Development => "5",
            WebAssistStage::QualityAssurance => "6",
            WebAssistStage::ClientPreview => "7",
            WebAssistStage::Deployment => "8",
            WebAssistStage::Delivered => "9",
        }
    }

    /// All stages, in workflow order.
    pub fn all_stages() -> (stages: Vec<WebAssistStage>)
        ensures
            stages@ == stage_sequence(),
    {
        let stages = vec![
            WebAssistStage::InitialReview,
            WebAssistStage::AiResearch,
            WebAssistStage::DesignMockup,
            WebAssistStage::ContentCollection,
            WebAssistStage::Development,
            WebAssistStage::QualityAssurance,
            WebAssistStage::ClientPreview,
            WebAssistStage::Deployment,
            WebAssistStage::Delivered,
        ];
        assert(stages@ =~= stage_sequence());
        stages
    }
}

/// The stage reached from `start` by following `spec_next` `steps` times, or
/// `None` once the walk has run past the last stage.
pub open spec fn walk(start: WebAssistStage, steps: nat) -> Option<WebAssistStage>
    decreases steps,
{
    if steps == 0 {
        Some(start)
    } else {
        match walk(start, (steps - 1) as nat) {
            Some(stage) => stage.spec_next(),
            None => None,
        }
    }
}

/// Each stage stands in the workflow order at its own position, and its
/// successor is the stage at the next position.
pub proof fn stage_order_is_consistent(k: int)
    requires
        0 <= k < STAGE_COUNT,
    ensures
        stage_sequence().len() == STAGE_COUNT,
        stage_sequence()[k].spec_index() == k,
        k + 1 < STAGE_COUNT ==> stage_sequence()[k].spec_next() == Some(stage_sequence()[k + 1]),
        k + 1 == STAGE_COUNT ==> stage_sequence()[k].spec_next().is_none(),
{
    if k == 0 {
    } else if k == 1 {
    } else if k == 2 {
    } else if k == 3 {
    } else if k == 4 {
    } else if k == 5 {
    } else if k == 6 {
    } else if k == 7 {
    } else {
    }
}

/// The walk of `k` steps from the first stage stands on the stage at
/// position `k`.
pub proof fn walk_reaches(k: nat)
    requires
        k < STAGE_COUNT,
    ensures
        walk(WebAssistStage::InitialReview, k) == Some(stage_sequence()[k as int]),
    decreases k,
{
    if k > 0 {
        walk_reaches((k - 1) as nat);
        stage_order_is_consistent(k - 1);
    }
}

/// Following `next_stage` from the first stage visits every stage exactly
/// once, in order: the walk of `k` steps stands on the stage of position `k`
/// for each `k` below the number of stages, so no stage is met twice and none
/// is skipped; the last stage has no successor, and there the walk ends.
pub proof fn next_stage_visits_every_stage_once()
    ensures
        stage_sequence().len() == STAGE_COUNT,
        forall|k: nat| k < STAGE_COUNT ==> #[trigger] walk(WebAssistStage::InitialReview, k) == Some(
            stage_sequence()[k as int],
        ),
        forall|s: WebAssistStage|
            0 <= #[trigger] s.spec_index() < STAGE_COUNT && walk(
                WebAssistStage::InitialReview,
                s.spec_index() as nat,
            ) == Some(s),
        forall|j: nat, k: nat|
            j < k < STAGE_COUNT ==> #[trigger] walk(WebAssistStage::InitialReview, j) != #[trigger] walk(
                WebAssistStage::InitialReview,
                k,
            ),
        walk(WebAssistStage::InitialReview, (STAGE_COUNT - 1) as nat) == Some(
            WebAssistStage::Delivered,
        ),
        WebAssistStage::Delivered.spec_next().is_none(),
        forall|k: nat| k >= STAGE_COUNT ==> #[trigger] walk(WebAssistStage::InitialReview, k).is_none(),
{
    let first = WebAssistStage::InitialReview;
    assert forall|k: nat| k < STAGE_COUNT implies #[trigger] walk(first, k) == Some(
        stage_sequence()[k as int],
    ) by {
        walk_reaches(k);
    }
    assert forall|s: WebAssistStage|
        0 <= #[trigger] s.spec_index() < STAGE_COUNT && walk(first, s.spec_index() as nat) == Some(
            s,
        ) by {
        walk_reaches(s.spec_index() as nat);
        stage_order_is_consistent(s.spec_index());
        s.is_at_own_position();
    }
    assert forall|j: nat, k: nat| j < k < STAGE_COUNT implies #[trigger] walk(first, j)
        != #[trigger] walk(first, k) by {
        walk_reaches(j);
        walk_reaches(k);
        stage_order_is_consistent(j as int);
        stage_order_is_consistent(k as int);
    }
    walk_reaches(8);
    assert(walk(first, 9).is_none()) by {
        stage_order_is_consistent(8);
        reveal_with_fuel(walk, 2);
    }
    assert forall|k: nat| k >= STAGE_COUNT implies #[trigger] walk(first, k).is_none() by {
        walk_stays_ended(first, 9, k);
    }
}

/// Once a walk has run past the last stage it stays there.
proof fn walk_stays_ended(start: WebAssistStage, from: nat, to: nat)
    requires
        from <= to,
        walk(start, from).is_none(),
    ensures
        walk(start, to).is_none(),
    decreases to,
{
    if from < to {
        walk_stays_ended(start, from, (to - 1) as nat);
    }
}

/// Whether the mirroring of a project to the remote backend is running.
#[derive(Clone, Copy, Debug, PartialEq, Eq, Structural)]
pub enum SyncStatus {
    Active,
    Paused,
    Error,
    Completed,
}

impl SyncStatus {
    /// The name under which the status is stored and sent.
    pub open spec fn spec_name(self) -> Seq<char> {
        match self {
            SyncStatus::Active => "active"@,
            SyncStatus::Paused => "paused"@,
            SyncStatus::Error => "error"@,
            SyncStatus::Completed => "completed"@,
        }
    }

    /// The status that a name stands for, if it is one of the four names.
    pub open spec fn spec_from_name(name: Seq<char>) -> Option<SyncStatus> {
        if name == "active"@ {
            Some(SyncStatus::Active)
        } else if name == "paused"@ {
            Some(SyncStatus::Paused)
        } else if name == "error"@ {
            Some(SyncStatus::Error)
        } else if name == "completed"@ {
            Some(SyncStatus::Completed)
        } else {
            None
        }
    }

    /// Reads a status from its name.
    pub fn from_name(name: &str) -> (status: Option<SyncStatus>)
        ensures
            status == Self::spec_from_name(name@),
    {
        if str_eq(name, "active") {
            Some(SyncStatus::Active)
        } else if str_eq(name, "paused") {
            Some(SyncStatus::Paused)
        } else if str_eq(name, "error") {
            Some(SyncStatus::Error)
        } else if str_eq(name, "completed") {
            Some(SyncStatus::Completed)
        } else {
            None
        }
    }

    /// The name under which the status is stored and sent.
    pub fn as_str(&self) -> (name: &'static str)
        ensures
            name@ == self.spec_name(),
    {
        match self {
            SyncStatus::Active => "active",
            SyncStatus::Paused => "paused",
            SyncStatus::Error => "error",
            SyncStatus::Completed => "completed",
        }
    }
}

/// The state of a client's sign-off.
#[derive(Clone, Copy, Debug, PartialEq, Eq, Structural)]
pub enum ApprovalStatus {
    Pending,
    Approved,
    Rejected,
    ChangesRequested,
}

impl ApprovalStatus {
    /// The name under which the status is stored and sent.
    pub open spec fn spec_name(self) -> Seq<char> {
        match self {
            ApprovalStatus::Pending => "pending"@,
            ApprovalStatus::Approved => "approved"@,
            ApprovalStatus::Rejected => "rejected"@,
            ApprovalStatus::ChangesRequested => "changes_requested"@,
        }
    }

    /// The status that a name stands for, if it is one of the four names.
    pub open spec fn spec_from_name(name: Seq<char>) -> Option<ApprovalStatus> {
        if name == "approved"@ {
            Some(ApprovalStatus::Approved)
        } else if name == "rejected"@ {
            Some(ApprovalStatus::Rejected)
        } else if name == "changes_requested"@ {
            Some(ApprovalStatus::ChangesRequested)
        } else if name == "pending"@ {
            Some(ApprovalStatus::Pending)
        } else {
            None
        }
    }

    /// The name under which the status is stored and sent.
    pub fn as_str(&self) -> (name: &'static str)
        ensures
            name@ == self.spec_name(),
    {
        match self {
            ApprovalStatus::Pending => "pending",
            ApprovalStatus::Approved => "approved",
            ApprovalStatus::Rejected => "rejected",
            ApprovalStatus::ChangesRequested => "changes_requested",
        }
    }

    /// Reads a status from its name.
    pub fn from_name(name: &str) -> (status: Option<ApprovalStatus>)
        ensures
            status == Self::spec_from_name(name@),
    {
        if str_eq(name, "approved") {
            Some(ApprovalStatus::Approved)
        } else if str_eq(name, "rejected") {
            Some(ApprovalStatus::Rejected)
        } else if str_eq(name, "changes_requested") {
            Some(ApprovalStatus::ChangesRequested)
        } else if str_eq(name, "pending") {
            Some(ApprovalStatus::Pending)
        } else {
            None
        }
    }
}

/// The table from stage to local task, fixed when a project is created: one
/// task for each stage, held in workflow order.
#[derive(Clone, Copy, Debug, PartialEq, Eq)]
pub struct StageTaskMapping {
    task_ids: [u128; 9],
}

impl View for StageTaskMapping {
    type V = Seq<u128>;

    closed spec fn view(&self) -> Seq<u128> {
        self.task_ids@
    }
}

impl StageTaskMapping {
    /// The stage whose task has this identifier: the first such stage in
    /// workflow order.
    pub open spec fn spec_stage_of(self, task_id: u128) -> Option<WebAssistStage> {
        match self@.index_of_first(task_id) {
            Some(i) => Some(stage_sequence()[i]),
            None => None,
        }
    }

    /// Every mapping has one entry for each stage.
    pub proof fn has_one_entry_per_stage(self)
        ensures
            self@.len() == STAGE_COUNT,
    {
        broadcast use vstd::array::group_array_axioms;

    }

    /// Builds the table from the task identifiers in workflow order.
    pub fn new(task_ids: [u128; 9]) -> (mapping: StageTaskMapping)
        ensures
            mapping@ == task_ids@,
            mapping@.len() == STAGE_COUNT,
    {
        broadcast use vstd::array::group_array_axioms;

        StageTaskMapping { task_ids }
    }

    /// The task that belongs to a stage.
    pub fn task_for(&self, stage: WebAssistStage) -> (task_id: u128)
        ensures
            self@.len() == STAGE_COUNT,
            task_id == self@[stage.spec_index()],
    {
        broadcast use vstd::array::group_array_axioms;

        self.task_ids[stage.index()]
    }

    /// The stage that a task belongs to, or `None` for a task that the table
    /// does not hold.
    pub fn stage_of(&self, task_id: u128) -> (stage: Option<WebAssistStage>)
        ensures
            stage == self.spec_stage_of(task_id),
            stage matches Some(s) ==> self@[s.spec_index()] == task_id,
            stage.is_none() ==> !self@.contains(task_id),
    {
        broadcast use vstd::array::group_array_axioms;

        proof {
            self@.index_of_first_ensures(task_id);
        }
        let mut i: usize = 0;
        while i < STAGE_COUNT
            invariant
                i <= STAGE_COUNT,
                self@.len() == STAGE_COUNT,
                forall|j: int| 0 <= j < i ==> self@[j] != task_id,
            decreases STAGE_COUNT - i,
        {
            if self.task_ids[i] == task_id {
                proof {
                    self@.index_of_first_ensures(task_id);
                    assert(self@[i as int] == task_id);
                    assert(self@.contains(task_id));
                    let first = self@.index_of_first(task_id).unwrap();
                    assert(self@[first] == task_id);
                    assert(first == i);
                }
                return WebAssistStage::from_index(i);
            }
            i = i + 1;
        }
        None
    }
}

/// The link between a project of the remote backend and the local project
/// that carries out its work.
#[derive(Clone, Copy, Debug, PartialEq, Eq)]
pub struct WebAssistProject {
    pub id: u128,
    /// The project's identifier in the remote backend.
    pub webassist_project_id: u128,
    /// The local project's identifier.
    pub otto_project_id: u128,
    pub current_stage: WebAssistStage,
    pub stage_task_mapping: StageTaskMapping,
    pub sync_status: SyncStatus,
    pub last_synced_at: Option<i64>,
    pub created_at: i64,
    pub updated_at: i64,
}

impl View for WebAssistProject {
    type V = WebAssistProject;

    open spec fn view(&self) -> WebAssistProject {
        *self
    }
}

impl DeepView for WebAssistProject {
    type V = WebAssistProject;

    open spec fn deep_view(&self) -> WebAssistProject {
        *self
    }
}

/// A file or link that a stage has produced.
#[derive(Clone, Debug, PartialEq, Eq)]
pub struct Deliverable {
    pub id: u128,
    pub name: String,
    pub url: String,
    /// "file", "link", or a media type.
    pub kind: String,
    pub size: Option<u64>,
    pub created_at: i64,
}

/// `Deliverable` by the plain values that it holds.
pub struct DeliverableView {
    pub id: u128,
    pub name: Seq<char>,
    pub url: Seq<char>,
    pub kind: Seq<char>,
    pub size: Option<u64>,
    pub created_at: i64,
}

impl View for Deliverable {
    type V = DeliverableView;

    open spec fn view(&self) -> DeliverableView {
        DeliverableView {
            id: self.id,
            name: self.name@,
            url: self.url@,
            kind: self.kind@,
            size: self.size,
            created_at: self.created_at,
        }
    }
}

impl DeepView for Deliverable {
    type V = DeliverableView;

    open spec fn deep_view(&self) -> DeliverableView {
        self@
    }
}

/// A request for a client's sign-off on one stage of one project.
#[derive(Clone, Debug, PartialEq, Eq)]
pub struct WebAssistApproval {
    pub id: u128,
    /// The `id` of the project row that the approval belongs to.
    pub web_assist_project_id: u128,
    pub stage_name: WebAssistStage,
    /// The approval's identifier in the remote backend, once it is known.
    pub approval_id: Option<u128>,
    pub status: ApprovalStatus,
    pub requested_at: i64,
    pub responded_at: Option<i64>,
    pub client_feedback: Option<String>,
    pub preview_url: Option<String>,
    pub deliverables: Vec<Deliverable>,
    pub created_at: i64,
    pub updated_at: i64,
}

/// `WebAssistApproval` by the plain values that it holds.
pub struct ApprovalView {
    pub id: u128,
    pub web_assist_project_id: u128,
    pub stage_name: WebAssistStage,
    pub approval_id: Option<u128>,
    pub status: ApprovalStatus,
    pub requested_at: i64,
    pub responded_at: Option<i64>,
    pub client_feedback: Option<Seq<char>>,
    pub preview_url: Option<Seq<char>>,
    pub deliverables: Seq<DeliverableView>,
    pub created_at: i64,
    pub updated_at: i64,
}

impl View for WebAssistApproval {
    type V = ApprovalView;

    open spec fn view(&self) -> ApprovalView {
        ApprovalView {
            id: self.id,
            web_assist_project_id: self.web_assist_project_id,
            stage_name: self.stage_name,
            approval_id: self.approval_id,
            status: self.status,
            requested_at: self.requested_at,
            responded_at: self.responded_at,
            client_feedback: self.client_feedback.deep_view(),
            preview_url: self.preview_url.deep_view(),
            deliverables: self.deliverables.deep_view(),
            created_at: self.created_at,
            updated_at: self.updated_at,
        }
    }
}

impl DeepView for WebAssistApproval {
    type V = ApprovalView;

    open spec fn deep_view(&self) -> ApprovalView {
        self@
    }
}

impl ApprovalView {
    /// An approval is terminal once a response to it has been recorded.
    pub open spec fn is_terminal(self) -> bool {
        self.responded_at.is_some()
    }

    /// True for an approval of this project and stage that still waits.
    pub open spec fn is_pending_for(self, project_id: u128, stage: WebAssistStage) -> bool {
        self.web_assist_project_id == project_id && self.stage_name == stage && self.status
            == ApprovalStatus::Pending
    }

    /// The approval after a response has been recorded at time `now`.
    pub open spec fn responded(
        self,
        status: ApprovalStatus,
        feedback: Option<Seq<char>>,
        now: i64,
    ) -> ApprovalView {
        ApprovalView {
            status,
            client_feedback: feedback,
            responded_at: Some(now),
            updated_at: now,
            ..self
        }
    }
}

/// What the remote backend sends when a client's project has been created.
#[derive(Clone, Debug, PartialEq, Eq)]
pub struct CreateWebAssistProjectRequest {
    /// The project's identifier in the remote backend.
    pub project_id: u128,
    /// The number people know the project by.
    pub project_number: String,
    pub company_name: String,
    /// Where the remote backend keeps the project's requirements.
    pub wizard_completion_id: u128,
    pub is_rush_delivery: bool,
}

/// `CreateWebAssistProjectRequest` by the plain values that it holds.
pub struct CreateRequestView {
    pub project_id: u128,
    pub project_number: Seq<char>,
    pub company_name: Seq<char>,
    pub wizard_completion_id: u128,
    pub is_rush_delivery: bool,
}

impl View for CreateWebAssistProjectRequest {
    type V = CreateRequestView;

    open spec fn view(&self) -> CreateRequestView {
        CreateRequestView {
            project_id: self.project_id,
            project_number: self.project_number@,
            company_name: self.company_name@,
            wizard_completion_id: self.wizard_completion_id,
            is_rush_delivery: self.is_rush_delivery,
        }
    }
}

/// A decision on an approval, as the team submits it from its own side.
#[derive(Clone, Debug, PartialEq, Eq)]
pub struct ApprovalDecision {
    pub status: ApprovalStatus,
    pub feedback: Option<String>,
}

/// An event that the remote backend has sent: its name and the members of
/// the JSON object that carried it.
#[derive(Clone, Debug, PartialEq, Eq)]
pub struct WebhookEvent {
    /// "project.created", "approval.updated" and so on.
    pub event: String,
    pub data: Vec<(String, JsonField)>,
}

/// `WebhookEvent` by the plain values that it holds.
pub struct WebhookEventView {
    pub event: Seq<char>,
    pub data: JsonMembers,
}

impl View for WebhookEvent {
    type V = WebhookEventView;

    open spec fn view(&self) -> WebhookEventView {
        WebhookEventView { event: self.event@, data: self.data.deep_view() }
    }
}

impl DeepView for WebhookEvent {
    type V = WebhookEventView;

    open spec fn deep_view(&self) -> WebhookEventView {
        self@
    }
}

impl DeepView for CreateWebAssistProjectRequest {
    type V = CreateRequestView;

    open spec fn deep_view(&self) -> CreateRequestView {
        self@
    }
}

} // verus!
