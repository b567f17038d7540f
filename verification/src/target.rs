//! Resolution of the deployment target: a connected device if there is
//! one, else a simulator; picked by a hint, alone in its list, or chosen by
//! the user.
//!
//! Enumerating the candidates and asking the user are the caller's part.
//! The resolution is a sequence of steps: each step either asks the caller
//! for something or ends the resolution, and `device_prompt` takes the
//! caller's answer to the next step.

use vstd::prelude::*;
use crate::matcher::{
    clears_threshold, lemma_selected, score_names, score_of, scores_of, select_by_score,
    selected_of,
};
use crate::text::texts;

verus! {

/// A device or simulator that an application can be deployed to.
#[derive(Clone, Debug, PartialEq, Eq)]
pub struct Candidate {
    /// The identifier that the platform's tools know it by.
    pub id: String,
    /// The name shown to the user, and matched against a hint.
    pub name: String,
    /// The target triple that is built for it.
    pub triple: String,
    /// Whether it is ready: a device connected, a simulator booted.
    pub running: bool,
}

/// A candidate as the contracts see it.
pub struct CandidateView {
    pub id: Seq<char>,
    pub name: Seq<char>,
    pub triple: Seq<char>,
    pub running: bool,
}

impl View for Candidate {
    type V = CandidateView;

    open spec fn view(&self) -> CandidateView {
        CandidateView {
            id: self.id@,
            name: self.name@,
            triple: self.triple@,
            running: self.running,
        }
    }
}

/// The views of a list of candidates.
pub open spec fn candidate_views(list: Seq<Candidate>) -> Seq<CandidateView> {
    Seq::new(list.len(), |i: int| list[i]@)
}

/// The names of a list of candidates.
pub open spec fn names_of(list: Seq<CandidateView>) -> Seq<Seq<char>> {
    Seq::new(list.len(), |i: int| list[i].name)
}

/// Which enumeration a candidate comes from.
#[derive(Clone, Copy, Debug, PartialEq, Eq, Structural)]
pub enum TargetKind {
    Device,
    Simulator,
}

/// Why no target was resolved.
#[derive(Clone, Copy, Debug, PartialEq, Eq, Structural)]
pub enum ResolveError {
    /// There are candidates, and the hint matches none of them well enough.
    NoMatchingTarget,
    /// There is neither a connected device nor a simulator.
    NoTargetAvailable,
    /// The user's choice could not be read.
    PromptFailed,
}

/// The chosen candidate.
#[derive(Clone, Debug, PartialEq, Eq)]
pub struct ResolvedTarget {
    /// Whether it is a device or a simulator.
    pub kind: TargetKind,
    /// Its position in the enumeration it was taken from.
    pub index: usize,
    /// The candidate, with the triple to build for.
    pub candidate: Candidate,
    /// Whether it has to be started before it is used: a simulator that is
    /// not running yet.
    pub start: bool,
}

/// A resolved target as the contracts see it.
pub struct ResolvedTargetView {
    pub kind: TargetKind,
    pub index: int,
    pub candidate: CandidateView,
    pub start: bool,
}

impl View for ResolvedTarget {
    type V = ResolvedTargetView;

    open spec fn view(&self) -> ResolvedTargetView {
        ResolvedTargetView {
            kind: self.kind,
            index: self.index as int,
            candidate: self.candidate@,
            start: self.start,
        }
    }
}

/// A step of the resolution: a request to the caller, or its end.
#[derive(Clone, Debug, PartialEq, Eq)]
pub enum Step {
    /// Enumerate the connected devices, and answer with the list.
    ListDevices,
    /// Enumerate the simulators, and answer with the list.
    ListSimulators,
    /// Let the user choose one of these candidates, and answer with the
    /// index chosen.
    Choose { kind: TargetKind, candidates: Vec<Candidate> },
    /// The resolution ended with this target.
    Resolved(ResolvedTarget),
    /// The resolution failed.
    Failed(ResolveError),
}

/// A step as the contracts see it.
pub enum StepView {
    ListDevices,
    ListSimulators,
    Choose { kind: TargetKind, candidates: Seq<CandidateView> },
    Resolved(ResolvedTargetView),
    Failed(ResolveError),
}

impl View for Step {
    type V = StepView;

    open spec fn view(&self) -> StepView {
        match *self {
            Step::ListDevices => StepView::ListDevices,
            Step::ListSimulators => StepView::ListSimulators,
            Step::Choose { kind, candidates } => StepView::Choose {
                kind,
                candidates: candidate_views(candidates@),
            },
            Step::Resolved(target) => StepView::Resolved(target@),
            Step::Failed(error) => StepView::Failed(error),
        }
    }
}

/// The caller's answer to a step.
#[derive(Clone, Debug, PartialEq, Eq)]
pub enum Answer {
    /// The candidates enumerated, in the order of their enumeration.
    Listed(Vec<Candidate>),
    /// The index that the user chose, or nothing where the choice could not
    /// be read.
    Chosen(Option<usize>),
}

/// A hint as the contracts see it.
pub open spec fn hint_text(hint: Option<&str>) -> Option<Seq<char>> {
    match hint {
        Some(hint) => Some(hint@),
        None => None,
    }
}

/// Whether there is a hint and it is empty. An empty hint matches nothing.
pub open spec fn is_empty_hint(hint: Option<&str>) -> bool {
    hint matches Some(text) && text@.len() == 0
}

/// The resolution to the candidate at `index`: a simulator that is not
/// running has to be started.
pub open spec fn resolved(
    kind: TargetKind,
    candidates: Seq<CandidateView>,
    index: int,
) -> ResolvedTargetView {
    ResolvedTargetView {
        kind,
        index,
        candidate: candidates[index],
        start: kind == TargetKind::Simulator && !candidates[index].running,
    }
}

/// The step that a list of candidates leads to, where it is not empty.
///
/// With a hint, the candidate with the best score against the hint is
/// resolved, the last of them where several share that score; if the best
/// score does not clear the threshold, the resolution fails. Without a
/// hint, a single candidate is resolved, and of several the user chooses.
pub open spec fn prompt_step(
    kind: TargetKind,
    candidates: Seq<CandidateView>,
    hint: Option<Seq<char>>,
) -> StepView {
    match hint {
        Some(hint) => match selected_of(scores_of(hint, names_of(candidates))) {
            Some(best) => StepView::Resolved(resolved(kind, candidates, best)),
            None => StepView::Failed(ResolveError::NoMatchingTarget),
        },
        None => if candidates.len() == 1 {
            StepView::Resolved(resolved(kind, candidates, 0))
        } else {
            StepView::Choose { kind, candidates }
        },
    }
}

/// The step after the connected devices were enumerated: without any
/// device the simulators are asked for; else the devices decide.
pub open spec fn connected_device_step(
    devices: Seq<CandidateView>,
    hint: Option<Seq<char>>,
) -> StepView {
    if devices.len() == 0 {
        StepView::ListSimulators
    } else {
        prompt_step(TargetKind::Device, devices, hint)
    }
}

/// The step after the simulators were enumerated: without any simulator
/// there is no target; else the simulators decide, by the rules that hold
/// for devices.
pub open spec fn simulator_step(
    simulators: Seq<CandidateView>,
    hint: Option<Seq<char>>,
) -> StepView {
    if simulators.len() == 0 {
        StepView::Failed(ResolveError::NoTargetAvailable)
    } else {
        prompt_step(TargetKind::Simulator, simulators, hint)
    }
}

/// The step after the user was asked to choose: the candidate at the index
/// chosen; a failure where no index was read or it is out of range.
pub open spec fn choice_step(
    kind: TargetKind,
    candidates: Seq<CandidateView>,
    chosen: Option<usize>,
) -> StepView {
    match chosen {
        Some(index) => if index < candidates.len() {
            StepView::Resolved(resolved(kind, candidates, index as int))
        } else {
            StepView::Failed(ResolveError::PromptFailed)
        },
        None => StepView::Failed(ResolveError::PromptFailed),
    }
}

/// An answer as the contracts see it.
pub enum AnswerView {
    Listed(Seq<CandidateView>),
    Chosen(Option<usize>),
}

impl View for Answer {
    type V = AnswerView;

    open spec fn view(&self) -> AnswerView {
        match *self {
            Answer::Listed(list) => AnswerView::Listed(candidate_views(list@)),
            Answer::Chosen(chosen) => AnswerView::Chosen(chosen),
        }
    }
}

/// The step that follows `pending` on `answer`. An answer that the pending
/// step did not ask for changes nothing, and neither does any answer once
/// the resolution has ended.
pub open spec fn next_step(pending: StepView, answer: AnswerView, hint: Option<Seq<char>>) -> StepView {
    match (pending, answer) {
        (StepView::ListDevices, AnswerView::Listed(devices)) => connected_device_step(
            devices,
            hint,
        ),
        (StepView::ListSimulators, AnswerView::Listed(simulators)) => simulator_step(
            simulators,
            hint,
        ),
        (StepView::Choose { kind, candidates }, AnswerView::Chosen(chosen)) => choice_step(
            kind,
            candidates,
            chosen,
        ),
        _ => pending,
    }
}

/// Takes the candidate at `index` out of the list and resolves it.
fn resolve(kind: TargetKind, candidates: Vec<Candidate>, index: usize) -> (target: ResolvedTarget)
    requires
        index < candidates@.len(),
    ensures
        target@ == resolved(kind, candidate_views(candidates@), index as int),
{
    let mut candidates = candidates;
    let candidate = candidates.remove(index);
    let start = match kind {
        TargetKind::Simulator => !candidate.running,
        TargetKind::Device => false,
    };
    ResolvedTarget { kind, index, candidate, start }
}

/// The names of the candidates, for scoring.
fn candidate_names(candidates: &Vec<Candidate>) -> (names: Vec<String>)
    ensures
        texts(names@) == names_of(candidate_views(candidates@)),
{
    let mut names: Vec<String> = Vec::new();
    let mut i: usize = 0;
    while i < candidates.len()
        invariant
            i <= candidates.len(),
            names@.len() == i,
            forall|j: int| 0 <= j < i ==> names@[j]@ == candidates@[j].name@,
        decreases candidates.len() - i,
    {
        names.push(candidates[i].name.clone());
        i = i + 1;
    }
    assert(texts(names@) =~= names_of(candidate_views(candidates@)));
    names
}

/// Decides on a list of candidates that is not empty.
fn prompt(kind: TargetKind, candidates: Vec<Candidate>, target: Option<&str>) -> (step: Step)
    requires
        candidates@.len() > 0,
    ensures
        step@ == prompt_step(kind, candidate_views(candidates@), hint_text(target)),
        is_empty_hint(target) ==> step@ == StepView::Failed(ResolveError::NoMatchingTarget),
{
    match target {
        Some(hint) => {
            let names = candidate_names(&candidates);
            let scores = score_names(hint, &names);
            match select_by_score(&scores) {
                Some(best) => Step::Resolved(resolve(kind, candidates, best)),
                None => Step::Failed(ResolveError::NoMatchingTarget),
            }
        },
        None => {
            if candidates.len() == 1 {
                Step::Resolved(resolve(kind, candidates, 0))
            } else {
                Step::Choose { kind, candidates }
            }
        },
    }
}

/// Decides on the connected devices that were enumerated.
///
/// Without any device the resolution goes on with the simulators. With
/// devices it ends here or with the user's choice: a hint that matches no
/// device well enough fails the resolution, and does not fall back.
pub fn connected_device_prompt(devices: Vec<Candidate>, target: Option<&str>) -> (step: Step)
    ensures
        step@ == connected_device_step(candidate_views(devices@), hint_text(target)),
        devices@.len() > 0 && is_empty_hint(target) ==> step@ == StepView::Failed(
            ResolveError::NoMatchingTarget,
        ),
{
    if devices.len() == 0 {
        Step::ListSimulators
    } else {
        prompt(TargetKind::Device, devices, target)
    }
}

/// Decides on the simulators that were enumerated, by the rules that hold
/// for devices; without any simulator there is no target.
pub fn simulator_prompt(simulators: Vec<Candidate>, target: Option<&str>) -> (step: Step)
    ensures
        step@ == simulator_step(candidate_views(simulators@), hint_text(target)),
        simulators@.len() > 0 && is_empty_hint(target) ==> step@ == StepView::Failed(
            ResolveError::NoMatchingTarget,
        ),
{
    if simulators.len() == 0 {
        Step::Failed(ResolveError::NoTargetAvailable)
    } else {
        prompt(TargetKind::Simulator, simulators, target)
    }
}

/// Resolves the user's choice among the candidates shown.
pub fn chosen_target(kind: TargetKind, candidates: Vec<Candidate>, chosen: Option<usize>) -> (step:
    Step)
    ensures
        step@ == choice_step(kind, candidate_views(candidates@), chosen),
{
    match chosen {
        Some(index) => {
            if index < candidates.len() {
                Step::Resolved(resolve(kind, candidates, index))
            } else {
                Step::Failed(ResolveError::PromptFailed)
            }
        },
        None => Step::Failed(ResolveError::PromptFailed),
    }
}

/// The first step of a resolution: the connected devices are asked for.
pub fn begin() -> (step: Step)
    ensures
        step@ == StepView::ListDevices,
{
    Step::ListDevices
}

/// Takes the caller's answer to the pending step, and gives the next step.
pub fn device_prompt(pending: Step, answer: Answer, target: Option<&str>) -> (step: Step)
    ensures
        step@ == next_step(pending@, answer@, hint_text(target)),
{
    match pending {
        Step::ListDevices => match answer {
            Answer::Listed(devices) => connected_device_prompt(devices, target),
            Answer::Chosen(_) => Step::ListDevices,
        },
        Step::ListSimulators => match answer {
            Answer::Listed(simulators) => simulator_prompt(simulators, target),
            Answer::Chosen(_) => Step::ListSimulators,
        },
        Step::Choose { kind, candidates } => match answer {
            Answer::Chosen(chosen) => chosen_target(kind, candidates, chosen),
            Answer::Listed(_) => Step::Choose { kind, candidates },
        },
        Step::Resolved(resolved) => Step::Resolved(resolved),
        Step::Failed(error) => Step::Failed(error),
    }
}

/// A hint that is the exact name of a connected device resolves to a device
/// that scores as that name does, and to the last of them where several
/// do: to the device of that name itself, where every device after it
/// scores lower.
///
/// This holds where the matcher ranks the hint against itself above the
/// threshold, and no other name above it.
pub proof fn lemma_exact_name_is_selected(devices: Seq<CandidateView>, hint: Seq<char>, exact: int)
    requires
        0 <= exact < devices.len(),
        devices[exact].name == hint,
        clears_threshold(score_of(hint, hint)),
        forall|j: int|
            0 <= j < devices.len() ==> score_of(hint, #[trigger] devices[j].name) <= score_of(
                hint,
                hint,
            ),
    ensures
        connected_device_step(devices, Some(hint)) matches StepView::Resolved(target) && target
            == resolved(TargetKind::Device, devices, target.index) && exact <= target.index
            < devices.len() && score_of(hint, target.candidate.name) == score_of(hint, hint),
        connected_device_step(devices, Some(hint)) matches StepView::Resolved(target)
            ==> forall|j: int|
            target.index < j < devices.len() ==> score_of(hint, #[trigger] devices[j].name)
                < score_of(hint, hint),
        (forall|j: int|
            exact < j < devices.len() ==> score_of(hint, #[trigger] devices[j].name) < score_of(
                hint,
                hint,
            )) ==> connected_device_step(devices, Some(hint)) == StepView::Resolved(
            resolved(TargetKind::Device, devices, exact),
        ),
{
    let scores = scores_of(hint, names_of(devices));
    lemma_selected(scores);
    assert(clears_threshold(scores[exact]));
    let last = selected_of(scores).unwrap();
    assert(scores[exact] <= scores[last]);
    assert(scores[last] == score_of(hint, devices[last].name));
    assert forall|j: int| last < j < devices.len() implies score_of(
        hint,
        #[trigger] devices[j].name,
    ) < score_of(hint, hint) by {
        assert(scores[j] < scores[last]);
    }
    if last < exact {
        assert(scores[exact] < scores[last]);
    }
    if last > exact {
        assert(scores[last] == score_of(hint, devices[last].name));
    }
}

/// A hint that no connected device matches above the threshold fails the
/// resolution: the simulators are not asked for.
pub proof fn lemma_unmatched_hint_fails(devices: Seq<CandidateView>, hint: Seq<char>)
    requires
        devices.len() > 0,
        forall|j: int|
            0 <= j < devices.len() ==> !clears_threshold(
                score_of(hint, #[trigger] devices[j].name),
            ),
    ensures
        connected_device_step(devices, Some(hint)) == StepView::Failed(
            ResolveError::NoMatchingTarget,
        ),
        next_step(StepView::ListDevices, AnswerView::Listed(devices), Some(hint))
            != StepView::ListSimulators,
{
    let scores = scores_of(hint, names_of(devices));
    lemma_selected(scores);
    assert forall|j: int| 0 <= j < scores.len() implies !clears_threshold(#[trigger] scores[j]) by {
        assert(scores[j] == score_of(hint, devices[j].name));
    }
}

/// Without a connected device the resolution goes on with the simulators,
/// and a list of simulators that is not empty is decided by the rules that
/// decide a list of devices: the same candidate is resolved, the same
/// candidates are offered for choice, or the resolution fails alike.
pub proof fn lemma_simulator_fallback(simulators: Seq<CandidateView>, hint: Option<Seq<char>>)
    requires
        simulators.len() > 0,
    ensures
        next_step(StepView::ListDevices, AnswerView::Listed(Seq::empty()), hint)
            == StepView::ListSimulators,
        next_step(StepView::ListSimulators, AnswerView::Listed(simulators), hint) == prompt_step(
            TargetKind::Simulator,
            simulators,
            hint,
        ),
        next_step(StepView::ListDevices, AnswerView::Listed(simulators), hint) == prompt_step(
            TargetKind::Device,
            simulators,
            hint,
        ),
        same_decision(
            prompt_step(TargetKind::Device, simulators, hint),
            prompt_step(TargetKind::Simulator, simulators, hint),
        ),
{
}

/// Two steps decide alike: they resolve the same candidate, offer the same
/// candidates for choice, or fail with the same error.
pub open spec fn same_decision(left: StepView, right: StepView) -> bool {
    match (left, right) {
        (StepView::Resolved(a), StepView::Resolved(b)) => a.index == b.index && a.candidate
            == b.candidate,
        (StepView::Choose { candidates: a, .. }, StepView::Choose { candidates: b, .. }) => a == b,
        (StepView::Failed(a), StepView::Failed(b)) => a == b,
        _ => false,
    }
}

/// With neither a connected device nor a simulator the resolution fails:
/// no target is available.
pub proof fn lemma_no_target_available(hint: Option<Seq<char>>)
    ensures
        next_step(
            next_step(StepView::ListDevices, AnswerView::Listed(Seq::empty()), hint),
            AnswerView::Listed(Seq::empty()),
            hint,
        ) == StepView::Failed(ResolveError::NoTargetAvailable),
{
}

} // verus!
