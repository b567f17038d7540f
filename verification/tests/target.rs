use mobile_ios::target::{
    begin, chosen_target, connected_device_prompt, device_prompt, simulator_prompt, Answer,
    Candidate, ResolveError, ResolvedTarget, Step, TargetKind,
};

fn candidate(id: &str, name: &str, running: bool) -> Candidate {
    Candidate {
        id: id.to_string(),
        name: name.to_string(),
        triple: "aarch64-apple-ios".to_string(),
        running,
    }
}

fn phones() -> Vec<Candidate> {
    vec![
        candidate("1", "Anna's iPhone", true),
        candidate("2", "Office iPad", true),
        candidate("3", "Test iPhone 15", true),
    ]
}

fn resolved(kind: TargetKind, index: usize, candidate: Candidate, start: bool) -> Step {
    Step::Resolved(ResolvedTarget { kind, index, candidate, start })
}

#[test]
fn resolution_begins_with_the_devices() {
    assert_eq!(begin(), Step::ListDevices);
}

#[test]
fn hint_with_an_exact_name_selects_that_device() {
    let step = connected_device_prompt(phones(), Some("Office iPad"));
    assert_eq!(step, resolved(TargetKind::Device, 1, candidate("2", "Office iPad", true), false));
}

#[test]
fn hint_with_a_name_fragment_selects_the_best_match() {
    let step = connected_device_prompt(phones(), Some("ipad"));
    assert_eq!(step, resolved(TargetKind::Device, 1, candidate("2", "Office iPad", true), false));
}

#[test]
fn equal_scores_select_the_device_enumerated_last() {
    let devices = vec![
        candidate("first", "iPhone", true),
        candidate("second", "iPhone", true),
        candidate("other", "iPad", true),
    ];
    let step = connected_device_prompt(devices, Some("iPhone"));
    assert_eq!(step, resolved(TargetKind::Device, 1, candidate("second", "iPhone", true), false));
}

#[test]
fn exact_name_loses_to_a_name_that_scores_higher() {
    let devices = vec![candidate("exact", "ab", true), candidate("longer", "a_b", true)];
    let step = connected_device_prompt(devices.clone(), Some("ab"));
    assert_eq!(step, resolved(TargetKind::Device, 1, candidate("longer", "a_b", true), false));
    let devices = vec![candidate("longer", "a_b", true), candidate("exact", "ab", true)];
    let step = connected_device_prompt(devices, Some("ab"));
    assert_eq!(step, resolved(TargetKind::Device, 0, candidate("longer", "a_b", true), false));
}

#[test]
fn hint_without_a_match_fails_and_does_not_fall_back() {
    let step = connected_device_prompt(phones(), Some("zzz"));
    assert_eq!(step, Step::Failed(ResolveError::NoMatchingTarget));
    let step = device_prompt(Step::ListDevices, Answer::Listed(phones()), Some("zzz"));
    assert_eq!(step, Step::Failed(ResolveError::NoMatchingTarget));
}

#[test]
fn empty_hint_matches_nothing() {
    let step = connected_device_prompt(phones(), Some(""));
    assert_eq!(step, Step::Failed(ResolveError::NoMatchingTarget));
}

#[test]
fn single_device_is_selected_without_a_hint() {
    let step = connected_device_prompt(vec![candidate("1", "Anna's iPhone", true)], None);
    assert_eq!(step, resolved(TargetKind::Device, 0, candidate("1", "Anna's iPhone", true), false));
}

#[test]
fn several_devices_without_a_hint_are_offered_for_choice() {
    let step = connected_device_prompt(phones(), None);
    assert_eq!(step, Step::Choose { kind: TargetKind::Device, candidates: phones() });
}

#[test]
fn chosen_index_selects_the_candidate() {
    let step = chosen_target(TargetKind::Device, phones(), Some(2));
    assert_eq!(step, resolved(TargetKind::Device, 2, candidate("3", "Test iPhone 15", true), false));
    let step = chosen_target(TargetKind::Device, phones(), Some(0));
    assert_eq!(step, resolved(TargetKind::Device, 0, candidate("1", "Anna's iPhone", true), false));
}

#[test]
fn unread_choice_fails_the_prompt() {
    assert_eq!(
        chosen_target(TargetKind::Device, phones(), None),
        Step::Failed(ResolveError::PromptFailed)
    );
}

#[test]
fn choice_out_of_range_fails_the_prompt() {
    assert_eq!(
        chosen_target(TargetKind::Simulator, phones(), Some(3)),
        Step::Failed(ResolveError::PromptFailed)
    );
}

#[test]
fn no_device_falls_back_to_simulators() {
    assert_eq!(connected_device_prompt(vec![], Some("iPhone")), Step::ListSimulators);
    assert_eq!(connected_device_prompt(vec![], None), Step::ListSimulators);
    assert_eq!(device_prompt(begin(), Answer::Listed(vec![]), None), Step::ListSimulators);
}

#[test]
fn simulators_are_matched_like_devices() {
    let simulators = vec![
        candidate("a", "iPhone 15", false),
        candidate("b", "iPhone 15 Pro", false),
        candidate("c", "iPad Air", true),
    ];
    let step = device_prompt(Step::ListSimulators, Answer::Listed(simulators.clone()), Some("ipad"));
    assert_eq!(step, resolved(TargetKind::Simulator, 2, candidate("c", "iPad Air", true), false));
    let step = simulator_prompt(simulators.clone(), Some("zzz"));
    assert_eq!(step, Step::Failed(ResolveError::NoMatchingTarget));
    let step = simulator_prompt(simulators.clone(), None);
    assert_eq!(step, Step::Choose { kind: TargetKind::Simulator, candidates: simulators });
}

#[test]
fn simulator_that_is_not_running_has_to_be_started() {
    let step = simulator_prompt(vec![candidate("a", "iPhone 15", false)], None);
    assert_eq!(step, resolved(TargetKind::Simulator, 0, candidate("a", "iPhone 15", false), true));
    let step = simulator_prompt(vec![candidate("a", "iPhone 15", true)], None);
    assert_eq!(step, resolved(TargetKind::Simulator, 0, candidate("a", "iPhone 15", true), false));
}

#[test]
fn device_is_never_started() {
    let step = connected_device_prompt(vec![candidate("1", "Anna's iPhone", false)], None);
    assert_eq!(step, resolved(TargetKind::Device, 0, candidate("1", "Anna's iPhone", false), false));
}

#[test]
fn no_device_and_no_simulator_is_no_target() {
    let step = device_prompt(begin(), Answer::Listed(vec![]), Some("iPhone"));
    let step = device_prompt(step, Answer::Listed(vec![]), Some("iPhone"));
    assert_eq!(step, Step::Failed(ResolveError::NoTargetAvailable));
    assert_eq!(simulator_prompt(vec![], None), Step::Failed(ResolveError::NoTargetAvailable));
}

#[test]
fn full_resolution_with_a_choice() {
    let step = device_prompt(begin(), Answer::Listed(phones()), None);
    assert_eq!(step, Step::Choose { kind: TargetKind::Device, candidates: phones() });
    let step = device_prompt(step, Answer::Chosen(Some(1)), None);
    assert_eq!(step, resolved(TargetKind::Device, 1, candidate("2", "Office iPad", true), false));
}

#[test]
fn answer_that_was_not_asked_for_changes_nothing() {
    assert_eq!(device_prompt(Step::ListDevices, Answer::Chosen(Some(0)), None), Step::ListDevices);
    assert_eq!(
        device_prompt(Step::ListSimulators, Answer::Chosen(None), None),
        Step::ListSimulators
    );
    let pending = Step::Choose { kind: TargetKind::Device, candidates: phones() };
    assert_eq!(device_prompt(pending.clone(), Answer::Listed(vec![]), None), pending);
}

#[test]
fn ended_resolution_stays_ended() {
    let done = resolved(TargetKind::Device, 0, candidate("1", "Anna's iPhone", true), false);
    assert_eq!(device_prompt(done.clone(), Answer::Listed(phones()), None), done);
    let failed = Step::Failed(ResolveError::PromptFailed);
    assert_eq!(device_prompt(failed.clone(), Answer::Chosen(Some(0)), None), failed);
}
