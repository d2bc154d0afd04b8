use pack_overlay::hints::{minecraft_dir_hint, pictures_dir_hint, Platform};
use pack_overlay::manifest::pack_manifest;
use pack_overlay::pipeline::{step, Phase, RunAction, RunEvent};

fn run(events: &[RunEvent]) -> (Phase, Vec<RunAction>) {
    let mut phase = Phase::Start;
    let mut actions = Vec::new();
    for &e in events {
        let (next, action) = step(phase, e);
        phase = next;
        actions.push(action);
    }
    (phase, actions)
}

fn touches_filesystem(a: RunAction) -> bool {
    matches!(
        a,
        RunAction::ExtractArchive
            | RunAction::WriteManifest
            | RunAction::OverlayTextures
            | RunAction::RemoveWorkingTree
    )
}

#[test]
fn cancel_at_first_prompt_touches_nothing() {
    let (phase, actions) = run(&[RunEvent::Advance, RunEvent::Cancelled]);
    assert_eq!(phase, Phase::Aborted);
    assert!(actions.iter().all(|&a| !touches_filesystem(a)));
}

#[test]
fn cancel_at_second_prompt_touches_nothing() {
    let (phase, actions) = run(&[
        RunEvent::Advance,
        RunEvent::FileChosen,
        RunEvent::Advance,
        RunEvent::Cancelled,
    ]);
    assert_eq!(phase, Phase::Aborted);
    assert!(actions.iter().all(|&a| !touches_filesystem(a)));
}

#[test]
fn successful_run_removes_working_tree() {
    let (phase, actions) = run(&[
        RunEvent::Advance,
        RunEvent::FileChosen,
        RunEvent::Advance,
        RunEvent::FileChosen,
        RunEvent::Advance,
        RunEvent::StepSucceeded,
        RunEvent::StepSucceeded,
        RunEvent::StepSucceeded,
        RunEvent::StepSucceeded,
    ]);
    assert_eq!(phase, Phase::Done);
    assert!(actions.contains(&RunAction::RemoveWorkingTree));
    assert_eq!(actions.last(), Some(&RunAction::AnnounceDone));
}

#[test]
fn failed_overlay_still_removes_working_tree() {
    let (phase, actions) = run(&[
        RunEvent::Advance,
        RunEvent::FileChosen,
        RunEvent::Advance,
        RunEvent::FileChosen,
        RunEvent::Advance,
        RunEvent::StepSucceeded,
        RunEvent::StepSucceeded,
        RunEvent::StepFailed,
    ]);
    assert_eq!(phase, Phase::Failed);
    assert!(actions.contains(&RunAction::RemoveWorkingTree));
}

#[test]
fn terminal_phases_ignore_events() {
    let (phase, actions) = run(&[RunEvent::Advance, RunEvent::Cancelled, RunEvent::Advance]);
    assert_eq!(phase, Phase::Aborted);
    assert_eq!(actions.last(), Some(&RunAction::DoNothing));
}

#[test]
fn manifest_is_the_fixed_text() {
    let expected = "{\n    \"pack\": {\n        \"pack_format\": 7,\n        \"description\": \"Automatically generated pack\"\n    }\n}";
    assert_eq!(pack_manifest(), expected);
}

#[test]
fn minecraft_hint_per_platform() {
    let config = b"C:\\Users\\someone\\AppData\\Roaming".to_vec();
    let home = b"/home/someone".to_vec();

    let hint = minecraft_dir_hint(Platform::Windows, Some(config.clone()), None);
    assert_eq!(
        hint,
        b"C:\\Users\\someone\\AppData\\Roaming\\.minecraft\\versions".to_vec()
    );

    let hint = minecraft_dir_hint(Platform::Linux, None, Some(home.clone()));
    assert_eq!(hint, b"/home/someone/.minecraft/versions".to_vec());

    let hint = minecraft_dir_hint(Platform::MacOs, Some(b"/Users/someone/Library".to_vec()), None);
    assert_eq!(hint, b"/Users/someone/Library/minecraft/versions".to_vec());

    assert_eq!(minecraft_dir_hint(Platform::Other, Some(config), Some(home)), Vec::<u8>::new());
    assert_eq!(minecraft_dir_hint(Platform::Windows, None, None), Vec::<u8>::new());
    assert_eq!(minecraft_dir_hint(Platform::Linux, None, None), Vec::<u8>::new());
}

#[test]
fn pictures_hint_falls_back_to_empty() {
    assert_eq!(pictures_dir_hint(Some(b"/home/someone/Pictures".to_vec())), b"/home/someone/Pictures".to_vec());
    assert_eq!(pictures_dir_hint(None), Vec::<u8>::new());
}
