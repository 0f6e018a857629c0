use kopuz::plugin_auth::{begin, cancel, finish_step, submit, StepOutcome, WizardPrompt, WizardState};

#[test]
fn the_wizard_opens_busy_and_connecting() {
    let state: WizardState<u8> = begin("p".to_string(), "Plugin".to_string());
    assert!(state.busy);
    assert!(matches!(state.prompt, WizardPrompt::Connecting));
}

#[test]
fn steps_show_the_next_prompt_or_close() {
    let mut state = Some(begin::<u8>("p".to_string(), "Plugin".to_string()));
    assert!(!finish_step(&mut state, "p".to_string(), "Plugin".to_string(), StepOutcome::Prompt(7)));
    let s = state.as_ref().expect("open");
    assert!(!s.busy);
    assert!(matches!(s.prompt, WizardPrompt::Plugin(7)));
    assert!(submit(&mut state));
    assert!(state.as_ref().expect("open").busy);
    assert!(!finish_step(&mut state, "p".to_string(), "Plugin".to_string(), StepOutcome::Transport("down".to_string())));
    assert!(matches!(&state.as_ref().expect("open").prompt, WizardPrompt::Failed(m) if m == "down"));
    assert!(finish_step(&mut state, "p".to_string(), "Plugin".to_string(), StepOutcome::Done));
    assert!(state.is_none());
    assert!(!submit(&mut state));
}

#[test]
fn cancelling_names_the_plugin_to_tell() {
    let mut state = Some(begin::<u8>("p".to_string(), "Plugin".to_string()));
    assert_eq!(cancel(&mut state), Some("p".to_string()));
    assert_eq!(cancel(&mut state), None);
}
