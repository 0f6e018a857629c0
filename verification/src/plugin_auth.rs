//! A plugin's own sign-in wizard as the settings page holds it: every
//! prompt comes from the plugin; the page only tracks which plugin it talks
//! to, what it last asked, and whether an answer is pending.

use vstd::prelude::*;

verus! {

/// What the wizard shows. `P` is the plugin's own prompt.
#[derive(Clone, Debug)]
pub enum WizardPrompt<P> {
    /// Waiting for the plugin's first prompt.
    Connecting,
    /// A prompt of the plugin.
    Plugin(P),
    /// The step failed with this message, the plugin's or the transport's.
    Failed(String),
}

/// One step of the wizard.
#[derive(Clone, Debug)]
pub struct WizardState<P> {
    pub plugin_id: String,
    pub plugin_name: String,
    pub prompt: WizardPrompt<P>,
    /// The plugin is working on the last submission.
    pub busy: bool,
}

/// How a wizard call came back.
#[derive(Clone, Debug)]
pub enum StepOutcome<P> {
    /// The plugin is signed in.
    Done,
    /// The plugin failed the step with this message.
    PluginFailed(String),
    /// The plugin asks for something else.
    Prompt(P),
    /// The call itself failed.
    Transport(String),
}

/// Opens (or restarts) the wizard for a plugin: connecting, and busy.
pub fn begin<P>(plugin_id: String, plugin_name: String) -> (res: WizardState<P>)
    ensures
        res.plugin_id == plugin_id,
        res.plugin_name == plugin_name,
        res.prompt is Connecting,
        res.busy,
{
    WizardState { plugin_id, plugin_name, prompt: WizardPrompt::Connecting, busy: true }
}

/// Marks the open wizard busy while the plugin works on a submission; with
/// no wizard open there is nothing to submit (`false`).
pub fn submit<P>(state: &mut Option<WizardState<P>>) -> (submitted: bool)
    ensures
        submitted == (*old(state) is Some),
        match *old(state) {
            Some(s) => *final(state) == Some(WizardState { busy: true, ..s }),
            None => *final(state) is None,
        },
{
    match state.take() {
        Some(s) => {
            *state = Some(WizardState { busy: true, ..s });
            true
        },
        None => false,
    }
}

/// Closes the wizard; returns the plugin to tell, if one was open.
pub fn cancel<P>(state: &mut Option<WizardState<P>>) -> (res: Option<String>)
    ensures
        *final(state) is None,
        match *old(state) {
            Some(s) => res == Some(s.plugin_id),
            None => res is None,
        },
{
    match state.take() {
        Some(s) => Some(s.plugin_id),
        None => None,
    }
}

/// Applies a step's outcome: success closes the wizard (and the caller
/// clears the error and starts a sync, `true`); anything else shows the
/// next prompt, a failure of the transport shown as the plugin's own
/// failure would be, and the wizard is no longer busy.
pub fn finish_step<P>(
    state: &mut Option<WizardState<P>>,
    plugin_id: String,
    plugin_name: String,
    outcome: StepOutcome<P>,
) -> (signed_in: bool)
    ensures
        signed_in == (outcome is Done),
        outcome is Done ==> *final(state) is None,
        !(outcome is Done) ==> (*final(state) matches Some(s) && s.plugin_id == plugin_id && s.plugin_name
            == plugin_name && !s.busy && match outcome {
            StepOutcome::Prompt(p) => s.prompt == WizardPrompt::Plugin(p),
            StepOutcome::PluginFailed(m) => s.prompt == WizardPrompt::<P>::Failed(m),
            StepOutcome::Transport(m) => s.prompt == WizardPrompt::<P>::Failed(m),
            StepOutcome::Done => true,
        }),
{
    let prompt = match outcome {
        StepOutcome::Done => {
            *state = None;
            return true;
        },
        StepOutcome::Prompt(p) => WizardPrompt::Plugin(p),
        StepOutcome::PluginFailed(m) => WizardPrompt::Failed(m),
        StepOutcome::Transport(m) => WizardPrompt::Failed(m),
    };
    *state = Some(WizardState { plugin_id, plugin_name, prompt, busy: false });
    false
}

} // verus!
