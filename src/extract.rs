//! Extraction tasks and the checks on their options.

use vstd::prelude::*;

use crate::text::same_text;

verus! {

/// What to extract from a datasheet.
#[derive(Debug, Clone, Copy, PartialEq, Eq, Structural)]
pub enum ExtractTask {
    BootConfig,
    Characteristics,
    Custom,
    DrcRules,
    FeatureMatrix,
    Footprint,
    HighSpeed,
    LayoutConstraints,
    Pinout,
    Power,
    ReferenceDesign,
}

/// The model used when none is named.
pub open spec fn default_model_name() -> Seq<char> {
    "gemini-3-pro-preview"@
}

/// The value of the model option that asks for the task's default.
pub open spec fn default_marker() -> Seq<char> {
    "__DEFAULT__"@
}

impl ExtractTask {
    /// The model a task uses by default.
    pub fn default_model(self) -> (r: &'static str)
        ensures
            r@ == default_model_name(),
    {
        "gemini-3-pro-preview"
    }
}

/// The value of the model option that asks for the task's default.
pub fn default_marker_text() -> (r: &'static str)
    ensures
        r@ == default_marker(),
{
    "__DEFAULT__"
}

/// Why the options of an extraction were refused.
#[derive(Debug, Clone, Copy, PartialEq, Eq, Structural)]
pub enum OptionError {
    /// A prompt override was given for a task other than `custom`.
    PromptNeedsCustom,
    /// A schema override was given for a task other than `custom`.
    SchemaNeedsCustom,
}

/// Prompt and schema overrides are only for the `custom` task; a prompt
/// override is reported before a schema override.
pub fn check_overrides(task: ExtractTask, has_prompt: bool, has_schema: bool) -> (r: Result<(), OptionError>)
    ensures
        r is Ok <==> (task == ExtractTask::Custom || (!has_prompt && !has_schema)),
        r == Err::<(), OptionError>(OptionError::PromptNeedsCustom) <==> (task != ExtractTask::Custom && has_prompt),
        r == Err::<(), OptionError>(OptionError::SchemaNeedsCustom) <==> (task != ExtractTask::Custom && !has_prompt
            && has_schema),
{
    if task != ExtractTask::Custom {
        if has_prompt {
            return Err(OptionError::PromptNeedsCustom);
        }
        if has_schema {
            return Err(OptionError::SchemaNeedsCustom);
        }
    }
    Ok(())
}

/// The model to use: the one asked for, or the task's default where the
/// option holds the default marker.
pub fn choose_model(task: ExtractTask, requested: &str) -> (r: String)
    ensures
        r@ == if requested@ == default_marker() {
            default_model_name()
        } else {
            requested@
        },
{
    if same_text(requested, default_marker_text()) {
        task.default_model().to_owned()
    } else {
        requested.to_owned()
    }
}

} // verus!
