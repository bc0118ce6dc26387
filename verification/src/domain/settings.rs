//! What a learner has configured.

use vstd::prelude::*;
use vstd::string::StringExecFns;
use crate::domain::error::KeikakuError;

verus! {

/// What the settings of a language model hold.
pub enum LlmSettingsView {
    Disabled,
    OpenAi { model: Seq<char>, base_url: Seq<char>, env_var_name: Seq<char> },
    Gemini { model: Seq<char> },
}

/// Which language model writes definitions and examples, if any.
#[derive(Debug, PartialEq, Eq)]
pub enum LlmSettings {
    /// No model is configured.
    Disabled,
    /// A service that speaks the OpenAI protocol; the key is read from the
    /// environment variable named here.
    OpenAi { model: String, base_url: String, env_var_name: String },
    /// Google's Gemini.
    Gemini { model: String },
}

impl View for LlmSettings {
    type V = LlmSettingsView;

    open spec fn view(&self) -> LlmSettingsView {
        match self {
            LlmSettings::Disabled => LlmSettingsView::Disabled,
            LlmSettings::OpenAi { model, base_url, env_var_name } => LlmSettingsView::OpenAi {
                model: model@,
                base_url: base_url@,
                env_var_name: env_var_name@,
            },
            LlmSettings::Gemini { model } => LlmSettingsView::Gemini { model: model@ },
        }
    }
}

impl Clone for LlmSettings {
    fn clone(&self) -> (copy: LlmSettings)
        ensures
            copy@ == self@,
    {
        match self {
            LlmSettings::Disabled => LlmSettings::Disabled,
            LlmSettings::OpenAi { model, base_url, env_var_name } => LlmSettings::OpenAi {
                model: model.clone(),
                base_url: base_url.clone(),
                env_var_name: env_var_name.clone(),
            },
            LlmSettings::Gemini { model } => LlmSettings::Gemini { model: model.clone() },
        }
    }
}

impl LlmSettings {
    /// Whether a model is configured.
    pub fn is_configured(&self) -> (configured: bool)
        ensures
            configured == !(self@ is Disabled),
    {
        match self {
            LlmSettings::Disabled => false,
            _ => true,
        }
    }

    /// Refuses, with `InvalidValues`, to generate text when no model is
    /// configured.
    pub fn ensure_configured(&self) -> (checked: Result<(), KeikakuError>)
        ensures
            self@ is Disabled ==> (checked matches Err(KeikakuError::InvalidValues { reason })
                && reason@ == "Please set LLM settings in your profile"@),
            !(self@ is Disabled) ==> checked is Ok,
    {
        match self {
            LlmSettings::Disabled => Err(
                KeikakuError::InvalidValues {
                    reason: String::from_str("Please set LLM settings in your profile"),
                },
            ),
            _ => Ok(()),
        }
    }
}

/// The settings of one learner.
#[derive(Debug, PartialEq, Eq)]
pub struct UserSettings {
    llm: LlmSettings,
}

impl View for UserSettings {
    type V = LlmSettingsView;

    closed spec fn view(&self) -> LlmSettingsView {
        self.llm@
    }
}

impl Clone for UserSettings {
    fn clone(&self) -> (copy: UserSettings)
        ensures
            copy@ == self@,
    {
        UserSettings { llm: self.llm.clone() }
    }
}

impl UserSettings {
    /// The settings of a learner who has configured nothing.
    pub fn empty() -> (settings: UserSettings)
        ensures
            settings@ is Disabled,
    {
        UserSettings { llm: LlmSettings::Disabled }
    }

    pub fn new(llm: LlmSettings) -> (settings: UserSettings)
        ensures
            settings@ == llm@,
    {
        UserSettings { llm }
    }

    pub fn llm(&self) -> (llm: &LlmSettings)
        ensures
            llm@ == self@,
    {
        &self.llm
    }

    /// Replaces the language model settings.
    pub fn set_llm(&mut self, llm: LlmSettings)
        ensures
            final(self)@ == llm@,
    {
        self.llm = llm;
    }
}

} // verus!
