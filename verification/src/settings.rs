//! What the workspace's settings say about the language server.

use vstd::prelude::*;

verus! {

/// The configured binary: a path and the arguments to pass to it.
#[derive(Clone, Debug, PartialEq, Eq)]
pub struct CommandSettings {
    pub path: Option<String>,
    pub arguments: Option<Vec<String>>,
}

/// The settings of one language server. The two payloads are JSON text that
/// is handed on as it came.
#[derive(Clone, Debug, PartialEq, Eq)]
pub struct LspSettings {
    pub binary: Option<CommandSettings>,
    pub initialization_options: Option<String>,
    pub settings: Option<String>,
}

/// What a [`CommandSettings`] holds.
pub struct CommandSettingsModel {
    pub path: Option<Seq<char>>,
    pub arguments: Option<Seq<Seq<char>>>,
}

/// What an [`LspSettings`] holds.
pub struct LspSettingsModel {
    pub binary: Option<CommandSettingsModel>,
    pub initialization_options: Option<Seq<char>>,
    pub settings: Option<Seq<char>>,
}

impl View for CommandSettings {
    type V = CommandSettingsModel;

    open spec fn view(&self) -> CommandSettingsModel {
        CommandSettingsModel { path: self.path.deep_view(), arguments: self.arguments.deep_view() }
    }
}

impl DeepView for CommandSettings {
    type V = CommandSettingsModel;

    open spec fn deep_view(&self) -> CommandSettingsModel {
        self@
    }
}

impl View for LspSettings {
    type V = LspSettingsModel;

    open spec fn view(&self) -> LspSettingsModel {
        LspSettingsModel {
            binary: self.binary.deep_view(),
            initialization_options: self.initialization_options.deep_view(),
            settings: self.settings.deep_view(),
        }
    }
}

/// The settings that a lookup gave. A lookup that failed counts as one that
/// found nothing, whatever its cause.
pub open spec fn spec_found(lookup: Result<LspSettings, String>) -> Option<LspSettingsModel> {
    match lookup {
        Ok(settings) => Some(settings@),
        Err(_) => None,
    }
}

impl LspSettingsModel {
    /// The explicitly configured binary: its path, with the arguments
    /// configured beside it. There is none without a path.
    pub open spec fn configured_binary(self) -> Option<(Seq<char>, Option<Seq<Seq<char>>>)> {
        match self.binary {
            Some(binary) => match binary.path {
                Some(path) => Some((path, binary.arguments)),
                None => None,
            },
            None => None,
        }
    }

    /// The workspace configuration handed to the language server: the
    /// configured payload, or else an object that holds an empty object
    /// under the server's name.
    pub open spec fn workspace_configuration(self) -> Seq<char> {
        match self.settings {
            Some(settings) => settings,
            None => spec_default_workspace_configuration(),
        }
    }
}

/// The JSON text of an object whose one member, named after the server, is
/// an empty object.
pub open spec fn spec_default_workspace_configuration() -> Seq<char> {
    "{\"harper-ls\":{}}"@
}

pub fn default_workspace_configuration() -> (text: String)
    ensures
        text@ == spec_default_workspace_configuration(),
{
    "{\"harper-ls\":{}}".to_owned()
}

impl LspSettings {
    /// Takes the explicitly configured binary out of the settings.
    pub fn configured_binary(self) -> (binary: Option<(String, Option<Vec<String>>)>)
        ensures
            binary.deep_view() == self@.configured_binary(),
    {
        match self.binary {
            Some(CommandSettings { path: Some(path), arguments }) => Some((path, arguments)),
            _ => None,
        }
    }
}

} // verus!
