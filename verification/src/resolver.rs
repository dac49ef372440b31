//! The layered lookup of a usable binary: configuration first, then the
//! shell's search path, then the copy installed earlier.

use vstd::prelude::*;
use crate::binary::{BinaryModel, HarperBinary};
use crate::settings::{spec_found, LspSettings, LspSettingsModel};

verus! {

/// What was read from the workspace before resolving.
#[derive(Debug, PartialEq, Eq)]
pub struct Workspace {
    /// The outcome of looking the server's settings up.
    pub settings: Result<LspSettings, String>,
    /// Where the shell's search path has the binary, if anywhere.
    pub binary_on_path: Option<String>,
    /// The shell's environment, in the shell's order.
    pub shell_env: Vec<(String, String)>,
    /// Whether the remembered install, if there is one, is still on disk.
    pub cached_binary_exists: bool,
}

/// What a [`Workspace`] holds.
pub struct WorkspaceModel {
    pub settings: Option<LspSettingsModel>,
    pub binary_on_path: Option<Seq<char>>,
    pub shell_env: Seq<(Seq<char>, Seq<char>)>,
    pub cached_binary_exists: bool,
}

impl View for Workspace {
    type V = WorkspaceModel;

    open spec fn view(&self) -> WorkspaceModel {
        WorkspaceModel {
            settings: spec_found(self.settings),
            binary_on_path: self.binary_on_path.deep_view(),
            shell_env: self.shell_env.deep_view(),
            cached_binary_exists: self.cached_binary_exists,
        }
    }
}

impl WorkspaceModel {
    /// First tier: the configured path as it stands, with the configured
    /// arguments and the shell's environment.
    pub open spec fn from_configuration(self) -> Option<BinaryModel> {
        match self.settings {
            Some(settings) => match settings.configured_binary() {
                Some((path, args)) => Some(BinaryModel { path, args, env: Some(self.shell_env) }),
                None => None,
            },
            None => None,
        }
    }

    /// Second tier: the binary on the search path, with the shell's
    /// environment and no arguments chosen.
    pub open spec fn from_search_path(self) -> Option<BinaryModel> {
        match self.binary_on_path {
            Some(path) => Some(BinaryModel { path, args: None, env: Some(self.shell_env) }),
            None => None,
        }
    }

    /// Third tier: the remembered install, as long as it is still on disk;
    /// it needs neither arguments nor the shell's environment.
    pub open spec fn from_cache(self, cache: Option<Seq<char>>) -> Option<BinaryModel> {
        match cache {
            Some(path) => if self.cached_binary_exists {
                Some(BinaryModel::bare(path))
            } else {
                None
            },
            None => None,
        }
    }

    /// The first tier that yields a binary decides. `None` means that the
    /// binary has to be installed.
    pub open spec fn resolve(self, cache: Option<Seq<char>>) -> Option<BinaryModel> {
        if self.from_configuration().is_some() {
            self.from_configuration()
        } else if self.from_search_path().is_some() {
            self.from_search_path()
        } else {
            self.from_cache(cache)
        }
    }
}

/// Goes through the tiers in order and stops at the first that yields a
/// binary. A settings lookup that failed is passed over like settings
/// without a path. `None` means that the binary has to be installed.
pub fn resolve(workspace: Workspace, cache: &Option<String>) -> (binary: Option<HarperBinary>)
    ensures
        binary.deep_view() == workspace@.resolve(cache.deep_view()),
        workspace@.from_configuration().is_some() ==> binary.deep_view()
            == workspace@.from_configuration(),
{
    let Workspace { settings, binary_on_path, shell_env, cached_binary_exists } = workspace;
    let configured = match settings {
        Ok(settings) => settings.configured_binary(),
        Err(_) => None,
    };
    if let Some((path, args)) = configured {
        return Some(HarperBinary { path, args, env: Some(shell_env) });
    }
    if let Some(path) = binary_on_path {
        return Some(HarperBinary { path, args: None, env: Some(shell_env) });
    }
    if let Some(path) = cache {
        if cached_binary_exists {
            return Some(HarperBinary::bare(path.clone()));
        }
    }
    None
}

} // verus!
