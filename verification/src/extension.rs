//! The extension's own state and its entry points.

use vstd::prelude::*;
use crate::binary::{Command, HarperBinary};
use crate::installer::{HostRequest, HostResponse, Installer, InstallerModel};
use crate::resolver::{resolve, Workspace};
use crate::settings::{default_workspace_configuration, spec_found, LspSettings};

verus! {

/// One instance of the extension. It remembers at most one installed
/// binary, from the installation that last succeeded in this instance.
#[derive(Debug)]
pub struct HarperExtension {
    binary_cache: Option<String>,
}

impl View for HarperExtension {
    type V = Option<Seq<char>>;

    /// The remembered path of the installed binary.
    closed spec fn view(&self) -> Option<Seq<char>> {
        self.binary_cache.deep_view()
    }
}

/// The path that is remembered once an installation has reached `state`:
/// that of the installed binary where it succeeded, else what was remembered
/// before.
pub open spec fn spec_remember(cache: Option<Seq<char>>, state: InstallerModel) -> Option<
    Seq<char>,
> {
    match state {
        InstallerModel::Finished(Ok(installed)) => Some(installed.binary.path),
        _ => cache,
    }
}

impl HarperExtension {
    /// A fresh instance, which remembers nothing.
    pub fn new() -> (extension: HarperExtension)
        ensures
            extension@.is_none(),
    {
        HarperExtension { binary_cache: None }
    }

    /// The remembered path of the installed binary. Whether it is still on
    /// disk is for the caller to find out.
    pub fn cached_binary(&self) -> (path: Option<&String>)
        ensures
            path.deep_view() == self@,
    {
        self.binary_cache.as_ref()
    }

    /// Looks for a usable binary without installing anything: configuration
    /// first, then the search path, then the remembered install. `None`
    /// means that the binary has to be installed.
    pub fn get_binary(&self, workspace: Workspace) -> (binary: Option<HarperBinary>)
        ensures
            binary.deep_view() == workspace@.resolve(self@),
            workspace@.from_configuration().is_some() ==> binary.deep_view()
                == workspace@.from_configuration(),
    {
        resolve(workspace, &self.binary_cache)
    }

    /// Moves an installation one answer further, and remembers the binary's
    /// path where that answer completes it.
    pub fn install_binary(&mut self, installer: Installer, response: HostResponse) -> (after: (
        Installer,
        HostRequest,
    ))
        ensures
            after.0@ == installer@.next(response@),
            after.1@ == after.0@.pending(),
            final(self)@ == spec_remember(old(self)@, after.0@),
    {
        let (state, request) = installer.step(response);
        if let Installer::Finished(Ok(installed)) = &state {
            self.binary_cache = Some(installed.binary.path.clone());
        }
        (state, request)
    }

    /// The command line for a binary that was found without installing, or
    /// `None` where the binary has to be installed.
    pub fn language_server_command(&self, workspace: Workspace) -> (command: Option<Command>)
        ensures
            command.deep_view() == match workspace@.resolve(self@) {
                Some(binary) => Some(binary.command()),
                None => None,
            },
    {
        match self.get_binary(workspace) {
            Some(binary) => Some(binary.into_command()),
            None => None,
        }
    }

    /// Hands on the initialization options from the settings, untouched.
    /// There are none where the lookup failed.
    pub fn language_server_initialization_options(settings: Result<LspSettings, String>) -> (options:
        Option<String>)
        ensures
            options.deep_view() == match spec_found(settings) {
                Some(found) => found.initialization_options,
                None => None,
            },
    {
        match settings {
            Ok(found) => found.initialization_options,
            Err(_) => None,
        }
    }

    /// Hands on the workspace configuration from the settings, or the
    /// default where the settings hold none. There is none where the lookup
    /// failed.
    pub fn language_server_workspace_configuration(settings: Result<LspSettings, String>) -> (configuration:
        Option<String>)
        ensures
            configuration.deep_view() == match spec_found(settings) {
                Some(found) => Some(found.workspace_configuration()),
                None => None,
            },
    {
        match settings {
            Ok(found) => match found.settings {
                Some(configuration) => Some(configuration),
                None => Some(default_workspace_configuration()),
            },
            Err(_) => None,
        }
    }
}

} // verus!
