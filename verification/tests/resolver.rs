use harper_zed::binary::{Command, HarperBinary};
use harper_zed::extension::HarperExtension;
use harper_zed::resolver::{resolve, Workspace};
use harper_zed::settings::{default_workspace_configuration, CommandSettings, LspSettings};

fn shell_env() -> Vec<(String, String)> {
    vec![
        ("PATH".to_string(), "/usr/bin:/bin".to_string()),
        ("HOME".to_string(), "/home/me".to_string()),
    ]
}

fn settings(path: Option<&str>, arguments: Option<Vec<&str>>) -> LspSettings {
    LspSettings {
        binary: Some(CommandSettings {
            path: path.map(|p| p.to_string()),
            arguments: arguments.map(|a| a.iter().map(|s| s.to_string()).collect()),
        }),
        initialization_options: None,
        settings: None,
    }
}

fn bare_settings() -> LspSettings {
    LspSettings { binary: None, initialization_options: None, settings: None }
}

fn workspace(
    settings: Result<LspSettings, String>,
    on_path: Option<&str>,
    cached_exists: bool,
) -> Workspace {
    Workspace {
        settings,
        binary_on_path: on_path.map(|p| p.to_string()),
        shell_env: shell_env(),
        cached_binary_exists: cached_exists,
    }
}

#[test]
fn configured_path_wins_over_everything() {
    let ws = workspace(
        Ok(settings(Some("/opt/custom/harper-ls"), Some(vec!["--stdio", "--verbose"]))),
        Some("/usr/bin/harper-ls"),
        true,
    );
    let cache = Some("harper-ls-v1.0.0/harper-ls".to_string());
    assert_eq!(
        resolve(ws, &cache),
        Some(HarperBinary {
            path: "/opt/custom/harper-ls".to_string(),
            args: Some(vec!["--stdio".to_string(), "--verbose".to_string()]),
            env: Some(shell_env()),
        })
    );
}

#[test]
fn configured_path_without_arguments() {
    let ws = workspace(Ok(settings(Some("/usr/local/bin/harper-ls"), None)), None, false);
    let found = resolve(ws, &None).unwrap();
    assert_eq!(
        found,
        HarperBinary {
            path: "/usr/local/bin/harper-ls".to_string(),
            args: None,
            env: Some(shell_env()),
        }
    );
    assert_eq!(
        found.into_command(),
        Command {
            command: "/usr/local/bin/harper-ls".to_string(),
            args: vec!["--stdio".to_string()],
            env: shell_env(),
        }
    );
}

#[test]
fn configured_path_is_taken_verbatim() {
    let ws = workspace(Ok(settings(Some("harper-ls"), Some(vec![]))), None, false);
    assert_eq!(
        resolve(ws, &None),
        Some(HarperBinary {
            path: "harper-ls".to_string(),
            args: Some(Vec::new()),
            env: Some(shell_env()),
        })
    );
}

#[test]
fn arguments_without_path_are_not_a_configuration() {
    let ws = workspace(Ok(settings(None, Some(vec!["--x"]))), Some("/usr/bin/harper-ls"), false);
    assert_eq!(
        resolve(ws, &None),
        Some(HarperBinary {
            path: "/usr/bin/harper-ls".to_string(),
            args: None,
            env: Some(shell_env()),
        })
    );
}

#[test]
fn search_path_wins_over_cache() {
    let ws = workspace(Ok(bare_settings()), Some("/usr/bin/harper-ls"), true);
    let cache = Some("harper-ls-v1.0.0/harper-ls".to_string());
    assert_eq!(
        resolve(ws, &cache),
        Some(HarperBinary {
            path: "/usr/bin/harper-ls".to_string(),
            args: None,
            env: Some(shell_env()),
        })
    );
}

#[test]
fn failed_lookup_falls_through_to_search_path() {
    let ws = workspace(Err("settings are malformed".to_string()), Some("/usr/bin/harper-ls"), false);
    assert_eq!(
        resolve(ws, &None),
        Some(HarperBinary {
            path: "/usr/bin/harper-ls".to_string(),
            args: None,
            env: Some(shell_env()),
        })
    );
}

#[test]
fn failed_lookup_falls_through_to_cache() {
    let ws = workspace(Err("no settings".to_string()), None, true);
    let cache = Some("harper-ls-v1.0.0/harper-ls".to_string());
    assert_eq!(
        resolve(ws, &cache),
        Some(HarperBinary { path: "harper-ls-v1.0.0/harper-ls".to_string(), args: None, env: None })
    );
}

#[test]
fn cache_is_used_without_shell_environment() {
    let ws = workspace(Ok(bare_settings()), None, true);
    let cache = Some("harper-ls-v1.0.0/harper-ls".to_string());
    let found = resolve(ws, &cache).unwrap();
    assert_eq!(found.env, None);
    assert_eq!(found.args, None);
    assert_eq!(
        found.into_command(),
        Command {
            command: "harper-ls-v1.0.0/harper-ls".to_string(),
            args: vec!["--stdio".to_string()],
            env: Vec::new(),
        }
    );
}

#[test]
fn cache_that_left_the_disk_is_passed_over() {
    let ws = workspace(Ok(bare_settings()), None, false);
    let cache = Some("harper-ls-v1.0.0/harper-ls".to_string());
    assert_eq!(resolve(ws, &cache), None);
}

#[test]
fn existence_without_cache_means_nothing() {
    let ws = workspace(Ok(bare_settings()), None, true);
    assert_eq!(resolve(ws, &None), None);
}

#[test]
fn nothing_at_hand_asks_for_install() {
    let ws = workspace(Err("absent".to_string()), None, false);
    assert_eq!(resolve(ws, &None), None);
}

#[test]
fn into_command_keeps_chosen_arguments_and_environment() {
    let binary = HarperBinary {
        path: "p".to_string(),
        args: Some(vec!["a".to_string(), "b".to_string()]),
        env: Some(vec![("K".to_string(), "V".to_string())]),
    };
    assert_eq!(
        binary.into_command(),
        Command {
            command: "p".to_string(),
            args: vec!["a".to_string(), "b".to_string()],
            env: vec![("K".to_string(), "V".to_string())],
        }
    );
}

#[test]
fn into_command_keeps_empty_arguments() {
    let binary = HarperBinary { path: "p".to_string(), args: Some(Vec::new()), env: None };
    assert_eq!(
        binary.into_command(),
        Command { command: "p".to_string(), args: Vec::new(), env: Vec::new() }
    );
}

#[test]
fn bare_binary_has_nothing_chosen() {
    assert_eq!(
        HarperBinary::bare("x/harper-ls".to_string()),
        HarperBinary { path: "x/harper-ls".to_string(), args: None, env: None }
    );
}

#[test]
fn fresh_extension_remembers_nothing() {
    let extension = HarperExtension::new();
    assert_eq!(extension.cached_binary(), None);
    let ws = workspace(Ok(bare_settings()), None, true);
    assert_eq!(extension.get_binary(ws), None);
}

#[test]
fn extension_command_from_configuration() {
    let extension = HarperExtension::new();
    let ws = workspace(Ok(settings(Some("/usr/local/bin/harper-ls"), None)), None, false);
    assert_eq!(
        extension.language_server_command(ws),
        Some(Command {
            command: "/usr/local/bin/harper-ls".to_string(),
            args: vec!["--stdio".to_string()],
            env: shell_env(),
        })
    );
}

#[test]
fn extension_command_needs_install() {
    let extension = HarperExtension::new();
    let ws = workspace(Ok(bare_settings()), None, false);
    assert_eq!(extension.language_server_command(ws), None);
}

#[test]
fn configured_binary_needs_a_path() {
    assert_eq!(bare_settings().configured_binary(), None);
    assert_eq!(settings(None, Some(vec!["a"])).configured_binary(), None);
    assert_eq!(
        settings(Some("p"), Some(vec!["a"])).configured_binary(),
        Some(("p".to_string(), Some(vec!["a".to_string()])))
    );
    assert_eq!(settings(Some("p"), None).configured_binary(), Some(("p".to_string(), None)));
}

#[test]
fn initialization_options_pass_through() {
    let mut found = bare_settings();
    found.initialization_options = Some("{\"dialect\":\"British\"}".to_string());
    assert_eq!(
        HarperExtension::language_server_initialization_options(Ok(found)),
        Some("{\"dialect\":\"British\"}".to_string())
    );
    assert_eq!(HarperExtension::language_server_initialization_options(Ok(bare_settings())), None);
    assert_eq!(
        HarperExtension::language_server_initialization_options(Err("absent".to_string())),
        None
    );
}

#[test]
fn workspace_configuration_passes_through_or_defaults() {
    let mut found = bare_settings();
    found.settings = Some("{\"harper-ls\":{\"linters\":{\"SpellCheck\":false}}}".to_string());
    assert_eq!(
        HarperExtension::language_server_workspace_configuration(Ok(found)),
        Some("{\"harper-ls\":{\"linters\":{\"SpellCheck\":false}}}".to_string())
    );
    assert_eq!(
        HarperExtension::language_server_workspace_configuration(Ok(bare_settings())),
        Some("{\"harper-ls\":{}}".to_string())
    );
    assert_eq!(
        HarperExtension::language_server_workspace_configuration(Err("absent".to_string())),
        None
    );
}

#[test]
fn default_workspace_configuration_text() {
    assert_eq!(default_workspace_configuration(), "{\"harper-ls\":{}}");
}
