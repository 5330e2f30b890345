//! Finding and reading the settings: the account at the daemon and the
//! daemon's address.
//!
//! The settings file is TOML. It is parsed by the `config` crate, and the
//! entries are looked up in what that crate made of the text. The table of
//! the file is taken as the parser gives it: a key is the name of an entry
//! and nothing else, however it is spelled.

use vstd::prelude::*;
use vstd::string::StringExecFns;
use crate::failure::{Failure, FailureKind, FailureView};

verus! {

/// `config::Config`: the settings that were read, as the `config` crate keeps
/// them.
#[verifier::external_type_specification]
#[verifier::external_body]
pub struct ExSettings(config::Config);

/// `config::ConfigError`: why settings could not be read or an entry not be
/// had.
#[verifier::external_type_specification]
#[verifier::external_body]
pub struct ExSettingsError(config::ConfigError);

/// What `settings` give for `key`: the entry as text, or the text of the
/// failure to find it or to give it as text.
pub uninterp spec fn setting(settings: config::Config, key: Seq<char>) -> Result<
    Seq<char>,
    Seq<char>,
>;

/// What the settings made of a TOML text give for `key`, as [`setting`] has
/// it. Where no settings can be made of the text, it is for every key the
/// text of that failure.
pub uninterp spec fn toml_setting(text: Seq<char>, key: Seq<char>) -> Result<
    Seq<char>,
    Seq<char>,
>;

/// The text that a `config::ConfigError` displays.
pub uninterp spec fn displayed(error: config::ConfigError) -> Seq<char>;

/// Reads `text` as TOML with `Source::collect` on `File::from_str` with
/// `FileFormat::Toml`, and makes the table that comes back the root of a
/// `Config::default()`, as `Config`'s own builder does with the table it has
/// put together. Which texts are TOML and what they hold is for the parser to
/// say; what is claimed is that the text alone decides it: nothing else is
/// read, and a look-up goes by the keys of the table, not by their order.
#[verifier::external_body]
fn parse_toml(text: &str) -> (parsed: Result<config::Config, config::ConfigError>)
    ensures
        match parsed {
            Ok(settings) => forall|key: Seq<char>|
                #[trigger] toml_setting(text@, key) == setting(settings, key),
            Err(error) => forall|key: Seq<char>|
                #[trigger] toml_setting(text@, key) == Err::<Seq<char>, Seq<char>>(
                    displayed(error),
                ),
        },
{
    let file = config::File::from_str(text, config::FileFormat::Toml);
    let table = config::Source::collect(&file)?;
    let mut settings = config::Config::default();
    settings.cache = config::Value::new(None, config::ValueKind::Table(table));
    Ok(settings)
}

/// Calls `Config::get_string`, which finds the entry that `key` leads to and
/// gives it as text: a string as it is, a number or a truth value written
/// out. It reads the settings and changes nothing, so that the settings and
/// the key decide what comes back.
#[verifier::external_body]
fn get_string(settings: &config::Config, key: &str) -> (found: Result<
    String,
    config::ConfigError,
>)
    ensures
        match found {
            Ok(value) => setting(*settings, key@) == Ok::<Seq<char>, Seq<char>>(value@),
            Err(error) => setting(*settings, key@) == Err::<Seq<char>, Seq<char>>(
                displayed(error),
            ),
        },
{
    settings.get_string(key)
}

/// Calls `to_string` on a `config::ConfigError`, which gives the text that
/// the error displays.
#[verifier::external_body]
fn error_text(error: &config::ConfigError) -> (text: String)
    ensures
        text@ == displayed(*error),
{
    error.to_string()
}

/// The account at the daemon.
#[derive(Debug, Clone, PartialEq, Eq)]
pub struct Credentials {
    pub username: String,
    pub password: String,
}

/// What a run needs to know of the daemon: the account and the address.
#[derive(Debug, Clone, PartialEq, Eq)]
pub struct ServiceConfig {
    pub credentials: Credentials,
    pub host_address: String,
}

/// The mathematical value of [`Credentials`].
pub struct CredentialsView {
    pub username: Seq<char>,
    pub password: Seq<char>,
}

/// The mathematical value of a [`ServiceConfig`].
pub struct ServiceConfigView {
    pub credentials: CredentialsView,
    pub host_address: Seq<char>,
}

impl View for Credentials {
    type V = CredentialsView;

    open spec fn view(&self) -> CredentialsView {
        CredentialsView { username: self.username@, password: self.password@ }
    }
}

impl View for ServiceConfig {
    type V = ServiceConfigView;

    open spec fn view(&self) -> ServiceConfigView {
        ServiceConfigView { credentials: self.credentials@, host_address: self.host_address@ }
    }
}

/// A text that was read, or the text that says why it could not be.
pub open spec fn text_outcome(outcome: Result<String, String>) -> Result<Seq<char>, Seq<char>> {
    match outcome {
        Ok(text) => Ok(text@),
        Err(message) => Err(message@),
    }
}

/// A failure to resolve the settings, described by `message`.
pub open spec fn config_failure(message: Seq<char>) -> FailureView {
    FailureView { kind: FailureKind::Config, message }
}

/// Where the settings file of the user with home directory `home` lies.
pub open spec fn config_path_of(home: Seq<char>) -> Seq<char> {
    home + "/.config/send-to-qbt/config.toml"@
}

/// The settings file to read, given what the environment says of the home
/// directory: without a home directory there is none.
pub open spec fn located(home: Result<Seq<char>, Seq<char>>) -> Result<Seq<char>, FailureView> {
    match home {
        Ok(directory) => Ok(config_path_of(directory)),
        Err(message) => Err(config_failure(message)),
    }
}

/// The settings made of three lookups. All three are required and nothing
/// stands in for a missing one: the first that failed, in the order username,
/// password, host name, is the failure.
pub open spec fn resolved(
    username: Result<Seq<char>, Seq<char>>,
    password: Result<Seq<char>, Seq<char>>,
    host_name: Result<Seq<char>, Seq<char>>,
) -> Result<ServiceConfigView, FailureView> {
    match (username, password, host_name) {
        (Ok(username), Ok(password), Ok(host_address)) => Ok(
            ServiceConfigView {
                credentials: CredentialsView { username, password },
                host_address,
            },
        ),
        (Err(message), _, _) => Err(config_failure(message)),
        (_, Err(message), _) => Err(config_failure(message)),
        (_, _, Err(message)) => Err(config_failure(message)),
    }
}

/// The settings that `settings` give: the three required entries, looked up
/// by their keys.
pub open spec fn settings_in(settings: config::Config) -> Result<
    ServiceConfigView,
    FailureView,
> {
    resolved(
        setting(settings, "username"@),
        setting(settings, "password"@),
        setting(settings, "host_name"@),
    )
}

/// The settings that the text of a settings file gives: the three required
/// entries of what can be made of the text. Where nothing can be made of it,
/// the failure is that of the parser.
pub open spec fn settings_of(text: Seq<char>) -> Result<ServiceConfigView, FailureView> {
    resolved(
        toml_setting(text, "username"@),
        toml_setting(text, "password"@),
        toml_setting(text, "host_name"@),
    )
}

/// The settings that reading the settings file gives: those of its text, or
/// the failure to read it.
pub open spec fn settings_from(contents: Result<Seq<char>, Seq<char>>) -> Result<
    ServiceConfigView,
    FailureView,
> {
    match contents {
        Ok(text) => settings_of(text),
        Err(message) => Err(config_failure(message)),
    }
}

/// The settings are resolved exactly when all three entries were found, and
/// whatever is missing, the failure is a configuration failure.
pub proof fn lemma_all_entries_required(
    username: Result<Seq<char>, Seq<char>>,
    password: Result<Seq<char>, Seq<char>>,
    host_name: Result<Seq<char>, Seq<char>>,
)
    ensures
        resolved(username, password, host_name) is Ok <==> username is Ok && password is Ok
            && host_name is Ok,
        resolved(username, password, host_name) matches Err(failure) ==> failure.kind
            == FailureKind::Config,
{
}

/// Returns the path of the settings file below the home directory `home`.
pub fn config_path(home: &str) -> (path: String)
    ensures
        path@ == config_path_of(home@),
{
    home.to_owned().concat("/.config/send-to-qbt/config.toml")
}

/// Returns the path of the settings file, or a configuration failure where
/// the home directory is not known. `home` is what the environment gave: the
/// directory, or the text that says why there is none.
pub fn settings_path(home: Result<String, String>) -> (path: Result<String, Failure>)
    ensures
        match path {
            Ok(text) => located(text_outcome(home)) == Ok::<Seq<char>, FailureView>(text@),
            Err(failure) => located(text_outcome(home)) == Err::<Seq<char>, FailureView>(
                failure@,
            ),
        },
{
    match home {
        Ok(directory) => Ok(config_path(directory.as_str())),
        Err(message) => Err(Failure { kind: FailureKind::Config, message }),
    }
}

/// Looks `key` up in `settings`, with the failure turned into its text.
fn lookup(settings: &config::Config, key: &str) -> (found: Result<String, String>)
    ensures
        text_outcome(found) == setting(*settings, key@),
{
    match get_string(settings, key) {
        Ok(value) => Ok(value),
        Err(error) => Err(error_text(&error)),
    }
}

impl ServiceConfig {
    /// Puts the settings together from the three lookups, each one the text
    /// found or the text that says why none was.
    pub fn from_lookups(
        username: Result<String, String>,
        password: Result<String, String>,
        host_name: Result<String, String>,
    ) -> (config: Result<ServiceConfig, Failure>)
        ensures
            match config {
                Ok(settings) => resolved(
                    text_outcome(username),
                    text_outcome(password),
                    text_outcome(host_name),
                ) == Ok::<ServiceConfigView, FailureView>(settings@),
                Err(failure) => resolved(
                    text_outcome(username),
                    text_outcome(password),
                    text_outcome(host_name),
                ) == Err::<ServiceConfigView, FailureView>(failure@),
            },
    {
        let username = match username {
            Ok(text) => text,
            Err(message) => { return Err(Failure { kind: FailureKind::Config, message }); },
        };
        let password = match password {
            Ok(text) => text,
            Err(message) => { return Err(Failure { kind: FailureKind::Config, message }); },
        };
        let host_address = match host_name {
            Ok(text) => text,
            Err(message) => { return Err(Failure { kind: FailureKind::Config, message }); },
        };
        Ok(ServiceConfig { credentials: Credentials { username, password }, host_address })
    }

    /// Takes the three required entries out of `settings`. It succeeds exactly
    /// when all three are there as text; otherwise the failure carries the
    /// text of the first look-up that failed, in the order username, password,
    /// host name.
    pub fn from_settings(settings: &config::Config) -> (config: Result<ServiceConfig, Failure>)
        ensures
            match config {
                Ok(found) => settings_in(*settings) == Ok::<ServiceConfigView, FailureView>(
                    found@,
                ),
                Err(failure) => settings_in(*settings) == Err::<ServiceConfigView, FailureView>(
                    failure@,
                ),
            },
    {
        let username = lookup(settings, "username");
        let password = lookup(settings, "password");
        let host_name = lookup(settings, "host_name");
        ServiceConfig::from_lookups(username, password, host_name)
    }

    /// Reads the settings from the text of a settings file. It succeeds
    /// exactly when settings can be made of the text and hold all three
    /// required entries as text. Otherwise the failure carries the text of
    /// the parser's failure or of the first look-up that failed.
    pub fn from_toml(text: &str) -> (config: Result<ServiceConfig, Failure>)
        ensures
            match config {
                Ok(found) => settings_of(text@) == Ok::<ServiceConfigView, FailureView>(found@),
                Err(failure) => settings_of(text@) == Err::<ServiceConfigView, FailureView>(
                    failure@,
                ),
            },
    {
        match parse_toml(text) {
            Ok(settings) => {
                assert(settings_of(text@) == settings_in(settings));
                ServiceConfig::from_settings(&settings)
            },
            Err(error) => {
                assert(settings_of(text@) == Err::<ServiceConfigView, FailureView>(
                    config_failure(displayed(error)),
                ));
                Err(Failure { kind: FailureKind::Config, message: error_text(&error) })
            },
        }
    }

    /// Reads the settings from what reading the settings file gave: its text,
    /// which is then read as by [`ServiceConfig::from_toml`], or the text that
    /// says why it could not be read, which is then the failure.
    pub fn from_contents(contents: Result<String, String>) -> (config: Result<
        ServiceConfig,
        Failure,
    >)
        ensures
            match config {
                Ok(found) => settings_from(text_outcome(contents)) == Ok::<
                    ServiceConfigView,
                    FailureView,
                >(found@),
                Err(failure) => settings_from(text_outcome(contents)) == Err::<
                    ServiceConfigView,
                    FailureView,
                >(failure@),
            },
    {
        match contents {
            Ok(text) => ServiceConfig::from_toml(text.as_str()),
            Err(message) => Err(Failure { kind: FailureKind::Config, message }),
        }
    }
}

} // verus!
