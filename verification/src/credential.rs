//! Where the key of a provider comes from: the configuration itself, or a
//! command that prints it.

use vstd::prelude::*;
use crate::config::api::ApiConfig;
use crate::config::api::ApiConfigView;
use crate::error::Error;
use crate::error::ErrorView;
use crate::error::view_result;
use crate::text::trim_end;
use crate::text::trimmed_end;

verus! {

/// Runs commands for the library. The program hands in one that starts a
/// shell; a test hands in one that answers from a script.
pub trait CommandRunner {
    /// Runs `command` and gives what it printed, or nothing where it could
    /// not be run or did not succeed.
    fn run(&mut self, command: &str) -> Option<String>;
}

/// Where a key is to be had from.
#[derive(Clone, Debug, PartialEq, Eq)]
pub enum CredentialSource {
    /// The key itself.
    Inline(String),
    /// A command that prints the key.
    Command(String),
}

/// What a `CredentialSource` holds, as mathematical values.
pub ghost enum CredentialSourceView {
    Inline(Seq<char>),
    Command(Seq<char>),
}

impl View for CredentialSource {
    type V = CredentialSourceView;

    open spec fn view(&self) -> CredentialSourceView {
        match self {
            CredentialSource::Inline(key) => CredentialSourceView::Inline(key@),
            CredentialSource::Command(command) => CredentialSourceView::Command(command@),
        }
    }
}

/// Where the key of a configuration comes from: a key that is written in
/// the configuration goes before a command, and without either there is no
/// key.
pub open spec fn spec_credential_source(config: ApiConfigView) -> Result<
    CredentialSourceView,
    ErrorView,
> {
    match config.api_key {
        Some(key) => Ok(CredentialSourceView::Inline(key)),
        None => match config.api_key_command {
            Some(command) => Ok(CredentialSourceView::Command(command)),
            None => Err(ErrorView::NoCredentialConfigured),
        },
    }
}

/// The key that a command gave: what it printed, without the white space at
/// the end. A command that failed, or printed nothing but white space, gave
/// no key.
pub open spec fn spec_credential_from_output(output: Option<Seq<char>>) -> Result<
    Seq<char>,
    ErrorView,
> {
    match output {
        None => Err(ErrorView::CredentialExecutionFailed),
        Some(printed) => if trimmed_end(printed).len() == 0 {
            Err(ErrorView::CredentialExecutionFailed)
        } else {
            Ok(trimmed_end(printed))
        },
    }
}

/// Says where the key of a configuration comes from.
pub fn credential_source(config: &ApiConfig) -> (source: Result<CredentialSource, Error>)
    ensures
        view_result(source) == spec_credential_source(config@),
{
    match &config.api_key {
        Some(key) => Ok(CredentialSource::Inline(key.clone())),
        None => match &config.api_key_command {
            Some(command) => Ok(CredentialSource::Command(command.clone())),
            None => Err(Error::NoCredentialConfigured),
        },
    }
}

/// Takes the key from what a command printed.
pub fn credential_from_output(output: Option<String>) -> (key: Result<String, Error>)
    ensures
        view_result(key) == spec_credential_from_output(output.deep_view()),
{
    match output {
        None => Err(Error::CredentialExecutionFailed),
        Some(printed) => {
            let trimmed = trim_end(printed.as_str());
            if trimmed.as_str().unicode_len() == 0 {
                Err(Error::CredentialExecutionFailed)
            } else {
                Ok(trimmed)
            }
        },
    }
}

/// Resolves the key of a configuration, running its command where the
/// configuration holds no key. With a key in the configuration the runner
/// is left alone.
pub fn resolve_credential<R: CommandRunner>(config: &ApiConfig, runner: &mut R) -> (key: Result<
    String,
    Error,
>)
    ensures
        config@.api_key is Some ==> view_result(key) == Ok::<Seq<char>, ErrorView>(
            config@.api_key->0,
        ) && *final(runner) == *old(runner),
        config@.api_key is None && config@.api_key_command is None ==> view_result(key) == Err::<
            Seq<char>,
            ErrorView,
        >(ErrorView::NoCredentialConfigured) && *final(runner) == *old(runner),
        config@.api_key is None && config@.api_key_command is Some ==> exists|
            output: Option<Seq<char>>,
        | view_result(key) == #[trigger] spec_credential_from_output(output),
{
    match credential_source(config) {
        Err(e) => Err(e),
        Ok(CredentialSource::Inline(key)) => Ok(key),
        Ok(CredentialSource::Command(command)) => {
            let output = runner.run(command.as_str());
            let key = credential_from_output(output);
            key
        },
    }
}

/// A key that is written in the configuration is the credential, whether
/// or not a command is configured beside it.
pub proof fn lemma_inline_key_wins(config: ApiConfigView)
    requires
        config.api_key is Some,
    ensures
        spec_credential_source(config) == Ok::<CredentialSourceView, ErrorView>(
            CredentialSourceView::Inline(config.api_key->0),
        ),
{
}

} // verus!
