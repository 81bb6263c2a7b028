use smartcat::config::api::ApiConfig;
use smartcat::credential::{
    credential_from_output, credential_source, resolve_credential, CommandRunner,
    CredentialSource,
};
use smartcat::error::Error;

struct Scripted {
    answer: Option<String>,
    calls: Vec<String>,
}

impl Scripted {
    fn answering(answer: Option<&str>) -> Scripted {
        Scripted { answer: answer.map(|a| a.to_string()), calls: Vec::new() }
    }
}

impl CommandRunner for Scripted {
    fn run(&mut self, command: &str) -> Option<String> {
        self.calls.push(command.to_string());
        self.answer.clone()
    }
}

fn config(api_key: Option<&str>, api_key_command: Option<&str>) -> ApiConfig {
    ApiConfig {
        url: "https://example/v1/chat".to_string(),
        api_key: api_key.map(|k| k.to_string()),
        api_key_command: api_key_command.map(|c| c.to_string()),
        default_model: None,
    }
}

#[test]
fn inline_key_wins_and_no_command_runs() {
    let mut runner = Scripted::answering(Some("from-command"));
    let key = resolve_credential(&config(Some("inline"), Some("print-key")), &mut runner);
    assert_eq!(key, Ok("inline".to_string()));
    assert!(runner.calls.is_empty());
    assert_eq!(
        credential_source(&config(Some("inline"), Some("print-key"))),
        Ok(CredentialSource::Inline("inline".to_string()))
    );
}

#[test]
fn inline_key_alone() {
    let mut runner = Scripted::answering(None);
    let key = resolve_credential(&config(Some("inline"), None), &mut runner);
    assert_eq!(key, Ok("inline".to_string()));
    assert!(runner.calls.is_empty());
}

#[test]
fn command_output_is_trimmed_at_the_end() {
    let mut runner = Scripted::answering(Some("  secret key \t\r\n\n"));
    let key = resolve_credential(&config(None, Some("pass show key")), &mut runner);
    assert_eq!(key, Ok("  secret key".to_string()));
    assert_eq!(runner.calls, vec!["pass show key".to_string()]);
    assert_eq!(
        credential_source(&config(None, Some("pass show key"))),
        Ok(CredentialSource::Command("pass show key".to_string()))
    );
}

#[test]
fn failed_command_is_an_error() {
    let mut runner = Scripted::answering(None);
    let key = resolve_credential(&config(None, Some("false")), &mut runner);
    assert_eq!(key, Err(Error::CredentialExecutionFailed));
    assert_eq!(runner.calls.len(), 1);
}

#[test]
fn empty_output_is_an_error() {
    let mut runner = Scripted::answering(Some(" \n\t"));
    let key = resolve_credential(&config(None, Some("true")), &mut runner);
    assert_eq!(key, Err(Error::CredentialExecutionFailed));
    assert_eq!(credential_from_output(Some(String::new())), Err(Error::CredentialExecutionFailed));
    assert_eq!(credential_from_output(None), Err(Error::CredentialExecutionFailed));
    assert_eq!(credential_from_output(Some("k\n".to_string())), Ok("k".to_string()));
}

#[test]
fn no_credential_configured() {
    let mut runner = Scripted::answering(Some("unused"));
    let key = resolve_credential(&config(None, None), &mut runner);
    assert_eq!(key, Err(Error::NoCredentialConfigured));
    assert!(runner.calls.is_empty());
    assert_eq!(credential_source(&config(None, None)), Err(Error::NoCredentialConfigured));
}
