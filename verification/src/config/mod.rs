//! The persisted configuration: providers, prompts, and where they live.
//!
//! The functions here decide; they touch no file. The caller says what it
//! found on disk and in the environment, and does what it is told.

pub mod api;
pub mod prompt;
pub mod store;

use vstd::prelude::*;
use crate::config::api::Api;
use crate::config::api::ApiConfig;
use crate::config::api::ApiConfigView;
use crate::config::prompt::Prompt;
use crate::config::prompt::PromptView;
use crate::config::store::entries_view;
use crate::config::store::lemma_api_configs_round_trip;
use crate::config::store::lemma_prompts_round_trip;
use crate::config::store::names_distinct;
use crate::config::store::prompt_well_formed;
use crate::config::store::prompts_well_formed;
use crate::config::store::repeats_at;
use crate::config::store::spec_decode_api_configs;
use crate::config::store::spec_decode_prompts;
use crate::config::store::spec_encode_api_configs;
use crate::config::store::spec_encode_prompts;
use crate::config::store::spec_serialize_api_configs;
use crate::config::store::spec_serialize_prompts;
use crate::config::store::serialize_api_configs;
use crate::config::store::serialize_prompts;
use crate::document::lookup;
use crate::document::keyed;
use crate::document::spec_lookup;
use crate::document::toml_text;
use crate::error::Error;
use crate::error::ErrorView;
use crate::error::view_result;

verus! {

/// The configuration directory below the home directory.
pub const DEFAULT_CONFIG_PATH: &'static str = ".config/smartcat/";

/// The environment variable that names another configuration directory.
pub const CUSTOM_CONFIG_ENV_VAR: &'static str = "SMARTCAT_CONFIG_PATH";

/// The file of the prompts, in the configuration directory.
pub const PROMPTS_FILE: &'static str = "prompts.toml";

/// The file of the providers, in the configuration directory.
pub const API_KEYS_FILE: &'static str = ".api_configs.toml";

/// Where the configuration lives.
#[derive(Clone, Debug, PartialEq, Eq)]
pub enum ConfigLocation {
    /// The directory that the environment names.
    Custom(String),
    /// `DEFAULT_CONFIG_PATH` below this home directory.
    UnderHome(String),
}

/// What a `ConfigLocation` holds, as mathematical values.
pub ghost enum ConfigLocationView {
    Custom(Seq<char>),
    UnderHome(Seq<char>),
}

impl View for ConfigLocation {
    type V = ConfigLocationView;

    open spec fn view(&self) -> ConfigLocationView {
        match self {
            ConfigLocation::Custom(path) => ConfigLocationView::Custom(path@),
            ConfigLocation::UnderHome(home) => ConfigLocationView::UnderHome(home@),
        }
    }
}

/// Where the configuration lives: the directory that the environment names
/// goes before the home directory, and without either there is no place.
pub open spec fn spec_config_path(custom: Option<Seq<char>>, home: Option<Seq<char>>) -> Result<
    ConfigLocationView,
    ErrorView,
> {
    match custom {
        Some(path) => Ok(ConfigLocationView::Custom(path)),
        None => match home {
            Some(dir) => Ok(ConfigLocationView::UnderHome(dir)),
            None => Err(ErrorView::ConfigPathUnresolvable),
        },
    }
}

/// Says where the configuration lives, from the values of
/// `CUSTOM_CONFIG_ENV_VAR` and of `HOME`.
pub fn resolve_config_path(custom: Option<String>, home: Option<String>) -> (location: Result<
    ConfigLocation,
    Error,
>)
    ensures
        view_result(location) == spec_config_path(custom.deep_view(), home.deep_view()),
{
    match custom {
        Some(path) => Ok(ConfigLocation::Custom(path)),
        None => match home {
            Some(dir) => Ok(ConfigLocation::UnderHome(dir)),
            None => Err(Error::ConfigPathUnresolvable),
        },
    }
}

/// The providers of a fresh configuration, by name.
pub open spec fn spec_default_api_configs() -> Seq<(Seq<char>, ApiConfigView)> {
    seq![
        (Api::Anthropic.spec_name(), ApiConfig::spec_for_api(Api::Anthropic)),
        (Api::Groq.spec_name(), ApiConfig::spec_for_api(Api::Groq)),
        (Api::Mistral.spec_name(), ApiConfig::spec_for_api(Api::Mistral)),
        (Api::Ollama.spec_name(), ApiConfig::spec_for_api(Api::Ollama)),
        (Api::Openai.spec_name(), ApiConfig::spec_for_api(Api::Openai)),
    ]
}

/// The prompts of a fresh configuration, by name.
pub open spec fn spec_default_prompts() -> Seq<(Seq<char>, PromptView)> {
    seq![("default"@, Prompt::spec_default()), ("empty"@, Prompt::spec_empty())]
}

/// The providers of a fresh configuration: every provider under its name,
/// with its default configuration.
pub fn default_api_configs() -> (configs: Vec<(String, ApiConfig)>)
    ensures
        entries_view(configs@) == spec_default_api_configs(),
{
    let mut configs: Vec<(String, ApiConfig)> = Vec::new();
    configs.push((Api::Anthropic.to_string(), ApiConfig::anthropic()));
    configs.push((Api::Groq.to_string(), ApiConfig::groq()));
    configs.push((Api::Mistral.to_string(), ApiConfig::mistral()));
    configs.push((Api::Ollama.to_string(), ApiConfig::ollama()));
    configs.push((Api::Openai.to_string(), ApiConfig::openai()));
    configs
}

/// The prompts of a fresh configuration.
pub fn default_prompts() -> (prompts: Vec<(String, Prompt)>)
    ensures
        entries_view(prompts@) == spec_default_prompts(),
{
    let mut prompts: Vec<(String, Prompt)> = Vec::new();
    prompts.push((String::from_str("default"), Prompt::default()));
    prompts.push((String::from_str("empty"), Prompt::empty()));
    prompts
}

/// The two configuration files as they are found: the text of each, or
/// nothing where the file is not there.
#[derive(Clone, Debug, PartialEq, Eq)]
pub struct ConfigFiles {
    pub prompts: Option<String>,
    pub api_configs: Option<String>,
}

/// What `ConfigFiles` holds, as mathematical values.
pub ghost struct ConfigFilesView {
    pub prompts: Option<Seq<char>>,
    pub api_configs: Option<Seq<char>>,
}

impl View for ConfigFiles {
    type V = ConfigFilesView;

    open spec fn view(&self) -> ConfigFilesView {
        ConfigFilesView {
            prompts: self.prompts.deep_view(),
            api_configs: self.api_configs.deep_view(),
        }
    }
}

/// What is to be done so that both configuration files are there.
#[derive(Clone, Copy, Debug, PartialEq, Eq, Structural)]
pub struct GenerationPlan {
    /// Tell the user that the prompts' file is being written.
    pub announce_prompts: bool,
    /// Write the prompts' file.
    pub write_prompts: bool,
    /// Tell the user that the providers' file is being written.
    pub announce_api_configs: bool,
    /// Write the providers' file.
    pub write_api_configs: bool,
    /// See afterwards whether the configuration can be used at all.
    pub check_usable: bool,
}

/// A file is written only where it is not there. The user is told of new
/// prompts when someone is at the terminal, and of new providers in any
/// case; with new providers and someone at the terminal, the configuration
/// is looked over afterwards.
pub open spec fn spec_plan(
    prompts_exist: bool,
    api_configs_exist: bool,
    interactive: bool,
) -> GenerationPlan {
    GenerationPlan {
        announce_prompts: !prompts_exist && interactive,
        write_prompts: !prompts_exist,
        announce_api_configs: !api_configs_exist,
        write_api_configs: !api_configs_exist,
        check_usable: !api_configs_exist && interactive,
    }
}

/// Says what is to be done so that both configuration files are there.
pub fn plan_generation(prompts_exist: bool, api_configs_exist: bool, interactive: bool) -> (plan:
    GenerationPlan)
    ensures
        plan == spec_plan(prompts_exist, api_configs_exist, interactive),
{
    GenerationPlan {
        announce_prompts: !prompts_exist && interactive,
        write_prompts: !prompts_exist,
        announce_api_configs: !api_configs_exist,
        write_api_configs: !api_configs_exist,
        check_usable: !api_configs_exist && interactive,
    }
}

/// The files after generation, and what the caller has to do for them.
#[derive(Clone, Debug, PartialEq, Eq)]
pub struct Generated {
    pub files: ConfigFiles,
    pub plan: GenerationPlan,
}

/// What `Generated` holds, as mathematical values.
pub ghost struct GeneratedView {
    pub files: ConfigFilesView,
    pub plan: GenerationPlan,
}

impl View for Generated {
    type V = GeneratedView;

    open spec fn view(&self) -> GeneratedView {
        GeneratedView { files: self.files@, plan: self.plan }
    }
}

/// The text of a file after generation: the text that was found, else the
/// text that was written for it.
pub open spec fn spec_generated_text(
    found: Option<Seq<char>>,
    written: Result<Seq<char>, ErrorView>,
) -> Result<Seq<char>, ErrorView> {
    match found {
        Some(text) => Ok(text),
        None => written,
    }
}

/// The files after generation, and the plan: a file that is there stays as
/// it is, and one that is not gets the text of the defaults. The prompts
/// come first; generation fails only where the text of a missing file
/// cannot be written.
pub open spec fn spec_ensure_config_files(files: ConfigFilesView, interactive: bool) -> Result<
    GeneratedView,
    ErrorView,
> {
    match spec_generated_text(files.prompts, spec_serialize_prompts(spec_default_prompts())) {
        Err(e) => Err(e),
        Ok(prompts) => match spec_generated_text(
            files.api_configs,
            spec_serialize_api_configs(spec_default_api_configs()),
        ) {
            Err(e) => Err(e),
            Ok(api_configs) => Ok(
                GeneratedView {
                    files: ConfigFilesView {
                        prompts: Some(prompts),
                        api_configs: Some(api_configs),
                    },
                    plan: spec_plan(files.prompts is Some, files.api_configs is Some, interactive),
                },
            ),
        },
    }
}

/// Makes sure that both configuration files are there: a file that is
/// missing gets the text of the defaults, a file that is there is not
/// touched. The caller writes what the plan names, and nothing else.
///
/// With both files there, nothing can fail. The text of a missing file
/// fails to be written only where the TOML writer cannot write the
/// document of the defaults: see `lemma_default_texts`.
pub fn ensure_config_files(files: ConfigFiles, interactive: bool) -> (generated: Result<
    Generated,
    Error,
>)
    ensures
        view_result(generated) == spec_ensure_config_files(files@, interactive),
{
    let plan = plan_generation(files.prompts.is_some(), files.api_configs.is_some(), interactive);
    let ConfigFiles { prompts, api_configs } = files;
    let prompts = match prompts {
        Some(text) => text,
        None => match serialize_prompts(&default_prompts()) {
            Ok(text) => text,
            Err(e) => {
                return Err(e);
            },
        },
    };
    let api_configs = match api_configs {
        Some(text) => text,
        None => match serialize_api_configs(&default_api_configs()) {
            Ok(text) => text,
            Err(e) => {
                return Err(e);
            },
        },
    };
    Ok(Generated { files: ConfigFiles { prompts: Some(prompts), api_configs: Some(api_configs) }, plan })
}

/// The defaults can be read back as they are written down, so their text
/// is whatever the TOML writer makes of their document, and fails to be
/// written only where the writer cannot write it.
pub proof fn lemma_default_texts()
    ensures
        spec_decode_prompts(spec_encode_prompts(spec_default_prompts())) == Ok::<
            Seq<(Seq<char>, PromptView)>,
            Seq<char>,
        >(spec_default_prompts()),
        spec_decode_api_configs(spec_encode_api_configs(spec_default_api_configs())) == Ok::<
            Seq<(Seq<char>, ApiConfigView)>,
            Seq<char>,
        >(spec_default_api_configs()),
        spec_serialize_prompts(spec_default_prompts()) == match toml_text(
            spec_encode_prompts(spec_default_prompts()),
        ) {
            Some(text) => Ok::<Seq<char>, ErrorView>(text),
            None => Err(ErrorView::ConfigParseError { detail: Seq::empty() }),
        },
        spec_serialize_api_configs(spec_default_api_configs()) == match toml_text(
            spec_encode_api_configs(spec_default_api_configs()),
        ) {
            Some(text) => Ok::<Seq<char>, ErrorView>(text),
            None => Err(ErrorView::ConfigParseError { detail: Seq::empty() }),
        },
{
    let prompts = spec_default_prompts();
    let configs = spec_default_api_configs();
    reveal_strlit("default");
    reveal_strlit("empty");
    reveal_strlit("openai");
    reveal_strlit("mistral");
    reveal_strlit("groq");
    reveal_strlit("anthropic");
    reveal_strlit("ollama");
    assert("default"@.len() == 7);
    assert("empty"@.len() == 5);
    assert("openai"@.len() == 6);
    assert("mistral"@.len() == 7);
    assert("groq"@.len() == 4);
    assert("anthropic"@.len() == 9);
    assert("ollama"@.len() == 6);
    assert("openai"@[1] != "ollama"@[1]);
    assert(names_distinct(prompts)) by {
        assert forall|j: int| !repeats_at(prompts, j) by {
            if repeats_at(prompts, j) {
                let i = choose|i: int| 0 <= i < j && prompts[i].0 == prompts[j].0;
                assert(prompts[i].0.len() == prompts[j].0.len());
            }
        }
    }
    assert(names_distinct(configs)) by {
        assert forall|j: int| !repeats_at(configs, j) by {
            if repeats_at(configs, j) {
                let i = choose|i: int| 0 <= i < j && configs[i].0 == configs[j].0;
                assert(configs[i].0 == configs[j].0);
            }
        }
    }
    assert(prompts_well_formed(prompts)) by {
        assert(prompt_well_formed(prompts[0].1));
        assert(prompt_well_formed(prompts[1].1));
    }
    lemma_prompts_round_trip(prompts);
    lemma_api_configs_round_trip(configs);
}

/// Generating twice is generating once: a second run finds both files
/// there, leaves them as the first run left them, cannot fail, and plans to
/// write nothing.
pub proof fn lemma_generation_is_idempotent(
    files: ConfigFilesView,
    first: bool,
    second: bool,
)
    requires
        spec_ensure_config_files(files, first) is Ok,
    ensures
        ({
            let once = spec_ensure_config_files(files, first)->Ok_0;
            let twice = spec_ensure_config_files(once.files, second);
            &&& twice is Ok
            &&& twice->Ok_0.files == once.files
            &&& !twice->Ok_0.plan.write_prompts
            &&& !twice->Ok_0.plan.write_api_configs
        }),
{
}

/// Files that are there are not changed, whatever they hold, and nothing is
/// planned to be written over them. Where both are there, generation
/// cannot fail.
pub proof fn lemma_existing_files_untouched(files: ConfigFilesView, interactive: bool)
    ensures
        files.prompts is Some && files.api_configs is Some ==> spec_ensure_config_files(
            files,
            interactive,
        ) is Ok,
        spec_ensure_config_files(files, interactive) matches Ok(generated) ==> {
            &&& files.prompts is Some ==> generated.files.prompts == files.prompts
                && !generated.plan.write_prompts
            &&& files.api_configs is Some ==> generated.files.api_configs == files.api_configs
                && !generated.plan.write_api_configs
            &&& generated.files.prompts is Some
            &&& generated.files.api_configs is Some
        },
{
}

/// The configuration of `api` among `configs` names a source for its key.
pub open spec fn spec_config_usable(configs: Seq<(String, ApiConfig)>, api: Api) -> bool {
    spec_lookup(keyed(configs), api.spec_name()) matches Some(config) && ApiConfig::spec_has_credential(
        config@,
    )
}

/// Some prompt asks a provider whose configuration names a source for its
/// key.
pub open spec fn spec_third_party_usable(
    prompts: Seq<(String, Prompt)>,
    configs: Seq<(String, ApiConfig)>,
) -> bool {
    exists|i: int| 0 <= i < prompts.len() && spec_config_usable(configs, #[trigger] prompts[i].1.api)
}

/// What looking over the configuration found.
#[derive(Clone, Copy, Debug, PartialEq, Eq, Structural)]
pub struct UsabilityReport {
    /// No prompt asks a provider with a key: tell the user how to set one.
    pub warn_no_api_key: bool,
    /// The local model runner was not found: tell the user how to get it.
    pub warn_no_ollama: bool,
    /// Nothing can be asked at all and someone is at the terminal to hear
    /// it: the program should say so and end.
    pub unusable: bool,
}

/// What there is to report of a configuration.
pub open spec fn spec_usability(
    third_party_usable: bool,
    ollama_found: bool,
    interactive: bool,
) -> UsabilityReport {
    UsabilityReport {
        warn_no_api_key: !third_party_usable,
        warn_no_ollama: !ollama_found,
        unusable: interactive && !third_party_usable && !ollama_found,
    }
}

/// Finds the configuration of a provider among `configs`.
pub fn get_api_config(configs: &Vec<(String, ApiConfig)>, api: Api) -> (found: Option<&ApiConfig>)
    ensures
        match found {
            Some(config) => spec_lookup(keyed(configs@), api.spec_name()) == Some(*config),
            None => spec_lookup(keyed(configs@), api.spec_name()) is None,
        },
{
    lookup(configs, api.name())
}

/// Tells whether some prompt asks a provider whose configuration names a
/// source for its key.
pub fn third_party_usable(prompts: &Vec<(String, Prompt)>, configs: &Vec<(String, ApiConfig)>) -> (usable:
    bool)
    ensures
        usable == spec_third_party_usable(prompts@, configs@),
{
    let mut i: usize = 0;
    while i < prompts.len()
        invariant
            i <= prompts.len(),
            forall|j: int| 0 <= j < i ==> !spec_config_usable(configs@, prompts@[j].1.api),
        decreases prompts.len() - i,
    {
        match get_api_config(configs, prompts[i].1.api) {
            Some(config) => {
                if config.has_credential() {
                    return true;
                }
            },
            None => {},
        }
        i += 1;
    }
    false
}

/// Looks over a configuration: whether any prompt can reach a provider
/// with a key, and, given whether the local model runner was found and
/// whether someone is at the terminal, what the user is to be told.
pub fn ensure_config_usable(
    prompts: &Vec<(String, Prompt)>,
    configs: &Vec<(String, ApiConfig)>,
    ollama_found: bool,
    interactive: bool,
) -> (report: UsabilityReport)
    ensures
        report == spec_usability(
            spec_third_party_usable(prompts@, configs@),
            ollama_found,
            interactive,
        ),
{
    let usable = third_party_usable(prompts, configs);
    UsabilityReport {
        warn_no_api_key: !usable,
        warn_no_ollama: !ollama_found,
        unusable: interactive && !usable && !ollama_found,
    }
}

} // verus!
