use tera_cli::config::{
    context_file_request, get_config_path, resolve_config, ConfigError, ContextSource, RawArgs,
    ResolvedConfig, TemplateSource,
};
use tera_cli::parse::Format;

fn plain_args() -> RawArgs {
    RawArgs {
        template_file: None,
        template_str: None,
        toml_path: None,
        json_path: None,
        yaml_path: None,
        use_env: false,
        root_key: None,
        autoescape: false,
    }
}

#[test]
fn default_path_substitution_toml() {
    assert_eq!(get_config_path(".", ".toml"), ".tera.toml");
}

#[test]
fn default_path_substitution_json_and_yaml() {
    assert_eq!(get_config_path(".", ".json"), ".tera.json");
    assert_eq!(get_config_path(".", ".yml"), ".tera.yml");
}

#[test]
fn explicit_path_is_used_verbatim() {
    assert_eq!(get_config_path("conf/app.toml", ".toml"), "conf/app.toml");
    assert_eq!(get_config_path("./x.json", ".json"), "./x.json");
}

#[test]
fn context_file_request_substitutes_defaults() {
    let r = context_file_request(&ContextSource::TomlFile(".".to_owned()));
    assert_eq!(r, Some((Format::Toml, ".tera.toml".to_owned())));
    let r = context_file_request(&ContextSource::JsonFile(".".to_owned()));
    assert_eq!(r, Some((Format::Json, ".tera.json".to_owned())));
    let r = context_file_request(&ContextSource::YamlFile(".".to_owned()));
    assert_eq!(r, Some((Format::Yaml, ".tera.yml".to_owned())));
    assert_eq!(context_file_request(&ContextSource::EnvVars), None);
    assert_eq!(context_file_request(&ContextSource::NoContext), None);
}

#[test]
fn two_template_sources_are_rejected() {
    let mut args = plain_args();
    args.template_file = Some("t.txt".to_owned());
    args.template_str = Some("{{ x }}".to_owned());
    assert_eq!(resolve_config(args), Err(ConfigError::MultipleTemplateSources));
}

#[test]
fn two_context_sources_are_rejected() {
    let mut args = plain_args();
    args.toml_path = Some(".".to_owned());
    args.json_path = Some("ctx.json".to_owned());
    assert_eq!(resolve_config(args), Err(ConfigError::MultipleContextSources));
    let mut args = plain_args();
    args.yaml_path = Some("ctx.yml".to_owned());
    args.use_env = true;
    assert_eq!(resolve_config(args), Err(ConfigError::MultipleContextSources));
}

#[test]
fn consistent_arguments_resolve() {
    let mut args = plain_args();
    args.template_str = Some("{{ c.a }}".to_owned());
    args.toml_path = Some(".".to_owned());
    args.root_key = Some("c".to_owned());
    args.autoescape = true;
    let resolved = resolve_config(args).unwrap();
    assert_eq!(
        resolved,
        ResolvedConfig {
            template: TemplateSource::Inline("{{ c.a }}".to_owned()),
            context: ContextSource::TomlFile(".".to_owned()),
            root_key: Some("c".to_owned()),
            autoescape: true,
        }
    );
}

#[test]
fn no_arguments_mean_stdin_and_no_context() {
    let resolved = resolve_config(plain_args()).unwrap();
    assert_eq!(resolved.template, TemplateSource::Stdin);
    assert_eq!(resolved.context, ContextSource::NoContext);
    assert_eq!(resolved.root_key, None);
    assert!(!resolved.autoescape);
}
