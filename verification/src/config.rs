//! The resolved per-invocation configuration: which template source and which
//! context source were chosen, the optional root key, and the autoescape flag.

use vstd::prelude::*;
use vstd::string::StringExecFns;
use crate::parse::Format;

verus! {

/// Where the template text comes from: exactly one of these is chosen per
/// invocation.
#[derive(Debug, PartialEq)]
pub enum TemplateSource {
    File(String),
    Inline(String),
    Stdin,
}

/// Where the context comes from: at most one of these is chosen per
/// invocation.
#[derive(Debug, PartialEq)]
pub enum ContextSource {
    TomlFile(String),
    JsonFile(String),
    YamlFile(String),
    EnvVars,
    NoContext,
}

/// The options as the command line delivers them, before mutual exclusivity
/// has been enforced.
pub struct RawArgs {
    pub template_file: Option<String>,
    pub template_str: Option<String>,
    pub toml_path: Option<String>,
    pub json_path: Option<String>,
    pub yaml_path: Option<String>,
    pub use_env: bool,
    pub root_key: Option<String>,
    pub autoescape: bool,
}

/// Rejections of an over-specified invocation, raised before any file is
/// touched.
#[derive(Debug, PartialEq)]
pub enum ConfigError {
    MultipleTemplateSources,
    MultipleContextSources,
}

/// The finalized, mutually exclusive choices that the pipeline consumes.
#[derive(Debug, PartialEq)]
pub struct ResolvedConfig {
    pub template: TemplateSource,
    pub context: ContextSource,
    pub root_key: Option<String>,
    pub autoescape: bool,
}

/// How many template sources the arguments name.
pub open spec fn template_source_count(a: RawArgs) -> int {
    (if a.template_file is Some {
        1int
    } else {
        0int
    }) + (if a.template_str is Some {
        1int
    } else {
        0int
    })
}

/// How many context sources the arguments name.
pub open spec fn context_source_count(a: RawArgs) -> int {
    (if a.toml_path is Some {
        1int
    } else {
        0int
    }) + (if a.json_path is Some {
        1int
    } else {
        0int
    }) + (if a.yaml_path is Some {
        1int
    } else {
        0int
    }) + (if a.use_env {
        1int
    } else {
        0int
    })
}

/// The template source that uniquely consistent arguments name.
pub open spec fn chosen_template(a: RawArgs) -> TemplateSource {
    match a.template_file {
        Some(p) => TemplateSource::File(p),
        None => match a.template_str {
            Some(s) => TemplateSource::Inline(s),
            None => TemplateSource::Stdin,
        },
    }
}

/// The context source that uniquely consistent arguments name.
pub open spec fn chosen_context(a: RawArgs) -> ContextSource {
    match a.toml_path {
        Some(p) => ContextSource::TomlFile(p),
        None => match a.json_path {
            Some(p) => ContextSource::JsonFile(p),
            None => match a.yaml_path {
                Some(p) => ContextSource::YamlFile(p),
                None => if a.use_env {
                    ContextSource::EnvVars
                } else {
                    ContextSource::NoContext
                },
            },
        },
    }
}

/// Enforces mutual exclusivity of the template and context options and
/// finalizes the configuration. Over-specified arguments are rejected here,
/// before any file or stream is touched.
pub fn resolve_config(args: RawArgs) -> (r: Result<ResolvedConfig, ConfigError>)
    ensures
        template_source_count(args) > 1 ==> r == Err::<ResolvedConfig, ConfigError>(
            ConfigError::MultipleTemplateSources,
        ),
        template_source_count(args) <= 1 && context_source_count(args) > 1 ==> r == Err::<
            ResolvedConfig,
            ConfigError,
        >(ConfigError::MultipleContextSources),
        template_source_count(args) <= 1 && context_source_count(args) <= 1 ==> (r matches Ok(c)
            && {
            &&& c.template == chosen_template(args)
            &&& c.context == chosen_context(args)
            &&& c.root_key == args.root_key
            &&& c.autoescape == args.autoescape
        }),
{
    let template_count: u32 = (if args.template_file.is_some() {
        1
    } else {
        0
    }) + (if args.template_str.is_some() {
        1
    } else {
        0
    });
    if template_count > 1 {
        return Err(ConfigError::MultipleTemplateSources);
    }
    let context_count: u32 = (if args.toml_path.is_some() {
        1
    } else {
        0
    }) + (if args.json_path.is_some() {
        1
    } else {
        0
    }) + (if args.yaml_path.is_some() {
        1
    } else {
        0
    }) + (if args.use_env {
        1
    } else {
        0
    });
    if context_count > 1 {
        return Err(ConfigError::MultipleContextSources);
    }
    let template = match args.template_file {
        Some(p) => TemplateSource::File(p),
        None => match args.template_str {
            Some(s) => TemplateSource::Inline(s),
            None => TemplateSource::Stdin,
        },
    };
    let context = match args.toml_path {
        Some(p) => ContextSource::TomlFile(p),
        None => match args.json_path {
            Some(p) => ContextSource::JsonFile(p),
            None => match args.yaml_path {
                Some(p) => ContextSource::YamlFile(p),
                None => if args.use_env {
                    ContextSource::EnvVars
                } else {
                    ContextSource::NoContext
                },
            },
        },
    };
    Ok(ResolvedConfig { template, context, root_key: args.root_key, autoescape: args.autoescape })
}

/// The file that a file-based context source asks to be read, with the
/// default path substituted for the literal path `"."`; environment and
/// empty sources read no file.
pub fn context_file_request(context: &ContextSource) -> (r: Option<(Format, String)>)
    ensures
        match context {
            ContextSource::TomlFile(p) => r matches Some((f, path)) && f is Toml && (p@ == "."@
                ==> path@ == ".tera"@ + ".toml"@) && (p@ != "."@ ==> path@ == p@),
            ContextSource::JsonFile(p) => r matches Some((f, path)) && f is Json && (p@ == "."@
                ==> path@ == ".tera"@ + ".json"@) && (p@ != "."@ ==> path@ == p@),
            ContextSource::YamlFile(p) => r matches Some((f, path)) && f is Yaml && (p@ == "."@
                ==> path@ == ".tera"@ + ".yml"@) && (p@ != "."@ ==> path@ == p@),
            ContextSource::EnvVars => r is None,
            ContextSource::NoContext => r is None,
        },
{
    match context {
        ContextSource::TomlFile(p) => Some((Format::Toml, get_config_path(p.as_str(), ".toml"))),
        ContextSource::JsonFile(p) => Some((Format::Json, get_config_path(p.as_str(), ".json"))),
        ContextSource::YamlFile(p) => Some((Format::Yaml, get_config_path(p.as_str(), ".yml"))),
        ContextSource::EnvVars => None,
        ContextSource::NoContext => None,
    }
}

/// Substitutes the default configuration path for the literal path `"."`.
///
/// A context path argument of exactly `"."` stands for the default file
/// `.tera<ext>` (for example `.tera.toml`) relative to the working directory;
/// any other argument is used verbatim.
pub fn get_config_path(path: &str, ext: &str) -> (r: String)
    ensures
        path@ == "."@ ==> r@ == ".tera"@ + ext@,
        path@ != "."@ ==> r@ == path@,
{
    let p: String = path.to_owned();
    let dot: String = ".".to_owned();
    if p == dot {
        let mut base: String = ".tera".to_owned();
        base.append(ext);
        base
    } else {
        p
    }
}

} // verus!
