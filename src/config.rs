use vstd::prelude::*;

use crate::error::{Error, ErrorKind};
use crate::updater::string_views;

verus! {

/// The application folder under the platform's per-user configuration directory.
pub const DEFAULT_CONFIG_FOLDER_NAME: &'static str = "duckdns-ip-updater";

/// The name of the configuration file read when no source is given on the command line.
pub const DEFAULT_CONFIG_FILE_NAME: &'static str = "default.conf";

/// A domain list and a token that can be sent: at least one domain, no empty domain,
/// and a non-empty token.
pub open spec fn valid_config(domains: Seq<Seq<char>>, token: Seq<char>) -> bool {
    &&& domains.len() >= 1
    &&& forall|i: int| 0 <= i < domains.len() ==> #[trigger] domains[i].len() > 0
    &&& token.len() > 0
}

/// The domains to update and the token that authorises the update.
#[derive(Debug)]
pub struct Config {
    domains: Vec<String>,
    token: String,
}

/// The flags given on the command line, as the argument parser read them.
#[derive(Debug)]
pub struct CommandLine {
    pub config: Option<String>,
    pub domain: Option<String>,
    pub token: Option<String>,
}

/// What the argument parser stopped on instead of returning flags.
#[derive(Debug, Clone, Copy, PartialEq, Eq, Structural)]
pub enum ArgumentFailure {
    /// Help was asked for; the message is the rendered help.
    Help,
    /// The version was asked for; the message is the rendered version.
    Version,
    /// The arguments were malformed or conflicting; the message is the usage error.
    Invalid,
}

/// Where the configuration comes from once the command line has been read.
#[derive(Debug)]
pub enum ConfigSource {
    /// Domain and token were given as flags.
    Arguments(Config),
    /// A configuration file, as the path components to join in order.
    File(Vec<String>),
}

/// What reading a configuration file gave.
#[derive(Debug)]
pub enum FileContent {
    /// The file could not be opened or read.
    Unreadable,
    /// The file was read but is not a well-formed document of the expected shape.
    Malformed,
    /// The file was parsed; each entry is `None` where its key is missing.
    Entries { domains: Option<Vec<String>>, token: Option<String> },
}

/// The outcome of resolution in mathematical terms: the domains and token given as
/// flags, the path components of a configuration file, or the kind of failure.
pub enum SourceOutcome {
    Arguments(Seq<Seq<char>>, Seq<char>),
    File(Seq<Seq<char>>),
    Failed(ErrorKind),
}

/// The view of an optional string.
pub open spec fn opt_view(o: Option<String>) -> Option<Seq<char>> {
    match o {
        Some(s) => Some(s@),
        None => None,
    }
}

/// Resolution by precedence: conflicting or unpaired flags are rejected; domain and token
/// flags come first, then an explicit configuration file, then the default file under the
/// platform configuration directory, else failure.
pub open spec fn resolution(
    config: Option<Seq<char>>,
    domain: Option<Seq<char>>,
    token: Option<Seq<char>>,
    config_dir: Option<Seq<char>>,
) -> SourceOutcome {
    if config.is_some() && (domain.is_some() || token.is_some()) {
        SourceOutcome::Failed(ErrorKind::InvalidArgument)
    } else if domain.is_some() != token.is_some() {
        SourceOutcome::Failed(ErrorKind::InvalidArgument)
    } else if domain.is_some() {
        if valid_config(seq![domain->0], token->0) {
            SourceOutcome::Arguments(seq![domain->0], token->0)
        } else {
            SourceOutcome::Failed(ErrorKind::InvalidArgument)
        }
    } else if config.is_some() {
        SourceOutcome::File(seq![config->0])
    } else if config_dir.is_some() {
        SourceOutcome::File(
            seq![config_dir->0, DEFAULT_CONFIG_FOLDER_NAME@, DEFAULT_CONFIG_FILE_NAME@],
        )
    } else {
        SourceOutcome::Failed(ErrorKind::ConfigFolderAccess)
    }
}

/// The message of an argument error that resolution itself finds.
pub open spec fn argument_message(
    config: Option<Seq<char>>,
    domain: Option<Seq<char>>,
    token: Option<Seq<char>>,
) -> Seq<char> {
    if config.is_some() && (domain.is_some() || token.is_some()) {
        "error: --config cannot be used with --domain or --token"@
    } else if domain.is_some() != token.is_some() {
        "error: --domain and --token must be given together"@
    } else {
        "error: --domain and --token need non-empty values"@
    }
}

/// The outcome of a resolution result in mathematical terms.
pub open spec fn source_outcome(r: Result<ConfigSource, Error>) -> SourceOutcome {
    match r {
        Ok(ConfigSource::Arguments(c)) => SourceOutcome::Arguments(c.domains_view(), c.token_view()),
        Ok(ConfigSource::File(parts)) => SourceOutcome::File(string_views(parts@)),
        Err(e) => SourceOutcome::Failed(e.kind),
    }
}

/// The outcome of reading a configuration file in mathematical terms: the domains and
/// token it holds when both keys are there and valid, else the error.
pub open spec fn file_outcome(content: FileContent) -> Result<(Seq<Seq<char>>, Seq<char>), Seq<char>> {
    match content {
        FileContent::Unreadable => Err("Cannot open configuration file"@),
        FileContent::Entries { domains: Some(d), token: Some(t) } => {
            if valid_config(string_views(d@), t@) {
                Ok((string_views(d@), t@))
            } else {
                Err("Configuration file content is invalid"@)
            }
        },
        _ => Err("Configuration file content is invalid"@),
    }
}

impl CommandLine {
    /// The outcome of resolving these flags with the given platform directory.
    pub open spec fn outcome_with(&self, config_dir: Option<Seq<char>>) -> SourceOutcome {
        resolution(opt_view(self.config), opt_view(self.domain), opt_view(self.token), config_dir)
    }
}

impl Config {
    #[verifier::type_invariant]
    spec fn inv(&self) -> bool {
        valid_config(string_views(self.domains@), self.token@)
    }

    /// The domains, in order.
    pub closed spec fn domains_view(&self) -> Seq<Seq<char>> {
        string_views(self.domains@)
    }

    /// The token.
    pub closed spec fn token_view(&self) -> Seq<char> {
        self.token@
    }

    /// The domains to update, in order; never empty.
    pub fn get_domains(&self) -> (r: &Vec<String>)
        ensures
            string_views(r@) == self.domains_view(),
            valid_config(self.domains_view(), self.token_view()),
    {
        proof {
            use_type_invariant(self);
        }
        &self.domains
    }

    /// The token that authorises the update; never empty.
    pub fn get_token(&self) -> (r: &str)
        ensures
            r@ == self.token_view(),
            valid_config(self.domains_view(), self.token_view()),
    {
        proof {
            use_type_invariant(self);
        }
        self.token.as_str()
    }

    /// Builds a configuration from a domain list and a token, `None` when they are not valid.
    pub fn from_parts(domains: Vec<String>, token: String) -> (r: Option<Config>)
        ensures
            r.is_some() <==> valid_config(string_views(domains@), token@),
            r matches Some(c) ==> c.domains_view() == string_views(domains@)
                && c.token_view() == token@,
    {
        if domains.len() == 0 || token.as_str().is_empty() {
            return None;
        }
        let mut i: usize = 0;
        while i < domains.len()
            invariant
                i <= domains.len(),
                forall|j: int| 0 <= j < i ==> #[trigger] string_views(domains@)[j].len() > 0,
            decreases domains.len() - i,
        {
            if domains[i].as_str().is_empty() {
                assert(string_views(domains@)[i as int].len() == 0);
                return None;
            }
            i = i + 1;
        }
        Some(Config { domains, token })
    }

    /// Decides where the configuration comes from, given the platform configuration
    /// directory (`None` when it cannot be determined).
    pub fn resolve_source(command_line: CommandLine, config_dir: Option<String>) -> (r: Result<
        ConfigSource,
        Error,
    >)
        ensures
            source_outcome(r) == command_line.outcome_with(opt_view(config_dir)),
            r matches Err(e) ==> (e.kind == ErrorKind::ConfigFolderAccess
                ==> e.message@ == "error: Cannot determine the config folder"@),
            r matches Err(e) ==> (e.kind == ErrorKind::InvalidArgument ==> e.message@
                == argument_message(
                opt_view(command_line.config),
                opt_view(command_line.domain),
                opt_view(command_line.token),
            )),
    {
        let CommandLine { config, domain, token } = command_line;
        if config.is_some() && (domain.is_some() || token.is_some()) {
            return Err(Error {
                kind: ErrorKind::InvalidArgument,
                message: String::from_str(
                    "error: --config cannot be used with --domain or --token",
                ),
            });
        }
        match (domain, token) {
            (Some(d), Some(t)) => {
                let ghost dv = d@;
                let mut domains: Vec<String> = Vec::new();
                domains.push(d);
                assert(string_views(domains@) =~= seq![dv]);
                match Config::from_parts(domains, t) {
                    Some(c) => Ok(ConfigSource::Arguments(c)),
                    None => Err(Error {
                        kind: ErrorKind::InvalidArgument,
                        message: String::from_str(
                            "error: --domain and --token need non-empty values",
                        ),
                    }),
                }
            },
            (None, None) => {
                match config {
                    Some(path) => {
                        let mut parts: Vec<String> = Vec::new();
                        parts.push(path);
                        assert(string_views(parts@) =~= seq![parts@[0]@]);
                        Ok(ConfigSource::File(parts))
                    },
                    None => match config_dir {
                        Some(dir) => {
                            let mut parts: Vec<String> = Vec::new();
                            parts.push(dir);
                            parts.push(String::from_str(DEFAULT_CONFIG_FOLDER_NAME));
                            parts.push(String::from_str(DEFAULT_CONFIG_FILE_NAME));
                            assert(string_views(parts@) =~= seq![
                                parts@[0]@,
                                DEFAULT_CONFIG_FOLDER_NAME@,
                                DEFAULT_CONFIG_FILE_NAME@,
                            ]);
                            Ok(ConfigSource::File(parts))
                        },
                        None => Err(Error {
                            kind: ErrorKind::ConfigFolderAccess,
                            message: String::from_str("error: Cannot determine the config folder"),
                        }),
                    },
                }
            },
            _ => Err(Error {
                kind: ErrorKind::InvalidArgument,
                message: String::from_str("error: --domain and --token must be given together"),
            }),
        }
    }

    /// Builds the configuration from what reading its file gave.
    pub fn from_file_content(content: FileContent) -> (r: Result<Config, Error>)
        ensures
            match file_outcome(content) {
                Ok((d, t)) => r matches Ok(c) && c.domains_view() == d && c.token_view() == t,
                Err(m) => r matches Err(e) && e.kind == ErrorKind::InvalidConfigFile
                    && e.message@ == m,
            },
    {
        match content {
            FileContent::Unreadable => Err(Error {
                kind: ErrorKind::InvalidConfigFile,
                message: String::from_str("Cannot open configuration file"),
            }),
            FileContent::Entries { domains: Some(d), token: Some(t) } => {
                match Config::from_parts(d, t) {
                    Some(c) => Ok(c),
                    None => Err(invalid_content_error()),
                }
            },
            _ => Err(invalid_content_error()),
        }
    }
}

/// Relies on dirs' `config_dir`: the platform's per-user configuration directory, `None`
/// when it cannot be determined or is not valid UTF-8. It depends on the environment.
#[verifier::external_body]
fn platform_config_dir() -> (r: Option<String>) {
    match dirs::config_dir() {
        Some(p) => p.into_os_string().into_string().ok(),
        None => None,
    }
}

impl Config {
    /// Decides where the configuration comes from, from what the argument parser returned:
    /// its flags, or what it stopped on with its message.
    pub fn new(parsed: Result<CommandLine, (ArgumentFailure, String)>) -> (r: Result<
        ConfigSource,
        Error,
    >)
        ensures
            match parsed {
                Ok(command_line) => {
                    &&& exists|dir: Option<Seq<char>>|
                        #[trigger] command_line.outcome_with(dir) == source_outcome(r)
                    &&& (command_line.config is Some || command_line.domain is Some
                        || command_line.token is Some) ==> source_outcome(r)
                        == command_line.outcome_with(None)
                    &&& r matches Err(e) ==> (e.kind == ErrorKind::InvalidArgument ==> e.message@
                        == argument_message(
                        opt_view(command_line.config),
                        opt_view(command_line.domain),
                        opt_view(command_line.token),
                    ))
                    &&& r matches Err(e) ==> (e.kind == ErrorKind::ConfigFolderAccess
                        ==> e.message@ == "error: Cannot determine the config folder"@)
                },
                Err((failure, message)) => r matches Err(e) && e.message@ == message@
                    && e.kind == failure_kind(failure),
            },
    {
        match parsed {
            Ok(command_line) => {
                let ghost line = command_line;
                let flags_decide = command_line.config.is_some() || command_line.domain.is_some()
                    || command_line.token.is_some();
                let config_dir = if flags_decide {
                    None
                } else {
                    platform_config_dir()
                };
                let r = Config::resolve_source(command_line, config_dir);
                assert(line.outcome_with(opt_view(config_dir)) == source_outcome(r));
                r
            },
            Err((failure, message)) => Err(convert_command_line_error(failure, message)),
        }
    }
}

/// Flags that give a domain and a token, both non-empty and without a configuration
/// file, resolve to that one domain and that token, whatever the platform directory.
pub proof fn lemma_flags_resolve_to_config(
    domain: Seq<char>,
    token: Seq<char>,
    config_dir: Option<Seq<char>>,
)
    requires
        domain.len() > 0,
        token.len() > 0,
    ensures
        resolution(None, Some(domain), Some(token), config_dir) == SourceOutcome::Arguments(
            seq![domain],
            token,
        ),
{
    assert(valid_config(seq![domain], token));
}

/// A configuration file given together with a domain or a token flag is an invalid
/// argument.
pub proof fn lemma_config_conflicts_with_flags(
    config: Seq<char>,
    domain: Option<Seq<char>>,
    token: Option<Seq<char>>,
    config_dir: Option<Seq<char>>,
)
    requires
        domain.is_some() || token.is_some(),
    ensures
        resolution(Some(config), domain, token, config_dir) == SourceOutcome::Failed(
            ErrorKind::InvalidArgument,
        ),
{
}

/// A configuration file without a token is an invalid configuration file, whatever its
/// domains.
pub proof fn lemma_missing_token_is_invalid_file(domains: Option<Vec<String>>)
    ensures
        file_outcome(FileContent::Entries { domains, token: None }) == Err::<
            (Seq<Seq<char>>, Seq<char>),
            Seq<char>,
        >("Configuration file content is invalid"@),
{
}

fn invalid_content_error() -> (e: Error)
    ensures
        e.kind == ErrorKind::InvalidConfigFile,
        e.message@ == "Configuration file content is invalid"@,
{
    Error {
        kind: ErrorKind::InvalidConfigFile,
        message: String::from_str("Configuration file content is invalid"),
    }
}

/// The error kind for what the argument parser stopped on.
pub open spec fn failure_kind(failure: ArgumentFailure) -> ErrorKind {
    match failure {
        ArgumentFailure::Help => ErrorKind::DisplayHelp,
        ArgumentFailure::Version => ErrorKind::DisplayVersion,
        ArgumentFailure::Invalid => ErrorKind::InvalidArgument,
    }
}

/// Classifies what the argument parser stopped on; the parser's message is kept as it is.
pub fn convert_command_line_error(failure: ArgumentFailure, message: String) -> (e: Error)
    ensures
        e.kind == failure_kind(failure),
        e.message@ == message@,
{
    let kind = match failure {
        ArgumentFailure::Help => ErrorKind::DisplayHelp,
        ArgumentFailure::Version => ErrorKind::DisplayVersion,
        ArgumentFailure::Invalid => ErrorKind::InvalidArgument,
    };
    Error { kind, message }
}

} // verus!
