mod config;
mod error;
mod updater;

use vstd::prelude::*;

pub use crate::config::{
    convert_command_line_error, ArgumentFailure, CommandLine, Config, ConfigSource, FileContent,
    DEFAULT_CONFIG_FILE_NAME, DEFAULT_CONFIG_FOLDER_NAME,
};
pub use crate::error::{Error, ErrorKind};
pub use crate::updater::{interpret_response, join_domains, update_ips, update_url};

verus! {

/// Sends the update for the configured domains; a failure names the comma-joined domains.
pub fn run(config: Config) -> (r: Result<(), Error>)
    ensures
        r matches Err(e) ==> e.kind == ErrorKind::InvalidRequest
            && e.message@ == updater::failure_message(updater::comma_joined(config.domains_view())),
{
    let domains = config.get_domains();
    updater::update_ips(domains, config.get_token())
}

} // verus!
