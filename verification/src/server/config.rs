//! The first server's start-up settings.
use vstd::prelude::*;

verus! {

/// The settings of the first server: the API key and the archive path.
#[derive(Debug)]
pub struct ServerSettings {
    pub api_key: String,
    pub server_path: String,
}

/// Takes the command-line key and archive path as they are.
pub fn setup(api_key: String, archive_path: String) -> (r: Result<ServerSettings, String>)
    ensures
        r matches Ok(s) && s.api_key == api_key && s.server_path == archive_path,
{
    Ok(ServerSettings { api_key, server_path: archive_path })
}

} // verus!
