//! Start-up settings: the API key, the archive directory that is served and
//! the directory where uploads are staged.
use vstd::prelude::*;
use crate::text::string_of;

verus! {

/// The settings the server runs with.
#[derive(Debug)]
pub struct Settings {
    pub api_key: String,
    pub serve_path: String,
    pub staging_path: String,
}

/// Builds the settings from the command-line key and the canonical forms
/// of the archive and staging paths (`None` when a path could not be
/// canonicalized).
pub fn setup(api_key: String, archive_path: Option<String>, staging_path: Option<String>) -> (r: Result<
    Settings,
    String,
>)
    ensures
        archive_path is None ==> (r matches Err(e) && e@ == "Invalid Serve Path"@),
        archive_path is Some && staging_path is None ==> (r matches Err(e) && e@
            == "Invalid Staging Path"@),
        archive_path matches Some(a) ==> (staging_path matches Some(s) ==> (r matches Ok(st)
            && st.api_key@ == api_key@ && st.serve_path@ == a@ && st.staging_path@ == s@)),
{
    let serve_path = match archive_path {
        Some(p) => p,
        None => return Err(string_of("Invalid Serve Path")),
    };
    let staging_path = match staging_path {
        Some(p) => p,
        None => return Err(string_of("Invalid Staging Path")),
    };
    Ok(Settings { api_key, serve_path, staging_path })
}

/// The OPTIONS answer for any path: nothing but the headers that the
/// response hook adds.
pub fn all_options() {
}

} // verus!
