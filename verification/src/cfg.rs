//! User-level configuration: the API token, color flag and config file path.

use vstd::prelude::*;

use vstd::string::StringSliceAdditionalSpecFns;

verus! {

/// User configuration, persisted as JSON by the surrounding program.
pub struct UserConfig {
    pub token: String,
    pub color: bool,
    pub config_file_path: String,
}

impl UserConfig {
    /// A fresh user configuration at the given file path: the token starts
    /// empty — it is filled in when the stored file is loaded or the user is
    /// asked — and color is on.
    #[allow(unused_variables)]
    pub fn new(token: &str, config_file_path: String) -> (r: UserConfig)
        ensures
            r.token@ == Seq::<char>::empty(),
            r.color == true,
            r.config_file_path == config_file_path,
    {
        UserConfig { token: String::new(), color: true, config_file_path }
    }
}

/// Accepts exactly the 40-byte tokens the remote service issues — the
/// length is counted in bytes, as the stored form measures it; the error
/// carries the byte length that was found, to be reported beside the
/// expected 40.
pub fn validate_api_token(token: &str) -> (r: Result<(), usize>)
    ensures
        r is Ok <==> token.spec_bytes().len() == 40,
        r is Err ==> r->Err_0 as nat == token.spec_bytes().len(),
{
    let len = token.as_bytes().len();
    if len != 40 {
        Err(len)
    } else {
        Ok(())
    }
}

} // verus!
