//! The older user-configuration shape, kept so stored files of the earlier
//! layout can still be read and migrated.

use vstd::prelude::*;

use vstd::string::StringSliceAdditionalSpecFns;

verus! {

/// User configuration of the earlier layout: token and color flag only.
pub struct UserConfig {
    pub token: String,
    pub color: bool,
}

/// The resolved location of the older configuration file.
pub struct ConfigPath {
    pub config_file_path: String,
}

impl UserConfig {
    /// A fresh user configuration: empty token, color on.
    pub fn new() -> (r: UserConfig)
        ensures
            r.token@ == Seq::<char>::empty(),
            r.color == true,
    {
        UserConfig { token: String::new(), color: true }
    }

    /// Accepts exactly the 40-byte tokens the remote service issues — the
    /// length is counted in bytes, as the stored form measures it; the
    /// error carries the byte length that was found, to be reported beside
    /// the expected 40.
    pub fn validate_api_token(token: &str) -> (r: Result<(), usize>)
        ensures
            r is Ok <==> token.spec_bytes().len() == 40,
            r is Err ==> r->Err_0 as nat == token.spec_bytes().len(),
    {
        let len = token.as_bytes().len();
        if len != 40 {
            Err(len)
        } else {
            Ok(())
        }
    }
}

} // verus!
