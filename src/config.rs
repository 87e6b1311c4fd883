//! Where environment variables are loaded from.

use vstd::prelude::*;
use vstd::string::StringExecFns;

verus! {

/// Where environment variables are loaded from: an explicit file, and a
/// named environment whose file is `.env.<name>`.
pub struct Config {
    pub env: Option<String>,
    pub env_file: Option<String>,
}

impl Config {
    pub fn new(env_file: Option<String>, env: Option<String>) -> (r: Config)
        ensures
            r.env == env,
            r.env_file == env_file,
    {
        Config { env_file, env }
    }
}

/// The file that holds the variables of environment `env`.
pub fn env_file_name(env: &str) -> (r: String)
    ensures
        r@ == ".env."@ + env@,
{
    String::from_str(".env.").concat(env)
}

} // verus!
