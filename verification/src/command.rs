//! Command construction: from resolved settings to the concrete launch
//! command for the server process.
//!
//! The executable is whatever runtime launcher the host discovered; the first
//! argument is always the absolute path of the installed package's entry
//! script under the current working directory, recomputed per call. A present
//! API key adds one `--api-key=<value>` argument; a present minimum token
//! count adds one environment entry instead of an argument.

use vstd::prelude::*;

use crate::settings::Settings;

verus! {

/// A runnable command: executable, ordered arguments, environment entries
/// (keys unique).
#[derive(Debug, Clone, PartialEq)]
pub struct ServerCommand {
    pub executable: String,
    pub args: Vec<String>,
    pub env: Vec<(String, String)>,
}

/// The entry script of the installed package, relative to the working
/// directory.
pub fn server_script_relative_path() -> (r: String)
    ensures
        r@ == "node_modules/@upstash/context7-mcp/dist/index.js"@,
{
    "node_modules/@upstash/context7-mcp/dist/index.js".to_owned()
}

/// The environment key that carries the minimum token count.
pub fn minimum_tokens_env_key() -> (r: String)
    ensures
        r@ == "DEFAULT_MINIMUM_TOKENS"@,
{
    "DEFAULT_MINIMUM_TOKENS".to_owned()
}

/// The absolute path of the entry script: the working directory joined with
/// the fixed relative path, inserting a separator unless one is already there.
pub open spec fn entry_script_path_spec(cwd: Seq<char>) -> Seq<char> {
    if cwd.len() > 0 && cwd.last() == '/' {
        cwd + "node_modules/@upstash/context7-mcp/dist/index.js"@
    } else {
        cwd + seq!['/'] + "node_modules/@upstash/context7-mcp/dist/index.js"@
    }
}

/// Joins the working directory with the entry script's relative path.
pub fn entry_script_path(cwd: &str) -> (r: String)
    ensures
        r@ == entry_script_path_spec(cwd@),
{
    let n = cwd.unicode_len();
    let mut r = cwd.to_owned();
    if n == 0 || cwd.get_char(n - 1) != '/' {
        r.append("/");
        proof {
            reveal_strlit("/");
            assert("/"@ =~= seq!['/']);
        }
    }
    r.append("node_modules/@upstash/context7-mcp/dist/index.js");
    r
}

/// Builds the launch command for the server process.
///
/// The argument list is the entry script path first, then `--api-key=<value>`
/// exactly when the API key is present. The environment holds exactly one
/// entry, the minimum token count under its fixed key, when that field is
/// present, and is empty otherwise.
pub fn build_command(executable: String, cwd: &str, settings: &Settings) -> (r: ServerCommand)
    ensures
        r.executable == executable,
        r.args@.len() == (if settings.api_key is Some {
            2int
        } else {
            1int
        }),
        r.args@[0]@ == entry_script_path_spec(cwd@),
        settings.api_key matches Option::Some(k) ==> r.args@[1]@ == "--api-key="@ + k@,
        match settings.default_minimum_tokens {
            Option::Some(n) => r.env@.len() == 1 && r.env@[0].0@ == "DEFAULT_MINIMUM_TOKENS"@
                && r.env@[0].1@ == n@,
            Option::None => r.env@.len() == 0,
        },
{
    let mut args: Vec<String> = Vec::new();
    args.push(entry_script_path(cwd));
    match &settings.api_key {
        Option::Some(k) => {
            let mut flag = "--api-key=".to_owned();
            flag.append(k.as_str());
            args.push(flag);
        },
        Option::None => {},
    }
    let mut env: Vec<(String, String)> = Vec::new();
    match &settings.default_minimum_tokens {
        Option::Some(n) => {
            env.push((minimum_tokens_env_key(), n.clone()));
        },
        Option::None => {},
    }
    ServerCommand { executable, args, env }
}

} // verus!
