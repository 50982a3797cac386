//! Who the tool runs as: the user, host and platform summary.

use vstd::prelude::*;

verus! {

/// The placeholder for an account name that could not be read.
pub open spec fn unknown_account() -> Seq<char> {
    "<unknown>"@
}

/// The placeholder for a host name that could not be read.
pub open spec fn fallback_hostname() -> Seq<char> {
    "localhost"@
}

/// The placeholder for a language list that could not be read.
pub open spec fn unknown_language() -> Seq<char> {
    "??"@
}

/// The user, host and platform summary.
#[derive(Debug)]
pub struct Whoami {
    pub username: String,
    pub account: String,
    pub realname: String,
    pub arch: String,
    pub desktop_env: String,
    pub hostname: String,
    pub devicename: String,
    pub platform: String,
    pub distro: String,
    pub langs: Vec<String>,
}

/// The text of `value`, or `fallback` when it could not be read.
pub open spec fn or_fallback(value: Option<String>, fallback: Seq<char>) -> Seq<char> {
    match value {
        Some(v) => v@,
        None => fallback,
    }
}

impl Whoami {
    /// Assembles the summary from what was read. An account or host name
    /// that could not be read (`None`) becomes "<unknown>" or "localhost";
    /// a language list that could not be read becomes the single entry "??".
    pub fn from_lookups(
        username: String,
        account: Option<String>,
        realname: String,
        arch: String,
        desktop_env: String,
        hostname: Option<String>,
        devicename: String,
        platform: String,
        distro: String,
        langs: Option<Vec<String>>,
    ) -> (w: Whoami)
        ensures
            w.username == username,
            w.account@ == or_fallback(account, unknown_account()),
            w.realname == realname,
            w.arch == arch,
            w.desktop_env == desktop_env,
            w.hostname@ == or_fallback(hostname, fallback_hostname()),
            w.devicename == devicename,
            w.platform == platform,
            w.distro == distro,
            langs matches Some(l) ==> w.langs@ == l@,
            langs is None ==> (w.langs@.len() == 1 && w.langs@[0]@ == unknown_language()),
    {
        let account = match account {
            Some(a) => a,
            None => "<unknown>".to_string(),
        };
        let hostname = match hostname {
            Some(h) => h,
            None => "localhost".to_string(),
        };
        let langs = match langs {
            Some(l) => l,
            None => {
                let mut v: Vec<String> = Vec::new();
                v.push("??".to_string());
                v
            },
        };
        Whoami {
            username,
            account,
            realname,
            arch,
            desktop_env,
            hostname,
            devicename,
            platform,
            distro,
            langs,
        }
    }
}

} // verus!
