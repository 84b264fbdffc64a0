//! Configuration, profile and credential handling.
//!
//! Profiles live in a YAML file under a platform-conventional directory; the
//! file is read and written by the terminal layer, which hands the parsed
//! `ProfilesConfig` to the functions here. Secrets are referenced by name or
//! supplied through the environment, never stored in the profile file.

pub mod credentials;
pub mod profiles;

use vstd::prelude::*;
use crate::config::profiles::{default_tls, default_type, without, Profile, ProfilesConfig};
use crate::text::{parse_u16, parse_u16_text, push_str, string_from_chars, trim, trim_str};

verus! {

/// `dir` joined with the relative path `name`, as `Path::join` does on Unix:
/// a `/` goes between them unless `dir` is empty or already ends in one.
pub open spec fn path_join(dir: Seq<char>, name: Seq<char>) -> Seq<char> {
    if dir.len() == 0 {
        name
    } else if dir.last() == '/' {
        dir + name
    } else {
        dir + "/"@ + name
    }
}

/// Joins `dir` and the relative path `name`.
pub fn join_path(dir: &str, name: &str) -> (r: String)
    ensures
        r@ == path_join(dir@, name@),
{
    let mut out: Vec<char> = Vec::new();
    push_str(&mut out, dir);
    let n = out.len();
    if n > 0 && out[n - 1] != '/' {
        out.push('/');
        proof {
            reveal_strlit("/");
            assert(out@ == dir@ + "/"@);
        }
    }
    push_str(&mut out, name);
    string_from_chars(&out)
}

/// The configuration directory: `$XDG_CONFIG_HOME/fortitui` when that is
/// set, else `$HOME/.config/fortitui`, else `.fortitui`.
pub open spec fn config_dir(xdg: Option<Seq<char>>, home: Option<Seq<char>>) -> Seq<char> {
    match xdg {
        Some(x) => path_join(x, "fortitui"@),
        None => match home {
            Some(h) => path_join(path_join(h, ".config"@), "fortitui"@),
            None => ".fortitui"@,
        },
    }
}

/// The configuration directory for the given values of `XDG_CONFIG_HOME`
/// and `HOME` (each `None` when unset).
pub fn profile_dir(xdg: Option<&str>, home: Option<&str>) -> (r: String)
    ensures
        r@ == config_dir(
            match xdg {
                Some(x) => Some(x@),
                None => None,
            },
            match home {
                Some(h) => Some(h@),
                None => None,
            },
        ),
{
    match xdg {
        Some(x) => join_path(x, "fortitui"),
        None => match home {
            Some(h) => {
                let c = join_path(h, ".config");
                join_path(c.as_str(), "fortitui")
            },
            None => ".fortitui".to_owned(),
        },
    }
}

/// The profiles file inside the configuration directory `dir`.
pub fn profiles_file(dir: &str) -> (r: String)
    ensures
        r@ == path_join(dir@, "profiles.yaml"@),
{
    join_path(dir, "profiles.yaml")
}

/// The names of the configured profiles, in ascending order.
pub fn list_profiles(cfg: &ProfilesConfig) -> (r: Vec<String>)
    requires
        cfg.wf(),
    ensures
        r@.len() == cfg.profiles@.len(),
        forall|i: int| 0 <= i < r@.len() ==> (#[trigger] r@[i])@ == cfg.profiles@[i].0@,
{
    cfg.names()
}

/// The error for a profile that is not configured.
pub open spec fn not_found_message(name: Seq<char>) -> Seq<char> {
    "profile '"@ + name + "' not found"@
}

/// The profile called `name`, or an error saying it is not configured.
pub fn load_profile(cfg: &ProfilesConfig, name: &str) -> (r: Result<Profile, String>)
    requires
        cfg.wf(),
    ensures
        match r {
            Ok(p) => cfg@.dom().contains(name@) && cfg@[name@] == p,
            Err(e) => !cfg@.dom().contains(name@) && e@ == not_found_message(name@),
        },
{
    match cfg.get(name) {
        Some(p) => Ok(p),
        None => {
            let mut out: Vec<char> = Vec::new();
            push_str(&mut out, "profile '");
            push_str(&mut out, name);
            push_str(&mut out, "' not found");
            Err(string_from_chars(&out))
        },
    }
}

/// Drops the profile called `name`; nothing changes if there is none.
pub fn remove_profile(cfg: &mut ProfilesConfig, name: &str)
    requires
        old(cfg).wf(),
    ensures
        final(cfg).wf(),
        final(cfg)@ == old(cfg)@.remove(name@),
        final(cfg).profiles@ == without(old(cfg).profiles@, name@),
{
    cfg.remove(name);
}

/// The answers to the first three prompts of `profile add`, trimmed.
#[derive(Debug, PartialEq, Eq)]
pub struct ProfileAnswers {
    pub host: String,
    pub port: u16,
    pub token: String,
}

/// The port answer: the number typed, or 443 when it is not a valid port.
pub open spec fn port_answer(port: Seq<char>) -> u16 {
    match parse_u16_text(trim(port)) {
        Some(p) => p,
        None => 443,
    }
}

/// Checks the host, port and token answers: host and token are trimmed and
/// must not be empty; a port that does not parse becomes 443.
pub fn check_answers(host: &str, port: &str, token: &str) -> (r: Result<ProfileAnswers, String>)
    ensures
        trim(host@).len() == 0 || trim(token@).len() == 0 <==> r is Err,
        r matches Err(e) ==> e@ == "host and token are required"@,
        r matches Ok(a) ==> a.host@ == trim(host@) && a.token@ == trim(token@) && a.port
            == port_answer(port@),
{
    let host = trim_str(host);
    let port_text = trim_str(port);
    let port = match parse_u16(port_text.as_str()) {
        Some(p) => p,
        None => 443,
    };
    let token = trim_str(token);
    if host.as_str().is_empty() || token.as_str().is_empty() {
        return Err("host and token are required".to_owned());
    }
    Ok(ProfileAnswers { host, port, token })
}

/// The profile name answer: the trimmed name, or the host when it is blank.
pub open spec fn name_answer(name: Seq<char>, host: Seq<char>) -> Seq<char> {
    if trim(name).len() == 0 {
        host
    } else {
        trim(name)
    }
}

/// The direct profile that `profile add` creates from the answers and the
/// name typed: TLS verified, the credential named after the profile, no
/// stored token. Returns the profile's name and the profile.
pub fn new_direct_profile(answers: &ProfileAnswers, name: &str) -> (r: (String, Profile))
    ensures
        r.0@ == name_answer(name@, answers.host@),
        r.1.profile_type@ == "direct"@,
        r.1.host@ == answers.host@,
        r.1.port == answers.port,
        r.1.verify_tls,
        r.1.credential@ == r.0@,
        r.1.token is None,
{
    let trimmed = trim_str(name);
    let name = if trimmed.as_str().is_empty() {
        answers.host.clone()
    } else {
        trimmed
    };
    let profile = Profile {
        profile_type: default_type(),
        host: answers.host.clone(),
        port: answers.port,
        verify_tls: default_tls(),
        credential: name.clone(),
        token: None,
    };
    (name, profile)
}

} // verus!
