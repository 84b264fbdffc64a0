//! Credential handling.
//!
//! Tokens come from the environment, which the terminal layer reads and hands
//! in: first the profile's own variable `FORTITUI_<PROFILE>`, then the global
//! `FORTITUI_TOKEN`. Secrets are never logged or written to
//! the profile file; `redact` is what may be shown of one.

use vstd::prelude::*;
use vstd::utf8::{decode_utf8, encode_utf8, is_char_boundary};
use vstd::string::StringSliceAdditionalSpecFns;
use crate::text::{chars_of, push_str, string_from_chars};

verus! {

/// The error when no token can be found for `credential`.
pub open spec fn no_token_message(credential: Seq<char>) -> Seq<char> {
    "no token found for '"@ + credential
        + "'. Set FORTITUI_TOKEN=<api-key> or enable the keyring feature."@
}

/// A profile-name character in an environment variable name: ASCII letters
/// upper-cased, ASCII digits kept, anything else `_`.
pub open spec fn env_char(c: char) -> char {
    if 'a' <= c && c <= 'z' {
        ((c as u32) - 32) as char
    } else if ('A' <= c && c <= 'Z') || ('0' <= c && c <= '9') {
        c
    } else {
        '_'
    }
}

/// The per-profile token variable of a profile: `FORTITUI_` and the name
/// (so `pve-dev` gives `FORTITUI_PVE_DEV`).
pub open spec fn env_var_name(profile: Seq<char>) -> Seq<char> {
    "FORTITUI_"@ + profile.map_values(|c: char| env_char(c))
}

/// The name of the per-profile token variable of `profile`.
pub fn env_var_for(profile: &str) -> (r: String)
    ensures
        r@ == env_var_name(profile@),
{
    let v = chars_of(profile);
    let mut out: Vec<char> = Vec::new();
    push_str(&mut out, "FORTITUI_");
    let ghost head = out@;
    let mut i: usize = 0;
    while i < v.len()
        invariant
            i <= v@.len(),
            v@ == profile@,
            out@ == head + v@.take(i as int).map_values(|c: char| env_char(c)),
        decreases v@.len() - i,
    {
        let c = v[i];
        let e = if 'a' <= c && c <= 'z' {
            ((c as u8) - 32) as char
        } else if ('A' <= c && c <= 'Z') || ('0' <= c && c <= '9') {
            c
        } else {
            '_'
        };
        assert(e == env_char(c));
        out.push(e);
        assert(v@.take(i + 1).map_values(|c: char| env_char(c)) =~= v@.take(i as int).map_values(
            |c: char| env_char(c),
        ).push(env_char(c)));
        i = i + 1;
    }
    assert(v@.take(v@.len() as int) =~= v@);
    string_from_chars(&out)
}

/// The token a profile resolves to from the environment: its own variable
/// `FORTITUI_<PROFILE>` when set and not empty, else `FORTITUI_TOKEN` when set
/// and not empty (the OS keychain, which would come between, is not built in).
pub open spec fn env_token_for(profile_var: Option<Seq<char>>, global: Option<Seq<char>>) -> Option<
    Seq<char>,
> {
    match profile_var {
        Some(t) if t.len() > 0 => Some(t),
        _ => match global {
            Some(t) if t.len() > 0 => Some(t),
            _ => None,
        },
    }
}

/// A profile's own token variable takes precedence over `FORTITUI_TOKEN`;
/// an unset or empty variable counts as absent, and with both absent there is
/// no token.
pub proof fn law_token_precedence(own: Option<Seq<char>>, global: Option<Seq<char>>)
    ensures
        (own matches Some(t) && t.len() > 0) ==> env_token_for(own, global) == own,
        !(own matches Some(t) && t.len() > 0) && (global matches Some(t) && t.len() > 0)
            ==> env_token_for(own, global) == global,
        !(own matches Some(t) && t.len() > 0) && !(global matches Some(t) && t.len() > 0)
            ==> env_token_for(own, global) is None,
{
}

/// An optional string slice as characters.
pub open spec fn opt_str(o: Option<&str>) -> Option<Seq<char>> {
    match o {
        Some(s) => Some(s@),
        None => None,
    }
}

/// The token for a credential, given the values of the profile's own
/// variable (see [`env_var_for`]) and of `FORTITUI_TOKEN` (each `None` when
/// unset): the first of them that is set and not empty, else an error naming
/// the credential.
pub fn get(profile_var: Option<&str>, env_token: Option<&str>, credential: &str) -> (r: Result<
    String,
    String,
>)
    ensures
        match env_token_for(opt_str(profile_var), opt_str(env_token)) {
            Some(t) => r matches Ok(s) && s@ == t,
            None => r matches Err(e) && e@ == no_token_message(credential@),
        },
{
    if let Some(t) = profile_var {
        if !t.is_empty() {
            return Ok(t.to_owned());
        }
    }
    if let Some(t) = env_token {
        if !t.is_empty() {
            return Ok(t.to_owned());
        }
    }
    let mut out: Vec<char> = Vec::new();
    push_str(&mut out, "no token found for '");
    push_str(&mut out, credential);
    push_str(&mut out, "'. Set FORTITUI_TOKEN=<api-key> or enable the keyring feature.");
    Err(string_from_chars(&out))
}

/// The first four bytes of `s`, as characters.
pub open spec fn leading_four_bytes(s: &str) -> Seq<char> {
    decode_utf8(s.spec_bytes().subrange(0, 4))
}

/// What `redact` shows of `s`, by its UTF-8 length in bytes: `<empty>`;
/// `***` up to eight bytes; else the first four bytes and `***`.
pub open spec fn redacted(s: &str) -> Seq<char> {
    let n = s.spec_bytes().len();
    if n == 0 {
        "<empty>"@
    } else if n <= 8 {
        "***"@
    } else {
        leading_four_bytes(s) + "***"@
    }
}

/// A string fit for logs in place of a secret. Longer secrets keep only
/// their first four bytes, which must end a character (a string's length in
/// bytes always fits in `usize`).
pub fn redact(s: &str) -> (r: String)
    requires
        s.spec_bytes().len() <= usize::MAX,
        s.spec_bytes().len() > 8 ==> is_char_boundary(s.spec_bytes(), 4),
    ensures
        r@ == redacted(s),
        s.spec_bytes().len() > 8 ==> {
            let p = leading_four_bytes(s);
            &&& p.len() <= 4
            &&& p == s@.take(p.len() as int)
            &&& encode_utf8(p).len() == 4
        },
{
    let n = s.len();
    if n == 0 {
        "<empty>".to_owned()
    } else if n <= 8 {
        "***".to_owned()
    } else {
        let (head, _) = s.split_at(4);
        proof {
            let b = s.spec_bytes();
            vstd::utf8::encode_utf8_valid_utf8(s@);
            vstd::utf8::encode_utf8_decode_utf8(s@);
            vstd::utf8::encode_utf8_decode_utf8(head@);
            vstd::utf8::decode_utf8_split(b, 4);
            let p = leading_four_bytes(s);
            assert(p == head@);
            assert(s@ == p + decode_utf8(b.subrange(4, b.len() as int)));
            assert(p == s@.take(p.len() as int));
            lemma_encoded_len_at_least(p);
        }
        let mut out: Vec<char> = Vec::new();
        push_str(&mut out, head);
        push_str(&mut out, "***");
        string_from_chars(&out)
    }
}

/// Each character takes at least one byte in UTF-8.
proof fn lemma_encoded_len_at_least(c: Seq<char>)
    ensures
        encode_utf8(c).len() >= c.len(),
    decreases c.len(),
{
    if c.len() > 0 {
        lemma_encoded_len_at_least(c.drop_first());
        assert(encode_utf8(c).len() >= encode_utf8(c.drop_first()).len() + 1) by {
            vstd::utf8::encode_utf8_first_scalar(c);
        }
    }
}

} // verus!
