//! Extraction of the OAuth access token from the output of the
//! keychain query that prints the stored credentials document.

use vstd::prelude::*;
use vstd::utf8::{decode_utf8, valid_utf8};

use crate::text::string_from_utf8;

verus! {

/// `char::is_whitespace`: the characters with the Unicode `White_Space` property.
pub open spec fn is_white_space(c: char) -> bool {
    ||| '\u{9}' <= c <= '\u{d}'
    ||| c == ' '
    ||| c == '\u{85}'
    ||| c == '\u{a0}'
    ||| c == '\u{1680}'
    ||| '\u{2000}' <= c <= '\u{200a}'
    ||| c == '\u{2028}'
    ||| c == '\u{2029}'
    ||| c == '\u{202f}'
    ||| c == '\u{205f}'
    ||| c == '\u{3000}'
}

/// The text without its leading white space.
pub open spec fn trim_start_spec(s: Seq<char>) -> Seq<char>
    decreases s.len(),
{
    if s.len() > 0 && is_white_space(s[0]) {
        trim_start_spec(s.drop_first())
    } else {
        s
    }
}

/// The text without its trailing white space.
pub open spec fn trim_end_spec(s: Seq<char>) -> Seq<char>
    decreases s.len(),
{
    if s.len() > 0 && is_white_space(s.last()) {
        trim_end_spec(s.drop_last())
    } else {
        s
    }
}

/// The text without leading and trailing white space.
pub open spec fn trimmed(s: Seq<char>) -> Seq<char> {
    trim_end_spec(trim_start_spec(s))
}

/// `str::trim`: removes leading and trailing white space (`char::is_whitespace`).
#[verifier::external_body]
fn trim(s: &str) -> (t: &str)
    ensures
        t@ == trimmed(s@),
{
    s.trim()
}

/// One member of a JSON object: its key, whether its value is a JSON string,
/// and the string's contents or else the value's compact JSON text.
pub type MemberView = (Seq<char>, bool, Seq<char>);

/// What `serde_json` reads from a document that is a JSON object: its members
/// in the map's order. Nothing for text that is not a JSON object.
pub uninterp spec fn json_object_members_of(text: Seq<char>) -> Option<Seq<MemberView>>;

/// `serde_json::from_str::<serde_json::Value>`; when the document is an object,
/// each member is given back with its key, whether the value is a string, and
/// the string or else the value's compact JSON text (`Value`'s `Display`).
#[verifier::external_body]
fn json_object_members(text: &str) -> (members: Option<Vec<(String, bool, String)>>)
    ensures
        members.deep_view() == json_object_members_of(text@),
{
    match serde_json::from_str::<serde_json::Value>(text) {
        Ok(serde_json::Value::Object(map)) => Some(
            map.into_iter().map(|(key, value)| match value {
                serde_json::Value::String(s) => (key, true, s),
                other => (key, false, other.to_string()),
            }).collect(),
        ),
        _ => None,
    }
}

/// The value of the first member under `key`: whether it is a string, and its text.
pub open spec fn member_lookup(members: Seq<MemberView>, key: Seq<char>) -> Option<(bool, Seq<char>)>
    decreases members.len(),
{
    if members.len() == 0 {
        None
    } else if members[0].0 == key {
        Some((members[0].1, members[0].2))
    } else {
        member_lookup(members.drop_first(), key)
    }
}

fn find_member(members: &Vec<(String, bool, String)>, key: &str) -> (found: Option<(bool, String)>)
    ensures
        found.deep_view() == member_lookup(members.deep_view(), key@),
{
    let ghost all = members.deep_view();
    let wanted = key.to_owned();
    let mut i: usize = 0;
    assert(all.skip(0) =~= all);
    while i < members.len()
        invariant
            i <= members@.len(),
            wanted@ == key@,
            all == members.deep_view(),
            member_lookup(all, key@) == member_lookup(all.skip(i as int), key@),
        decreases members@.len() - i,
    {
        let (k, is_string, text) = &members[i];
        assert(all.skip(i as int).drop_first() =~= all.skip(i + 1));
        assert(all.skip(i as int)[0] == all[i as int]);
        assert(all[i as int] == (k@, *is_string, text@));
        if *k == wanted {
            return Some((*is_string, text.clone()));
        }
        i = i + 1;
    }
    None
}

/// The JSON text of the `claudeAiOauth` member when it is not a string
/// (`Value::get` on a string finds nothing).
pub open spec fn oauth_section_spec(members: Seq<MemberView>) -> Option<Seq<char>> {
    match member_lookup(members, "claudeAiOauth"@) {
        Some((false, text)) => Some(text),
        _ => None,
    }
}

/// The `accessToken` member's string, when it is a non-empty string.
pub open spec fn access_token_spec(members: Seq<MemberView>) -> Option<Seq<char>> {
    match member_lookup(members, "accessToken"@) {
        Some((true, token)) => if token.len() > 0 { Some(token) } else { None },
        _ => None,
    }
}

/// The JSON text of the `claudeAiOauth` member of the credentials object.
pub fn oauth_section(members: &Vec<(String, bool, String)>) -> (section: Option<String>)
    ensures
        section.deep_view() == oauth_section_spec(members.deep_view()),
{
    match find_member(members, "claudeAiOauth") {
        Some((false, text)) => Some(text),
        _ => None,
    }
}

/// The non-empty `accessToken` string of the OAuth section.
pub fn access_token(members: &Vec<(String, bool, String)>) -> (token: Option<String>)
    ensures
        token.deep_view() == access_token_spec(members.deep_view()),
{
    match find_member(members, "accessToken") {
        Some((true, token)) => {
            if token.as_str().is_empty() {
                None
            } else {
                Some(token)
            }
        },
        _ => None,
    }
}

/// The token that a keychain query yields: nothing unless the query
/// succeeded and printed UTF-8 text that, trimmed, is a JSON object whose
/// `claudeAiOauth` object holds a non-empty `accessToken` string.
pub open spec fn keychain_token_spec(succeeded: bool, stdout: Seq<u8>) -> Option<Seq<char>> {
    if !succeeded || !valid_utf8(stdout) {
        None
    } else {
        match json_object_members_of(trimmed(decode_utf8(stdout))) {
            None => None,
            Some(top) => match oauth_section_spec(top) {
                None => None,
                Some(section) => match json_object_members_of(section) {
                    None => None,
                    Some(inner) => access_token_spec(inner),
                },
            },
        }
    }
}

/// Extracts the OAuth access token from what the keychain query printed,
/// given whether the query exited successfully.
pub fn token_from_keychain_output(succeeded: bool, stdout: Vec<u8>) -> (token: Option<String>)
    ensures
        token.deep_view() == keychain_token_spec(succeeded, stdout@),
{
    if !succeeded {
        return None;
    }
    let ghost bytes = stdout@;
    let text = match string_from_utf8(stdout) {
        Some(t) => t,
        None => return None,
    };
    let document = trim(text.as_str());
    let top = match json_object_members(document) {
        Some(m) => m,
        None => return None,
    };
    let section = match oauth_section(&top) {
        Some(s) => s,
        None => return None,
    };
    let inner = match json_object_members(section.as_str()) {
        Some(m) => m,
        None => return None,
    };
    access_token(&inner)
}

/// A token extracted from keychain output is never empty.
pub proof fn lemma_keychain_token_nonempty(succeeded: bool, stdout: Seq<u8>)
    ensures
        keychain_token_spec(succeeded, stdout) matches Some(t) ==> t.len() > 0,
{
}

} // verus!
