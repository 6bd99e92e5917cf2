//! The credential exchange pipeline: role-ARN construction, the request URL
//! for a federation sign-in token, extraction of the token from the
//! service's answer, and assembly of the final console login URL.
//!
//! The two network calls themselves (role assumption over STS, the HTTPS
//! GET of the sign-in token) are the caller's: the functions here take
//! their outputs as plain values.

use vstd::prelude::*;
use std::collections::HashMap;
use crate::credentials::UrlCredentials;
use crate::credentials::credentials_json;
use crate::encode::percent_encode;
use crate::encode::percent_encoded;
use crate::strutil::decimal_digits;
use crate::strutil::decimal_string;

verus! {

/// One of the three parts of a temporary credential set, named when it is
/// missing from a role-assumption answer.
#[derive(Clone, Copy, Debug, PartialEq, Eq, Structural)]
pub enum CredentialField {
    AccessKeyId,
    SecretAccessKey,
    SessionToken,
}

/// Why the exchange pipeline stopped.
#[derive(Clone, Copy, Debug, PartialEq, Eq, Structural)]
pub enum ExchangeError {
    /// The role-assumption answer lacked the named credential part.
    IncompleteCredentials(CredentialField),
    /// The sign-in token answer was not a flat JSON string object, or
    /// lacked the `SigninToken` key.
    SigninExchangeFailed,
}

impl ExchangeError {
    /// A diagnostic line for the error, naming what was missing.
    pub fn message(&self) -> (r: String)
        ensures
            r@ == match *self {
                ExchangeError::IncompleteCredentials(CredentialField::AccessKeyId) => "Unable to get the Access Key ID from the assume_role call"@,
                ExchangeError::IncompleteCredentials(CredentialField::SecretAccessKey) => "Unable to get the Secret Access Key from the assume_role call"@,
                ExchangeError::IncompleteCredentials(CredentialField::SessionToken) => "Unable to get the Session Token from the assume_role call"@,
                ExchangeError::SigninExchangeFailed => "Unable to get the SigninToken from the initial request"@,
            },
    {
        match *self {
            ExchangeError::IncompleteCredentials(CredentialField::AccessKeyId) => String::from_str(
                "Unable to get the Access Key ID from the assume_role call",
            ),
            ExchangeError::IncompleteCredentials(
                CredentialField::SecretAccessKey,
            ) => String::from_str("Unable to get the Secret Access Key from the assume_role call"),
            ExchangeError::IncompleteCredentials(CredentialField::SessionToken) => String::from_str(
                "Unable to get the Session Token from the assume_role call",
            ),
            ExchangeError::SigninExchangeFailed => String::from_str(
                "Unable to get the SigninToken from the initial request",
            ),
        }
    }
}

/// Builds the ARN of the role to assume from an account id and a role name.
pub fn role_arn(account_id: &str, role: &str) -> (r: String)
    ensures
        r@ == "arn:aws:iam::"@ + account_id@ + ":role/"@ + role@,
{
    let mut out = String::from_str("arn:aws:iam::");
    out.append(account_id);
    out.append(":role/");
    out.append(role);
    proof {
        assert(out@ =~= "arn:aws:iam::"@ + account_id@ + ":role/"@ + role@);
    }
    out
}

/// Checks a role-assumption answer for completeness: all three credential
/// parts must be present, and the first missing one is named.
pub fn credentials_from_parts(
    id: Option<String>,
    key: Option<String>,
    token: Option<String>,
) -> (r: Result<UrlCredentials, ExchangeError>)
    ensures
        match r {
            Ok(c) => {
                &&& id matches Some(i) && c.session_id == i
                &&& key matches Some(k) && c.session_key == k
                &&& token matches Some(t) && c.session_token == t
            },
            Err(e) => {
                &&& e == if id is None {
                    ExchangeError::IncompleteCredentials(CredentialField::AccessKeyId)
                } else if key is None {
                    ExchangeError::IncompleteCredentials(CredentialField::SecretAccessKey)
                } else {
                    ExchangeError::IncompleteCredentials(CredentialField::SessionToken)
                }
                &&& id is None || key is None || token is None
            },
        },
{
    let id = match id {
        Some(v) => v,
        None => {
            return Err(ExchangeError::IncompleteCredentials(CredentialField::AccessKeyId));
        },
    };
    let key = match key {
        Some(v) => v,
        None => {
            return Err(ExchangeError::IncompleteCredentials(CredentialField::SecretAccessKey));
        },
    };
    let token = match token {
        Some(v) => v,
        None => {
            return Err(ExchangeError::IncompleteCredentials(CredentialField::SessionToken));
        },
    };
    Ok(UrlCredentials::new(id, key, token))
}

/// The URL that asks the federation endpoint for a sign-in token: the
/// requested session duration and the percent-encoded credential JSON as
/// query values.
pub fn signin_token_request_url(timeout: i32, creds: &UrlCredentials) -> (r: String)
    requires
        0 <= timeout,
    ensures
        r@ == "https://signin.aws.amazon.com/federation?Action=getSigninToken&SessionDuration="@
            + decimal_digits(timeout as int) + "&Session="@ + percent_encoded(
            credentials_json(*creds),
        ),
{
    let json = creds.to_json();
    let session = percent_encode(json.as_str());
    let mut out = String::from_str(
        "https://signin.aws.amazon.com/federation?Action=getSigninToken&SessionDuration=",
    );
    let duration = decimal_string(timeout as u32);
    out.append(duration.as_str());
    out.append("&Session=");
    out.append(session.as_str());
    proof {
        assert(out@ =~= "https://signin.aws.amazon.com/federation?Action=getSigninToken&SessionDuration="@
            + decimal_digits(timeout as int) + "&Session="@ + percent_encoded(
            credentials_json(*creds),
        ));
    }
    out
}

/// The flat string-to-string object that a text parses to as JSON, when it
/// parses at all.
pub uninterp spec fn json_string_object(s: Seq<char>) -> Option<Map<Seq<char>, Seq<char>>>;

/// Relies on `serde_json::from_str`, deserializing into a map with string
/// keys and string values: the text parses exactly when it is a flat JSON
/// string object, and the pairs handed back are that object's entries,
/// each key once, in no stated order.
#[verifier::external_body]
fn parse_json_string_object(s: &str) -> (r: Option<Vec<(String, String)>>)
    ensures
        r is Some <==> json_string_object(s@) is Some,
        r matches Some(v) ==> {
            let m = json_string_object(s@)->Some_0;
            &&& forall|i: int|
                #![trigger v@[i]]
                0 <= i < v@.len() ==> m.contains_pair(v@[i].0@, v@[i].1@)
            &&& forall|i: int, j: int|
                #![trigger v@[i], v@[j]]
                0 <= i < j < v@.len() ==> v@[i].0@ != v@[j].0@
            &&& forall|k: Seq<char>|
                #![trigger m.contains_key(k)]
                m.contains_key(k) ==> exists|i: int| 0 <= i < v@.len() && v@[i].0@ == k
        },
{
    match serde_json::from_str::<HashMap<String, String>>(s) {
        Ok(m) => Some(m.into_iter().collect()),
        Err(_) => None,
    }
}

/// The value under a key in a pair list, scanning from the front.
pub open spec fn pairs_lookup(pairs: Seq<(String, String)>, key: Seq<char>) -> Option<Seq<char>>
    decreases pairs.len(),
{
    if pairs.len() == 0 {
        None
    } else if pairs[0].0@ == key {
        Some(pairs[0].1@)
    } else {
        pairs_lookup(pairs.drop_first(), key)
    }
}

proof fn lemma_pairs_lookup_none(pairs: Seq<(String, String)>, key: Seq<char>)
    ensures
        pairs_lookup(pairs, key) is None <==> forall|i: int|
            #![trigger pairs[i]]
            0 <= i < pairs.len() ==> pairs[i].0@ != key,
    decreases pairs.len(),
{
    if pairs.len() > 0 {
        lemma_pairs_lookup_none(pairs.drop_first(), key);
        assert(forall|i: int|
            #![trigger pairs[i]]
            1 <= i < pairs.len() ==> pairs[i] == pairs.drop_first()[i - 1]);
    }
}

proof fn lemma_pairs_lookup_some(pairs: Seq<(String, String)>, key: Seq<char>, value: Seq<char>)
    requires
        pairs_lookup(pairs, key) == Some(value),
    ensures
        exists|i: int| 0 <= i < pairs.len() && pairs[i].0@ == key && #[trigger] pairs[i].1@
            == value,
    decreases pairs.len(),
{
    if pairs.len() > 0 && pairs[0].0@ != key {
        lemma_pairs_lookup_some(pairs.drop_first(), key, value);
        let j = choose|j: int|
            0 <= j < pairs.drop_first().len() && pairs.drop_first()[j].0@ == key
                && #[trigger] pairs.drop_first()[j].1@ == value;
        assert(pairs[j + 1] == pairs.drop_first()[j]);
    }
}

/// Looks the sign-in token up among the parsed answer's entries. The token
/// must stand under the key `SigninToken`; the exchange never goes on with
/// a guessed one.
pub fn signin_token_from_pairs(pairs: &Vec<(String, String)>) -> (r: Result<String, ExchangeError>)
    ensures
        match r {
            Ok(t) => pairs_lookup(pairs@, "SigninToken"@) == Some(t@),
            Err(e) => pairs_lookup(pairs@, "SigninToken"@) is None && e
                == ExchangeError::SigninExchangeFailed,
        },
{
    let key = String::from_str("SigninToken");
    let n = pairs.len();
    let mut i: usize = 0;
    proof {
        assert(pairs@.skip(0) =~= pairs@);
    }
    while i < n
        invariant
            i <= n,
            n == pairs@.len(),
            key@ == "SigninToken"@,
            pairs_lookup(pairs@.skip(i as int), "SigninToken"@) == pairs_lookup(
                pairs@,
                "SigninToken"@,
            ),
        decreases n - i,
    {
        proof {
            assert(pairs@.skip(i as int)[0] == pairs@[i as int]);
            assert(pairs@.skip(i as int).drop_first() =~= pairs@.skip(i + 1));
        }
        if pairs[i].0 == key {
            return Ok(pairs[i].1.clone());
        }
        i = i + 1;
    }
    proof {
        assert(pairs@.skip(n as int) =~= Seq::<(String, String)>::empty());
    }
    Err(ExchangeError::SigninExchangeFailed)
}

/// Reads the sign-in token out of the sign-in-token service's answer body.
/// The body must be a flat JSON string object holding the key
/// `SigninToken`; anything else is a failed exchange.
pub fn signin_token_from_body(body: &str) -> (r: Result<String, ExchangeError>)
    ensures
        json_string_object(body@) is None ==> r == Err::<String, ExchangeError>(
            ExchangeError::SigninExchangeFailed,
        ),
        json_string_object(body@) matches Some(m) ==> {
            &&& r is Ok <==> m.contains_key("SigninToken"@)
            &&& r matches Ok(t) ==> m["SigninToken"@] == t@
            &&& r is Err ==> r == Err::<String, ExchangeError>(ExchangeError::SigninExchangeFailed)
        },
{
    match parse_json_string_object(body) {
        None => Err(ExchangeError::SigninExchangeFailed),
        Some(pairs) => {
            let r = signin_token_from_pairs(&pairs);
            proof {
                let m = json_string_object(body@)->Some_0;
                match pairs_lookup(pairs@, "SigninToken"@) {
                    Some(v) => {
                        lemma_pairs_lookup_some(pairs@, "SigninToken"@, v);
                    },
                    None => {
                        lemma_pairs_lookup_none(pairs@, "SigninToken"@);
                        if m.contains_key("SigninToken"@) {
                            let i = choose|i: int|
                                0 <= i < pairs@.len() && pairs@[i].0@ == "SigninToken"@;
                            assert(pairs@[i].0@ == "SigninToken"@);
                        }
                    },
                }
            }
            r
        },
    }
}

/// Assembles the final console login URL. The destination is
/// percent-encoded; the sign-in token was received as a plain value and is
/// inserted verbatim, not encoded again.
pub fn login_url(signin_token: &str) -> (r: String)
    ensures
        r@ == "https://signin.aws.amazon.com/federation?Action=login&Issuer=Example.org&Destination="@
            + percent_encoded("https://console.aws.amazon.com/"@) + "&SigninToken="@
            + signin_token@,
{
    let destination = percent_encode("https://console.aws.amazon.com/");
    let mut out = String::from_str(
        "https://signin.aws.amazon.com/federation?Action=login&Issuer=Example.org&Destination=",
    );
    out.append(destination.as_str());
    out.append("&SigninToken=");
    out.append(signin_token);
    proof {
        assert(out@ =~= "https://signin.aws.amazon.com/federation?Action=login&Issuer=Example.org&Destination="@
            + percent_encoded("https://console.aws.amazon.com/"@) + "&SigninToken="@
            + signin_token@);
    }
    out
}

} // verus!
