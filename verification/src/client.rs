//! What is sent to the tracker and what is made of its answer.
//!
//! The request is a GET on the ticket's address with a Basic authorization
//! header. The answer counts where its status is between 200 and 299 and its
//! body holds a key and a summary.

use crate::error::Error;
use vstd::prelude::*;
use vstd::string::StringExecFns;

verus! {

/// The variable of the environment that holds the tracker's token.
pub const TOKEN_VARIABLE: &'static str = "JIRA_TOKEN";

/// The variable of the environment that holds the tracker's base address.
pub const API_URL_VARIABLE: &'static str = "JIRA_API_URL";

/// The variable of the environment that holds the user name.
pub const USERNAME_VARIABLE: &'static str = "JIRA_USERNAME";

/// The settings as they were found in the environment: each is absent where
/// its variable is not set.
#[derive(Debug, PartialEq, Eq)]
pub struct Environment {
    pub token: Option<String>,
    pub api_url: Option<String>,
    pub username: Option<String>,
}

/// What the contracts see of an `Environment`.
pub struct EnvironmentModel {
    pub token: Option<Seq<char>>,
    pub api_url: Option<Seq<char>>,
    pub username: Option<Seq<char>>,
}

/// A setting as the contracts see it.
pub open spec fn setting_view(setting: Option<String>) -> Option<Seq<char>> {
    match setting {
        Some(text) => Some(text@),
        None => None,
    }
}

impl View for Environment {
    type V = EnvironmentModel;

    open spec fn view(&self) -> EnvironmentModel {
        EnvironmentModel {
            token: setting_view(self.token),
            api_url: setting_view(self.api_url),
            username: setting_view(self.username),
        }
    }
}

/// What one request to the tracker needs. None of the three is empty.
#[derive(Debug, PartialEq, Eq)]
pub struct Credentials {
    pub username: String,
    pub token: String,
    pub api_base_url: String,
}

/// What the contracts see of `Credentials`.
pub struct CredentialsModel {
    pub username: Seq<char>,
    pub token: Seq<char>,
    pub api_base_url: Seq<char>,
}

impl View for Credentials {
    type V = CredentialsModel;

    open spec fn view(&self) -> CredentialsModel {
        CredentialsModel {
            username: self.username@,
            token: self.token@,
            api_base_url: self.api_base_url@,
        }
    }
}

/// A setting is missing where it is not set or is set to nothing.
pub open spec fn is_missing(setting: Option<Seq<char>>) -> bool {
    match setting {
        Some(text) => text.len() == 0,
        None => true,
    }
}

/// The credentials that an environment gives, or the first setting that it
/// lacks: the token is looked at first, then the address, then the user name.
pub open spec fn credentials_of(env: EnvironmentModel) -> Result<CredentialsModel, Error> {
    if is_missing(env.token) {
        Err(Error::MissingToken)
    } else if is_missing(env.api_url) {
        Err(Error::MissingApiUrl)
    } else if is_missing(env.username) {
        Err(Error::MissingUsername)
    } else {
        Ok(
            CredentialsModel {
                username: env.username.unwrap(),
                token: env.token.unwrap(),
                api_base_url: env.api_url.unwrap(),
            },
        )
    }
}

/// The address of a ticket below the tracker's base address.
pub open spec fn issue_url_of(api_base_url: Seq<char>, key: Seq<char>) -> Seq<char> {
    api_base_url + "/rest/api/latest/issue/"@ + key
}

/// What Basic authentication encodes: the user name, a colon, the token.
pub open spec fn credential_text_of(username: Seq<char>, token: Seq<char>) -> Seq<char> {
    username + seq![':'] + token
}

/// What `base64::encode` makes of a text: the base64 form, in the standard
/// alphabet and padded, of the text's bytes in UTF-8.
pub uninterp spec fn base64_standard(text: Seq<char>) -> Seq<char>;

/// The value of the authorization header for credentials that are encoded
/// already.
pub open spec fn authorization_of(encoded: Seq<char>) -> Seq<char> {
    "Basic "@ + encoded
}

/// The value of the authorization header for a user name and a token.
pub open spec fn basic_auth_of(username: Seq<char>, token: Seq<char>) -> Seq<char> {
    authorization_of(base64_standard(credential_text_of(username, token)))
}

/// A status that counts as success: 200 to 299.
pub open spec fn is_success_status(status: u16) -> bool {
    200 <= status && status <= 299
}

/// `base64::encode` on the bytes of `text`. The contract only names what it
/// returns: the same text is encoded to the same characters. The call panics
/// where the encoded length, four bytes for every three of the text, does not
/// fit in `usize`: no `str` is that long, for none has more than `isize::MAX`
/// bytes.
#[verifier::external_body]
fn base64_encode(text: &str) -> (encoded: String)
    ensures
        encoded@ == base64_standard(text@),
{
    base64::encode(text)
}

impl Credentials {
    /// None of the three is empty.
    pub open spec fn well_formed(&self) -> bool {
        &&& self.username@.len() > 0
        &&& self.token@.len() > 0
        &&& self.api_base_url@.len() > 0
    }

    /// The credentials that `env` holds. Fails with the first setting that
    /// is not set or is empty, the token being looked at first, then the
    /// address, then the user name.
    pub fn from_environment(env: &Environment) -> (found: Result<Credentials, Error>)
        ensures
            match found {
                Ok(credentials) => credentials_of(env@) == Ok::<CredentialsModel, Error>(
                    credentials@,
                ) && credentials.well_formed(),
                Err(error) => credentials_of(env@) == Err::<CredentialsModel, Error>(error),
            },
    {
        let token = match &env.token {
            Some(text) => text,
            None => { return Err(Error::MissingToken); },
        };
        if token.as_str().is_empty() {
            return Err(Error::MissingToken);
        }
        let api_url = match &env.api_url {
            Some(text) => text,
            None => { return Err(Error::MissingApiUrl); },
        };
        if api_url.as_str().is_empty() {
            return Err(Error::MissingApiUrl);
        }
        let username = match &env.username {
            Some(text) => text,
            None => { return Err(Error::MissingUsername); },
        };
        if username.as_str().is_empty() {
            return Err(Error::MissingUsername);
        }
        Ok(
            Credentials {
                username: username.clone(),
                token: token.clone(),
                api_base_url: api_url.clone(),
            },
        )
    }
}

/// The address to GET for the ticket `key`.
pub fn issue_url(api_base_url: &str, key: &str) -> (url: String)
    ensures
        url@ == issue_url_of(api_base_url@, key@),
{
    let mut url = String::from_str(api_base_url);
    url.append("/rest/api/latest/issue/");
    url.append(key);
    url
}

/// The text that Basic authentication encodes: `username`, a colon, `token`.
pub fn credential_text(username: &str, token: &str) -> (text: String)
    ensures
        text@ == credential_text_of(username@, token@),
{
    let mut text = String::from_str(username);
    text.push(':');
    text.append(token);
    text
}

/// The value of the authorization header for credentials in base64.
pub fn authorization_value(encoded: &str) -> (value: String)
    ensures
        value@ == authorization_of(encoded@),
{
    let mut value = String::from_str("Basic ");
    value.append(encoded);
    value
}

/// The value of the authorization header: `Basic`, a space, and
/// `username:token` in base64.
pub fn basic_auth_header(username: &str, token: &str) -> (value: String)
    ensures
        value@ == basic_auth_of(username@, token@),
{
    let text = credential_text(username, token);
    let encoded = base64_encode(text.as_str());
    authorization_value(encoded.as_str())
}

/// Whether a status counts as success.
pub fn is_success(status: u16) -> (success: bool)
    ensures
        success == is_success_status(status),
{
    200 <= status && status <= 299
}

/// What the body of the tracker's answer holds of a ticket.
#[derive(Debug, PartialEq, Eq)]
pub struct Payload {
    pub key: String,
    pub summary: String,
}

/// What the contracts see of a `Payload`.
pub struct PayloadModel {
    pub key: Seq<char>,
    pub summary: Seq<char>,
}

impl View for Payload {
    type V = PayloadModel;

    open spec fn view(&self) -> PayloadModel {
        PayloadModel { key: self.key@, summary: self.summary@ }
    }
}

/// A ticket: its key and its title, neither of them empty.
#[derive(Debug, PartialEq, Eq)]
pub struct Issue {
    pub key: String,
    pub title: String,
}

/// What the contracts see of an `Issue`.
pub struct IssueModel {
    pub key: Seq<char>,
    pub title: Seq<char>,
}

impl View for Issue {
    type V = IssueModel;

    open spec fn view(&self) -> IssueModel {
        IssueModel { key: self.key@, title: self.title@ }
    }
}

/// A body as the contracts see it.
pub open spec fn body_view(body: Option<Payload>) -> Option<PayloadModel> {
    match body {
        Some(payload) => Some(payload@),
        None => None,
    }
}

/// The ticket that a body holds. A body that could not be read as a key and
/// a summary is malformed, and so is one whose key or summary is empty.
pub open spec fn issue_of(body: Option<PayloadModel>) -> Result<IssueModel, Error> {
    match body {
        Some(payload) => if payload.key.len() == 0 || payload.summary.len() == 0 {
            Err(Error::MalformedResponse)
        } else {
            Ok(IssueModel { key: payload.key, title: payload.summary })
        },
        None => Err(Error::MalformedResponse),
    }
}

impl Issue {
    /// Neither the key nor the title is empty.
    pub open spec fn well_formed(&self) -> bool {
        self.key@.len() > 0 && self.title@.len() > 0
    }

    /// The ticket that the body of an answer holds, the summary being its
    /// title. `body` is `None` where the body could not be read as a key and
    /// a summary. Fails with `MalformedResponse` on such a body and on one
    /// whose key or summary is empty.
    pub fn from_body(body: Option<Payload>) -> (read: Result<Issue, Error>)
        ensures
            match read {
                Ok(issue) => issue_of(body_view(body)) == Ok::<IssueModel, Error>(issue@)
                    && issue.well_formed(),
                Err(error) => issue_of(body_view(body)) == Err::<IssueModel, Error>(error),
            },
    {
        match body {
            Some(payload) => {
                if payload.key.as_str().is_empty() || payload.summary.as_str().is_empty() {
                    Err(Error::MalformedResponse)
                } else {
                    Ok(Issue { key: payload.key, title: payload.summary })
                }
            },
            None => Err(Error::MalformedResponse),
        }
    }
}

} // verus!
