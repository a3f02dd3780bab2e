//! The account that downloads are made with: a user name and a token, kept
//! in a file between runs.

use crate::error::ServerError;
use crate::paths::RelPath;
use crate::text::chain;
use vstd::prelude::*;
use vstd::string::*;

verus! {

broadcast use vstd::string::group_string_axioms;

/// The endpoint that exchanges a password for a token.
pub const LOGIN_URL: &'static str = "https://auth.factorio.com/api-login";

/// A user name and the token that stands for its password.
#[derive(Debug, PartialEq, Eq)]
pub struct Credentials {
    pub username: String,
    pub token: String,
}

impl Clone for Credentials {
    fn clone(&self) -> (copy: Self)
        ensures
            copy == *self,
    {
        Credentials { username: self.username.clone(), token: self.token.clone() }
    }
}

/// The answer of the login endpoint when it refuses a login.
#[derive(Debug, PartialEq, Eq)]
pub struct CredentialsFailure {
    pub error: String,
    pub message: String,
}

impl Clone for CredentialsFailure {
    fn clone(&self) -> (copy: Self)
        ensures
            copy == *self,
    {
        CredentialsFailure { error: self.error.clone(), message: self.message.clone() }
    }
}

impl CredentialsFailure {
    /// The refusal in one line.
    pub fn to_string(&self) -> (text: String)
        ensures
            text@ == "error: "@ + self.error@ + ", message: "@ + self.message@,
    {
        let mut text = chain("error: ", self.error.as_str());
        text.append(", message: ");
        text.append(self.message.as_str());
        text
    }
}

/// What the login endpoint answered.
#[derive(Debug, PartialEq, Eq)]
pub enum LoginReply {
    /// A 2xx answer: the account's name and token.
    Granted(Credentials),
    /// Any other answer: the endpoint's reason.
    Refused(CredentialsFailure),
}

/// What `save` asks of the file that holds the credentials.
#[derive(Debug, PartialEq, Eq)]
pub enum SaveAction {
    /// Write these credentials to the file, replacing what it held.
    Write(Credentials),
    /// Delete the file.
    Remove,
    /// Leave things as they are: there is no file, and none is wanted.
    Nothing,
}

/// What the file holds once the action is done: `None` for no file.
/// Nothing is done only where there is no file.
pub open spec fn stored_after(action: SaveAction) -> Option<Credentials> {
    match action {
        SaveAction::Write(credentials) => Some(credentials),
        SaveAction::Remove => None,
        SaveAction::Nothing => None,
    }
}

/// The fields of the login form.
pub open spec fn login_form_spec(
    username: Seq<char>,
    password: Seq<char>,
    email_code: Seq<char>,
) -> Seq<(Seq<char>, Seq<char>)> {
    seq![
        ("username"@, username),
        ("password"@, password),
        ("api_version"@, "3"@),
        ("require_game_ownership"@, "true"@),
    ] + if email_code.len() > 0 {
        seq![("email_authentication_code"@, email_code)]
    } else {
        Seq::empty()
    }
}

/// The views of the fields of a form.
pub open spec fn field_views(fields: Seq<(String, String)>) -> Seq<(Seq<char>, Seq<char>)> {
    fields.map_values(|field: (String, String)| (field.0@, field.1@))
}

fn push_field(fields: &mut Vec<(String, String)>, key: &str, value: &str)
    ensures
        field_views(final(fields)@) == field_views(old(fields)@).push((key@, value@)),
{
    fields.push((String::from_str(key), String::from_str(value)));
    assert(field_views(fields@) =~= field_views(old(fields)@).push((key@, value@)));
}

/// Whether an HTTP status is one of success: 200 to 299.
pub fn is_success(status: u16) -> (success: bool)
    ensures
        success == (200 <= status < 300),
{
    200 <= status && status < 300
}

/// Holds the credentials and knows the file they are kept in.
#[derive(Debug)]
pub struct CredentialManager {
    save_file: RelPath,
    credentials: Option<Credentials>,
}

impl CredentialManager {
    /// The credentials held; `None` when logged out.
    pub closed spec fn state(&self) -> Option<Credentials> {
        self.credentials
    }

    /// The file that the credentials are kept in.
    pub closed spec fn file(&self) -> RelPath {
        self.save_file
    }

    /// The manager for `save_file` that holds `stored`.
    pub closed spec fn loaded(save_file: RelPath, stored: Option<Credentials>) -> Self {
        CredentialManager { save_file, credentials: stored }
    }

    /// What `save` asks for, given whether the file exists.
    pub closed spec fn save_spec(&self, file_exists: bool) -> SaveAction {
        match self.credentials {
            Some(credentials) => SaveAction::Write(credentials),
            None => if file_exists {
                SaveAction::Remove
            } else {
                SaveAction::Nothing
            },
        }
    }

    /// The manager for `save_file`, holding what the file held: `None`
    /// where there was no file.
    pub fn load(save_file: RelPath, stored: Option<Credentials>) -> (manager: Self)
        ensures
            manager == Self::loaded(save_file, stored),
            manager.state() == stored,
            manager.file() == save_file,
    {
        CredentialManager { save_file, credentials: stored }
    }

    /// The file that the credentials are kept in.
    pub fn save_file(&self) -> (path: &RelPath)
        ensures
            *path == self.file(),
    {
        &self.save_file
    }

    /// The form that asks the login endpoint for a token. The code that was
    /// sent by mail is a field of it only if there is one.
    pub fn login_form(username: &str, password: &str, email_code: &str) -> (fields: Vec<
        (String, String),
    >)
        ensures
            field_views(fields@) == login_form_spec(username@, password@, email_code@),
    {
        let mut fields: Vec<(String, String)> = Vec::new();
        assert(field_views(fields@) =~= Seq::<(Seq<char>, Seq<char>)>::empty());
        push_field(&mut fields, "username", username);
        push_field(&mut fields, "password", password);
        push_field(&mut fields, "api_version", "3");
        push_field(&mut fields, "require_game_ownership", "true");
        if email_code.unicode_len() > 0 {
            push_field(&mut fields, "email_authentication_code", email_code);
        }
        assert(field_views(fields@) =~= login_form_spec(username@, password@, email_code@));
        fields
    }

    /// Takes the answer of the login endpoint: granted credentials are
    /// held from now on, a refusal is the error and changes nothing.
    pub fn finish_login(&mut self, reply: LoginReply) -> (r: Result<(), ServerError>)
        ensures
            final(self).file() == old(self).file(),
            match reply {
                LoginReply::Granted(credentials) => r is Ok && final(self).state() == Some(
                    credentials,
                ),
                LoginReply::Refused(failure) => r == Err::<(), ServerError>(
                    ServerError::CredentialsFailure(failure),
                ) && final(self).state() == old(self).state(),
            },
    {
        match reply {
            LoginReply::Granted(credentials) => {
                self.credentials = Some(credentials);
                Ok(())
            },
            LoginReply::Refused(failure) => Err(ServerError::CredentialsFailure(failure)),
        }
    }

    /// Holds the given name and token from now on.
    pub fn login_with_token(&mut self, username: String, token: String)
        ensures
            final(self).state() == Some(Credentials { username, token }),
            final(self).file() == old(self).file(),
    {
        self.credentials = Some(Credentials { username, token });
    }

    /// What to do to the file so that it holds what the manager holds,
    /// given whether the file exists: write the credentials; or, when logged
    /// out, delete the file if there is one.
    pub fn save(&self, file_exists: bool) -> (action: SaveAction)
        ensures
            action == self.save_spec(file_exists),
            stored_after(action) == self.state(),
            action is Write <==> self.state() is Some,
            action is Remove <==> self.state() is None && file_exists,
    {
        match &self.credentials {
            Some(credentials) => SaveAction::Write(credentials.clone()),
            None => if file_exists {
                SaveAction::Remove
            } else {
                SaveAction::Nothing
            },
        }
    }

    /// Whether credentials are held.
    pub fn has_token(&self) -> (has: bool)
        ensures
            has == self.state() is Some,
    {
        self.credentials.is_some()
    }

    /// The credentials held; `NotAllowed` when logged out.
    pub fn get_credentials(&self) -> (r: Result<Credentials, ServerError>)
        ensures
            match self.state() {
                Some(credentials) => r == Ok::<Credentials, ServerError>(credentials),
                None => r matches Err(ServerError::NotAllowed(text)) && text@
                    == "No credentials found"@,
            },
    {
        match &self.credentials {
            Some(credentials) => Ok(credentials.clone()),
            None => Err(ServerError::NotAllowed(String::from_str("No credentials found"))),
        }
    }

    /// Forgets the credentials.
    pub fn logout(&mut self)
        ensures
            final(self).state() is None,
            final(self).file() == old(self).file(),
    {
        self.credentials = None;
    }
}

/// Saving and then loading from the same file gives back a manager that
/// holds what the first one held, logged out included: the file then does
/// not exist, whether there was one before or not.
pub proof fn lemma_save_then_load(manager: CredentialManager, file_exists: bool)
    ensures
        CredentialManager::loaded(manager.file(), stored_after(manager.save_spec(file_exists)))
            == manager,
{
}

} // verus!
