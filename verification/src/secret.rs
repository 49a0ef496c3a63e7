//! The secret by which the application names itself to the authorization server.

use vstd::prelude::*;

verus! {

/// The text of the secret of this application.
pub const CLIENT_SECRET: &'static str = "{\"installed\":{\"client_id\":\"726003905312-e2mq9mesjc5llclmvc04ef1k7qopv9tu.apps.googleusercontent.com\",\"project_id\":\"weighty-triode-199418\",\"auth_uri\":\"https://accounts.google.com/o/oauth2/auth\",\"token_uri\":\"https://accounts.google.com/o/oauth2/token\",\"auth_provider_x509_cert_url\":\"https://www.googleapis.com/oauth2/v1/certs\",\"client_secret\":\"hp83n1Rzz8UpxgCnqvX15qC2\",\"redirect_uris\":[\"urn:ietf:wg:oauth:2.0:oob\",\"http://localhost\"]}}";

/// The secret of an installed application.
#[derive(Debug)]
pub struct ApplicationSecret {
    pub client_id: String,
    pub client_secret: String,
    pub token_uri: String,
    pub auth_uri: String,
    pub redirect_uris: Vec<String>,
    pub project_id: Option<String>,
    pub client_email: Option<String>,
    pub auth_provider_x509_cert_url: Option<String>,
    pub client_x509_cert_url: Option<String>,
}

/// What an [`ApplicationSecret`] says.
#[verifier::ext_equal]
pub struct SecretText {
    pub client_id: Seq<char>,
    pub client_secret: Seq<char>,
    pub token_uri: Seq<char>,
    pub auth_uri: Seq<char>,
    pub redirect_uris: Seq<Seq<char>>,
    pub project_id: Option<Seq<char>>,
    pub client_email: Option<Seq<char>>,
    pub auth_provider_x509_cert_url: Option<Seq<char>>,
    pub client_x509_cert_url: Option<Seq<char>>,
}

impl View for ApplicationSecret {
    type V = SecretText;

    open spec fn view(&self) -> SecretText {
        SecretText {
            client_id: self.client_id@,
            client_secret: self.client_secret@,
            token_uri: self.token_uri@,
            auth_uri: self.auth_uri@,
            redirect_uris: crate::text::texts(self.redirect_uris@),
            project_id: crate::text::optional_text(self.project_id),
            client_email: crate::text::optional_text(self.client_email),
            auth_provider_x509_cert_url: crate::text::optional_text(
                self.auth_provider_x509_cert_url,
            ),
            client_x509_cert_url: crate::text::optional_text(self.client_x509_cert_url),
        }
    }
}

/// The error of `serde_json`, declared.
#[verifier::external_type_specification]
#[verifier::external_body]
pub struct ExJsonError(serde_json::Error);

/// What the text of a secret says of an installed application: nothing if it is not the text of
/// a secret, and `Some(None)` if it is one but names no such application.
pub uninterp spec fn console_secret(json: Seq<char>) -> Option<Option<SecretText>>;

/// `serde_json::from_str` reads a `yup_oauth2::ConsoleApplicationSecret`, of which the part for
/// an installed application is handed on. What it reads depends on the text alone; here it has a
/// name, and the grammar is left unsaid.
#[verifier::external_body]
pub(crate) fn parse_console_secret(json: &str) -> (r: Result<
    Option<ApplicationSecret>,
    serde_json::Error,
>)
    ensures
        match r {
            Ok(Some(s)) => console_secret(json@) == Some(Some(s@)),
            Ok(None) => console_secret(json@) == Some(None::<SecretText>),
            Err(_) => console_secret(json@) is None,
        },
{
    match serde_json::from_str::<yup_oauth2::ConsoleApplicationSecret>(json)?.installed {
        Some(s) => Ok(Some(ApplicationSecret {
            client_id: s.client_id,
            client_secret: s.client_secret,
            token_uri: s.token_uri,
            auth_uri: s.auth_uri,
            redirect_uris: s.redirect_uris,
            project_id: s.project_id,
            client_email: s.client_email,
            auth_provider_x509_cert_url: s.auth_provider_x509_cert_url,
            client_x509_cert_url: s.client_x509_cert_url,
        })),
        None => Ok(None),
    }
}

/// A secret that could not be had.
#[derive(Debug)]
pub enum SecretError {
    /// The text is not that of a secret.
    Json(serde_json::Error),
    /// The text that was read from a file names no installed application.
    NoValue,
    /// The built-in text names no installed application.
    NotInstalled,
}

impl SecretError {
    /// The text of the error, but for what the parser has to say for itself.
    pub open spec fn text(self) -> Option<Seq<char>> {
        match self {
            SecretError::Json(_) => None,
            SecretError::NoValue => Some("Option did not contain a value."@),
            SecretError::NotInstalled => Some("ConsoleApplicationSecret.installed is None"@),
        }
    }

    /// The text of the error, but for what the parser has to say for itself.
    pub fn message(&self) -> (r: Option<&'static str>)
        ensures
            match r {
                Some(t) => self.text() == Some(t@),
                None => self.text() is None,
            },
    {
        match self {
            SecretError::Json(_) => None,
            SecretError::NoValue => Some("Option did not contain a value."),
            SecretError::NotInstalled => Some("ConsoleApplicationSecret.installed is None"),
        }
    }
}

/// The secret out of what was read, or `missing` if no installed application was named.
pub fn installed_or(
    parsed: Result<Option<ApplicationSecret>, serde_json::Error>,
    missing: SecretError,
) -> (r: Result<ApplicationSecret, SecretError>)
    ensures
        r == match parsed {
            Ok(Some(s)) => Ok::<ApplicationSecret, SecretError>(s),
            Ok(None) => Err(missing),
            Err(e) => Err(SecretError::Json(e)),
        },
{
    match parsed {
        Ok(Some(s)) => Ok(s),
        Ok(None) => Err(missing),
        Err(e) => Err(SecretError::Json(e)),
    }
}

/// Whether `r` is what comes of the text of a secret, `missing` being the error for one that
/// names no installed application.
pub open spec fn secret_outcome(
    json: Seq<char>,
    missing: SecretError,
    r: Result<ApplicationSecret, SecretError>,
) -> bool {
    match console_secret(json) {
        Some(Some(s)) => r matches Ok(v) && v@ == s,
        Some(None) => r == Err::<ApplicationSecret, SecretError>(missing),
        None => r matches Err(SecretError::Json(_)),
    }
}

/// The secret that the text of a file holds.
pub fn read_client_secret(secret: &str) -> (r: Result<ApplicationSecret, SecretError>)
    ensures
        secret_outcome(secret@, SecretError::NoValue, r),
{
    installed_or(parse_console_secret(secret), SecretError::NoValue)
}

/// The secret with which the authenticator of the drive is made.
pub fn create_drive_auth() -> (r: Result<ApplicationSecret, SecretError>)
    ensures
        secret_outcome(CLIENT_SECRET@, SecretError::NotInstalled, r),
{
    installed_or(parse_console_secret(CLIENT_SECRET), SecretError::NotInstalled)
}

/// What comes of the text of a secret: the secret of the installed application if the text names
/// one, `missing` if it is the text of a secret but names none, and else what the parser says.
pub proof fn law_secret_outcome(
    json: Seq<char>,
    missing: SecretError,
    r: Result<ApplicationSecret, SecretError>,
)
    requires
        secret_outcome(json, missing, r),
    ensures
        console_secret(json) matches Some(Some(secret)) ==> (r matches Ok(found) && found@
            == secret),
        console_secret(json) == Some(None::<SecretText>) ==> r == Err::<
            ApplicationSecret,
            SecretError,
        >(missing),
        console_secret(json) is None ==> (r matches Err(SecretError::Json(_))),
{
}

/// What a secret says is told by its parts, each as it is.
pub proof fn law_what_a_secret_says(secret: ApplicationSecret)
    ensures
        secret@.client_id == secret.client_id@,
        secret@.client_secret == secret.client_secret@,
        secret@.token_uri == secret.token_uri@,
        secret@.auth_uri == secret.auth_uri@,
        secret@.redirect_uris == crate::text::texts(secret.redirect_uris@),
        secret@.project_id == crate::text::optional_text(secret.project_id),
        secret@.client_email == crate::text::optional_text(secret.client_email),
        secret@.auth_provider_x509_cert_url == crate::text::optional_text(
            secret.auth_provider_x509_cert_url,
        ),
        secret@.client_x509_cert_url == crate::text::optional_text(secret.client_x509_cert_url),
{
}

/// The texts of the errors that are this library's own.
pub proof fn law_texts_of_secret_errors(error: serde_json::Error)
    ensures
        SecretError::Json(error).text() is None,
        SecretError::NoValue.text() == Some("Option did not contain a value."@),
        SecretError::NotInstalled.text() == Some("ConsoleApplicationSecret.installed is None"@),
{
}

} // verus!
