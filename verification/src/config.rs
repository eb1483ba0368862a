//! The identity and credentials that the application keeps for every repository.

use vstd::prelude::*;
use vstd::string::*;
use crate::text;

verus! {

/// The user's identity and, where there is one, the password for the remote.
#[derive(Debug)]
pub struct GitCredentials {
    pub username: String,
    pub email: String,
    pub password: Option<String>,
}

/// The application's configuration record.
#[derive(Debug)]
pub struct AppConfig {
    pub git_credentials: GitCredentials,
}

/// Why the configuration could not be read or written.
#[derive(Debug)]
pub enum ConfigError {
    /// The file system refused; the text says how.
    Io(String),
    /// The record is not the JSON that is expected; the text says how.
    Json(String),
    /// There is no configuration file.
    ConfigNotFound,
}

/// `GitCredentials` as mathematical values.
pub struct CredentialsView {
    pub username: Seq<char>,
    pub email: Seq<char>,
    pub password: Option<Seq<char>>,
}

/// The characters of a text that may be absent.
pub open spec fn text_view(text: Option<&str>) -> Option<Seq<char>> {
    match text {
        Some(t) => Some(t@),
        None => None,
    }
}

/// The characters of a string that may be absent.
pub open spec fn string_view(text: Option<String>) -> Option<Seq<char>> {
    match text {
        Some(t) => Some(t@),
        None => None,
    }
}

impl View for GitCredentials {
    type V = CredentialsView;

    open spec fn view(&self) -> CredentialsView {
        CredentialsView {
            username: self.username@,
            email: self.email@,
            password: string_view(self.password),
        }
    }
}

impl View for AppConfig {
    type V = CredentialsView;

    /// A configuration is the credentials it holds.
    open spec fn view(&self) -> CredentialsView {
        self.git_credentials@
    }
}

/// The name of the configuration file inside the storage directory.
pub open spec fn config_file_name() -> Seq<char> {
    "config.json"@
}

/// What `get_config_path` reports where there is no storage directory.
pub open spec fn storage_unavailable() -> Seq<char> {
    "无法获取存储目录"@
}

/// An owned copy of a text that may be absent.
fn owned(text: Option<&str>) -> (r: Option<String>)
    ensures
        string_view(r) == text_view(text),
{
    match text {
        Some(t) => Some(String::from_str(t)),
        None => None,
    }
}

/// A password as a form hands it over: the empty text stands for "none".
pub fn entered_password(password: &str) -> (r: Option<&str>)
    ensures
        password@.len() == 0 ==> r is None,
        password@.len() != 0 ==> r == Some(password),
{
    if password.unicode_len() == 0 {
        None
    } else {
        Some(password)
    }
}

impl ConfigError {
    /// The error as text: what failed, followed by what the error carries.
    pub open spec fn text(self) -> Seq<char> {
        match self {
            ConfigError::Io(why) => "IO error: "@ + why@,
            ConfigError::Json(why) => "JSON error: "@ + why@,
            ConfigError::ConfigNotFound => "Config file not found"@,
        }
    }

    /// The error as text for a person to read.
    pub fn message(&self) -> (r: String)
        ensures
            r@ == self.text(),
    {
        match self {
            ConfigError::Io(why) => String::from_str("IO error: ").concat(why.as_str()),
            ConfigError::Json(why) => String::from_str("JSON error: ").concat(why.as_str()),
            ConfigError::ConfigNotFound => String::from_str("Config file not found"),
        }
    }
}

impl AppConfig {
    /// Where the configuration file stands: `config.json` in the storage directory.
    /// Without a storage directory there is no such place, which is reported as an I/O
    /// failure.
    pub fn get_config_path(storage_dir: Option<&str>) -> (r: Result<String, ConfigError>)
        ensures
            match storage_dir {
                Some(dir) => r matches Ok(path) && path@ == text::joined(dir@, config_file_name()),
                None => r matches Err(ConfigError::Io(why)) && why@ == storage_unavailable(),
            },
    {
        match storage_dir {
            Some(dir) => Ok(text::join(dir, "config.json")),
            None => Err(ConfigError::Io(String::from_str("无法获取存储目录"))),
        }
    }

    /// A configuration that holds the given identity and password.
    pub fn new(username: &str, email: &str, password: Option<&str>) -> (r: AppConfig)
        ensures
            r@ == (CredentialsView {
                username: username@,
                email: email@,
                password: text_view(password),
            }),
    {
        AppConfig {
            git_credentials: GitCredentials {
                username: String::from_str(username),
                email: String::from_str(email),
                password: owned(password),
            },
        }
    }
}

} // verus!
