//! The settings that the service needs at startup, checked once.

use vstd::prelude::*;
use crate::upload::FileManager;

verus! {

/// The settings, all present and valid.
#[derive(Debug)]
pub struct Settings {
    /// The database connection string.
    pub database_url: String,
    /// The directory under which uploaded content is stored.
    pub storage_root: String,
    /// The domain that file URLs name.
    pub public_domain: String,
    /// The most files that one upload stores; positive.
    pub max_file_upload_count: u32,
}

/// The first setting that is missing or invalid.
#[derive(Clone, Copy, PartialEq, Eq, Structural, Debug)]
pub enum SettingsError {
    MissingDatabaseUrl,
    MissingStorageRoot,
    MissingPublicDomain,
    MissingMaxFileUploadCount,
    /// The upload count is not an integer, or not positive.
    InvalidMaxFileUploadCount,
}

/// What `str::parse::<i32>` makes of a text: the integer, or nothing.
pub uninterp spec fn parsed_i32(s: Seq<char>) -> Option<i32>;

/// Relies on `str::parse::<i32>`: an optional sign and decimal digits, within
/// range; an empty text is refused.
#[verifier::external_body]
fn parse_i32(s: &str) -> (r: Option<i32>)
    ensures
        r == parsed_i32(s@),
        s@.len() == 0 ==> r is None,
{
    s.parse::<i32>().ok()
}

/// The first problem with the given settings, if any; they are checked in the
/// order of the parameters.
pub open spec fn settings_problem(
    database_url: Option<Seq<char>>,
    storage_root: Option<Seq<char>>,
    public_domain: Option<Seq<char>>,
    max_file_upload_count: Option<Seq<char>>,
) -> Option<SettingsError> {
    if database_url is None {
        Some(SettingsError::MissingDatabaseUrl)
    } else if storage_root is None {
        Some(SettingsError::MissingStorageRoot)
    } else if public_domain is None {
        Some(SettingsError::MissingPublicDomain)
    } else if max_file_upload_count is None {
        Some(SettingsError::MissingMaxFileUploadCount)
    } else {
        match parsed_i32(max_file_upload_count->0) {
            Some(n) => if n > 0 {
                None
            } else {
                Some(SettingsError::InvalidMaxFileUploadCount)
            },
            None => Some(SettingsError::InvalidMaxFileUploadCount),
        }
    }
}

impl Settings {
    /// Checks the raw settings; `None` stands for one that is not set.
    pub fn from_values(
        database_url: Option<String>,
        storage_root: Option<String>,
        public_domain: Option<String>,
        max_file_upload_count: Option<String>,
    ) -> (r: Result<Settings, SettingsError>)
        ensures
            ({
                let problem = settings_problem(
                    database_url.deep_view(),
                    storage_root.deep_view(),
                    public_domain.deep_view(),
                    max_file_upload_count.deep_view(),
                );
                match r {
                    Ok(s) => {
                        &&& problem is None
                        &&& s.database_url@ == database_url->0@
                        &&& s.storage_root@ == storage_root->0@
                        &&& s.public_domain@ == public_domain->0@
                        &&& parsed_i32(max_file_upload_count->0@) == Some(s.max_file_upload_count as i32)
                        &&& s.max_file_upload_count > 0
                    },
                    Err(e) => problem == Some(e),
                }
            }),
    {
        let database_url = match database_url {
            Some(v) => v,
            None => return Err(SettingsError::MissingDatabaseUrl),
        };
        let storage_root = match storage_root {
            Some(v) => v,
            None => return Err(SettingsError::MissingStorageRoot),
        };
        let public_domain = match public_domain {
            Some(v) => v,
            None => return Err(SettingsError::MissingPublicDomain),
        };
        let count = match max_file_upload_count {
            Some(v) => v,
            None => return Err(SettingsError::MissingMaxFileUploadCount),
        };
        match parse_i32(count.as_str()) {
            Some(n) => {
                if n > 0 {
                    Ok(
                        Settings {
                            database_url,
                            storage_root,
                            public_domain,
                            max_file_upload_count: n as u32,
                        },
                    )
                } else {
                    Err(SettingsError::InvalidMaxFileUploadCount)
                }
            },
            None => Err(SettingsError::InvalidMaxFileUploadCount),
        }
    }

    /// The upload pipeline that these settings configure.
    pub fn file_manager(&self) -> (r: FileManager)
        ensures
            r.storage_root@ == self.storage_root@,
            r.public_domain@ == self.public_domain@,
            r.max_file_count == self.max_file_upload_count,
    {
        FileManager::new(self.storage_root.clone(), self.public_domain.clone(), self.max_file_upload_count)
    }
}

} // verus!
