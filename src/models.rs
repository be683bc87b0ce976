//! Organization and file records.

use vstd::prelude::*;
use crate::ids::Id;

verus! {

/// An organization: a tenant that owns zero or more files.
#[derive(Debug)]
pub struct Organization {
    pub id: Id,
    pub name: String,
    /// Creation time, in microseconds since the Unix epoch (UTC).
    pub created_at: i64,
}

/// The body of a request that creates or renames an organization.
#[derive(Debug)]
pub struct NewOrganization {
    pub name: String,
}

/// The metadata record of one stored file.
#[derive(Debug)]
pub struct File {
    pub id: Id,
    /// The filename that the client sent, extension included.
    pub name: String,
    /// Creation time, in microseconds since the Unix epoch (UTC).
    pub created_at: i64,
    /// Where the stored content can be fetched.
    pub url: String,
    pub organization_id: Id,
}

/// The body of a request that names a file.
#[derive(Debug)]
pub struct NewFile {
    pub name: String,
}

/// An organization as plain values.
pub struct OrganizationView {
    pub id: u128,
    pub name: Seq<char>,
    pub created_at: i64,
}

/// A file record as plain values.
pub struct FileView {
    pub id: u128,
    pub name: Seq<char>,
    pub created_at: i64,
    pub url: Seq<char>,
    pub organization_id: u128,
}

impl View for Organization {
    type V = OrganizationView;

    open spec fn view(&self) -> OrganizationView {
        OrganizationView { id: self.id.bits, name: self.name@, created_at: self.created_at }
    }
}

impl View for File {
    type V = FileView;

    open spec fn view(&self) -> FileView {
        FileView {
            id: self.id.bits,
            name: self.name@,
            created_at: self.created_at,
            url: self.url@,
            organization_id: self.organization_id.bits,
        }
    }
}

/// The plain values of a sequence of file records.
pub open spec fn file_views(files: Seq<File>) -> Seq<FileView> {
    files.map_values(|f: File| f@)
}

impl Organization {
    /// The organization that a create request makes, with the identifier and
    /// time that the store assigns.
    pub fn from_request(request: NewOrganization, id: Id, created_at: i64) -> (r: Organization)
        ensures
            r@ == (OrganizationView { id: id.bits, name: request.name@, created_at }),
    {
        Organization { id, name: request.name, created_at }
    }
}

} // verus!
