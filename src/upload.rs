//! The bounded multipart upload pipeline: which parts are stored, where, under
//! which URL, and which file records come back.
//!
//! The caller reads the stream and writes to disk; for each part it asks an
//! [`Upload`] what to do, and reports whether the content was written.

use vstd::prelude::*;
use crate::ids::{hyphenated_text, Id};
use crate::models::{file_views, File, FileView};

verus! {

/// Index of the last `.` in `s`, or `-1` where there is none.
pub open spec fn last_dot(s: Seq<char>) -> int
    decreases s.len(),
{
    if s.len() == 0 {
        -1
    } else if s.last() == '.' {
        s.len() - 1
    } else {
        last_dot(s.drop_last())
    }
}

/// The extension of a filename: what follows its last `.`; none without a `.`.
pub open spec fn extension_of(name: Seq<char>) -> Option<Seq<char>> {
    let k = last_dot(name);
    if k < 0 {
        None
    } else {
        Some(name.subrange(k + 1, name.len() as int))
    }
}

/// `{root}/{org}/`: the directory that holds an organization's files.
pub open spec fn organization_dir_of(root: Seq<char>, org: u128) -> Seq<char> {
    root + "/"@ + hyphenated_text(org) + "/"@
}

/// `{root}/{org}/{file}.{ext}`: where a file's content is stored.
pub open spec fn file_path_of(root: Seq<char>, org: u128, file: u128, ext: Seq<char>) -> Seq<char> {
    organization_dir_of(root, org) + hyphenated_text(file) + "."@ + ext
}

/// `http://{domain}/{org}/{file}.{ext}`: where a file's content is served.
pub open spec fn file_url_of(domain: Seq<char>, org: u128, file: u128, ext: Seq<char>) -> Seq<char> {
    "http://"@ + domain + "/"@ + hyphenated_text(org) + "/"@ + hyphenated_text(file) + "."@ + ext
}

proof fn lemma_last_dot(s: Seq<char>, k: int)
    requires
        -1 <= k < s.len(),
        k >= 0 ==> s[k] == '.',
        forall|j: int| k < j < s.len() ==> s[j] != '.',
    ensures
        last_dot(s) == k,
    decreases s.len(),
{
    if s.len() > 0 && k != s.len() - 1 {
        lemma_last_dot(s.drop_last(), k);
    }
}

/// The extension of `filename`: what follows its last `.`, or `None` where it
/// holds no `.`.
pub fn file_extension(filename: &str) -> (r: Option<String>)
    ensures
        match extension_of(filename@) {
            Some(e) => r is Some && r->0@ == e,
            None => r is None,
        },
{
    let n = filename.unicode_len();
    let mut i: usize = n;
    while i > 0
        invariant
            i <= n,
            n == filename@.len(),
            forall|j: int| i <= j < n ==> filename@[j] != '.',
        decreases i,
    {
        if filename.get_char(i - 1) == '.' {
            proof {
                lemma_last_dot(filename@, i - 1);
            }
            let ext = filename.substring_char(i, n);
            return Some(String::from_str(ext));
        }
        i = i - 1;
    }
    proof {
        lemma_last_dot(filename@, -1);
    }
    None
}

/// Where uploads go and how they are named: the storage root, the public
/// domain that URLs use, and the most files that one upload may store.
#[derive(Debug)]
pub struct FileManager {
    pub storage_root: String,
    pub public_domain: String,
    pub max_file_count: u32,
}

/// Appends the canonical text of `id` to `s`.
fn push_id(s: &mut String, id: Id)
    ensures
        final(s)@ == old(s)@ + hyphenated_text(id.bits),
{
    let t = id.to_text();
    s.append(t.as_str());
}

impl FileManager {
    pub fn new(storage_root: String, public_domain: String, max_file_count: u32) -> (r: FileManager)
        ensures
            r.storage_root@ == storage_root@,
            r.public_domain@ == public_domain@,
            r.max_file_count == max_file_count,
    {
        FileManager { storage_root, public_domain, max_file_count }
    }

    /// `{root}/{org}/`: the directory that holds an organization's files.
    pub fn organization_dir(&self, organization_id: Id) -> (r: String)
        ensures
            r@ == organization_dir_of(self.storage_root@, organization_id.bits),
    {
        let mut s = self.storage_root.clone();
        s.append("/");
        push_id(&mut s, organization_id);
        s.append("/");
        s
    }

    /// `{root}/{org}/{file}.{ext}`: where a file's content is stored.
    pub fn file_path(&self, organization_id: Id, file_id: Id, file_extension: &str) -> (r: String)
        ensures
            r@ == file_path_of(self.storage_root@, organization_id.bits, file_id.bits, file_extension@),
    {
        let mut s = self.organization_dir(organization_id);
        push_id(&mut s, file_id);
        s.append(".");
        s.append(file_extension);
        s
    }

    /// `http://{domain}/{org}/{file}.{ext}`: where a file's content is served.
    pub fn generate_file_url(&self, organization_id: Id, file_id: Id, file_extension: &str) -> (r: String)
        ensures
            r@ == file_url_of(self.public_domain@, organization_id.bits, file_id.bits, file_extension@),
    {
        let mut s = String::new();
        s.append("http://");
        s.append(self.public_domain.as_str());
        s.append("/");
        push_id(&mut s, organization_id);
        s.append("/");
        push_id(&mut s, file_id);
        s.append(".");
        s.append(file_extension);
        s
    }
}

/// One part of an upload stream as the pipeline met it: the filename it
/// carried, the identifier and time drawn for it, and whether its content was
/// fully written.
pub struct PartOutcome {
    pub filename: Option<Seq<char>>,
    pub file_id: u128,
    pub created_at: i64,
    pub stored: bool,
}

/// A part can be stored only if it has a filename, and that filename a `.`.
pub open spec fn is_storable(filename: Option<Seq<char>>) -> bool {
    filename is Some && extension_of(filename->0) is Some
}

/// The record of a stored part.
pub open spec fn record_for(domain: Seq<char>, org: u128, p: PartOutcome) -> FileView {
    FileView {
        id: p.file_id,
        name: p.filename->0,
        created_at: p.created_at,
        url: file_url_of(domain, org, p.file_id, extension_of(p.filename->0)->0),
        organization_id: org,
    }
}

/// The records that an upload of `parts` returns, in stream order: one for
/// each storable part whose content was written, until `max` are taken.
/// A part that cannot be stored, or whose write failed, takes no place.
pub open spec fn ingest(domain: Seq<char>, org: u128, max: nat, parts: Seq<PartOutcome>) -> Seq<FileView>
    decreases parts.len(),
{
    if parts.len() == 0 {
        Seq::empty()
    } else {
        let before = ingest(domain, org, max, parts.drop_last());
        let p = parts.last();
        if before.len() < max && is_storable(p.filename) && p.stored {
            before.push(record_for(domain, org, p))
        } else {
            before
        }
    }
}

/// What the caller does with the part that it has just met.
#[derive(Debug)]
pub enum PartPlan {
    /// The cap is reached: abandon the stream.
    Stop,
    /// The part is not stored: drain it and go on with the next.
    Skip,
    /// Create `directory` (it may already exist), write the part's content to
    /// the new file `path`, then report with [`Upload::finish_part`].
    Store { directory: String, path: String },
}

/// One upload into one organization, part by part, in stream order.
pub struct Upload {
    storage_root: String,
    public_domain: String,
    max_file_count: u32,
    organization_id: Id,
    files: Vec<File>,
    pending: Option<File>,
    parts: Ghost<Seq<PartOutcome>>,
}

impl FileManager {
    /// Starts an upload into the organization `organization_id`.
    pub fn start_upload(&self, organization_id: Id) -> (r: Upload)
        ensures
            r.wf(),
            r.root() == self.storage_root@,
            r.domain() == self.public_domain@,
            r.max() == self.max_file_count,
            r.organization() == organization_id.bits,
            r.parts() == Seq::<PartOutcome>::empty(),
            r.pending() is None,
    {
        let r = Upload {
            storage_root: self.storage_root.clone(),
            public_domain: self.public_domain.clone(),
            max_file_count: self.max_file_count,
            organization_id,
            files: Vec::new(),
            pending: None,
            parts: Ghost(Seq::empty()),
        };
        assert(r.records() =~= Seq::<FileView>::empty());
        r
    }
}

/// `plan` is what an upload in state `before` answers to a part named
/// `filename`, with `file_id` and `created_at` drawn for it, and `after` is its
/// next state.
pub open spec fn planned(
    before: Upload,
    after: Upload,
    filename: Option<Seq<char>>,
    file_id: u128,
    created_at: i64,
    plan: PartPlan,
) -> bool {
    let p = PartOutcome { filename, file_id, created_at, stored: false };
    let (root, org) = (before.root(), before.organization());
    &&& after.wf()
    &&& after.root() == root
    &&& after.domain() == before.domain()
    &&& after.max() == before.max()
    &&& after.organization() == org
    &&& if before.records().len() >= before.max() {
        &&& plan is Stop
        &&& after.parts() == before.parts().push(p)
        &&& after.pending() is None
    } else if !is_storable(filename) {
        &&& plan is Skip
        &&& after.parts() == before.parts().push(p)
        &&& after.pending() is None
    } else {
        &&& after.parts() == before.parts()
        &&& after.pending() == Some(p)
        &&& match plan {
            PartPlan::Store { directory, path } => {
                &&& directory@ == organization_dir_of(root, org)
                &&& path@ == file_path_of(root, org, file_id, extension_of(filename->0)->0)
            },
            _ => false,
        }
    }
}

impl Upload {
    /// The storage root.
    pub closed spec fn root(self) -> Seq<char> {
        self.storage_root@
    }

    /// The public domain of the URLs.
    pub closed spec fn domain(self) -> Seq<char> {
        self.public_domain@
    }

    /// The most records this upload returns.
    pub closed spec fn max(self) -> nat {
        self.max_file_count as nat
    }

    /// The organization that owns the uploaded files.
    pub closed spec fn organization(self) -> u128 {
        self.organization_id.bits
    }

    /// The parts met and finished so far, in stream order.
    pub closed spec fn parts(self) -> Seq<PartOutcome> {
        self.parts@
    }

    /// The part being written, if any.
    pub closed spec fn pending(self) -> Option<PartOutcome> {
        match self.pending {
            Some(f) => Some(
                PartOutcome {
                    filename: Some(f.name@),
                    file_id: f.id.bits,
                    created_at: f.created_at,
                    stored: false,
                },
            ),
            None => None,
        }
    }

    /// The records taken so far.
    pub closed spec fn records(self) -> Seq<FileView> {
        file_views(self.files@)
    }

    /// The records are those of the parts met so far, and a part being written
    /// is storable, has room, and carries its record.
    pub closed spec fn wf(self) -> bool {
        &&& self.records() == ingest(self.domain(), self.organization(), self.max(), self.parts())
        &&& self.pending is Some ==> {
            let f = self.pending->0;
            &&& self.records().len() < self.max()
            &&& is_storable(Some(f.name@))
            &&& f@ == record_for(self.domain(), self.organization(), self.pending()->0)
        }
    }

    /// Whether the cap is reached, so that no further part would be stored.
    pub fn is_full(&self) -> (r: bool)
        requires
            self.wf(),
        ensures
            r == (self.records().len() >= self.max()),
    {
        self.files.len() >= self.max_file_count as usize
    }

    /// Whether a part is being written.
    pub fn is_busy(&self) -> (r: bool)
        ensures
            r == (self.pending() is Some),
    {
        self.pending.is_some()
    }

    /// Decides what to do with the next part, named `filename`, given the
    /// identifier and time that a stored part would get.
    pub fn plan_part_with(&mut self, filename: Option<String>, file_id: Id, created_at: i64) -> (plan: PartPlan)
        requires
            old(self).wf(),
            old(self).pending() is None,
        ensures
            planned(*old(self), *final(self), filename.deep_view(), file_id.bits, created_at, plan),
    {
        let ghost fname = filename.deep_view();
        let ghost p = PartOutcome { filename: fname, file_id: file_id.bits, created_at, stored: false };
        if self.files.len() >= self.max_file_count as usize {
            proof {
                self.parts@ = self.parts@.push(p);
                assert(self.parts@.drop_last() =~= old(self).parts@);
            }
            return PartPlan::Stop;
        }
        let name = match filename {
            Some(name) => name,
            None => {
                proof {
                    self.parts@ = self.parts@.push(p);
                    assert(self.parts@.drop_last() =~= old(self).parts@);
                }
                return PartPlan::Skip;
            },
        };
        let ext = match file_extension(name.as_str()) {
            Some(ext) => ext,
            None => {
                proof {
                    self.parts@ = self.parts@.push(p);
                    assert(self.parts@.drop_last() =~= old(self).parts@);
                }
                return PartPlan::Skip;
            },
        };
        let manager = FileManager {
            storage_root: self.storage_root.clone(),
            public_domain: self.public_domain.clone(),
            max_file_count: self.max_file_count,
        };
        let url = manager.generate_file_url(self.organization_id, file_id, ext.as_str());
        let directory = manager.organization_dir(self.organization_id);
        let path = manager.file_path(self.organization_id, file_id, ext.as_str());
        self.pending = Some(
            File { id: file_id, name, created_at, url, organization_id: self.organization_id },
        );
        PartPlan::Store { directory, path }
    }

    /// Decides what to do with the next part, named `filename`; a stored part
    /// gets a fresh random identifier and the current time.
    pub fn plan_part(&mut self, filename: Option<String>) -> (plan: PartPlan)
        requires
            old(self).wf(),
            old(self).pending() is None,
        ensures
            exists|file_id: u128, created_at: i64|
                planned(*old(self), *final(self), filename.deep_view(), file_id, created_at, plan),
    {
        let file_id = Id::generate();
        let created_at = now_micros();
        self.plan_part_with(filename, file_id, created_at)
    }

    /// Reports whether the content of the part being written was fully
    /// written; only then does its record count.
    pub fn finish_part(&mut self, stored: bool)
        requires
            old(self).wf(),
            old(self).pending() is Some,
        ensures
            final(self).wf(),
            final(self).root() == old(self).root(),
            final(self).domain() == old(self).domain(),
            final(self).max() == old(self).max(),
            final(self).organization() == old(self).organization(),
            final(self).parts() == old(self).parts().push(
                PartOutcome { stored, ..old(self).pending()->0 },
            ),
            final(self).pending() is None,
    {
        let ghost p = PartOutcome { stored, ..old(self).pending()->0 };
        let pending = self.pending.take();
        proof {
            self.parts@ = self.parts@.push(p);
            assert(self.parts@.drop_last() =~= old(self).parts@);
        }
        if stored {
            match pending {
                Some(f) => {
                    self.files.push(f);
                    assert(file_views(self.files@) == file_views(old(self).files@).push(
                        record_for(self.domain(), self.organization(), p),
                    ));
                },
                None => {},
            }
        }
    }

    /// The records of the stored parts, in stream order. A part still being
    /// written has none.
    pub fn into_files(self) -> (r: Vec<File>)
        requires
            self.wf(),
        ensures
            file_views(r@) == ingest(self.domain(), self.organization(), self.max(), self.parts()),
    {
        self.files
    }
}

/// Relies on `chrono::Utc::now`: the current time, in microseconds since the
/// Unix epoch.
#[verifier::external_body]
pub(crate) fn now_micros() -> (r: i64) {
    chrono::Utc::now().timestamp_micros()
}

/// Every part storable and written.
pub open spec fn all_stored(parts: Seq<PartOutcome>) -> bool {
    forall|i: int| 0 <= i < parts.len() ==> is_storable(#[trigger] parts[i].filename) && parts[i].stored
}

proof fn lemma_all_stored(domain: Seq<char>, org: u128, max: nat, parts: Seq<PartOutcome>)
    requires
        all_stored(parts),
    ensures
        ingest(domain, org, max, parts).len() == if parts.len() <= max {
            parts.len()
        } else {
            max
        },
        forall|i: int|
            0 <= i < ingest(domain, org, max, parts).len() ==> #[trigger] ingest(domain, org, max, parts)[i]
                == record_for(domain, org, parts[i]),
    decreases parts.len(),
{
    if parts.len() > 0 {
        let before = parts.drop_last();
        assert(all_stored(before)) by {
            assert forall|i: int| 0 <= i < before.len() implies is_storable(#[trigger] before[i].filename)
                && before[i].stored by {
                assert(before[i] == parts[i]);
            }
        }
        lemma_all_stored(domain, org, max, before);
        assert(is_storable(parts[parts.len() - 1].filename));
    }
}

/// An upload of at most `max` parts, each named with an extension and each
/// written in full, returns one record per part, in stream order, with the
/// part's identifier and filename and the URL `http://{domain}/{org}/{id}.{ext}`;
/// distinct identifiers drawn for the parts make distinct records.
pub proof fn law_valid_parts_all_recorded(domain: Seq<char>, org: u128, max: nat, parts: Seq<PartOutcome>)
    requires
        parts.len() <= max,
        all_stored(parts),
    ensures
        ingest(domain, org, max, parts).len() == parts.len(),
        forall|i: int|
            0 <= i < parts.len() ==> {
                let r = #[trigger] ingest(domain, org, max, parts)[i];
                &&& r.id == parts[i].file_id
                &&& r.name == parts[i].filename->0
                &&& r.organization_id == org
                &&& r.url == file_url_of(domain, org, parts[i].file_id, extension_of(parts[i].filename->0)->0)
            },
        (forall|i: int, j: int|
            0 <= i < j < parts.len() ==> parts[i].file_id != parts[j].file_id) ==> (forall|i: int, j: int|
            0 <= i < j < parts.len() ==> ingest(domain, org, max, parts)[i].id != ingest(
                domain,
                org,
                max,
                parts,
            )[j].id),
{
    lemma_all_stored(domain, org, max, parts);
}

/// An upload of more than `max` parts, each named with an extension and each
/// written in full, returns exactly `max` records: those of the first `max`
/// parts.
pub proof fn law_cap_reached(domain: Seq<char>, org: u128, max: nat, parts: Seq<PartOutcome>)
    requires
        parts.len() > max,
        all_stored(parts),
    ensures
        ingest(domain, org, max, parts).len() == max,
        ingest(domain, org, max, parts) == ingest(domain, org, max, parts.take(max as int)),
{
    let first = parts.take(max as int);
    assert(all_stored(first)) by {
        assert forall|i: int| 0 <= i < first.len() implies is_storable(#[trigger] first[i].filename)
            && first[i].stored by {
            assert(first[i] == parts[i]);
        }
    }
    lemma_all_stored(domain, org, max, parts);
    lemma_all_stored(domain, org, max, first);
    assert(ingest(domain, org, max, parts) =~= ingest(domain, org, max, first));
}

/// Once an upload holds `max` records, no later part changes them.
pub proof fn law_full_upload_ignores_rest(
    domain: Seq<char>,
    org: u128,
    max: nat,
    parts: Seq<PartOutcome>,
    rest: Seq<PartOutcome>,
)
    requires
        ingest(domain, org, max, parts).len() >= max,
    ensures
        ingest(domain, org, max, parts + rest) == ingest(domain, org, max, parts),
    decreases rest.len(),
{
    if rest.len() > 0 {
        law_full_upload_ignores_rest(domain, org, max, parts, rest.drop_last());
        assert((parts + rest).drop_last() =~= parts + rest.drop_last());
    } else {
        assert(parts + rest =~= parts);
    }
}

/// A part without a filename, or whose filename has no `.`, takes no place in
/// an upload wherever it stands: the records, and so the count toward `max`,
/// are those of the other parts.
pub proof fn law_unstorable_part_ignored(
    domain: Seq<char>,
    org: u128,
    max: nat,
    parts: Seq<PartOutcome>,
    i: int,
    part: PartOutcome,
)
    requires
        0 <= i <= parts.len(),
        !is_storable(part.filename),
    ensures
        ingest(domain, org, max, parts.insert(i, part)) == ingest(domain, org, max, parts),
    decreases parts.len(),
{
    let q = parts.insert(i, part);
    if i == parts.len() {
        assert(q.drop_last() =~= parts);
    } else {
        law_unstorable_part_ignored(domain, org, max, parts.drop_last(), i, part);
        assert(q.drop_last() =~= parts.drop_last().insert(i, part));
        assert(q.last() == parts.last());
    }
}

} // verus!
