//! Full media scans: the effective scan policy of a library, the state of a scanned root,
//! and the bounds and stored form of background expansion candidates.
use crate::discover::MetadataRequirement;
use vstd::prelude::*;

verus! {

/// The most background candidates one scan selects.
pub const MAX_BACKGROUND_CANDIDATES: u64 = 64;

#[derive(Clone, Copy, Debug, PartialEq, Eq, Structural)]
pub enum FullScanRepositoryError {
    InvalidClaim,
    StaleLibrary,
    UnavailableLibraryRoot,
    InvalidStoredPolicy,
    InvalidCandidateLimit,
    CorruptRootDependency,
    CorruptHybridCandidateBatch,
}

/// The persisted effective scan policy of a library; the metadata source and local access modes are kept as their stored names.
pub struct FullScanPolicy {
    scan_profile: String,
    object_selection_scope: String,
    metadata_policy: String,
    metadata_source_mode: String,
    local_metadata_access_mode: String,
    expansion_policy: String,
    probe_policy: String,
}

impl FullScanPolicy {
    /// The metadata depth the policy requests: none for lazy scans; otherwise its metadata
    /// policy, which must be `none`, `basic` or `full`.
    pub open spec fn spec_metadata_requirement(&self) -> Result<Option<MetadataRequirement>, FullScanRepositoryError> {
        let requirement = if self.spec_metadata_policy() == "none"@ {
            Ok(None)
        } else if self.spec_metadata_policy() == "basic"@ {
            Ok(Some(MetadataRequirement::Basic))
        } else if self.spec_metadata_policy() == "full"@ {
            Ok(Some(MetadataRequirement::Full))
        } else {
            Err(FullScanRepositoryError::InvalidStoredPolicy)
        };
        match requirement {
            Err(e) => Err(e),
            Ok(r) => if self.spec_scan_profile() == "Lazy"@ {
                Ok(None)
            } else {
                Ok(r)
            },
        }
    }

    pub fn metadata_requirement(&self) -> (r: Result<Option<MetadataRequirement>, FullScanRepositoryError>)
        ensures
            r == self.spec_metadata_requirement(),
    {
        let requirement = if crate::text::str_eq(self.metadata_policy.as_str(), "none") {
            None
        } else if crate::text::str_eq(self.metadata_policy.as_str(), "basic") {
            Some(MetadataRequirement::Basic)
        } else if crate::text::str_eq(self.metadata_policy.as_str(), "full") {
            Some(MetadataRequirement::Full)
        } else {
            return Err(FullScanRepositoryError::InvalidStoredPolicy);
        };
        if crate::text::str_eq(self.scan_profile.as_str(), "Lazy") {
            Ok(None)
        } else {
            Ok(requirement)
        }
    }

    pub fn selects_all_synced_objects(&self) -> (r: bool)
        ensures
            r == (self.spec_object_selection_scope() == "all_synced_objects"@),
    {
        crate::text::str_eq(self.object_selection_scope.as_str(), "all_synced_objects")
    }

    pub fn selects_title_layer(&self) -> (r: bool)
        ensures
            r == (self.spec_object_selection_scope() == "title_layer"@),
    {
        crate::text::str_eq(self.object_selection_scope.as_str(), "title_layer")
    }

    pub fn resolves_metadata(&self) -> (r: bool)
        ensures
            r == (self.spec_metadata_policy() != "none"@),
    {
        !crate::text::str_eq(self.metadata_policy.as_str(), "none")
    }

    pub fn expands_eagerly(&self) -> (r: bool)
        ensures
            r == (self.spec_expansion_policy() == "eager"@),
    {
        crate::text::str_eq(self.expansion_policy.as_str(), "eager")
    }

    pub fn expands_in_background(&self) -> (r: bool)
        ensures
            r == (self.spec_expansion_policy() == "background"@),
    {
        crate::text::str_eq(self.expansion_policy.as_str(), "background")
    }

    pub fn probes_eagerly(&self) -> (r: bool)
        ensures
            r == (self.spec_probe_policy() == "eager"@),
    {
        crate::text::str_eq(self.probe_policy.as_str(), "eager")
    }

    pub closed spec fn spec_scan_profile(&self) -> Seq<char> {
        self.scan_profile@
    }

    pub closed spec fn spec_object_selection_scope(&self) -> Seq<char> {
        self.object_selection_scope@
    }

    pub closed spec fn spec_metadata_policy(&self) -> Seq<char> {
        self.metadata_policy@
    }

    pub closed spec fn spec_metadata_source_mode(&self) -> Seq<char> {
        self.metadata_source_mode@
    }

    pub closed spec fn spec_local_metadata_access_mode(&self) -> Seq<char> {
        self.local_metadata_access_mode@
    }

    pub closed spec fn spec_expansion_policy(&self) -> Seq<char> {
        self.expansion_policy@
    }

    pub closed spec fn spec_probe_policy(&self) -> Seq<char> {
        self.probe_policy@
    }

    /// Assembles the value from its parts.
    pub fn from_parts(scan_profile: String, object_selection_scope: String, metadata_policy: String, metadata_source_mode: String, local_metadata_access_mode: String, expansion_policy: String, probe_policy: String) -> (r: Self)
        ensures
            r.spec_scan_profile() == scan_profile@,
            r.spec_object_selection_scope() == object_selection_scope@,
            r.spec_metadata_policy() == metadata_policy@,
            r.spec_metadata_source_mode() == metadata_source_mode@,
            r.spec_local_metadata_access_mode() == local_metadata_access_mode@,
            r.spec_expansion_policy() == expansion_policy@,
            r.spec_probe_policy() == probe_policy@,
    {
        FullScanPolicy { scan_profile, object_selection_scope, metadata_policy, metadata_source_mode, local_metadata_access_mode, expansion_policy, probe_policy }
    }

    pub fn scan_profile(&self) -> (r: &str)
        ensures
            r@ == self.spec_scan_profile(),
    {
        self.scan_profile.as_str()
    }

    pub fn object_selection_scope(&self) -> (r: &str)
        ensures
            r@ == self.spec_object_selection_scope(),
    {
        self.object_selection_scope.as_str()
    }

    pub fn metadata_policy(&self) -> (r: &str)
        ensures
            r@ == self.spec_metadata_policy(),
    {
        self.metadata_policy.as_str()
    }

    pub fn metadata_source_mode(&self) -> (r: &str)
        ensures
            r@ == self.spec_metadata_source_mode(),
    {
        self.metadata_source_mode.as_str()
    }

    pub fn local_metadata_access_mode(&self) -> (r: &str)
        ensures
            r@ == self.spec_local_metadata_access_mode(),
    {
        self.local_metadata_access_mode.as_str()
    }

    pub fn expansion_policy(&self) -> (r: &str)
        ensures
            r@ == self.spec_expansion_policy(),
    {
        self.expansion_policy.as_str()
    }

    pub fn probe_policy(&self) -> (r: &str)
        ensures
            r@ == self.spec_probe_policy(),
    {
        self.probe_policy.as_str()
    }

}

/// One library root as a full scan sees it.
#[derive(Clone, Copy, Debug, PartialEq, Eq, Structural)]
pub struct FullScanRoot {
    binding_id: u128,
    library_id: u128,
    root_id: u128,
    root_object_id: u128,
    sync_revision: i64,
    reconciled_revision: i64,
    discovered_revision: i64,
    children_indexed: bool,
    children_revision: i64,
}

impl FullScanRoot {
    /// The root's children have not been indexed yet.
    pub fn needs_inventory(self) -> (r: bool)
        ensures
            r == !self.spec_children_indexed(),
    {
        !self.children_indexed
    }

    /// Indexed children have been reconciled past what title discovery has seen.
    pub fn needs_discovery(self) -> (r: bool)
        ensures
            r == (self.spec_children_indexed() && self.spec_discovered_revision()
                < self.spec_reconciled_revision()),
    {
        self.children_indexed && self.discovered_revision < self.reconciled_revision
    }

    pub closed spec fn spec_binding_id(self) -> u128 {
        self.binding_id
    }

    pub closed spec fn spec_library_id(self) -> u128 {
        self.library_id
    }

    pub closed spec fn spec_root_id(self) -> u128 {
        self.root_id
    }

    pub closed spec fn spec_root_object_id(self) -> u128 {
        self.root_object_id
    }

    pub closed spec fn spec_sync_revision(self) -> i64 {
        self.sync_revision
    }

    pub closed spec fn spec_reconciled_revision(self) -> i64 {
        self.reconciled_revision
    }

    pub closed spec fn spec_discovered_revision(self) -> i64 {
        self.discovered_revision
    }

    pub closed spec fn spec_children_indexed(self) -> bool {
        self.children_indexed
    }

    pub closed spec fn spec_children_revision(self) -> i64 {
        self.children_revision
    }

    /// Assembles the value from its parts.
    pub fn from_parts(binding_id: u128, library_id: u128, root_id: u128, root_object_id: u128, sync_revision: i64, reconciled_revision: i64, discovered_revision: i64, children_indexed: bool, children_revision: i64) -> (r: Self)
        ensures
            r.spec_binding_id() == binding_id,
            r.spec_library_id() == library_id,
            r.spec_root_id() == root_id,
            r.spec_root_object_id() == root_object_id,
            r.spec_sync_revision() == sync_revision,
            r.spec_reconciled_revision() == reconciled_revision,
            r.spec_discovered_revision() == discovered_revision,
            r.spec_children_indexed() == children_indexed,
            r.spec_children_revision() == children_revision,
    {
        FullScanRoot { binding_id, library_id, root_id, root_object_id, sync_revision, reconciled_revision, discovered_revision, children_indexed, children_revision }
    }

    pub fn binding_id(self) -> (r: u128)
        ensures
            r == self.spec_binding_id(),
    {
        self.binding_id
    }

    pub fn library_id(self) -> (r: u128)
        ensures
            r == self.spec_library_id(),
    {
        self.library_id
    }

    pub fn root_id(self) -> (r: u128)
        ensures
            r == self.spec_root_id(),
    {
        self.root_id
    }

    pub fn root_object_id(self) -> (r: u128)
        ensures
            r == self.spec_root_object_id(),
    {
        self.root_object_id
    }

    pub fn sync_revision(self) -> (r: i64)
        ensures
            r == self.spec_sync_revision(),
    {
        self.sync_revision
    }

    pub fn reconciled_revision(self) -> (r: i64)
        ensures
            r == self.spec_reconciled_revision(),
    {
        self.reconciled_revision
    }

    pub fn discovered_revision(self) -> (r: i64)
        ensures
            r == self.spec_discovered_revision(),
    {
        self.discovered_revision
    }

    pub fn children_indexed(self) -> (r: bool)
        ensures
            r == self.spec_children_indexed(),
    {
        self.children_indexed
    }

    pub fn children_revision(self) -> (r: i64)
        ensures
            r == self.spec_children_revision(),
    {
        self.children_revision
    }

}

/// An indexed root never needs both inventory and discovery at once.
pub proof fn inventory_precedes_discovery(root: FullScanRoot)
    ensures
        !(!root.spec_children_indexed() && (root.spec_children_indexed()
            && root.spec_discovered_revision() < root.spec_reconciled_revision())),
{
}

/// A background candidate request asks for 1 to `MAX_BACKGROUND_CANDIDATES` items.
pub fn check_candidate_limit(limit: u64) -> (r: Result<(), FullScanRepositoryError>)
    ensures
        r is Ok <==> 1 <= limit <= MAX_BACKGROUND_CANDIDATES,
        r is Err ==> r == Err::<(), FullScanRepositoryError>(FullScanRepositoryError::InvalidCandidateLimit),
{
    if limit == 0 || limit > MAX_BACKGROUND_CANDIDATES {
        Err(FullScanRepositoryError::InvalidCandidateLimit)
    } else {
        Ok(())
    }
}

/// The id `uuid` parses from a text, if the text is a UUID.
pub uninterp spec fn parsed_uuid(text: Seq<char>) -> Option<u128>;

/// Calls `uuid::Uuid::parse_str` and returns the id as a `u128`. Trusted: the result is
/// `parsed_uuid` of the text.
#[verifier::external_body]
fn parse_uuid(text: &str) -> (r: Option<u128>)
    ensures
        r == parsed_uuid(text@),
{
    match uuid::Uuid::parse_str(text) {
        Ok(id) => Some(id.as_u128()),
        Err(_) => None,
    }
}

/// `k` is the position of the first `:` of `s`.
pub open spec fn first_colon(s: Seq<char>, k: int) -> bool {
    0 <= k < s.len() && s[k] == ':' && forall|j: int| 0 <= j < k ==> s[j] != ':'
}

/// The catalog item a staged candidate key names: the UUID after the key's first `:`.
pub open spec fn candidate_of(key: Seq<char>) -> Option<u128> {
    if exists|k: int| first_colon(key, k) {
        parsed_uuid(key.skip((choose|k: int| first_colon(key, k)) + 1))
    } else {
        None
    }
}

/// Reads a staged candidate key; a key without `:` or without a UUID after it is corrupt.
pub fn candidate_from_key(key: &str) -> (r: Result<u128, FullScanRepositoryError>)
    ensures
        match r {
            Ok(id) => candidate_of(key@) == Some(id),
            Err(e) => candidate_of(key@) is None && e == FullScanRepositoryError::CorruptHybridCandidateBatch,
        },
{
    let chars = crate::text::chars_of(key);
    let mut k: usize = 0;
    while k < chars.len() && chars[k] != ':'
        invariant
            chars@ == key@,
            k <= chars@.len(),
            forall|j: int| 0 <= j < k ==> key@[j] != ':',
        decreases chars.len() - k,
    {
        k = k + 1;
    }
    if k == chars.len() {
        assert(!exists|c: int| first_colon(key@, c)) by {
            if exists|c: int| first_colon(key@, c) {
                let c = choose|c: int| first_colon(key@, c);
                assert(key@[c] == ':');
            }
        }
        return Err(FullScanRepositoryError::CorruptHybridCandidateBatch);
    }
    assert(first_colon(key@, k as int));
    assert((choose|c: int| first_colon(key@, c)) == k) by {
        let c = choose|c: int| first_colon(key@, c);
        if c < k {
            assert(key@[c] == ':');
        }
        if c > k {
            assert(key@[k as int] == ':');
        }
    }
    let mut rest = String::new();
    let mut i: usize = k + 1;
    while i < chars.len()
        invariant
            chars@ == key@,
            k < chars@.len(),
            k + 1 <= i <= chars@.len(),
            rest@ == key@.subrange(k + 1, i as int),
        decreases chars.len() - i,
    {
        crate::hashing::push_char(&mut rest, chars[i]);
        assert(key@.subrange(k + 1, i + 1) =~= key@.subrange(k + 1, i as int).push(key@[i as int]));
        i = i + 1;
    }
    assert(rest@ =~= key@.skip(k + 1));
    match parse_uuid(rest.as_str()) {
        Some(id) => Ok(id),
        None => Err(FullScanRepositoryError::CorruptHybridCandidateBatch),
    }
}

/// The policy of a scan of one library root binding: a full scan of all synced objects
/// with full metadata, eager expansion and eager probing, keeping the binding's metadata
/// source and local access modes.
pub fn binding_scan_policy(metadata_source_mode: String, local_metadata_access_mode: String) -> (r: FullScanPolicy)
    ensures
        r.spec_scan_profile() == "Full"@,
        r.spec_object_selection_scope() == "all_synced_objects"@,
        r.spec_metadata_policy() == "full"@,
        r.spec_metadata_source_mode() == metadata_source_mode@,
        r.spec_local_metadata_access_mode() == local_metadata_access_mode@,
        r.spec_expansion_policy() == "eager"@,
        r.spec_probe_policy() == "eager"@,
{
    FullScanPolicy::from_parts(
        "Full".to_string(),
        "all_synced_objects".to_string(),
        "full".to_string(),
        metadata_source_mode,
        local_metadata_access_mode,
        "eager".to_string(),
        "eager".to_string(),
    )
}

/// A root-binding scan runs only at the library profile version it was queued for.
pub fn check_binding_revision(profile_version: i32, expected_revision: i64) -> (r: Result<
    (),
    FullScanRepositoryError,
>)
    ensures
        r is Ok <==> profile_version == expected_revision,
        r is Err ==> r == Err::<(), FullScanRepositoryError>(FullScanRepositoryError::StaleLibrary),
{
    if profile_version as i64 != expected_revision {
        Err(FullScanRepositoryError::StaleLibrary)
    } else {
        Ok(())
    }
}

/// The job a staged root dependency names: the UUID text of its payload's `job_id`; a
/// missing or malformed id is a corrupt dependency.
pub fn dependency_job_id(job_id_text: Option<&str>) -> (r: Result<u128, FullScanRepositoryError>)
    ensures
        match job_id_text {
            Some(t) => match parsed_uuid(t@) {
                Some(id) => r == Ok::<u128, FullScanRepositoryError>(id),
                None => r == Err::<u128, FullScanRepositoryError>(
                    FullScanRepositoryError::CorruptRootDependency,
                ),
            },
            None => r == Err::<u128, FullScanRepositoryError>(FullScanRepositoryError::CorruptRootDependency),
        },
{
    match job_id_text {
        Some(t) => match parse_uuid(t) {
            Some(id) => Ok(id),
            None => Err(FullScanRepositoryError::CorruptRootDependency),
        },
        None => Err(FullScanRepositoryError::CorruptRootDependency),
    }
}

} // verus!
