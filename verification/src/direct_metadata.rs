//! Direct metadata: the source object a catalog item's external metadata is read from.
use vstd::prelude::*;

verus! {

#[derive(Clone, Copy, Debug, PartialEq, Eq, Structural)]
pub enum DirectMetadataError {
    /// A stored object size is negative.
    InvalidSize,
}

/// The storage object holding the direct metadata of an item.
pub struct DirectMetadataObjectRecord {
    storage_object_id: u128,
    storage_account_id: u128,
    provider: String,
    provider_drive_id: String,
    provider_object_id: String,
    name: String,
    size: u64,
    remote_revision: Option<String>,
    resource_kind: String,
    priority: i32,
    input_revision: i64,
}

impl DirectMetadataObjectRecord {
    /// Assembles a stored object; a negative stored size is refused.
    pub fn from_stored(
        storage_object_id: u128,
        storage_account_id: u128,
        provider: String,
        provider_drive_id: String,
        provider_object_id: String,
        name: String,
        size: i64,
        remote_revision: Option<String>,
        resource_kind: String,
        priority: i32,
        input_revision: i64,
    ) -> (r: Result<Self, DirectMetadataError>)
        ensures
            match r {
                Ok(o) => size >= 0 && o.spec_size() == size && o.spec_storage_object_id() == storage_object_id
                    && o.spec_storage_account_id() == storage_account_id && o.spec_provider() == provider@
                    && o.spec_provider_drive_id() == provider_drive_id@ && o.spec_provider_object_id()
                    == provider_object_id@ && o.spec_name() == name@ && o.spec_remote_revision()
                    == crate::text::opt_string_view(remote_revision) && o.spec_resource_kind()
                    == resource_kind@ && o.spec_priority() == priority && o.spec_input_revision()
                    == input_revision,
                Err(e) => size < 0 && e == DirectMetadataError::InvalidSize,
            },
    {
        if size < 0 {
            return Err(DirectMetadataError::InvalidSize);
        }
        Ok(
            DirectMetadataObjectRecord {
                storage_object_id,
                storage_account_id,
                provider,
                provider_drive_id,
                provider_object_id,
                name,
                size: size as u64,
                remote_revision,
                resource_kind,
                priority,
                input_revision,
            },
        )
    }

    pub closed spec fn spec_storage_object_id(&self) -> u128 {
        self.storage_object_id
    }

    pub closed spec fn spec_storage_account_id(&self) -> u128 {
        self.storage_account_id
    }

    pub closed spec fn spec_provider(&self) -> Seq<char> {
        self.provider@
    }

    pub closed spec fn spec_provider_drive_id(&self) -> Seq<char> {
        self.provider_drive_id@
    }

    pub closed spec fn spec_provider_object_id(&self) -> Seq<char> {
        self.provider_object_id@
    }

    pub closed spec fn spec_name(&self) -> Seq<char> {
        self.name@
    }

    pub closed spec fn spec_size(&self) -> u64 {
        self.size
    }

    pub closed spec fn spec_remote_revision(&self) -> Option<Seq<char>> {
        crate::text::opt_string_view(self.remote_revision)
    }

    pub closed spec fn spec_resource_kind(&self) -> Seq<char> {
        self.resource_kind@
    }

    pub closed spec fn spec_priority(&self) -> i32 {
        self.priority
    }

    pub closed spec fn spec_input_revision(&self) -> i64 {
        self.input_revision
    }

    pub fn storage_object_id(&self) -> (r: u128)
        ensures
            r == self.spec_storage_object_id(),
    {
        self.storage_object_id
    }

    pub fn storage_account_id(&self) -> (r: u128)
        ensures
            r == self.spec_storage_account_id(),
    {
        self.storage_account_id
    }

    pub fn provider(&self) -> (r: &str)
        ensures
            r@ == self.spec_provider(),
    {
        self.provider.as_str()
    }

    pub fn provider_drive_id(&self) -> (r: &str)
        ensures
            r@ == self.spec_provider_drive_id(),
    {
        self.provider_drive_id.as_str()
    }

    pub fn provider_object_id(&self) -> (r: &str)
        ensures
            r@ == self.spec_provider_object_id(),
    {
        self.provider_object_id.as_str()
    }

    pub fn name(&self) -> (r: &str)
        ensures
            r@ == self.spec_name(),
    {
        self.name.as_str()
    }

    pub fn size(&self) -> (r: u64)
        ensures
            r == self.spec_size(),
    {
        self.size
    }

    pub fn remote_revision(&self) -> (r: Option<&str>)
        ensures
            crate::text::opt_str_view(r) == self.spec_remote_revision(),
    {
        match &self.remote_revision {
            Some(s) => Some(s.as_str()),
            None => None,
        }
    }

    pub fn resource_kind(&self) -> (r: &str)
        ensures
            r@ == self.spec_resource_kind(),
    {
        self.resource_kind.as_str()
    }

    pub fn priority(&self) -> (r: i32)
        ensures
            r == self.spec_priority(),
    {
        self.priority
    }

    pub fn input_revision(&self) -> (r: i64)
        ensures
            r == self.spec_input_revision(),
    {
        self.input_revision
    }

}

/// A library imports metadata itself, so direct metadata is not served for its items, when
/// it scrapes automatically or imports local metadata.
pub fn library_imports_metadata(metadata_source_mode: &str, local_metadata_access_mode: &str) -> (r: bool)
    ensures
        r == (metadata_source_mode@ == "automatic_scrape"@ || local_metadata_access_mode@ == "import"@
            || local_metadata_access_mode@ == "import_metadata_only"@),
{
    crate::text::str_eq(metadata_source_mode, "automatic_scrape") || crate::text::str_eq(
        local_metadata_access_mode,
        "import",
    ) || crate::text::str_eq(local_metadata_access_mode, "import_metadata_only")
}

} // verus!
