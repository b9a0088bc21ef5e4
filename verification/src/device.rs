//! Devices: the options stored per device and the devices listed from their latest active
//! session.
//!
//! Timestamps are microseconds since the Unix epoch.
use vstd::prelude::*;

verus! {

/// The most devices listed at once.
pub const MAX_DEVICE_ROWS: u64 = 256;

#[derive(Clone, Copy, Debug, PartialEq, Eq, Structural)]
pub enum DeviceRepositoryError {
    InvalidStoredCapabilities,
}

/// The stored options of a device.
pub struct DeviceOptionsRecord {
    id: i64,
    device_id: String,
    custom_name: Option<String>,
}

impl DeviceOptionsRecord {
    pub closed spec fn spec_id(&self) -> i64 {
        self.id
    }

    pub closed spec fn spec_device_id(&self) -> Seq<char> {
        self.device_id@
    }

    pub closed spec fn spec_custom_name(&self) -> Option<Seq<char>> {
        crate::text::opt_string_view(self.custom_name)
    }

    /// Assembles the value from its parts.
    pub fn from_parts(id: i64, device_id: String, custom_name: Option<String>) -> (r: Self)
        ensures
            r.spec_id() == id,
            r.spec_device_id() == device_id@,
            r.spec_custom_name() == crate::text::opt_string_view(custom_name),
    {
        DeviceOptionsRecord { id, device_id, custom_name }
    }

    pub fn id(&self) -> (r: i64)
        ensures
            r == self.spec_id(),
    {
        self.id
    }

    pub fn device_id(&self) -> (r: &str)
        ensures
            r@ == self.spec_device_id(),
    {
        self.device_id.as_str()
    }

    pub fn custom_name(&self) -> (r: Option<&str>)
        ensures
            crate::text::opt_str_view(r) == self.spec_custom_name(),
    {
        match &self.custom_name {
            Some(s) => Some(s.as_str()),
            None => None,
        }
    }

}

/// A device as seen through its latest active session.
pub struct DeviceRecord {
    device_id: String,
    device_name: String,
    custom_name: Option<String>,
    user_id: u128,
    user_name: String,
    client_name: String,
    client_version: String,
    last_activity_at: i64,
    playable_media_types: Vec<String>,
    supported_commands: Vec<String>,
    supports_media_control: bool,
    supports_persistent_identifier: bool,
    device_profile: Option<String>,
    app_store_url: Option<String>,
    icon_url: Option<String>,
}

impl DeviceRecord {
    /// A device from its session row: its last activity is the session's last time seen,
    /// or its creation time. The device profile is kept as its JSON text.
    pub fn from_session(
        device_id: String,
        device_name: String,
        custom_name: Option<String>,
        user_id: u128,
        user_name: String,
        client_name: String,
        client_version: String,
        created_at: i64,
        last_seen_at: Option<i64>,
        playable_media_types: Vec<String>,
        supported_commands: Vec<String>,
        supports_media_control: bool,
        supports_persistent_identifier: bool,
        device_profile: Option<String>,
        app_store_url: Option<String>,
        icon_url: Option<String>,
    ) -> (r: Self)
        ensures
            r.spec_last_activity_at() == (match last_seen_at {
                Some(t) => t,
                None => created_at,
            }),
            r.spec_device_id() == device_id@ && r.spec_device_name() == device_name@
                && r.spec_custom_name() == crate::text::opt_string_view(custom_name)
                && r.spec_user_id() == user_id && r.spec_user_name() == user_name@
                && r.spec_client_name() == client_name@ && r.spec_client_version() == client_version@,
            r.spec_playable_media_types() == playable_media_types@ && r.spec_supported_commands()
                == supported_commands@ && r.spec_supports_media_control() == supports_media_control
                && r.spec_supports_persistent_identifier() == supports_persistent_identifier,
            r.spec_device_profile() == crate::text::opt_string_view(device_profile)
                && r.spec_app_store_url() == crate::text::opt_string_view(app_store_url)
                && r.spec_icon_url() == crate::text::opt_string_view(icon_url),
    {
        let last_activity_at = match last_seen_at {
            Some(t) => t,
            None => created_at,
        };
        DeviceRecord {
            device_id,
            device_name,
            custom_name,
            user_id,
            user_name,
            client_name,
            client_version,
            last_activity_at,
            playable_media_types,
            supported_commands,
            supports_media_control,
            supports_persistent_identifier,
            device_profile,
            app_store_url,
            icon_url,
        }
    }

    pub closed spec fn spec_device_id(&self) -> Seq<char> {
        self.device_id@
    }

    pub closed spec fn spec_device_name(&self) -> Seq<char> {
        self.device_name@
    }

    pub closed spec fn spec_custom_name(&self) -> Option<Seq<char>> {
        crate::text::opt_string_view(self.custom_name)
    }

    pub closed spec fn spec_user_id(&self) -> u128 {
        self.user_id
    }

    pub closed spec fn spec_user_name(&self) -> Seq<char> {
        self.user_name@
    }

    pub closed spec fn spec_client_name(&self) -> Seq<char> {
        self.client_name@
    }

    pub closed spec fn spec_client_version(&self) -> Seq<char> {
        self.client_version@
    }

    pub closed spec fn spec_last_activity_at(&self) -> i64 {
        self.last_activity_at
    }

    pub closed spec fn spec_playable_media_types(&self) -> Seq<String> {
        self.playable_media_types@
    }

    pub closed spec fn spec_supported_commands(&self) -> Seq<String> {
        self.supported_commands@
    }

    pub closed spec fn spec_supports_media_control(&self) -> bool {
        self.supports_media_control
    }

    pub closed spec fn spec_supports_persistent_identifier(&self) -> bool {
        self.supports_persistent_identifier
    }

    pub closed spec fn spec_device_profile(&self) -> Option<Seq<char>> {
        crate::text::opt_string_view(self.device_profile)
    }

    pub closed spec fn spec_app_store_url(&self) -> Option<Seq<char>> {
        crate::text::opt_string_view(self.app_store_url)
    }

    pub closed spec fn spec_icon_url(&self) -> Option<Seq<char>> {
        crate::text::opt_string_view(self.icon_url)
    }

    pub fn device_id(&self) -> (r: &str)
        ensures
            r@ == self.spec_device_id(),
    {
        self.device_id.as_str()
    }

    pub fn device_name(&self) -> (r: &str)
        ensures
            r@ == self.spec_device_name(),
    {
        self.device_name.as_str()
    }

    pub fn custom_name(&self) -> (r: Option<&str>)
        ensures
            crate::text::opt_str_view(r) == self.spec_custom_name(),
    {
        match &self.custom_name {
            Some(s) => Some(s.as_str()),
            None => None,
        }
    }

    pub fn user_id(&self) -> (r: u128)
        ensures
            r == self.spec_user_id(),
    {
        self.user_id
    }

    pub fn user_name(&self) -> (r: &str)
        ensures
            r@ == self.spec_user_name(),
    {
        self.user_name.as_str()
    }

    pub fn client_name(&self) -> (r: &str)
        ensures
            r@ == self.spec_client_name(),
    {
        self.client_name.as_str()
    }

    pub fn client_version(&self) -> (r: &str)
        ensures
            r@ == self.spec_client_version(),
    {
        self.client_version.as_str()
    }

    pub fn last_activity_at(&self) -> (r: i64)
        ensures
            r == self.spec_last_activity_at(),
    {
        self.last_activity_at
    }

    pub fn playable_media_types(&self) -> (r: &[String])
        ensures
            r@ == self.spec_playable_media_types(),
    {
        self.playable_media_types.as_slice()
    }

    pub fn supported_commands(&self) -> (r: &[String])
        ensures
            r@ == self.spec_supported_commands(),
    {
        self.supported_commands.as_slice()
    }

    pub fn supports_media_control(&self) -> (r: bool)
        ensures
            r == self.spec_supports_media_control(),
    {
        self.supports_media_control
    }

    pub fn supports_persistent_identifier(&self) -> (r: bool)
        ensures
            r == self.spec_supports_persistent_identifier(),
    {
        self.supports_persistent_identifier
    }

    pub fn device_profile(&self) -> (r: Option<&str>)
        ensures
            crate::text::opt_str_view(r) == self.spec_device_profile(),
    {
        match &self.device_profile {
            Some(s) => Some(s.as_str()),
            None => None,
        }
    }

    pub fn app_store_url(&self) -> (r: Option<&str>)
        ensures
            crate::text::opt_str_view(r) == self.spec_app_store_url(),
    {
        match &self.app_store_url {
            Some(s) => Some(s.as_str()),
            None => None,
        }
    }

    pub fn icon_url(&self) -> (r: Option<&str>)
        ensures
            crate::text::opt_str_view(r) == self.spec_icon_url(),
    {
        match &self.icon_url {
            Some(s) => Some(s.as_str()),
            None => None,
        }
    }

}

/// A stored JSON list of capability names as its shape: no value, an array whose elements
/// are strings (`Some`) or other JSON values (`None`), or some other JSON value.
pub enum StoredStringList {
    Missing,
    Array(Vec<Option<String>>),
    Other,
}

/// The names a stored list holds: none for a missing value, the strings of an array of
/// strings, and nothing (`None`) for an array with another element or any other value.
pub open spec fn listed_strings(value: StoredStringList) -> Option<Seq<Seq<char>>> {
    match value {
        StoredStringList::Missing => Some(Seq::empty()),
        StoredStringList::Array(items) => if forall|i: int| 0 <= i < items@.len() ==> (#[trigger] items@[i]) is Some {
            Some(Seq::new(items@.len(), |i: int| items@[i]->0@))
        } else {
            None
        },
        StoredStringList::Other => None,
    }
}

/// The names of a stored list, or `None` when it is not a list of strings.
pub fn strings_of(value: StoredStringList) -> (r: Option<Vec<String>>)
    ensures
        match r {
            Some(out) => listed_strings(value) == Some(out@.map_values(|s: String| s@)),
            None => listed_strings(value) is None,
        },
{
    match &value {
        StoredStringList::Missing => {
            let out: Vec<String> = Vec::new();
            assert(out@.map_values(|s: String| s@) =~= Seq::<Seq<char>>::empty());
            Some(out)
        },
        StoredStringList::Array(items) => {
            let mut out: Vec<String> = Vec::new();
            let mut i: usize = 0;
            while i < items.len()
                invariant
                    value == StoredStringList::Array(*items),
                    i <= items@.len(),
                    out@.len() == i,
                    forall|j: int| 0 <= j < i ==> (#[trigger] items@[j]) is Some && out@[j]@ == items@[j]->0@,
                decreases items@.len() - i,
            {
                match &items[i] {
                    Some(name) => {
                        out.push(name.clone());
                    },
                    None => {
                        assert(!(items@[i as int] is Some));
                        return None;
                    },
                }
                i = i + 1;
            }
            assert(out@.map_values(|s: String| s@) =~= Seq::new(items@.len(), |j: int| items@[j]->0@));
            Some(out)
        },
        StoredStringList::Other => None,
    }
}

/// The capability names of a stored device; anything but a list of strings is invalid.
pub fn string_array(value: StoredStringList) -> (r: Result<Vec<String>, DeviceRepositoryError>)
    ensures
        match r {
            Ok(out) => listed_strings(value) == Some(out@.map_values(|s: String| s@)),
            Err(e) => listed_strings(value) is None && e == DeviceRepositoryError::InvalidStoredCapabilities,
        },
{
    match strings_of(value) {
        Some(out) => Ok(out),
        None => Err(DeviceRepositoryError::InvalidStoredCapabilities),
    }
}

} // verus!
