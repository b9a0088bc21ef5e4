//! The read-index state of one filesystem storage account: which physical root identity has
//! been verified, which one is pending validation, and whether object access is allowed.
use crate::catalog_publication::opt_view;
use vstd::prelude::*;

verus! {

#[derive(Clone, Copy, Debug, PartialEq, Eq, Structural)]
pub enum FilesystemIndexState {
    Ready,
    Rebuilding,
    Failed,
}

#[derive(Clone, Copy, Debug, PartialEq, Eq, Structural)]
pub enum FilesystemIndexError {
    /// The stored state text is not one of the known states.
    InvalidState,
}

/// The state a stored text names; a missing state reads as `Rebuilding`.
pub open spec fn state_of(value: Option<Seq<char>>) -> Result<FilesystemIndexState, FilesystemIndexError> {
    match value {
        None => Ok(FilesystemIndexState::Rebuilding),
        Some(v) => if v == "Ready"@ {
            Ok(FilesystemIndexState::Ready)
        } else if v == "Rebuilding"@ {
            Ok(FilesystemIndexState::Rebuilding)
        } else if v == "Failed"@ {
            Ok(FilesystemIndexState::Failed)
        } else {
            Err(FilesystemIndexError::InvalidState)
        },
    }
}

/// The stored text of a state.
pub open spec fn state_text(state: FilesystemIndexState) -> Seq<char> {
    match state {
        FilesystemIndexState::Ready => "Ready"@,
        FilesystemIndexState::Rebuilding => "Rebuilding"@,
        FilesystemIndexState::Failed => "Failed"@,
    }
}

pub fn parse_state(value: Option<&str>) -> (r: Result<FilesystemIndexState, FilesystemIndexError>)
    ensures
        r == state_of(
            match value {
                Some(v) => Some(v@),
                None => None,
            },
        ),
{
    proof {
        reveal_strlit("Ready");
        reveal_strlit("Rebuilding");
        reveal_strlit("Failed");
    }
    match value {
        None => Ok(FilesystemIndexState::Rebuilding),
        Some(v) => if crate::text::str_eq(v, "Ready") {
            Ok(FilesystemIndexState::Ready)
        } else if crate::text::str_eq(v, "Rebuilding") {
            Ok(FilesystemIndexState::Rebuilding)
        } else if crate::text::str_eq(v, "Failed") {
            Ok(FilesystemIndexState::Failed)
        } else {
            Err(FilesystemIndexError::InvalidState)
        },
    }
}

impl FilesystemIndexState {
    pub fn as_str(&self) -> (r: &'static str)
        ensures
            r@ == state_text(*self),
    {
        proof {
            reveal_strlit("Ready");
            reveal_strlit("Rebuilding");
            reveal_strlit("Failed");
        }
        match self {
            FilesystemIndexState::Ready => "Ready",
            FilesystemIndexState::Rebuilding => "Rebuilding",
            FilesystemIndexState::Failed => "Failed",
        }
    }
}

/// The stored index configuration of one filesystem account.
#[derive(Clone, Debug)]
pub struct FilesystemIndexConfig {
    pub state: Option<String>,
    pub verified_identity: Option<String>,
    pub pending_identity: Option<String>,
    pub error: Option<String>,
    pub revision: Option<i64>,
}

/// The configuration as values.
pub struct IndexConfigView {
    pub state: Option<Seq<char>>,
    pub verified_identity: Option<Seq<char>>,
    pub pending_identity: Option<Seq<char>>,
    pub error: Option<Seq<char>>,
    pub revision: Option<i64>,
}

impl View for FilesystemIndexConfig {
    type V = IndexConfigView;

    open spec fn view(&self) -> IndexConfigView {
        IndexConfigView {
            state: opt_view(self.state),
            verified_identity: opt_view(self.verified_identity),
            pending_identity: opt_view(self.pending_identity),
            error: opt_view(self.error),
            revision: self.revision,
        }
    }
}

/// The mount is already verified and ready under this identity.
pub open spec fn ready_for(c: IndexConfigView, identity: Seq<char>) -> bool {
    c.state == Some("Ready"@) && c.verified_identity == Some(identity)
}

/// A first mount with no identity recorded yet is adopted without a rebuild.
pub open spec fn adoptable(c: IndexConfigView, namespace_changed: bool) -> bool {
    !namespace_changed && c.verified_identity is None && c.pending_identity is None
}

/// Preparing a mount: the new configuration and whether a validation must be scheduled.
pub open spec fn prepared(c: IndexConfigView, identity: Seq<char>, namespace_changed: bool) -> (
    IndexConfigView,
    bool,
) {
    if ready_for(c, identity) {
        (c, false)
    } else if adoptable(c, namespace_changed) {
        (
            IndexConfigView {
                state: Some("Ready"@),
                verified_identity: Some(identity),
                error: None,
                ..c
            },
            false,
        )
    } else {
        (
            IndexConfigView {
                state: Some("Rebuilding"@),
                pending_identity: Some(identity),
                error: None,
                ..c
            },
            true,
        )
    }
}

/// Publishing a reconciled root sync of a rebuilding index.
pub open spec fn published(c: IndexConfigView, revision: i64) -> IndexConfigView {
    if c.state == Some("Rebuilding"@) {
        IndexConfigView {
            state: Some("Ready"@),
            verified_identity: c.pending_identity,
            pending_identity: None,
            revision: Some(revision),
            error: None,
        }
    } else {
        c
    }
}

/// Marking a rebuilding index failed.
pub open spec fn failed(c: IndexConfigView, error: Seq<char>) -> IndexConfigView {
    if c.state == Some("Rebuilding"@) {
        IndexConfigView { state: Some("Failed"@), error: Some(error), ..c }
    } else {
        c
    }
}

fn opt_str_eq(a: &Option<String>, b: &str) -> (r: bool)
    ensures
        r == (opt_view(*a) == Some(b@)),
{
    match a {
        Some(s) => crate::text::str_eq(s.as_str(), b),
        None => false,
    }
}

fn owned(s: &str) -> (r: String)
    ensures
        r@ == s@,
{
    s.to_owned()
}

impl FilesystemIndexConfig {
    /// Reconciles a runtime mount identity with the stored state. An already verified ready
    /// identity changes nothing; a first mount is adopted as ready; any other mount becomes
    /// pending and the index is rebuilt. Returns whether a validation must be scheduled.
    pub fn prepare_mount(&mut self, physical_identity: &str, namespace_changed: bool) -> (schedule: bool)
        ensures
            (final(self)@, schedule) == prepared(old(self)@, physical_identity@, namespace_changed),
    {
        proof {
            reveal_strlit("Ready");
            reveal_strlit("Rebuilding");
        }
        if opt_str_eq(&self.state, "Ready") && opt_str_eq(&self.verified_identity, physical_identity) {
            return false;
        }
        if !namespace_changed && self.verified_identity.is_none() && self.pending_identity.is_none() {
            self.state = Some(owned("Ready"));
            self.verified_identity = Some(owned(physical_identity));
            self.error = None;
            return false;
        }
        self.state = Some(owned("Rebuilding"));
        self.pending_identity = Some(owned(physical_identity));
        self.error = None;
        true
    }

    /// After the root sync of a rebuilding index is reconciled, the pending identity becomes
    /// the verified one and the index is ready at that revision. Other states are unchanged.
    pub fn publish_ready(&mut self, revision: i64)
        ensures
            final(self)@ == published(old(self)@, revision),
    {
        proof {
            reveal_strlit("Ready");
            reveal_strlit("Rebuilding");
        }
        if opt_str_eq(&self.state, "Rebuilding") {
            self.state = Some(owned("Ready"));
            self.verified_identity = self.pending_identity.take();
            self.revision = Some(revision);
            self.error = None;
        }
    }

    /// A rebuilding index that failed its terminal validation is marked failed with the
    /// error. Other states are unchanged.
    pub fn mark_failed(&mut self, error: &str)
        ensures
            final(self)@ == failed(old(self)@, error@),
    {
        proof {
            reveal_strlit("Rebuilding");
            reveal_strlit("Failed");
        }
        if opt_str_eq(&self.state, "Rebuilding") {
            self.state = Some(owned("Failed"));
            self.error = Some(owned(error));
        }
    }

    /// Whether object access is allowed: the parsed state.
    pub fn index_state(&self) -> (r: Result<FilesystemIndexState, FilesystemIndexError>)
        ensures
            r == state_of(self@.state),
    {
        match &self.state {
            Some(s) => parse_state(Some(s.as_str())),
            None => parse_state(None),
        }
    }
}

/// Once a mount has been prepared and the reconciled revision published, the index is ready
/// and preparing the same mount again schedules no validation and changes nothing.
pub proof fn mount_is_stable_after_publish(
    c: IndexConfigView,
    identity: Seq<char>,
    namespace_changed: bool,
    again_changed: bool,
    revision: i64,
)
    ensures
        ({
            let c2 = published(prepared(c, identity, namespace_changed).0, revision);
            &&& state_of(c2.state) == Ok::<FilesystemIndexState, FilesystemIndexError>(
                FilesystemIndexState::Ready,
            )
            &&& prepared(c2, identity, again_changed) == (c2, false)
        }),
{
    reveal_strlit("Ready");
    reveal_strlit("Rebuilding");
    assert("Ready"@.len() != "Rebuilding"@.len());
    let c1 = prepared(c, identity, namespace_changed).0;
    let c2 = published(c1, revision);
    if ready_for(c, identity) {
        assert(c2 == c);
    } else if adoptable(c, namespace_changed) {
        assert(c2 == c1);
        assert(ready_for(c2, identity));
    } else {
        assert(ready_for(c2, identity));
    }
    assert(prepared(c2, identity, again_changed) == (c2, false));
}

/// A prepared mount schedules a validation exactly when it leaves the index rebuilding.
pub proof fn schedule_iff_rebuilding(c: IndexConfigView, identity: Seq<char>, namespace_changed: bool)
    ensures
        prepared(c, identity, namespace_changed).1 <==> !ready_for(c, identity)
            && prepared(c, identity, namespace_changed).0.state == Some("Rebuilding"@),
{
    reveal_strlit("Ready");
    reveal_strlit("Rebuilding");
    assert("Ready"@.len() != "Rebuilding"@.len());
}

} // verus!
