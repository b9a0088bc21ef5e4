//! Announcements: their content rules, paging bounds, and the revision and content-version
//! arithmetic of edits, publication, archiving and acknowledgement.
//!
//! Timestamps are microseconds since the Unix epoch.
use vstd::prelude::*;

verus! {

pub const MAX_PAGE_SIZE: u64 = 100;
pub const MAX_OFFSET: u64 = 100000;
pub const MAX_TITLE_CHARS: usize = 200;
pub const MAX_BODY_CHARS: usize = 32000;
pub const MAX_BODY_BYTES: usize = 65536;

#[derive(Clone, Copy, Debug, PartialEq, Eq, Structural)]
pub enum AnnouncementRepositoryError {
    InvalidInput,
    InvalidRevision,
    RevisionConflict,
    InvalidTransition,
    StaleVersion,
    NotFound,
    InvalidStoredValue,
    MissingAggregate,
}

#[derive(Clone, Copy, Debug, PartialEq, Eq, Structural)]
pub enum AnnouncementKind {
    Popup,
    Standard,
}

pub open spec fn kind_text(k: AnnouncementKind) -> Seq<char> {
    match k {
        AnnouncementKind::Popup => "popup"@,
        AnnouncementKind::Standard => "standard"@,
    }
}

pub open spec fn kind_of(s: Seq<char>) -> Result<AnnouncementKind, AnnouncementRepositoryError> {
    if s == "popup"@ {
        Ok(AnnouncementKind::Popup)
    } else if s == "standard"@ {
        Ok(AnnouncementKind::Standard)
    } else {
        Err(AnnouncementRepositoryError::InvalidStoredValue)
    }
}

impl AnnouncementKind {
    pub fn as_str(self) -> (r: &'static str)
        ensures
            r@ == kind_text(self),
    {
        match self {
            AnnouncementKind::Popup => "popup",
            AnnouncementKind::Standard => "standard",
        }
    }

    pub fn parse(value: &str) -> (r: Result<Self, AnnouncementRepositoryError>)
        ensures
            r == kind_of(value@),
    {
        if crate::text::str_eq(value, "popup") {
            Ok(AnnouncementKind::Popup)
        } else if crate::text::str_eq(value, "standard") {
            Ok(AnnouncementKind::Standard)
        } else {
            Err(AnnouncementRepositoryError::InvalidStoredValue)
        }
    }
}

#[derive(Clone, Copy, Debug, PartialEq, Eq, Structural)]
pub enum AnnouncementStatus {
    Draft,
    Published,
    Archived,
}

pub open spec fn status_text(s: AnnouncementStatus) -> Seq<char> {
    match s {
        AnnouncementStatus::Draft => "draft"@,
        AnnouncementStatus::Published => "published"@,
        AnnouncementStatus::Archived => "archived"@,
    }
}

pub open spec fn status_of(s: Seq<char>) -> Result<AnnouncementStatus, AnnouncementRepositoryError> {
    if s == "draft"@ {
        Ok(AnnouncementStatus::Draft)
    } else if s == "published"@ {
        Ok(AnnouncementStatus::Published)
    } else if s == "archived"@ {
        Ok(AnnouncementStatus::Archived)
    } else {
        Err(AnnouncementRepositoryError::InvalidStoredValue)
    }
}

impl AnnouncementStatus {
    pub fn as_str(self) -> (r: &'static str)
        ensures
            r@ == status_text(self),
    {
        match self {
            AnnouncementStatus::Draft => "draft",
            AnnouncementStatus::Published => "published",
            AnnouncementStatus::Archived => "archived",
        }
    }

    pub fn parse(value: &str) -> (r: Result<Self, AnnouncementRepositoryError>)
        ensures
            r == status_of(value@),
    {
        if crate::text::str_eq(value, "draft") {
            Ok(AnnouncementStatus::Draft)
        } else if crate::text::str_eq(value, "published") {
            Ok(AnnouncementStatus::Published)
        } else if crate::text::str_eq(value, "archived") {
            Ok(AnnouncementStatus::Archived)
        } else {
            Err(AnnouncementRepositoryError::InvalidStoredValue)
        }
    }
}

/// Every kind is read back from its stored text.
pub proof fn kind_text_round_trip(k: AnnouncementKind)
    ensures
        kind_of(kind_text(k)) == Ok::<AnnouncementKind, AnnouncementRepositoryError>(k),
{
    reveal_strlit("popup");
    reveal_strlit("standard");
    assert("popup"@.len() != "standard"@.len());
}

/// A stored text that reads as a kind is that kind's text.
pub proof fn kind_of_is_exact(s: Seq<char>)
    ensures
        kind_of(s) matches Ok(k) ==> kind_text(k) == s,
{
}

/// Every status is read back from its stored text.
pub proof fn status_text_round_trip(st: AnnouncementStatus)
    ensures
        status_of(status_text(st)) == Ok::<AnnouncementStatus, AnnouncementRepositoryError>(st),
{
    reveal_strlit("draft");
    reveal_strlit("published");
    reveal_strlit("archived");
    assert("draft"@.len() != "published"@.len());
    assert("draft"@.len() != "archived"@.len());
    assert("published"@.len() != "archived"@.len());
}

/// A stored text that reads as a status is that status's text.
pub proof fn status_of_is_exact(s: Seq<char>)
    ensures
        status_of(s) matches Ok(st) ==> status_text(st) == s,
{
}

/// The editable content of an announcement.
pub struct AnnouncementDraftInput {
    title: String,
    body_markdown: String,
    kind: AnnouncementKind,
}

impl AnnouncementDraftInput {
    pub fn new(title: String, body_markdown: String, kind: AnnouncementKind) -> (r: Self)
        ensures
            r.spec_title() == title@,
            r.spec_body_markdown() == body_markdown@,
            r.spec_kind() == kind,
    {
        AnnouncementDraftInput { title, body_markdown, kind }
    }

    pub closed spec fn spec_title(&self) -> Seq<char> {
        self.title@
    }

    pub closed spec fn spec_body_markdown(&self) -> Seq<char> {
        self.body_markdown@
    }

    pub closed spec fn spec_kind(&self) -> AnnouncementKind {
        self.kind
    }

    pub fn title(&self) -> (r: &str)
        ensures
            r@ == self.spec_title(),
    {
        self.title.as_str()
    }

    pub fn body_markdown(&self) -> (r: &str)
        ensures
            r@ == self.spec_body_markdown(),
    {
        self.body_markdown.as_str()
    }

    pub fn kind(&self) -> (r: AnnouncementKind)
        ensures
            r == self.spec_kind(),
    {
        self.kind
    }

}

/// One stored announcement.
pub struct AnnouncementRecord {
    id: u128,
    title: String,
    body_markdown: String,
    kind: AnnouncementKind,
    status: AnnouncementStatus,
    content_version: i64,
    revision: i64,
    published_at: Option<i64>,
    created_at: i64,
    updated_at: i64,
}

impl AnnouncementRecord {
    pub closed spec fn spec_id(&self) -> u128 {
        self.id
    }

    pub closed spec fn spec_title(&self) -> Seq<char> {
        self.title@
    }

    pub closed spec fn spec_body_markdown(&self) -> Seq<char> {
        self.body_markdown@
    }

    pub closed spec fn spec_kind(&self) -> AnnouncementKind {
        self.kind
    }

    pub closed spec fn spec_status(&self) -> AnnouncementStatus {
        self.status
    }

    pub closed spec fn spec_content_version(&self) -> i64 {
        self.content_version
    }

    pub closed spec fn spec_revision(&self) -> i64 {
        self.revision
    }

    pub closed spec fn spec_published_at(&self) -> Option<i64> {
        self.published_at
    }

    pub closed spec fn spec_created_at(&self) -> i64 {
        self.created_at
    }

    pub closed spec fn spec_updated_at(&self) -> i64 {
        self.updated_at
    }

    pub fn id(&self) -> (r: u128)
        ensures
            r == self.spec_id(),
    {
        self.id
    }

    pub fn title(&self) -> (r: &str)
        ensures
            r@ == self.spec_title(),
    {
        self.title.as_str()
    }

    pub fn body_markdown(&self) -> (r: &str)
        ensures
            r@ == self.spec_body_markdown(),
    {
        self.body_markdown.as_str()
    }

    pub fn kind(&self) -> (r: AnnouncementKind)
        ensures
            r == self.spec_kind(),
    {
        self.kind
    }

    pub fn status(&self) -> (r: AnnouncementStatus)
        ensures
            r == self.spec_status(),
    {
        self.status
    }

    pub fn content_version(&self) -> (r: i64)
        ensures
            r == self.spec_content_version(),
    {
        self.content_version
    }

    pub fn revision(&self) -> (r: i64)
        ensures
            r == self.spec_revision(),
    {
        self.revision
    }

    pub fn published_at(&self) -> (r: Option<i64>)
        ensures
            r == self.spec_published_at(),
    {
        self.published_at
    }

    pub fn created_at(&self) -> (r: i64)
        ensures
            r == self.spec_created_at(),
    {
        self.created_at
    }

    pub fn updated_at(&self) -> (r: i64)
        ensures
            r == self.spec_updated_at(),
    {
        self.updated_at
    }

}

impl AnnouncementRecord {
    /// Assembles a stored row, or refuses a negative content version, a non-positive
    /// revision, or an unknown kind or status text (checked in that order).
    pub fn from_stored(
        id: u128,
        title: String,
        body_markdown: String,
        kind: &str,
        status: &str,
        content_version: i64,
        revision: i64,
        published_at: Option<i64>,
        created_at: i64,
        updated_at: i64,
    ) -> (r: Result<Self, AnnouncementRepositoryError>)
        ensures
            match r {
                Ok(a) => {
                    &&& content_version >= 0 && revision > 0
                    &&& kind_of(kind@) == Ok::<AnnouncementKind, AnnouncementRepositoryError>(a.spec_kind())
                    &&& status_of(status@) == Ok::<AnnouncementStatus, AnnouncementRepositoryError>(
                        a.spec_status(),
                    )
                    &&& a.spec_id() == id && a.spec_title() == title@ && a.spec_body_markdown()
                        == body_markdown@
                    &&& a.spec_content_version() == content_version && a.spec_revision() == revision
                    &&& a.spec_published_at() == published_at && a.spec_created_at() == created_at
                        && a.spec_updated_at() == updated_at
                },
                Err(e) => e == AnnouncementRepositoryError::InvalidStoredValue && (content_version < 0
                    || revision <= 0 || kind_of(kind@) is Err || status_of(status@) is Err),
            },
    {
        if content_version < 0 || revision <= 0 {
            return Err(AnnouncementRepositoryError::InvalidStoredValue);
        }
        let kind = AnnouncementKind::parse(kind)?;
        let status = AnnouncementStatus::parse(status)?;
        Ok(AnnouncementRecord {
            id,
            title,
            body_markdown,
            kind,
            status,
            content_version,
            revision,
            published_at,
            created_at,
            updated_at,
        })
    }
}

/// A user has read an announcement when their acknowledged version has reached its
/// current content version.
pub open spec fn read_at(acknowledged_version: Option<i64>, content_version: i64) -> bool {
    match acknowledged_version {
        Some(v) => v >= content_version,
        None => false,
    }
}

/// An announcement as one user sees it.
pub struct AnnouncementView {
    record: AnnouncementRecord,
    is_read: bool,
}

impl AnnouncementView {
    pub closed spec fn spec_record(&self) -> AnnouncementRecord {
        self.record
    }

    pub closed spec fn spec_is_read(&self) -> bool {
        self.is_read
    }

    /// The view of a record for a user whose receipt holds `acknowledged_version`.
    pub fn new(record: AnnouncementRecord, acknowledged_version: Option<i64>) -> (r: Self)
        ensures
            r.spec_record() == record,
            r.spec_is_read() == read_at(acknowledged_version, record.spec_content_version()),
    {
        let is_read = match acknowledged_version {
            Some(v) => v >= record.content_version,
            None => false,
        };
        AnnouncementView { record, is_read }
    }

    pub fn record(&self) -> (r: &AnnouncementRecord)
        ensures
            *r == self.spec_record(),
    {
        &self.record
    }

    pub fn is_read(&self) -> (r: bool)
        ensures
            r == self.spec_is_read(),
    {
        self.is_read
    }

    pub fn id(&self) -> (r: u128)
        ensures
            r == self.spec_record().spec_id(),
    {
        self.record.id
    }
}

/// One page of announcements with the totals of the whole listing.
pub struct AnnouncementList<T> {
    items: Vec<T>,
    total: u64,
    unread_count: u64,
}

impl<T> AnnouncementList<T> {
    pub closed spec fn spec_items(&self) -> Seq<T> {
        self.items@
    }

    pub closed spec fn spec_total(&self) -> u64 {
        self.total
    }

    pub closed spec fn spec_unread_count(&self) -> u64 {
        self.unread_count
    }

    pub fn new(items: Vec<T>, total: u64, unread_count: u64) -> (r: Self)
        ensures
            r.spec_items() == items@,
            r.spec_total() == total,
            r.spec_unread_count() == unread_count,
    {
        AnnouncementList { items, total, unread_count }
    }

    pub fn items(&self) -> (r: &[T])
        ensures
            r@ == self.spec_items(),
    {
        self.items.as_slice()
    }

    pub fn total(&self) -> (r: u64)
        ensures
            r == self.spec_total(),
    {
        self.total
    }

    pub fn unread_count(&self) -> (r: u64)
        ensures
            r == self.spec_unread_count(),
    {
        self.unread_count
    }
}

/// The content rules: a title that is not blank, at most `MAX_TITLE_CHARS` characters and
/// free of control characters; a body that is not blank, at most `MAX_BODY_CHARS`
/// characters and `MAX_BODY_BYTES` UTF-8 bytes, with no control character but line feed,
/// carriage return and tab.
pub open spec fn valid_content(title: Seq<char>, body: Seq<char>) -> bool {
    &&& crate::text::bounded_plain_text(title, MAX_TITLE_CHARS as nat)
    &&& !crate::text::is_blank(body)
    &&& body.len() <= MAX_BODY_CHARS
    &&& vstd::utf8::encode_utf8(body).len() <= MAX_BODY_BYTES
    &&& !crate::text::has_control_except_line_breaks(body)
}

pub fn validate_input(input: &AnnouncementDraftInput) -> (r: Result<(), AnnouncementRepositoryError>)
    ensures
        r is Ok <==> valid_content(input.spec_title(), input.spec_body_markdown()),
        r is Err ==> r == Err::<(), AnnouncementRepositoryError>(AnnouncementRepositoryError::InvalidInput),
{
    if !crate::text::is_bounded_plain_text(input.title.as_str(), MAX_TITLE_CHARS) {
        return Err(AnnouncementRepositoryError::InvalidInput);
    }
    let body = crate::text::chars_of(input.body_markdown.as_str());
    if crate::text::blank(body.as_slice()) || body.len() > MAX_BODY_CHARS {
        return Err(AnnouncementRepositoryError::InvalidInput);
    }
    proof {
        crate::text::lemma_utf8_len_bound(input.body_markdown@);
    }
    if input.body_markdown.as_str().len() > MAX_BODY_BYTES
        || crate::text::contains_control_except_line_breaks(body.as_slice()) {
        return Err(AnnouncementRepositoryError::InvalidInput);
    }
    Ok(())
}

/// A page is `limit` items (1 to `MAX_PAGE_SIZE`) from an offset of at most `MAX_OFFSET`.
pub open spec fn valid_page(offset: u64, limit: u64) -> bool {
    1 <= limit <= MAX_PAGE_SIZE && offset <= MAX_OFFSET
}

pub fn validate_page(offset: u64, limit: u64) -> (r: Result<(), AnnouncementRepositoryError>)
    ensures
        r is Ok <==> valid_page(offset, limit),
        r is Err ==> r == Err::<(), AnnouncementRepositoryError>(AnnouncementRepositoryError::InvalidInput),
{
    if limit == 0 || limit > MAX_PAGE_SIZE || offset > MAX_OFFSET {
        Err(AnnouncementRepositoryError::InvalidInput)
    } else {
        Ok(())
    }
}

/// An expected revision must be positive.
pub fn check_expected_revision(expected_revision: i64) -> (r: Result<(), AnnouncementRepositoryError>)
    ensures
        r is Ok <==> expected_revision > 0,
        r is Err ==> r == Err::<(), AnnouncementRepositoryError>(AnnouncementRepositoryError::InvalidRevision),
{
    if expected_revision <= 0 {
        Err(AnnouncementRepositoryError::InvalidRevision)
    } else {
        Ok(())
    }
}

/// A stored count must not be negative.
pub fn count_from_aggregate(count: i64) -> (r: Result<u64, AnnouncementRepositoryError>)
    ensures
        match r {
            Ok(n) => count >= 0 && n == count,
            Err(e) => count < 0 && e == AnnouncementRepositoryError::InvalidStoredValue,
        },
{
    if count < 0 {
        Err(AnnouncementRepositoryError::InvalidStoredValue)
    } else {
        Ok(count as u64)
    }
}

/// What an accepted change writes: the new content version and revision, the status, and
/// whether the publication time is set to now (otherwise it is kept, or cleared when
/// `clear_published_at`).
#[derive(Clone, Copy, Debug, PartialEq, Eq, Structural)]
pub struct AnnouncementChange {
    pub status: AnnouncementStatus,
    pub content_version: i64,
    pub revision: i64,
    pub publish_now: bool,
    pub clear_published_at: bool,
}

/// The content of the input differs from the record's.
pub open spec fn content_changed(current: AnnouncementRecord, input: AnnouncementDraftInput) -> bool {
    current.spec_title() != input.spec_title() || current.spec_body_markdown()
        != input.spec_body_markdown() || current.spec_kind() != input.spec_kind()
}

/// The outcome of editing `current` at `expected_revision`.
pub open spec fn update_outcome(
    current: AnnouncementRecord,
    input: AnnouncementDraftInput,
    expected_revision: i64,
) -> Result<AnnouncementChange, AnnouncementRepositoryError> {
    let bump = current.spec_status() == AnnouncementStatus::Published && content_changed(
        current,
        input,
    );
    if expected_revision <= 0 {
        Err(AnnouncementRepositoryError::InvalidRevision)
    } else if current.spec_revision() != expected_revision {
        Err(AnnouncementRepositoryError::RevisionConflict)
    } else if bump && current.spec_content_version() == i64::MAX {
        Err(AnnouncementRepositoryError::InvalidRevision)
    } else if expected_revision == i64::MAX {
        Err(AnnouncementRepositoryError::InvalidRevision)
    } else {
        Ok(
            AnnouncementChange {
                status: current.spec_status(),
                content_version: if bump {
                    (current.spec_content_version() + 1) as i64
                } else {
                    current.spec_content_version()
                },
                revision: (expected_revision + 1) as i64,
                publish_now: bump,
                clear_published_at: false,
            },
        )
    }
}

fn same_text(a: &String, b: &String) -> (r: bool)
    ensures
        r == (a@ == b@),
{
    crate::text::str_eq(a.as_str(), b.as_str())
}

/// Plans an edit of `current`: the expected revision must be positive and current; an edit
/// that changes the content of a published announcement advances its content version and
/// republishes it; the revision advances by one.
pub fn plan_update(current: &AnnouncementRecord, input: &AnnouncementDraftInput, expected_revision: i64)
    -> (r: Result<AnnouncementChange, AnnouncementRepositoryError>)
    ensures
        r == update_outcome(*current, *input, expected_revision),
{
    if expected_revision <= 0 {
        return Err(AnnouncementRepositoryError::InvalidRevision);
    }
    if current.revision != expected_revision {
        return Err(AnnouncementRepositoryError::RevisionConflict);
    }
    let changed = !same_text(&current.title, &input.title) || !same_text(
        &current.body_markdown,
        &input.body_markdown,
    ) || current.kind != input.kind;
    let bump = current.status == AnnouncementStatus::Published && changed;
    let content_version = if bump {
        match current.content_version.checked_add(1) {
            Some(v) => v,
            None => {
                return Err(AnnouncementRepositoryError::InvalidRevision);
            },
        }
    } else {
        current.content_version
    };
    let revision = match expected_revision.checked_add(1) {
        Some(v) => v,
        None => {
            return Err(AnnouncementRepositoryError::InvalidRevision);
        },
    };
    Ok(
        AnnouncementChange {
            status: current.status,
            content_version,
            revision,
            publish_now: bump,
            clear_published_at: false,
        },
    )
}

/// The outcome of moving `current` to `target` at `expected_revision`.
pub open spec fn transition_outcome(
    current: AnnouncementRecord,
    expected_revision: i64,
    target: AnnouncementStatus,
) -> Result<AnnouncementChange, AnnouncementRepositoryError> {
    let publishing = target == AnnouncementStatus::Published;
    if expected_revision <= 0 {
        Err(AnnouncementRepositoryError::InvalidRevision)
    } else if current.spec_revision() != expected_revision {
        Err(AnnouncementRepositoryError::RevisionConflict)
    } else if publishing && current.spec_status() == AnnouncementStatus::Published {
        Err(AnnouncementRepositoryError::InvalidTransition)
    } else if target == AnnouncementStatus::Archived && current.spec_status()
        == AnnouncementStatus::Archived {
        Err(AnnouncementRepositoryError::InvalidTransition)
    } else if expected_revision == i64::MAX {
        Err(AnnouncementRepositoryError::InvalidRevision)
    } else if publishing && current.spec_content_version() == i64::MAX {
        Err(AnnouncementRepositoryError::InvalidRevision)
    } else {
        Ok(
            AnnouncementChange {
                status: target,
                content_version: if publishing {
                    (current.spec_content_version() + 1) as i64
                } else {
                    current.spec_content_version()
                },
                revision: (expected_revision + 1) as i64,
                publish_now: publishing,
                clear_published_at: !publishing,
            },
        )
    }
}

/// Plans publishing or archiving `current`: publishing twice or archiving twice is an
/// invalid transition; publishing advances the content version and sets the publication
/// time, any other target clears it; the revision advances by one.
pub fn plan_transition(current: &AnnouncementRecord, expected_revision: i64, target: AnnouncementStatus)
    -> (r: Result<AnnouncementChange, AnnouncementRepositoryError>)
    ensures
        r == transition_outcome(*current, expected_revision, target),
{
    if expected_revision <= 0 {
        return Err(AnnouncementRepositoryError::InvalidRevision);
    }
    if current.revision != expected_revision {
        return Err(AnnouncementRepositoryError::RevisionConflict);
    }
    let publishing = target == AnnouncementStatus::Published;
    if publishing && current.status == AnnouncementStatus::Published {
        return Err(AnnouncementRepositoryError::InvalidTransition);
    }
    if target == AnnouncementStatus::Archived && current.status == AnnouncementStatus::Archived {
        return Err(AnnouncementRepositoryError::InvalidTransition);
    }
    let revision = match expected_revision.checked_add(1) {
        Some(v) => v,
        None => {
            return Err(AnnouncementRepositoryError::InvalidRevision);
        },
    };
    let content_version = if publishing {
        match current.content_version.checked_add(1) {
            Some(v) => v,
            None => {
                return Err(AnnouncementRepositoryError::InvalidRevision);
            },
        }
    } else {
        current.content_version
    };
    Ok(
        AnnouncementChange {
            status: target,
            content_version,
            revision,
            publish_now: publishing,
            clear_published_at: !publishing,
        },
    )
}

/// An accepted transition moves the announcement to its target and advances the revision
/// by one. Publishing (from a draft or from the archive) advances the content version and
/// sets the publication time, so the announcement is shown again; any other target keeps
/// the content version and clears the publication time.
pub proof fn transitions_set_the_publication_time(
    current: AnnouncementRecord,
    expected_revision: i64,
    target: AnnouncementStatus,
)
    ensures
        transition_outcome(current, expected_revision, target) matches Ok(c) ==> {
            &&& c.status == target
            &&& c.revision == expected_revision + 1
            &&& expected_revision == current.spec_revision()
            &&& target == AnnouncementStatus::Published ==> (c.publish_now && !c.clear_published_at
                && c.content_version == current.spec_content_version() + 1 && current.spec_status()
                != AnnouncementStatus::Published)
            &&& target != AnnouncementStatus::Published ==> (!c.publish_now && c.clear_published_at
                && c.content_version == current.spec_content_version())
        },
        (target == AnnouncementStatus::Published && current.spec_status() != AnnouncementStatus::Published
            && 0 < expected_revision < i64::MAX && expected_revision == current.spec_revision()
            && current.spec_content_version() < i64::MAX) ==> transition_outcome(
            current,
            expected_revision,
            target,
        ) is Ok,
{
}

/// A receipt may be recorded only for the current version of a published announcement.
pub open spec fn acknowledgement_outcome(current: AnnouncementRecord, content_version: i64) -> Result<
    (),
    AnnouncementRepositoryError,
> {
    if content_version <= 0 || current.spec_status() != AnnouncementStatus::Published
        || current.spec_content_version() != content_version {
        Err(AnnouncementRepositoryError::StaleVersion)
    } else {
        Ok(())
    }
}

pub fn check_acknowledgement(current: &AnnouncementRecord, content_version: i64) -> (r: Result<
    (),
    AnnouncementRepositoryError,
>)
    ensures
        r == acknowledgement_outcome(*current, content_version),
{
    if content_version <= 0 || current.status != AnnouncementStatus::Published
        || current.content_version != content_version {
        Err(AnnouncementRepositoryError::StaleVersion)
    } else {
        Ok(())
    }
}

/// A receipt for `content_version` of the announcement found (if any): a non-positive
/// version is stale before anything is looked up; a missing announcement is not found;
/// otherwise the version must be the current one of a published announcement.
pub fn check_receipt(current: Option<&AnnouncementRecord>, content_version: i64) -> (r: Result<
    (),
    AnnouncementRepositoryError,
>)
    ensures
        content_version <= 0 ==> r == Err::<(), AnnouncementRepositoryError>(
            AnnouncementRepositoryError::StaleVersion,
        ),
        content_version > 0 ==> r == (match current {
            None => Err(AnnouncementRepositoryError::NotFound),
            Some(a) => acknowledgement_outcome(*a, content_version),
        }),
{
    if content_version <= 0 {
        return Err(AnnouncementRepositoryError::StaleVersion);
    }
    match current {
        None => Err(AnnouncementRepositoryError::NotFound),
        Some(a) => check_acknowledgement(a, content_version),
    }
}

/// A write fenced by an expected revision (an edit, a transition or a deletion) succeeds
/// only when exactly one row matched.
pub fn fenced_write_outcome(rows_affected: u64) -> (r: Result<(), AnnouncementRepositoryError>)
    ensures
        r is Ok <==> rows_affected == 1,
        r is Err ==> r == Err::<(), AnnouncementRepositoryError>(AnnouncementRepositoryError::RevisionConflict),
{
    if rows_affected == 1 {
        Ok(())
    } else {
        Err(AnnouncementRepositoryError::RevisionConflict)
    }
}

/// Every accepted edit or transition advances the revision by exactly one, so a second
/// change at the same expected revision conflicts.
pub proof fn accepted_changes_advance_revision(
    current: AnnouncementRecord,
    input: AnnouncementDraftInput,
    expected_revision: i64,
    target: AnnouncementStatus,
)
    ensures
        update_outcome(current, input, expected_revision) matches Ok(c) ==> c.revision
            == expected_revision + 1,
        transition_outcome(current, expected_revision, target) matches Ok(c) ==> c.revision
            == expected_revision + 1,
{
}

/// A reader who acknowledged the current version of a published announcement sees it
/// unread again once its content is edited, and everyone sees a newly published
/// announcement unread until they acknowledge the new version.
pub proof fn content_changes_reset_read_state(
    current: AnnouncementRecord,
    input: AnnouncementDraftInput,
    expected_revision: i64,
    target: AnnouncementStatus,
    acknowledged_version: i64,
)
    requires
        acknowledged_version <= current.spec_content_version(),
    ensures
        current.spec_status() == AnnouncementStatus::Published && content_changed(current, input)
            ==> (update_outcome(current, input, expected_revision) matches Ok(c) ==> !read_at(
            Some(acknowledged_version),
            c.content_version,
        )),
        target == AnnouncementStatus::Published ==> (transition_outcome(
            current,
            expected_revision,
            target,
        ) matches Ok(c) ==> !read_at(Some(acknowledged_version), c.content_version)),
{
}

/// Editing without changing the content, or editing a draft, keeps every reader's state.
pub proof fn unchanged_content_keeps_read_state(
    current: AnnouncementRecord,
    input: AnnouncementDraftInput,
    expected_revision: i64,
    acknowledged_version: Option<i64>,
)
    requires
        !content_changed(current, input) || current.spec_status() != AnnouncementStatus::Published,
    ensures
        update_outcome(current, input, expected_revision) matches Ok(c) ==> read_at(
            acknowledged_version,
            c.content_version,
        ) == read_at(acknowledged_version, current.spec_content_version()),
{
}

/// An announcement is shown to users while it is published and has a publication time.
pub open spec fn shown_to_users(a: AnnouncementRecord) -> bool {
    a.spec_status() == AnnouncementStatus::Published && a.spec_published_at() is Some
}

/// An announcement is offered to a user as a popup while it is a shown popup announcement
/// that the user has not read at its current content version.
pub open spec fn pending_popup(a: AnnouncementRecord, acknowledged_version: Option<i64>) -> bool {
    shown_to_users(a) && a.spec_kind() == AnnouncementKind::Popup && !read_at(
        acknowledged_version,
        a.spec_content_version(),
    )
}

/// Whether `record` is offered as a popup to a user whose receipt holds
/// `acknowledged_version`.
pub fn offered_as_popup(record: &AnnouncementRecord, acknowledged_version: Option<i64>) -> (r: bool)
    ensures
        r == pending_popup(*record, acknowledged_version),
{
    let shown = record.status == AnnouncementStatus::Published && record.published_at.is_some();
    let read = match acknowledged_version {
        Some(v) => v >= record.content_version,
        None => false,
    };
    shown && record.kind == AnnouncementKind::Popup && !read
}

/// The receipt a user holds after acknowledging `content_version` of the announcement found
/// (if any): refused as `check_receipt` refuses, otherwise the acknowledged version is
/// `content_version`, whatever the receipt held before.
pub fn acknowledged_receipt(current: Option<&AnnouncementRecord>, content_version: i64) -> (r: Result<
    i64,
    AnnouncementRepositoryError,
>)
    ensures
        content_version <= 0 ==> r == Err::<i64, AnnouncementRepositoryError>(
            AnnouncementRepositoryError::StaleVersion,
        ),
        content_version > 0 ==> r == (match current {
            None => Err(AnnouncementRepositoryError::NotFound),
            Some(a) => match acknowledgement_outcome(*a, content_version) {
                Ok(()) => Ok(content_version),
                Err(e) => Err(e),
            },
        }),
{
    match check_receipt(current, content_version) {
        Ok(()) => Ok(content_version),
        Err(e) => Err(e),
    }
}

/// An acknowledged announcement is read: once a user's receipt holds the version that was
/// accepted, the announcement shows as read to that user and is no longer offered to them
/// as a popup, until its content version changes.
pub proof fn acknowledged_announcement_is_read(a: AnnouncementRecord, content_version: i64)
    requires
        acknowledgement_outcome(a, content_version) is Ok,
    ensures
        read_at(Some(content_version), a.spec_content_version()),
        !pending_popup(a, Some(content_version)),
{
}

} // verus!
