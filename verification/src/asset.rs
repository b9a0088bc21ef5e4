//! Image assets: the rules on a published asset, whether a stored blob agrees with it, and
//! whether an item's image reference changes.
use vstd::prelude::*;

verus! {

/// The longest text field of an asset, in characters.
pub const MAX_TEXT_CHARS: usize = 2048;

#[derive(Clone, Copy, Debug, PartialEq, Eq, Structural)]
pub enum AssetRepositoryError {
    InvalidPublication,
    StoredBlobConflict,
    MissingCatalogState,
}

/// A text field of an asset.
pub open spec fn asset_text(s: Seq<char>) -> bool {
    crate::text::bounded_plain_text(s, MAX_TEXT_CHARS as nat)
}

pub fn valid_text(value: &str) -> (r: bool)
    ensures
        r == asset_text(value@),
{
    crate::text::is_bounded_plain_text(value, MAX_TEXT_CHARS)
}

/// A lower-case hexadecimal digit.
pub open spec fn lower_hex_char(c: char) -> bool {
    ('0' <= c && c <= '9') || ('a' <= c && c <= 'f')
}

/// A SHA-256 digest in lower-case hexadecimal: 64 such digits.
pub open spec fn sha256_text(s: Seq<char>) -> bool {
    s.len() == 64 && forall|i: int| 0 <= i < s.len() ==> lower_hex_char(#[trigger] s[i])
}

fn is_sha256_text(value: &str) -> (r: bool)
    ensures
        r == sha256_text(value@),
{
    let chars = crate::text::chars_of(value);
    if chars.len() != 64 {
        return false;
    }
    let mut i: usize = 0;
    while i < chars.len()
        invariant
            chars@ == value@,
            i <= chars.len(),
            forall|j: int| 0 <= j < i ==> lower_hex_char(#[trigger] chars@[j]),
        decreases chars.len() - i,
    {
        let c = chars[i];
        if !(('0' <= c && c <= '9') || ('a' <= c && c <= 'f')) {
            return false;
        }
        i = i + 1;
    }
    true
}

/// The rule on a published asset: every number fits its stored type and is positive (the
/// priority may be zero), the digest is lower-case hex SHA-256, and the texts are bounded.
pub open spec fn publication_valid(
    priority: u32,
    sha256: Seq<char>,
    mime_type: Seq<char>,
    width: u32,
    height: u32,
    byte_size: u64,
    local_relative_path: Seq<char>,
    source_provider: Seq<char>,
    source_reference: Option<Seq<char>>,
) -> bool {
    &&& priority <= i32::MAX && 0 < width <= i32::MAX && 0 < height <= i32::MAX
    &&& 0 < byte_size <= i64::MAX
    &&& sha256_text(sha256)
    &&& asset_text(mime_type) && asset_text(local_relative_path) && asset_text(source_provider)
    &&& source_reference matches Some(r) ==> asset_text(r)
}

/// An image to publish for an item.
pub struct AssetPublication {
    item_id: u128,
    image_type: String,
    priority: i32,
    sha256: String,
    mime_type: String,
    width: i32,
    height: i32,
    byte_size: i64,
    local_relative_path: String,
    source_provider: String,
    source_reference: Option<String>,
}

impl AssetPublication {
    /// Checks and assembles an asset publication.
    pub fn new(
        item_id: u128,
        image_type: String,
        priority: u32,
        sha256: String,
        mime_type: String,
        width: u32,
        height: u32,
        byte_size: u64,
        local_relative_path: String,
        source_provider: String,
        source_reference: Option<String>,
    ) -> (r: Result<Self, AssetRepositoryError>)
        ensures
            match r {
                Ok(p) => publication_valid(priority, sha256@, mime_type@, width, height, byte_size,
                    local_relative_path@, source_provider@, crate::text::opt_string_view(source_reference))
                    && p.spec_item_id() == item_id && p.spec_image_type() == image_type@
                    && p.spec_priority() == priority && p.spec_sha256() == sha256@
                    && p.spec_mime_type() == mime_type@ && p.spec_width() == width
                    && p.spec_height() == height && p.spec_byte_size() == byte_size
                    && p.spec_local_relative_path() == local_relative_path@
                    && p.spec_source_provider() == source_provider@
                    && p.spec_source_reference() == crate::text::opt_string_view(source_reference),
                Err(e) => !publication_valid(priority, sha256@, mime_type@, width, height, byte_size,
                    local_relative_path@, source_provider@, crate::text::opt_string_view(source_reference))
                    && e == AssetRepositoryError::InvalidPublication,
            },
    {
        if priority > 0x7fff_ffffu32 || width > 0x7fff_ffffu32 || height > 0x7fff_ffffu32
            || byte_size > 0x7fff_ffff_ffff_ffffu64 {
            return Err(AssetRepositoryError::InvalidPublication);
        }
        let reference_ok = match &source_reference {
            Some(value) => valid_text(value.as_str()),
            None => true,
        };
        if !is_sha256_text(sha256.as_str()) || width == 0 || height == 0 || byte_size == 0
            || !valid_text(mime_type.as_str()) || !valid_text(local_relative_path.as_str())
            || !valid_text(source_provider.as_str()) || !reference_ok {
            return Err(AssetRepositoryError::InvalidPublication);
        }
        Ok(
            AssetPublication {
                item_id,
                image_type,
                priority: priority as i32,
                sha256,
                mime_type,
                width: width as i32,
                height: height as i32,
                byte_size: byte_size as i64,
                local_relative_path,
                source_provider,
                source_reference,
            },
        )
    }

    pub closed spec fn spec_item_id(&self) -> u128 {
        self.item_id
    }

    pub closed spec fn spec_image_type(&self) -> Seq<char> {
        self.image_type@
    }

    pub closed spec fn spec_priority(&self) -> i32 {
        self.priority
    }

    pub closed spec fn spec_sha256(&self) -> Seq<char> {
        self.sha256@
    }

    pub closed spec fn spec_mime_type(&self) -> Seq<char> {
        self.mime_type@
    }

    pub closed spec fn spec_width(&self) -> i32 {
        self.width
    }

    pub closed spec fn spec_height(&self) -> i32 {
        self.height
    }

    pub closed spec fn spec_byte_size(&self) -> i64 {
        self.byte_size
    }

    pub closed spec fn spec_local_relative_path(&self) -> Seq<char> {
        self.local_relative_path@
    }

    pub closed spec fn spec_source_provider(&self) -> Seq<char> {
        self.source_provider@
    }

    pub closed spec fn spec_source_reference(&self) -> Option<Seq<char>> {
        crate::text::opt_string_view(self.source_reference)
    }

    pub fn item_id(&self) -> (r: u128)
        ensures
            r == self.spec_item_id(),
    {
        self.item_id
    }

    pub fn image_type(&self) -> (r: &str)
        ensures
            r@ == self.spec_image_type(),
    {
        self.image_type.as_str()
    }

    pub fn priority(&self) -> (r: i32)
        ensures
            r == self.spec_priority(),
    {
        self.priority
    }

    pub fn sha256(&self) -> (r: &str)
        ensures
            r@ == self.spec_sha256(),
    {
        self.sha256.as_str()
    }

    pub fn mime_type(&self) -> (r: &str)
        ensures
            r@ == self.spec_mime_type(),
    {
        self.mime_type.as_str()
    }

    pub fn width(&self) -> (r: i32)
        ensures
            r == self.spec_width(),
    {
        self.width
    }

    pub fn height(&self) -> (r: i32)
        ensures
            r == self.spec_height(),
    {
        self.height
    }

    pub fn byte_size(&self) -> (r: i64)
        ensures
            r == self.spec_byte_size(),
    {
        self.byte_size
    }

    pub fn local_relative_path(&self) -> (r: &str)
        ensures
            r@ == self.spec_local_relative_path(),
    {
        self.local_relative_path.as_str()
    }

    pub fn source_provider(&self) -> (r: &str)
        ensures
            r@ == self.spec_source_provider(),
    {
        self.source_provider.as_str()
    }

    pub fn source_reference(&self) -> (r: Option<&str>)
        ensures
            crate::text::opt_str_view(r) == self.spec_source_reference(),
    {
        match &self.source_reference {
            Some(s) => Some(s.as_str()),
            None => None,
        }
    }

}

/// What publishing an asset did.
#[derive(Clone, Copy, Debug, PartialEq, Eq, Structural)]
pub struct AssetPublicationReport {
    reused_blob: bool,
    reference_changed: bool,
}

impl AssetPublicationReport {
    pub closed spec fn spec_reused_blob(self) -> bool {
        self.reused_blob
    }

    pub closed spec fn spec_reference_changed(self) -> bool {
        self.reference_changed
    }

    /// Assembles the value from its parts.
    pub fn from_parts(reused_blob: bool, reference_changed: bool) -> (r: Self)
        ensures
            r.spec_reused_blob() == reused_blob,
            r.spec_reference_changed() == reference_changed,
    {
        AssetPublicationReport { reused_blob, reference_changed }
    }

    pub fn reused_blob(self) -> (r: bool)
        ensures
            r == self.spec_reused_blob(),
    {
        self.reused_blob
    }

    pub fn reference_changed(self) -> (r: bool)
        ensures
            r == self.spec_reference_changed(),
    {
        self.reference_changed
    }

}

/// A stored blob agrees with a publication of the same digest when its type, dimensions,
/// size and path are the publication's.
pub open spec fn blob_agrees(
    p: AssetPublication,
    mime_type: Seq<char>,
    width: Option<i32>,
    height: Option<i32>,
    byte_size: i64,
    local_relative_path: Seq<char>,
) -> bool {
    &&& mime_type == p.spec_mime_type()
    &&& width == Some(p.spec_width())
    &&& height == Some(p.spec_height())
    &&& byte_size == p.spec_byte_size()
    &&& local_relative_path == p.spec_local_relative_path()
}

/// Checks the stored blob of the publication's digest; a disagreeing blob is a conflict.
/// Gives whether the blob was reused (it existed before the publication).
pub fn check_blob(
    publication: &AssetPublication,
    existed_before: bool,
    mime_type: &str,
    width: Option<i32>,
    height: Option<i32>,
    byte_size: i64,
    local_relative_path: &str,
) -> (r: Result<bool, AssetRepositoryError>)
    ensures
        match r {
            Ok(reused) => reused == existed_before && blob_agrees(*publication, mime_type@, width,
                height, byte_size, local_relative_path@),
            Err(e) => !blob_agrees(*publication, mime_type@, width, height, byte_size,
                local_relative_path@) && e == AssetRepositoryError::StoredBlobConflict,
        },
{
    let matches = crate::text::str_eq(mime_type, publication.mime_type.as_str()) && width == Some(
        publication.width,
    ) && height == Some(publication.height) && byte_size == publication.byte_size
        && crate::text::str_eq(local_relative_path, publication.local_relative_path.as_str());
    if !matches {
        return Err(AssetRepositoryError::StoredBlobConflict);
    }
    Ok(existed_before)
}

/// The item's image reference changes unless it already points at this blob with this
/// source provider and reference.
pub open spec fn reference_differs(
    current: Option<(u128, Seq<char>, Option<Seq<char>>)>,
    blob_id: u128,
    p: AssetPublication,
) -> bool {
    match current {
        None => true,
        Some((b, provider, reference)) => b != blob_id || provider != p.spec_source_provider()
            || reference != p.spec_source_reference(),
    }
}

pub fn reference_changed(
    current: Option<(u128, &str, Option<&str>)>,
    blob_id: u128,
    publication: &AssetPublication,
) -> (r: bool)
    ensures
        r == reference_differs(
            match current {
                Some((b, p, q)) => Some((b, p@, crate::text::opt_str_view(q))),
                None => None,
            },
            blob_id,
            *publication,
        ),
{
    match current {
        None => true,
        Some((b, provider, reference)) => {
            let same_reference = match (reference, &publication.source_reference) {
                (Some(x), Some(y)) => crate::text::str_eq(x, y.as_str()),
                (None, None) => true,
                _ => false,
            };
            b != blob_id || !crate::text::str_eq(provider, publication.source_provider.as_str())
                || !same_reference
        },
    }
}

/// The report of a publication: whether the blob was reused and whether the reference
/// changed (and so the catalog generation advances).
pub fn publication_report(reused_blob: bool, reference_changed: bool) -> (r: AssetPublicationReport)
    ensures
        r.spec_reused_blob() == reused_blob && r.spec_reference_changed() == reference_changed,
{
    AssetPublicationReport::from_parts(reused_blob, reference_changed)
}

/// Publishing the same asset again changes nothing: once the reference points at the
/// blob with the publication's source, it no longer differs.
pub proof fn republishing_is_unchanged(p: AssetPublication, blob_id: u128)
    ensures
        !reference_differs(Some((blob_id, p.spec_source_provider(), p.spec_source_reference())), blob_id, p),
{
}

} // verus!
