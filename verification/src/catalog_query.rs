//! Catalog browsing: item types and their stored names, sort and page requests, the
//! decisions that choose a query's source and scope, and the plain read models.
use crate::catalog_publication::CatalogPublicationError;
use vstd::prelude::*;

verus! {

/// The largest page of catalog items.
pub const MAX_PAGE_SIZE: u64 = 200;

#[derive(Clone, Copy, Debug, PartialEq, Eq, Structural)]
pub enum CatalogQueryError {
    InvalidPage,
    MissingCount,
    MissingCatalogState,
    InvalidCount,
    InvalidPriority,
    InvalidAssetSize,
    InvalidItemType,
    InvalidMetadataRequirement,
    AmbiguousParent(u128),
    AmbiguousStructurePublication(u128),
    AmbiguousStorageScope(u128),
    Publication(CatalogPublicationError),
}

/// What a browse request names as its parent: a library or a catalog item.
#[derive(Clone, Copy, Debug, PartialEq, Eq, Structural)]
pub enum BrowseParent {
    Library(u128),
    Item(u128),
}

#[derive(Clone, Copy, Debug, PartialEq, Eq, Structural)]
pub enum CatalogItemType {
    Movie,
    Audio,
    Series,
    Season,
    Episode,
    Folder,
}

pub open spec fn item_type_text(t: CatalogItemType) -> Seq<char> {
    match t {
        CatalogItemType::Movie => "Movie"@,
        CatalogItemType::Audio => "Audio"@,
        CatalogItemType::Series => "Series"@,
        CatalogItemType::Season => "Season"@,
        CatalogItemType::Episode => "Episode"@,
        CatalogItemType::Folder => "Folder"@,
    }
}

pub open spec fn item_type_of(s: Seq<char>) -> Result<CatalogItemType, CatalogQueryError> {
    if s == "Movie"@ {
        Ok(CatalogItemType::Movie)
    } else if s == "Audio"@ {
        Ok(CatalogItemType::Audio)
    } else if s == "Series"@ {
        Ok(CatalogItemType::Series)
    } else if s == "Season"@ {
        Ok(CatalogItemType::Season)
    } else if s == "Episode"@ {
        Ok(CatalogItemType::Episode)
    } else if s == "Folder"@ {
        Ok(CatalogItemType::Folder)
    } else {
        Err(CatalogQueryError::InvalidItemType)
    }
}

impl CatalogItemType {
    /// The stored name of the type.
    pub fn as_database_value(self) -> (r: &'static str)
        ensures
            r@ == item_type_text(self),
    {
        match self {
            CatalogItemType::Movie => "Movie",
            CatalogItemType::Audio => "Audio",
            CatalogItemType::Series => "Series",
            CatalogItemType::Season => "Season",
            CatalogItemType::Episode => "Episode",
            CatalogItemType::Folder => "Folder",
        }
    }

    /// Reads a stored type name.
    pub fn from_database_value(value: &str) -> (r: Result<Self, CatalogQueryError>)
        ensures
            r == item_type_of(value@),
    {
        if crate::text::str_eq(value, "Movie") {
            Ok(CatalogItemType::Movie)
        } else if crate::text::str_eq(value, "Audio") {
            Ok(CatalogItemType::Audio)
        } else if crate::text::str_eq(value, "Series") {
            Ok(CatalogItemType::Series)
        } else if crate::text::str_eq(value, "Season") {
            Ok(CatalogItemType::Season)
        } else if crate::text::str_eq(value, "Episode") {
            Ok(CatalogItemType::Episode)
        } else if crate::text::str_eq(value, "Folder") {
            Ok(CatalogItemType::Folder)
        } else {
            Err(CatalogQueryError::InvalidItemType)
        }
    }

    /// The name of the type in cache keys: the stored name.
    pub fn cache_name(self) -> (r: &'static str)
        ensures
            r@ == item_type_text(self),
    {
        self.as_database_value()
    }
}

/// Every item type is read back from its stored name.
pub proof fn item_type_round_trip(t: CatalogItemType)
    ensures
        item_type_of(item_type_text(t)) == Ok::<CatalogItemType, CatalogQueryError>(t),
{
    reveal_strlit("Movie");
    reveal_strlit("Audio");
    reveal_strlit("Series");
    reveal_strlit("Season");
    reveal_strlit("Episode");
    reveal_strlit("Folder");
    assert("Movie"@[0] != "Audio"@[0]);
    assert("Series"@[2] != "Season"@[2]);
    assert("Series"@[0] != "Folder"@[0] && "Season"@[0] != "Folder"@[0]);
    assert("Movie"@.len() == 5 && "Audio"@.len() == 5 && "Series"@.len() == 6 && "Season"@.len()
        == 6 && "Folder"@.len() == 6 && "Episode"@.len() == 7);
}

/// A stored name that reads as an item type is that type's name.
pub proof fn item_type_of_is_exact(s: Seq<char>)
    ensures
        item_type_of(s) matches Ok(t) ==> item_type_text(t) == s,
{
}

#[derive(Clone, Copy, Debug, PartialEq, Eq, Structural)]
pub enum CatalogSortField {
    SortName,
    DateCreated,
    ProductionYear,
    Runtime,
}

#[derive(Clone, Copy, Debug, PartialEq, Eq, Structural)]
pub enum CatalogSortOrder {
    Ascending,
    Descending,
}

/// One sort key of a listing.
#[derive(Clone, Copy, Debug, PartialEq, Eq, Structural)]
pub struct CatalogSort {
    field: CatalogSortField,
    order: CatalogSortOrder,
}

impl CatalogSort {
    pub closed spec fn spec_field(self) -> CatalogSortField {
        self.field
    }

    pub closed spec fn spec_order(self) -> CatalogSortOrder {
        self.order
    }

    pub fn new(field: CatalogSortField, order: CatalogSortOrder) -> (r: Self)
        ensures
            r.spec_field() == field && r.spec_order() == order,
    {
        CatalogSort { field, order }
    }

    pub fn field(self) -> (r: CatalogSortField)
        ensures
            r == self.spec_field(),
    {
        self.field
    }

    pub fn order(self) -> (r: CatalogSortOrder)
        ensures
            r == self.spec_order(),
    {
        self.order
    }
}

/// Which items a listing draws from.
#[derive(Clone, Copy, Debug, PartialEq, Eq, Structural)]
pub enum CatalogItemsScope {
    AllVisible,
    Parent(BrowseParent),
}

/// A bounded offset page, optionally restricted to some item types.
pub struct CatalogPageRequest {
    start_index: u64,
    limit: u64,
    item_types: Vec<CatalogItemType>,
}

impl CatalogPageRequest {
    pub closed spec fn spec_start_index(&self) -> u64 {
        self.start_index
    }

    pub closed spec fn spec_limit(&self) -> u64 {
        self.limit
    }

    pub closed spec fn spec_item_types(&self) -> Seq<CatalogItemType> {
        self.item_types@
    }

    /// A page of `limit` items (1 to `MAX_PAGE_SIZE`) from `start_index`, any item type.
    pub fn new(start_index: u64, limit: u64) -> (r: Result<Self, CatalogQueryError>)
        ensures
            match r {
                Ok(p) => 1 <= limit <= MAX_PAGE_SIZE && p.spec_start_index() == start_index
                    && p.spec_limit() == limit && p.spec_item_types().len() == 0,
                Err(e) => !(1 <= limit <= MAX_PAGE_SIZE) && e == CatalogQueryError::InvalidPage,
            },
    {
        if limit == 0 || limit > MAX_PAGE_SIZE {
            return Err(CatalogQueryError::InvalidPage);
        }
        Ok(CatalogPageRequest { start_index, limit, item_types: Vec::new() })
    }

    /// The same page restricted to `item_types` (none means any).
    pub fn with_item_types(self, item_types: Vec<CatalogItemType>) -> (r: Self)
        ensures
            r.spec_start_index() == self.spec_start_index() && r.spec_limit() == self.spec_limit(),
            r.spec_item_types() == item_types@,
    {
        CatalogPageRequest { start_index: self.start_index, limit: self.limit, item_types }
    }

    pub fn start_index(&self) -> (r: u64)
        ensures
            r == self.spec_start_index(),
    {
        self.start_index
    }

    pub fn limit(&self) -> (r: u64)
        ensures
            r == self.spec_limit(),
    {
        self.limit
    }

    pub fn has_item_type_filter(&self) -> (r: bool)
        ensures
            r == (self.spec_item_types().len() > 0),
    {
        self.item_types.len() > 0
    }

    pub fn item_types(&self) -> (r: &[CatalogItemType])
        ensures
            r@ == self.spec_item_types(),
    {
        self.item_types.as_slice()
    }
}

/// One complete listing request.
pub struct CatalogItemsQuery {
    scope: CatalogItemsScope,
    page: CatalogPageRequest,
    search_term: Option<String>,
    recursive: bool,
    recursive_for_library: bool,
    sorts: Vec<CatalogSort>,
    genre: Option<String>,
    production_year: Option<i32>,
}

/// A listing request as values.
pub struct ItemsQueryView {
    pub scope: CatalogItemsScope,
    pub start_index: u64,
    pub limit: u64,
    pub item_types: Seq<CatalogItemType>,
    pub search_term: Option<Seq<char>>,
    pub recursive: bool,
    pub recursive_for_library: bool,
    pub sorts: Seq<CatalogSort>,
    pub genre: Option<Seq<char>>,
    pub production_year: Option<i32>,
}

impl View for CatalogItemsQuery {
    type V = ItemsQueryView;

    closed spec fn view(&self) -> ItemsQueryView {
        ItemsQueryView {
            scope: self.scope,
            start_index: self.page.start_index,
            limit: self.page.limit,
            item_types: self.page.item_types@,
            search_term: crate::text::opt_string_view(self.search_term),
            recursive: self.recursive,
            recursive_for_library: self.recursive_for_library,
            sorts: self.sorts@,
            genre: crate::text::opt_string_view(self.genre),
            production_year: self.production_year,
        }
    }
}

impl CatalogItemsQuery {
    /// A non-recursive listing of `scope` with no search, sort or filter.
    pub fn new(scope: CatalogItemsScope, page: CatalogPageRequest) -> (r: Self)
        ensures
            r@ == (ItemsQueryView {
                scope,
                start_index: page.spec_start_index(),
                limit: page.spec_limit(),
                item_types: page.spec_item_types(),
                search_term: None,
                recursive: false,
                recursive_for_library: false,
                sorts: Seq::empty(),
                genre: None,
                production_year: None,
            }),
    {
        CatalogItemsQuery {
            scope,
            page,
            search_term: None,
            recursive: false,
            recursive_for_library: false,
            sorts: Vec::new(),
            genre: None,
            production_year: None,
        }
    }

    pub fn with_search_term(self, search_term: Option<String>) -> (r: Self)
        ensures
            r@ == (ItemsQueryView { search_term: crate::text::opt_string_view(search_term), ..self@ }),
    {
        let mut q = self;
        q.search_term = search_term;
        q
    }

    pub fn with_scope(self, scope: CatalogItemsScope) -> (r: Self)
        ensures
            r@ == (ItemsQueryView { scope, ..self@ }),
    {
        let mut q = self;
        q.scope = scope;
        q
    }

    pub fn with_recursive(self, recursive: bool) -> (r: Self)
        ensures
            r@ == (ItemsQueryView { recursive, ..self@ }),
    {
        let mut q = self;
        q.recursive = recursive;
        q
    }

    pub fn with_recursive_for_library(self, recursive: bool) -> (r: Self)
        ensures
            r@ == (ItemsQueryView { recursive_for_library: recursive, ..self@ }),
    {
        let mut q = self;
        q.recursive_for_library = recursive;
        q
    }

    pub fn with_sorts(self, sorts: Vec<CatalogSort>) -> (r: Self)
        ensures
            r@ == (ItemsQueryView { sorts: sorts@, ..self@ }),
    {
        let mut q = self;
        q.sorts = sorts;
        q
    }

    pub fn with_genre(self, genre: Option<String>) -> (r: Self)
        ensures
            r@ == (ItemsQueryView { genre: crate::text::opt_string_view(genre), ..self@ }),
    {
        let mut q = self;
        q.genre = genre;
        q
    }

    pub fn with_production_year(self, production_year: Option<i32>) -> (r: Self)
        ensures
            r@ == (ItemsQueryView { production_year, ..self@ }),
    {
        let mut q = self;
        q.production_year = production_year;
        q
    }

    pub fn scope(&self) -> (r: CatalogItemsScope)
        ensures
            r == self@.scope,
    {
        self.scope
    }

    pub fn page(&self) -> (r: &CatalogPageRequest)
        ensures
            r.spec_start_index() == self@.start_index && r.spec_limit() == self@.limit
                && r.spec_item_types() == self@.item_types,
    {
        &self.page
    }

    pub fn search_term(&self) -> (r: Option<&str>)
        ensures
            crate::text::opt_str_view(r) == self@.search_term,
    {
        match &self.search_term {
            Some(s) => Some(s.as_str()),
            None => None,
        }
    }

    pub fn recursive(&self) -> (r: bool)
        ensures
            r == self@.recursive,
    {
        self.recursive
    }

    pub fn recursive_for_library(&self) -> (r: bool)
        ensures
            r == self@.recursive_for_library,
    {
        self.recursive_for_library
    }

    pub fn sorts(&self) -> (r: &[CatalogSort])
        ensures
            r@ == self@.sorts,
    {
        self.sorts.as_slice()
    }

    pub fn genre(&self) -> (r: Option<&str>)
        ensures
            crate::text::opt_str_view(r) == self@.genre,
    {
        match &self.genre {
            Some(s) => Some(s.as_str()),
            None => None,
        }
    }

    pub fn production_year(&self) -> (r: Option<i32>)
        ensures
            r == self@.production_year,
    {
        self.production_year
    }
}

// ---------------------------------------------------------------------------------------
// Query decisions.

/// The item types a listing covers: the requested ones, or every type when none is named.
pub open spec fn requested_types(item_types: Seq<CatalogItemType>) -> Seq<CatalogItemType> {
    if item_types.len() == 0 {
        seq![
            CatalogItemType::Movie,
            CatalogItemType::Audio,
            CatalogItemType::Series,
            CatalogItemType::Season,
            CatalogItemType::Episode,
            CatalogItemType::Folder,
        ]
    } else {
        item_types
    }
}

fn copy_types(types: &[CatalogItemType]) -> (r: Vec<CatalogItemType>)
    ensures
        r@ == types@,
{
    let mut out: Vec<CatalogItemType> = Vec::new();
    let mut i: usize = 0;
    while i < types.len()
        invariant
            i <= types@.len(),
            out@ == types@.take(i as int),
        decreases types.len() - i,
    {
        out.push(types[i]);
        assert(types@.take(i + 1) =~= types@.take(i as int).push(types@[i as int]));
        i = i + 1;
    }
    assert(types@.take(types@.len() as int) =~= types@);
    out
}

/// The item types a listing covers.
pub fn requested_item_types(page: &CatalogPageRequest) -> (r: Vec<CatalogItemType>)
    ensures
        r@ == requested_types(page.spec_item_types()),
{
    if page.item_types.len() == 0 {
        let v = vec![
            CatalogItemType::Movie,
            CatalogItemType::Audio,
            CatalogItemType::Series,
            CatalogItemType::Season,
            CatalogItemType::Episode,
            CatalogItemType::Folder,
        ];
        assert(v@ =~= requested_types(page.spec_item_types()));
        v
    } else {
        copy_types(page.item_types.as_slice())
    }
}

/// The newest-items listing covers the requested types, or movies, audio, series and
/// episodes when none is named.
pub open spec fn latest_types(item_types: Seq<CatalogItemType>) -> Seq<CatalogItemType> {
    if item_types.len() == 0 {
        seq![CatalogItemType::Movie, CatalogItemType::Audio, CatalogItemType::Series, CatalogItemType::Episode]
    } else {
        item_types
    }
}

/// Checks a newest-items request: 1 to `MAX_PAGE_SIZE` items, and gives the types it covers.
pub fn latest_item_types(item_types: &[CatalogItemType], limit: u64) -> (r: Result<
    Vec<CatalogItemType>,
    CatalogQueryError,
>)
    ensures
        match r {
            Ok(v) => 1 <= limit <= MAX_PAGE_SIZE && v@ == latest_types(item_types@),
            Err(e) => !(1 <= limit <= MAX_PAGE_SIZE) && e == CatalogQueryError::InvalidPage,
        },
{
    if limit == 0 || limit > MAX_PAGE_SIZE {
        return Err(CatalogQueryError::InvalidPage);
    }
    if item_types.len() == 0 {
        let v = vec![CatalogItemType::Movie, CatalogItemType::Audio, CatalogItemType::Series, CatalogItemType::Episode];
        assert(v@ =~= latest_types(item_types@));
        Ok(v)
    } else {
        Ok(copy_types(item_types))
    }
}

/// A listing descends into sub-folders when asked to, or when it lists a library and asks
/// for recursion in libraries.
pub open spec fn listing_recursive(q: ItemsQueryView) -> bool {
    q.recursive || (q.recursive_for_library && q.scope matches CatalogItemsScope::Parent(
        BrowseParent::Library(_),
    ))
}

/// Where a listing reads its items from.
#[derive(Clone, Copy, Debug, PartialEq, Eq, Structural)]
pub enum ItemSource {
    /// The canonical catalog rows.
    Catalog,
    /// The rows of an active structure publication.
    Publication(u128),
}

/// How a listing is executed.
#[derive(Clone, Copy, Debug, PartialEq, Eq, Structural)]
pub enum ItemQueryPlan {
    /// Every visible item of the requested types.
    AllVisible,
    /// Every visible item of one library, at any depth.
    LibraryTree(u128),
    /// The children (or, when recursive, the descendants) of one parent.
    Children { parent: BrowseParent, source: ItemSource, natural_index_order: bool, recursive: bool },
}

/// The plan of a listing, given the active structure publication that covers an item
/// parent, if any.
pub open spec fn item_query_plan(q: ItemsQueryView, parent_publication: Option<u128>) -> ItemQueryPlan {
    let recursive = listing_recursive(q);
    match q.scope {
        CatalogItemsScope::AllVisible => ItemQueryPlan::AllVisible,
        CatalogItemsScope::Parent(BrowseParent::Library(id)) => if recursive {
            ItemQueryPlan::LibraryTree(id)
        } else {
            ItemQueryPlan::Children {
                parent: BrowseParent::Library(id),
                source: ItemSource::Catalog,
                natural_index_order: false,
                recursive: false,
            }
        },
        CatalogItemsScope::Parent(BrowseParent::Item(id)) => {
            let source = match parent_publication {
                Some(p) => ItemSource::Publication(p),
                None => ItemSource::Catalog,
            };
            ItemQueryPlan::Children {
                parent: BrowseParent::Item(id),
                source,
                natural_index_order: source == ItemSource::Catalog,
                recursive,
            }
        },
    }
}

/// Plans a listing: all visible items, a whole library tree, or the children of a parent,
/// read from the parent's active structure publication when it has one. Catalog children
/// of an item keep their natural index order.
pub fn plan_item_query(query: &CatalogItemsQuery, parent_publication: Option<u128>) -> (r: ItemQueryPlan)
    ensures
        r == item_query_plan(query@, parent_publication),
{
    let recursive = query.recursive || (query.recursive_for_library && match query.scope {
        CatalogItemsScope::Parent(BrowseParent::Library(_)) => true,
        _ => false,
    });
    match query.scope {
        CatalogItemsScope::AllVisible => ItemQueryPlan::AllVisible,
        CatalogItemsScope::Parent(BrowseParent::Library(id)) => if recursive {
            ItemQueryPlan::LibraryTree(id)
        } else {
            ItemQueryPlan::Children {
                parent: BrowseParent::Library(id),
                source: ItemSource::Catalog,
                natural_index_order: false,
                recursive: false,
            }
        },
        CatalogItemsScope::Parent(BrowseParent::Item(id)) => {
            let source = match parent_publication {
                Some(p) => ItemSource::Publication(p),
                None => ItemSource::Catalog,
            };
            let natural = match source {
                ItemSource::Catalog => true,
                ItemSource::Publication(_) => false,
            };
            ItemQueryPlan::Children { parent: BrowseParent::Item(id), source, natural_index_order: natural, recursive }
        },
    }
}

/// Listing a library reads its whole tree exactly when the listing asks for recursion,
/// generally or for libraries; otherwise it reads the library's direct children from the
/// catalog, in sorted order.
pub proof fn library_listing_follows_recursion(q: ItemsQueryView, parent_publication: Option<u128>, id: u128)
    requires
        q.scope == CatalogItemsScope::Parent(BrowseParent::Library(id)),
    ensures
        (q.recursive || q.recursive_for_library) ==> item_query_plan(q, parent_publication)
            == ItemQueryPlan::LibraryTree(id),
        !(q.recursive || q.recursive_for_library) ==> item_query_plan(q, parent_publication)
            == (ItemQueryPlan::Children {
            parent: BrowseParent::Library(id),
            source: ItemSource::Catalog,
            natural_index_order: false,
            recursive: false,
        }),
{
}

/// Listing an item reads its children (its descendants when the listing is recursive; the
/// library-only recursion flag does not apply), from its active structure publication when
/// it has one, and otherwise from the catalog in natural index order.
pub proof fn item_listing_reads_children(q: ItemsQueryView, parent_publication: Option<u128>, id: u128)
    requires
        q.scope == CatalogItemsScope::Parent(BrowseParent::Item(id)),
    ensures
        item_query_plan(q, parent_publication) == (ItemQueryPlan::Children {
            parent: BrowseParent::Item(id),
            source: match parent_publication {
                Some(p) => ItemSource::Publication(p),
                None => ItemSource::Catalog,
            },
            natural_index_order: parent_publication is None,
            recursive: q.recursive,
        }),
{
}

/// An unscoped listing reads every visible item, whatever its flags.
pub proof fn unscoped_listing_reads_all_visible(q: ItemsQueryView, parent_publication: Option<u128>)
    requires
        q.scope == CatalogItemsScope::AllVisible,
    ensures
        item_query_plan(q, parent_publication) == ItemQueryPlan::AllVisible,
{
}

/// Resolves a parent id seen as a library, as a visible item, both, or neither.
pub open spec fn parent_resolution(id: u128, is_library: bool, is_item: bool) -> Result<
    Option<BrowseParent>,
    CatalogQueryError,
> {
    if is_library && is_item {
        Err(CatalogQueryError::AmbiguousParent(id))
    } else if is_library {
        Ok(Some(BrowseParent::Library(id)))
    } else if is_item {
        Ok(Some(BrowseParent::Item(id)))
    } else {
        Ok(None)
    }
}

pub fn resolve_parent(id: u128, is_library: bool, is_item: bool) -> (r: Result<
    Option<BrowseParent>,
    CatalogQueryError,
>)
    ensures
        r == parent_resolution(id, is_library, is_item),
{
    if is_library && is_item {
        Err(CatalogQueryError::AmbiguousParent(id))
    } else if is_library {
        Ok(Some(BrowseParent::Library(id)))
    } else if is_item {
        Ok(Some(BrowseParent::Item(id)))
    } else {
        Ok(None)
    }
}

/// The active structure publication covering an item: none, the single one found, or an
/// ambiguity when more than one was found.
pub fn active_publication(parent_id: u128, found: &[u128]) -> (r: Result<Option<u128>, CatalogQueryError>)
    ensures
        found@.len() == 0 ==> r == Ok::<Option<u128>, CatalogQueryError>(None),
        found@.len() == 1 ==> r == Ok::<Option<u128>, CatalogQueryError>(Some(found@[0])),
        found@.len() > 1 ==> r == Err::<Option<u128>, CatalogQueryError>(
            CatalogQueryError::AmbiguousStructurePublication(parent_id),
        ),
{
    if found.len() == 0 {
        Ok(None)
    } else if found.len() == 1 {
        Ok(Some(found[0]))
    } else {
        Err(CatalogQueryError::AmbiguousStructurePublication(parent_id))
    }
}

/// A stored count must not be negative.
pub fn record_count(total: i64) -> (r: Result<u64, CatalogQueryError>)
    ensures
        match r {
            Ok(n) => total >= 0 && n == total,
            Err(e) => total < 0 && e == CatalogQueryError::InvalidCount,
        },
{
    if total < 0 {
        Err(CatalogQueryError::InvalidCount)
    } else {
        Ok(total as u64)
    }
}

/// An image priority is stored as a signed 32-bit integer.
pub fn image_priority(priority: u32) -> (r: Result<i32, CatalogQueryError>)
    ensures
        match r {
            Ok(p) => priority <= i32::MAX && p == priority,
            Err(e) => priority > i32::MAX && e == CatalogQueryError::InvalidPriority,
        },
{
    if priority > 0x7fff_ffffu32 {
        Err(CatalogQueryError::InvalidPriority)
    } else {
        Ok(priority as i32)
    }
}

/// The genre and production-year choices of one library.
pub struct CatalogFilterFacets {
    genres: Vec<String>,
    production_years: Vec<i32>,
}

impl CatalogFilterFacets {
    pub closed spec fn spec_genres(&self) -> Seq<String> {
        self.genres@
    }

    pub closed spec fn spec_production_years(&self) -> Seq<i32> {
        self.production_years@
    }

    /// Assembles the value from its parts.
    pub fn from_parts(genres: Vec<String>, production_years: Vec<i32>) -> (r: Self)
        ensures
            r.spec_genres() == genres@,
            r.spec_production_years() == production_years@,
    {
        CatalogFilterFacets { genres, production_years }
    }

    pub fn genres(&self) -> (r: &[String])
        ensures
            r@ == self.spec_genres(),
    {
        self.genres.as_slice()
    }

    pub fn production_years(&self) -> (r: &[i32])
        ensures
            r@ == self.spec_production_years(),
    {
        self.production_years.as_slice()
    }

}

/// The revisions that isolate user-scoped cache keys.
#[derive(Clone, Copy, Debug, PartialEq, Eq, Structural)]
pub struct CacheRevisions {
    catalog_generation: i64,
    user_revision: i64,
}

impl CacheRevisions {
    pub closed spec fn spec_catalog_generation(self) -> i64 {
        self.catalog_generation
    }

    pub closed spec fn spec_user_revision(self) -> i64 {
        self.user_revision
    }

    /// Assembles the value from its parts.
    pub fn from_parts(catalog_generation: i64, user_revision: i64) -> (r: Self)
        ensures
            r.spec_catalog_generation() == catalog_generation,
            r.spec_user_revision() == user_revision,
    {
        CacheRevisions { catalog_generation, user_revision }
    }

    pub fn catalog_generation(self) -> (r: i64)
        ensures
            r == self.spec_catalog_generation(),
    {
        self.catalog_generation
    }

    pub fn user_revision(self) -> (r: i64)
        ensures
            r == self.spec_user_revision(),
    {
        self.user_revision
    }

}

/// An enabled library as a browsing view.
pub struct LibraryViewRecord {
    id: u128,
    name: String,
    collection_type: String,
}

impl LibraryViewRecord {
    pub closed spec fn spec_id(&self) -> u128 {
        self.id
    }

    pub closed spec fn spec_name(&self) -> Seq<char> {
        self.name@
    }

    pub closed spec fn spec_collection_type(&self) -> Seq<char> {
        self.collection_type@
    }

    /// Assembles the value from its parts.
    pub fn from_parts(id: u128, name: String, collection_type: String) -> (r: Self)
        ensures
            r.spec_id() == id,
            r.spec_name() == name@,
            r.spec_collection_type() == collection_type@,
    {
        LibraryViewRecord { id, name, collection_type }
    }

    pub fn id(&self) -> (r: u128)
        ensures
            r == self.spec_id(),
    {
        self.id
    }

    pub fn name(&self) -> (r: &str)
        ensures
            r@ == self.spec_name(),
    {
        self.name.as_str()
    }

    pub fn collection_type(&self) -> (r: &str)
        ensures
            r@ == self.spec_collection_type(),
    {
        self.collection_type.as_str()
    }

}

/// A coded name (a country or a language).
pub struct CatalogNamedCodeRecord {
    code: String,
    name: String,
}

impl CatalogNamedCodeRecord {
    pub closed spec fn spec_code(&self) -> Seq<char> {
        self.code@
    }

    pub closed spec fn spec_name(&self) -> Seq<char> {
        self.name@
    }

    /// Assembles the value from its parts.
    pub fn from_parts(code: String, name: String) -> (r: Self)
        ensures
            r.spec_code() == code@,
            r.spec_name() == name@,
    {
        CatalogNamedCodeRecord { code, name }
    }

    pub fn code(&self) -> (r: &str)
        ensures
            r@ == self.spec_code(),
    {
        self.code.as_str()
    }

    pub fn name(&self) -> (r: &str)
        ensures
            r@ == self.spec_name(),
    {
        self.name.as_str()
    }

}

/// One person credited on an item.
pub struct CatalogCreditRecord {
    person_id: u128,
    person_name: String,
    role: String,
    credit_type: Option<String>,
    sort_order: i32,
}

impl CatalogCreditRecord {
    pub closed spec fn spec_person_id(&self) -> u128 {
        self.person_id
    }

    pub closed spec fn spec_person_name(&self) -> Seq<char> {
        self.person_name@
    }

    pub closed spec fn spec_role(&self) -> Seq<char> {
        self.role@
    }

    pub closed spec fn spec_credit_type(&self) -> Option<Seq<char>> {
        crate::text::opt_string_view(self.credit_type)
    }

    pub closed spec fn spec_sort_order(&self) -> i32 {
        self.sort_order
    }

    /// Assembles the value from its parts.
    pub fn from_parts(person_id: u128, person_name: String, role: String, credit_type: Option<String>, sort_order: i32) -> (r: Self)
        ensures
            r.spec_person_id() == person_id,
            r.spec_person_name() == person_name@,
            r.spec_role() == role@,
            r.spec_credit_type() == crate::text::opt_string_view(credit_type),
            r.spec_sort_order() == sort_order,
    {
        CatalogCreditRecord { person_id, person_name, role, credit_type, sort_order }
    }

    pub fn person_id(&self) -> (r: u128)
        ensures
            r == self.spec_person_id(),
    {
        self.person_id
    }

    pub fn person_name(&self) -> (r: &str)
        ensures
            r@ == self.spec_person_name(),
    {
        self.person_name.as_str()
    }

    pub fn role(&self) -> (r: &str)
        ensures
            r@ == self.spec_role(),
    {
        self.role.as_str()
    }

    pub fn credit_type(&self) -> (r: Option<&str>)
        ensures
            crate::text::opt_str_view(r) == self.spec_credit_type(),
    {
        match &self.credit_type {
            Some(s) => Some(s.as_str()),
            None => None,
        }
    }

    pub fn sort_order(&self) -> (r: i32)
        ensures
            r == self.spec_sort_order(),
    {
        self.sort_order
    }

}

/// A stored image asset.
pub struct AssetRecord {
    sha256: String,
    mime_type: String,
    width: Option<i32>,
    height: Option<i32>,
    byte_size: u64,
    local_relative_path: String,
}

impl AssetRecord {
    /// Assembles a stored asset; a negative stored size is refused.
    pub fn from_stored(
        sha256: String,
        mime_type: String,
        width: Option<i32>,
        height: Option<i32>,
        byte_size: i64,
        local_relative_path: String,
    ) -> (r: Result<Self, CatalogQueryError>)
        ensures
            match r {
                Ok(a) => byte_size >= 0 && a.spec_byte_size() == byte_size && a.spec_sha256() == sha256@
                    && a.spec_mime_type() == mime_type@ && a.spec_width() == width && a.spec_height()
                    == height && a.spec_local_relative_path() == local_relative_path@,
                Err(e) => byte_size < 0 && e == CatalogQueryError::InvalidAssetSize,
            },
    {
        if byte_size < 0 {
            return Err(CatalogQueryError::InvalidAssetSize);
        }
        Ok(AssetRecord { sha256, mime_type, width, height, byte_size: byte_size as u64, local_relative_path })
    }

    pub closed spec fn spec_sha256(&self) -> Seq<char> {
        self.sha256@
    }

    pub closed spec fn spec_mime_type(&self) -> Seq<char> {
        self.mime_type@
    }

    pub closed spec fn spec_width(&self) -> Option<i32> {
        self.width
    }

    pub closed spec fn spec_height(&self) -> Option<i32> {
        self.height
    }

    pub closed spec fn spec_byte_size(&self) -> u64 {
        self.byte_size
    }

    pub closed spec fn spec_local_relative_path(&self) -> Seq<char> {
        self.local_relative_path@
    }

    pub fn sha256(&self) -> (r: &str)
        ensures
            r@ == self.spec_sha256(),
    {
        self.sha256.as_str()
    }

    pub fn mime_type(&self) -> (r: &str)
        ensures
            r@ == self.spec_mime_type(),
    {
        self.mime_type.as_str()
    }

    pub fn width(&self) -> (r: Option<i32>)
        ensures
            r == self.spec_width(),
    {
        self.width
    }

    pub fn height(&self) -> (r: Option<i32>)
        ensures
            r == self.spec_height(),
    {
        self.height
    }

    pub fn byte_size(&self) -> (r: u64)
        ensures
            r == self.spec_byte_size(),
    {
        self.byte_size
    }

    pub fn local_relative_path(&self) -> (r: &str)
        ensures
            r@ == self.spec_local_relative_path(),
    {
        self.local_relative_path.as_str()
    }

}

/// The storage scope of a lazily expanded item: its directory and how far its indexing
/// has been reconciled.
#[derive(Clone, Copy, Debug, PartialEq, Eq, Structural)]
pub struct LazyStorageScope {
    storage_root_id: u128,
    storage_object_id: u128,
    children_indexed: bool,
    children_revision: i64,
    reconciled_revision: i64,
    facts_reconciled: bool,
}

impl LazyStorageScope {
    pub closed spec fn spec_storage_root_id(self) -> u128 {
        self.storage_root_id
    }

    pub closed spec fn spec_storage_object_id(self) -> u128 {
        self.storage_object_id
    }

    pub closed spec fn spec_children_indexed(self) -> bool {
        self.children_indexed
    }

    pub closed spec fn spec_children_revision(self) -> i64 {
        self.children_revision
    }

    pub closed spec fn spec_reconciled_revision(self) -> i64 {
        self.reconciled_revision
    }

    pub closed spec fn spec_facts_reconciled(self) -> bool {
        self.facts_reconciled
    }

    /// The revision metadata is derived from: the children's index revision once the
    /// children are indexed, else the reconciled one.
    pub open spec fn spec_metadata_input_revision(self) -> i64 {
        if self.spec_children_indexed() {
            self.spec_children_revision()
        } else {
            self.spec_reconciled_revision()
        }
    }

    /// Children are indexed, reconciled up to their revision, and facts are reconciled.
    pub open spec fn spec_is_ready(self) -> bool {
        self.spec_children_indexed() && self.spec_reconciled_revision() >= self.spec_children_revision()
            && self.spec_facts_reconciled()
    }

    pub open spec fn spec_is_ready_for_direct_source(self) -> bool {
        self.spec_reconciled_revision() >= self.spec_metadata_input_revision()
            && self.spec_facts_reconciled()
    }

    pub fn from_parts(
        storage_root_id: u128,
        storage_object_id: u128,
        children_indexed: bool,
        children_revision: i64,
        reconciled_revision: i64,
        facts_reconciled: bool,
    ) -> (r: Self)
        ensures
            r.spec_storage_root_id() == storage_root_id && r.spec_storage_object_id()
                == storage_object_id && r.spec_children_indexed() == children_indexed
                && r.spec_children_revision() == children_revision && r.spec_reconciled_revision()
                == reconciled_revision && r.spec_facts_reconciled() == facts_reconciled,
    {
        LazyStorageScope {
            storage_root_id,
            storage_object_id,
            children_indexed,
            children_revision,
            reconciled_revision,
            facts_reconciled,
        }
    }

    pub fn storage_root_id(self) -> (r: u128)
        ensures
            r == self.spec_storage_root_id(),
    {
        self.storage_root_id
    }

    pub fn storage_object_id(self) -> (r: u128)
        ensures
            r == self.spec_storage_object_id(),
    {
        self.storage_object_id
    }

    pub fn children_revision(self) -> (r: i64)
        ensures
            r == self.spec_children_revision(),
    {
        self.children_revision
    }

    pub fn reconciled_revision(self) -> (r: i64)
        ensures
            r == self.spec_reconciled_revision(),
    {
        self.reconciled_revision
    }

    pub fn metadata_input_revision(self) -> (r: i64)
        ensures
            r == self.spec_metadata_input_revision(),
    {
        if self.children_indexed {
            self.children_revision
        } else {
            self.reconciled_revision
        }
    }

    pub fn is_ready(self) -> (r: bool)
        ensures
            r == self.spec_is_ready(),
    {
        self.children_indexed && self.reconciled_revision >= self.children_revision
            && self.facts_reconciled
    }

    pub fn is_ready_for_direct_source(self) -> (r: bool)
        ensures
            r == self.spec_is_ready_for_direct_source(),
    {
        self.reconciled_revision >= self.metadata_input_revision() && self.facts_reconciled
    }
}

/// A scope ready for expansion is also ready for direct sources.
pub proof fn ready_scope_is_ready_for_direct_source(scope: LazyStorageScope)
    ensures
        scope.spec_is_ready() ==> scope.spec_is_ready_for_direct_source(),
{
}

/// The revisions of a visible item that lazy work joins on. A metadata requirement is given
/// by its rank: a higher rank asks for more complete metadata.
#[derive(Clone, Copy, Debug, PartialEq, Eq, Structural)]
pub struct LazyCatalogWorkTarget {
    item_type: CatalogItemType,
    metadata_revision: i64,
    metadata_resolved_revision: i64,
    metadata_resolved_requirement: Option<i32>,
    structure_revision: i64,
    source_revision: i64,
    has_current_structure: bool,
    has_current_sources: bool,
    storage_scope: Option<LazyStorageScope>,
}

impl LazyCatalogWorkTarget {
    pub closed spec fn spec_item_type(self) -> CatalogItemType {
        self.item_type
    }

    pub closed spec fn spec_metadata_revision(self) -> i64 {
        self.metadata_revision
    }

    pub closed spec fn spec_metadata_resolved_revision(self) -> i64 {
        self.metadata_resolved_revision
    }

    pub closed spec fn spec_metadata_resolved_requirement(self) -> Option<i32> {
        self.metadata_resolved_requirement
    }

    pub closed spec fn spec_structure_revision(self) -> i64 {
        self.structure_revision
    }

    pub closed spec fn spec_source_revision(self) -> i64 {
        self.source_revision
    }

    pub closed spec fn spec_has_current_structure(self) -> bool {
        self.has_current_structure
    }

    pub closed spec fn spec_has_current_sources(self) -> bool {
        self.has_current_sources
    }

    pub closed spec fn spec_storage_scope(self) -> Option<LazyStorageScope> {
        self.storage_scope
    }

    /// Metadata must be resolved again when it is older than the item's metadata revision
    /// or was resolved for a lower (or no) requirement.
    pub open spec fn spec_needs_metadata_resolution(self, requirement: i32) -> bool {
        self.spec_metadata_resolved_revision() < self.spec_metadata_revision() || match self.spec_metadata_resolved_requirement() {
            Some(current) => current < requirement,
            None => true,
        }
    }

    /// A target as stored, without its storage scope yet.
    pub fn from_stored(
        item_type: &str,
        metadata_revision: i64,
        metadata_resolved_revision: i64,
        metadata_resolved_requirement: Option<i32>,
        structure_revision: i64,
        source_revision: i64,
        has_current_structure: bool,
        has_current_sources: bool,
    ) -> (r: Result<Self, CatalogQueryError>)
        ensures
            match r {
                Ok(t) => item_type_of(item_type@) == Ok::<CatalogItemType, CatalogQueryError>(t.spec_item_type())
                    && t.spec_metadata_revision() == metadata_revision
                    && t.spec_metadata_resolved_revision() == metadata_resolved_revision
                    && t.spec_metadata_resolved_requirement() == metadata_resolved_requirement
                    && t.spec_structure_revision() == structure_revision && t.spec_source_revision()
                    == source_revision && t.spec_has_current_structure() == has_current_structure
                    && t.spec_has_current_sources() == has_current_sources
                    && t.spec_storage_scope() is None,
                Err(e) => item_type_of(item_type@) == Err::<CatalogItemType, CatalogQueryError>(e),
            },
    {
        let item_type = CatalogItemType::from_database_value(item_type)?;
        Ok(
            LazyCatalogWorkTarget {
                item_type,
                metadata_revision,
                metadata_resolved_revision,
                metadata_resolved_requirement,
                structure_revision,
                source_revision,
                has_current_structure,
                has_current_sources,
                storage_scope: None,
            },
        )
    }

    /// The same target with its storage scope.
    pub fn with_storage_scope(self, storage_scope: Option<LazyStorageScope>) -> (r: Self)
        ensures
            r.spec_storage_scope() == storage_scope,
            r.spec_item_type() == self.spec_item_type() && r.spec_metadata_revision()
                == self.spec_metadata_revision() && r.spec_metadata_resolved_revision()
                == self.spec_metadata_resolved_revision() && r.spec_metadata_resolved_requirement()
                == self.spec_metadata_resolved_requirement() && r.spec_structure_revision()
                == self.spec_structure_revision() && r.spec_source_revision()
                == self.spec_source_revision() && r.spec_has_current_structure()
                == self.spec_has_current_structure() && r.spec_has_current_sources()
                == self.spec_has_current_sources(),
    {
        LazyCatalogWorkTarget { storage_scope, ..self }
    }

    /// Audio items are expanded without their directory's direct children.
    pub fn includes_direct_children(self) -> (r: bool)
        ensures
            r == (self.spec_item_type() != CatalogItemType::Audio),
    {
        self.item_type != CatalogItemType::Audio
    }

    pub fn item_type(self) -> (r: CatalogItemType)
        ensures
            r == self.spec_item_type(),
    {
        self.item_type
    }

    pub fn metadata_revision(self) -> (r: i64)
        ensures
            r == self.spec_metadata_revision(),
    {
        self.metadata_revision
    }

    pub fn needs_metadata_resolution(self, requirement: i32) -> (r: bool)
        ensures
            r == self.spec_needs_metadata_resolution(requirement),
    {
        self.metadata_resolved_revision < self.metadata_revision || match self.metadata_resolved_requirement {
            Some(current) => current < requirement,
            None => true,
        }
    }

    pub fn structure_revision(self) -> (r: i64)
        ensures
            r == self.spec_structure_revision(),
    {
        self.structure_revision
    }

    pub fn source_revision(self) -> (r: i64)
        ensures
            r == self.spec_source_revision(),
    {
        self.source_revision
    }

    pub fn has_current_structure(self) -> (r: bool)
        ensures
            r == self.spec_has_current_structure(),
    {
        self.has_current_structure
    }

    pub fn has_current_sources(self) -> (r: bool)
        ensures
            r == self.spec_has_current_sources(),
    {
        self.has_current_sources
    }

    pub fn storage_scope(self) -> (r: Option<LazyStorageScope>)
        ensures
            r == self.spec_storage_scope(),
    {
        self.storage_scope
    }
}

/// Resolving metadata for a requirement also covers every lower requirement: once it is
/// not needed for a requirement, it is not needed for a lower one.
pub proof fn metadata_resolution_is_monotone(target: LazyCatalogWorkTarget, high: i32, low: i32)
    requires
        low <= high,
    ensures
        !target.spec_needs_metadata_resolution(high) ==> !target.spec_needs_metadata_resolution(low),
{
}

/// One page of catalog items with the count before paging.
pub struct CatalogPage<T> {
    items: Vec<T>,
    total_record_count: u64,
    start_index: u64,
}

impl<T> CatalogPage<T> {
    pub closed spec fn spec_items(&self) -> Seq<T> {
        self.items@
    }

    pub closed spec fn spec_total_record_count(&self) -> u64 {
        self.total_record_count
    }

    pub closed spec fn spec_start_index(&self) -> u64 {
        self.start_index
    }

    pub fn new(items: Vec<T>, total_record_count: u64, start_index: u64) -> (r: Self)
        ensures
            r.spec_items() == items@ && r.spec_total_record_count() == total_record_count
                && r.spec_start_index() == start_index,
    {
        CatalogPage { items, total_record_count, start_index }
    }

    pub fn items(&self) -> (r: &[T])
        ensures
            r@ == self.spec_items(),
    {
        self.items.as_slice()
    }

    pub fn total_record_count(&self) -> (r: u64)
        ensures
            r == self.spec_total_record_count(),
    {
        self.total_record_count
    }

    pub fn start_index(&self) -> (r: u64)
        ensures
            r == self.spec_start_index(),
    {
        self.start_index
    }
}

// ---------------------------------------------------------------------------------------
// Search.

/// The lower-case form of a text, as `str::to_lowercase` gives it.
pub uninterp spec fn lowercased(s: Seq<char>) -> Seq<char>;

/// Calls `str::to_lowercase`. Trusted: the result is `lowercased` of the text.
#[verifier::external_body]
fn to_lowercase(s: &str) -> (r: String)
    ensures
        r@ == lowercased(s@),
{
    s.to_lowercase()
}

/// A character that a `LIKE` pattern escapes with a backslash.
pub open spec fn like_special(c: char) -> bool {
    c == '\\' || c == '%' || c == '_'
}

/// A text with each backslash, `%` and `_` escaped by a backslash.
pub open spec fn like_escaped(s: Seq<char>) -> Seq<char>
    decreases s.len(),
{
    if s.len() == 0 {
        Seq::empty()
    } else if like_special(s.last()) {
        like_escaped(s.drop_last()) + seq!['\\', s.last()]
    } else {
        like_escaped(s.drop_last()) + seq![s.last()]
    }
}

/// The `LIKE` pattern of a search term: the lower-cased term, escaped, anywhere in the text.
pub fn search_pattern(search_term: &str) -> (r: String)
    ensures
        r@ == seq!['%'] + like_escaped(lowercased(search_term@)) + seq!['%'],
{
    let lower = to_lowercase(search_term);
    let chars = crate::text::chars_of(lower.as_str());
    let mut out = String::new();
    crate::hashing::push_char(&mut out, '%');
    let mut i: usize = 0;
    while i < chars.len()
        invariant
            chars@ == lowercased(search_term@),
            i <= chars@.len(),
            out@ == seq!['%'] + like_escaped(chars@.take(i as int)),
        decreases chars.len() - i,
    {
        let c = chars[i];
        if c == '\\' || c == '%' || c == '_' {
            crate::hashing::push_char(&mut out, '\\');
        }
        crate::hashing::push_char(&mut out, c);
        assert(chars@.take(i + 1).drop_last() =~= chars@.take(i as int));
        assert(out@ =~= seq!['%'] + like_escaped(chars@.take(i + 1)));
        i = i + 1;
    }
    assert(chars@.take(chars@.len() as int) =~= chars@);
    crate::hashing::push_char(&mut out, '%');
    out
}


/// One stored image of a catalog item as the image query returns it, ordered by item, image
/// type, priority and image id.
pub struct ImageTagRow {
    pub item_id: u128,
    pub image_type: String,
    pub sha256: String,
    pub priority: i32,
    pub width: Option<i32>,
    pub height: Option<i32>,
}

/// The images of one item: for each image type the digest of its first-priority image, the
/// backdrop digests in order, and the positive dimensions of its first-priority primary image.
pub struct ItemImageTags {
    pub image_tags: Vec<(String, String)>,
    pub backdrop_image_tags: Vec<String>,
    pub primary_dimensions: Option<(i32, i32)>,
}

/// Image type to digest over the first-priority rows of `item`; a later row of a type
/// replaces an earlier one.
pub open spec fn tag_map(rows: Seq<ImageTagRow>, item: u128) -> Map<Seq<char>, Seq<char>>
    decreases rows.len(),
{
    if rows.len() == 0 {
        Map::empty()
    } else {
        let prev = tag_map(rows.drop_last(), item);
        let r = rows.last();
        if r.item_id == item && r.priority == 0 {
            prev.insert(r.image_type@, r.sha256@)
        } else {
            prev
        }
    }
}

/// The digests of the backdrop rows of `item`, in row order.
pub open spec fn backdrop_tags(rows: Seq<ImageTagRow>, item: u128) -> Seq<Seq<char>>
    decreases rows.len(),
{
    if rows.len() == 0 {
        Seq::empty()
    } else {
        let prev = backdrop_tags(rows.drop_last(), item);
        let r = rows.last();
        if r.item_id == item && r.image_type@ == "Backdrop"@ {
            prev.push(r.sha256@)
        } else {
            prev
        }
    }
}

/// Both dimensions, where both are present and positive.
pub open spec fn positive_dimensions(width: Option<i32>, height: Option<i32>) -> Option<(i32, i32)> {
    match (width, height) {
        (Some(w), Some(h)) => if w > 0 && h > 0 {
            Some((w, h))
        } else {
            None
        },
        _ => None,
    }
}

/// The dimensions of the last first-priority primary row of `item` that has positive ones.
pub open spec fn primary_dimensions(rows: Seq<ImageTagRow>, item: u128) -> Option<(i32, i32)>
    decreases rows.len(),
{
    if rows.len() == 0 {
        None
    } else {
        let prev = primary_dimensions(rows.drop_last(), item);
        let r = rows.last();
        if r.item_id == item && r.priority == 0 && r.image_type@ == "Primary"@
            && positive_dimensions(r.width, r.height) is Some {
            positive_dimensions(r.width, r.height)
        } else {
            prev
        }
    }
}

/// The pairs hold distinct keys and are exactly the entries of `m`.
pub open spec fn pairs_match(v: Seq<(String, String)>, m: Map<Seq<char>, Seq<char>>) -> bool {
    &&& forall|i: int, j: int| 0 <= i < j < v.len() ==> v[i].0@ != v[j].0@
    &&& forall|i: int| 0 <= i < v.len() ==> #[trigger] m.contains_key(v[i].0@) && m[v[i].0@] == v[i].1@
    &&& forall|k: Seq<char>| #[trigger] m.contains_key(k) ==> exists|i: int| 0 <= i < v.len() && v[i].0@ == k
}

/// The characters of each string, in order.
pub open spec fn string_views(v: Seq<String>) -> Seq<Seq<char>> {
    v.map_values(|s: String| s@)
}

fn upsert_tag(tags: &mut Vec<(String, String)>, key: String, value: String, Ghost(m): Ghost<Map<Seq<char>, Seq<char>>>)
    requires
        pairs_match(old(tags)@, m),
    ensures
        pairs_match(final(tags)@, m.insert(key@, value@)),
{
    let mut j: usize = 0;
    while j < tags.len()
        invariant
            j <= tags.len(),
            pairs_match(tags@, m),
            forall|k: int| 0 <= k < j ==> tags@[k].0@ != key@,
        decreases tags.len() - j,
    {
        if tags[j].0 == key {
            let ghost before = tags@;
            tags.set(j, (key, value));
            let ghost m2 = m.insert(key@, value@);
            assert forall|k: Seq<char>| #[trigger] m2.contains_key(k) implies exists|i: int|
                0 <= i < tags@.len() && tags@[i].0@ == k by {
                if k != key@ {
                    let i0 = choose|i: int| 0 <= i < before.len() && before[i].0@ == k;
                    assert(tags@[i0].0@ == k);
                } else {
                    assert(tags@[j as int].0@ == k);
                }
            }
            return;
        }
        j = j + 1;
    }
    let ghost before = tags@;
    tags.push((key, value));
    let ghost m2 = m.insert(key@, value@);
    assert forall|k: Seq<char>| #[trigger] m2.contains_key(k) implies exists|i: int|
        0 <= i < tags@.len() && tags@[i].0@ == k by {
        if k != key@ {
            let i0 = choose|i: int| 0 <= i < before.len() && before[i].0@ == k;
            assert(tags@[i0].0@ == k);
        } else {
            assert(tags@[before.len() as int].0@ == k);
        }
    }
}

/// Gathers the images of `item` from the image rows.
pub fn item_image_tags(rows: &[ImageTagRow], item: u128) -> (r: ItemImageTags)
    ensures
        pairs_match(r.image_tags@, tag_map(rows@, item)),
        string_views(r.backdrop_image_tags@) == backdrop_tags(rows@, item),
        r.primary_dimensions == primary_dimensions(rows@, item),
{
    let mut tags: Vec<(String, String)> = Vec::new();
    let mut backdrops: Vec<String> = Vec::new();
    let mut dims: Option<(i32, i32)> = None;
    let mut i: usize = 0;
    while i < rows.len()
        invariant
            i <= rows.len(),
            pairs_match(tags@, tag_map(rows@.take(i as int), item)),
            string_views(backdrops@) == backdrop_tags(rows@.take(i as int), item),
            dims == primary_dimensions(rows@.take(i as int), item),
        decreases rows.len() - i,
    {
        let r = &rows[i];
        let ghost prefix = rows@.take(i as int);
        let ghost next = rows@.take(i + 1);
        assert(next.drop_last() =~= prefix);
        assert(next.last() == rows@[i as int]);
        if r.item_id == item {
            if crate::text::str_eq(r.image_type.as_str(), "Backdrop") {
                let ghost old_views = string_views(backdrops@);
                backdrops.push(r.sha256.clone());
                assert(string_views(backdrops@) =~= old_views.push(r.sha256@));
            }
            if r.priority == 0 {
                if crate::text::str_eq(r.image_type.as_str(), "Primary") {
                    match (r.width, r.height) {
                        (Some(w), Some(h)) => {
                            if w > 0 && h > 0 {
                                dims = Some((w, h));
                            }
                        },
                        _ => {},
                    }
                }
                upsert_tag(&mut tags, r.image_type.clone(), r.sha256.clone(), Ghost(tag_map(prefix, item)));
            }
        }
        i = i + 1;
    }
    assert(rows@.take(rows@.len() as int) =~= rows@);
    ItemImageTags { image_tags: tags, backdrop_image_tags: backdrops, primary_dimensions: dims }
}

/// Gathers the images of each of `items`, in order, from the image rows.
pub fn attach_image_tags(rows: &[ImageTagRow], items: &[u128]) -> (r: Vec<ItemImageTags>)
    ensures
        r.len() == items.len(),
        forall|k: int| 0 <= k < items.len() ==> {
            &&& pairs_match(#[trigger] r@[k].image_tags@, tag_map(rows@, items@[k]))
            &&& string_views(r@[k].backdrop_image_tags@) == backdrop_tags(rows@, items@[k])
            &&& r@[k].primary_dimensions == primary_dimensions(rows@, items@[k])
        },
{
    let mut out: Vec<ItemImageTags> = Vec::new();
    let mut k: usize = 0;
    while k < items.len()
        invariant
            k <= items.len(),
            out.len() == k,
            forall|q: int| 0 <= q < k ==> {
                &&& pairs_match(#[trigger] out@[q].image_tags@, tag_map(rows@, items@[q]))
                &&& string_views(out@[q].backdrop_image_tags@) == backdrop_tags(rows@, items@[q])
                &&& out@[q].primary_dimensions == primary_dimensions(rows@, items@[q])
            },
        decreases items.len() - k,
    {
        out.push(item_image_tags(rows, items[k]));
        k = k + 1;
    }
    out
}

} // verus!
