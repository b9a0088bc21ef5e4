//! The demo catalog: its stable identities, the rules on a demo publication, the columns
//! it writes, and its report.
use vstd::prelude::*;

verus! {

/// The namespace of the demo catalog's name-based identities.
pub const DEMO_NAMESPACE: u128 = 0x8fd6_fbd6_d3e4_4cf5_9488_49ce_0585_97aa;
pub const MOVIE_LIBRARY_KEY: &'static str = "library:movies";
pub const SERIES_LIBRARY_KEY: &'static str = "library:series";
/// The most movies, and the most series, one demo publication holds.
pub const MAX_DEMO_ENTRIES: usize = 100;
/// The most assets one demo publication holds.
pub const MAX_DEMO_ASSETS: usize = 1000;
/// The longest demo title, in characters.
pub const MAX_DEMO_TITLE_CHARS: usize = 512;
/// The longest demo language tag, in bytes.
pub const MAX_DEMO_LANGUAGE_BYTES: usize = 32;

#[derive(Clone, Copy, Debug, PartialEq, Eq, Structural)]
pub enum DemoCatalogPublicationError {
    InvalidPublication,
}

/// The kind of a metadata item.
#[derive(Clone, Copy, Debug, PartialEq, Eq, Structural)]
pub enum MetadataItemKind {
    Movie,
    Series,
    Season,
    Episode,
}

pub open spec fn kind_text(kind: MetadataItemKind) -> Seq<char> {
    match kind {
        MetadataItemKind::Movie => "Movie"@,
        MetadataItemKind::Series => "Series"@,
        MetadataItemKind::Season => "Season"@,
        MetadataItemKind::Episode => "Episode"@,
    }
}

/// The catalog item type of a metadata kind.
pub fn item_kind(kind: MetadataItemKind) -> (r: &'static str)
    ensures
        r@ == kind_text(kind),
{
    match kind {
        MetadataItemKind::Movie => "Movie",
        MetadataItemKind::Series => "Series",
        MetadataItemKind::Season => "Season",
        MetadataItemKind::Episode => "Episode",
    }
}

/// Series and seasons arrive expanded; movies and episodes have no structure.
pub fn structure_state(kind: MetadataItemKind) -> (r: &'static str)
    ensures
        r@ == (match kind {
            MetadataItemKind::Series | MetadataItemKind::Season => "Expanded"@,
            MetadataItemKind::Movie | MetadataItemKind::Episode => "NotApplicable"@,
        }),
{
    match kind {
        MetadataItemKind::Series | MetadataItemKind::Season => "Expanded",
        MetadataItemKind::Movie | MetadataItemKind::Episode => "NotApplicable",
    }
}

// ---------------------------------------------------------------------------------------
// Identities.

/// The decimal digits of `n`.
pub open spec fn decimal(n: nat) -> Seq<char>
    decreases n,
{
    if n < 10 {
        seq![(('0' as int) + n) as char]
    } else {
        decimal(n / 10) + seq![(('0' as int) + (n % 10)) as char]
    }
}

fn push_decimal(out: &mut String, n: u64)
    ensures
        final(out)@ == old(out)@ + decimal(n as nat),
    decreases n,
{
    if n >= 10 {
        push_decimal(out, n / 10);
    }
    let d = (n % 10) as u8;
    let c = (48u8 + d) as char;
    crate::hashing::push_char(out, c);
    proof {
        if n < 10 {
            assert(decimal(n as nat) =~= seq![c]);
        }
    }
    assert(final(out)@ =~= old(out)@ + decimal(n as nat)) by {
        if n >= 10 {
            assert(decimal(n as nat) =~= decimal((n / 10) as nat) + seq![c]);
        }
    }
}

/// The identity key of a demo item: `item:<kind>:<provider id>`.
pub open spec fn item_key(kind: MetadataItemKind, provider_id: u64) -> Seq<char> {
    "item:"@ + kind_text(kind) + ":"@ + decimal(provider_id as nat)
}

/// The stable id of a demo key.
pub fn stable_id(key: &str) -> (r: u128)
    ensures
        r == crate::identity::spec_uuid_v5(DEMO_NAMESPACE, vstd::utf8::encode_utf8(key@)),
{
    crate::identity::uuid_v5(DEMO_NAMESPACE, key.as_bytes())
}

/// The catalog item id of a demo item: the stable id of its identity key.
pub fn demo_catalog_item_id(kind: MetadataItemKind, provider_id: u64) -> (r: u128)
    ensures
        r == crate::identity::spec_uuid_v5(DEMO_NAMESPACE, vstd::utf8::encode_utf8(item_key(kind, provider_id))),
{
    let mut key = String::new();
    let prefix = "item:";
    let sep = ":";
    let kind_name = item_kind(kind);
    crate::filesystem_path::push_str_chars(&mut key, prefix);
    crate::filesystem_path::push_str_chars(&mut key, kind_name);
    crate::filesystem_path::push_str_chars(&mut key, sep);
    push_decimal(&mut key, provider_id);
    assert(key@ =~= item_key(kind, provider_id));
    stable_id(key.as_str())
}

// ---------------------------------------------------------------------------------------
// Publications.

/// One item of a demo publication, as its checks see it.
pub struct DemoItem {
    pub kind: MetadataItemKind,
    pub provider_id: u64,
    pub title: String,
}

/// An item is of the expected kind, has a provider id, and a title of 1 to
/// `MAX_DEMO_TITLE_CHARS` characters.
pub open spec fn item_valid(item: DemoItem, expected: MetadataItemKind) -> bool {
    item.kind == expected && item.provider_id != 0 && item.title@.len() > 0
        && item.title@.len() <= MAX_DEMO_TITLE_CHARS
}

pub fn validate_item(item: &DemoItem, expected: MetadataItemKind) -> (r: Result<(), DemoCatalogPublicationError>)
    ensures
        r is Ok <==> item_valid(*item, expected),
        r is Err ==> r == Err::<(), DemoCatalogPublicationError>(DemoCatalogPublicationError::InvalidPublication),
{
    let n = crate::text::chars_of(item.title.as_str()).len();
    if item.kind != expected || item.provider_id == 0 || n == 0 || n > MAX_DEMO_TITLE_CHARS {
        return Err(DemoCatalogPublicationError::InvalidPublication);
    }
    Ok(())
}

/// The shape of a publication: something to publish, a language tag of 1 to
/// `MAX_DEMO_LANGUAGE_BYTES` bytes, and at most `MAX_DEMO_ENTRIES` movies and series each.
pub open spec fn publication_shape_valid(movies: nat, series: nat, language: Seq<char>) -> bool {
    !(movies == 0 && series == 0) && vstd::utf8::encode_utf8(language).len() > 0
        && vstd::utf8::encode_utf8(language).len() <= MAX_DEMO_LANGUAGE_BYTES
        && movies <= MAX_DEMO_ENTRIES && series <= MAX_DEMO_ENTRIES
}

pub fn check_publication_shape(movies: usize, series: usize, language: &str) -> (r: Result<
    (),
    DemoCatalogPublicationError,
>)
    ensures
        r is Ok <==> publication_shape_valid(movies as nat, series as nat, language@),
        r is Err ==> r == Err::<(), DemoCatalogPublicationError>(DemoCatalogPublicationError::InvalidPublication),
{
    let bytes = language.as_bytes().len();
    if (movies == 0 && series == 0) || bytes == 0 || bytes > MAX_DEMO_LANGUAGE_BYTES
        || movies > MAX_DEMO_ENTRIES || series > MAX_DEMO_ENTRIES {
        return Err(DemoCatalogPublicationError::InvalidPublication);
    }
    Ok(())
}

/// Every demo item identity occurs once.
pub fn check_unique_identities(identities: &[(MetadataItemKind, u64)]) -> (r: Result<
    (),
    DemoCatalogPublicationError,
>)
    ensures
        r is Ok <==> identities@.no_duplicates(),
        r is Err ==> r == Err::<(), DemoCatalogPublicationError>(DemoCatalogPublicationError::InvalidPublication),
{
    let mut i: usize = 0;
    while i < identities.len()
        invariant
            i <= identities@.len(),
            forall|a: int, b: int| 0 <= a < b < i ==> identities@[a] != identities@[b],
        decreases identities.len() - i,
    {
        let mut j: usize = 0;
        while j < i
            invariant
                i < identities@.len(),
                j <= i,
                forall|a: int| 0 <= a < j ==> identities@[a] != identities@[i as int],
            decreases i - j,
        {
            if identities[j].0 == identities[i].0 && identities[j].1 == identities[i].1 {
                return Err(DemoCatalogPublicationError::InvalidPublication);
            }
            j = j + 1;
        }
        i = i + 1;
    }
    Ok(())
}

/// A publication carries at most `MAX_DEMO_ASSETS` assets.
pub fn check_asset_count(assets: usize) -> (r: Result<(), DemoCatalogPublicationError>)
    ensures
        r is Ok <==> assets <= MAX_DEMO_ASSETS,
        r is Err ==> r == Err::<(), DemoCatalogPublicationError>(DemoCatalogPublicationError::InvalidPublication),
{
    if assets > MAX_DEMO_ASSETS {
        Err(DemoCatalogPublicationError::InvalidPublication)
    } else {
        Ok(())
    }
}

/// Provider counts are stored as signed integers: a vote count as 64 bits, an index
/// number as 32 bits; larger values are refused.
pub fn stored_counts(vote_count: Option<u64>, index_number: Option<u32>) -> (r: Result<
    (Option<i64>, Option<i32>),
    DemoCatalogPublicationError,
>)
    ensures
        match r {
            Ok((v, n)) => v == (match vote_count {
                Some(x) => Some(x as i64),
                None => None,
            }) && n == (match index_number {
                Some(x) => Some(x as i32),
                None => None,
            }) && (vote_count matches Some(x) ==> x <= i64::MAX) && (index_number matches Some(x)
                ==> x <= i32::MAX),
            Err(e) => e == DemoCatalogPublicationError::InvalidPublication && ((vote_count matches Some(
                x,
            ) && x > i64::MAX) || (index_number matches Some(x) && x > i32::MAX)),
        },
{
    let v = match vote_count {
        Some(x) => if x > 0x7fff_ffff_ffff_ffffu64 {
            return Err(DemoCatalogPublicationError::InvalidPublication);
        } else {
            Some(x as i64)
        },
        None => None,
    };
    let n = match index_number {
        Some(x) => if x > 0x7fff_ffffu32 {
            return Err(DemoCatalogPublicationError::InvalidPublication);
        } else {
            Some(x as i32)
        },
        None => None,
    };
    Ok((v, n))
}

// ---------------------------------------------------------------------------------------
// Columns.

/// The catalog item columns a demo item writes, in order.
pub open spec fn catalog_item_column_names() -> Seq<Seq<char>> {
    seq![
        "id"@, "parent_id"@, "item_type"@, "name"@, "original_title"@, "sort_name"@,
        "production_year"@, "overview"@, "classification_state"@, "metadata_state"@,
        "structure_state"@, "source_state"@, "structure_expansion_revision"@,
        "source_index_revision"@, "active_structure_publication_id"@,
        "active_source_publication_id"@, "is_present"@, "last_error"@, "sort_key"@,
        "date_created"@, "metadata_revision"@, "metadata_resolved_revision"@,
        "metadata_resolved_requirement"@, "tagline"@, "community_rating"@, "vote_count"@,
        "runtime_ticks"@, "premiere_date"@, "end_date"@, "release_status"@,
        "official_rating"@, "original_language"@, "index_number"@,
    ]
}

pub fn catalog_item_columns() -> (r: Vec<&'static str>)
    ensures
        r@.len() == catalog_item_column_names().len(),
        forall|i: int| 0 <= i < r@.len() ==> (#[trigger] r@[i])@ == catalog_item_column_names()[i],
{
    let v = vec![
        "id", "parent_id", "item_type", "name", "original_title", "sort_name",
        "production_year", "overview", "classification_state", "metadata_state",
        "structure_state", "source_state", "structure_expansion_revision",
        "source_index_revision", "active_structure_publication_id",
        "active_source_publication_id", "is_present", "last_error", "sort_key",
        "date_created", "metadata_revision", "metadata_resolved_revision",
        "metadata_resolved_requirement", "tagline", "community_rating", "vote_count",
        "runtime_ticks", "premiere_date", "end_date", "release_status",
        "official_rating", "original_language", "index_number",
    ];
    v
}

/// The columns an existing demo item updates: every written column but its id.
pub fn catalog_item_update_columns() -> (r: Vec<&'static str>)
    ensures
        r@.len() == catalog_item_column_names().len() - 1,
        forall|i: int| 0 <= i < r@.len() ==> (#[trigger] r@[i])@ == catalog_item_column_names()[i + 1],
{
    let columns = catalog_item_columns();
    let mut out: Vec<&'static str> = Vec::new();
    let mut i: usize = 1;
    while i < columns.len()
        invariant
            columns@.len() == catalog_item_column_names().len(),
            forall|k: int| 0 <= k < columns@.len() ==> (#[trigger] columns@[k])@ == catalog_item_column_names()[k],
            1 <= i <= columns@.len(),
            out@.len() == i - 1,
            forall|k: int| 0 <= k < out@.len() ==> (#[trigger] out@[k])@ == catalog_item_column_names()[k + 1],
        decreases columns.len() - i,
    {
        out.push(columns[i]);
        i = i + 1;
    }
    out
}

/// How many items of each kind a demo publication wrote.
#[derive(Clone, Copy, Debug, PartialEq, Eq, Structural)]
pub struct DemoCatalogPublicationReport {
    movies: usize,
    series: usize,
    seasons: usize,
    episodes: usize,
}

impl DemoCatalogPublicationReport {
    pub closed spec fn spec_counts(self) -> (usize, usize, usize, usize) {
        (self.movies, self.series, self.seasons, self.episodes)
    }

    pub fn new(movies: usize, series: usize, seasons: usize, episodes: usize) -> (r: Self)
        ensures
            r.spec_counts() == (movies, series, seasons, episodes),
    {
        DemoCatalogPublicationReport { movies, series, seasons, episodes }
    }

    pub fn movies(self) -> (r: usize)
        ensures
            r == self.spec_counts().0,
    {
        self.movies
    }

    pub fn series(self) -> (r: usize)
        ensures
            r == self.spec_counts().1,
    {
        self.series
    }

    pub fn seasons(self) -> (r: usize)
        ensures
            r == self.spec_counts().2,
    {
        self.seasons
    }

    pub fn episodes(self) -> (r: usize)
        ensures
            r == self.spec_counts().3,
    {
        self.episodes
    }
}

// ---------------------------------------------------------------------------------------
// Whole publications: movie roots and complete series trees.

/// A season of a demo series and its episodes.
pub struct DemoSeason {
    pub item: DemoItem,
    pub episodes: Vec<DemoItem>,
}

/// A demo series and its seasons.
pub struct DemoSeries {
    pub item: DemoItem,
    pub seasons: Vec<DemoSeason>,
}

/// Each item of a publication with the kind it must have, in the order they are checked:
/// the movies, then each series followed by each of its seasons, each season followed by
/// its episodes.
pub open spec fn movie_entries(movies: Seq<DemoItem>) -> Seq<(DemoItem, MetadataItemKind)> {
    Seq::new(movies.len(), |i: int| (movies[i], MetadataItemKind::Movie))
}

pub open spec fn season_entries(season: DemoSeason) -> Seq<(DemoItem, MetadataItemKind)> {
    seq![(season.item, MetadataItemKind::Season)] + Seq::new(
        season.episodes@.len(),
        |i: int| (season.episodes@[i], MetadataItemKind::Episode),
    )
}

pub open spec fn seasons_entries(seasons: Seq<DemoSeason>) -> Seq<(DemoItem, MetadataItemKind)>
    decreases seasons.len(),
{
    if seasons.len() == 0 {
        Seq::empty()
    } else {
        seasons_entries(seasons.drop_last()) + season_entries(seasons.last())
    }
}

pub open spec fn series_entries(series: Seq<DemoSeries>) -> Seq<(DemoItem, MetadataItemKind)>
    decreases series.len(),
{
    if series.len() == 0 {
        Seq::empty()
    } else {
        series_entries(series.drop_last()) + seq![(series.last().item, MetadataItemKind::Series)]
            + seasons_entries(series.last().seasons@)
    }
}

pub open spec fn publication_entries(movies: Seq<DemoItem>, series: Seq<DemoSeries>) -> Seq<
    (DemoItem, MetadataItemKind),
> {
    movie_entries(movies) + series_entries(series)
}

/// The `(kind, provider id)` identity of each entry.
pub open spec fn entry_identities(entries: Seq<(DemoItem, MetadataItemKind)>) -> Seq<(MetadataItemKind, u64)> {
    Seq::new(entries.len(), |i: int| (entries[i].0.kind, entries[i].0.provider_id))
}

/// A publication is acceptable: its shape is bounded, every item is valid for its place,
/// and no identity repeats.
pub open spec fn publication_valid(movies: Seq<DemoItem>, series: Seq<DemoSeries>, language: Seq<char>) -> bool {
    &&& publication_shape_valid(movies.len(), series.len(), language)
    &&& forall|i: int|
        0 <= i < publication_entries(movies, series).len() ==> item_valid(
            (#[trigger] publication_entries(movies, series)[i]).0,
            publication_entries(movies, series)[i].1,
        )
    &&& entry_identities(publication_entries(movies, series)).no_duplicates()
}

fn push_entry(
    ids: &mut Vec<(MetadataItemKind, u64)>,
    item: &DemoItem,
    expected: MetadataItemKind,
    Ghost(entries): Ghost<Seq<(DemoItem, MetadataItemKind)>>,
) -> (r: Result<(), DemoCatalogPublicationError>)
    requires
        old(ids)@ == entry_identities(entries),
    ensures
        r is Ok <==> item_valid(*item, expected),
        r is Err ==> r == Err::<(), DemoCatalogPublicationError>(DemoCatalogPublicationError::InvalidPublication),
        r is Ok ==> final(ids)@ == entry_identities(entries.push((*item, expected))),
{
    validate_item(item, expected)?;
    ids.push((item.kind, item.provider_id));
    assert(ids@ =~= entry_identities(entries.push((*item, expected))));
    Ok(())
}

/// Checks a demo publication: its shape, each item for its place, and that no `(kind,
/// provider id)` identity repeats.
pub fn validate_publication(movies: &[DemoItem], series: &[DemoSeries], language: &str) -> (r: Result<
    (),
    DemoCatalogPublicationError,
>)
    ensures
        r is Ok <==> publication_valid(movies@, series@, language@),
        r is Err ==> r == Err::<(), DemoCatalogPublicationError>(DemoCatalogPublicationError::InvalidPublication),
{
    check_publication_shape(movies.len(), series.len(), language)?;
    let ghost all = publication_entries(movies@, series@);
    let mut ids: Vec<(MetadataItemKind, u64)> = Vec::new();
    let ghost mut entries: Seq<(DemoItem, MetadataItemKind)> = Seq::empty();
    let mut i: usize = 0;
    while i < movies.len()
        invariant
            i <= movies@.len(),
            entries == movie_entries(movies@.take(i as int)),
            ids@ == entry_identities(entries),
            forall|k: int| 0 <= k < entries.len() ==> item_valid((#[trigger] entries[k]).0, entries[k].1),
            all == publication_entries(movies@, series@),
        decreases movies.len() - i,
    {
        let r = push_entry(&mut ids, &movies[i], MetadataItemKind::Movie, Ghost(entries));
        if r.is_err() {
            proof {
                assert(all[i as int] == (movies@[i as int], MetadataItemKind::Movie));
            }
            return r;
        }
        proof {
            entries = entries.push((movies@[i as int], MetadataItemKind::Movie));
            assert(entries =~= movie_entries(movies@.take(i + 1)));
        }
        i = i + 1;
    }
    assert(movies@.take(movies@.len() as int) =~= movies@);
    let ghost movie_part = entries;
    let mut s: usize = 0;
    while s < series.len()
        invariant
            s <= series@.len(),
            movie_part == movie_entries(movies@),
            entries == movie_part + series_entries(series@.take(s as int)),
            ids@ == entry_identities(entries),
            forall|k: int| 0 <= k < entries.len() ==> item_valid((#[trigger] entries[k]).0, entries[k].1),
            all == publication_entries(movies@, series@),
        decreases series.len() - s,
    {
        let show = &series[s];
        let ghost before_show = entries;
        assert(series@.take(s + 1).drop_last() =~= series@.take(s as int));
        assert(series_entries(series@.take(s + 1)) == series_entries(series@.take(s as int)) + seq![
            (show.item, MetadataItemKind::Series),
        ] + seasons_entries(show.seasons@));
        let r = push_entry(&mut ids, &show.item, MetadataItemKind::Series, Ghost(entries));
        if r.is_err() {
            proof {
                lemma_entries_prefix(movies@, series@, s as int);
                assert(all[before_show.len() as int] == (show.item, MetadataItemKind::Series));
            }
            return r;
        }
        proof {
            entries = entries.push((show.item, MetadataItemKind::Series));
        }
        let mut t: usize = 0;
        while t < show.seasons.len()
            invariant
                t <= show.seasons@.len(),
                entries == before_show + seq![(show.item, MetadataItemKind::Series)] + seasons_entries(
                    show.seasons@.take(t as int),
                ),
                ids@ == entry_identities(entries),
                forall|k: int| 0 <= k < entries.len() ==> item_valid((#[trigger] entries[k]).0, entries[k].1),
                before_show == movie_part + series_entries(series@.take(s as int)),
                series_entries(series@.take(s + 1)) == series_entries(series@.take(s as int)) + seq![
                    (show.item, MetadataItemKind::Series),
                ] + seasons_entries(show.seasons@),
                all == publication_entries(movies@, series@),
                movie_part == movie_entries(movies@),
                s < series@.len(),
                *show == series@[s as int],
            decreases show.seasons.len() - t,
        {
            let season = &show.seasons[t];
            let ghost before_season = entries;
            assert(show.seasons@.take(t + 1).drop_last() =~= show.seasons@.take(t as int));
            let r = push_entry(&mut ids, &season.item, MetadataItemKind::Season, Ghost(entries));
            if r.is_err() {
                proof {
                    lemma_entries_prefix(movies@, series@, s as int);
                    lemma_seasons_prefix(show.seasons@, t as int);
                    assert(all[before_season.len() as int] == (season.item, MetadataItemKind::Season));
                }
                return r;
            }
            proof {
                entries = entries.push((season.item, MetadataItemKind::Season));
                assert(seasons_entries(show.seasons@.take(t + 1)) == seasons_entries(show.seasons@.take(t as int))
                    + season_entries(*season));
            }
            let mut e: usize = 0;
            while e < season.episodes.len()
                invariant
                    e <= season.episodes@.len(),
                    entries == before_season + seq![(season.item, MetadataItemKind::Season)] + Seq::new(
                        e as nat,
                        |k: int| (season.episodes@[k], MetadataItemKind::Episode),
                    ),
                    ids@ == entry_identities(entries),
                    forall|k: int| 0 <= k < entries.len() ==> item_valid((#[trigger] entries[k]).0, entries[k].1),
                    before_season == before_show + seq![(show.item, MetadataItemKind::Series)] + seasons_entries(
                        show.seasons@.take(t as int),
                    ),
                    before_show == movie_part + series_entries(series@.take(s as int)),
                    series_entries(series@.take(s + 1)) == series_entries(series@.take(s as int)) + seq![
                        (show.item, MetadataItemKind::Series),
                    ] + seasons_entries(show.seasons@),
                    all == publication_entries(movies@, series@),
                    movie_part == movie_entries(movies@),
                    s < series@.len(),
                    *show == series@[s as int],
                    t < show.seasons@.len(),
                    *season == show.seasons@[t as int],
                    seasons_entries(show.seasons@.take(t + 1)) == seasons_entries(show.seasons@.take(t as int))
                        + season_entries(*season),
                decreases season.episodes.len() - e,
            {
                let r = push_entry(&mut ids, &season.episodes[e], MetadataItemKind::Episode, Ghost(entries));
                if r.is_err() {
                    proof {
                        lemma_entries_prefix(movies@, series@, s as int);
                        lemma_seasons_prefix(show.seasons@, t as int);
                        let idx = entries.len() as int;
                        let mp = movie_part.len() as int;
                        let a = before_show.len() as int;
                        let st = seasons_entries(show.seasons@.take(t as int)).len() as int;
                        assert(before_show.len() == mp + series_entries(series@.take(s as int)).len());
                        assert(idx == a + 1 + st + 1 + e);
                        let se = season_entries(*season);
                        assert(se[1 + e] == (season.episodes@[e as int], MetadataItemKind::Episode));
                        let sp = seasons_entries(show.seasons@.take(t + 1));
                        assert(sp[st + 1 + e] == se[1 + e]);
                        assert(seasons_entries(show.seasons@)[st + 1 + e] == sp[st + 1 + e]);
                        let full = series_entries(series@.take(s + 1));
                        assert(full[idx - mp] == seasons_entries(show.seasons@)[st + 1 + e]);
                        assert((movie_part + full)[idx] == full[idx - mp]);
                        assert(all[idx] == (movie_part + full)[idx]);
                        assert(all[entries.len() as int] == (season.episodes@[e as int], MetadataItemKind::Episode));
                    }
                    return r;
                }
                proof {
                    let next = entries.push((season.episodes@[e as int], MetadataItemKind::Episode));
                    assert(next =~= before_season + seq![(season.item, MetadataItemKind::Season)] + Seq::new(
                        (e + 1) as nat,
                        |k: int| (season.episodes@[k], MetadataItemKind::Episode),
                    ));
                    entries = next;
                }
                e = e + 1;
            }
            proof {
                assert(seasons_entries(show.seasons@.take(t + 1)) == seasons_entries(show.seasons@.take(t as int))
                    + season_entries(*season));
                assert(entries =~= before_show + seq![(show.item, MetadataItemKind::Series)] + seasons_entries(
                    show.seasons@.take(t + 1),
                ));
            }
            t = t + 1;
        }
        proof {
            assert(show.seasons@.take(show.seasons@.len() as int) =~= show.seasons@);
            assert(entries =~= movie_part + series_entries(series@.take(s + 1)));
        }
        s = s + 1;
    }
    assert(series@.take(series@.len() as int) =~= series@);
    assert(entries == all);
    check_unique_identities(ids.as_slice())
}

/// The entries of the first `s` series come first among the publication's entries, and
/// the next ones are those of series `s`.
proof fn lemma_entries_prefix(movies: Seq<DemoItem>, series: Seq<DemoSeries>, s: int)
    requires
        0 <= s < series.len(),
    ensures
        publication_entries(movies, series).len() >= movie_entries(movies).len() + series_entries(
            series.take(s + 1),
        ).len(),
        forall|k: int|
            0 <= k < movie_entries(movies).len() + series_entries(series.take(s + 1)).len() ==> #[trigger] publication_entries(
                movies,
                series,
            )[k] == (movie_entries(movies) + series_entries(series.take(s + 1)))[k],
{
    lemma_series_prefix(series, s + 1, series.len() as int);
    assert(series.take(series.len() as int) =~= series);
}

proof fn lemma_series_prefix(series: Seq<DemoSeries>, a: int, b: int)
    requires
        0 <= a <= b <= series.len(),
    ensures
        series_entries(series.take(a)).len() <= series_entries(series.take(b)).len(),
        forall|k: int|
            0 <= k < series_entries(series.take(a)).len() ==> #[trigger] series_entries(series.take(b))[k]
                == series_entries(series.take(a))[k],
    decreases b - a,
{
    if a < b {
        lemma_series_prefix(series, a, b - 1);
        assert(series.take(b).drop_last() =~= series.take(b - 1));
    }
}

/// The entries of the first `t` seasons come first among the entries of the seasons, and
/// the next ones are those of season `t`.
proof fn lemma_seasons_prefix(seasons: Seq<DemoSeason>, t: int)
    requires
        0 <= t < seasons.len(),
    ensures
        seasons_entries(seasons).len() >= seasons_entries(seasons.take(t + 1)).len(),
        forall|k: int|
            0 <= k < seasons_entries(seasons.take(t + 1)).len() ==> #[trigger] seasons_entries(seasons)[k]
                == seasons_entries(seasons.take(t + 1))[k],
{
    lemma_seasons_prefix_of(seasons, t + 1, seasons.len() as int);
    assert(seasons.take(seasons.len() as int) =~= seasons);
}

proof fn lemma_seasons_prefix_of(seasons: Seq<DemoSeason>, a: int, b: int)
    requires
        0 <= a <= b <= seasons.len(),
    ensures
        seasons_entries(seasons.take(a)).len() <= seasons_entries(seasons.take(b)).len(),
        forall|k: int|
            0 <= k < seasons_entries(seasons.take(a)).len() ==> #[trigger] seasons_entries(seasons.take(b))[k]
                == seasons_entries(seasons.take(a))[k],
    decreases b - a,
{
    if a < b {
        lemma_seasons_prefix_of(seasons, a, b - 1);
        assert(seasons.take(b).drop_last() =~= seasons.take(b - 1));
    }
}

/// The digest recorded for a stored JSON value: the lower-case hex SHA-256 of its compact
/// JSON text (its `Display`).
pub fn value_hash(value: &serde_json::Value) -> (r: String)
    ensures
        r@ == crate::hashing::hex_lower(
            crate::hashing::spec_sha256(vstd::utf8::encode_utf8(crate::json::json_display(*value))),
        ),
{
    let text = crate::json::display_text(value);
    crate::hashing::text_sha256(text.as_str())
}

/// The episodes of the seasons, counted.
pub open spec fn episode_total(seasons: Seq<DemoSeason>) -> int
    decreases seasons.len(),
{
    if seasons.len() == 0 {
        0
    } else {
        episode_total(seasons.drop_last()) + seasons.last().episodes@.len()
    }
}

/// The seasons of the series, counted.
pub open spec fn season_count(series: Seq<DemoSeries>) -> int
    decreases series.len(),
{
    if series.len() == 0 {
        0
    } else {
        season_count(series.drop_last()) + series.last().seasons@.len()
    }
}

/// The episodes of the series, counted.
pub open spec fn episode_count(series: Seq<DemoSeries>) -> int
    decreases series.len(),
{
    if series.len() == 0 {
        0
    } else {
        episode_count(series.drop_last()) + episode_total(series.last().seasons@)
    }
}

proof fn lemma_episode_total_prefix(seasons: Seq<DemoSeason>, i: int)
    requires
        0 <= i <= seasons.len(),
    ensures
        0 <= episode_total(seasons.take(i)) <= episode_total(seasons),
    decreases seasons.len(),
{
    if i == seasons.len() {
        assert(seasons.take(i) =~= seasons);
        if seasons.len() > 0 {
            lemma_episode_total_prefix(seasons.drop_last(), i - 1);
        }
    } else {
        assert(seasons.take(i) =~= seasons.drop_last().take(i));
        lemma_episode_total_prefix(seasons.drop_last(), i);
    }
}

proof fn lemma_series_counts_prefix(series: Seq<DemoSeries>, i: int)
    requires
        0 <= i <= series.len(),
    ensures
        0 <= season_count(series.take(i)) <= season_count(series),
        0 <= episode_count(series.take(i)) <= episode_count(series),
    decreases series.len(),
{
    if i == series.len() {
        assert(series.take(i) =~= series);
        if series.len() > 0 {
            lemma_series_counts_prefix(series.drop_last(), i - 1);
            lemma_episode_total_prefix(series.last().seasons@, series.last().seasons@.len() as int);
        }
    } else {
        assert(series.take(i) =~= series.drop_last().take(i));
        lemma_series_counts_prefix(series.drop_last(), i);
        lemma_episode_total_prefix(series.last().seasons@, series.last().seasons@.len() as int);
    }
}

/// The report of a published demo catalog: its movies, series, seasons and episodes,
/// counted.
pub fn publication_report(movies: &[DemoItem], series: &[DemoSeries]) -> (r: DemoCatalogPublicationReport)
    requires
        season_count(series@) <= usize::MAX,
        episode_count(series@) <= usize::MAX,
    ensures
        r.spec_counts() == (movies@.len() as usize, series@.len() as usize, season_count(series@) as usize,
            episode_count(series@) as usize),
{
    let mut seasons: usize = 0;
    let mut episodes: usize = 0;
    let mut i: usize = 0;
    while i < series.len()
        invariant
            i <= series@.len(),
            seasons == season_count(series@.take(i as int)),
            episodes == episode_count(series@.take(i as int)),
            season_count(series@) <= usize::MAX,
            episode_count(series@) <= usize::MAX,
        decreases series.len() - i,
    {
        let ghost next = series@.take(i + 1);
        proof {
            assert(next.drop_last() =~= series@.take(i as int));
            assert(next.last() == series@[i as int]);
            lemma_series_counts_prefix(series@, i + 1);
        }
        let this = &series[i];
        seasons = seasons + this.seasons.len();
        let mut j: usize = 0;
        while j < this.seasons.len()
            invariant
                j <= this.seasons@.len(),
                episodes == episode_count(series@.take(i as int)) + episode_total(this.seasons@.take(j as int)),
                episode_count(series@.take(i as int)) + episode_total(this.seasons@) <= usize::MAX,
            decreases this.seasons.len() - j,
        {
            proof {
                let nxt = this.seasons@.take(j + 1);
                assert(nxt.drop_last() =~= this.seasons@.take(j as int));
                assert(nxt.last() == this.seasons@[j as int]);
                lemma_episode_total_prefix(this.seasons@, j + 1);
            }
            episodes = episodes + this.seasons[j].episodes.len();
            j = j + 1;
        }
        proof {
            assert(this.seasons@.take(this.seasons@.len() as int) =~= this.seasons@);
        }
        i = i + 1;
    }
    proof {
        assert(series@.take(series@.len() as int) =~= series@);
    }
    DemoCatalogPublicationReport::new(movies.len(), series.len(), seasons, episodes)
}

} // verus!
