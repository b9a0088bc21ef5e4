//! Title discovery: how a collection's objects become titles, how an audio file's name
//! becomes its title, and the bounds of one discovery.
//!
//! File names are read with Unix path rules: `/` separates components and empty or `.`
//! components are skipped.
use std::collections::HashMap;
use vstd::prelude::*;

verus! {

/// The most titles one discovery may find.
pub const MAX_TITLES: u64 = 100000;
/// The longest title, in characters.
pub const MAX_TITLE_CHARS: usize = 512;

#[derive(Clone, Copy, Debug, PartialEq, Eq, Structural)]
pub enum DiscoverTitlesError {
    InvalidClaim,
    StaleRoot,
    StorageInputPending,
    AlreadyCurrent,
    MissingLibraryScope,
    InvalidLibraryScope,
    StaleLibraryPolicy,
    TitleLimit,
    UnsupportedCollection,
    InvalidMetadataPolicy,
    InvalidMetadataSourceMode,
    InvalidTitle,
    IdentityConflict,
}

// ---------------------------------------------------------------------------------------
// Path texts.

/// A path text split at every `/`.
pub open spec fn split_slash(s: Seq<char>) -> Seq<Seq<char>>
    decreases s.len(),
{
    if s.len() == 0 {
        seq![Seq::empty()]
    } else if s.last() == '/' {
        split_slash(s.drop_last()).push(Seq::empty())
    } else {
        let p = split_slash(s.drop_last());
        p.update(p.len() - 1, p.last().push(s.last()))
    }
}

/// A segment that names something: not empty and not `.`.
pub open spec fn named(seg: Seq<char>) -> bool {
    seg.len() > 0 && seg != "."@
}

/// The last naming segment.
pub open spec fn last_named(segs: Seq<Seq<char>>) -> Option<Seq<char>>
    decreases segs.len(),
{
    if segs.len() == 0 {
        None
    } else if named(segs.last()) {
        Some(segs.last())
    } else {
        last_named(segs.drop_last())
    }
}

/// The file name of a path: its last component, unless that is `..` or there is none.
pub open spec fn file_name_of(s: Seq<char>) -> Option<Seq<char>> {
    match last_named(split_slash(s)) {
        Some(n) => if n == ".."@ {
            None
        } else {
            Some(n)
        },
        None => None,
    }
}

/// `k` is the position of the last `.` of `name`.
pub open spec fn last_dot(name: Seq<char>, k: int) -> bool {
    0 <= k < name.len() && name[k] == '.' && forall|j: int| k < j < name.len() ==> name[j] != '.'
}

pub open spec fn has_dot(name: Seq<char>) -> bool {
    exists|k: int| 0 <= k < name.len() && name[k] == '.'
}

pub open spec fn last_dot_index(name: Seq<char>) -> int {
    choose|k: int| last_dot(name, k)
}

/// The extension of a file name: what follows its last `.`, unless that `.` leads the name.
pub open spec fn extension_of(name: Seq<char>) -> Option<Seq<char>> {
    if !has_dot(name) || last_dot_index(name) == 0 {
        None
    } else {
        Some(name.skip(last_dot_index(name) + 1))
    }
}

/// The stem of a file name: what precedes its last `.`, or the whole name.
pub open spec fn stem_of(name: Seq<char>) -> Seq<char> {
    if !has_dot(name) || last_dot_index(name) == 0 {
        name
    } else {
        name.take(last_dot_index(name))
    }
}

/// ASCII letters lowered, other characters kept.
pub open spec fn ascii_lower(s: Seq<char>) -> Seq<char> {
    Seq::new(
        s.len(),
        |i: int|
            if 'A' <= s[i] && s[i] <= 'Z' {
                ((s[i] as u32) + 32) as char
            } else {
                s[i]
            },
    )
}

/// The audio extensions discovery reads, lower-case.
pub open spec fn audio_extension(e: Seq<char>) -> bool {
    ||| e == "aac"@
    ||| e == "flac"@
    ||| e == "m4a"@
    ||| e == "mp3"@
    ||| e == "oga"@
    ||| e == "ogg"@
    ||| e == "opus"@
    ||| e == "wav"@
    ||| e == "wave"@
    ||| e == "webm"@
}

/// `s` with leading and trailing white space removed, as `str::trim` does.
pub open spec fn trim_bounds(s: Seq<char>, a: int, b: int) -> bool {
    &&& 0 <= a <= b <= s.len()
    &&& forall|i: int| 0 <= i < a ==> crate::text::is_white_space(#[trigger] s[i])
    &&& forall|i: int| b <= i < s.len() ==> crate::text::is_white_space(#[trigger] s[i])
    &&& a < b ==> !crate::text::is_white_space(s[a]) && !crate::text::is_white_space(s[b - 1])
    &&& a == b ==> forall|i: int| 0 <= i < s.len() ==> crate::text::is_white_space(#[trigger] s[i])
}

pub open spec fn trimmed(s: Seq<char>) -> Seq<char> {
    let (a, b) = choose|a: int, b: int| trim_bounds(s, a, b);
    s.subrange(a, b)
}

/// The title of an audio file: the trimmed stem of its file name, when its extension is a
/// supported audio one (in any ASCII case) and the stem is not blank.
pub open spec fn audio_title(path: Seq<char>) -> Option<Seq<char>> {
    match file_name_of(path) {
        None => None,
        Some(name) => match extension_of(name) {
            None => None,
            Some(e) => if !audio_extension(ascii_lower(e)) {
                None
            } else if trimmed(stem_of(name)).len() == 0 {
                None
            } else {
                Some(trimmed(stem_of(name)))
            },
        },
    }
}

proof fn lemma_split_nonempty(s: Seq<char>)
    ensures
        split_slash(s).len() >= 1,
    decreases s.len(),
{
    if s.len() > 0 {
        lemma_split_nonempty(s.drop_last());
    }
}

proof fn lemma_trim_unique(s: Seq<char>, a: int, b: int)
    requires
        trim_bounds(s, a, b),
    ensures
        trimmed(s) == s.subrange(a, b),
{
    let (a2, b2) = choose|a2: int, b2: int| trim_bounds(s, a2, b2);
    assert(trim_bounds(s, a2, b2));
    if a < b {
        assert(a2 == a) by {
            if a2 < a {
                assert(crate::text::is_white_space(s[a2]));
                if a2 == b2 {
                    assert(crate::text::is_white_space(s[a]));
                }
            }
            if a < a2 {
                assert(crate::text::is_white_space(s[a]));
            }
        }
        assert(b2 == b) by {
            if b2 < b {
                assert(crate::text::is_white_space(s[b - 1]));
            }
            if b < b2 {
                assert(crate::text::is_white_space(s[b2 - 1]));
            }
        }
    } else {
        if a2 < b2 {
            assert(crate::text::is_white_space(s[a2]));
        }
        assert(s.subrange(a, b) =~= s.subrange(a2, b2));
    }
}

fn slice_is(v: &[char], lo: usize, hi: usize, lit: &str) -> (r: bool)
    requires
        lo <= hi <= v@.len(),
    ensures
        r == (v@.subrange(lo as int, hi as int) == lit@),
{
    let w = crate::text::chars_of(lit);
    if hi - lo != w.len() {
        return false;
    }
    let mut i: usize = 0;
    while i < w.len()
        invariant
            w@ == lit@,
            lo <= hi <= v@.len(),
            hi - lo == w@.len(),
            i <= w@.len(),
            forall|j: int| 0 <= j < i ==> v@[lo + j] == w@[j],
        decreases w.len() - i,
    {
        if v[lo + i] != w[i] {
            assert(v@.subrange(lo as int, hi as int)[i as int] != lit@[i as int]);
            return false;
        }
        i = i + 1;
    }
    assert(v@.subrange(lo as int, hi as int) =~= lit@);
    true
}

fn lower_ascii(c: char) -> (r: char)
    ensures
        r == (if 'A' <= c && c <= 'Z' {
            ((c as u32) + 32) as char
        } else {
            c
        }),
{
    if 'A' <= c && c <= 'Z' {
        ((c as u8) + 32) as char
    } else {
        c
    }
}

fn segment_named(chars: &Vec<char>, lo: usize, hi: usize) -> (r: bool)
    requires
        lo <= hi <= chars@.len(),
    ensures
        r == named(chars@.subrange(lo as int, hi as int)),
{
    proof {
        reveal_strlit(".");
        assert("."@ =~= seq!['.']);
        let seg = chars@.subrange(lo as int, hi as int);
        if hi == lo + 1 {
            assert(seg =~= seq![chars@[lo as int]]);
            if chars@[lo as int] != '.' {
                assert(seg[0] != "."@[0]);
            }
        }
        if hi > lo + 1 {
            assert(seg.len() != "."@.len());
        }
    }
    lo < hi && !(hi == lo + 1 && chars[lo] == '.')
}

/// The bounds of the file name of the path `chars`, if it has one.
fn file_name_bounds(chars: &Vec<char>) -> (r: Option<(usize, usize)>)
    ensures
        match r {
            Some((a, b)) => a < b <= chars@.len() && file_name_of(chars@) == Some(
                chars@.subrange(a as int, b as int),
            ),
            None => file_name_of(chars@) is None,
        },
{
    let ghost s = chars@;
    let n = chars.len();
    let mut cur: usize = 0;
    let mut found: Option<(usize, usize)> = None;
    let mut i: usize = 0;
    while i < n
        invariant
            chars@ == s,
            n == s.len(),
            cur <= i <= n,
            split_slash(s.take(i as int)).len() >= 1,
            split_slash(s.take(i as int)).last() == s.subrange(cur as int, i as int),
            last_named(split_slash(s.take(i as int)).drop_last()) == (match found {
                Some((a, b)) => Some(s.subrange(a as int, b as int)),
                None => None,
            }),
            found matches Some((a, b)) ==> a < b <= cur,
        decreases n - i,
    {
        let ghost p = split_slash(s.take(i as int));
        assert(s.take(i + 1).drop_last() =~= s.take(i as int));
        if chars[i] == '/' {
            let is_named = segment_named(chars, cur, i);
            proof {
                assert(split_slash(s.take(i + 1)) == p.push(Seq::empty()));
                assert(split_slash(s.take(i + 1)).drop_last() =~= p);
            }
            if is_named {
                found = Some((cur, i));
            }
            cur = i + 1;
            assert(split_slash(s.take(i + 1)).last() =~= s.subrange(cur as int, i + 1));
        } else {
            proof {
                let q = p.update(p.len() - 1, p.last().push(s[i as int]));
                assert(split_slash(s.take(i + 1)) == q);
                assert(q.drop_last() =~= p.drop_last());
                assert(q.last() =~= s.subrange(cur as int, i + 1));
            }
        }
        i = i + 1;
    }
    assert(s.take(n as int) =~= s);
    let last_is_named = segment_named(chars, cur, n);
    let (a, b) = if last_is_named {
        (cur, n)
    } else {
        match found {
            Some((a, b)) => (a, b),
            None => {
                return None;
            },
        }
    };
    assert(last_named(split_slash(s)) == Some(s.subrange(a as int, b as int)));
    if slice_is(chars.as_slice(), a, b, "..") {
        return None;
    }
    Some((a, b))
}

/// The position of the last `.` of the name `chars[a..b]`, when it is not the first.
fn extension_dot(chars: &Vec<char>, a: usize, b: usize) -> (r: Option<usize>)
    requires
        a < b <= chars@.len(),
    ensures
        ({
            let name = chars@.subrange(a as int, b as int);
            match r {
                Some(d) => a < d < b && extension_of(name) == Some(chars@.subrange(d + 1, b as int))
                    && stem_of(name) == chars@.subrange(a as int, d as int),
                None => extension_of(name) is None,
            }
        }),
{
    let ghost s = chars@;
    let ghost name = s.subrange(a as int, b as int);
    let mut k: usize = b;
    while k > a && chars[k - 1] != '.'
        invariant
            chars@ == s,
            a < b <= s.len(),
            a <= k <= b,
            forall|j: int| k <= j < b ==> s[j] != '.',
        decreases k,
    {
        k = k - 1;
    }
    if k == a {
        assert(!has_dot(name)) by {
            if has_dot(name) {
                let j = choose|j: int| 0 <= j < name.len() && name[j] == '.';
                assert(s[a + j] == '.');
            }
        }
        return None;
    }
    let dot = k - 1;
    assert(last_dot(name, dot - a));
    assert(has_dot(name));
    assert(last_dot_index(name) == dot - a) by {
        let c = last_dot_index(name);
        assert(last_dot(name, c));
        if c < dot - a {
            assert(name[dot - a] == '.');
        }
        if c > dot - a {
            assert(name[c] == '.');
        }
    }
    if dot == a {
        return None;
    }
    assert(name.skip(dot - a + 1) =~= s.subrange(k as int, b as int));
    assert(name.take(dot - a) =~= s.subrange(a as int, dot as int));
    Some(dot)
}

/// Whether `chars[lo..hi]`, ASCII-lowered, is a supported audio extension.
fn is_audio_extension(chars: &Vec<char>, lo: usize, hi: usize) -> (r: bool)
    requires
        lo <= hi <= chars@.len(),
    ensures
        r == audio_extension(ascii_lower(chars@.subrange(lo as int, hi as int))),
{
    let ghost s = chars@;
    let mut lowered: Vec<char> = Vec::new();
    let mut e: usize = lo;
    while e < hi
        invariant
            chars@ == s,
            lo <= e <= hi <= s.len(),
            lowered@ == ascii_lower(s.subrange(lo as int, hi as int)).take(e - lo),
        decreases hi - e,
    {
        let c = lower_ascii(chars[e]);
        lowered.push(c);
        assert(ascii_lower(s.subrange(lo as int, hi as int)).take(e - lo + 1) =~= ascii_lower(
            s.subrange(lo as int, hi as int),
        ).take(e - lo).push(c));
        e = e + 1;
    }
    assert(ascii_lower(s.subrange(lo as int, hi as int)).take(hi - lo) =~= ascii_lower(
        s.subrange(lo as int, hi as int),
    ));
    let m = lowered.len();
    let ext = lowered.as_slice();
    assert(lowered@.subrange(0, m as int) =~= lowered@);
    slice_is(ext, 0, m, "aac") || slice_is(ext, 0, m, "flac") || slice_is(ext, 0, m, "m4a")
        || slice_is(ext, 0, m, "mp3") || slice_is(ext, 0, m, "oga") || slice_is(ext, 0, m, "ogg")
        || slice_is(ext, 0, m, "opus") || slice_is(ext, 0, m, "wav") || slice_is(ext, 0, m, "wave")
        || slice_is(ext, 0, m, "webm")
}

/// The trimmed text `chars[lo..hi]`.
fn trimmed_text(chars: &Vec<char>, lo: usize, hi: usize) -> (r: String)
    requires
        lo <= hi <= chars@.len(),
    ensures
        r@ == trimmed(chars@.subrange(lo as int, hi as int)),
{
    let ghost s = chars@;
    let ghost text = s.subrange(lo as int, hi as int);
    let mut x: usize = lo;
    while x < hi && crate::text::char_is_white_space(chars[x])
        invariant
            chars@ == s,
            lo <= x <= hi <= s.len(),
            forall|j: int| lo <= j < x ==> crate::text::is_white_space(#[trigger] s[j]),
        decreases hi - x,
    {
        x = x + 1;
    }
    let mut y: usize = hi;
    while y > x && crate::text::char_is_white_space(chars[y - 1])
        invariant
            chars@ == s,
            lo <= x <= y <= hi <= s.len(),
            forall|j: int| y <= j < hi ==> crate::text::is_white_space(#[trigger] s[j]),
        decreases y,
    {
        y = y - 1;
    }
    assert(trim_bounds(text, x - lo, y - lo)) by {
        assert forall|i: int| 0 <= i < x - lo implies crate::text::is_white_space(#[trigger] text[i]) by {
            assert(text[i] == s[lo + i]);
        }
        assert forall|i: int| y - lo <= i < text.len() implies crate::text::is_white_space(#[trigger] text[i]) by {
            assert(text[i] == s[lo + i]);
        }
        if x == y {
            assert forall|i: int| 0 <= i < text.len() implies crate::text::is_white_space(#[trigger] text[i]) by {
                assert(text[i] == s[lo + i]);
            }
        }
    }
    proof {
        lemma_trim_unique(text, x - lo, y - lo);
        assert(text.subrange(x - lo, y - lo) =~= s.subrange(x as int, y as int));
    }
    let mut out = String::new();
    let mut t: usize = x;
    while t < y
        invariant
            chars@ == s,
            x <= t <= y <= s.len(),
            out@ == s.subrange(x as int, t as int),
        decreases y - t,
    {
        crate::hashing::push_char(&mut out, chars[t]);
        assert(s.subrange(x as int, t + 1) =~= s.subrange(x as int, t as int).push(s[t as int]));
        t = t + 1;
    }
    out
}

/// Reads the title of an audio file from its path.
pub fn parse_audio_title(value: &str) -> (r: Option<String>)
    ensures
        crate::text::opt_string_view(r) == audio_title(value@),
{
    let chars = crate::text::chars_of(value);
    let (a, b) = match file_name_bounds(&chars) {
        Some(bounds) => bounds,
        None => {
            return None;
        },
    };
    let dot = match extension_dot(&chars, a, b) {
        Some(d) => d,
        None => {
            return None;
        },
    };
    if !is_audio_extension(&chars, dot + 1, b) {
        return None;
    }
    let title = trimmed_text(&chars, a, dot);
    if crate::text::chars_of(title.as_str()).len() == 0 {
        return None;
    }
    Some(title)
}

// ---------------------------------------------------------------------------------------
// Titles and collections.

/// How a library collection's objects become titles.
#[derive(Clone, Copy, Debug, PartialEq, Eq, Structural)]
pub enum TitleLayer {
    /// Each object is a movie named by its title.
    Movie,
    /// Each object is a series named by its title.
    Series,
    /// Each supported audio file is a track named by its stem.
    Audio,
}

/// The title layer of a collection type, if discovery supports it.
pub open spec fn layer_of(collection: Seq<char>) -> Result<TitleLayer, DiscoverTitlesError> {
    if collection == "movies"@ {
        Ok(TitleLayer::Movie)
    } else if collection == "tvshows"@ || collection == "shows"@ || collection == "mixed"@ {
        Ok(TitleLayer::Series)
    } else if collection == "music"@ {
        Ok(TitleLayer::Audio)
    } else {
        Err(DiscoverTitlesError::UnsupportedCollection)
    }
}

pub fn title_layer(collection: &str) -> (r: Result<TitleLayer, DiscoverTitlesError>)
    ensures
        r == layer_of(collection@),
{
    if crate::text::str_eq(collection, "movies") {
        Ok(TitleLayer::Movie)
    } else if crate::text::str_eq(collection, "tvshows") || crate::text::str_eq(collection, "shows")
        || crate::text::str_eq(collection, "mixed") {
        Ok(TitleLayer::Series)
    } else if crate::text::str_eq(collection, "music") {
        Ok(TitleLayer::Audio)
    } else {
        Err(DiscoverTitlesError::UnsupportedCollection)
    }
}

/// The item type of a title layer.
pub fn layer_item_type(layer: TitleLayer) -> (r: &'static str)
    ensures
        r@ == (match layer {
            TitleLayer::Movie => "Movie"@,
            TitleLayer::Series => "Series"@,
            TitleLayer::Audio => "Audio"@,
        }),
{
    match layer {
        TitleLayer::Movie => "Movie",
        TitleLayer::Series => "Series",
        TitleLayer::Audio => "Audio",
    }
}

/// The metadata a library asks for: full, basic (a lower requirement), or none.
#[derive(Clone, Copy, Debug, PartialEq, Eq, Structural)]
pub enum MetadataRequirement {
    Basic,
    Full,
}

pub open spec fn policy_of(policy: Seq<char>) -> Result<Option<MetadataRequirement>, DiscoverTitlesError> {
    if policy == "full"@ {
        Ok(Some(MetadataRequirement::Full))
    } else if policy == "basic"@ {
        Ok(Some(MetadataRequirement::Basic))
    } else if policy == "none"@ {
        Ok(None)
    } else {
        Err(DiscoverTitlesError::InvalidMetadataPolicy)
    }
}

pub fn metadata_policy(policy: &str) -> (r: Result<Option<MetadataRequirement>, DiscoverTitlesError>)
    ensures
        r == policy_of(policy@),
{
    if crate::text::str_eq(policy, "full") {
        Ok(Some(MetadataRequirement::Full))
    } else if crate::text::str_eq(policy, "basic") {
        Ok(Some(MetadataRequirement::Basic))
    } else if crate::text::str_eq(policy, "none") {
        Ok(None)
    } else {
        Err(DiscoverTitlesError::InvalidMetadataPolicy)
    }
}

/// The name of a movie or series object, trimmed: it must not be blank nor longer than
/// `MAX_TITLE_CHARS` characters once trimmed.
pub fn trimmed_title(value: &str) -> (r: Result<String, DiscoverTitlesError>)
    ensures
        match r {
            Ok(t) => t@ == trimmed(value@) && 0 < t@.len() <= MAX_TITLE_CHARS,
            Err(e) => e == DiscoverTitlesError::InvalidTitle && (trimmed(value@).len() == 0
                || trimmed(value@).len() > MAX_TITLE_CHARS),
        },
{
    let chars = crate::text::chars_of(value);
    let t = trimmed_text(&chars, 0, chars.len());
    assert(chars@.subrange(0, chars@.len() as int) =~= value@);
    let n = crate::text::chars_of(t.as_str()).len();
    if n == 0 || n > MAX_TITLE_CHARS {
        return Err(DiscoverTitlesError::InvalidTitle);
    }
    Ok(t)
}

/// A discovery may find at most `MAX_TITLES` titles.
pub fn check_title_count(count: usize) -> (r: Result<(), DiscoverTitlesError>)
    ensures
        r is Ok <==> count <= MAX_TITLES,
        r is Err ==> r == Err::<(), DiscoverTitlesError>(DiscoverTitlesError::TitleLimit),
{
    if count as u64 > MAX_TITLES {
        Err(DiscoverTitlesError::TitleLimit)
    } else {
        Ok(())
    }
}

/// The name-based id in the OID namespace of `prefix` followed by an object's id text.
pub open spec fn derived_id(prefix: Seq<char>, object: u128) -> u128 {
    crate::identity::spec_uuid_v5(
        crate::identity::NAMESPACE_OID,
        vstd::utf8::encode_utf8(prefix + crate::identity::hyphenated(object)),
    )
}

fn derived(prefix: &str, object: u128) -> (r: u128)
    ensures
        r == derived_id(prefix@, object),
{
    let mut key = String::new();
    crate::filesystem_path::push_str_chars(&mut key, prefix);
    let id = crate::identity::hyphenated_text(object);
    crate::filesystem_path::push_str_chars(&mut key, id.as_str());
    crate::identity::uuid_v5(crate::identity::NAMESPACE_OID, key.as_str().as_bytes())
}

/// The catalog item of a discovered storage object.
pub fn derived_item(object: u128) -> (r: u128)
    ensures
        r == derived_id("tjxy-title:"@, object),
{
    derived("tjxy-title:", object)
}

/// The stable identity of a discovered storage object.
pub fn derived_identity(object: u128) -> (r: u128)
    ensures
        r == derived_id("tjxy-title-identity:"@, object),
{
    derived("tjxy-title-identity:", object)
}

// ---------------------------------------------------------------------------------------
// Classifying candidates and fencing library policies.

/// How a candidate object of a collection becomes a title: movies and series by their
/// trimmed name (which must be a valid title), audio files by their title (objects that are
/// not supported audio are skipped, `None`); other collections are unsupported.
pub open spec fn title_of(collection: Seq<char>, raw_name: Seq<char>) -> Result<
    Option<(TitleLayer, Seq<char>)>,
    DiscoverTitlesError,
> {
    match layer_of(collection) {
        Err(e) => Err(e),
        Ok(TitleLayer::Audio) => match audio_title(raw_name) {
            Some(t) => Ok(Some((TitleLayer::Audio, t))),
            None => Ok(None),
        },
        Ok(layer) => if 0 < trimmed(raw_name).len() <= MAX_TITLE_CHARS {
            Ok(Some((layer, trimmed(raw_name))))
        } else {
            Err(DiscoverTitlesError::InvalidTitle)
        },
    }
}

/// Classifies one candidate object of a library collection.
pub fn classify_title(collection: &str, raw_name: &str) -> (r: Result<
    Option<(TitleLayer, String)>,
    DiscoverTitlesError,
>)
    ensures
        match (r, title_of(collection@, raw_name@)) {
            (Ok(Some((l, t))), Ok(Some((l2, t2)))) => l == l2 && t@ == t2,
            (Ok(None), Ok(None)) => true,
            (Err(e), Err(e2)) => e == e2,
            _ => false,
        },
{
    let layer = title_layer(collection)?;
    match layer {
        TitleLayer::Audio => match parse_audio_title(raw_name) {
            Some(t) => Ok(Some((TitleLayer::Audio, t))),
            None => Ok(None),
        },
        _ => {
            let t = trimmed_title(raw_name)?;
            Ok(Some((layer, t)))
        },
    }
}

/// The profile version of each eligible library: a later entry for a library replaces an
/// earlier one.
pub open spec fn version_map(eligible: Seq<(u128, i32)>) -> Map<u128, i32>
    decreases eligible.len(),
{
    if eligible.len() == 0 {
        Map::empty()
    } else {
        version_map(eligible.drop_last()).insert(eligible.last().0, eligible.last().1)
    }
}

/// Every staged library is still eligible at the profile version it was staged with.
pub open spec fn policies_current(staged: Seq<(u128, i32)>, eligible: Seq<(u128, i32)>) -> bool {
    forall|i: int|
        0 <= i < staged.len() ==> version_map(eligible).contains_key((#[trigger] staged[i]).0)
            && version_map(eligible)[staged[i].0] == staged[i].1
}

/// Checks the staged `(library, profile version)` scopes of a discovery against the
/// currently eligible ones; any change is a stale library policy.
pub fn check_library_policies(staged: &[(u128, i32)], eligible: &[(u128, i32)]) -> (r: Result<
    (),
    DiscoverTitlesError,
>)
    ensures
        r is Ok <==> policies_current(staged@, eligible@),
        r is Err ==> r == Err::<(), DiscoverTitlesError>(DiscoverTitlesError::StaleLibraryPolicy),
{
    broadcast use vstd::std_specs::hash::group_hash_axioms;

    let mut versions: HashMap<u128, i32> = HashMap::new();
    let mut i: usize = 0;
    while i < eligible.len()
        invariant
            i <= eligible@.len(),
            versions@ == version_map(eligible@.take(i as int)),
        decreases eligible.len() - i,
    {
        let (id, version) = eligible[i];
        versions.insert(id, version);
        assert(eligible@.take(i + 1).drop_last() =~= eligible@.take(i as int));
        i = i + 1;
    }
    assert(eligible@.take(eligible@.len() as int) =~= eligible@);
    let mut j: usize = 0;
    while j < staged.len()
        invariant
            j <= staged@.len(),
            versions@ == version_map(eligible@),
            forall|k: int|
                0 <= k < j ==> version_map(eligible@).contains_key((#[trigger] staged@[k]).0)
                    && version_map(eligible@)[staged@[k].0] == staged@[k].1,
        decreases staged.len() - j,
    {
        let (id, version) = staged[j];
        match versions.get(&id) {
            Some(v) => {
                if *v != version {
                    return Err(DiscoverTitlesError::StaleLibraryPolicy);
                }
            },
            None => {
                return Err(DiscoverTitlesError::StaleLibraryPolicy);
            },
        }
        j = j + 1;
    }
    Ok(())
}

/// A discovery of one library binding must have staged exactly the binding's eligible
/// scope.
pub fn check_binding_policy(staged: &[(u128, i32)], eligible: (u128, i32)) -> (r: Result<
    (),
    DiscoverTitlesError,
>)
    ensures
        r is Ok <==> staged@ == seq![eligible],
        r is Err ==> r == Err::<(), DiscoverTitlesError>(DiscoverTitlesError::StaleLibraryPolicy),
{
    if staged.len() == 1 && staged[0].0 == eligible.0 && staged[0].1 == eligible.1 {
        assert(staged@ =~= seq![eligible]);
        Ok(())
    } else {
        Err(DiscoverTitlesError::StaleLibraryPolicy)
    }
}

/// The root object of a discovery: the one present, indexed, parent-less object of the root
/// at its reconciled revision; none or several means the root moved on.
pub fn single_root_object(found: &[u128]) -> (r: Result<u128, DiscoverTitlesError>)
    ensures
        found@.len() == 1 ==> r == Ok::<u128, DiscoverTitlesError>(found@[0]),
        found@.len() != 1 ==> r == Err::<u128, DiscoverTitlesError>(DiscoverTitlesError::StaleRoot),
{
    if found.len() == 1 {
        Ok(found[0])
    } else {
        Err(DiscoverTitlesError::StaleRoot)
    }
}


/// The structure state a newly discovered title starts in: a series waits to be expanded,
/// other titles have no structure.
pub open spec fn initial_structure_state(item_type: Seq<char>) -> Seq<char> {
    if item_type == "Series"@ {
        "NotExpanded"@
    } else {
        "NotApplicable"@
    }
}

/// The source state a newly discovered title starts in: the sources of a movie or an audio
/// title wait to be indexed, those of other titles are unknown.
pub open spec fn initial_source_state(item_type: Seq<char>) -> Seq<char> {
    if item_type == "Movie"@ || item_type == "Audio"@ {
        "NotIndexed"@
    } else {
        "Unknown"@
    }
}

/// The structure and source states with which a discovered title is first stored.
pub fn initial_title_states(item_type: &str) -> (r: (&'static str, &'static str))
    ensures
        r.0@ == initial_structure_state(item_type@),
        r.1@ == initial_source_state(item_type@),
{
    let structure = if crate::text::str_eq(item_type, "Series") {
        "NotExpanded"
    } else {
        "NotApplicable"
    };
    let source = if crate::text::str_eq(item_type, "Movie") || crate::text::str_eq(item_type, "Audio") {
        "NotIndexed"
    } else {
        "Unknown"
    };
    (structure, source)
}

} // verus!
