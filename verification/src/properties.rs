//! Properties that span several operations of the library, stated over the
//! same models that the operations' contracts use.
use vstd::prelude::*;

use crate::anilist_config::clamp;
use crate::anilist_convert::occupation_department;
use crate::cache_key::{key_id_text, key_type_text, media_type_text, normalized_query, CacheKey, MediaType};
use crate::cache_store::{live_at, purged_at, row_of, stored, table_get, table_invalidate, table_invalidate_all, table_purge, table_set};
use crate::facade_plan::{detail_media_type, endpoint_text, invalidation_set, search_query, is_detail_key, is_item_key, is_list_key, media_type_at, qualified_id, DetailKind, ListOp, Provider};
use crate::genre::{genre_name, known_genre_name, Genre};
use crate::pagination::walk_after;
use crate::time_window::time_window_text;
use crate::text::{all_ascii, ascii_lower, ascii_lower_char, decimal, digit_char, lowercase, signed_decimal};

verus! {

/// Whether a character is one of the ten decimal digits.
pub open spec fn is_digit_char(c: char) -> bool {
    '0' <= c && c <= '9'
}

proof fn lemma_digit_char(d: nat)
    requires
        d < 10,
    ensures
        is_digit_char(digit_char(d)),
        forall|e: nat| e < 10 && digit_char(e) == digit_char(d) ==> e == d,
{
}

proof fn lemma_decimal_shape(n: nat)
    ensures
        decimal(n).len() >= 1,
        (decimal(n).len() == 1) == (n < 10),
        is_digit_char(decimal(n)[0]),
    decreases n,
{
    if n >= 10 {
        lemma_decimal_shape(n / 10);
    } else {
        lemma_digit_char(n);
    }
}

/// Distinct natural numbers have distinct decimal notations.
pub proof fn decimal_is_injective(n: nat, m: nat)
    requires
        decimal(n) == decimal(m),
    ensures
        n == m,
    decreases n,
{
    lemma_decimal_shape(n);
    lemma_decimal_shape(m);
    if n < 10 {
        lemma_digit_char(n);
        lemma_digit_char(m);
        assert(decimal(n)[0] == digit_char(n));
        assert(decimal(m)[0] == digit_char(m));
    } else {
        let a = decimal(n);
        let b = decimal(m);
        assert(a == decimal(n / 10).push(digit_char(n % 10)));
        assert(b == decimal(m / 10).push(digit_char(m % 10)));
        assert(a.drop_last() =~= decimal(n / 10));
        assert(b.drop_last() =~= decimal(m / 10));
        assert(a.last() == digit_char(n % 10));
        assert(b.last() == digit_char(m % 10));
        lemma_digit_char(n % 10);
        decimal_is_injective(n / 10, m / 10);
    }
}

proof fn lemma_signed_decimal_first(v: int)
    ensures
        signed_decimal(v).len() >= 1,
        signed_decimal(v)[0] == '-' || is_digit_char(signed_decimal(v)[0]),
        (signed_decimal(v)[0] == '-') == (v < 0),
{
    if v < 0 {
        lemma_decimal_shape((-v) as nat);
    } else {
        lemma_decimal_shape(v as nat);
    }
}

/// Distinct integers have distinct signed decimal notations.
pub proof fn signed_decimal_is_injective(a: int, b: int)
    requires
        signed_decimal(a) == signed_decimal(b),
    ensures
        a == b,
{
    lemma_signed_decimal_first(a);
    lemma_signed_decimal_first(b);
    if a < 0 {
        assert(signed_decimal(a).drop_first() =~= decimal((-a) as nat));
        assert(signed_decimal(b).drop_first() =~= decimal((-b) as nat));
        decimal_is_injective((-a) as nat, (-b) as nat);
    } else {
        decimal_is_injective(a as nat, b as nat);
    }
}

/// Two items get the same provider-qualified ID only when they come from the
/// same provider under the same ID (so entries of different items never
/// collide in the cache, whichever provider served them).
pub proof fn qualified_ids_are_distinct(p1: Provider, k1: DetailKind, id1: i32, p2: Provider, k2: DetailKind, id2: i32)
    requires
        qualified_id(p1, k1, id1) == qualified_id(p2, k2, id2),
    ensures
        p1 == p2,
        id1 == id2,
{
    reveal_strlit("tmdb:");
    reveal_strlit("anilist:");
    reveal_strlit("anilist:staff:");
    let q = qualified_id(p1, k1, id1);
    lemma_signed_decimal_first(id1 as int);
    lemma_signed_decimal_first(id2 as int);
    let prefix1: Seq<char> = match p1 {
        Provider::Tmdb => "tmdb:"@,
        Provider::AniList => match k1 { DetailKind::Person => "anilist:staff:"@, _ => "anilist:"@ },
    };
    let prefix2: Seq<char> = match p2 {
        Provider::Tmdb => "tmdb:"@,
        Provider::AniList => match k2 { DetailKind::Person => "anilist:staff:"@, _ => "anilist:"@ },
    };
    let s1 = signed_decimal(id1 as int);
    let s2 = signed_decimal(id2 as int);
    assert(q == prefix1 + s1);
    assert(q == prefix2 + s2);
    assert(q[0] == prefix1[0]);
    assert(q[0] == prefix2[0]);
    if prefix1.len() != prefix2.len() {
        // "anilist:" against "anilist:staff:": the character after the colon
        // is a sign or digit on one side and 's' on the other.
        assert(q[8] == s1[0] || q[8] == s2[0]);
        assert(q[8] == 's');
        assert(false);
    }
    assert(prefix1 =~= prefix2);
    assert(s1 =~= q.subrange(prefix1.len() as int, q.len() as int));
    assert(s2 =~= q.subrange(prefix2.len() as int, q.len() as int));
    signed_decimal_is_injective(id1 as int, id2 as int);
}


/// Whether two keys address the same row of the cache table (the same
/// `key_type` and `key_id` columns).
pub open spec fn same_entry(a: CacheKey, b: CacheKey) -> bool {
    key_type_text(a) == key_type_text(b) && key_id_text(a) == key_id_text(b)
}

/// Search keys whose queries differ only in letter case and surrounding white
/// space address the same cache entry.
pub proof fn search_keys_ignore_case_and_padding(a: CacheKey, b: CacheKey)
    requires
        a matches CacheKey::Search { media_type: m1, query: q1, page: p1 },
        b matches CacheKey::Search { media_type: m2, query: q2, page: p2 },
        a->Search_media_type == b->Search_media_type,
        a->Search_page == b->Search_page,
        normalized_query(a->Search_query@) == normalized_query(b->Search_query@),
    ensures
        same_entry(a, b),
{
}

/// The page that a listing looks up in the cache is the page that the same
/// listing writes after fetching it: a later run of the listing reads what an
/// earlier run wrote.
pub proof fn listing_reads_what_it_wrote(looked_up: CacheKey, written: CacheKey, op: ListOp, page: u32)
    requires
        is_list_key(looked_up, op, page),
        is_list_key(written, op, page),
    ensures
        same_entry(looked_up, written),
{
}

/// The detail entry that a detail request looks up is the entry that the same
/// request writes after fetching.
pub proof fn details_read_what_they_wrote(looked_up: CacheKey, written: CacheKey, kind: DetailKind, pid: Seq<char>)
    requires
        is_detail_key(looked_up, kind, pid),
        is_detail_key(written, kind, pid),
    ensures
        same_entry(looked_up, written),
{
}

/// An item that a listing or a detail request indexed under its item key is
/// found by the cached-item lookup of the same media type and ID.
pub proof fn indexed_items_are_found(written: CacheKey, looked_up: CacheKey, mt: MediaType, pid: Seq<char>)
    requires
        is_item_key(written, mt, pid),
        is_item_key(looked_up, mt, pid),
    ensures
        same_entry(written, looked_up),
{
}

/// Entries of different kinds (details, items, search pages, listing pages)
/// never share a row: keys of one row are of the same kind.
pub proof fn key_kinds_never_share_rows(a: CacheKey, b: CacheKey)
    requires
        same_entry(a, b),
    ensures
        (a is Detail) == (b is Detail),
        (a is Item) == (b is Item),
        (a is Search) == (b is Search),
        (a is Discovery) == (b is Discovery),
{
    reveal_strlit("detail");
    reveal_strlit("item");
    reveal_strlit("search");
    reveal_strlit("discovery");
    let ta = key_type_text(a);
    let tb = key_type_text(b);
    assert(ta[0] == tb[0]);
    assert(ta.len() == tb.len());
}

proof fn lemma_media_type_text_distinct(a: MediaType, b: MediaType, x: Seq<char>, y: Seq<char>)
    requires
        media_type_text(a) + ":"@ + x == media_type_text(b) + ":"@ + y,
    ensures
        a == b,
        x == y,
{
    reveal_strlit("movie");
    reveal_strlit("tv");
    reveal_strlit("person");
    reveal_strlit(":");
    let s = media_type_text(a) + ":"@ + x;
    let ta = media_type_text(a);
    let tb = media_type_text(b);
    assert(s[0] == ta[0]);
    assert(s[0] == tb[0]);
    assert(ta =~= tb);
    assert(x =~= s.subrange(ta.len() + 1int, s.len() as int));
    assert(y =~= s.subrange(tb.len() + 1int, s.len() as int));
}

/// The detail entries of two items are one row only when the items are the
/// same: same kind, same provider, same ID.
pub proof fn distinct_items_have_distinct_detail_entries(
    a: CacheKey, kind1: DetailKind, p1: Provider, id1: i32,
    b: CacheKey, kind2: DetailKind, p2: Provider, id2: i32,
)
    requires
        is_detail_key(a, kind1, qualified_id(p1, kind1, id1)),
        is_detail_key(b, kind2, qualified_id(p2, kind2, id2)),
        same_entry(a, b),
    ensures
        kind1 == kind2,
        p1 == p2,
        id1 == id2,
{
    lemma_media_type_text_distinct(
        detail_media_type(kind1), detail_media_type(kind2),
        qualified_id(p1, kind1, id1), qualified_id(p2, kind2, id2),
    );
    qualified_ids_are_distinct(p1, kind1, id1, p2, kind2, id2);
}

/// Invalidating a provider-qualified ID removes every entry that a detail
/// request for that ID writes: its detail entry and its item entry, whatever
/// its kind.
pub proof fn invalidation_removes_detail_writes(keys: Seq<CacheKey>, pid: Seq<char>, detail: CacheKey, item: CacheKey, kind: DetailKind)
    requires
        invalidation_set(keys, pid),
        is_detail_key(detail, kind, pid),
        is_item_key(item, detail_media_type(kind), pid),
    ensures
        exists|i: int| 0 <= i < keys.len() && same_entry(#[trigger] keys[i], detail),
        exists|i: int| 0 <= i < keys.len() && same_entry(#[trigger] keys[i], item),
{
    let j: int = match kind { DetailKind::Movie => 0, DetailKind::TvShow => 1, DetailKind::Person => 2 };
    assert(media_type_at(j) == detail_media_type(kind));
    assert(same_entry(keys[2 * j], detail));
    assert(same_entry(keys[2 * j + 1], item));
}

/// An entry written at `now` with a positive time to live is served from then
/// until just before its expiry, is never purged in that time, and is no
/// longer served from its expiry on.
pub proof fn entries_live_until_expiry(now: u64, ttl: u64, t: u64)
    requires
        now + ttl <= i64::MAX,
        now <= t <= i64::MAX,
    ensures
        t < now + ttl ==> live_at(stored(now + ttl), t) && !purged_at(stored(now + ttl), t),
        t >= now + ttl ==> !live_at(stored(now + ttl), t),
{
}

/// A purge never deletes an entry that is still served.
pub proof fn purge_spares_live_entries(expires_at: i64, now: u64)
    requires
        live_at(expires_at as int, now),
    ensures
        !purged_at(expires_at as int, now),
{
}


proof fn lemma_lowercase_ascii_text(s: Seq<char>, l: Seq<char>)
    requires
        s.len() == l.len(),
        forall|i: int| 0 <= i < s.len() ==> (#[trigger] s[i] as u32) < 128 && ascii_lower_char(s[i]) == l[i],
    ensures
        lowercase(s) == l,
{
    assert(all_ascii(s));
    assert(ascii_lower(s) =~= l);
}

/// `l` is the ASCII lower case of the ASCII text `s`, read character by
/// character from the front.
spec fn lowers_to(s: Seq<char>, l: Seq<char>) -> bool
    decreases s.len(),
{
    s.len() == l.len() && (s.len() == 0 || (
        (s[0] as u32) < 128 && ascii_lower_char(s[0]) == l[0] && lowers_to(s.drop_first(), l.drop_first())
    ))
}

proof fn lemma_lowers_to(s: Seq<char>, l: Seq<char>)
    requires
        lowers_to(s, l),
    ensures
        s.len() == l.len(),
        forall|i: int| 0 <= i < s.len() ==> (#[trigger] s[i] as u32) < 128 && ascii_lower_char(s[i]) == l[i],
    decreases s.len(),
{
    if s.len() > 0 {
        lemma_lowers_to(s.drop_first(), l.drop_first());
        assert forall|i: int| 0 <= i < s.len() implies (#[trigger] s[i] as u32) < 128 && ascii_lower_char(s[i]) == l[i] by {
            if i > 0 {
                assert(s[i] == s.drop_first()[i - 1]);
                assert(l[i] == l.drop_first()[i - 1]);
            }
        }
    }
}

/// A display name `s` whose lower case `l` is the lookup text of `g` reads
/// back as `g`.
proof fn lemma_name_reads_back(s: Seq<char>, l: Seq<char>, g: Genre)
    requires
        lowers_to(s, l),
        known_genre_name(l) == Some(g),
    ensures
        known_genre_name(lowercase(s)) == Some(g),
{
    lemma_name_lowers(s, l);
}

/// The display name of every named genre reads back as that genre: a name
/// lookup (which ignores letter case) of `name()` gives the genre again.
#[verifier::rlimit(60)]
#[verifier::spinoff_prover]
pub proof fn genre_names_read_back(g: Genre)
    requires
        !(g is Other),
    ensures
        known_genre_name(lowercase(genre_name(g))) == Some(g),
{
    reveal_strlit("action");
    reveal_strlit("action & adventure");
    reveal_strlit("adventure");
    reveal_strlit("animation");
    reveal_strlit("comedy");
    reveal_strlit("crime");
    reveal_strlit("documentary");
    reveal_strlit("drama");
    reveal_strlit("ecchi");
    reveal_strlit("family");
    reveal_strlit("fantasy");
    reveal_strlit("history");
    reveal_strlit("horror");
    reveal_strlit("kids");
    reveal_strlit("mahou shoujo");
    reveal_strlit("mecha");
    reveal_strlit("music");
    reveal_strlit("mystery");
    reveal_strlit("news");
    reveal_strlit("reality");
    reveal_strlit("romance");
    reveal_strlit("sci-fi & fantasy");
    reveal_strlit("science fiction");
    reveal_strlit("slice of life");
    reveal_strlit("soap");
    reveal_strlit("sports");
    reveal_strlit("supernatural");
    reveal_strlit("talk");
    reveal_strlit("thriller");
    reveal_strlit("tv movie");
    reveal_strlit("war");
    reveal_strlit("war & politics");
    reveal_strlit("western");
    reveal_with_fuel(lowers_to, 19);
    match g {
        Genre::Action => {
            reveal_strlit("Action");
            let l = "action"@;
            lemma_name_reads_back("Action"@, l, g);
        },
        Genre::Adventure => {
            reveal_strlit("Adventure");
            let l = "adventure"@;
            assert(
                l.len() != "action"@.len()
            );
            lemma_name_reads_back("Adventure"@, l, g);
        },
        Genre::Fantasy => {
            reveal_strlit("Fantasy");
            let l = "fantasy"@;
            assert(
                l.len() != "action"@.len() && l.len() != "adventure"@.len()
            );
            lemma_name_reads_back("Fantasy"@, l, g);
        },
        Genre::History => {
            reveal_strlit("History");
            let l = "history"@;
            assert(
                l.len() != "action"@.len() && l.len() != "adventure"@.len() && l[0] != "fantasy"@[0]
            );
            lemma_name_reads_back("History"@, l, g);
        },
        Genre::Horror => {
            reveal_strlit("Horror");
            let l = "horror"@;
            assert(
                l[0] != "action"@[0] && l.len() != "adventure"@.len() && l.len() != "fantasy"@.len() &&
                l.len() != "history"@.len()
            );
            lemma_name_reads_back("Horror"@, l, g);
        },
        Genre::Music => {
            reveal_strlit("Music");
            let l = "music"@;
            assert(
                l.len() != "action"@.len() && l.len() != "adventure"@.len() && l.len() != "fantasy"@.len() &&
                l.len() != "history"@.len() && l.len() != "horror"@.len()
            );
            lemma_name_reads_back("Music"@, l, g);
        },
        Genre::Romance => {
            reveal_strlit("Romance");
            let l = "romance"@;
            assert(
                l.len() != "action"@.len() && l.len() != "adventure"@.len() && l[0] != "fantasy"@[0] &&
                l[0] != "history"@[0] && l.len() != "horror"@.len() && l.len() != "music"@.len()
            );
            lemma_name_reads_back("Romance"@, l, g);
        },
        Genre::ScienceFiction => {
            reveal_strlit("Science Fiction");
            let l = "science fiction"@;
            assert(
                l.len() != "action"@.len() && l.len() != "adventure"@.len() && l.len() != "fantasy"@.len() &&
                l.len() != "history"@.len() && l.len() != "horror"@.len() && l.len() != "music"@.len() &&
                l.len() != "romance"@.len()
            );
            lemma_name_reads_back("Science Fiction"@, l, g);
        },
        Genre::Thriller => {
            reveal_strlit("Thriller");
            let l = "thriller"@;
            assert(
                l.len() != "action"@.len() && l.len() != "adventure"@.len() && l.len() != "fantasy"@.len() &&
                l.len() != "history"@.len() && l.len() != "horror"@.len() && l.len() != "music"@.len() &&
                l.len() != "romance"@.len() && l.len() != "science fiction"@.len()
            );
            lemma_name_reads_back("Thriller"@, l, g);
        },
        Genre::TvMovie => {
            reveal_strlit("TV Movie");
            let l = "tv movie"@;
            assert(
                l.len() != "action"@.len() && l.len() != "adventure"@.len() && l.len() != "fantasy"@.len() &&
                l.len() != "history"@.len() && l.len() != "horror"@.len() && l.len() != "music"@.len() &&
                l.len() != "romance"@.len() && l.len() != "science fiction"@.len() && l[1] != "thriller"@[1]
            );
            lemma_name_reads_back("TV Movie"@, l, g);
        },
        Genre::War => {
            reveal_strlit("War");
            let l = "war"@;
            assert(
                l.len() != "action"@.len() && l.len() != "adventure"@.len() && l.len() != "fantasy"@.len() &&
                l.len() != "history"@.len() && l.len() != "horror"@.len() && l.len() != "music"@.len() &&
                l.len() != "romance"@.len() && l.len() != "science fiction"@.len() && l.len() != "thriller"@.len() &&
                l.len() != "tv movie"@.len()
            );
            lemma_name_reads_back("War"@, l, g);
        },
        Genre::ActionAdventure => {
            reveal_strlit("Action & Adventure");
            let l = "action & adventure"@;
            assert(
                l.len() != "action"@.len() && l.len() != "adventure"@.len() && l.len() != "fantasy"@.len() &&
                l.len() != "history"@.len() && l.len() != "horror"@.len() && l.len() != "music"@.len() &&
                l.len() != "romance"@.len() && l.len() != "science fiction"@.len() && l.len() != "thriller"@.len() &&
                l.len() != "tv movie"@.len() && l.len() != "war"@.len()
            );
            lemma_name_reads_back("Action & Adventure"@, l, g);
        },
        Genre::Kids => {
            reveal_strlit("Kids");
            let l = "kids"@;
            assert(
                l.len() != "action"@.len() && l.len() != "adventure"@.len() && l.len() != "fantasy"@.len() &&
                l.len() != "history"@.len() && l.len() != "horror"@.len() && l.len() != "music"@.len() &&
                l.len() != "romance"@.len() && l.len() != "science fiction"@.len() && l.len() != "thriller"@.len() &&
                l.len() != "tv movie"@.len() && l.len() != "war"@.len() && l.len() != "action & adventure"@.len()
            );
            lemma_name_reads_back("Kids"@, l, g);
        },
        Genre::News => {
            reveal_strlit("News");
            let l = "news"@;
            assert(
                l.len() != "action"@.len() && l.len() != "adventure"@.len() && l.len() != "fantasy"@.len() &&
                l.len() != "history"@.len() && l.len() != "horror"@.len() && l.len() != "music"@.len() &&
                l.len() != "romance"@.len() && l.len() != "science fiction"@.len() && l.len() != "thriller"@.len() &&
                l.len() != "tv movie"@.len() && l.len() != "war"@.len() && l.len() != "action & adventure"@.len() &&
                l[0] != "kids"@[0]
            );
            lemma_name_reads_back("News"@, l, g);
        },
        Genre::Reality => {
            reveal_strlit("Reality");
            let l = "reality"@;
            assert(
                l.len() != "action"@.len() && l.len() != "adventure"@.len() && l[0] != "fantasy"@[0] &&
                l[0] != "history"@[0] && l.len() != "horror"@.len() && l.len() != "music"@.len() &&
                l[1] != "romance"@[1] && l.len() != "science fiction"@.len() && l.len() != "thriller"@.len() &&
                l.len() != "tv movie"@.len() && l.len() != "war"@.len() && l.len() != "action & adventure"@.len() &&
                l.len() != "kids"@.len() && l.len() != "news"@.len()
            );
            lemma_name_reads_back("Reality"@, l, g);
        },
        Genre::SciFiFantasy => {
            reveal_strlit("Sci-Fi & Fantasy");
            let l = "sci-fi & fantasy"@;
            assert(
                l.len() != "action"@.len() && l.len() != "adventure"@.len() && l.len() != "fantasy"@.len() &&
                l.len() != "history"@.len() && l.len() != "horror"@.len() && l.len() != "music"@.len() &&
                l.len() != "romance"@.len() && l.len() != "science fiction"@.len() && l.len() != "thriller"@.len() &&
                l.len() != "tv movie"@.len() && l.len() != "war"@.len() && l.len() != "action & adventure"@.len() &&
                l.len() != "kids"@.len() && l.len() != "news"@.len() && l.len() != "reality"@.len()
            );
            lemma_name_reads_back("Sci-Fi & Fantasy"@, l, g);
        },
        Genre::Soap => {
            reveal_strlit("Soap");
            let l = "soap"@;
            assert(
                l.len() != "action"@.len() && l.len() != "adventure"@.len() && l.len() != "fantasy"@.len() &&
                l.len() != "history"@.len() && l.len() != "horror"@.len() && l.len() != "music"@.len() &&
                l.len() != "romance"@.len() && l.len() != "science fiction"@.len() && l.len() != "thriller"@.len() &&
                l.len() != "tv movie"@.len() && l.len() != "war"@.len() && l.len() != "action & adventure"@.len() &&
                l[0] != "kids"@[0] && l[0] != "news"@[0] && l.len() != "reality"@.len() &&
                l.len() != "sci-fi & fantasy"@.len()
            );
            lemma_name_reads_back("Soap"@, l, g);
        },
        Genre::Talk => {
            reveal_strlit("Talk");
            let l = "talk"@;
            assert(
                l.len() != "action"@.len() && l.len() != "adventure"@.len() && l.len() != "fantasy"@.len() &&
                l.len() != "history"@.len() && l.len() != "horror"@.len() && l.len() != "music"@.len() &&
                l.len() != "romance"@.len() && l.len() != "science fiction"@.len() && l.len() != "thriller"@.len() &&
                l.len() != "tv movie"@.len() && l.len() != "war"@.len() && l.len() != "action & adventure"@.len() &&
                l[0] != "kids"@[0] && l[0] != "news"@[0] && l.len() != "reality"@.len() &&
                l.len() != "sci-fi & fantasy"@.len() && l[0] != "soap"@[0]
            );
            lemma_name_reads_back("Talk"@, l, g);
        },
        Genre::WarPolitics => {
            reveal_strlit("War & Politics");
            let l = "war & politics"@;
            assert(
                l.len() != "action"@.len() && l.len() != "adventure"@.len() && l.len() != "fantasy"@.len() &&
                l.len() != "history"@.len() && l.len() != "horror"@.len() && l.len() != "music"@.len() &&
                l.len() != "romance"@.len() && l.len() != "science fiction"@.len() && l.len() != "thriller"@.len() &&
                l.len() != "tv movie"@.len() && l.len() != "war"@.len() && l.len() != "action & adventure"@.len() &&
                l.len() != "kids"@.len() && l.len() != "news"@.len() && l.len() != "reality"@.len() &&
                l.len() != "sci-fi & fantasy"@.len() && l.len() != "soap"@.len() && l.len() != "talk"@.len()
            );
            lemma_name_reads_back("War & Politics"@, l, g);
        },
        Genre::Animation => {
            reveal_strlit("Animation");
            let l = "animation"@;
            assert(
                l.len() != "action"@.len() && l[1] != "adventure"@[1] && l.len() != "fantasy"@.len() &&
                l.len() != "history"@.len() && l.len() != "horror"@.len() && l.len() != "music"@.len() &&
                l.len() != "romance"@.len() && l.len() != "science fiction"@.len() && l.len() != "thriller"@.len() &&
                l.len() != "tv movie"@.len() && l.len() != "war"@.len() && l.len() != "action & adventure"@.len() &&
                l.len() != "kids"@.len() && l.len() != "news"@.len() && l.len() != "reality"@.len() &&
                l.len() != "sci-fi & fantasy"@.len() && l.len() != "soap"@.len() && l.len() != "talk"@.len() &&
                l.len() != "war & politics"@.len()
            );
            lemma_name_reads_back("Animation"@, l, g);
        },
        Genre::Comedy => {
            reveal_strlit("Comedy");
            let l = "comedy"@;
            assert(
                l[0] != "action"@[0] && l.len() != "adventure"@.len() && l.len() != "fantasy"@.len() &&
                l.len() != "history"@.len() && l[0] != "horror"@[0] && l.len() != "music"@.len() &&
                l.len() != "romance"@.len() && l.len() != "science fiction"@.len() && l.len() != "thriller"@.len() &&
                l.len() != "tv movie"@.len() && l.len() != "war"@.len() && l.len() != "action & adventure"@.len() &&
                l.len() != "kids"@.len() && l.len() != "news"@.len() && l.len() != "reality"@.len() &&
                l.len() != "sci-fi & fantasy"@.len() && l.len() != "soap"@.len() && l.len() != "talk"@.len() &&
                l.len() != "war & politics"@.len() && l.len() != "animation"@.len()
            );
            lemma_name_reads_back("Comedy"@, l, g);
        },
        Genre::Crime => {
            reveal_strlit("Crime");
            let l = "crime"@;
            assert(
                l.len() != "action"@.len() && l.len() != "adventure"@.len() && l.len() != "fantasy"@.len() &&
                l.len() != "history"@.len() && l.len() != "horror"@.len() && l[0] != "music"@[0] &&
                l.len() != "romance"@.len() && l.len() != "science fiction"@.len() && l.len() != "thriller"@.len() &&
                l.len() != "tv movie"@.len() && l.len() != "war"@.len() && l.len() != "action & adventure"@.len() &&
                l.len() != "kids"@.len() && l.len() != "news"@.len() && l.len() != "reality"@.len() &&
                l.len() != "sci-fi & fantasy"@.len() && l.len() != "soap"@.len() && l.len() != "talk"@.len() &&
                l.len() != "war & politics"@.len() && l.len() != "animation"@.len() && l.len() != "comedy"@.len()
            );
            lemma_name_reads_back("Crime"@, l, g);
        },
        Genre::Documentary => {
            reveal_strlit("Documentary");
            let l = "documentary"@;
            assert(
                l.len() != "action"@.len() && l.len() != "adventure"@.len() && l.len() != "fantasy"@.len() &&
                l.len() != "history"@.len() && l.len() != "horror"@.len() && l.len() != "music"@.len() &&
                l.len() != "romance"@.len() && l.len() != "science fiction"@.len() && l.len() != "thriller"@.len() &&
                l.len() != "tv movie"@.len() && l.len() != "war"@.len() && l.len() != "action & adventure"@.len() &&
                l.len() != "kids"@.len() && l.len() != "news"@.len() && l.len() != "reality"@.len() &&
                l.len() != "sci-fi & fantasy"@.len() && l.len() != "soap"@.len() && l.len() != "talk"@.len() &&
                l.len() != "war & politics"@.len() && l.len() != "animation"@.len() && l.len() != "comedy"@.len() &&
                l.len() != "crime"@.len()
            );
            lemma_name_reads_back("Documentary"@, l, g);
        },
        Genre::Drama => {
            reveal_strlit("Drama");
            let l = "drama"@;
            assert(
                l.len() != "action"@.len() && l.len() != "adventure"@.len() && l.len() != "fantasy"@.len() &&
                l.len() != "history"@.len() && l.len() != "horror"@.len() && l[0] != "music"@[0] &&
                l.len() != "romance"@.len() && l.len() != "science fiction"@.len() && l.len() != "thriller"@.len() &&
                l.len() != "tv movie"@.len() && l.len() != "war"@.len() && l.len() != "action & adventure"@.len() &&
                l.len() != "kids"@.len() && l.len() != "news"@.len() && l.len() != "reality"@.len() &&
                l.len() != "sci-fi & fantasy"@.len() && l.len() != "soap"@.len() && l.len() != "talk"@.len() &&
                l.len() != "war & politics"@.len() && l.len() != "animation"@.len() && l.len() != "comedy"@.len() &&
                l[0] != "crime"@[0] && l.len() != "documentary"@.len()
            );
            lemma_name_reads_back("Drama"@, l, g);
        },
        Genre::Family => {
            reveal_strlit("Family");
            let l = "family"@;
            assert(
                l[0] != "action"@[0] && l.len() != "adventure"@.len() && l.len() != "fantasy"@.len() &&
                l.len() != "history"@.len() && l[0] != "horror"@[0] && l.len() != "music"@.len() &&
                l.len() != "romance"@.len() && l.len() != "science fiction"@.len() && l.len() != "thriller"@.len() &&
                l.len() != "tv movie"@.len() && l.len() != "war"@.len() && l.len() != "action & adventure"@.len() &&
                l.len() != "kids"@.len() && l.len() != "news"@.len() && l.len() != "reality"@.len() &&
                l.len() != "sci-fi & fantasy"@.len() && l.len() != "soap"@.len() && l.len() != "talk"@.len() &&
                l.len() != "war & politics"@.len() && l.len() != "animation"@.len() && l[0] != "comedy"@[0] &&
                l.len() != "crime"@.len() && l.len() != "documentary"@.len() && l.len() != "drama"@.len()
            );
            lemma_name_reads_back("Family"@, l, g);
        },
        Genre::Mystery => {
            reveal_strlit("Mystery");
            let l = "mystery"@;
            assert(
                l.len() != "action"@.len() && l.len() != "adventure"@.len() && l[0] != "fantasy"@[0] &&
                l[0] != "history"@[0] && l.len() != "horror"@.len() && l.len() != "music"@.len() &&
                l[0] != "romance"@[0] && l.len() != "science fiction"@.len() && l.len() != "thriller"@.len() &&
                l.len() != "tv movie"@.len() && l.len() != "war"@.len() && l.len() != "action & adventure"@.len() &&
                l.len() != "kids"@.len() && l.len() != "news"@.len() && l[0] != "reality"@[0] &&
                l.len() != "sci-fi & fantasy"@.len() && l.len() != "soap"@.len() && l.len() != "talk"@.len() &&
                l.len() != "war & politics"@.len() && l.len() != "animation"@.len() && l.len() != "comedy"@.len() &&
                l.len() != "crime"@.len() && l.len() != "documentary"@.len() && l.len() != "drama"@.len() &&
                l.len() != "family"@.len()
            );
            lemma_name_reads_back("Mystery"@, l, g);
        },
        Genre::Western => {
            reveal_strlit("Western");
            let l = "western"@;
            assert(
                l.len() != "action"@.len() && l.len() != "adventure"@.len() && l[0] != "fantasy"@[0] &&
                l[0] != "history"@[0] && l.len() != "horror"@.len() && l.len() != "music"@.len() &&
                l[0] != "romance"@[0] && l.len() != "science fiction"@.len() && l.len() != "thriller"@.len() &&
                l.len() != "tv movie"@.len() && l.len() != "war"@.len() && l.len() != "action & adventure"@.len() &&
                l.len() != "kids"@.len() && l.len() != "news"@.len() && l[0] != "reality"@[0] &&
                l.len() != "sci-fi & fantasy"@.len() && l.len() != "soap"@.len() && l.len() != "talk"@.len() &&
                l.len() != "war & politics"@.len() && l.len() != "animation"@.len() && l.len() != "comedy"@.len() &&
                l.len() != "crime"@.len() && l.len() != "documentary"@.len() && l.len() != "drama"@.len() &&
                l.len() != "family"@.len() && l[0] != "mystery"@[0]
            );
            lemma_name_reads_back("Western"@, l, g);
        },
        Genre::Mecha => {
            reveal_strlit("Mecha");
            let l = "mecha"@;
            assert(
                l.len() != "action"@.len() && l.len() != "adventure"@.len() && l.len() != "fantasy"@.len() &&
                l.len() != "history"@.len() && l.len() != "horror"@.len() && l[1] != "music"@[1] &&
                l.len() != "romance"@.len() && l.len() != "science fiction"@.len() && l.len() != "thriller"@.len() &&
                l.len() != "tv movie"@.len() && l.len() != "war"@.len() && l.len() != "action & adventure"@.len() &&
                l.len() != "kids"@.len() && l.len() != "news"@.len() && l.len() != "reality"@.len() &&
                l.len() != "sci-fi & fantasy"@.len() && l.len() != "soap"@.len() && l.len() != "talk"@.len() &&
                l.len() != "war & politics"@.len() && l.len() != "animation"@.len() && l.len() != "comedy"@.len() &&
                l[0] != "crime"@[0] && l.len() != "documentary"@.len() && l[0] != "drama"@[0] &&
                l.len() != "family"@.len() && l.len() != "mystery"@.len() && l.len() != "western"@.len()
            );
            lemma_name_reads_back("Mecha"@, l, g);
        },
        Genre::MahouShoujo => {
            reveal_strlit("Mahou Shoujo");
            let l = "mahou shoujo"@;
            assert(
                l.len() != "action"@.len() && l.len() != "adventure"@.len() && l.len() != "fantasy"@.len() &&
                l.len() != "history"@.len() && l.len() != "horror"@.len() && l.len() != "music"@.len() &&
                l.len() != "romance"@.len() && l.len() != "science fiction"@.len() && l.len() != "thriller"@.len() &&
                l.len() != "tv movie"@.len() && l.len() != "war"@.len() && l.len() != "action & adventure"@.len() &&
                l.len() != "kids"@.len() && l.len() != "news"@.len() && l.len() != "reality"@.len() &&
                l.len() != "sci-fi & fantasy"@.len() && l.len() != "soap"@.len() && l.len() != "talk"@.len() &&
                l.len() != "war & politics"@.len() && l.len() != "animation"@.len() && l.len() != "comedy"@.len() &&
                l.len() != "crime"@.len() && l.len() != "documentary"@.len() && l.len() != "drama"@.len() &&
                l.len() != "family"@.len() && l.len() != "mystery"@.len() && l.len() != "western"@.len() &&
                l.len() != "mecha"@.len()
            );
            lemma_name_reads_back("Mahou Shoujo"@, l, g);
        },
        Genre::SliceOfLife => {
            reveal_strlit("Slice of Life");
            let l = "slice of life"@;
            assert(
                l.len() != "action"@.len() && l.len() != "adventure"@.len() && l.len() != "fantasy"@.len() &&
                l.len() != "history"@.len() && l.len() != "horror"@.len() && l.len() != "music"@.len() &&
                l.len() != "romance"@.len() && l.len() != "science fiction"@.len() && l.len() != "thriller"@.len() &&
                l.len() != "tv movie"@.len() && l.len() != "war"@.len() && l.len() != "action & adventure"@.len() &&
                l.len() != "kids"@.len() && l.len() != "news"@.len() && l.len() != "reality"@.len() &&
                l.len() != "sci-fi & fantasy"@.len() && l.len() != "soap"@.len() && l.len() != "talk"@.len() &&
                l.len() != "war & politics"@.len() && l.len() != "animation"@.len() && l.len() != "comedy"@.len() &&
                l.len() != "crime"@.len() && l.len() != "documentary"@.len() && l.len() != "drama"@.len() &&
                l.len() != "family"@.len() && l.len() != "mystery"@.len() && l.len() != "western"@.len() &&
                l.len() != "mecha"@.len() && l.len() != "mahou shoujo"@.len()
            );
            lemma_name_reads_back("Slice of Life"@, l, g);
        },
        Genre::Sports => {
            reveal_strlit("Sports");
            let l = "sports"@;
            assert(
                l[0] != "action"@[0] && l.len() != "adventure"@.len() && l.len() != "fantasy"@.len() &&
                l.len() != "history"@.len() && l[0] != "horror"@[0] && l.len() != "music"@.len() &&
                l.len() != "romance"@.len() && l.len() != "science fiction"@.len() && l.len() != "thriller"@.len() &&
                l.len() != "tv movie"@.len() && l.len() != "war"@.len() && l.len() != "action & adventure"@.len() &&
                l.len() != "kids"@.len() && l.len() != "news"@.len() && l.len() != "reality"@.len() &&
                l.len() != "sci-fi & fantasy"@.len() && l.len() != "soap"@.len() && l.len() != "talk"@.len() &&
                l.len() != "war & politics"@.len() && l.len() != "animation"@.len() && l[0] != "comedy"@[0] &&
                l.len() != "crime"@.len() && l.len() != "documentary"@.len() && l.len() != "drama"@.len() &&
                l[0] != "family"@[0] && l.len() != "mystery"@.len() && l.len() != "western"@.len() &&
                l.len() != "mecha"@.len() && l.len() != "mahou shoujo"@.len() && l.len() != "slice of life"@.len()
            );
            lemma_name_reads_back("Sports"@, l, g);
        },
        Genre::Supernatural => {
            reveal_strlit("Supernatural");
            let l = "supernatural"@;
            assert(
                l.len() != "action"@.len() && l.len() != "adventure"@.len() && l.len() != "fantasy"@.len() &&
                l.len() != "history"@.len() && l.len() != "horror"@.len() && l.len() != "music"@.len() &&
                l.len() != "romance"@.len() && l.len() != "science fiction"@.len() && l.len() != "thriller"@.len() &&
                l.len() != "tv movie"@.len() && l.len() != "war"@.len() && l.len() != "action & adventure"@.len() &&
                l.len() != "kids"@.len() && l.len() != "news"@.len() && l.len() != "reality"@.len() &&
                l.len() != "sci-fi & fantasy"@.len() && l.len() != "soap"@.len() && l.len() != "talk"@.len() &&
                l.len() != "war & politics"@.len() && l.len() != "animation"@.len() && l.len() != "comedy"@.len() &&
                l.len() != "crime"@.len() && l.len() != "documentary"@.len() && l.len() != "drama"@.len() &&
                l.len() != "family"@.len() && l.len() != "mystery"@.len() && l.len() != "western"@.len() &&
                l.len() != "mecha"@.len() && l[0] != "mahou shoujo"@[0] && l.len() != "slice of life"@.len() &&
                l.len() != "sports"@.len()
            );
            lemma_name_reads_back("Supernatural"@, l, g);
        },
        Genre::Ecchi => {
            reveal_strlit("Ecchi");
            let l = "ecchi"@;
            assert(
                l.len() != "action"@.len() && l.len() != "adventure"@.len() && l.len() != "fantasy"@.len() &&
                l.len() != "history"@.len() && l.len() != "horror"@.len() && l[0] != "music"@[0] &&
                l.len() != "romance"@.len() && l.len() != "science fiction"@.len() && l.len() != "thriller"@.len() &&
                l.len() != "tv movie"@.len() && l.len() != "war"@.len() && l.len() != "action & adventure"@.len() &&
                l.len() != "kids"@.len() && l.len() != "news"@.len() && l.len() != "reality"@.len() &&
                l.len() != "sci-fi & fantasy"@.len() && l.len() != "soap"@.len() && l.len() != "talk"@.len() &&
                l.len() != "war & politics"@.len() && l.len() != "animation"@.len() && l.len() != "comedy"@.len() &&
                l[0] != "crime"@[0] && l.len() != "documentary"@.len() && l[0] != "drama"@[0] &&
                l.len() != "family"@.len() && l.len() != "mystery"@.len() && l.len() != "western"@.len() &&
                l[0] != "mecha"@[0] && l.len() != "mahou shoujo"@.len() && l.len() != "slice of life"@.len() &&
                l.len() != "sports"@.len() && l.len() != "supernatural"@.len()
            );
            lemma_name_reads_back("Ecchi"@, l, g);
        },
        Genre::Other(_) => {},
    }
}


/// The AniList page size is always within the API's limits, 1 to 50, and a
/// size already within them is kept as it is.
pub proof fn per_page_is_within_limits(requested: u32)
    ensures
        1 <= clamp(requested as int, 1, 50) <= 50,
        1 <= requested <= 50 ==> clamp(requested as int, 1, 50) == requested,
        clamp(clamp(requested as int, 1, 50), 1, 50) == clamp(requested as int, 1, 50),
{
}


proof fn lemma_name_lowers(s: Seq<char>, l: Seq<char>)
    requires
        lowers_to(s, l),
    ensures
        lowercase(s) == l,
{
    lemma_lowers_to(s, l);
    lemma_lowercase_ascii_text(s, l);
}

/// Normalizing an occupation twice gives what normalizing it once gives: every
/// department name that normalization produces is kept as it is.
pub proof fn occupation_normalization_is_idempotent(occupation: Seq<char>)
    ensures
        occupation_department(occupation_department(occupation)) == occupation_department(occupation),
{
    reveal_strlit("voice actor");
    reveal_strlit("voice actress");
    reveal_strlit("director");
    reveal_strlit("music");
    reveal_strlit("composer");
    reveal_strlit("animation director");
    reveal_strlit("animator");
    reveal_strlit("character design");
    reveal_with_fuel(lowers_to, 13);
    let d = occupation_department(occupation);
    if d != occupation {
        if d == "Voice Acting"@ {
            reveal_strlit("Voice Acting");
            reveal_strlit("voice acting");
            let l = "voice acting"@;
            lemma_name_lowers(d, l);
            assert(l.len() != "voice actor"@.len());
            assert(l.len() != "voice actress"@.len());
            assert(l.len() != "director"@.len());
            assert(l.len() != "music"@.len());
            assert(l.len() != "composer"@.len());
            assert(l.len() != "animation director"@.len());
            assert(l.len() != "animator"@.len());
            assert(l.len() != "character design"@.len());
        } else if d == "Directing"@ {
            reveal_strlit("Directing");
            reveal_strlit("directing");
            let l = "directing"@;
            lemma_name_lowers(d, l);
            assert(l.len() != "voice actor"@.len());
            assert(l.len() != "voice actress"@.len());
            assert(l.len() != "director"@.len());
            assert(l.len() != "music"@.len());
            assert(l.len() != "composer"@.len());
            assert(l.len() != "animation director"@.len());
            assert(l.len() != "animator"@.len());
            assert(l.len() != "character design"@.len());
        } else if d == "Music"@ {
            reveal_strlit("Music");
            reveal_strlit("music");
            let l = "music"@;
            lemma_name_lowers(d, l);
            assert(l.len() != "voice actor"@.len());
            assert(l.len() != "voice actress"@.len());
            assert(l.len() != "director"@.len());
            assert(l.len() != "composer"@.len());
            assert(l.len() != "animation director"@.len());
            assert(l.len() != "animator"@.len());
            assert(l.len() != "character design"@.len());
        } else if d == "Animation"@ {
            reveal_strlit("Animation");
            reveal_strlit("animation");
            let l = "animation"@;
            lemma_name_lowers(d, l);
            assert(l.len() != "voice actor"@.len());
            assert(l.len() != "voice actress"@.len());
            assert(l.len() != "director"@.len());
            assert(l.len() != "music"@.len());
            assert(l.len() != "composer"@.len());
            assert(l.len() != "animation director"@.len());
            assert(l.len() != "animator"@.len());
            assert(l.len() != "character design"@.len());
        } else if d == "Art"@ {
            reveal_strlit("Art");
            reveal_strlit("art");
            let l = "art"@;
            lemma_name_lowers(d, l);
            assert(l.len() != "voice actor"@.len());
            assert(l.len() != "voice actress"@.len());
            assert(l.len() != "director"@.len());
            assert(l.len() != "music"@.len());
            assert(l.len() != "composer"@.len());
            assert(l.len() != "animation director"@.len());
            assert(l.len() != "animator"@.len());
            assert(l.len() != "character design"@.len());
        }
    }
}


/// Walking a listing requests page 1, then each following page in turn: after
/// responses that all had a next page, the next request is for the page after
/// the last one; after any response without a next page, the walk is over.
pub proof fn walk_requests_consecutive_pages(flags: Seq<bool>)
    requires
        flags.len() < u32::MAX,
    ensures
        (forall|i: int| 0 <= i < flags.len() ==> flags[i]) ==> walk_after(flags) == Some((flags.len() + 1) as u32),
        (exists|i: int| 0 <= i < flags.len() && !flags[i]) ==> walk_after(flags) is None,
    decreases flags.len(),
{
    if flags.len() > 0 {
        let init = flags.drop_last();
        walk_requests_consecutive_pages(init);
        assert forall|i: int| 0 <= i < init.len() implies init[i] == flags[i] by {}
        if exists|i: int| 0 <= i < flags.len() && !flags[i] {
            let i = choose|i: int| 0 <= i < flags.len() && !flags[i];
            if i < init.len() {
                assert(!init[i]);
            }
        }
    }
}


proof fn lemma_decimal_digits(n: nat)
    ensures
        forall|i: int| 0 <= i < decimal(n).len() ==> is_digit_char(#[trigger] decimal(n)[i]),
    decreases n,
{
    if n >= 10 {
        lemma_decimal_digits(n / 10);
        lemma_digit_char(n % 10);
        let d = decimal(n);
        assert(d == decimal(n / 10).push(digit_char(n % 10)));
        assert forall|i: int| 0 <= i < d.len() implies is_digit_char(#[trigger] d[i]) by {
            if i < d.len() - 1 {
                assert(d[i] == decimal(n / 10)[i]);
            }
        }
    } else {
        lemma_digit_char(n);
    }
}

/// Two keys written as a text, a colon and a page number are the same text
/// only with the same text before the last colon and the same page.
proof fn lemma_split_page(x: Seq<char>, y: Seq<char>, p: nat, q: nat)
    requires
        x + ":"@ + decimal(p) == y + ":"@ + decimal(q),
    ensures
        x == y,
        p == q,
{
    reveal_strlit(":");
    lemma_decimal_digits(p);
    lemma_decimal_digits(q);
    let s = x + ":"@ + decimal(p);
    let dp = decimal(p);
    let dq = decimal(q);
    if dp.len() < dq.len() {
        let k = s.len() - dp.len() - 1;
        assert(s[k] == ':');
        assert(s[k] == dq[k - (y.len() + 1)]);
        assert(is_digit_char(dq[k - (y.len() + 1)]));
        assert(false);
    }
    if dq.len() < dp.len() {
        let k = s.len() - dq.len() - 1;
        assert(s[k] == ':');
        assert(s[k] == dp[k - (x.len() + 1)]);
        assert(is_digit_char(dp[k - (x.len() + 1)]));
        assert(false);
    }
    assert(dp =~= s.subrange(s.len() - dp.len(), s.len() as int));
    assert(dq =~= s.subrange(s.len() - dq.len(), s.len() as int));
    decimal_is_injective(p, q);
    assert(x =~= s.subrange(0, x.len() as int));
    assert(y =~= s.subrange(0, y.len() as int));
}

/// The text that stands for the media type of a search key.
pub open spec fn search_type_text(m: Option<MediaType>) -> Seq<char> {
    match m {
        Some(t) => media_type_text(t),
        None => "multi"@,
    }
}

proof fn lemma_search_type_distinct(a: Option<MediaType>, b: Option<MediaType>, x: Seq<char>, y: Seq<char>)
    requires
        search_type_text(a) + ":"@ + x == search_type_text(b) + ":"@ + y,
    ensures
        a == b,
        x == y,
{
    reveal_strlit("movie");
    reveal_strlit("tv");
    reveal_strlit("person");
    reveal_strlit("multi");
    reveal_strlit(":");
    let s = search_type_text(a) + ":"@ + x;
    let ta = search_type_text(a);
    let tb = search_type_text(b);
    assert(s[0] == ta[0] && s[0] == tb[0]);
    assert(s[1] == ta[1] && s[1] == tb[1]);
    assert(ta =~= tb);
    assert(x =~= s.subrange(ta.len() + 1int, s.len() as int));
    assert(y =~= s.subrange(tb.len() + 1int, s.len() as int));
}

/// Two search pages share a cache row only when they are the same search:
/// the same media type, the same page, and queries that normalize alike.
/// Together with `search_keys_ignore_case_and_padding`, a search row is
/// identified exactly by its media type, normalized query and page.
pub proof fn search_entries_identify_their_search(a: CacheKey, b: CacheKey)
    requires
        a is Search,
        b is Search,
        same_entry(a, b),
    ensures
        a->Search_media_type == b->Search_media_type,
        a->Search_page == b->Search_page,
        normalized_query(a->Search_query@) == normalized_query(b->Search_query@),
{
    let x = search_type_text(a->Search_media_type) + ":"@ + normalized_query(a->Search_query@);
    let y = search_type_text(b->Search_media_type) + ":"@ + normalized_query(b->Search_query@);
    assert(key_id_text(a) == x + ":"@ + decimal(a->Search_page as nat));
    assert(key_id_text(b) == y + ":"@ + decimal(b->Search_page as nat));
    lemma_split_page(x, y, a->Search_page as nat, b->Search_page as nat);
    lemma_search_type_distinct(
        a->Search_media_type, b->Search_media_type,
        normalized_query(a->Search_query@), normalized_query(b->Search_query@),
    );
}


/// A number for each kind of listing that is not a search.
pub open spec fn listing_kind(op: ListOp) -> int {
    match op {
        ListOp::TrendingMovies(_) => 0,
        ListOp::TrendingTvShows(_) => 1,
        ListOp::PopularMovies => 2,
        ListOp::TopRatedMovies => 3,
        ListOp::PopularTvShows => 4,
        ListOp::TopRatedTvShows => 5,
        ListOp::MovieRecommendations(_) => 6,
        ListOp::TvRecommendations(_) => 7,
        ListOp::SimilarMovies(_) => 8,
        ListOp::SimilarTvShows(_) => 9,
        _ => 10,
    }
}

/// The kind of listing that an endpoint name was made for, read from a few
/// of its characters.
pub open spec fn kind_read(e: Seq<char>) -> int {
    if e[0] == 't' {
        if e[1] == 'r' {
            if e[9] == 'm' { 0 } else { 1 }
        } else {
            if e[10] == 'm' { 3 } else { 5 }
        }
    } else if e[0] == 'p' {
        if e[8] == 'm' { 2 } else { 4 }
    } else if e[0] == 'r' {
        if e[16] == 'm' { 6 } else { 7 }
    } else {
        if e[8] == 'm' { 8 } else { 9 }
    }
}

proof fn lemma_kind_read(op: ListOp)
    requires
        search_query(op) is None,
    ensures
        kind_read(endpoint_text(op)) == listing_kind(op),
        endpoint_text(op).len() > 0,
{
    reveal_strlit("trending_movies:");
    reveal_strlit("trending_tv:");
    reveal_strlit("popular_movies");
    reveal_strlit("top_rated_movies");
    reveal_strlit("popular_tv_shows");
    reveal_strlit("top_rated_tv_shows");
    reveal_strlit("recommendations:movie:");
    reveal_strlit("recommendations:tv:");
    reveal_strlit("similar:movie:");
    reveal_strlit("similar:tv:");
    let e = endpoint_text(op);
    match op {
        ListOp::TrendingMovies(tw) => {
            let l = "trending_movies:"@;
            assert(e[0] == l[0] && e[1] == l[1] && e[9] == l[9]);
        },
        ListOp::TrendingTvShows(tw) => {
            let l = "trending_tv:"@;
            assert(e[0] == l[0] && e[1] == l[1] && e[9] == l[9]);
        },
        ListOp::MovieRecommendations(id) => {
            let l = "recommendations:movie:"@;
            assert(e[0] == l[0] && e[16] == l[16]);
        },
        ListOp::TvRecommendations(id) => {
            let l = "recommendations:tv:"@;
            assert(e[0] == l[0] && e[16] == l[16]);
        },
        ListOp::SimilarMovies(id) => {
            let l = "similar:movie:"@;
            assert(e[0] == l[0] && e[8] == l[8]);
        },
        ListOp::SimilarTvShows(id) => {
            let l = "similar:tv:"@;
            assert(e[0] == l[0] && e[8] == l[8]);
        },
        _ => {},
    }
}

proof fn lemma_strip_prefix(l: Seq<char>, a: Seq<char>, b: Seq<char>)
    requires
        l + a == l + b,
    ensures
        a == b,
{
    let s = l + a;
    assert(a =~= s.subrange(l.len() as int, s.len() as int));
    assert(b =~= (l + b).subrange(l.len() as int, (l + b).len() as int));
}

/// Listings other than searches get one endpoint name each: the same name
/// means the same listing (the same list, time window or title ID).
pub proof fn endpoint_names_are_distinct(op1: ListOp, op2: ListOp)
    requires
        search_query(op1) is None,
        search_query(op2) is None,
        endpoint_text(op1) == endpoint_text(op2),
    ensures
        op1 == op2,
{
    lemma_kind_read(op1);
    lemma_kind_read(op2);
    reveal_strlit("day");
    reveal_strlit("week");
    match (op1, op2) {
        (ListOp::TrendingMovies(a), ListOp::TrendingMovies(b)) => {
            lemma_strip_prefix("trending_movies:"@, time_window_text(a), time_window_text(b));
            assert(time_window_text(a).len() == time_window_text(b).len());
        },
        (ListOp::TrendingTvShows(a), ListOp::TrendingTvShows(b)) => {
            lemma_strip_prefix("trending_tv:"@, time_window_text(a), time_window_text(b));
            assert(time_window_text(a).len() == time_window_text(b).len());
        },
        (ListOp::MovieRecommendations(a), ListOp::MovieRecommendations(b)) => {
            lemma_strip_prefix("recommendations:movie:"@, signed_decimal(a as int), signed_decimal(b as int));
            signed_decimal_is_injective(a as int, b as int);
        },
        (ListOp::TvRecommendations(a), ListOp::TvRecommendations(b)) => {
            lemma_strip_prefix("recommendations:tv:"@, signed_decimal(a as int), signed_decimal(b as int));
            signed_decimal_is_injective(a as int, b as int);
        },
        (ListOp::SimilarMovies(a), ListOp::SimilarMovies(b)) => {
            lemma_strip_prefix("similar:movie:"@, signed_decimal(a as int), signed_decimal(b as int));
            signed_decimal_is_injective(a as int, b as int);
        },
        (ListOp::SimilarTvShows(a), ListOp::SimilarTvShows(b)) => {
            lemma_strip_prefix("similar:tv:"@, signed_decimal(a as int), signed_decimal(b as int));
            signed_decimal_is_injective(a as int, b as int);
        },
        _ => {},
    }
}

/// Two pages of listings other than searches share a cache row only when
/// they are the same page of the same listing.
pub proof fn listing_pages_have_distinct_entries(a: CacheKey, op1: ListOp, p1: u32, b: CacheKey, op2: ListOp, p2: u32)
    requires
        search_query(op1) is None,
        search_query(op2) is None,
        is_list_key(a, op1, p1),
        is_list_key(b, op2, p2),
        same_entry(a, b),
    ensures
        op1 == op2,
        p1 == p2,
{
    lemma_split_page(endpoint_text(op1), endpoint_text(op2), p1 as nat, p2 as nat);
    endpoint_names_are_distinct(op1, op2);
}


/// Whether two keys ask for the same thing: the same kind with the same
/// fields, where search queries are compared after trimming and lower-casing.
pub open spec fn same_request(a: CacheKey, b: CacheKey) -> bool {
    match (a, b) {
        (CacheKey::Detail { media_type: m1, provider_id: p1 }, CacheKey::Detail { media_type: m2, provider_id: p2 }) =>
            m1 == m2 && p1@ == p2@,
        (CacheKey::Item { media_type: m1, provider_id: p1 }, CacheKey::Item { media_type: m2, provider_id: p2 }) =>
            m1 == m2 && p1@ == p2@,
        (CacheKey::Search { media_type: m1, query: q1, page: g1 }, CacheKey::Search { media_type: m2, query: q2, page: g2 }) =>
            m1 == m2 && g1 == g2 && normalized_query(q1@) == normalized_query(q2@),
        (CacheKey::Discovery { endpoint: e1, page: g1 }, CacheKey::Discovery { endpoint: e2, page: g2 }) =>
            e1@ == e2@ && g1 == g2,
        _ => false,
    }
}

/// Cache keys identify their request exactly: two keys address the same row
/// of the cache table if and only if they ask for the same thing, their
/// search queries compared after trimming and lower-casing. In particular,
/// among keys of one `key_type`, equal `key_id`s mean equal requests.
pub proof fn keys_identify_their_request(a: CacheKey, b: CacheKey)
    ensures
        key_type_text(a) == key_type_text(b) ==> (key_id_text(a) == key_id_text(b) <==> same_request(a, b)),
        same_entry(a, b) <==> same_request(a, b),
{
    reveal_strlit("detail");
    reveal_strlit("item");
    reveal_strlit("search");
    reveal_strlit("discovery");
    if key_type_text(a) == key_type_text(b) && key_id_text(a) == key_id_text(b) {
        assert(key_type_text(a)[0] == key_type_text(b)[0]);
        match (a, b) {
            (CacheKey::Detail { media_type: m1, provider_id: p1 }, CacheKey::Detail { media_type: m2, provider_id: p2 }) => {
                lemma_media_type_text_distinct(m1, m2, p1@, p2@);
            },
            (CacheKey::Item { media_type: m1, provider_id: p1 }, CacheKey::Item { media_type: m2, provider_id: p2 }) => {
                lemma_media_type_text_distinct(m1, m2, p1@, p2@);
            },
            (CacheKey::Search { .. }, CacheKey::Search { .. }) => {
                search_entries_identify_their_search(a, b);
            },
            (CacheKey::Discovery { endpoint: e1, page: g1 }, CacheKey::Discovery { endpoint: e2, page: g2 }) => {
                lemma_split_page(e1@, e2@, g1 as nat, g2 as nat);
            },
            _ => {
                assert(key_type_text(a).len() == key_type_text(b).len());
            },
        }
    }
}


/// A read after a write answers what was written, for every key that
/// addresses the written row (such as a search whose query differs only in
/// case or outer white space), until the entry expires, and nothing from then
/// on.
pub proof fn reads_return_what_was_written<V>(
    t: Map<(Seq<char>, Seq<char>), (V, int)>, k: CacheKey, v: V, now: u64, ttl: u64, k2: CacheKey, t1: u64,
)
    requires
        same_entry(k, k2),
        now + ttl <= i64::MAX,
        now <= t1 <= i64::MAX,
    ensures
        table_get(table_set(t, k, v, now, ttl), k2, t1) == (if t1 < now + ttl { Some(v) } else { None::<V> }),
{
    assert(row_of(k) == row_of(k2));
}

/// A write changes no answer for keys of other rows.
pub proof fn writes_leave_other_rows<V>(
    t: Map<(Seq<char>, Seq<char>), (V, int)>, k: CacheKey, v: V, now: u64, ttl: u64, k2: CacheKey, t1: u64,
)
    requires
        !same_entry(k, k2),
    ensures
        table_get(table_set(t, k, v, now, ttl), k2, t1) == table_get(t, k2, t1),
{
    assert(row_of(k) != row_of(k2));
}

/// After invalidating a key, reads of its row answer nothing, and reads of
/// every other row answer what they answered before.
pub proof fn invalidation_touches_only_its_row<V>(t: Map<(Seq<char>, Seq<char>), (V, int)>, k: CacheKey, k2: CacheKey, t1: u64)
    ensures
        table_get(table_invalidate(t, k), k2, t1) == (if same_entry(k, k2) { None::<V> } else { table_get(t, k2, t1) }),
{
    if !same_entry(k, k2) {
        assert(row_of(k) != row_of(k2));
    }
}

/// After clearing, every read answers nothing.
pub proof fn cleared_table_answers_nothing<V>(k: CacheKey, t1: u64)
    ensures
        table_get(Map::<(Seq<char>, Seq<char>), (V, int)>::empty(), k, t1) is None,
{
}

/// A purge at `n` changes no answer of a read at or after `n`.
pub proof fn purge_keeps_every_answer<V>(t: Map<(Seq<char>, Seq<char>), (V, int)>, n: u64, k: CacheKey, t1: u64)
    requires
        n <= t1 <= i64::MAX,
    ensures
        table_get(table_purge(t, n), k, t1) == table_get(t, k, t1),
{
    let r = row_of(k);
    if t.contains_key(r) && live_at(t[r].1, t1) {
        assert(!purged_at(t[r].1, n));
        assert(table_purge(t, n).contains_key(r));
    }
}

/// Details fetched and written by a detail request are answered from the
/// cache by the detail lookup of the same item (the request's own lookup and
/// the cached-details lookup) until their time to live runs out.
pub proof fn details_are_served_after_a_request<V>(
    t: Map<(Seq<char>, Seq<char>), (V, int)>, written: CacheKey, d: V, now: u64, ttl: u64,
    looked_up: CacheKey, kind: DetailKind, pid: Seq<char>, t1: u64,
)
    requires
        is_detail_key(written, kind, pid),
        is_detail_key(looked_up, kind, pid),
        now <= t1 < now + ttl,
        now + ttl <= i64::MAX,
    ensures
        table_get(table_set(t, written, d, now, ttl), looked_up, t1) == Some(d),
{
    details_read_what_they_wrote(looked_up, written, kind, pid);
    reads_return_what_was_written(t, written, d, now, ttl, looked_up, t1);
}

proof fn lemma_invalidated_rows_gone<V>(t: Map<(Seq<char>, Seq<char>), (V, int)>, keys: Seq<CacheKey>, i: int)
    requires
        0 <= i < keys.len(),
    ensures
        !table_invalidate_all(t, keys).contains_key(row_of(keys[i])),
    decreases keys.len(),
{
    if i < keys.len() - 1 {
        lemma_invalidated_rows_gone(t, keys.drop_last(), i);
        assert(keys.drop_last()[i] == keys[i]);
    }
}

/// After invalidating a provider-qualified ID, the cached lookups of it (the
/// item entry and the detail entry, of every media type) answer nothing.
pub proof fn invalidated_items_are_not_served<V>(
    t: Map<(Seq<char>, Seq<char>), (V, int)>, keys: Seq<CacheKey>, pid: Seq<char>, mt: MediaType, k: CacheKey, t1: u64,
)
    requires
        invalidation_set(keys, pid),
        is_item_key(k, mt, pid) || (k matches CacheKey::Detail { media_type: m, provider_id: p } && m == mt && p@ == pid),
    ensures
        table_get(table_invalidate_all(t, keys), k, t1) is None,
{
    let j: int = match mt { MediaType::Movie => 0, MediaType::TvShow => 1, MediaType::Person => 2 };
    assert(media_type_at(j) == mt);
    if k is Item {
        assert(same_entry(keys[2 * j + 1], k));
        lemma_invalidated_rows_gone(t, keys, 2 * j + 1);
        assert(row_of(keys[2 * j + 1]) == row_of(k));
    } else {
        assert(same_entry(keys[2 * j], k));
        lemma_invalidated_rows_gone(t, keys, 2 * j);
        assert(row_of(keys[2 * j]) == row_of(k));
    }
}

} // verus!
