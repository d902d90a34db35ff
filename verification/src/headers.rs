//! How the headers of a realtime call request are merged from their sources.
//! Headers are `http::HeaderMap`s: each (lower-case) name maps to the values
//! sent under it, in order.

use http::{HeaderMap, HeaderName, HeaderValue};
use vstd::prelude::*;

use crate::text::same_text;

verus! {

/// `http::HeaderMap`, the header multimap, as an opaque value.
#[verifier::external_type_specification]
#[verifier::external_body]
#[verifier::reject_recursive_types(T)]
pub struct ExHeaderMap<T>(http::HeaderMap<T>);

/// `http::HeaderName`, a header name, as an opaque value.
#[verifier::external_type_specification]
#[verifier::external_body]
pub struct ExHeaderName(http::HeaderName);

/// `http::HeaderValue`, a header value, as an opaque value.
#[verifier::external_type_specification]
#[verifier::external_body]
pub struct ExHeaderValue(http::HeaderValue);

/// What a header map holds: for each name (its lower-case text,
/// `HeaderName::as_str`), the byte strings of the values sent under it, in the
/// order `HeaderMap::get_all` gives them. A name without values is absent.
pub uninterp spec fn header_contents(m: HeaderMap) -> Map<Seq<char>, Seq<Seq<u8>>>;

/// The text of a header name (`HeaderName::as_str`).
pub uninterp spec fn header_name_text(n: HeaderName) -> Seq<char>;

/// The bytes of a header value (`HeaderValue::as_bytes`).
pub uninterp spec fn header_value_bytes(v: HeaderValue) -> Seq<u8>;

/// The most names a merge may end up with. An insertion into a `HeaderMap`
/// panics ("size overflows MAX_SIZE") only when its table would have to grow
/// past 2^15 slots. A full table grows only once three quarters of it are
/// used (24576 names at 2^15 slots), and a table rebuilt against long probe
/// runs grows only while it holds at least a fifth as many names as slots
/// (6554 names at 2^15 slots); with at most 6553 names neither happens.
pub const HEADER_NAME_LIMIT: usize = 6553;

/// A copy of a header map (`HeaderMap::clone`, derived). Claims: the copy holds
/// what the original holds, and that is finitely many names.
#[verifier::external_body]
fn header_map_clone(m: &HeaderMap) -> (r: HeaderMap)
    ensures
        header_contents(r) == header_contents(*m),
        header_contents(r).dom().finite(),
{
    m.clone()
}

/// `HeaderMap::extend` with another map: for each name of `other`, its values
/// replace whatever `m` sent under that name; the other names of `m` stay.
/// Requires that the result has at most `HEADER_NAME_LIMIT` names, below which
/// the growth of the table cannot panic.
#[verifier::external_body]
fn header_map_extend(m: &mut HeaderMap, other: HeaderMap)
    requires
        header_contents(*old(m)).union_prefer_right(header_contents(other)).dom().len()
            <= HEADER_NAME_LIMIT,
    ensures
        header_contents(*final(m)) == header_contents(*old(m)).union_prefer_right(
            header_contents(other),
        ),
{
    m.extend(other);
}

/// The names of a header map (`HeaderMap::keys`, each name once, cloned).
/// Claims: each name of the map exactly once.
#[verifier::external_body]
fn header_names(m: &HeaderMap) -> (r: Vec<HeaderName>)
    ensures
        forall|k: Seq<char>|
            header_contents(*m).contains_key(k) ==> exists|i: int|
                0 <= i < r@.len() && header_name_text(#[trigger] r@[i]) == k,
        forall|i: int|
            0 <= i < r@.len() ==> header_contents(*m).contains_key(
                header_name_text(#[trigger] r@[i]),
            ),
        forall|i: int, j: int|
            0 <= i < j < r@.len() ==> header_name_text(#[trigger] r@[i]) != header_name_text(
                #[trigger] r@[j],
            ),
{
    m.keys().cloned().collect()
}

/// The first value sent under `name` (`HeaderMap::get`, cloned). Claims: there
/// is one exactly when the name is present, and it is the first in order.
#[verifier::external_body]
fn header_map_get(m: &HeaderMap, name: &HeaderName) -> (r: Option<HeaderValue>)
    ensures
        r is Some <==> header_contents(*m).contains_key(header_name_text(*name)),
        r matches Some(v) ==> header_value_bytes(v) == header_contents(
            *m,
        )[header_name_text(*name)][0],
{
    m.get(name).cloned()
}

/// Inserts `value` under `name` when the name is absent (`HeaderMap::entry`,
/// then `VacantEntry::insert`); returns whether it did. Requires that the map
/// then has at most `HEADER_NAME_LIMIT` names.
#[verifier::external_body]
fn header_map_insert_if_vacant(m: &mut HeaderMap, name: HeaderName, value: HeaderValue) -> (r:
    bool)
    requires
        header_contents(*old(m)).dom().insert(header_name_text(name)).len() <= HEADER_NAME_LIMIT,
    ensures
        r == !header_contents(*old(m)).contains_key(header_name_text(name)),
        header_contents(*final(m)) == (if r {
            header_contents(*old(m)).insert(header_name_text(name), seq![header_value_bytes(value)])
        } else {
            header_contents(*old(m))
        }),
{
    match m.entry(name) {
        http::header::Entry::Vacant(entry) => {
            entry.insert(value);
            true
        },
        http::header::Entry::Occupied(_) => false,
    }
}

/// Removes every `content-type` value (`HeaderMap::remove` with
/// `http::header::CONTENT_TYPE`).
#[verifier::external_body]
fn header_map_remove_content_type(m: &mut HeaderMap)
    ensures
        header_contents(*final(m)) == header_contents(*old(m)).remove("content-type"@),
{
    m.remove(http::header::CONTENT_TYPE);
}

/// The headers of a realtime call request: the provider's headers, overridden
/// name by name by the extra headers; then, for each name that is still absent,
/// the first value of the default headers; and never a `content-type`.
pub open spec fn merged_headers(
    provider: Map<Seq<char>, Seq<Seq<u8>>>,
    extra: Map<Seq<char>, Seq<Seq<u8>>>,
    defaults: Map<Seq<char>, Seq<Seq<u8>>>,
) -> Map<Seq<char>, Seq<Seq<u8>>> {
    let overridden = provider.union_prefer_right(extra);
    Map::new(
        |k: Seq<char>| overridden.contains_key(k) || defaults.contains_key(k),
        |k: Seq<char>|
            if overridden.contains_key(k) {
                overridden[k]
            } else {
                seq![defaults[k][0]]
            },
    ).remove("content-type"@)
}

/// The names that any of the three header maps has.
pub open spec fn all_header_names(provider: HeaderMap, extra: HeaderMap, defaults: HeaderMap) -> Set<
    Seq<char>,
> {
    header_contents(provider).dom() + header_contents(extra).dom() + header_contents(defaults).dom()
}

/// The headers of a realtime call request (see `merged_headers`). The three
/// maps may have at most `HEADER_NAME_LIMIT` names between them, beyond which
/// growing the merged map could panic.
pub fn merge_request_headers(
    provider_headers: &HeaderMap,
    extra_headers: &HeaderMap,
    default_headers: &HeaderMap,
) -> (r: HeaderMap)
    requires
        all_header_names(*provider_headers, *extra_headers, *default_headers).len()
            <= HEADER_NAME_LIMIT,
    ensures
        header_contents(r) == merged_headers(
            header_contents(*provider_headers),
            header_contents(*extra_headers),
            header_contents(*default_headers),
        ),
{
    let ghost p = header_contents(*provider_headers);
    let ghost e = header_contents(*extra_headers);
    let ghost d = header_contents(*default_headers);
    let mut headers = header_map_clone(provider_headers);
    let extra = header_map_clone(extra_headers);
    let names = header_names(default_headers);
    let ghost texts = Set::new(
        |x: Seq<char>| exists|t: int| 0 <= t < names@.len() && header_name_text(#[trigger] names@[t]) == x,
    );
    proof {
        lemma_texts_len(names@);
        assert(d.dom() <= texts);
        vstd::set_lib::lemma_len_subset(d.dom(), texts);
    }
    let ghost all = p.dom() + e.dom() + d.dom();
    assert(all.finite());
    assert(p.union_prefer_right(e).dom() =~= p.dom() + e.dom());
    proof {
        vstd::set_lib::lemma_len_subset(p.union_prefer_right(e).dom(), all);
    }
    header_map_extend(&mut headers, extra);
    let ghost overridden = p.union_prefer_right(e);
    let n = names.len();
    let mut k: usize = 0;
    while k < n
        invariant
            n == names@.len(),
            k <= n,
            all == p.dom() + e.dom() + d.dom(),
            all.finite(),
            all.len() <= HEADER_NAME_LIMIT,
            overridden == p.union_prefer_right(e),
            d == header_contents(*default_headers),
            forall|i: int| 0 <= i < n ==> d.contains_key(header_name_text(#[trigger] names@[i])),
            forall|i: int, j: int|
                0 <= i < j < n ==> header_name_text(#[trigger] names@[i]) != header_name_text(
                    #[trigger] names@[j],
                ),
            header_contents(headers) == Map::new(
                |key: Seq<char>| overridden.contains_key(key) || exists|t: int|
                    0 <= t < k && header_name_text(#[trigger] names@[t]) == key,
                |key: Seq<char>|
                    if overridden.contains_key(key) {
                        overridden[key]
                    } else {
                        seq![d[key][0]]
                    },
            ),
        decreases n - k,
    {
        let ghost name = header_name_text(names@[k as int]);
        assert forall|t: int| 0 <= t < k implies header_name_text(#[trigger] names@[t]) != name by {
            assert(t != k as int);
        }
        assert(header_contents(headers).dom().insert(name) <= all) by {
            assert forall|key: Seq<char>| #[trigger]
                header_contents(headers).dom().insert(name).contains(key) implies all.contains(
                key,
            ) by {
                if key != name && !overridden.contains_key(key) {
                    let t = choose|t: int| 0 <= t < k && header_name_text(#[trigger] names@[t]) == key;
                    assert(d.contains_key(header_name_text(names@[t])));
                }
            }
        }
        proof {
            vstd::set_lib::lemma_len_subset(header_contents(headers).dom().insert(name), all);
        }
        match header_map_get(default_headers, &names[k]) {
            Some(value) => {
                let name_value = names[k].clone();
                header_map_insert_if_vacant(&mut headers, name_value, value);
            },
            None => {},
        }
        assert(header_contents(headers) =~= Map::new(
            |key: Seq<char>| overridden.contains_key(key) || exists|t: int|
                0 <= t < k + 1 && header_name_text(#[trigger] names@[t]) == key,
            |key: Seq<char>|
                if overridden.contains_key(key) {
                    overridden[key]
                } else {
                    seq![d[key][0]]
                },
        ));
        k = k + 1;
    }
    header_map_remove_content_type(&mut headers);
    assert(header_contents(headers) =~= merged_headers(p, e, d));
    headers
}

/// The text of a header name (`HeaderName::as_str`, as an owned string).
#[verifier::external_body]
fn header_name_string(n: &HeaderName) -> (r: String)
    ensures
        r@ == header_name_text(*n),
{
    n.as_str().to_string()
}

/// The views of a list of strings.
pub open spec fn text_views(v: Seq<String>) -> Seq<Seq<char>> {
    v.map_values(|s: String| s@)
}

/// Whether `t` is among `seen`.
fn contains_text(seen: &Vec<String>, t: &str) -> (r: bool)
    ensures
        r == text_views(seen@).contains(t@),
{
    let n = seen.len();
    let mut i: usize = 0;
    while i < n
        invariant
            n == seen@.len(),
            i <= n,
            forall|j: int| 0 <= j < i ==> (#[trigger] seen@[j])@ != t@,
        decreases n - i,
    {
        if same_text(seen[i].as_str(), t) {
            assert(text_views(seen@)[i as int] == t@);
            return true;
        }
        i = i + 1;
    }
    assert forall|j: int| 0 <= j < text_views(seen@).len() implies text_views(seen@)[j] != t@ by {
        assert(text_views(seen@)[j] == seen@[j]@);
    }
    false
}

/// Adds the texts of `m`'s names that are not in `seen` yet.
fn add_names(seen: &mut Vec<String>, m: &HeaderMap)
    requires
        text_views(old(seen)@).no_duplicates(),
    ensures
        text_views(final(seen)@).no_duplicates(),
        text_views(final(seen)@).to_set() == text_views(old(seen)@).to_set() + header_contents(
            *m,
        ).dom(),
{
    let ghost start = text_views(seen@).to_set();
    let names = header_names(m);
    let n = names.len();
    let mut i: usize = 0;
    while i < n
        invariant
            n == names@.len(),
            i <= n,
            text_views(seen@).no_duplicates(),
            text_views(seen@).to_set() == start + Set::new(
                |x: Seq<char>| exists|t: int| 0 <= t < i && header_name_text(#[trigger] names@[t]) == x,
            ),
        decreases n - i,
    {
        let text = header_name_string(&names[i]);
        let ghost before = text_views(seen@);
        if !contains_text(seen, text.as_str()) {
            seen.push(text);
            assert(text_views(seen@) =~= before.push(text@));
            assert forall|a: int, b: int|
                0 <= a < text_views(seen@).len() && 0 <= b < text_views(seen@).len() && a != b implies
                text_views(seen@)[a] != text_views(seen@)[b] by {
                if a < before.len() && b < before.len() {
                } else if a < before.len() {
                    assert(before.contains(before[a]));
                } else {
                    assert(before.contains(before[b]));
                }
            }
        }
        assert(text_views(seen@).to_set() =~= start + Set::new(
            |x: Seq<char>| exists|t: int| 0 <= t < i + 1 && header_name_text(#[trigger] names@[t]) == x,
        )) by {
            assert(header_name_text(names@[i as int]) == text@);
            assert forall|x: Seq<char>| text_views(seen@).to_set().contains(x) implies (start + Set::new(
                |x: Seq<char>| exists|t: int| 0 <= t < i + 1 && header_name_text(#[trigger] names@[t]) == x,
            )).contains(x) by {
                if x != text@ {
                    let w = choose|w: int| 0 <= w < text_views(seen@).len() && text_views(seen@)[w] == x;
                    if w < before.len() {
                        assert(before[w] == x);
                        assert(before.to_set().contains(x));
                    }
                }
            }
            assert forall|x: Seq<char>| (start + Set::new(
                |x: Seq<char>| exists|t: int| 0 <= t < i + 1 && header_name_text(#[trigger] names@[t]) == x,
            )).contains(x) implies text_views(seen@).to_set().contains(x) by {
                if x == text@ {
                    if before.contains(x) {
                        let w = choose|w: int| 0 <= w < before.len() && before[w] == x;
                        assert(text_views(seen@)[w] == x);
                    } else {
                        assert(text_views(seen@)[before.len() as int] == x);
                    }
                } else {
                    if start.contains(x) || exists|t: int| 0 <= t < i && header_name_text(#[trigger] names@[t]) == x {
                        assert(before.to_set().contains(x));
                        let w = choose|w: int| 0 <= w < before.len() && before[w] == x;
                        assert(text_views(seen@)[w] == x);
                    } else {
                        let t = choose|t: int| 0 <= t < i + 1 && header_name_text(#[trigger] names@[t]) == x;
                        assert(t == i as int);
                    }
                }
            }
        }
        i = i + 1;
    }
    assert(Set::new(
        |x: Seq<char>| exists|t: int| 0 <= t < n && header_name_text(#[trigger] names@[t]) == x,
    ) =~= header_contents(*m).dom());
}

/// How many names the three header maps have between them: the bound that
/// `merge_request_headers` asks for, as a caller can test it.
pub fn header_name_count(provider: &HeaderMap, extra: &HeaderMap, defaults: &HeaderMap) -> (n:
    usize)
    ensures
        n == all_header_names(*provider, *extra, *defaults).len(),
{
    let mut seen: Vec<String> = Vec::new();
    assert(text_views(seen@).to_set() =~= Set::empty());
    add_names(&mut seen, provider);
    add_names(&mut seen, extra);
    add_names(&mut seen, defaults);
    proof {
        text_views(seen@).unique_seq_to_set();
        assert(text_views(seen@).to_set() =~= all_header_names(*provider, *extra, *defaults));
    }
    seen.len()
}

/// The texts of `n` names with pairwise different texts are `n` different texts.
proof fn lemma_texts_len(names: Seq<HeaderName>)
    requires
        forall|i: int, j: int|
            0 <= i < j < names.len() ==> header_name_text(#[trigger] names[i]) != header_name_text(
                #[trigger] names[j],
            ),
    ensures
        Set::new(|x: Seq<char>| exists|t: int| 0 <= t < names.len() && header_name_text(#[trigger] names[t]) == x).finite(),
        Set::new(|x: Seq<char>| exists|t: int| 0 <= t < names.len() && header_name_text(#[trigger] names[t]) == x).len() == names.len(),
    decreases names.len(),
{
    let s = Set::new(|x: Seq<char>| exists|t: int| 0 <= t < names.len() && header_name_text(#[trigger] names[t]) == x);
    if names.len() == 0 {
        assert(s =~= Set::empty());
    } else {
        let rest = names.drop_last();
        assert forall|i: int, j: int|
            0 <= i < j < rest.len() implies header_name_text(#[trigger] rest[i]) != header_name_text(
            #[trigger] rest[j],
        ) by {
            assert(rest[i] == names[i] && rest[j] == names[j]);
        }
        lemma_texts_len(rest);
        let r = Set::new(|x: Seq<char>| exists|t: int| 0 <= t < rest.len() && header_name_text(#[trigger] rest[t]) == x);
        let last = header_name_text(names.last());
        assert forall|x: Seq<char>| #[trigger] s.contains(x) <==> r.insert(last).contains(x) by {
            if s.contains(x) {
                let t = choose|t: int| 0 <= t < names.len() && header_name_text(#[trigger] names[t]) == x;
                if t < rest.len() {
                    assert(rest[t] == names[t]);
                }
            }
            if r.contains(x) {
                let t = choose|t: int| 0 <= t < rest.len() && header_name_text(#[trigger] rest[t]) == x;
                assert(rest[t] == names[t]);
            }
            if x == last {
                assert(header_name_text(names[names.len() - 1]) == x);
            }
        }
        assert(s =~= r.insert(last));
        assert(!r.contains(last)) by {
            if r.contains(last) {
                let t = choose|t: int| 0 <= t < rest.len() && header_name_text(#[trigger] rest[t]) == last;
                assert(rest[t] == names[t]);
                assert(header_name_text(names[t]) != header_name_text(names[names.len() - 1]));
            }
        }
    }
}

/// `HeaderName::clone` (derived): the copy is the same name.
pub assume_specification[ <http::HeaderName as Clone>::clone ](n: &HeaderName) -> (r: HeaderName)
    ensures
        r == *n,
;

/// Law: the merged request headers never carry a `content-type`; every other
/// extra header wins over the provider's; the provider's other headers stay;
/// a default header only fills a name that neither set has, with its first
/// value; and nothing else appears.
pub proof fn lemma_merged_headers(
    provider: Map<Seq<char>, Seq<Seq<u8>>>,
    extra: Map<Seq<char>, Seq<Seq<u8>>>,
    defaults: Map<Seq<char>, Seq<Seq<u8>>>,
)
    ensures
        ({
            let m = merged_headers(provider, extra, defaults);
            let ct = "content-type"@;
            &&& !m.contains_key(ct)
            &&& forall|k: Seq<char>| #[trigger]
                m.contains_key(k) <==> k != ct && (provider.contains_key(k) || extra.contains_key(k)
                    || defaults.contains_key(k))
            &&& forall|k: Seq<char>|
                k != ct && extra.contains_key(k) ==> #[trigger] m[k] == extra[k]
            &&& forall|k: Seq<char>|
                k != ct && !extra.contains_key(k) && provider.contains_key(k) ==> #[trigger] m[k]
                    == provider[k]
            &&& forall|k: Seq<char>|
                k != ct && !extra.contains_key(k) && !provider.contains_key(k)
                    && defaults.contains_key(k) ==> #[trigger] m[k] == seq![defaults[k][0]]
        }),
{
}

} // verus!
