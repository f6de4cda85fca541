//! gRPC request metadata made of exporter headers.

use crate::kv::{distinct_keys, lemma_pairs_absent, lemma_pairs_present, pairs_map, KvMap};
use tonic::metadata::{Ascii, MetadataKey, MetadataMap, MetadataValue};
use vstd::prelude::*;
use vstd::string::*;
use vstd::utf8::*;

verus! {

/// How many headers a metadata map has room for whatever their names are.
pub const MAX_HEADERS: usize = 6554;

#[verifier::external_type_specification]
#[verifier::external_body]
pub struct ExMetadataMap(tonic::metadata::MetadataMap);

/// The value of each key in `map`.
pub uninterp spec fn metadata_entries(map: tonic::metadata::MetadataMap) -> Map<
    Seq<char>,
    Seq<u8>,
>;

/// The characters that a header name is made of.
pub open spec fn is_token(c: char) -> bool {
    ||| '0' <= c <= '9'
    ||| 'A' <= c <= 'Z'
    ||| 'a' <= c <= 'z'
    ||| "!#$%&'*+-.^_`|~"@.contains(c)
}

/// `c`, or its lowercase letter where it is one of `A` to `Z`.
pub open spec fn lowercase(c: char) -> char {
    if 'A' <= c <= 'Z' {
        (c as u32 + 32) as char
    } else {
        c
    }
}

/// The name that the header `key` is kept under.
pub open spec fn key_text(key: Seq<char>) -> Seq<char> {
    key.map_values(|c: char| lowercase(c))
}

/// Whether `key` is a metadata key for text values.
pub open spec fn is_metadata_key(key: Seq<char>) -> bool {
    &&& 1 <= key.len() <= 65535
    &&& forall|i: int| 0 <= i < key.len() ==> is_token(#[trigger] key[i])
    &&& !"-bin"@.is_suffix_of(key_text(key))
}

/// Whether `value` is a metadata value: it holds no control character but
/// tabs.
pub open spec fn is_metadata_value(value: Seq<char>) -> bool {
    forall|i: int|
        0 <= i < value.len() ==> #[trigger] value[i] == '\t' || (value[i] >= ' ' && value[i]
            != '\u{7f}')
}

/// `MetadataMap::new` of tonic: a map without keys.
#[verifier::external_body]
fn empty_metadata() -> (r: MetadataMap)
    ensures
        (metadata_entries(r) == Map::<Seq<char>, Seq<u8>>::empty()),
{
    MetadataMap::new()
}

/// `str::parse` to a `MetadataKey<Ascii>` of tonic: whether it succeeds. A key
/// has 1 to 65535 characters that may stand in a header name, and does not end
/// in `-bin`, in upper or lower case.
#[verifier::external_body]
fn key_parses(key: &str) -> (r: bool)
    ensures
        r == is_metadata_key(key@),
{
    key.parse::<MetadataKey<Ascii>>().is_ok()
}

/// `str::parse` to a `MetadataValue<Ascii>` of tonic: whether it succeeds. A
/// value has no ASCII control character but tabs; characters beyond ASCII are
/// taken.
#[verifier::external_body]
fn value_parses(value: &str) -> (r: bool)
    ensures
        r == is_metadata_value(value@),
{
    value.parse::<MetadataValue<Ascii>>().is_ok()
}

/// `MetadataMap::insert` of tonic: the key, in lowercase, gets the UTF-8 bytes
/// of the value in place of what it had. The map grows without fail while it
/// holds fewer keys than [`MAX_HEADERS`]; whether it can hold more depends on
/// how its keys hash.
#[verifier::external_body]
fn insert_metadata(map: &mut MetadataMap, key: &str, value: &str)
    requires
        is_metadata_key(key@),
        is_metadata_value(value@),
        metadata_entries(*old(map)).dom().finite(),
        metadata_entries(*old(map)).dom().len() < MAX_HEADERS,
    ensures
        metadata_entries(*final(map)) == metadata_entries(*old(map)).insert(
            key_text(key@),
            encode_utf8(value@),
        ),
{
    map.insert(
        key.parse::<MetadataKey<Ascii>>().unwrap(),
        value.parse::<MetadataValue<Ascii>>().unwrap(),
    );
}

/// Whether the header `key` among `headers` can go into the metadata.
pub open spec fn header_parses(headers: Map<Seq<char>, Seq<char>>, key: Seq<char>) -> bool {
    headers.dom().contains(key) && is_metadata_key(key) && is_metadata_value(headers[key])
}

/// Whether `entries` are exactly the headers among `headers` that can go into
/// metadata. Of headers whose keys differ in case alone, there is one.
pub open spec fn are_entries_of(
    entries: Map<Seq<char>, Seq<u8>>,
    headers: Map<Seq<char>, Seq<char>>,
) -> bool {
    &&& forall|name: Seq<char>| #[trigger]
        entries.dom().contains(name) ==> exists|key: Seq<char>| #[trigger]
            header_parses(headers, key) && key_text(key) == name && entries[name] == encode_utf8(
                headers[key],
            )
    &&& forall|key: Seq<char>| #[trigger]
        header_parses(headers, key) ==> entries.dom().contains(key_text(key))
}

/// Whether `metadata` holds exactly the headers among `headers` that can go
/// into it. Of headers whose keys differ in case alone, it holds one.
pub open spec fn is_metadata_of(
    metadata: tonic::metadata::MetadataMap,
    headers: Map<Seq<char>, Seq<char>>,
) -> bool {
    are_entries_of(metadata_entries(metadata), headers)
}

/// Whether `keys` are the keys among `headers` that cannot go into metadata,
/// each once.
pub open spec fn are_unparseable(keys: Seq<String>, headers: Map<Seq<char>, Seq<char>>) -> bool {
    &&& forall|i: int|
        0 <= i < keys.len() ==> headers.dom().contains((#[trigger] keys[i])@) && !header_parses(
            headers,
            keys[i]@,
        )
    &&& forall|key: Seq<char>| #[trigger]
        headers.dom().contains(key) && !header_parses(headers, key) ==> exists|i: int|
            0 <= i < keys.len() && (#[trigger] keys[i])@ == key
    &&& forall|i: int, j: int|
        0 <= i < j < keys.len() ==> (#[trigger] keys[i])@ != (#[trigger] keys[j])@
}

/// Converts headers into gRPC request metadata. A header whose key or value
/// does not parse is skipped. Of headers whose keys differ in case alone, one
/// stays.
pub fn build_tonic_metadata(headers: &KvMap) -> (r: MetadataMap)
    requires
        headers@.dom().len() <= MAX_HEADERS,
    ensures
        is_metadata_of(r, headers@),
        metadata_entries(r).dom().finite(),
        metadata_entries(r).dom().len() <= headers@.dom().len(),
{
    let entries = headers.entries();
    let mut metadata = empty_metadata();
    let mut i: usize = 0;
    proof {
        crate::kv::lemma_pairs_len(entries@);
    }
    while i < entries.len()
        invariant
            i <= entries@.len() <= MAX_HEADERS,
            distinct_keys(entries@),
            pairs_map(entries@) == headers@,
            metadata_entries(metadata).dom().finite(),
            metadata_entries(metadata).dom().len() <= i,
            forall|name: Seq<char>| #[trigger]
                metadata_entries(metadata).dom().contains(name) ==> exists|key: Seq<char>|
                    #[trigger] header_parses(headers@, key) && key_text(key) == name
                        && metadata_entries(metadata)[name] == encode_utf8(headers@[key]),
            forall|j: int|
                0 <= j < i && header_parses(headers@, (#[trigger] entries@[j]).0@)
                    ==> metadata_entries(metadata).dom().contains(key_text(entries@[j].0@)),
        decreases entries@.len() - i,
    {
        proof {
            lemma_pairs_present(entries@, i as int);
        }
        let key = entries[i].0.as_str();
        let value = entries[i].1.as_str();
        if key_parses(key) && value_parses(value) {
            assert(header_parses(headers@, key@));
            insert_metadata(&mut metadata, key, value);
        }
        i += 1;
    }
    assert forall|key: Seq<char>| #[trigger] header_parses(headers@, key) implies metadata_entries(
        metadata,
    ).dom().contains(key_text(key)) by {
        lemma_key_has_pair(entries@, key);
        let j = choose|j: int| 0 <= j < entries@.len() && (#[trigger] entries@[j]).0@ == key;
        assert(header_parses(headers@, entries@[j].0@));
    }
    metadata
}

proof fn lemma_key_has_pair(pairs: Seq<(String, String)>, key: Seq<char>)
    requires
        pairs_map(pairs).dom().contains(key),
    ensures
        exists|j: int| 0 <= j < pairs.len() && (#[trigger] pairs[j]).0@ == key,
{
    if forall|j: int| 0 <= j < pairs.len() ==> (#[trigger] pairs[j]).0@ != key {
        lemma_pairs_absent(pairs, key);
    }
}

/// The keys of the headers that [`build_tonic_metadata`] skips.
pub fn unparseable_headers(headers: &KvMap) -> (r: Vec<String>)
    ensures
        are_unparseable(r@, headers@),
{
    let entries = headers.entries();
    let mut skipped: Vec<String> = Vec::new();
    let mut i: usize = 0;
    while i < entries.len()
        invariant
            i <= entries@.len(),
            distinct_keys(entries@),
            pairs_map(entries@) == headers@,
            forall|n: int|
                0 <= n < skipped@.len() ==> headers@.dom().contains((#[trigger] skipped@[n])@)
                    && !header_parses(headers@, skipped@[n]@),
            forall|n: int|
                0 <= n < skipped@.len() ==> exists|j: int|
                    0 <= j < i && (#[trigger] entries@[j]).0@ == (#[trigger] skipped@[n])@,
            forall|j: int|
                0 <= j < i && !header_parses(headers@, (#[trigger] entries@[j]).0@) ==> exists|n: int|
                    0 <= n < skipped@.len() && (#[trigger] skipped@[n])@ == entries@[j].0@,
            forall|m: int, n: int|
                0 <= m < n < skipped@.len() ==> (#[trigger] skipped@[m])@ != (#[trigger]
                skipped@[n])@,
        decreases entries@.len() - i,
    {
        proof {
            lemma_pairs_present(entries@, i as int);
        }
        let key = entries[i].0.as_str();
        let value = entries[i].1.as_str();
        if !(key_parses(key) && value_parses(value)) {
            let ghost before = skipped@;
            skipped.push(key.to_owned());
            assert(skipped@[before.len() as int]@ == entries@[i as int].0@);
            assert forall|n: int| 0 <= n < before.len() implies (#[trigger] skipped@[n])@
                != key@ by {
                assert(skipped@[n] == before[n]);
            }
            assert forall|j: int|
                0 <= j < i && !header_parses(headers@, (#[trigger] entries@[j]).0@) implies exists|n: int|
                    0 <= n < skipped@.len() && (#[trigger] skipped@[n])@ == entries@[j].0@ by {
                let n = choose|n: int| 0 <= n < before.len() && (#[trigger] before[n])@ == entries@[j].0@;
                assert(skipped@[n] == before[n]);
            }
        }
        i += 1;
    }
    assert forall|key: Seq<char>| #[trigger]
        headers@.dom().contains(key) && !header_parses(headers@, key) implies exists|n: int|
        0 <= n < skipped@.len() && (#[trigger] skipped@[n])@ == key by {
        lemma_key_has_pair(entries@, key);
    }
    skipped
}

/// A header name is kept in lowercase: each of `A` to `Z` becomes its lowercase
/// letter, and every other character stays.
pub proof fn law_names_are_lowercase(key: Seq<char>)
    ensures
        key_text(key).len() == key.len(),
        forall|i: int|
            0 <= i < key.len() ==> (#[trigger] key_text(key)[i]) as int == if 'A' <= key[i] <= 'Z' {
                key[i] as int + 32
            } else {
                key[i] as int
            },
{
}

proof fn lemma_marks(c: char)
    ensures
        "!#$%&'*+-.^_`|~"@.contains(c) <==> (c == '!'
            || c == '#'
            || c == '$'
            || c == '%'
            || c == '&'
            || c == '\''
            || c == '*'
            || c == '+'
            || c == '-'
            || c == '.'
            || c == '^'
            || c == '_'
            || c == '`'
            || c == '|'
            || c == '~'),
{
    reveal_strlit("!#$%&'*+-.^_`|~");
    let marks = "!#$%&'*+-.^_`|~"@;
    assert(marks[0] == '!');
    assert(marks[1] == '#');
    assert(marks[2] == '$');
    assert(marks[3] == '%');
    assert(marks[4] == '&');
    assert(marks[5] == '\'');
    assert(marks[6] == '*');
    assert(marks[7] == '+');
    assert(marks[8] == '-');
    assert(marks[9] == '.');
    assert(marks[10] == '^');
    assert(marks[11] == '_');
    assert(marks[12] == '`');
    assert(marks[13] == '|');
    assert(marks[14] == '~');
}

/// A header key can be a metadata key if and only if it has 1 to 65535
/// characters, each a digit, an ASCII letter or one of the marks of a header
/// name, and does not end in `-bin`, be it in upper or lower case.
pub proof fn law_metadata_keys(key: Seq<char>)
    ensures
        ({
            let n = key.len() as int;
            let allowed = forall|i: int|
                0 <= i < n ==> {
                    let c = #[trigger] key[i];
                    '0' <= c <= '9' || 'A' <= c <= 'Z' || 'a' <= c <= 'z' || (c == '!'
            || c == '#'
            || c == '$'
            || c == '%'
            || c == '&'
            || c == '\''
            || c == '*'
            || c == '+'
            || c == '-'
            || c == '.'
            || c == '^'
            || c == '_'
            || c == '`'
            || c == '|'
            || c == '~')
                };
            let binary = n >= 4 && key[n - 4] == '-' && (key[n - 3] == 'b' || key[n - 3] == 'B') && (
            key[n - 2] == 'i' || key[n - 2] == 'I') && (key[n - 1] == 'n' || key[n - 1] == 'N');
            is_metadata_key(key) <==> 1 <= n <= 65535 && allowed && !binary
        }),
{
    reveal_strlit("-bin");
    assert forall|c: char| #[trigger] is_token(c) <==> '0' <= c <= '9' || 'A' <= c <= 'Z' || 'a' <= c
        <= 'z' || (c == '!'
            || c == '#'
            || c == '$'
            || c == '%'
            || c == '&'
            || c == '\''
            || c == '*'
            || c == '+'
            || c == '-'
            || c == '.'
            || c == '^'
            || c == '_'
            || c == '`'
            || c == '|'
            || c == '~') by {
        lemma_marks(c);
    }
    let n = key.len() as int;
    let text = key_text(key);
    if n >= 4 {
        let tail = text.subrange(n - 4, n);
        assert(tail[0] == lowercase(key[n - 4]));
        assert(tail[1] == lowercase(key[n - 3]));
        assert(tail[2] == lowercase(key[n - 2]));
        assert(tail[3] == lowercase(key[n - 1]));
        let binary = key[n - 4] == '-' && (key[n - 3] == 'b' || key[n - 3] == 'B') && (key[n - 2]
            == 'i' || key[n - 2] == 'I') && (key[n - 1] == 'n' || key[n - 1] == 'N');
        if binary {
            assert(tail =~= "-bin"@);
        }
        if tail =~= "-bin"@ {
            assert("-bin"@[0] == '-' && "-bin"@[1] == 'b' && "-bin"@[2] == 'i' && "-bin"@[3] == 'n');
        }
    }
}

/// Every header whose key and value can be metadata is sent, under its name in
/// lowercase, and nothing else is. What is sent is the UTF-8 text of the value
/// of a header of that name; where no other header has the name, it is that
/// header's.
pub proof fn law_headers_are_sent(
    entries: Map<Seq<char>, Seq<u8>>,
    headers: Map<Seq<char>, Seq<char>>,
    key: Seq<char>,
    name: Seq<char>,
)
    requires
        are_entries_of(entries, headers),
    ensures
        headers.dom().contains(key) && is_metadata_key(key) && is_metadata_value(headers[key])
            ==> entries.dom().contains(key_text(key)),
        headers.dom().contains(key) && is_metadata_key(key) && is_metadata_value(headers[key]) && (
        forall|other: Seq<char>| #[trigger]
            headers.dom().contains(other) && key_text(other) == key_text(key) ==> other == key)
            ==> entries[key_text(key)] == encode_utf8(headers[key]),
        entries.dom().contains(name) ==> exists|from: Seq<char>| #[trigger]
            headers.dom().contains(from) && is_metadata_key(from) && is_metadata_value(
                headers[from],
            ) && key_text(from) == name && entries[name] == encode_utf8(headers[from]),
{
    if headers.dom().contains(key) && is_metadata_key(key) && is_metadata_value(headers[key]) {
        assert(header_parses(headers, key));
        assert(entries.dom().contains(key_text(key)));
        let from = choose|from: Seq<char>| #[trigger]
            header_parses(headers, from) && key_text(from) == key_text(key) && entries[key_text(key)]
                == encode_utf8(headers[from]);
        assert(headers.dom().contains(from));
    }
    if entries.dom().contains(name) {
        let from = choose|from: Seq<char>| #[trigger]
            header_parses(headers, from) && key_text(from) == name && entries[name] == encode_utf8(
                headers[from],
            );
        assert(headers.dom().contains(from));
    }
}

/// The headers that are left out are those whose key or value cannot be
/// metadata, each told once.
pub proof fn law_skipped_headers(
    keys: Seq<String>,
    headers: Map<Seq<char>, Seq<char>>,
    key: Seq<char>,
)
    requires
        are_unparseable(keys, headers),
    ensures
        (exists|i: int| 0 <= i < keys.len() && (#[trigger] keys[i])@ == key) <==> headers.dom().contains(
            key,
        ) && (!is_metadata_key(key) || !is_metadata_value(headers[key])),
        forall|i: int, j: int|
            0 <= i < keys.len() && 0 <= j < keys.len() && (#[trigger] keys[i])@ == key && (
            #[trigger] keys[j])@ == key ==> i == j,
{
    if headers.dom().contains(key) && !header_parses(headers, key) {
        assert(exists|i: int| 0 <= i < keys.len() && (#[trigger] keys[i])@ == key);
    }
}

/// A value can be metadata if and only if it holds no ASCII control character
/// but tabs.
pub proof fn law_metadata_values(value: Seq<char>)
    ensures
        is_metadata_value(value) <==> !exists|i: int|
            0 <= i < value.len() && {
                let c = (#[trigger] value[i]) as int;
                (c < 0x20 || c == 0x7f) && c != 0x9
            },
{
}

} // verus!
