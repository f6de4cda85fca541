//! Lists of the form `key1=value1,key2=value2`.

use crate::text::{
    is_blank, is_white_space, law_trimmed_blank, law_trimmed_cuts, law_trimmed_padding,
    split_at_first, split_once, str_eq, trim_end, trim_start, trimmed,
};
use vstd::prelude::*;
use vstd::string::*;

verus! {

/// What `pairs` map their keys to; a later pair counts before an earlier one.
pub open spec fn pairs_map(pairs: Seq<(String, String)>) -> Map<Seq<char>, Seq<char>>
    decreases pairs.len(),
{
    if pairs.len() == 0 {
        Map::empty()
    } else {
        pairs_map(pairs.drop_last()).insert(pairs.last().0@, pairs.last().1@)
    }
}

/// Whether no key occurs twice in `pairs`.
pub open spec fn distinct_keys(pairs: Seq<(String, String)>) -> bool {
    forall|i: int, j: int|
        0 <= i < j < pairs.len() ==> (#[trigger] pairs[i]).0@ != (#[trigger] pairs[j]).0@
}

/// A key that no pair has is not mapped.
pub proof fn lemma_pairs_absent(pairs: Seq<(String, String)>, key: Seq<char>)
    requires
        forall|i: int| 0 <= i < pairs.len() ==> (#[trigger] pairs[i]).0@ != key,
    ensures
        !pairs_map(pairs).dom().contains(key),
    decreases pairs.len(),
{
    if pairs.len() > 0 {
        assert forall|i: int| 0 <= i < pairs.drop_last().len() implies (
        #[trigger] pairs.drop_last()[i]).0@ != key by {
            assert(pairs.drop_last()[i] == pairs[i]);
        }
        lemma_pairs_absent(pairs.drop_last(), key);
    }
}

/// In a list without a repeated key, each pair counts.
pub proof fn lemma_pairs_present(pairs: Seq<(String, String)>, i: int)
    requires
        distinct_keys(pairs),
        0 <= i < pairs.len(),
    ensures
        pairs_map(pairs).dom().contains(pairs[i].0@),
        pairs_map(pairs)[pairs[i].0@] == pairs[i].1@,
    decreases pairs.len(),
{
    if i < pairs.len() - 1 {
        assert(pairs.drop_last()[i] == pairs[i]);
        lemma_pairs_present(pairs.drop_last(), i);
    }
}

/// A list without a repeated key maps as many keys as it has pairs.
pub proof fn lemma_pairs_len(pairs: Seq<(String, String)>)
    requires
        distinct_keys(pairs),
    ensures
        pairs_map(pairs).dom().finite(),
        pairs_map(pairs).dom().len() == pairs.len(),
    decreases pairs.len(),
{
    if pairs.len() > 0 {
        let front = pairs.drop_last();
        lemma_pairs_len(front);
        assert forall|i: int| 0 <= i < front.len() implies (#[trigger] front[i]).0@
            != pairs.last().0@ by {
            assert(front[i] == pairs[i]);
        }
        lemma_pairs_absent(front, pairs.last().0@);
        assert(pairs_map(pairs).dom() =~= pairs_map(front).dom().insert(pairs.last().0@));
    }
}

proof fn lemma_pairs_update(pairs: Seq<(String, String)>, i: int, pair: (String, String))
    requires
        distinct_keys(pairs),
        0 <= i < pairs.len(),
        pairs[i].0@ == pair.0@,
    ensures
        pairs_map(pairs.update(i, pair)) == pairs_map(pairs).insert(pair.0@, pair.1@),
    decreases pairs.len(),
{
    let front = pairs.drop_last();
    if i == pairs.len() - 1 {
        assert(pairs.update(i, pair).drop_last() =~= front);
    } else {
        assert(pairs.update(i, pair).drop_last() =~= front.update(i, pair));
        assert(front[i] == pairs[i]);
        lemma_pairs_update(front, i, pair);
    }
    assert(pairs_map(pairs.update(i, pair)) =~= pairs_map(pairs).insert(pair.0@, pair.1@));
}

/// A map from strings to strings that keeps the order in which its keys first
/// came.
pub struct KvMap {
    entries: Vec<(String, String)>,
}

impl View for KvMap {
    type V = Map<Seq<char>, Seq<char>>;

    closed spec fn view(&self) -> Map<Seq<char>, Seq<char>> {
        pairs_map(self.entries@)
    }
}

impl KvMap {
    #[verifier::type_invariant]
    spec fn inv(self) -> bool {
        distinct_keys(self.entries@)
    }

    /// A map without keys.
    pub fn new() -> (r: KvMap)
        ensures
            (r@ == Map::<Seq<char>, Seq<char>>::empty()),
    {
        KvMap { entries: Vec::new() }
    }

    /// The index of the entry with the key `key`.
    fn position(&self, key: &str) -> (r: Option<usize>)
        ensures
            match r {
                Some(i) => i < self.entries@.len() && self.entries@[i as int].0@ == key@,
                None => forall|i: int|
                    0 <= i < self.entries@.len() ==> (#[trigger] self.entries@[i]).0@ != key@,
            },
    {
        let mut i: usize = 0;
        while i < self.entries.len()
            invariant
                i <= self.entries@.len(),
                forall|j: int| 0 <= j < i ==> (#[trigger] self.entries@[j]).0@ != key@,
            decreases self.entries@.len() - i,
        {
            if str_eq(self.entries[i].0.as_str(), key) {
                return Some(i);
            }
            i += 1;
        }
        None
    }

    /// Maps `key` to `value`, whatever it was mapped to before.
    pub fn insert(&mut self, key: String, value: String)
        ensures
            final(self)@ == old(self)@.insert(key@, value@),
    {
        proof {
            use_type_invariant(&*self);
        }
        let place = self.position(key.as_str());
        let mut entries: Vec<(String, String)> = Vec::new();
        std::mem::swap(&mut entries, &mut self.entries);
        let ghost before = entries@;
        match place {
            Some(i) => {
                proof {
                    lemma_pairs_update(before, i as int, (key, value));
                }
                entries.set(i, (key, value));
            },
            None => {
                entries.push((key, value));
                assert(entries@.drop_last() =~= before);
            },
        }
        self.entries = entries;
    }

    /// The value of `key`.
    pub fn get(&self, key: &str) -> (r: Option<&String>)
        ensures
            match r {
                Some(value) => self@.dom().contains(key@) && value@ == self@[key@],
                None => !self@.dom().contains(key@),
            },
    {
        proof {
            use_type_invariant(self);
        }
        match self.position(key) {
            Some(i) => {
                proof {
                    lemma_pairs_present(self.entries@, i as int);
                }
                Some(&self.entries[i].1)
            },
            None => {
                proof {
                    lemma_pairs_absent(self.entries@, key@);
                }
                None
            },
        }
    }

    /// Whether `key` is mapped.
    pub fn contains_key(&self, key: &str) -> (r: bool)
        ensures
            r == self@.dom().contains(key@),
    {
        self.get(key).is_some()
    }

    /// How many keys are mapped.
    pub fn len(&self) -> (r: usize)
        ensures
            self@.dom().finite(),
            r == self@.dom().len(),
    {
        proof {
            use_type_invariant(self);
            lemma_pairs_len(self.entries@);
        }
        self.entries.len()
    }

    /// Whether no key is mapped.
    pub fn is_empty(&self) -> (r: bool)
        ensures
            r == (self@ =~= Map::<Seq<char>, Seq<char>>::empty()),
    {
        proof {
            use_type_invariant(self);
            lemma_pairs_len(self.entries@);
            if self.entries@.len() > 0 {
                lemma_pairs_present(self.entries@, 0);
            }
        }
        self.entries.len() == 0
    }

    /// The keys and values, in the order in which the keys first came.
    pub fn entries(&self) -> (r: &Vec<(String, String)>)
        ensures
            distinct_keys(r@),
            pairs_map(r@) == self@,
    {
        proof {
            use_type_invariant(self);
        }
        &self.entries
    }

    /// The keys and values, in the order in which the keys first came.
    pub fn into_entries(self) -> (r: Vec<(String, String)>)
        ensures
            distinct_keys(r@),
            pairs_map(r@) == self@,
    {
        proof {
            use_type_invariant(&self);
        }
        self.entries
    }
}

/// The pieces of `s` between the characters `c`.
pub open spec fn pieces(s: Seq<char>, c: char) -> Seq<Seq<char>>
    decreases s.len(),
{
    if s.len() == 0 {
        seq![s]
    } else {
        let rest = pieces(s.drop_first(), c);
        if s[0] == c {
            seq![Seq::empty()] + rest
        } else {
            rest.update(0, seq![s[0]] + rest[0])
        }
    }
}

/// The key and value that `piece` holds, if it has an `=` with a key before
/// it.
pub open spec fn pair_in(piece: Seq<char>) -> Option<(Seq<char>, Seq<char>)> {
    match split_at_first(trimmed(piece), '=') {
        Some((key, value)) => if trimmed(key).len() == 0 {
            None
        } else {
            Some((trimmed(key), trimmed(value)))
        },
        None => None,
    }
}

/// `map` with the pair of each of `list` put in, the first one first.
pub open spec fn with_pieces(
    map: Map<Seq<char>, Seq<char>>,
    list: Seq<Seq<char>>,
) -> Map<Seq<char>, Seq<char>>
    decreases list.len(),
{
    if list.len() == 0 {
        map
    } else {
        let next = match pair_in(list[0]) {
            Some((key, value)) => map.insert(key, value),
            None => map,
        };
        with_pieces(next, list.drop_first())
    }
}

/// What the list `value` maps keys to.
pub open spec fn kv_list(value: Option<Seq<char>>) -> Map<Seq<char>, Seq<char>> {
    match value {
        Some(s) => with_pieces(Map::empty(), pieces(s, ',')),
        None => Map::empty(),
    }
}

proof fn lemma_pieces_nonempty(s: Seq<char>, c: char)
    ensures
        pieces(s, c).len() > 0,
    decreases s.len(),
{
    if s.len() > 0 {
        lemma_pieces_nonempty(s.drop_first(), c);
    }
}

proof fn lemma_pieces_one(s: Seq<char>, c: char)
    requires
        !s.contains(c),
    ensures
        pieces(s, c) == seq![s],
    decreases s.len(),
{
    if s.len() > 0 {
        assert(s.contains(s[0]));
        assert forall|x: char| s.drop_first().contains(x) implies s.contains(x) by {
            let i = choose|i: int| 0 <= i < s.drop_first().len() && s.drop_first()[i] == x;
            assert(s[i + 1] == x);
        }
        lemma_pieces_one(s.drop_first(), c);
        assert(seq![s[0]] + s.drop_first() =~= s);
        assert(pieces(s, c) =~= seq![s]);
    }
}

/// The pieces of two texts with `c` between them are the pieces of the one and
/// those of the other.
pub proof fn law_pieces_concat(a: Seq<char>, b: Seq<char>, c: char)
    ensures
        pieces(a + seq![c] + b, c) == pieces(a, c) + pieces(b, c),
    decreases a.len(),
{
    let s = a + seq![c] + b;
    lemma_pieces_nonempty(a, c);
    if a.len() == 0 {
        assert(s.drop_first() =~= b);
        assert(a =~= Seq::empty());
        assert(pieces(s, c) =~= pieces(a, c) + pieces(b, c));
    } else {
        assert(s.drop_first() =~= a.drop_first() + seq![c] + b);
        law_pieces_concat(a.drop_first(), b, c);
        lemma_pieces_nonempty(a.drop_first(), c);
        let rest = pieces(s.drop_first(), c);
        assert(s[0] == a[0]);
        assert(rest[0] == pieces(a.drop_first(), c)[0]);
        assert(pieces(s, c) =~= pieces(a, c) + pieces(b, c));
    }
}

proof fn lemma_split_at_first(s: Seq<char>, c: char)
    ensures
        match split_at_first(s, c) {
            Some((a, b)) => s == a + seq![c] + b && !a.contains(c) && b.len() < s.len(),
            None => !s.contains(c),
        },
{
    if s.contains(c) {
        s.index_of_first_ensures(c);
        let i = s.index_of_first(c)->0;
        assert(s =~= s.take(i) + seq![c] + s.skip(i + 1));
        assert forall|j: int| 0 <= j < s.take(i).len() implies s.take(i)[j] != c by {
            assert(s.take(i)[j] == s[j]);
        }
    }
}

/// Parses the `key1=value1,key2=value2` shape: pieces between commas, each
/// split at its first `=` and trimmed. A piece without `=`, or without a key
/// before it, is skipped, and the last value of a key counts.
pub fn parse_kv_list(value: Option<&str>) -> (r: KvMap)
    ensures
        r@ == kv_list(
            match value {
                Some(s) => Some(s@),
                None => None,
            },
        ),
{
    let mut out = KvMap::new();
    let mut rest: &str = match value {
        Some(s) => s,
        None => return out,
    };
    let ghost goal = kv_list(Some(rest@));
    loop
        invariant
            goal == with_pieces(out@, pieces(rest@, ',')),
        ensures
            goal == out@,
        decreases rest@.len(),
    {
        proof {
            lemma_split_at_first(rest@, ',');
        }
        match split_once(rest, ',') {
            Some((piece, tail)) => {
                proof {
                    lemma_pieces_one(piece@, ',');
                    law_pieces_concat(piece@, tail@, ',');
                    let list = pieces(rest@, ',');
                    assert(list[0] == piece@);
                    assert(list.drop_first() =~= pieces(tail@, ','));
                }
                insert_pair(&mut out, piece);
                rest = tail;
            },
            None => {
                proof {
                    lemma_pieces_one(rest@, ',');
                    let list = pieces(rest@, ',');
                    assert(list[0] == rest@);
                    assert(list.drop_first() =~= Seq::empty());
                    reveal_with_fuel(with_pieces, 2);
                }
                insert_pair(&mut out, rest);
                break ;
            },
        }
    }
    out
}

/// Puts the pair that `piece` holds, if any, into `out`.
fn insert_pair(out: &mut KvMap, piece: &str)
    ensures
        final(out)@ == match pair_in(piece@) {
            Some((key, value)) => old(out)@.insert(key, value),
            None => old(out)@,
        },
{
    let pair = piece.trim();
    match split_once(pair, '=') {
        Some((key, value)) => {
            let key = key.trim();
            if !key.is_empty() {
                out.insert(key.to_owned(), value.trim().to_owned());
            }
        },
        None => {},
    }
}

proof fn lemma_with_pieces_concat(
    map: Map<Seq<char>, Seq<char>>,
    a: Seq<Seq<char>>,
    b: Seq<Seq<char>>,
)
    ensures
        with_pieces(map, a + b) == with_pieces(with_pieces(map, a), b),
    decreases a.len(),
{
    if a.len() == 0 {
        assert(a + b =~= b);
    } else {
        assert((a + b).drop_first() =~= a.drop_first() + b);
        let next = match pair_in(a[0]) {
            Some((key, value)) => map.insert(key, value),
            None => map,
        };
        lemma_with_pieces_concat(next, a.drop_first(), b);
    }
}

proof fn lemma_with_pieces_union(map: Map<Seq<char>, Seq<char>>, list: Seq<Seq<char>>)
    ensures
        with_pieces(map, list) == map.union_prefer_right(with_pieces(Map::empty(), list)),
    decreases list.len(),
{
    let none: Map<Seq<char>, Seq<char>> = Map::empty();
    if list.len() == 0 {
        assert(map.union_prefer_right(none) =~= map);
    } else {
        match pair_in(list[0]) {
            Some((key, value)) => {
                lemma_with_pieces_union(map.insert(key, value), list.drop_first());
                lemma_with_pieces_union(none.insert(key, value), list.drop_first());
                let rest = with_pieces(none, list.drop_first());
                assert(map.insert(key, value).union_prefer_right(rest)
                    =~= map.union_prefer_right(none.insert(key, value).union_prefer_right(rest)));
            },
            None => {
                lemma_with_pieces_union(map, list.drop_first());
            },
        }
    }
}

/// Two lists with a comma between them make one list, in which the second
/// overrides the first.
pub proof fn law_lists_concatenate(a: Seq<char>, b: Seq<char>)
    ensures
        kv_list(Some(a + seq![','] + b)) == kv_list(Some(a)).union_prefer_right(kv_list(Some(b))),
{
    law_pieces_concat(a, b, ',');
    lemma_with_pieces_concat(Map::empty(), pieces(a, ','), pieces(b, ','));
    lemma_with_pieces_union(kv_list(Some(a)), pieces(b, ','));
}

proof fn lemma_trim_len(s: Seq<char>)
    ensures
        trim_start(s).len() <= s.len(),
        trim_end(s).len() <= s.len(),
    decreases s.len(),
{
    if s.len() > 0 {
        lemma_trim_len(s.drop_first());
        lemma_trim_len(s.drop_last());
    }
}

proof fn lemma_trimmed_ends(s: Seq<char>)
    requires
        s.len() > 0,
    ensures
        trimmed(s) == s <==> !is_white_space(s[0]) && !is_white_space(s.last()),
{
    lemma_trim_len(s.drop_first());
    lemma_trim_len(trim_start(s));
    if is_white_space(s[0]) {
        assert(trimmed(s).len() < s.len());
    } else if is_white_space(s.last()) {
        lemma_trim_len(s.drop_last());
        assert(trimmed(s).len() < s.len());
    }
}

/// A pair in a list is split at its first `=` alone: a value that holds `=`
/// itself comes through as it is.
pub proof fn law_value_survives(key: Seq<char>, value: Seq<char>)
    requires
        key.len() > 0,
        !key.contains('='),
        !key.contains(','),
        !value.contains(','),
        trimmed(key) == key,
        trimmed(value) == value,
    ensures
        kv_list(Some(key + seq!['='] + value)) == Map::<Seq<char>, Seq<char>>::empty().insert(
            key,
            value,
        ),
{
    let s = key + seq!['='] + value;
    assert forall|i: int| 0 <= i < s.len() implies s[i] != ',' by {
        if i < key.len() {
            assert(key.contains(s[i]));
        } else if i > key.len() {
            assert(value[i - key.len() - 1] == s[i]);
            assert(value.contains(s[i]));
        }
    }
    lemma_pieces_one(s, ',');
    lemma_trimmed_ends(key);
    if value.len() > 0 {
        lemma_trimmed_ends(value);
    }
    assert(s[0] == key[0]);
    assert(s.last() == if value.len() > 0 { value.last() } else { '=' });
    lemma_trimmed_ends(s);
    assert(s[key.len() as int] == '=');
    assert(s.contains('='));
    s.index_of_first_ensures('=');
    let i = s.index_of_first('=')->0;
    if i < key.len() {
        assert(key[i] == s[i]);
        assert(key.contains('='));
    }
    assert(i == key.len());
    assert(s.take(i) =~= key);
    assert(s.skip(i + 1) =~= value);
    reveal_with_fuel(with_pieces, 2);
    assert(pieces(s, ',').drop_first() =~= Seq::empty());
}

/// Whether `key` can stand before the `=` of a pair as it is.
pub open spec fn is_plain_key(key: Seq<char>) -> bool {
    &&& key.len() > 0
    &&& !key.contains('=')
    &&& !key.contains(',')
    &&& trimmed(key) == key
}

/// Whether `value` can stand behind the `=` of a pair as it is.
pub open spec fn is_plain_value(value: Seq<char>) -> bool {
    &&& !value.contains(',')
    &&& trimmed(value) == value
}

/// Whether all keys and values of `map` are plain.
pub open spec fn is_plain(map: Map<Seq<char>, Seq<char>>) -> bool {
    forall|key: Seq<char>| #[trigger]
        map.dom().contains(key) ==> is_plain_key(key) && is_plain_value(map[key])
}

/// `pairs` written as a list.
pub open spec fn written(pairs: Seq<(Seq<char>, Seq<char>)>) -> Seq<char>
    decreases pairs.len(),
{
    if pairs.len() == 0 {
        Seq::empty()
    } else {
        let (key, value) = pairs.last();
        let pair = key + seq!['='] + value;
        if pairs.len() == 1 {
            pair
        } else {
            written(pairs.drop_last()) + seq![','] + pair
        }
    }
}

/// What `pairs` map their keys to; a later pair counts before an earlier one.
pub open spec fn texts_map(pairs: Seq<(Seq<char>, Seq<char>)>) -> Map<Seq<char>, Seq<char>>
    decreases pairs.len(),
{
    if pairs.len() == 0 {
        Map::empty()
    } else {
        texts_map(pairs.drop_last()).insert(pairs.last().0, pairs.last().1)
    }
}

proof fn lemma_trim_start(s: Seq<char>)
    ensures
        trim_start(s).len() > 0 ==> !is_white_space(trim_start(s)[0]),
        forall|c: char| #[trigger] trim_start(s).contains(c) ==> s.contains(c),
    decreases s.len(),
{
    if s.len() > 0 && is_white_space(s[0]) {
        lemma_trim_start(s.drop_first());
        assert forall|c: char| #[trigger] trim_start(s).contains(c) implies s.contains(c) by {
            assert(s.drop_first().contains(c));
            let i = choose|i: int| 0 <= i < s.drop_first().len() && s.drop_first()[i] == c;
            assert(s[i + 1] == c);
        }
    }
}

proof fn lemma_trim_end(s: Seq<char>)
    ensures
        trim_end(s).len() > 0 ==> !is_white_space(trim_end(s).last()) && trim_end(s)[0] == s[0],
        trim_end(s).len() <= s.len(),
        forall|c: char| #[trigger] trim_end(s).contains(c) ==> s.contains(c),
    decreases s.len(),
{
    if s.len() > 0 && is_white_space(s.last()) {
        lemma_trim_end(s.drop_last());
        assert forall|c: char| #[trigger] trim_end(s).contains(c) implies s.contains(c) by {
            assert(s.drop_last().contains(c));
            let i = choose|i: int| 0 <= i < s.drop_last().len() && s.drop_last()[i] == c;
            assert(s[i] == c);
        }
    }
}

/// Trimming adds no character, and trimming twice is trimming once.
pub proof fn lemma_trimmed(s: Seq<char>)
    ensures
        trimmed(trimmed(s)) == trimmed(s),
        forall|c: char| #[trigger] trimmed(s).contains(c) ==> s.contains(c),
{
    let t = trim_start(s);
    lemma_trim_start(s);
    lemma_trim_end(t);
    if trimmed(s).len() > 0 {
        lemma_trimmed_ends(trimmed(s));
    }
}

proof fn lemma_pieces_hold_no_separator(s: Seq<char>, c: char)
    ensures
        forall|i: int| 0 <= i < pieces(s, c).len() ==> !(#[trigger] pieces(s, c)[i]).contains(c),
    decreases s.len(),
{
    if s.len() > 0 {
        let rest = pieces(s.drop_first(), c);
        lemma_pieces_hold_no_separator(s.drop_first(), c);
        lemma_pieces_nonempty(s.drop_first(), c);
        assert forall|i: int| 0 <= i < pieces(s, c).len() implies !(#[trigger] pieces(
            s,
            c,
        )[i]).contains(c) by {
            if s[0] == c {
                if i > 0 {
                    assert(pieces(s, c)[i] == rest[i - 1]);
                }
            } else if i == 0 {
                let first = seq![s[0]] + rest[0];
                assert(pieces(s, c)[0] == first);
                if first.contains(c) {
                    let j = choose|j: int| 0 <= j < first.len() && first[j] == c;
                    assert(rest[0][j - 1] == c);
                    assert(rest[0].contains(c));
                }
            } else {
                assert(pieces(s, c)[i] == rest[i]);
            }
        }
    }
}

proof fn lemma_pair_is_plain(piece: Seq<char>)
    requires
        !piece.contains(','),
    ensures
        pair_in(piece) matches Some((key, value)) ==> is_plain_key(key) && is_plain_value(value),
{
    let s = trimmed(piece);
    lemma_trimmed(piece);
    lemma_split_at_first(s, '=');
    match split_at_first(s, '=') {
        Some((key, value)) => {
            assert forall|c: char| key.contains(c) || value.contains(c) implies s.contains(c) by {
                if key.contains(c) {
                    let i = choose|i: int| 0 <= i < key.len() && key[i] == c;
                    assert(s[i] == c);
                } else {
                    let i = choose|i: int| 0 <= i < value.len() && value[i] == c;
                    assert(s[key.len() + 1 + i] == c);
                }
            }
            lemma_trimmed(key);
            lemma_trimmed(value);
        },
        None => {},
    }
}

proof fn lemma_with_pieces_is_plain(map: Map<Seq<char>, Seq<char>>, list: Seq<Seq<char>>)
    requires
        is_plain(map),
        forall|i: int| 0 <= i < list.len() ==> !(#[trigger] list[i]).contains(','),
    ensures
        is_plain(with_pieces(map, list)),
    decreases list.len(),
{
    if list.len() > 0 {
        lemma_pair_is_plain(list[0]);
        let next = match pair_in(list[0]) {
            Some((key, value)) => map.insert(key, value),
            None => map,
        };
        assert forall|i: int| 0 <= i < list.drop_first().len() implies !(
        #[trigger] list.drop_first()[i]).contains(',') by {
            assert(list.drop_first()[i] == list[i + 1]);
        }
        lemma_with_pieces_is_plain(next, list.drop_first());
    }
}

/// The keys of a parsed list are not empty and hold no `,` or `=`, its values
/// hold no `,`, and neither has white space at an end.
pub proof fn law_parsed_lists_are_plain(value: Option<Seq<char>>)
    ensures
        is_plain(kv_list(value)),
{
    match value {
        Some(s) => {
            lemma_pieces_hold_no_separator(s, ',');
            lemma_with_pieces_is_plain(Map::empty(), pieces(s, ','));
        },
        None => {},
    }
}

proof fn lemma_written_parses_back(pairs: Seq<(Seq<char>, Seq<char>)>)
    requires
        forall|i: int|
            0 <= i < pairs.len() ==> is_plain_key((#[trigger] pairs[i]).0) && is_plain_value(
                pairs[i].1,
            ),
    ensures
        kv_list(Some(written(pairs))) == texts_map(pairs),
    decreases pairs.len(),
{
    if pairs.len() == 0 {
        let none: Seq<char> = Seq::empty();
        lemma_pieces_one(none, ',');
        reveal_with_fuel(with_pieces, 2);
        lemma_trimmed(none);
        lemma_split_at_first(trimmed(none), '=');
        assert(pair_in(none) is None);
        assert(pieces(none, ',').drop_first() =~= Seq::empty());
    } else {
        let front = pairs.drop_last();
        let (key, value) = pairs.last();
        assert(is_plain_key(pairs[pairs.len() - 1].0));
        assert forall|i: int| 0 <= i < front.len() implies is_plain_key((#[trigger] front[i]).0)
            && is_plain_value(front[i].1) by {
            assert(front[i] == pairs[i]);
        }
        lemma_written_parses_back(front);
        law_value_survives(key, value);
        let single = Map::<Seq<char>, Seq<char>>::empty().insert(key, value);
        if pairs.len() == 1 {
            assert(front =~= Seq::empty());
            assert(texts_map(front) == Map::<Seq<char>, Seq<char>>::empty());
        } else {
            law_lists_concatenate(written(front), key + seq!['='] + value);
            assert(texts_map(front).union_prefer_right(single) =~= texts_map(front).insert(
                key,
                value,
            ));
        }
    }
}

proof fn lemma_texts_present(pairs: Seq<(Seq<char>, Seq<char>)>, i: int)
    requires
        forall|i: int, j: int|
            0 <= i < j < pairs.len() ==> (#[trigger] pairs[i]).0 != (#[trigger] pairs[j]).0,
        0 <= i < pairs.len(),
    ensures
        texts_map(pairs).dom().contains(pairs[i].0),
        texts_map(pairs)[pairs[i].0] == pairs[i].1,
    decreases pairs.len(),
{
    if i < pairs.len() - 1 {
        let front = pairs.drop_last();
        assert(front[i] == pairs[i]);
        lemma_texts_present(front, i);
    }
}

/// A parsed list, written out again with its pairs in any order, parses to the
/// same.
pub proof fn law_written_list_parses_back(
    value: Option<Seq<char>>,
    pairs: Seq<(Seq<char>, Seq<char>)>,
)
    requires
        forall|i: int, j: int|
            0 <= i < j < pairs.len() ==> (#[trigger] pairs[i]).0 != (#[trigger] pairs[j]).0,
        texts_map(pairs) == kv_list(value),
    ensures
        kv_list(Some(written(pairs))) == kv_list(value),
{
    law_parsed_lists_are_plain(value);
    assert forall|i: int| 0 <= i < pairs.len() implies is_plain_key((#[trigger] pairs[i]).0)
        && is_plain_value(pairs[i].1) by {
        lemma_texts_present(pairs, i);
    }
    lemma_written_parses_back(pairs);
}

/// A list of pairs maps a key exactly if a pair has it, to the value of the last
/// pair that has it.
pub proof fn law_last_pair_counts(pairs: Seq<(String, String)>, key: Seq<char>)
    ensures
        pairs_map(pairs).dom().contains(key) <==> exists|i: int|
            0 <= i < pairs.len() && (#[trigger] pairs[i]).0@ == key,
        forall|i: int|
            0 <= i < pairs.len() && (#[trigger] pairs[i]).0@ == key && (forall|j: int|
                i < j < pairs.len() ==> (#[trigger] pairs[j]).0@ != key) ==> pairs_map(pairs)[key]
                == pairs[i].1@,
    decreases pairs.len(),
{
    if pairs.len() > 0 {
        let front = pairs.drop_last();
        law_last_pair_counts(front, key);
        assert forall|i: int| 0 <= i < front.len() implies #[trigger] front[i] == pairs[i] by {}
        if pairs.last().0@ == key {
            assert(pairs[pairs.len() - 1].0@ == key);
        } else {
            assert((exists|i: int| 0 <= i < pairs.len() && (#[trigger] pairs[i]).0@ == key) ==> (
            exists|i: int| 0 <= i < front.len() && (#[trigger] front[i]).0@ == key)) by {
                if exists|i: int| 0 <= i < pairs.len() && (#[trigger] pairs[i]).0@ == key {
                    let i = choose|i: int| 0 <= i < pairs.len() && (#[trigger] pairs[i]).0@ == key;
                    assert(front[i].0@ == key);
                }
            }
            assert((exists|i: int| 0 <= i < front.len() && (#[trigger] front[i]).0@ == key) ==> (
            exists|i: int| 0 <= i < pairs.len() && (#[trigger] pairs[i]).0@ == key)) by {
                if exists|i: int| 0 <= i < front.len() && (#[trigger] front[i]).0@ == key {
                    let i = choose|i: int| 0 <= i < front.len() && (#[trigger] front[i]).0@ == key;
                    assert(pairs[i].0@ == key);
                }
            }
        }
        assert forall|i: int|
            0 <= i < pairs.len() && (#[trigger] pairs[i]).0@ == key && (forall|j: int|
                i < j < pairs.len() ==> (#[trigger] pairs[j]).0@ != key) implies pairs_map(
            pairs,
        )[key] == pairs[i].1@ by {
            if i < pairs.len() - 1 {
                assert(pairs[pairs.len() - 1].0@ != key);
                assert(front[i].0@ == key);
                assert forall|j: int| i < j < front.len() implies (#[trigger] front[j]).0@ != key by {
                    assert(front[j] == pairs[j]);
                }
            }
        }
    }
}

proof fn lemma_first_equals(a: Seq<char>, b: Seq<char>)
    requires
        !a.contains('='),
    ensures
        split_at_first(a + seq!['='] + b, '=') == Some((a, b)),
{
    let s = a + seq!['='] + b;
    assert(s[a.len() as int] == '=');
    assert(s.contains('='));
    s.index_of_first_ensures('=');
    let i = s.index_of_first('=')->0;
    if i < a.len() {
        assert(a[i] == s[i]);
        assert(a.contains('='));
    }
    assert(i == a.len());
    assert(s.take(i) =~= a);
    assert(s.skip(i + 1) =~= b);
}

proof fn lemma_blank_holds_no(s: Seq<char>, c: char)
    requires
        is_blank(s),
        !is_white_space(c),
    ensures
        !s.contains(c),
{
    if s.contains(c) {
        let i = choose|i: int| 0 <= i < s.len() && s[i] == c;
        assert(is_white_space(s[i]));
    }
}

proof fn lemma_contains_concat(a: Seq<char>, b: Seq<char>, c: char)
    ensures
        (a + b).contains(c) <==> a.contains(c) || b.contains(c),
{
    if (a + b).contains(c) {
        let i = choose|i: int| 0 <= i < (a + b).len() && (a + b)[i] == c;
        if i < a.len() {
            assert(a[i] == c);
        } else {
            assert(b[i - a.len()] == c);
        }
    }
    if a.contains(c) {
        let i = choose|i: int| 0 <= i < a.len() && a[i] == c;
        assert((a + b)[i] == c);
    }
    if b.contains(c) {
        let i = choose|i: int| 0 <= i < b.len() && b[i] == c;
        assert((a + b)[a.len() + i] == c);
    }
}

proof fn lemma_one_piece(s: Seq<char>)
    requires
        !s.contains(','),
    ensures
        kv_list(Some(s)) == match pair_in(s) {
            Some((key, value)) => Map::<Seq<char>, Seq<char>>::empty().insert(key, value),
            None => Map::empty(),
        },
{
    lemma_pieces_one(s, ',');
    reveal_with_fuel(with_pieces, 2);
    assert(pieces(s, ',').drop_first() =~= Seq::empty());
}

/// White space around a key, around a value and around a pair does not count.
pub proof fn law_white_space_is_ignored(
    before: Seq<char>,
    key: Seq<char>,
    between: Seq<char>,
    behind: Seq<char>,
    value: Seq<char>,
    after: Seq<char>,
)
    requires
        is_blank(before) && is_blank(between) && is_blank(behind) && is_blank(after),
        key.len() > 0 && !is_white_space(key[0]) && !is_white_space(key.last()),
        value.len() > 0 ==> !is_white_space(value[0]) && !is_white_space(value.last()),
        !key.contains('=') && !key.contains(','),
        !value.contains(','),
    ensures
        kv_list(Some((before + key + between) + seq!['='] + (behind + value + after))) == Map::<
            Seq<char>,
            Seq<char>,
        >::empty().insert(key, value),
{
    let a = before + key + between;
    let b = behind + value + after;
    let s = a + seq!['='] + b;
    lemma_blank_holds_no(before, ',');
    lemma_blank_holds_no(between, ',');
    lemma_blank_holds_no(behind, ',');
    lemma_blank_holds_no(after, ',');
    lemma_contains_concat(before, key, ',');
    lemma_contains_concat(before + key, between, ',');
    lemma_contains_concat(behind, value, ',');
    lemma_contains_concat(behind + value, after, ',');
    lemma_contains_concat(a, seq!['='], ',');
    lemma_contains_concat(a + seq!['='], b, ',');
    lemma_one_piece(s);
    let right = if value.len() == 0 {
        behind + value + after
    } else {
        after
    };
    let inner_b = if value.len() == 0 {
        Seq::empty()
    } else {
        behind + value
    };
    let inner_a = key + between;
    let core = inner_a + seq!['='] + inner_b;
    assert(is_blank(right));
    assert(s =~= before + core + right);
    assert(core[0] == key[0]);
    assert(core.last() == if value.len() == 0 { '=' } else { value.last() });
    law_trimmed_padding(before, core, right);
    lemma_blank_holds_no(between, '=');
    lemma_contains_concat(key, between, '=');
    lemma_first_equals(inner_a, inner_b);
    let none: Seq<char> = Seq::empty();
    assert(inner_a =~= none + key + between);
    law_trimmed_padding(none, key, between);
    if value.len() == 0 {
        assert(value =~= none);
        assert(inner_b =~= none);
    } else {
        assert(inner_b =~= behind + value + none);
        law_trimmed_padding(behind, value, none);
    }
}

/// A piece of a list without an `=`, or with nothing but white space in front of
/// its first one, counts for nothing.
pub proof fn law_pieces_without_key_are_skipped(s: Seq<char>, before: Seq<char>, rest: Seq<char>)
    requires
        !s.contains(','),
        !s.contains('=') || (is_blank(before) && s == before + seq!['='] + rest),
    ensures
        kv_list(Some(s)) == Map::<Seq<char>, Seq<char>>::empty(),
{
    lemma_one_piece(s);
    lemma_trimmed(s);
    lemma_split_at_first(trimmed(s), '=');
    if s.contains('=') {
        law_trimmed_cuts(s);
        let (left, right) = choose|left: Seq<char>, right: Seq<char>|
            is_blank(left) && is_blank(right) && s == #[trigger] (left + trimmed(s) + right);
        lemma_blank_holds_no(before, '=');
        lemma_first_equals(before, rest);
        lemma_blank_holds_no(left, '=');
        lemma_blank_holds_no(right, '=');
        lemma_contains_concat(left, trimmed(s), '=');
        lemma_contains_concat(left + trimmed(s), right, '=');
        assert(trimmed(s).contains('='));
        match split_at_first(trimmed(s), '=') {
            Some((key, value)) => {
                let front = left + key;
                assert(s =~= front + seq!['='] + (value + right));
                lemma_contains_concat(left, key, '=');
                lemma_first_equals(front, value + right);
                assert(front == before);
                assert(is_blank(key)) by {
                    assert forall|i: int| 0 <= i < key.len() implies is_white_space(
                        #[trigger] key[i],
                    ) by {
                        assert(before[left.len() + i] == key[i]);
                    }
                }
                law_trimmed_blank(key);
            },
            None => {},
        }
    }
}

/// No list maps nothing, and neither does an empty one.
pub proof fn law_empty_lists()
    ensures
        kv_list(None) == Map::<Seq<char>, Seq<char>>::empty(),
        kv_list(Some(Seq::empty())) == Map::<Seq<char>, Seq<char>>::empty(),
{
    law_pieces_without_key_are_skipped(Seq::empty(), Seq::empty(), Seq::empty());
}

} // verus!
