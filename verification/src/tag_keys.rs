//! The tags of a container and the aliases under which the canonical fields
//! are looked up.

use vstd::prelude::*;
use crate::text::chars_of;
use crate::text::lowercase_of;
use crate::text::parse_u32;
use crate::text::parsed_u32;
use crate::text::str_eq;
use crate::text::string_of_range;
use crate::text::to_lowercase;
use crate::text::trim;
use crate::text::trimmed;

verus! {

/// Aliases of the title.
pub const KEYS_TITLE: [&'static str; 5] = ["title", "tit2", "inam", "\u{a9}nam", "name"];

/// Aliases of the album.
pub const KEYS_ALBUM: [&'static str; 4] = ["album", "talb", "iprd", "\u{a9}alb"];

/// Aliases of the date.
pub const KEYS_DATE: [&'static str; 10] = [
    "date",
    "year",
    "original_year",
    "originalyear",
    "releasedate",
    "tdrc",
    "tyer",
    "tdor",
    "\u{a9}day",
    "icrd",
];

/// Aliases of the genre.
pub const KEYS_GENRE: [&'static str; 4] = ["genre", "tcon", "ignr", "\u{a9}gen"];

/// Aliases of the track number.
pub const KEYS_TRACK_NUMBER: [&'static str; 5] = ["track", "trck", "iprt", "itrk", "trkn"];

/// Aliases of the disc number.
pub const KEYS_DISC_NUMBER: [&'static str; 3] = ["disc", "tpos", "disk"];

/// The map that a list of `(key, value)` pairs builds when each pair is
/// inserted in turn: of two pairs with one key the later stays.
pub open spec fn map_of_pairs(pairs: Seq<(String, String)>) -> Map<Seq<char>, Seq<char>>
    decreases pairs.len(),
{
    if pairs.len() == 0 {
        Map::empty()
    } else {
        map_of_pairs(pairs.drop_last()).insert(pairs.last().0@, pairs.last().1@)
    }
}

/// The tags of one container: a map from keys to values.
#[derive(Debug, Clone)]
pub struct TagMap {
    entries: Vec<(String, String)>,
}

impl TagMap {
    /// The tags as a map from key to value.
    pub closed spec fn view(&self) -> Map<Seq<char>, Seq<char>> {
        map_of_pairs(self.entries@)
    }

    /// No tags.
    pub fn new() -> (tags: Self)
        ensures
            tags@ == Map::<Seq<char>, Seq<char>>::empty(),
    {
        TagMap { entries: Vec::new() }
    }

    /// Sets the value of a key, replacing the one it had.
    pub fn insert(&mut self, key: String, value: String)
        ensures
            final(self)@ == old(self)@.insert(key@, value@),
    {
        self.entries.push((key, value));
        assert(self.entries@.drop_last() == old(self).entries@);
    }

    /// The value of a key, if the key is present.
    pub fn get(&self, key: &str) -> (r: Option<&String>)
        ensures
            r is Some <==> self@.contains_key(key@),
            r matches Some(value) ==> value@ == self@[key@],
    {
        let mut i: usize = self.entries.len();
        assert(self.entries@.take(i as int) == self.entries@);
        while i > 0
            invariant
                i <= self.entries.len(),
                map_of_pairs(self.entries@).contains_key(key@) <==> map_of_pairs(
                    self.entries@.take(i as int),
                ).contains_key(key@),
                map_of_pairs(self.entries@).contains_key(key@) ==> map_of_pairs(
                    self.entries@,
                )[key@] == map_of_pairs(self.entries@.take(i as int))[key@],
            decreases i,
        {
            assert(self.entries@.take(i as int).drop_last() == self.entries@.take(i - 1));
            if str_eq(self.entries[i - 1].0.as_str(), key) {
                return Some(&self.entries[i - 1].1);
            }
            i -= 1;
        }
        assert(self.entries@.take(0).len() == 0);
        None
    }
}

/// The tags of a container as the extractor keeps them: each key in lower
/// case, of two entries with one such key the later.
pub open spec fn normalized_tags(raw: Seq<(String, String)>) -> Map<Seq<char>, Seq<char>>
    decreases raw.len(),
{
    if raw.len() == 0 {
        Map::empty()
    } else {
        normalized_tags(raw.drop_last()).insert(lowercase_of(raw.last().0@), raw.last().1@)
    }
}

/// Collects the tags of a container, lowercasing the keys.
pub fn collect_normalized_tags(raw: &Vec<(String, String)>) -> (tags: TagMap)
    ensures
        tags@ == normalized_tags(raw@),
{
    let mut tags = TagMap::new();
    let mut i: usize = 0;
    while i < raw.len()
        invariant
            i <= raw.len(),
            tags@ == normalized_tags(raw@.take(i as int)),
        decreases raw.len() - i,
    {
        assert(raw@.take(i + 1).drop_last() == raw@.take(i as int));
        let key = to_lowercase(raw[i].0.as_str());
        let value = raw[i].1.clone();
        tags.insert(key, value);
        i += 1;
    }
    assert(raw@.take(raw@.len() as int) == raw@);
    tags
}

/// Whether the tags hold a value under `key` that is not blank.
pub open spec fn is_filled(tags: Map<Seq<char>, Seq<char>>, key: Seq<char>) -> bool {
    tags.contains_key(key) && trimmed(tags[key]).len() > 0
}

/// The index of the first key at or after `from` whose value is not blank,
/// or the number of keys if there is none.
pub open spec fn first_filled(tags: Map<Seq<char>, Seq<char>>, keys: Seq<&str>, from: int) -> int
    decreases keys.len() - from,
{
    if from < 0 || from >= keys.len() {
        keys.len() as int
    } else if is_filled(tags, keys[from]@) {
        from
    } else {
        first_filled(tags, keys, from + 1)
    }
}

/// The value found under a list of aliases: the first value, in the order
/// of the aliases, that is not blank, trimmed. An alias that is absent or
/// blank is passed over.
pub open spec fn tag_value(tags: Map<Seq<char>, Seq<char>>, keys: Seq<&str>) -> Option<Seq<char>> {
    let i = first_filled(tags, keys, 0);
    if i < keys.len() {
        Some(trimmed(tags[keys[i]@]))
    } else {
        None
    }
}

/// Where `first_filled` points: at an alias whose value is not blank, before
/// which every alias is absent or blank; or past the end, and then every
/// alias is.
pub proof fn lemma_first_filled(tags: Map<Seq<char>, Seq<char>>, keys: Seq<&str>, from: int)
    requires
        0 <= from <= keys.len(),
    ensures
        from <= first_filled(tags, keys, from) <= keys.len(),
        first_filled(tags, keys, from) < keys.len() ==> is_filled(
            tags,
            keys[first_filled(tags, keys, from)]@,
        ),
        forall|i: int|
            from <= i < first_filled(tags, keys, from) ==> !is_filled(tags, (#[trigger] keys[i])@),
    decreases keys.len() - from,
{
    if from < keys.len() && !is_filled(tags, keys[from]@) {
        lemma_first_filled(tags, keys, from + 1);
    }
}

/// Looks a field up under its aliases, in order: the first value that is not
/// blank, trimmed.
pub fn find_tag_value(tags: &TagMap, keys: &[&str]) -> (r: Option<String>)
    ensures
        r is Some <==> tag_value(tags@, keys@) is Some,
        r matches Some(value) ==> Some(value@) == tag_value(tags@, keys@) && value@.len() > 0,
{
    let mut i: usize = 0;
    while i < keys.len()
        invariant
            i <= keys.len(),
            first_filled(tags@, keys@, 0) == first_filled(tags@, keys@, i as int),
        decreases keys.len() - i,
    {
        match tags.get(keys[i]) {
            Some(value) => {
                let t = trim(value.as_str());
                if t.as_str().unicode_len() > 0 {
                    return Some(t);
                }
            },
            None => {},
        }
        i += 1;
    }
    None
}

/// The part of a text before its first `/`, or all of it.
pub open spec fn before_slash(s: Seq<char>) -> Seq<char>
    decreases s.len(),
{
    if s.len() == 0 || s[0] == '/' {
        Seq::empty()
    } else {
        seq![s[0]] + before_slash(s.drop_first())
    }
}

/// The number found under a list of aliases: the value as `find_tag_value`
/// gives it, cut before a `/` (as in `3/12`), trimmed and read as a decimal
/// number.
pub open spec fn tag_number(tags: Map<Seq<char>, Seq<char>>, keys: Seq<&str>) -> Option<u32> {
    match tag_value(tags, keys) {
        Some(value) => parsed_u32(trimmed(before_slash(value))),
        None => None,
    }
}

/// The part of a text before its first `/`.
pub fn first_token(s: &str) -> (token: String)
    ensures
        token@ == before_slash(s@),
{
    let chars = chars_of(s);
    let mut i: usize = 0;
    proof {
        assert(s@.skip(0) == s@);
        assert(s@.take(0) + before_slash(s@) == before_slash(s@));
    }
    while i < chars.len() && chars[i] != '/'
        invariant
            i <= chars.len(),
            chars@ == s@,
            before_slash(s@) == s@.take(i as int) + before_slash(s@.skip(i as int)),
        decreases chars.len() - i,
    {
        proof {
            let rest = s@.skip(i as int);
            assert(rest.drop_first() == s@.skip(i + 1));
            assert(s@.take(i as int) + seq![rest[0]] == s@.take(i + 1));
            assert(s@.take(i as int) + (seq![rest[0]] + before_slash(rest.drop_first())) == s@.take(
                i as int,
            ) + seq![rest[0]] + before_slash(rest.drop_first()));
        }
        i += 1;
    }
    proof {
        let rest = s@.skip(i as int);
        assert(before_slash(rest) == Seq::<char>::empty());
        assert(s@.take(i as int) + Seq::<char>::empty() == s@.take(i as int));
        assert(chars@.subrange(0, i as int) == s@.take(i as int));
    }
    string_of_range(&chars, 0, i)
}

/// Looks a number up under its aliases: a track or disc number, which may
/// come as `3` or as `3/12`.
pub fn find_tag_number(tags: &TagMap, keys: &[&str]) -> (r: Option<u32>)
    ensures
        r == tag_number(tags@, keys@),
{
    match find_tag_value(tags, keys) {
        Some(raw) => {
            let token = first_token(raw.as_str());
            let t = trim(token.as_str());
            parse_u32(t.as_str())
        },
        None => None,
    }
}

} // verus!
