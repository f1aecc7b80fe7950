//! Identifiers of the catalog's entities: 128-bit UUIDs, written in the
//! canonical hyphenated form where they meet the store.

use vstd::prelude::*;

verus! {

/// The lowercase hexadecimal digit of a value below sixteen.
pub open spec fn hex_char(n: u128) -> char {
    if n == 0 {
        '0'
    } else if n == 1 {
        '1'
    } else if n == 2 {
        '2'
    } else if n == 3 {
        '3'
    } else if n == 4 {
        '4'
    } else if n == 5 {
        '5'
    } else if n == 6 {
        '6'
    } else if n == 7 {
        '7'
    } else if n == 8 {
        '8'
    } else if n == 9 {
        '9'
    } else if n == 10 {
        'a'
    } else if n == 11 {
        'b'
    } else if n == 12 {
        'c'
    } else if n == 13 {
        'd'
    } else if n == 14 {
        'e'
    } else {
        'f'
    }
}

/// The `j`-th of the 32 hexadecimal digits of `value`, the most significant
/// being digit 0.
pub open spec fn hex_digit_at(value: u128, j: int) -> char {
    hex_char((value >> (((31 - j) * 4) as u128)) & 0xf)
}

/// The canonical text of a UUID: 32 lowercase hexadecimal digits in groups
/// of 8, 4, 4, 4 and 12, separated by hyphens.
pub open spec fn hyphenated_text(value: u128) -> Seq<char> {
    Seq::new(
        36,
        |i: int|
            if i == 8 || i == 13 || i == 18 || i == 23 {
                '-'
            } else if i < 8 {
                hex_digit_at(value, i)
            } else if i < 13 {
                hex_digit_at(value, i - 1)
            } else if i < 18 {
                hex_digit_at(value, i - 2)
            } else if i < 23 {
                hex_digit_at(value, i - 3)
            } else {
                hex_digit_at(value, i - 4)
            },
    )
}

/// Whether a 128-bit value carries the marks of a random (version 4) UUID
/// of the RFC variant.
pub open spec fn is_random_uuid(value: u128) -> bool {
    value & 0x0000_0000_0000_f000_c000_0000_0000_0000
        == 0x0000_0000_0000_4000_8000_0000_0000_0000
}

/// The UUID that `uuid::Uuid::parse_str` reads from a text, if it accepts
/// the text: it takes 32 hexadecimal digits plain, hyphenated, in braces or
/// after `urn:uuid:`, in either case of letters.
pub uninterp spec fn parsed_uuid(s: Seq<char>) -> Option<u128>;

/// `uuid::Uuid::new_v4`: a random UUID. Whatever the random bits, the
/// version field is 4 and the variant field is that of the RFC.
#[verifier::external_body]
pub(crate) fn fresh_uuid() -> (value: u128)
    ensures
        is_random_uuid(value),
{
    uuid::Uuid::new_v4().as_u128()
}

/// `Display` of `uuid::Uuid`: the hyphenated lowercase text of the value.
#[verifier::external_body]
pub(crate) fn uuid_to_string(value: u128) -> (s: String)
    ensures
        s@ == hyphenated_text(value),
{
    uuid::Uuid::from_u128(value).to_string()
}

/// `uuid::Uuid::parse_str`: the UUID that the text denotes, if it is one of
/// the accepted forms. The hyphenated text of a value is read back as that
/// value.
#[verifier::external_body]
pub(crate) fn parse_uuid(s: &str) -> (r: Option<u128>)
    ensures
        r == parsed_uuid(s@),
        forall|value: u128| s@ == #[trigger] hyphenated_text(value) ==> r == Some(value),
{
    uuid::Uuid::parse_str(s).ok().map(|u| u.as_u128())
}

/// Identifies an artist.
#[derive(Debug, Clone, Copy, PartialEq, Eq, Hash, Structural)]
pub struct ArtistId {
    value: u128,
}

impl ArtistId {
    /// The 128-bit value of the identifier.
    pub closed spec fn view(&self) -> u128 {
        self.value
    }

    /// Mints a fresh random identifier.
    pub fn new() -> (id: Self)
        ensures
            is_random_uuid(id@),
    {
        ArtistId { value: fresh_uuid() }
    }

    /// The identifier with the given UUID value.
    pub fn from_uuid(value: u128) -> (id: Self)
        ensures
            id@ == value,
    {
        ArtistId { value }
    }

    /// The UUID value of the identifier.
    pub fn as_uuid(&self) -> (value: u128)
        ensures
            value == self@,
    {
        self.value
    }

    /// The canonical text of the identifier, as the store keeps it.
    pub fn to_string(&self) -> (s: String)
        ensures
            s@ == hyphenated_text(self@),
    {
        uuid_to_string(self.value)
    }

    /// Reads an identifier from a text that `parsed_uuid` accepts.
    pub fn parse(s: &str) -> (r: Option<Self>)
        ensures
            r is Some <==> parsed_uuid(s@) is Some,
            r matches Some(id) ==> parsed_uuid(s@) == Some(id@),
    {
        match parse_uuid(s) {
            Some(value) => Some(ArtistId { value }),
            None => None,
        }
    }
}

/// Identifies a song, the abstract work.
#[derive(Debug, Clone, Copy, PartialEq, Eq, Hash, Structural)]
pub struct SongId {
    value: u128,
}

impl SongId {
    /// The 128-bit value of the identifier.
    pub closed spec fn view(&self) -> u128 {
        self.value
    }

    /// Mints a fresh random identifier.
    pub fn new() -> (id: Self)
        ensures
            is_random_uuid(id@),
    {
        SongId { value: fresh_uuid() }
    }

    /// The identifier with the given UUID value.
    pub fn from_uuid(value: u128) -> (id: Self)
        ensures
            id@ == value,
    {
        SongId { value }
    }

    /// The UUID value of the identifier.
    pub fn as_uuid(&self) -> (value: u128)
        ensures
            value == self@,
    {
        self.value
    }

    /// The canonical text of the identifier, as the store keeps it.
    pub fn to_string(&self) -> (s: String)
        ensures
            s@ == hyphenated_text(self@),
    {
        uuid_to_string(self.value)
    }

    /// Reads an identifier from a text that `parsed_uuid` accepts.
    pub fn parse(s: &str) -> (r: Option<Self>)
        ensures
            r is Some <==> parsed_uuid(s@) is Some,
            r matches Some(id) ==> parsed_uuid(s@) == Some(id@),
    {
        match parse_uuid(s) {
            Some(value) => Some(SongId { value }),
            None => None,
        }
    }
}

/// Identifies a release.
#[derive(Debug, Clone, Copy, PartialEq, Eq, Hash, Structural)]
pub struct ReleaseId {
    value: u128,
}

impl ReleaseId {
    /// The 128-bit value of the identifier.
    pub closed spec fn view(&self) -> u128 {
        self.value
    }

    /// Mints a fresh random identifier.
    pub fn new() -> (id: Self)
        ensures
            is_random_uuid(id@),
    {
        ReleaseId { value: fresh_uuid() }
    }

    /// The identifier with the given UUID value.
    pub fn from_uuid(value: u128) -> (id: Self)
        ensures
            id@ == value,
    {
        ReleaseId { value }
    }

    /// The UUID value of the identifier.
    pub fn as_uuid(&self) -> (value: u128)
        ensures
            value == self@,
    {
        self.value
    }

    /// The canonical text of the identifier, as the store keeps it.
    pub fn to_string(&self) -> (s: String)
        ensures
            s@ == hyphenated_text(self@),
    {
        uuid_to_string(self.value)
    }

    /// Reads an identifier from a text that `parsed_uuid` accepts.
    pub fn parse(s: &str) -> (r: Option<Self>)
        ensures
            r is Some <==> parsed_uuid(s@) is Some,
            r matches Some(id) ==> parsed_uuid(s@) == Some(id@),
    {
        match parse_uuid(s) {
            Some(value) => Some(ReleaseId { value }),
            None => None,
        }
    }
}

/// Identifies one track of one release: a file with its metadata.
#[derive(Debug, Clone, Copy, PartialEq, Eq, Hash, Structural)]
pub struct ReleaseTrackId {
    value: u128,
}

impl ReleaseTrackId {
    /// The 128-bit value of the identifier.
    pub closed spec fn view(&self) -> u128 {
        self.value
    }

    /// Mints a fresh random identifier.
    pub fn new() -> (id: Self)
        ensures
            is_random_uuid(id@),
    {
        ReleaseTrackId { value: fresh_uuid() }
    }

    /// The identifier with the given UUID value.
    pub fn from_uuid(value: u128) -> (id: Self)
        ensures
            id@ == value,
    {
        ReleaseTrackId { value }
    }

    /// The UUID value of the identifier.
    pub fn as_uuid(&self) -> (value: u128)
        ensures
            value == self@,
    {
        self.value
    }

    /// The canonical text of the identifier, as the store keeps it.
    pub fn to_string(&self) -> (s: String)
        ensures
            s@ == hyphenated_text(self@),
    {
        uuid_to_string(self.value)
    }

    /// Reads an identifier from a text that `parsed_uuid` accepts.
    pub fn parse(s: &str) -> (r: Option<Self>)
        ensures
            r is Some <==> parsed_uuid(s@) is Some,
            r matches Some(id) ==> parsed_uuid(s@) == Some(id@),
    {
        match parse_uuid(s) {
            Some(value) => Some(ReleaseTrackId { value }),
            None => None,
        }
    }
}

} // verus!
