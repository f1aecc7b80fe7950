//! Ratings on the scale from 0.0 to 5.0, held in ten-thousandths.

use vstd::prelude::*;

verus! {

/// Ten-thousandths per rating point.
pub const SCALE_FACTOR: u32 = 10_000;

/// The highest rating, 5.0, in ten-thousandths.
pub const MAX_VALUE: u32 = 50_000;

/// A rating from 0.0 to 5.0 with four decimals, kept as the integer number
/// of ten-thousandths: 3.5 is `35_000`.
#[derive(Debug, Clone, Copy, PartialEq, Eq, PartialOrd, Ord, Hash, Structural)]
pub struct Rating {
    value: u32,
}

/// Five stars, of which the first `full` are filled.
pub open spec fn stars(full: int) -> Seq<char> {
    Seq::new(
        5,
        |i: int|
            if i < full {
                '★'
            } else {
                '☆'
            },
    )
}

impl Rating {
    #[verifier::type_invariant]
    spec fn in_range(self) -> bool {
        self.value <= MAX_VALUE
    }

    /// The rating in ten-thousandths.
    pub closed spec fn view(&self) -> u32 {
        self.value
    }

    /// The rating of `scaled` ten-thousandths, if that is at most 5.0.
    pub fn new(scaled: u32) -> (r: Option<Self>)
        ensures
            r is Some <==> scaled <= MAX_VALUE,
            r matches Some(rating) ==> rating@ == scaled,
    {
        if scaled > MAX_VALUE {
            return None;
        }
        Some(Rating { value: scaled })
    }

    /// The rating in ten-thousandths, never above `MAX_VALUE`.
    pub fn scaled(&self) -> (v: u32)
        ensures
            v == self@,
            v <= MAX_VALUE,
    {
        proof {
            use_type_invariant(self);
        }
        self.value
    }

    /// The whole points of the rating: the number of filled stars.
    pub fn full_stars(&self) -> (n: u32)
        ensures
            n == self@ / SCALE_FACTOR,
            n <= 5,
    {
        proof {
            use_type_invariant(self);
        }
        self.value / SCALE_FACTOR
    }

    /// The rating as five stars, filled for each whole point: only 5.0 shows
    /// five filled stars.
    pub fn to_string(&self) -> (s: String)
        ensures
            s@ == stars(self@ as int / SCALE_FACTOR as int),
    {
        let full = self.full_stars();
        let mut s = String::new();
        let mut i: u32 = 0;
        while i < 5
            invariant
                i <= 5,
                s@.len() == i,
                forall|j: int| 0 <= j < i ==> s@[j] == stars(full as int)[j],
            decreases 5 - i,
        {
            if i < full {
                s.push('★');
            } else {
                s.push('☆');
            }
            i += 1;
        }
        assert(s@ == stars(full as int));
        s
    }
}

/// The average rating of an item, which may have none.
#[derive(Debug, Clone, Copy, PartialEq, Eq, Hash, Structural)]
pub enum AvgRating {
    /// Nobody has rated the item.
    Unrated,
    /// The average of one or more ratings.
    Rated(Rating),
}

impl Default for AvgRating {
    fn default() -> (r: Self)
        ensures
            r == AvgRating::Unrated,
    {
        AvgRating::Unrated
    }
}

impl AvgRating {
    /// What `to_string` shows: five empty stars where there is no rating.
    pub open spec fn stars_text(&self) -> Seq<char> {
        match self {
            AvgRating::Unrated => stars(0),
            AvgRating::Rated(rating) => stars(rating@ as int / SCALE_FACTOR as int),
        }
    }

    /// The average as five stars.
    pub fn to_string(&self) -> (s: String)
        ensures
            s@ == self.stars_text(),
    {
        match self {
            AvgRating::Unrated => {
                let s = String::from_str("☆☆☆☆☆");
                proof {
                    reveal_strlit("☆☆☆☆☆");
                    assert(s@ == stars(0));
                }
                s
            },
            AvgRating::Rated(rating) => rating.to_string(),
        }
    }
}

} // verus!
