//! Genres and styles, and how they are read from the free text of a tag.

use vstd::prelude::*;
use crate::text::lowercase_of;
use crate::text::remove_chars;
use crate::text::str_eq;
use crate::text::to_lowercase;
use crate::text::trim;
use crate::text::trimmed;
use crate::text::without_chars;

verus! {

/// The broad genres of the catalog.
#[derive(Debug, Clone, Copy, PartialEq, Eq, Hash, Structural)]
pub enum Genre {
    Rock,
    Electronic,
    Pop,
    FolkWorldAndCountry,
    Jazz,
    FunkSoul,
    Classical,
    HipHop,
    Latin,
    StageAndScreen,
    Reggae,
    Blues,
    NonMusic,
    Childrens,
    BrassAndMilitary,
}

/// The text that could not be read as a genre.
#[derive(Debug, Clone, PartialEq, Eq)]
pub struct GenreParseError {
    pub input: String,
}

impl GenreParseError {
    /// The message of the error.
    pub open spec fn message(&self) -> Seq<char> {
        "invalid genre: "@ + self.input@
    }

    /// Renders the message of the error.
    pub fn to_string(&self) -> (out: String)
        ensures
            out@ == self.message(),
    {
        let mut out = String::from_str("invalid genre: ");
        out.append(self.input.as_str());
        out
    }
}

/// The separators that the normal form of a genre drops: hyphen, space,
/// comma, ampersand, slash and apostrophe, so that every name of the list
/// as it is shown is read as its genre.
pub open spec fn genre_separators() -> Seq<char> {
    seq!['-', ' ', ',', '&', '/', '\'']
}

/// The normal form of a genre text: trimmed, lowercased, separators dropped.
pub open spec fn normalized_genre(s: Seq<char>) -> Seq<char> {
    without_chars(lowercase_of(trimmed(s)), genre_separators())
}

/// The genre that a normal form names, if any.
pub open spec fn genre_named(n: Seq<char>) -> Option<Genre> {
    if n == "rock"@ {
        Some(Genre::Rock)
    } else if n == "electronic"@ {
        Some(Genre::Electronic)
    } else if n == "pop"@ {
        Some(Genre::Pop)
    } else if n == "folkworldandcountry"@ || n == "folkworldcountry"@ {
        Some(Genre::FolkWorldAndCountry)
    } else if n == "jazz"@ {
        Some(Genre::Jazz)
    } else if n == "funksoul"@ {
        Some(Genre::FunkSoul)
    } else if n == "classical"@ {
        Some(Genre::Classical)
    } else if n == "hiphop"@ {
        Some(Genre::HipHop)
    } else if n == "latin"@ {
        Some(Genre::Latin)
    } else if n == "stageandscreen"@ || n == "stagescreen"@ {
        Some(Genre::StageAndScreen)
    } else if n == "reggae"@ {
        Some(Genre::Reggae)
    } else if n == "blues"@ {
        Some(Genre::Blues)
    } else if n == "nonmusic"@ {
        Some(Genre::NonMusic)
    } else if n == "childrens"@ || n == "children"@ {
        Some(Genre::Childrens)
    } else if n == "brassandmilitary"@ || n == "brassmilitary"@ {
        Some(Genre::BrassAndMilitary)
    } else {
        None
    }
}

impl Genre {
    /// The name of the genre as it is shown.
    pub open spec fn name(&self) -> Seq<char> {
        match self {
            Genre::Rock => "Rock"@,
            Genre::Electronic => "Electronic"@,
            Genre::Pop => "Pop"@,
            Genre::FolkWorldAndCountry => "Folk, World, & Country"@,
            Genre::Jazz => "Jazz"@,
            Genre::FunkSoul => "Funk / Soul"@,
            Genre::Classical => "Classical"@,
            Genre::HipHop => "Hip Hop"@,
            Genre::Latin => "Latin"@,
            Genre::StageAndScreen => "Stage & Screen"@,
            Genre::Reggae => "Reggae"@,
            Genre::Blues => "Blues"@,
            Genre::NonMusic => "Non-Music"@,
            Genre::Childrens => "Children's"@,
            Genre::BrassAndMilitary => "Brass & Military"@,
        }
    }

    /// The name of the genre as it is shown.
    pub fn to_string(&self) -> (out: String)
        ensures
            out@ == self.name(),
    {
        match self {
            Genre::Rock => String::from_str("Rock"),
            Genre::Electronic => String::from_str("Electronic"),
            Genre::Pop => String::from_str("Pop"),
            Genre::FolkWorldAndCountry => String::from_str("Folk, World, & Country"),
            Genre::Jazz => String::from_str("Jazz"),
            Genre::FunkSoul => String::from_str("Funk / Soul"),
            Genre::Classical => String::from_str("Classical"),
            Genre::HipHop => String::from_str("Hip Hop"),
            Genre::Latin => String::from_str("Latin"),
            Genre::StageAndScreen => String::from_str("Stage & Screen"),
            Genre::Reggae => String::from_str("Reggae"),
            Genre::Blues => String::from_str("Blues"),
            Genre::NonMusic => String::from_str("Non-Music"),
            Genre::Childrens => String::from_str("Children's"),
            Genre::BrassAndMilitary => String::from_str("Brass & Military"),
        }
    }

    /// The genre that a text in normal form names, if any.
    pub fn from_normalized(n: &str) -> (r: Option<Genre>)
        ensures
            r == genre_named(n@),
    {
        if str_eq(n, "rock") {
            Some(Genre::Rock)
        } else if str_eq(n, "electronic") {
            Some(Genre::Electronic)
        } else if str_eq(n, "pop") {
            Some(Genre::Pop)
        } else if str_eq(n, "folkworldandcountry") || str_eq(n, "folkworldcountry") {
            Some(Genre::FolkWorldAndCountry)
        } else if str_eq(n, "jazz") {
            Some(Genre::Jazz)
        } else if str_eq(n, "funksoul") {
            Some(Genre::FunkSoul)
        } else if str_eq(n, "classical") {
            Some(Genre::Classical)
        } else if str_eq(n, "hiphop") {
            Some(Genre::HipHop)
        } else if str_eq(n, "latin") {
            Some(Genre::Latin)
        } else if str_eq(n, "stageandscreen") || str_eq(n, "stagescreen") {
            Some(Genre::StageAndScreen)
        } else if str_eq(n, "reggae") {
            Some(Genre::Reggae)
        } else if str_eq(n, "blues") {
            Some(Genre::Blues)
        } else if str_eq(n, "nonmusic") {
            Some(Genre::NonMusic)
        } else if str_eq(n, "childrens") || str_eq(n, "children") {
            Some(Genre::Childrens)
        } else if str_eq(n, "brassandmilitary") || str_eq(n, "brassmilitary") {
            Some(Genre::BrassAndMilitary)
        } else {
            None
        }
    }

    /// Brings a text into the normal form of genres.
    pub fn normalize(s: &str) -> (n: String)
        ensures
            n@ == normalized_genre(s@),
    {
        let trimmed_text = trim(s);
        let lowered = to_lowercase(trimmed_text.as_str());
        let mut separators: Vec<char> = Vec::new();
        separators.push('-');
        separators.push(' ');
        separators.push(',');
        separators.push('&');
        separators.push('/');
        separators.push('\'');
        assert(separators@ == genre_separators());
        remove_chars(lowered.as_str(), &separators)
    }

    /// Reads a genre: the normal form of the text must name one. Any other
    /// text is handed back in the error.
    pub fn from_str(s: &str) -> (r: Result<Genre, GenreParseError>)
        ensures
            genre_named(normalized_genre(s@)) matches Some(genre) ==> r == Ok::<
                Genre,
                GenreParseError,
            >(genre),
            genre_named(normalized_genre(s@)) is None ==> (r matches Err(e) && e.input@ == s@),
    {
        let n = Genre::normalize(s);
        match Genre::from_normalized(n.as_str()) {
            Some(genre) => Ok(genre),
            None => Err(GenreParseError { input: String::from_str(s) }),
        }
    }
}

/// Styles, finer than genres; a text that names none is kept as it is.
#[derive(Debug, Clone, PartialEq, Eq, Hash)]
pub enum Style {
    PopRock,
    House,
    Vocal,
    Experimental,
    Punk,
    AlternativeRock,
    SynthPop,
    Techno,
    IndieRock,
    Ambient,
    Soul,
    Disco,
    Hardcore,
    Folk,
    Ballad,
    Country,
    HardRock,
    Electro,
    RockAndRoll,
    Chanson,
    Romantic,
    Trance,
    HeavyMetal,
    PsychedelicRock,
    FolkRock,
    Jpop,
    Vocaloid,
    /// A style outside the list, with the text as it was given.
    Custom(String),
}

/// The known styles, without the text of a custom one.
#[derive(Debug, Clone, Copy, PartialEq, Eq, Hash, Structural)]
pub enum KnownStyle {
    PopRock,
    House,
    Vocal,
    Experimental,
    Punk,
    AlternativeRock,
    SynthPop,
    Techno,
    IndieRock,
    Ambient,
    Soul,
    Disco,
    Hardcore,
    Folk,
    Ballad,
    Country,
    HardRock,
    Electro,
    RockAndRoll,
    Chanson,
    Romantic,
    Trance,
    HeavyMetal,
    PsychedelicRock,
    FolkRock,
    Jpop,
    Vocaloid,
}

/// The separators that the normal form of a style drops.
pub open spec fn style_separators() -> Seq<char> {
    seq!['-', ' ']
}

/// The normal form of a style text: trimmed, lowercased, hyphens and spaces
/// dropped.
pub open spec fn normalized_style(s: Seq<char>) -> Seq<char> {
    without_chars(lowercase_of(trimmed(s)), style_separators())
}

/// The known style that a normal form names, if any.
pub open spec fn style_named(n: Seq<char>) -> Option<KnownStyle> {
    if n == "poprock"@ {
        Some(KnownStyle::PopRock)
    } else if n == "house"@ {
        Some(KnownStyle::House)
    } else if n == "vocal"@ {
        Some(KnownStyle::Vocal)
    } else if n == "experimental"@ {
        Some(KnownStyle::Experimental)
    } else if n == "punk"@ {
        Some(KnownStyle::Punk)
    } else if n == "alternativerock"@ {
        Some(KnownStyle::AlternativeRock)
    } else if n == "synthpop"@ {
        Some(KnownStyle::SynthPop)
    } else if n == "techno"@ {
        Some(KnownStyle::Techno)
    } else if n == "indierock"@ {
        Some(KnownStyle::IndieRock)
    } else if n == "ambient"@ {
        Some(KnownStyle::Ambient)
    } else if n == "soul"@ {
        Some(KnownStyle::Soul)
    } else if n == "disco"@ {
        Some(KnownStyle::Disco)
    } else if n == "hardcore"@ {
        Some(KnownStyle::Hardcore)
    } else if n == "folk"@ {
        Some(KnownStyle::Folk)
    } else if n == "ballad"@ {
        Some(KnownStyle::Ballad)
    } else if n == "country"@ {
        Some(KnownStyle::Country)
    } else if n == "hardrock"@ {
        Some(KnownStyle::HardRock)
    } else if n == "electro"@ {
        Some(KnownStyle::Electro)
    } else if n == "rock&roll"@ || n == "rockandroll"@ {
        Some(KnownStyle::RockAndRoll)
    } else if n == "chanson"@ {
        Some(KnownStyle::Chanson)
    } else if n == "romantic"@ {
        Some(KnownStyle::Romantic)
    } else if n == "trance"@ {
        Some(KnownStyle::Trance)
    } else if n == "heavymetal"@ {
        Some(KnownStyle::HeavyMetal)
    } else if n == "psychedelicrock"@ {
        Some(KnownStyle::PsychedelicRock)
    } else if n == "folkrock"@ {
        Some(KnownStyle::FolkRock)
    } else if n == "jpop"@ {
        Some(KnownStyle::Jpop)
    } else if n == "vocaloid"@ {
        Some(KnownStyle::Vocaloid)
    } else {
        None
    }
}

impl KnownStyle {
    /// The name of the style as it is shown.
    pub open spec fn name(&self) -> Seq<char> {
        match self {
            KnownStyle::PopRock => "Pop Rock"@,
            KnownStyle::House => "House"@,
            KnownStyle::Vocal => "Vocal"@,
            KnownStyle::Experimental => "Experimental"@,
            KnownStyle::Punk => "Punk"@,
            KnownStyle::AlternativeRock => "Alternative Rock"@,
            KnownStyle::SynthPop => "Synth-pop"@,
            KnownStyle::Techno => "Techno"@,
            KnownStyle::IndieRock => "Indie Rock"@,
            KnownStyle::Ambient => "Ambient"@,
            KnownStyle::Soul => "Soul"@,
            KnownStyle::Disco => "Disco"@,
            KnownStyle::Hardcore => "Hardcore"@,
            KnownStyle::Folk => "Folk"@,
            KnownStyle::Ballad => "Ballad"@,
            KnownStyle::Country => "Country"@,
            KnownStyle::HardRock => "Hard Rock"@,
            KnownStyle::Electro => "Electro"@,
            KnownStyle::RockAndRoll => "Rock & Roll"@,
            KnownStyle::Chanson => "Chanson"@,
            KnownStyle::Romantic => "Romantic"@,
            KnownStyle::Trance => "Trance"@,
            KnownStyle::HeavyMetal => "Heavy Metal"@,
            KnownStyle::PsychedelicRock => "Psychedelic Rock"@,
            KnownStyle::FolkRock => "Folk Rock"@,
            KnownStyle::Jpop => "J-pop"@,
            KnownStyle::Vocaloid => "Vocaloid"@,
        }
    }
}

impl Style {
    /// The known style that this is, unless it is a custom one.
    pub open spec fn known(&self) -> Option<KnownStyle> {
        match self {
            Style::PopRock => Some(KnownStyle::PopRock),
            Style::House => Some(KnownStyle::House),
            Style::Vocal => Some(KnownStyle::Vocal),
            Style::Experimental => Some(KnownStyle::Experimental),
            Style::Punk => Some(KnownStyle::Punk),
            Style::AlternativeRock => Some(KnownStyle::AlternativeRock),
            Style::SynthPop => Some(KnownStyle::SynthPop),
            Style::Techno => Some(KnownStyle::Techno),
            Style::IndieRock => Some(KnownStyle::IndieRock),
            Style::Ambient => Some(KnownStyle::Ambient),
            Style::Soul => Some(KnownStyle::Soul),
            Style::Disco => Some(KnownStyle::Disco),
            Style::Hardcore => Some(KnownStyle::Hardcore),
            Style::Folk => Some(KnownStyle::Folk),
            Style::Ballad => Some(KnownStyle::Ballad),
            Style::Country => Some(KnownStyle::Country),
            Style::HardRock => Some(KnownStyle::HardRock),
            Style::Electro => Some(KnownStyle::Electro),
            Style::RockAndRoll => Some(KnownStyle::RockAndRoll),
            Style::Chanson => Some(KnownStyle::Chanson),
            Style::Romantic => Some(KnownStyle::Romantic),
            Style::Trance => Some(KnownStyle::Trance),
            Style::HeavyMetal => Some(KnownStyle::HeavyMetal),
            Style::PsychedelicRock => Some(KnownStyle::PsychedelicRock),
            Style::FolkRock => Some(KnownStyle::FolkRock),
            Style::Jpop => Some(KnownStyle::Jpop),
            Style::Vocaloid => Some(KnownStyle::Vocaloid),
            Style::Custom(text) => None,
        }
    }

    /// The name of the style as it is shown: a custom style shows its text.
    pub open spec fn name(&self) -> Seq<char> {
        match self {
            Style::Custom(text) => text@,
            _ => self.known()->0.name(),
        }
    }

    /// The name of the style as it is shown.
    pub fn to_string(&self) -> (out: String)
        ensures
            out@ == self.name(),
    {
        match self {
            Style::PopRock => String::from_str("Pop Rock"),
            Style::House => String::from_str("House"),
            Style::Vocal => String::from_str("Vocal"),
            Style::Experimental => String::from_str("Experimental"),
            Style::Punk => String::from_str("Punk"),
            Style::AlternativeRock => String::from_str("Alternative Rock"),
            Style::SynthPop => String::from_str("Synth-pop"),
            Style::Techno => String::from_str("Techno"),
            Style::IndieRock => String::from_str("Indie Rock"),
            Style::Ambient => String::from_str("Ambient"),
            Style::Soul => String::from_str("Soul"),
            Style::Disco => String::from_str("Disco"),
            Style::Hardcore => String::from_str("Hardcore"),
            Style::Folk => String::from_str("Folk"),
            Style::Ballad => String::from_str("Ballad"),
            Style::Country => String::from_str("Country"),
            Style::HardRock => String::from_str("Hard Rock"),
            Style::Electro => String::from_str("Electro"),
            Style::RockAndRoll => String::from_str("Rock & Roll"),
            Style::Chanson => String::from_str("Chanson"),
            Style::Romantic => String::from_str("Romantic"),
            Style::Trance => String::from_str("Trance"),
            Style::HeavyMetal => String::from_str("Heavy Metal"),
            Style::PsychedelicRock => String::from_str("Psychedelic Rock"),
            Style::FolkRock => String::from_str("Folk Rock"),
            Style::Jpop => String::from_str("J-pop"),
            Style::Vocaloid => String::from_str("Vocaloid"),
            Style::Custom(text) => text.clone(),
        }
    }

    /// The known style that a text in normal form names, if any.
    pub fn from_normalized(n: &str) -> (r: Option<Style>)
        ensures
            r is Some <==> style_named(n@) is Some,
            r matches Some(style) ==> style.known() == style_named(n@),
    {
        if str_eq(n, "poprock") {
            Some(Style::PopRock)
        } else if str_eq(n, "house") {
            Some(Style::House)
        } else if str_eq(n, "vocal") {
            Some(Style::Vocal)
        } else if str_eq(n, "experimental") {
            Some(Style::Experimental)
        } else if str_eq(n, "punk") {
            Some(Style::Punk)
        } else if str_eq(n, "alternativerock") {
            Some(Style::AlternativeRock)
        } else if str_eq(n, "synthpop") {
            Some(Style::SynthPop)
        } else if str_eq(n, "techno") {
            Some(Style::Techno)
        } else if str_eq(n, "indierock") {
            Some(Style::IndieRock)
        } else if str_eq(n, "ambient") {
            Some(Style::Ambient)
        } else if str_eq(n, "soul") {
            Some(Style::Soul)
        } else if str_eq(n, "disco") {
            Some(Style::Disco)
        } else if str_eq(n, "hardcore") {
            Some(Style::Hardcore)
        } else if str_eq(n, "folk") {
            Some(Style::Folk)
        } else if str_eq(n, "ballad") {
            Some(Style::Ballad)
        } else if str_eq(n, "country") {
            Some(Style::Country)
        } else if str_eq(n, "hardrock") {
            Some(Style::HardRock)
        } else if str_eq(n, "electro") {
            Some(Style::Electro)
        } else if str_eq(n, "rock&roll") || str_eq(n, "rockandroll") {
            Some(Style::RockAndRoll)
        } else if str_eq(n, "chanson") {
            Some(Style::Chanson)
        } else if str_eq(n, "romantic") {
            Some(Style::Romantic)
        } else if str_eq(n, "trance") {
            Some(Style::Trance)
        } else if str_eq(n, "heavymetal") {
            Some(Style::HeavyMetal)
        } else if str_eq(n, "psychedelicrock") {
            Some(Style::PsychedelicRock)
        } else if str_eq(n, "folkrock") {
            Some(Style::FolkRock)
        } else if str_eq(n, "jpop") {
            Some(Style::Jpop)
        } else if str_eq(n, "vocaloid") {
            Some(Style::Vocaloid)
        } else {
            None
        }
    }

    /// Brings a text into the normal form of styles.
    pub fn normalize(s: &str) -> (n: String)
        ensures
            n@ == normalized_style(s@),
    {
        let trimmed_text = trim(s);
        let lowered = to_lowercase(trimmed_text.as_str());
        let mut separators: Vec<char> = Vec::new();
        separators.push('-');
        separators.push(' ');
        assert(separators@ == style_separators());
        remove_chars(lowered.as_str(), &separators)
    }

    /// Reads a style. Every text is one: the normal form names a known
    /// style, or the text is kept as a custom style, unchanged.
    pub fn from_str(s: &str) -> (style: Style)
        ensures
            style.known() == style_named(normalized_style(s@)),
            style_named(normalized_style(s@)) is None ==> (style matches Style::Custom(text)
                && text@ == s@),
    {
        let n = Style::normalize(s);
        match Style::from_normalized(n.as_str()) {
            Some(style) => style,
            None => Style::Custom(String::from_str(s)),
        }
    }
}

} // verus!
