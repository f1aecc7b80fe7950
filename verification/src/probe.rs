//! The metadata probe: how the tags and stream properties that were read
//! from one audio file become a song, a release and a track.

use vstd::prelude::*;
use crate::analysis_config::AnalysisConfig;
use crate::domain::AudioAnalysis;
use crate::domain::AudioDetails;
use crate::domain::ExtractedMetadata;
use crate::domain::FileDetails;
use crate::domain::Release;
use crate::domain::ReleaseTrack;
use crate::domain::Song;
use crate::errors::AnalysisError;
use crate::errors::MetadataError;
use crate::errors::prefixed;
use crate::genre_styles::Genre;
use crate::genre_styles::genre_named;
use crate::genre_styles::normalized_genre;
use crate::genre_styles::normalized_style;
use crate::genre_styles::Style;
use crate::genre_styles::style_named;
use crate::ids::is_random_uuid;
use crate::ids::ReleaseId;
use crate::ids::ReleaseTrackId;
use crate::ids::SongId;
use crate::paths::stem;
use crate::paths::stem_of;
use crate::quality::AudioQuality;
use crate::release_type::ReleaseType;
use crate::spectral::analyze_spectrum;
use crate::spectral::final_assessment;
use crate::spectral::final_score;
use crate::spectral::is_detection_of;
use crate::spectral::is_report_of;
use crate::tag_keys::collect_normalized_tags;
use crate::tag_keys::find_tag_number;
use crate::tag_keys::find_tag_value;
use crate::tag_keys::KEYS_ALBUM;
use crate::tag_keys::KEYS_DATE;
use crate::tag_keys::KEYS_DISC_NUMBER;
use crate::tag_keys::KEYS_GENRE;
use crate::tag_keys::KEYS_TITLE;
use crate::tag_keys::KEYS_TRACK_NUMBER;
use crate::tag_keys::normalized_tags;
use crate::tag_keys::tag_number;
use crate::tag_keys::tag_value;
use crate::tag_keys::TagMap;

verus! {

/// What the file system said of the file.
#[derive(Debug)]
pub enum StatOutcome {
    /// Size in bytes and last modification in seconds since the Unix epoch.
    Found { size: u64, modified: u64 },
    /// The metadata of the file could not be read.
    Unreadable(String),
    /// The platform gives no modification time.
    NoModifiedTime(String),
}

/// Rate and channel count of the decoder of an audio stream.
#[derive(Debug, Clone, Copy, PartialEq, Eq, Structural)]
pub struct StreamInfo {
    pub rate: u32,
    pub channels: u16,
}

/// What was read from an opened container.
#[derive(Debug)]
pub struct ContainerInfo {
    /// The tags in the container's order, keys as written.
    pub tags: Vec<(String, String)>,
    /// Duration in microseconds; zero or less where unknown.
    pub duration_micros: i64,
    /// Bitrate in bits per second; zero or less where unknown.
    pub bit_rate: i64,
    /// The decoder of the best audio stream, if one could be set up.
    pub best_audio: Option<StreamInfo>,
}

/// The averaged spectrum of the audio prefix of a file.
#[derive(Debug)]
pub struct SpectrumMeasurement {
    pub sample_rate: u32,
    /// One level per bin, in thousandths of a decibel.
    pub spectrum_db: Vec<i32>,
    /// The decoder's bitrate in bits per second, if known.
    pub bitrate: Option<i64>,
}

/// Everything that was read from one file for the probe.
#[derive(Debug)]
pub struct ProbeInput {
    /// Path of the file.
    pub path: String,
    /// Whether the path is absolute by the rules of the platform's paths.
    pub absolute: bool,
    /// The final component of the path, if it has one that is valid text.
    pub file_name: Option<String>,
    pub stat: StatOutcome,
    /// The opened container, or why it could not be opened.
    pub container: Result<ContainerInfo, String>,
    /// The measured spectrum or the failure to measure it; `None` where no
    /// analysis was asked for.
    pub measurement: Option<Result<SpectrumMeasurement, AnalysisError>>,
}

/// The message of the failure to probe a file of no bytes.
pub open spec fn empty_file_message() -> Seq<char> {
    "Invalid audio format or empty stream"@
}

/// The message of the failure to probe a file at a path that is not
/// absolute.
pub open spec fn relative_path_message(path: Seq<char>) -> Seq<char> {
    "path is not absolute: "@ + path
}

/// The file details of a file that the file system described, or the I/O
/// error of the probe where it did not. `absolute` is whether the path is
/// absolute: file details are made of an absolute path only, and every
/// other path is an I/O error.
pub fn build_file_details(path: &str, absolute: bool, stat: &StatOutcome) -> (r: Result<
    FileDetails,
    MetadataError,
>)
    ensures
        r is Ok ==> absolute,
        !absolute ==> (r matches Err(MetadataError::Io(m)) && m@ == relative_path_message(path@)),
        absolute ==> match *stat {
            StatOutcome::Found { size, modified } => r matches Ok(d) && d.path@ == path@ && d.size
                == size && d.modified == modified,
            StatOutcome::Unreadable(e) => r matches Err(MetadataError::Io(m)) && m@
                == "filesystem error: "@ + e@,
            StatOutcome::NoModifiedTime(e) => r matches Err(MetadataError::Io(m)) && m@
                == "modified time unsupported: "@ + e@,
        },
{
    if !absolute {
        return Err(MetadataError::Io(prefixed("path is not absolute: ", path)));
    }
    match stat {
        StatOutcome::Found { size, modified } => Ok(
            FileDetails { path: String::from_str(path), size: *size, modified: *modified },
        ),
        StatOutcome::Unreadable(e) => Err(
            MetadataError::Io(prefixed("filesystem error: ", e.as_str())),
        ),
        StatOutcome::NoModifiedTime(e) => Err(
            MetadataError::Io(prefixed("modified time unsupported: ", e.as_str())),
        ),
    }
}

/// The title of a song: the title tag, else the stem of the file name, else
/// `Unknown Title`.
pub open spec fn song_title(tags: Map<Seq<char>, Seq<char>>, file_name: Option<Seq<char>>) -> Seq<
    char,
> {
    match tag_value(tags, KEYS_TITLE@) {
        Some(title) => title,
        None => match file_name {
            Some(name) => stem(name),
            None => "Unknown Title"@,
        },
    }
}

/// The title of a release: the album tag, else `Unknown Album`.
pub open spec fn album_title(tags: Map<Seq<char>, Seq<char>>) -> Seq<char> {
    match tag_value(tags, KEYS_ALBUM@) {
        Some(title) => title,
        None => "Unknown Album"@,
    }
}

/// The number of a track or disc: the tag, else 1.
pub open spec fn number_or_one(tags: Map<Seq<char>, Seq<char>>, keys: Seq<&str>) -> u32 {
    match tag_number(tags, keys) {
        Some(n) => n,
        None => 1,
    }
}

/// Builds the song of a file, under a fresh identifier.
pub fn build_song(file_name: Option<&str>, tags: &TagMap) -> (song: Song)
    ensures
        song.title@ == song_title(
            tags@,
            match file_name {
                Some(name) => Some(name@),
                None => None,
            },
        ),
        song.acoustid is None,
        is_random_uuid(song.id@),
{
    let title = match find_tag_value(tags, KEYS_TITLE.as_slice()) {
        Some(title) => title,
        None => match file_name {
            Some(name) => stem_of(name),
            None => String::from_str("Unknown Title"),
        },
    };
    Song { id: SongId::new(), title, acoustid: None }
}

/// Whether `genres` and `styles` are what a genre tag stands for: nothing
/// without a tag; the genre that the tag names; else the style that it names
/// or is.
pub open spec fn is_genre_and_style_of(
    raw: Option<Seq<char>>,
    genres: Seq<Genre>,
    styles: Seq<Style>,
) -> bool {
    match raw {
        None => genres.len() == 0 && styles.len() == 0,
        Some(source) => match genre_named(normalized_genre(source)) {
            Some(genre) => genres == seq![genre] && styles.len() == 0,
            None => {
                &&& genres.len() == 0
                &&& styles.len() == 1
                &&& styles[0].known() == style_named(normalized_style(source))
                &&& style_named(normalized_style(source)) is None ==> (
                styles[0] matches Style::Custom(text) && text@ == source)
            },
        },
    }
}

/// Reads a genre tag as a genre of the fixed list or, failing that, as a
/// style. It never fails.
pub fn parse_genre_and_style(raw: Option<String>) -> (r: Result<
    (Vec<Genre>, Vec<Style>),
    MetadataError,
>)
    ensures
        r matches Ok(pair) && is_genre_and_style_of(
            match raw {
                Some(source) => Some(source@),
                None => None,
            },
            pair.0@,
            pair.1@,
        ),
{
    let mut genres: Vec<Genre> = Vec::new();
    let mut styles: Vec<Style> = Vec::new();
    match raw {
        None => {},
        Some(source) => {
            match Genre::from_str(source.as_str()) {
                Ok(genre) => {
                    genres.push(genre);
                    assert(genres@ == seq![genre]);
                },
                Err(_) => {
                    let style = Style::from_str(source.as_str());
                    styles.push(style);
                },
            }
        },
    }
    Ok((genres, styles))
}

/// Builds the release of a file, under a fresh identifier: an album without
/// artists, tracks or artworks.
pub fn build_release(tags: &TagMap) -> (r: Result<Release, MetadataError>)
    ensures
        r matches Ok(release) && {
            &&& release.title@ == album_title(tags@)
            &&& is_random_uuid(release.id@)
            &&& release.release_type@ == seq![ReleaseType::Album]
            &&& release.main_artist_ids@.len() == 0
            &&& release.release_tracks@.len() == 0
            &&& release.artworks@.len() == 0
            &&& (release.release_date is Some <==> tag_value(tags@, KEYS_DATE@) is Some)
            &&& (release.release_date matches Some(date) ==> Some(date@) == tag_value(
                tags@,
                KEYS_DATE@,
            ))
            &&& is_genre_and_style_of(
                tag_value(tags@, KEYS_GENRE@),
                release.genres@,
                release.styles@,
            )
        },
{
    let title = match find_tag_value(tags, KEYS_ALBUM.as_slice()) {
        Some(title) => title,
        None => String::from_str("Unknown Album"),
    };
    let release_date = find_tag_value(tags, KEYS_DATE.as_slice());
    let raw_genre = find_tag_value(tags, KEYS_GENRE.as_slice());
    let (genres, styles) = match parse_genre_and_style(raw_genre) {
        Ok(pair) => pair,
        Err(e) => {
            return Err(e);
        },
    };
    let mut release_type: Vec<ReleaseType> = Vec::new();
    release_type.push(ReleaseType::Album);
    assert(release_type@ == seq![ReleaseType::Album]);
    Ok(
        Release {
            id: ReleaseId::new(),
            title,
            release_type,
            main_artist_ids: Vec::new(),
            release_tracks: Vec::new(),
            release_date,
            artworks: Vec::new(),
            genres,
            styles,
        },
    )
}

/// Builds the track that ties a song to a release, under a fresh
/// identifier. Track and disc number default to 1.
pub fn build_release_track(
    song: &Song,
    release: &Release,
    tags: &TagMap,
    audio_details: AudioDetails,
    file_details: FileDetails,
) -> (track: ReleaseTrack)
    ensures
        is_random_uuid(track.id@),
        track.song_id == song.id,
        track.release_id == release.id,
        track.track_number == number_or_one(tags@, KEYS_TRACK_NUMBER@),
        track.disc_number == number_or_one(tags@, KEYS_DISC_NUMBER@),
        track.title_override is None,
        track.artist_credits@.len() == 0,
        track.audio_details == audio_details,
        track.file_details == file_details,
{
    let track_number = match find_tag_number(tags, KEYS_TRACK_NUMBER.as_slice()) {
        Some(n) => n,
        None => 1,
    };
    let disc_number = match find_tag_number(tags, KEYS_DISC_NUMBER.as_slice()) {
        Some(n) => n,
        None => 1,
    };
    ReleaseTrack {
        id: ReleaseTrackId::new(),
        song_id: song.id,
        release_id: release.id,
        track_number,
        disc_number,
        title_override: None,
        artist_credits: Vec::new(),
        audio_details,
        file_details,
    }
}

/// The duration in nanoseconds of a container that lasts `micros`
/// microseconds; zero where the container does not know.
pub open spec fn duration_nanos(micros: i64) -> int {
    if micros > 0 {
        micros * 1000
    } else {
        0
    }
}

/// The bitrate in kbit/s of a container of `bit_rate` bit/s, at most the
/// greatest number of 32 bits; none where the container does not know.
pub open spec fn bitrate_kbps(bit_rate: i64) -> Option<u32> {
    if bit_rate > 0 {
        if bit_rate / 1000 > u32::MAX {
            Some(u32::MAX)
        } else {
            Some((bit_rate / 1000) as u32)
        }
    } else {
        None
    }
}

/// A channel count in 8 bits: the count, at most 255.
pub open spec fn channel_count(channels: u16) -> u8 {
    if channels > u8::MAX {
        u8::MAX
    } else {
        channels as u8
    }
}

/// Duration and bitrate as the container states them.
pub fn extract_container_level_audio_info(duration_micros: i64, bit_rate: i64) -> (r: (
    u128,
    Option<u32>,
))
    ensures
        r.0 == duration_nanos(duration_micros),
        r.1 == bitrate_kbps(bit_rate),
{
    let duration: u128 = if duration_micros > 0 {
        (duration_micros as u128) * 1000
    } else {
        0
    };
    let kbps = if bit_rate > 0 {
        let k: i64 = bit_rate / 1000;
        if k > 0xffff_ffff {
            Some(u32::MAX)
        } else {
            Some(k as u32)
        }
    } else {
        None
    };
    (duration, kbps)
}

/// Sample rate and channel count of the best audio stream, the channel
/// count at most 255; nothing where no decoder could be set up.
pub fn extract_stream_level_audio_info(best_audio: Option<StreamInfo>) -> (r: (
    Option<u32>,
    Option<u8>,
))
    ensures
        match best_audio {
            Some(stream) => r.0 == Some(stream.rate) && r.1 == Some(channel_count(stream.channels)),
            None => r.0 is None && r.1 is None,
        },
{
    match best_audio {
        Some(stream) => {
            let channels: u8 = if stream.channels > 255 {
                255
            } else {
                stream.channels as u8
            };
            (Some(stream.rate), Some(channels))
        },
        None => (None, None),
    }
}

/// Whether `q` is the quality that the analysis of a measured spectrum
/// yields under a configuration: the outcome of the reverse scan, its score
/// under the bitrate cap, the assessment and the report.
pub open spec fn is_quality_of(
    analysis_config: Option<AnalysisConfig>,
    measurement: Option<Result<SpectrumMeasurement, AnalysisError>>,
    q: AudioQuality,
) -> bool {
    analysis_config matches Some(cfg) && measurement matches Some(Ok(m)) && {
        &&& is_detection_of(cfg.noise, cfg.reverse_scan, m.spectrum_db@, m.sample_rate, q.outcome)
        &&& q.quality_score == final_score(cfg.scoring, cfg.bitrate_safety, q.outcome, m.bitrate)
        &&& q.assessment@ == final_assessment(cfg.scoring, cfg.bitrate_safety, q.outcome, m.bitrate)
        &&& is_report_of(q.outcome, q.quality_score, q.assessment@, q.report)
    }
}

/// The quality to record for a file: that of its measured spectrum, where an
/// analysis is configured and the measurement succeeded. A failed
/// measurement never fails the probe; it leaves the quality out.
pub fn run_spectral_analysis(
    analysis_config: Option<&AnalysisConfig>,
    measurement: Option<Result<SpectrumMeasurement, AnalysisError>>,
) -> (r: Option<AudioQuality>)
    ensures
        r is Some <==> (analysis_config is Some && measurement matches Some(Ok(_))),
        r matches Some(q) ==> is_quality_of(
            match analysis_config {
                Some(cfg) => Some(*cfg),
                None => None,
            },
            measurement,
            q,
        ),
{
    match analysis_config {
        None => None,
        Some(cfg) => match measurement {
            Some(Ok(m)) => Some(analyze_spectrum(cfg, m.sample_rate, &m.spectrum_db, m.bitrate)),
            Some(Err(_)) => None,
            None => None,
        },
    }
}

/// The probe with its optional analysis configuration.
#[derive(Debug, Clone)]
pub struct FfmpegProbe {
    analysis_config: Option<AnalysisConfig>,
}

impl FfmpegProbe {
    /// The analysis configuration of the probe, if it analyses.
    pub closed spec fn config(&self) -> Option<AnalysisConfig> {
        self.analysis_config
    }

    /// A probe that analyses the spectrum of each file.
    pub fn new_with_analysis(config: AnalysisConfig) -> (probe: Self)
        ensures
            probe.config() == Some(config),
    {
        FfmpegProbe { analysis_config: Some(config) }
    }

    /// A probe that reads tags and stream properties only.
    pub fn new_without_analysis() -> (probe: Self)
        ensures
            probe.config() is None,
    {
        FfmpegProbe { analysis_config: None }
    }

    /// Whether the probe analyses the spectrum, so that one must be measured.
    pub fn wants_analysis(&self) -> (r: bool)
        ensures
            r == self.config() is Some,
    {
        self.analysis_config.is_some()
    }

    /// The analysis configuration, if the probe analyses.
    pub fn analysis_config(&self) -> (r: Option<&AnalysisConfig>)
        ensures
            r is Some <==> self.config() is Some,
            r matches Some(cfg) ==> self.config() == Some(*cfg),
    {
        self.analysis_config.as_ref()
    }

    /// Turns what was read from one file into its metadata.
    ///
    /// A path that is not absolute fails with `Io`, so the file details of
    /// a track always hold an absolute path. A file that the file system
    /// could not describe fails with `Io` too; a file of no bytes is corrupt, whatever else was read of it; a container
    /// that could not be opened fails with `Unsupported`. Every other file
    /// yields a song, a release and a track, each field falling back to its
    /// default where the tags do not give it.
    pub fn extract_sync(&self, input: ProbeInput) -> (r: Result<ExtractedMetadata, MetadataError>)
        ensures
            r is Ok ==> input.absolute,
            !input.absolute ==> (r matches Err(MetadataError::Io(m)) && m@
                == relative_path_message(input.path@)),
            input.absolute ==> match input.stat {
                StatOutcome::Unreadable(e) => r matches Err(MetadataError::Io(m)) && m@
                    == "filesystem error: "@ + e@,
                StatOutcome::NoModifiedTime(e) => r matches Err(MetadataError::Io(m)) && m@
                    == "modified time unsupported: "@ + e@,
                StatOutcome::Found { size, modified } => if size == 0 {
                    r matches Err(MetadataError::Corrupt(m)) && m@ == empty_file_message()
                } else {
                    match input.container {
                    Err(e) => r matches Err(MetadataError::Unsupported(m)) && m@
                        == "FFmpeg open failed: "@ + e@,
                    Ok(container) => r matches Ok(found) && found.release matches Some(release)
                        && found.track matches Some(track) && {
                        let tags = normalized_tags(container.tags@);
                        &&& found.song.title@ == song_title(
                            tags,
                            match input.file_name {
                                Some(name) => Some(name@),
                                None => None,
                            },
                        )
                        &&& found.song.acoustid is None
                        &&& is_random_uuid(found.song.id@)
                        &&& is_random_uuid(release.id@)
                        &&& is_random_uuid(track.id@)
                        &&& release.title@ == album_title(tags)
                        &&& release.release_type@ == seq![ReleaseType::Album]
                        &&& release.main_artist_ids@.len() == 0
                        &&& release.release_tracks@.len() == 0
                        &&& release.artworks@.len() == 0
                        &&& (release.release_date is Some <==> tag_value(tags, KEYS_DATE@) is Some)
                        &&& (release.release_date matches Some(date) ==> Some(date@) == tag_value(
                            tags,
                            KEYS_DATE@,
                        ))
                        &&& is_genre_and_style_of(
                            tag_value(tags, KEYS_GENRE@),
                            release.genres@,
                            release.styles@,
                        )
                        &&& track.song_id == found.song.id
                        &&& track.release_id == release.id
                        &&& track.track_number == number_or_one(tags, KEYS_TRACK_NUMBER@)
                        &&& track.disc_number == number_or_one(tags, KEYS_DISC_NUMBER@)
                        &&& track.title_override is None
                        &&& track.artist_credits@.len() == 0
                        &&& track.file_details.path@ == input.path@
                        &&& track.file_details.size == size
                        &&& track.file_details.modified == modified
                        &&& track.audio_details.duration == duration_nanos(
                            container.duration_micros,
                        )
                        &&& track.audio_details.bitrate_kbps == bitrate_kbps(container.bit_rate)
                        &&& (match container.best_audio {
                            Some(stream) => track.audio_details.sample_rate_hz == Some(stream.rate)
                                && track.audio_details.channels == Some(
                                channel_count(stream.channels),
                            ),
                            None => track.audio_details.sample_rate_hz is None
                                && track.audio_details.channels is None,
                        })
                        &&& track.audio_details.fingerprint is None
                        &&& track.audio_details.analysis matches Some(analysis)
                        &&& analysis.bpm is None
                        &&& analysis.features is None
                        &&& (analysis.quality is Some <==> (self.config() is Some
                            && input.measurement matches Some(Ok(_))))
                        &&& analysis.quality matches Some(q) ==> is_quality_of(
                            self.config(),
                            input.measurement,
                            q,
                        )
                    },
                }
                },
            },
    {
        let file_details = match build_file_details(
            input.path.as_str(),
            input.absolute,
            &input.stat,
        ) {
            Ok(d) => d,
            Err(e) => {
                return Err(e);
            },
        };
        if file_details.size == 0 {
            return Err(
                MetadataError::Corrupt(String::from_str("Invalid audio format or empty stream")),
            );
        }
        let container = match input.container {
            Ok(c) => c,
            Err(e) => {
                return Err(
                    MetadataError::Unsupported(prefixed("FFmpeg open failed: ", e.as_str())),
                );
            },
        };
        let tags = collect_normalized_tags(&container.tags);
        let song = match &input.file_name {
            Some(name) => build_song(Some(name.as_str()), &tags),
            None => build_song(None, &tags),
        };
        let release = match build_release(&tags) {
            Ok(release) => release,
            Err(e) => {
                return Err(e);
            },
        };
        let (duration, bitrate) = extract_container_level_audio_info(
            container.duration_micros,
            container.bit_rate,
        );
        let (sample_rate_hz, channels) = extract_stream_level_audio_info(container.best_audio);
        let quality = run_spectral_analysis(self.analysis_config.as_ref(), input.measurement);
        let analysis = AudioAnalysis { quality, features: None, bpm: None };
        let audio_details = AudioDetails {
            duration,
            bitrate_kbps: bitrate,
            sample_rate_hz,
            channels,
            analysis: Some(analysis),
            fingerprint: None,
        };
        let track = build_release_track(&song, &release, &tags, audio_details, file_details);
        Ok(ExtractedMetadata { song, release: Some(release), track: Some(track) })
    }
}

impl Default for FfmpegProbe {
    fn default() -> (probe: Self)
        ensures
            probe.config() is Some,
    {
        FfmpegProbe::new_with_analysis(AnalysisConfig::default())
    }
}

} // verus!
