//! The configuration file: where it lies, how a section is read from its
//! text and how one is written into it.
//!
//! The file itself is read and written by the caller, which hands in what
//! its read gave and writes what a save returns.

use vstd::prelude::*;
use crate::errors::ConfigError;
use crate::errors::prefixed;
use crate::toml_value::parse_toml;
use crate::toml_value::parsed_toml;
use crate::toml_value::render_toml;
use crate::toml_value::rendered_toml;
use crate::toml_value::splice_section;
use crate::toml_value::spliced_toml;
use crate::toml_value::check_document;
use crate::toml_value::document_error;
use crate::toml_value::SpliceError;
use crate::toml_value::TomlValue;

verus! {

/// Whether a text is a plain name: not empty, without separators or a
/// colon, and neither `.` nor `..`.
pub open spec fn plain_name(name: Seq<char>) -> bool {
    &&& name.len() > 0
    &&& !name.contains('/')
    &&& !name.contains('\\')
    &&& !name.contains(':')
    &&& name != "."@
    &&& name != ".."@
}

/// Whether a directory is written plainly: not with a prefix of two
/// backslashes, as network shares, devices and verbatim paths are on
/// Windows, and not ending in the colon of a bare drive.
pub open spec fn plain_dir(dir: Seq<char>) -> bool {
    &&& !(dir.len() >= 2 && dir[0] == '\\' && dir[1] == '\\')
    &&& !(dir.len() > 0 && dir.last() == ':')
}

/// Whether `joined` is the path of the name `leaf` in the directory `dir`:
/// directory, separator and name. The separator is that of the platform, a
/// slash or a backslash. None is added to an empty directory nor after a
/// slash; after a backslash, which only some platforms take for a separator,
/// there may be a slash.
pub open spec fn joins(joined: Seq<char>, dir: Seq<char>, leaf: Seq<char>) -> bool {
    if dir.len() == 0 {
        joined == leaf
    } else if dir.last() == '/' {
        joined == dir + leaf
    } else if dir.last() == '\\' {
        joined == dir + leaf || joined == dir + seq!['/'] + leaf
    } else {
        joined == dir + seq!['/'] + leaf || joined == dir + seq!['\\'] + leaf
    }
}

/// Whether `joined` is the path of `leaf` in `dir`, as far as that is laid
/// down: for a directory that is written plainly.
pub open spec fn extends_by(joined: Seq<char>, dir: Seq<char>, leaf: Seq<char>) -> bool {
    plain_dir(dir) ==> joins(joined, dir, leaf)
}

/// `Path::join` with a plain name: the name is appended to the directory,
/// after a separator where the directory is not empty and does not end in
/// one. Nothing is said of a directory with a prefix of two backslashes or
/// of a bare drive, which Windows treats in ways of their own, nor of the
/// names `.` and `..`, which it may remove.
#[verifier::external_body]
pub(crate) fn join_path(dir: &str, leaf: &str) -> (joined: String)
    requires
        plain_name(leaf@),
    ensures
        extends_by(joined@, dir@, leaf@),
{
    std::path::Path::new(dir).join(leaf).to_string_lossy().into_owned()
}

/// The directories of the application.
#[derive(Debug, PartialEq, Eq)]
pub struct GamusPaths {
    pub base_dir: String,
    pub config_dir: String,
    pub data_dir: String,
    pub cache_dir: String,
}

impl Clone for GamusPaths {
    fn clone(&self) -> (r: Self)
        ensures
            r == *self,
    {
        GamusPaths {
            base_dir: self.base_dir.clone(),
            config_dir: self.config_dir.clone(),
            data_dir: self.data_dir.clone(),
            cache_dir: self.cache_dir.clone(),
        }
    }
}

/// The directories that the platform assigns to the application.
#[derive(Debug, PartialEq, Eq)]
pub struct PlatformDirs {
    pub config_dir: String,
    pub data_dir: String,
    pub cache_dir: String,
}

impl GamusPaths {
    /// Chooses the directories. A base directory given by the environment
    /// overrides the platform: configuration, data and cache then lie in its
    /// subdirectories `config`, `data` and `cache`. Else the platform's
    /// directories are taken, the configuration directory as base. Where the
    /// platform knows none, the choice fails.
    pub fn new(base_override: Option<String>, platform: Option<PlatformDirs>) -> (r: Result<
        Self,
        ConfigError,
    >)
        ensures
            match base_override {
                Some(base) => r matches Ok(paths) && {
                    &&& paths.base_dir@ == base@
                    &&& extends_by(paths.config_dir@, base@, "config"@)
                    &&& extends_by(paths.data_dir@, base@, "data"@)
                    &&& extends_by(paths.cache_dir@, base@, "cache"@)
                },
                None => match platform {
                    Some(dirs) => r matches Ok(paths) && {
                        &&& paths.base_dir@ == dirs.config_dir@
                        &&& paths.config_dir@ == dirs.config_dir@
                        &&& paths.data_dir@ == dirs.data_dir@
                        &&& paths.cache_dir@ == dirs.cache_dir@
                    },
                    None => r matches Err(ConfigError::Directories),
                },
            },
    {
        proof {
            lemma_names_are_plain();
        }
        match base_override {
            Some(base) => {
                let config_dir = join_path(base.as_str(), "config");
                let data_dir = join_path(base.as_str(), "data");
                let cache_dir = join_path(base.as_str(), "cache");
                Ok(GamusPaths { base_dir: base, config_dir, data_dir, cache_dir })
            },
            None => match platform {
                Some(dirs) => Ok(
                    GamusPaths {
                        base_dir: dirs.config_dir.clone(),
                        config_dir: dirs.config_dir,
                        data_dir: dirs.data_dir,
                        cache_dir: dirs.cache_dir,
                    },
                ),
                None => Err(ConfigError::Directories),
            },
        }
    }

    /// Chooses the directories, as `new` does.
    pub fn detect(base_override: Option<String>, platform: Option<PlatformDirs>) -> (r: Result<
        Self,
        ConfigError,
    >)
        ensures
            match base_override {
                Some(base) => r matches Ok(paths) && {
                    &&& paths.base_dir@ == base@
                    &&& extends_by(paths.config_dir@, base@, "config"@)
                    &&& extends_by(paths.data_dir@, base@, "data"@)
                    &&& extends_by(paths.cache_dir@, base@, "cache"@)
                },
                None => match platform {
                    Some(dirs) => r matches Ok(paths) && {
                        &&& paths.base_dir@ == dirs.config_dir@
                        &&& paths.config_dir@ == dirs.config_dir@
                        &&& paths.data_dir@ == dirs.data_dir@
                        &&& paths.cache_dir@ == dirs.cache_dir@
                    },
                    None => r matches Err(ConfigError::Directories),
                },
            },
    {
        GamusPaths::new(base_override, platform)
    }

    /// The configuration file: `gamus.toml` in the configuration directory,
    /// as in `/b/config/gamus.toml` for the directory `/b/config` where the
    /// platform separates by slashes.
    pub fn config_file(&self) -> (path: String)
        ensures
            extends_by(path@, self.config_dir@, "gamus.toml"@),
    {
        proof {
            lemma_names_are_plain();
        }
        join_path(self.config_dir.as_str(), "gamus.toml")
    }

    /// The default database file: `gamus.db` in the data directory.
    pub fn database_file(&self) -> (path: String)
        ensures
            extends_by(path@, self.data_dir@, "gamus.db"@),
    {
        proof {
            lemma_names_are_plain();
        }
        join_path(self.data_dir.as_str(), "gamus.db")
    }
}

proof fn lemma_names_are_plain()
    ensures
        plain_name("config"@),
        plain_name("data"@),
        plain_name("cache"@),
        plain_name("gamus.toml"@),
        plain_name("gamus.db"@),
{
    reveal_strlit("config");
    reveal_strlit("data");
    reveal_strlit("cache");
    reveal_strlit("gamus.toml");
    reveal_strlit("gamus.db");
    reveal_strlit(".");
    reveal_strlit("..");
    assert("."@.len() == 1);
    assert(".."@.len() == 2);
    assert("config"@.len() == 6);
    assert("data"@.len() == 4);
    assert("cache"@.len() == 5);
    assert("gamus.toml"@.len() == 10);
    assert("gamus.db"@.len() == 8);
}

/// What reading the configuration file gave.
#[derive(Debug, PartialEq, Eq)]
pub enum FileRead {
    /// The text of the file.
    Content(String),
    /// There is no such file; the message of the error.
    NotFound(String),
    /// The file could not be read; the message of the error.
    Failed(String),
}

/// The message for a section that the file lacks.
pub open spec fn missing_section_message(section: Seq<char>, path: Seq<char>) -> Seq<char> {
    "missing section ["@ + section + "] in "@ + path
}

/// The message for a section that could not be decoded.
pub open spec fn decode_message(section: Seq<char>, detail: Seq<char>) -> Seq<char> {
    "decode section ["@ + section + "]: "@ + detail
}

/// The message for a section that could not be encoded.
pub open spec fn encode_message(section: Seq<char>, detail: Seq<char>) -> Seq<char> {
    "encode section ["@ + section + "]: "@ + detail
}

/// The error for a section that could not be decoded.
pub fn decode_error(section: &str, detail: &str) -> (e: ConfigError)
    ensures
        e matches ConfigError::Other(m) && m@ == decode_message(section@, detail@),
{
    let mut m = String::from_str("decode section [");
    m.append(section);
    m.append("]: ");
    m.append(detail);
    ConfigError::Other(m)
}

/// What a section is loaded from, with a default at hand: the section's
/// value in the file, or nothing where the file or the section is missing;
/// an unreadable or invalid file is an error.
pub open spec fn section_or_default(read: FileRead, section: Seq<char>) -> Result<
    Option<TomlValue>,
    ConfigError,
> {
    match read {
        FileRead::NotFound(_) => Ok(None),
        FileRead::Failed(e) => Err(ConfigError::Io(e)),
        FileRead::Content(content) => match parsed_toml(content@) {
            Err(e) => Err(ConfigError::Toml(e)),
            Ok(doc) => Ok(doc.field(section)),
        },
    }
}

/// The text of the file after a section has been set, or the message of
/// the error of the attempt. The text that was read must be a document; then
/// the section must be encoded; then it is set into the document.
pub open spec fn saved_text(read: FileRead, section: Seq<char>, body: TomlValue) -> Result<
    Seq<char>,
    Seq<char>,
> {
    match read {
        FileRead::Failed(e) => Err(ConfigError::Io(e).message()),
        _ => {
            let existing = match read {
                FileRead::Content(content) => content@,
                _ => Seq::<char>::empty(),
            };
            match document_error(existing) {
                Some(e) => Err("other: "@ + ("parse toml_edit doc: "@ + e)),
                None => match rendered_toml(body) {
                    Err(e) => Err("other: "@ + encode_message(section, e)),
                    Ok(text) => match spliced_toml(existing, section, text) {
                        Ok(spliced) => Ok(spliced),
                        Err(SpliceError::Document(e)) => Err(
                            "other: "@ + ("parse toml_edit doc: "@ + e@),
                        ),
                        Err(SpliceError::Section(e)) => Err(
                            "other: "@ + ("parse section as doc: "@ + e@),
                        ),
                    },
                },
            }
        },
    }
}

/// What a save returned, as plain data: the new text of the file, or the
/// message of the error.
pub open spec fn save_outcome(r: Result<String, ConfigError>) -> Result<Seq<char>, Seq<char>> {
    match r {
        Ok(text) => Ok(text@),
        Err(e) => Err(e.message()),
    }
}

/// The configuration file as a store of sections.
#[derive(Debug)]
pub struct TomlConfigBackend {
    paths: GamusPaths,
}

impl TomlConfigBackend {
    /// The directories that the backend works in.
    pub closed spec fn view(&self) -> GamusPaths {
        self.paths
    }

    /// The backend of the configuration file in the given directories.
    pub fn new(paths: GamusPaths) -> (backend: Self)
        ensures
            backend@ == paths,
    {
        TomlConfigBackend { paths }
    }

    /// The file that the backend reads and writes.
    pub fn config_file(&self) -> (path: String)
        ensures
            extends_by(path@, self@.config_dir@, "gamus.toml"@),
    {
        self.paths.config_file()
    }

    /// Finds a section in what was read of the file, for a caller that has a
    /// default: `None` where the file or the section is missing.
    pub fn load_section_with_default(&self, read: &FileRead, section: &str) -> (r: Result<
        Option<TomlValue>,
        ConfigError,
    >)
        ensures
            r == section_or_default(*read, section@),
    {
        match read {
            FileRead::NotFound(_) => Ok(None),
            FileRead::Failed(e) => Err(ConfigError::Io(e.clone())),
            FileRead::Content(content) => match parse_toml(content.as_str()) {
                Err(e) => Err(ConfigError::Toml(e)),
                Ok(doc) => Ok(doc.into_field(section)),
            },
        }
    }

    /// Finds a section in what was read of the file. A missing file is an
    /// I/O error, a missing section an error that names section and file.
    pub fn load_section(&self, read: &FileRead, section: &str) -> (r: Result<TomlValue, ConfigError>)
        ensures
            match *read {
                FileRead::NotFound(e) => r == Err::<TomlValue, ConfigError>(ConfigError::Io(e)),
                FileRead::Failed(e) => r == Err::<TomlValue, ConfigError>(ConfigError::Io(e)),
                FileRead::Content(content) => match parsed_toml(content@) {
                    Err(e) => r == Err::<TomlValue, ConfigError>(ConfigError::Toml(e)),
                    Ok(doc) => match doc.field(section@) {
                        Some(value) => r == Ok::<TomlValue, ConfigError>(value),
                        None => r matches Err(ConfigError::Other(m)) && exists|path: Seq<char>|
                            #![trigger missing_section_message(section@, path)]
                            extends_by(path, self@.config_dir@, "gamus.toml"@) && m@
                                == missing_section_message(section@, path),
                    },
                },
            },
    {
        match read {
            FileRead::NotFound(e) => Err(ConfigError::Io(e.clone())),
            FileRead::Failed(e) => Err(ConfigError::Io(e.clone())),
            FileRead::Content(content) => match parse_toml(content.as_str()) {
                Err(e) => Err(ConfigError::Toml(e)),
                Ok(doc) => match doc.into_field(section) {
                    Some(value) => Ok(value),
                    None => {
                        let path = self.config_file();
                        let mut m = String::from_str("missing section [");
                        m.append(section);
                        m.append("] in ");
                        m.append(path.as_str());
                        assert(m@ == missing_section_message(section@, path@));
                        Err(ConfigError::Other(m))
                    },
                },
            },
        }
    }

    /// The text of the file after a section has been set to `body`: the
    /// text that was read, or an empty document where there was no file,
    /// with the section replaced and all else kept as written. The caller
    /// writes the text to the file in one step.
    pub fn save_section(&self, read: &FileRead, section: &str, body: &TomlValue) -> (r: Result<
        String,
        ConfigError,
    >)
        ensures
            save_outcome(r) == saved_text(*read, section@, *body),
            r matches Err(e) ==> match *read {
                FileRead::Failed(_) => e is Io,
                _ => e is Other,
            },
    {
        let existing = match read {
            FileRead::Content(content) => content.clone(),
            FileRead::NotFound(_) => String::new(),
            FileRead::Failed(e) => {
                return Err(ConfigError::Io(e.clone()));
            },
        };
        if let Some(e) = check_document(existing.as_str()) {
            return Err(ConfigError::Other(prefixed("parse toml_edit doc: ", e.as_str())));
        }
        let text = match render_toml(body) {
            Ok(text) => text,
            Err(e) => {
                let mut m = String::from_str("encode section [");
                m.append(section);
                m.append("]: ");
                m.append(e.as_str());
                return Err(ConfigError::Other(m));
            },
        };
        match splice_section(existing.as_str(), section, text.as_str()) {
            Ok(spliced) => Ok(spliced),
            Err(SpliceError::Document(e)) => Err(
                ConfigError::Other(prefixed("parse toml_edit doc: ", e.as_str())),
            ),
            Err(SpliceError::Section(e)) => Err(
                ConfigError::Other(prefixed("parse section as doc: ", e.as_str())),
            ),
        }
    }
}

/// The texts of a list of strings.
pub open spec fn texts_of(v: Seq<String>) -> Seq<Seq<char>> {
    v.map_values(|s: String| s@)
}

/// The text of a TOML string.
pub open spec fn as_text(v: TomlValue) -> Option<Seq<char>> {
    match v {
        TomlValue::Text(s) => Some(s@),
        _ => None,
    }
}

/// The flag of a TOML boolean.
pub open spec fn as_flag(v: TomlValue) -> Option<bool> {
    match v {
        TomlValue::Boolean(b) => Some(b),
        _ => None,
    }
}

/// The number of a TOML integer that fits in 32 bits without sign.
pub open spec fn as_u32(v: TomlValue) -> Option<u32> {
    match v {
        TomlValue::Integer(i) => if 0 <= i <= u32::MAX {
            Some(i as u32)
        } else {
            None
        },
        _ => None,
    }
}

/// Whether every item from `from` on is a TOML string.
pub open spec fn all_text(items: Seq<TomlValue>, from: int) -> bool
    decreases items.len() - from,
{
    if from < 0 || from >= items.len() {
        true
    } else {
        items[from] is Text && all_text(items, from + 1)
    }
}

/// The texts of a TOML array of strings.
pub open spec fn as_text_list(v: TomlValue) -> Option<Seq<Seq<char>>> {
    match v {
        TomlValue::Array(items) => if all_text(items@, 0) {
            Some(Seq::new(items@.len(), |i: int| items@[i]->Text_0@))
        } else {
            None
        },
        _ => None,
    }
}

/// Reads a TOML string.
pub fn text_of(v: &TomlValue) -> (r: Option<String>)
    ensures
        r is Some <==> as_text(*v) is Some,
        r matches Some(s) ==> Some(s@) == as_text(*v),
{
    match v {
        TomlValue::Text(s) => Some(s.clone()),
        _ => None,
    }
}

/// Reads a TOML boolean.
pub fn flag_of(v: &TomlValue) -> (r: Option<bool>)
    ensures
        r == as_flag(*v),
{
    match v {
        TomlValue::Boolean(b) => Some(*b),
        _ => None,
    }
}

/// Reads a TOML integer that fits in 32 bits without sign.
pub fn u32_of(v: &TomlValue) -> (r: Option<u32>)
    ensures
        r == as_u32(*v),
{
    match v {
        TomlValue::Integer(i) => {
            if 0 <= *i && *i <= 0xffff_ffff {
                Some(*i as u32)
            } else {
                None
            }
        },
        _ => None,
    }
}

proof fn lemma_all_text(items: Seq<TomlValue>, from: int)
    requires
        0 <= from,
    ensures
        all_text(items, from) <==> forall|i: int| from <= i < items.len() ==> items[i] is Text,
    decreases items.len() - from,
{
    if from < items.len() {
        lemma_all_text(items, from + 1);
    }
}

/// Reads a TOML array of strings.
pub fn text_list_of(v: &TomlValue) -> (r: Option<Vec<String>>)
    ensures
        r is Some <==> as_text_list(*v) is Some,
        r matches Some(list) ==> Some(texts_of(list@)) == as_text_list(*v),
{
    match v {
        TomlValue::Array(items) => {
            let mut list: Vec<String> = Vec::new();
            let mut i: usize = 0;
            proof {
                lemma_all_text(items@, 0);
            }
            while i < items.len()
                invariant
                    i <= items.len(),
                    *v == TomlValue::Array(*items),
                    list@.len() == i,
                    forall|j: int| 0 <= j < i ==> items@[j] is Text && list@[j]@ == items@[j]->Text_0@,
                    all_text(items@, 0) <==> forall|k: int|
                        0 <= k < items@.len() ==> items@[k] is Text,
                decreases items.len() - i,
            {
                match &items[i] {
                    TomlValue::Text(s) => {
                        list.push(s.clone());
                    },
                    _ => {
                        return None;
                    },
                }
                i += 1;
            }
            assert(texts_of(list@) == Seq::new(items@.len(), |i: int| items@[i]->Text_0@));
            Some(list)
        },
        _ => None,
    }
}

/// A list of strings as a TOML array.
pub fn text_list_value(list: &Vec<String>) -> (v: TomlValue)
    ensures
        as_text_list(v) == Some(texts_of(list@)),
{
    let mut items: Vec<TomlValue> = Vec::new();
    let mut i: usize = 0;
    while i < list.len()
        invariant
            i <= list.len(),
            items@.len() == i,
            forall|j: int| 0 <= j < i ==> items@[j] is Text && items@[j]->Text_0@ == list@[j]@,
        decreases list.len() - i,
    {
        items.push(TomlValue::Text(list[i].clone()));
        i += 1;
    }
    proof {
        lemma_all_text(items@, 0);
        assert(texts_of(list@) == Seq::new(items@.len(), |i: int| items@[i]->Text_0@));
    }
    TomlValue::Array(items)
}

/// The message for a field that a section lacks.
pub open spec fn missing_field(key: Seq<char>) -> Seq<char> {
    "missing field `"@ + key + "`"@
}

/// The message for a field of the wrong type or range.
pub open spec fn invalid_field(key: Seq<char>) -> Seq<char> {
    "invalid value for field `"@ + key + "`"@
}

fn missing_field_message(key: &str) -> (m: String)
    ensures
        m@ == missing_field(key@),
{
    let mut m = String::from_str("missing field `");
    m.append(key);
    m.append("`");
    m
}

fn invalid_field_message(key: &str) -> (m: String)
    ensures
        m@ == invalid_field(key@),
{
    let mut m = String::from_str("invalid value for field `");
    m.append(key);
    m.append("`");
    m
}

/// The list of strings under a key of a section; a missing key gives the
/// default, or is an error where there is none.
pub open spec fn field_text_list(
    section: TomlValue,
    key: Seq<char>,
    default: Option<Seq<Seq<char>>>,
) -> Result<Seq<Seq<char>>, Seq<char>> {
    match section.field(key) {
        None => match default {
            Some(d) => Ok(d),
            None => Err(missing_field(key)),
        },
        Some(v) => match as_text_list(v) {
            Some(list) => Ok(list),
            None => Err(invalid_field(key)),
        },
    }
}

/// The flag under a key of a section; a missing key gives the default, or
/// is an error where there is none.
pub open spec fn field_flag(section: TomlValue, key: Seq<char>, default: Option<bool>) -> Result<
    bool,
    Seq<char>,
> {
    match section.field(key) {
        None => match default {
            Some(d) => Ok(d),
            None => Err(missing_field(key)),
        },
        Some(v) => match as_flag(v) {
            Some(b) => Ok(b),
            None => Err(invalid_field(key)),
        },
    }
}

/// The optional number under a key of a section: a missing key is no
/// number.
pub open spec fn field_opt_u32(section: TomlValue, key: Seq<char>) -> Result<Option<u32>, Seq<char>> {
    match section.field(key) {
        None => Ok(None),
        Some(v) => match as_u32(v) {
            Some(n) => Ok(Some(n)),
            None => Err(invalid_field(key)),
        },
    }
}

/// The text under a key of a section, which must be there.
pub open spec fn field_text(section: TomlValue, key: Seq<char>) -> Result<Seq<char>, Seq<char>> {
    match section.field(key) {
        None => Err(missing_field(key)),
        Some(v) => match as_text(v) {
            Some(t) => Ok(t),
            None => Err(invalid_field(key)),
        },
    }
}

/// The optional text under a key of a section: a missing key is no text.
pub open spec fn field_opt_text(section: TomlValue, key: Seq<char>) -> Result<
    Option<Seq<char>>,
    Seq<char>,
> {
    match section.field(key) {
        None => Ok(None),
        Some(v) => match as_text(v) {
            Some(t) => Ok(Some(t)),
            None => Err(invalid_field(key)),
        },
    }
}

/// Reads the list of strings under a key of a section.
pub fn read_text_list(section: &TomlValue, key: &str, default: Option<Vec<String>>) -> (r: Result<
    Vec<String>,
    String,
>)
    ensures
        match field_text_list(
            *section,
            key@,
            match default {
                Some(d) => Some(texts_of(d@)),
                None => None,
            },
        ) {
            Ok(list) => r matches Ok(found) && texts_of(found@) == list,
            Err(e) => r matches Err(m) && m@ == e,
        },
{
    match section.get(key) {
        None => match default {
            Some(d) => Ok(d),
            None => Err(missing_field_message(key)),
        },
        Some(v) => match text_list_of(v) {
            Some(list) => Ok(list),
            None => Err(invalid_field_message(key)),
        },
    }
}

/// Reads the flag under a key of a section.
pub fn read_flag(section: &TomlValue, key: &str, default: Option<bool>) -> (r: Result<bool, String>)
    ensures
        match field_flag(*section, key@, default) {
            Ok(b) => r == Ok::<bool, String>(b),
            Err(e) => r matches Err(m) && m@ == e,
        },
{
    match section.get(key) {
        None => match default {
            Some(d) => Ok(d),
            None => Err(missing_field_message(key)),
        },
        Some(v) => match flag_of(v) {
            Some(b) => Ok(b),
            None => Err(invalid_field_message(key)),
        },
    }
}

/// Reads the optional number under a key of a section.
pub fn read_opt_u32(section: &TomlValue, key: &str) -> (r: Result<Option<u32>, String>)
    ensures
        match field_opt_u32(*section, key@) {
            Ok(n) => r == Ok::<Option<u32>, String>(n),
            Err(e) => r matches Err(m) && m@ == e,
        },
{
    match section.get(key) {
        None => Ok(None),
        Some(v) => match u32_of(v) {
            Some(n) => Ok(Some(n)),
            None => Err(invalid_field_message(key)),
        },
    }
}

/// Reads the text under a key of a section.
pub fn read_text(section: &TomlValue, key: &str) -> (r: Result<String, String>)
    ensures
        match field_text(*section, key@) {
            Ok(t) => r matches Ok(found) && found@ == t,
            Err(e) => r matches Err(m) && m@ == e,
        },
{
    match section.get(key) {
        None => Err(missing_field_message(key)),
        Some(v) => match text_of(v) {
            Some(t) => Ok(t),
            None => Err(invalid_field_message(key)),
        },
    }
}

/// Reads the optional text under a key of a section.
pub fn read_opt_text(section: &TomlValue, key: &str) -> (r: Result<Option<String>, String>)
    ensures
        match field_opt_text(*section, key@) {
            Ok(Some(t)) => r matches Ok(Some(found)) && found@ == t,
            Ok(None) => r matches Ok(None),
            Err(e) => r matches Err(m) && m@ == e,
        },
{
    match section.get(key) {
        None => Ok(None),
        Some(v) => match text_of(v) {
            Some(t) => Ok(Some(t)),
            None => Err(invalid_field_message(key)),
        },
    }
}

} // verus!
