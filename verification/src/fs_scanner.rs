//! The file-system scanner: which entries of a walk are audio files, and how
//! the files found are grouped by device and given a bandwidth.

use vstd::prelude::*;
use crate::adapter::DeviceCache;
use crate::paths::extension;
use crate::paths::extension_of;
use crate::paths::hidden;
use crate::paths::is_hidden;
use crate::scanner_config::ScannerConfig;
use crate::text::eq_ignore_ascii_case;
use crate::text::lowercase_of;
use crate::text::same_ignoring_ascii_case;
use crate::text::str_eq;
use crate::text::to_lowercase;
use crate::walker::Filtering;
use crate::walker::WalkConfig;

verus! {

/// The depth limit of a walk where the configuration sets none.
pub const DEFAULT_MAX_DEPTH: u32 = 50;

/// Bytes read from a device to measure its bandwidth: 20 MiB.
pub const SAMPLE_BYTES: u64 = 20 * 1_048_576;

/// The device under which files are grouped whose device is unknown.
pub open spec fn unknown_device() -> Seq<char> {
    "UNKNOWN_DEVICE"@
}

/// A file found during a scan.
#[derive(Debug, PartialEq, Eq)]
pub struct FsScannedFile {
    pub path: String,
    /// Size in bytes.
    pub size: u64,
    /// Last modification, in seconds since the Unix epoch.
    pub modified: u64,
}

impl Clone for FsScannedFile {
    fn clone(&self) -> (r: Self)
        ensures
            r == *self,
    {
        FsScannedFile { path: self.path.clone(), size: self.size, modified: self.modified }
    }
}

/// A storage volume.
#[derive(Debug, PartialEq, Eq)]
pub struct FsDevice {
    pub id: String,
    /// Measured or remembered read bandwidth in MiB/s.
    pub bandwidth_mb_s: Option<u64>,
    /// Whether a measurement of the device was run, in this scan or an
    /// earlier one. It may have told nothing: a sample that could not be
    /// read, or a read that took no time, gives no bandwidth.
    pub probed: bool,
}

/// What became of the measurement of a group's device in a scan.
#[derive(Debug, Clone, Copy, PartialEq, Eq, Structural)]
pub enum ProbeOutcome {
    /// No measurement was run.
    NotRun,
    /// The measurement was run, and the sample could not be read.
    Failed,
    /// The measurement was run and the sample read: a bandwidth, or nothing
    /// where the read took no time.
    Returned(Option<u64>),
}

/// The files that lie on one device.
#[derive(Debug, PartialEq, Eq)]
pub struct FsScanGroup {
    pub device: FsDevice,
    pub files: Vec<FsScannedFile>,
}

/// Whether some entry of `exts` is `ext` but for the case of ASCII letters.
pub open spec fn lists_extension(exts: Seq<String>, ext: Seq<char>) -> bool {
    exists|i: int| 0 <= i < exts.len() && same_ignoring_ascii_case((#[trigger] exts[i])@, ext)
}

/// Whether a file name is that of an audio file: it has an extension, and
/// the extension in lower case is one of `exts`, case apart.
pub open spec fn audio_name(name: Seq<char>, exts: Seq<String>) -> bool {
    match extension(name) {
        Some(ext) => lists_extension(exts, lowercase_of(ext)),
        None => false,
    }
}

/// Whether a file of this name counts as audio under the configuration.
pub fn is_audio(file_name: &str, cfg: &ScannerConfig) -> (r: bool)
    ensures
        r == audio_name(file_name@, cfg.audio_exts@),
{
    let ext = match extension_of(file_name) {
        Some(ext) => to_lowercase(ext.as_str()),
        None => {
            return false;
        },
    };
    let mut i: usize = 0;
    while i < cfg.audio_exts.len()
        invariant
            i <= cfg.audio_exts.len(),
            extension(file_name@) matches Some(e) && ext@ == lowercase_of(e),
            forall|j: int| 0 <= j < i ==> !same_ignoring_ascii_case(cfg.audio_exts@[j]@, ext@),
        decreases cfg.audio_exts.len() - i,
    {
        if eq_ignore_ascii_case(cfg.audio_exts[i].as_str(), ext.as_str()) {
            return true;
        }
        i += 1;
    }
    false
}

/// What the scanner's filter answers for an entry of the given name: a
/// hidden entry is not entered where hidden entries are ignored; a `.tmp`
/// entry is not yielded; any other is.
pub open spec fn filter_answer(file_name: Option<Seq<char>>, ignore_hidden: bool) -> Filtering {
    match file_name {
        Some(name) => if ignore_hidden && hidden(name) {
            Filtering::IgnoreDir
        } else if extension(name) == Some("tmp"@) {
            Filtering::Ignore
        } else {
            Filtering::Continue
        },
        None => Filtering::Continue,
    }
}

/// The scanner's filter. `file_name` is the final component of the entry's
/// path, where it has one.
pub fn entry_filter(file_name: Option<&str>, ignore_hidden: bool) -> (r: Filtering)
    ensures
        r == filter_answer(
            match file_name {
                Some(name) => Some(name@),
                None => None,
            },
            ignore_hidden,
        ),
{
    match file_name {
        Some(name) => {
            if ignore_hidden && is_hidden(name) {
                return Filtering::IgnoreDir;
            }
            match extension_of(name) {
                Some(ext) => {
                    if str_eq(ext.as_str(), "tmp") {
                        Filtering::Ignore
                    } else {
                        Filtering::Continue
                    }
                },
                None => Filtering::Continue,
            }
        },
        None => Filtering::Continue,
    }
}

/// How the scanner walks a root: links are not followed, directories are
/// entered once, to the configured depth or 50.
pub fn walk_config(cfg: &ScannerConfig) -> (r: WalkConfig)
    ensures
        r.follow_symlinks == false,
        r.dedup_dirs == true,
        r.max_depth == match cfg.max_depth {
            Some(d) => d as usize,
            None => DEFAULT_MAX_DEPTH as usize,
        },
{
    let depth: u32 = match cfg.max_depth {
        Some(d) => d,
        None => DEFAULT_MAX_DEPTH,
    };
    WalkConfig { follow_symlinks: false, max_depth: depth as usize, dedup_dirs: true }
}

/// An entry that the walk yielded, with what the file system said of it.
#[derive(Debug)]
pub struct FoundEntry {
    pub path: String,
    /// The final component of the path, where it has one that is valid text.
    pub file_name: Option<String>,
    /// Whether the path leads to a regular file.
    pub is_file: bool,
    /// Size and modification time; `None` where they could not be read.
    pub stat: Option<(u64, u64)>,
}

/// Whether the scan keeps an entry: a regular file with an audio name whose
/// size and modification time could be read.
pub open spec fn keeps(entry: FoundEntry, exts: Seq<String>) -> bool {
    &&& entry.is_file
    &&& entry.file_name matches Some(name) && audio_name(name@, exts)
    &&& entry.stat is Some
}

/// The file that a kept entry becomes.
pub open spec fn file_of(entry: FoundEntry) -> FsScannedFile {
    match entry.stat {
        Some((size, modified)) => FsScannedFile { path: entry.path, size, modified },
        None => FsScannedFile { path: entry.path, size: 0, modified: 0 },
    }
}

/// The files of a scan: the kept entries, in the order of the walk.
pub open spec fn kept_files(entries: Seq<FoundEntry>, exts: Seq<String>) -> Seq<FsScannedFile>
    decreases entries.len(),
{
    if entries.len() == 0 {
        Seq::empty()
    } else if keeps(entries.last(), exts) {
        kept_files(entries.drop_last(), exts).push(file_of(entries.last()))
    } else {
        kept_files(entries.drop_last(), exts)
    }
}

/// Whether the size and modification time of an entry are needed: only for
/// a regular file with an audio name.
pub fn wants_stat(file_name: Option<&str>, is_file: bool, cfg: &ScannerConfig) -> (r: bool)
    ensures
        r == match file_name {
            Some(name) => is_file && audio_name(name@, cfg.audio_exts@),
            None => false,
        },
{
    match file_name {
        Some(name) => is_file && is_audio(name, cfg),
        None => false,
    }
}

/// Collects the audio files among the entries of a walk. An entry whose
/// size or modification time could not be read is dropped; the scan goes on.
pub fn scan_music_with_cfg(cfg: &ScannerConfig, entries: &Vec<FoundEntry>) -> (files: Vec<
    FsScannedFile,
>)
    ensures
        files@ == kept_files(entries@, cfg.audio_exts@),
{
    let mut files: Vec<FsScannedFile> = Vec::new();
    let mut i: usize = 0;
    while i < entries.len()
        invariant
            i <= entries.len(),
            files@ == kept_files(entries@.take(i as int), cfg.audio_exts@),
        decreases entries.len() - i,
    {
        assert(entries@.take(i + 1).drop_last() == entries@.take(i as int));
        let entry = &entries[i];
        let wanted = match &entry.file_name {
            Some(name) => wants_stat(Some(name.as_str()), entry.is_file, cfg),
            None => false,
        };
        if wanted {
            match entry.stat {
                Some((size, modified)) => {
                    files.push(FsScannedFile { path: entry.path.clone(), size, modified });
                },
                None => {},
            }
        }
        i += 1;
    }
    assert(entries@.take(entries@.len() as int) == entries@);
    files
}

/// The device of a file: the one that was determined, else the unknown
/// device.
pub fn device_or_unknown(device: Result<String, String>) -> (id: String)
    ensures
        id@ == match device {
            Ok(d) => d@,
            Err(_) => unknown_device(),
        },
{
    match device {
        Ok(d) => d,
        Err(_) => String::from_str("UNKNOWN_DEVICE"),
    }
}

/// The files among `files[..upto]` that lie on `device`, in order, where
/// file `i` lies on `devices[i]`.
pub open spec fn files_on(
    files: Seq<FsScannedFile>,
    devices: Seq<String>,
    device: Seq<char>,
    upto: int,
) -> Seq<FsScannedFile>
    decreases upto,
{
    if upto <= 0 {
        Seq::empty()
    } else if devices[upto - 1]@ == device {
        files_on(files, devices, device, upto - 1).push(files[upto - 1])
    } else {
        files_on(files, devices, device, upto - 1)
    }
}

/// The index among the first `upto` files of the first that lies on
/// `device`, or `upto` if none does.
pub open spec fn first_on(devices: Seq<String>, device: Seq<char>, upto: int) -> int
    decreases upto,
{
    if upto <= 0 {
        0
    } else if first_on(devices, device, upto - 1) < upto - 1 {
        first_on(devices, device, upto - 1)
    } else if devices[upto - 1]@ == device {
        upto - 1
    } else {
        upto
    }
}

/// Where `first_on` points: at a file on the device, before which none lies
/// on it; or past the files, and then none lies on it.
pub proof fn lemma_first_on(devices: Seq<String>, device: Seq<char>, upto: int)
    requires
        0 <= upto <= devices.len(),
    ensures
        0 <= first_on(devices, device, upto) <= upto,
        first_on(devices, device, upto) < upto ==> devices[first_on(devices, device, upto)]@
            == device,
        forall|i: int|
            0 <= i < first_on(devices, device, upto) ==> (#[trigger] devices[i])@ != device,
    decreases upto,
{
    if upto > 0 {
        lemma_first_on(devices, device, upto - 1);
    }
}

/// Whether `groups` partitions the first `upto` files by device: one group
/// for each device that occurs, holding the files of that device in their
/// order, no group twice, and the groups in the order in which their
/// devices first occur.
pub open spec fn is_grouping(
    files: Seq<FsScannedFile>,
    devices: Seq<String>,
    groups: Seq<FsScanGroup>,
    upto: int,
) -> bool {
    &&& forall|g: int|
        #![trigger groups[g]]
        0 <= g < groups.len() ==> groups[g].files@.len() > 0 && groups[g].files@ == files_on(
            files,
            devices,
            groups[g].device.id@,
            upto,
        )
    &&& forall|g: int, h: int|
        0 <= g < h < groups.len() ==> (#[trigger] groups[g]).device.id@ != (
        #[trigger] groups[h]).device.id@
    &&& forall|i: int|
        0 <= i < upto ==> exists|g: int|
            0 <= g < groups.len() && (#[trigger] groups[g]).device.id@ == (#[trigger] devices[i])@
    &&& forall|g: int|
        0 <= g < groups.len() ==> first_on(devices, (#[trigger] groups[g]).device.id@, upto) < upto
    &&& forall|g: int, h: int|
        0 <= g < h < groups.len() ==> first_on(devices, (#[trigger] groups[g]).device.id@, upto)
            < first_on(devices, (#[trigger] groups[h]).device.id@, upto)
}

proof fn lemma_files_on_absent(
    files: Seq<FsScannedFile>,
    devices: Seq<String>,
    device: Seq<char>,
    upto: int,
)
    requires
        0 <= upto <= devices.len(),
        forall|i: int| 0 <= i < upto ==> (#[trigger] devices[i])@ != device,
    ensures
        files_on(files, devices, device, upto).len() == 0,
    decreases upto,
{
    if upto > 0 {
        lemma_files_on_absent(files, devices, device, upto - 1);
    }
}

/// The files of a list of files with their devices.
pub open spec fn files_of(located: Seq<(FsScannedFile, String)>) -> Seq<FsScannedFile> {
    Seq::new(located.len(), |i: int| located[i].0)
}

/// The devices of a list of files with their devices.
pub open spec fn devices_of(located: Seq<(FsScannedFile, String)>) -> Seq<String> {
    Seq::new(located.len(), |i: int| located[i].1)
}

/// Groups files by device. Each file comes with the device it lies on. The
/// groups come in the order in which their devices first occur; no
/// bandwidth is set yet.
pub fn group_by_device(located: &Vec<(FsScannedFile, String)>) -> (groups: Vec<FsScanGroup>)
    ensures
        is_grouping(
            files_of(located@),
            devices_of(located@),
            groups@,
            located.len() as int,
        ),
        forall|g: int|
            0 <= g < groups.len() ==> (#[trigger] groups[g]).device.bandwidth_mb_s is None
                && !groups[g].device.probed,
{
    let mut files: Vec<FsScannedFile> = Vec::new();
    let mut devices: Vec<String> = Vec::new();
    let mut i: usize = 0;
    while i < located.len()
        invariant
            i <= located.len(),
            files@.len() == i,
            devices@.len() == i,
            forall|j: int| 0 <= j < i ==> files@[j] == located@[j].0,
            forall|j: int| 0 <= j < i ==> devices@[j] == located@[j].1,
        decreases located.len() - i,
    {
        files.push(located[i].0.clone());
        devices.push(located[i].1.clone());
        i += 1;
    }
    assert(files@ == files_of(located@));
    assert(devices@ == devices_of(located@));
    group_files(&files, &devices)
}

/// Groups `files` by device, `devices[i]` being the device of `files[i]`.
fn group_files(files: &Vec<FsScannedFile>, devices: &Vec<String>) -> (groups: Vec<FsScanGroup>)
    requires
        files.len() == devices.len(),
    ensures
        is_grouping(files@, devices@, groups@, files.len() as int),
        forall|g: int|
            0 <= g < groups.len() ==> (#[trigger] groups[g]).device.bandwidth_mb_s is None
                && !groups[g].device.probed,
{
    let mut groups: Vec<FsScanGroup> = Vec::new();
    let mut i: usize = 0;
    while i < files.len()
        invariant
            i <= files.len(),
            files.len() == devices.len(),
            is_grouping(files@, devices@, groups@, i as int),
            forall|g: int|
                0 <= g < groups.len() ==> (#[trigger] groups[g]).device.bandwidth_mb_s is None
                    && !groups[g].device.probed,
        decreases files.len() - i,
    {
        let ghost before = groups@;
        let mut g: usize = 0;
        let mut found: Option<usize> = None;
        while g < groups.len()
            invariant_except_break
                found is None,
                forall|h: int| 0 <= h < g ==> (#[trigger] groups[h]).device.id@ != devices[i as int]@,
            invariant
                g <= groups.len(),
                groups@ == before,
                i < devices.len(),
            ensures
                groups@ == before,
                found matches Some(at) ==> at < groups.len() && groups[at as int].device.id@
                    == devices[i as int]@,
                found is None ==> forall|h: int|
                    0 <= h < groups.len() ==> (#[trigger] groups[h]).device.id@ != devices[i as int]@,
            decreases groups.len() - g,
        {
            if str_eq(groups[g].device.id.as_str(), devices[i].as_str()) {
                found = Some(g);
                break ;
            }
            g += 1;
        }
        let file = files[i].clone();
        match found {
            Some(at) => {
                let mut group = groups.remove(at);
                group.files.push(file);
                groups.insert(at, group);
                proof {
                    let after = groups@;
                    assert(after.len() == before.len());
                    assert forall|h: int| 0 <= h < after.len() implies (#[trigger] after[h]).device
                        == before[h].device by {
                        if h != at {
                            assert(after[h] == before[h]);
                        }
                    }
                    assert forall|h: int|
                        #![trigger after[h]]
                        0 <= h < after.len() implies after[h].files@.len() > 0 && after[h].files@
                        == files_on(files@, devices@, after[h].device.id@, i + 1) by {
                        if h != at {
                            assert(after[h] == before[h]);
                            assert(before[h].device.id@ != before[at as int].device.id@);
                        }
                    }
                    assert forall|k: int| 0 <= k < i + 1 implies exists|h: int|
                        0 <= h < after.len() && (#[trigger] after[h]).device.id@ == (
                        #[trigger] devices@[k])@ by {
                        if k < i {
                            let h = choose|h: int|
                                0 <= h < before.len() && (#[trigger] before[h]).device.id@
                                    == devices@[k]@;
                            assert(after[h].device.id@ == devices@[k]@);
                        } else {
                            assert(after[at as int].device.id@ == devices@[k]@);
                        }
                    }
                    assert forall|h: int| 0 <= h < after.len() implies first_on(
                        devices@,
                        (#[trigger] after[h]).device.id@,
                        i + 1,
                    ) == first_on(devices@, before[h].device.id@, i as int) && first_on(
                        devices@,
                        before[h].device.id@,
                        i as int,
                    ) < i by {
                        assert(after[h].device == before[h].device);
                    }
                }
            },
            None => {
                let mut group_files: Vec<FsScannedFile> = Vec::new();
                group_files.push(file);
                groups.push(
                    FsScanGroup {
                        device: FsDevice {
                            id: devices[i].clone(),
                            bandwidth_mb_s: None,
                            probed: false,
                        },
                        files: group_files,
                    },
                );
                proof {
                    let after = groups@;
                    lemma_files_on_absent(files@, devices@, devices@[i as int]@, i as int);
                    lemma_first_on(devices@, devices@[i as int]@, i as int);
                    assert(first_on(devices@, devices@[i as int]@, i as int) == i);
                    assert forall|h: int| 0 <= h < after.len() implies first_on(
                        devices@,
                        (#[trigger] after[h]).device.id@,
                        i + 1,
                    ) == (if h < before.len() {
                        first_on(devices@, before[h].device.id@, i as int)
                    } else {
                        i as int
                    }) && (h < before.len() ==> first_on(devices@, before[h].device.id@, i as int)
                        < i) by {
                        if h < before.len() {
                            assert(after[h] == before[h]);
                        }
                    }
                    assert forall|h: int|
                        #![trigger after[h]]
                        0 <= h < after.len() implies after[h].files@.len() > 0 && after[h].files@
                        == files_on(files@, devices@, after[h].device.id@, i + 1) by {
                        if h < before.len() {
                            assert(after[h] == before[h]);
                        } else {
                            assert(after[h].files@ == Seq::<FsScannedFile>::empty().push(
                                files@[i as int],
                            ));
                        }
                    }
                    assert forall|k: int| 0 <= k < i + 1 implies exists|h: int|
                        0 <= h < after.len() && (#[trigger] after[h]).device.id@ == (
                        #[trigger] devices@[k])@ by {
                        if k < i {
                            let h = choose|h: int|
                                0 <= h < before.len() && (#[trigger] before[h]).device.id@
                                    == devices@[k]@;
                            assert(after[h] == before[h]);
                        } else {
                            assert(after[before.len() as int].device.id@ == devices@[k]@);
                        }
                    }
                    assert forall|a: int, b: int| 0 <= a < b < after.len() implies (
                    #[trigger] after[a]).device.id@ != (#[trigger] after[b]).device.id@ by {
                        assert(after[a] == before[a]);
                        if b < before.len() {
                            assert(after[b] == before[b]);
                        }
                    }
                }
            },
        }
        i += 1;
    }
    groups
}

/// The file to read for measuring the device of a group: the group's first
/// file. None is read where the device is the unknown one, where the device
/// was measured before, or where the group has no file.
pub open spec fn sample_of(known: Map<Seq<char>, Option<u64>>, group: FsScanGroup) -> Option<
    Seq<char>,
> {
    if group.device.id@ == unknown_device() || known.contains_key(group.device.id@)
        || group.files@.len() == 0 {
        None
    } else {
        Some(group.files@[0].path@)
    }
}

/// The bandwidth of a group's device: none for the unknown device; else
/// what is remembered of the device; else what the measurement just told, if
/// it was run and read its sample.
pub open spec fn bandwidth_of(
    known: Map<Seq<char>, Option<u64>>,
    device: Seq<char>,
    outcome: ProbeOutcome,
) -> Option<u64> {
    if device == unknown_device() {
        None
    } else if known.contains_key(device) {
        known[device]
    } else {
        match outcome {
            ProbeOutcome::Returned(speed) => speed,
            _ => None,
        }
    }
}

/// Whether a measurement of a group's device was run, before or just now,
/// whether or not it could read its sample. The unknown device is never
/// measured.
pub open spec fn probed_of(
    known: Map<Seq<char>, Option<u64>>,
    device: Seq<char>,
    outcome: ProbeOutcome,
) -> bool {
    device != unknown_device() && (known.contains_key(device) || !(outcome is NotRun))
}

/// Tells which file to read for measuring the device of a group, if the
/// device has to be measured at all.
pub fn probe_target(known: &DeviceCache, group: &FsScanGroup) -> (r: Option<String>)
    ensures
        r is Some <==> sample_of(known@, *group) is Some,
        r matches Some(path) ==> Some(path@) == sample_of(known@, *group),
{
    if str_eq(group.device.id.as_str(), "UNKNOWN_DEVICE") {
        return None;
    }
    match known.get(group.device.id.as_str()) {
        Some(_) => None,
        None => {
            if group.files.len() == 0 {
                None
            } else {
                Some(group.files[0].path.clone())
            }
        },
    }
}

/// What a timed read of a sample told: the outcome of a measurement that
/// was run, from the bandwidth it gave or the failure to read.
pub fn probe_outcome(measured: Result<Option<u64>, String>) -> (r: ProbeOutcome)
    ensures
        r == match measured {
            Ok(speed) => ProbeOutcome::Returned(speed),
            Err(_) => ProbeOutcome::Failed,
        },
{
    match measured {
        Ok(speed) => ProbeOutcome::Returned(speed),
        Err(_) => ProbeOutcome::Failed,
    }
}

/// Gives each group the bandwidth of its device: what is remembered of the
/// device, else what the measurement that comes with the group just told.
/// A group is marked as measured where its device was measured before or
/// a measurement was run now, whatever came of it; such a device is
/// remembered and never measured again. The group of the unknown device has
/// no bandwidth.
pub fn scan_groups_async(known: &DeviceCache, measured: Vec<(FsScanGroup, ProbeOutcome)>) -> (r:
    Vec<FsScanGroup>)
    ensures
        r.len() == measured.len(),
        forall|g: int|
            #![trigger r[g]]
            0 <= g < r.len() ==> {
                &&& r[g].device.id == measured[g].0.device.id
                &&& r[g].files == measured[g].0.files
                &&& r[g].device.bandwidth_mb_s == bandwidth_of(
                    known@,
                    measured[g].0.device.id@,
                    measured[g].1,
                )
                &&& r[g].device.probed == probed_of(
                    known@,
                    measured[g].0.device.id@,
                    measured[g].1,
                )
            },
{
    let ghost given = measured@;
    let mut rest = measured;
    let mut out: Vec<FsScanGroup> = Vec::new();
    let n = rest.len();
    let mut i: usize = 0;
    while i < n
        invariant
            i <= n,
            n == given.len(),
            rest@.len() == n - i,
            forall|j: int| 0 <= j < rest@.len() ==> rest@[j] == given[i + j],
            out@.len() == i,
            forall|g: int|
                #![trigger out[g]]
                0 <= g < i ==> {
                    &&& out[g].device.id == given[g].0.device.id
                    &&& out[g].files == given[g].0.files
                    &&& out[g].device.bandwidth_mb_s == bandwidth_of(
                        known@,
                        given[g].0.device.id@,
                        given[g].1,
                    )
                    &&& out[g].device.probed == probed_of(
                        known@,
                        given[g].0.device.id@,
                        given[g].1,
                    )
                },
        decreases n - i,
    {
        let (group, outcome) = rest.remove(0);
        let (bandwidth, probed) = if str_eq(group.device.id.as_str(), "UNKNOWN_DEVICE") {
            (None, false)
        } else {
            match known.get(group.device.id.as_str()) {
                Some(remembered) => (remembered, true),
                None => match outcome {
                    ProbeOutcome::Returned(speed) => (speed, true),
                    ProbeOutcome::Failed => (None, true),
                    ProbeOutcome::NotRun => (None, false),
                },
            }
        };
        out.push(
            FsScanGroup {
                device: FsDevice { id: group.device.id, bandwidth_mb_s: bandwidth, probed },
                files: group.files,
            },
        );
        i += 1;
    }
    out
}

} // verus!
