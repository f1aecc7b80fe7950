//! The scanner as the service sees it: it remembers the bandwidth of each
//! device, so that no device is measured again.

use vstd::prelude::*;
use crate::errors::ScanError;
use crate::errors::ScannerError;
use crate::fs_scanner::FsScanGroup;
use crate::fs_scanner::FsScannedFile;
use crate::fs_scanner::probed_of;
use crate::fs_scanner::ProbeOutcome;
use crate::fs_scanner::sample_of;
use crate::fs_scanner::unknown_device;
use crate::scan::ScanDevice;
use crate::scan::ScanGroup;
use crate::scan::ScannedFile;
use crate::text::str_eq;

verus! {

/// The map that a list of `(device, bandwidth)` pairs builds when each pair
/// is inserted in turn.
pub open spec fn speeds_of(pairs: Seq<(String, Option<u64>)>) -> Map<Seq<char>, Option<u64>>
    decreases pairs.len(),
{
    if pairs.len() == 0 {
        Map::empty()
    } else {
        speeds_of(pairs.drop_last()).insert(pairs.last().0@, pairs.last().1)
    }
}

/// What is remembered of each device on which a measurement was run: its
/// bandwidth in MiB/s, or that the measurement told nothing. A device that
/// the cache holds is not measured again.
#[derive(Debug)]
pub struct DeviceCache {
    entries: Vec<(String, Option<u64>)>,
}

impl DeviceCache {
    /// The cache as a map from device identifier to bandwidth.
    pub closed spec fn view(&self) -> Map<Seq<char>, Option<u64>> {
        speeds_of(self.entries@)
    }

    /// A cache that knows no device.
    pub fn new() -> (cache: Self)
        ensures
            cache@ == Map::<Seq<char>, Option<u64>>::empty(),
    {
        DeviceCache { entries: Vec::new() }
    }

    /// Remembers what the measurement of a device told, its bandwidth or
    /// nothing, replacing what was known of it.
    pub fn insert(&mut self, device: String, speed: Option<u64>)
        ensures
            final(self)@ == old(self)@.insert(device@, speed),
    {
        self.entries.push((device, speed));
        assert(self.entries@.drop_last() == old(self).entries@);
    }

    /// What is remembered of a device, if it was measured.
    pub fn get(&self, device: &str) -> (r: Option<Option<u64>>)
        ensures
            r is Some <==> self@.contains_key(device@),
            r matches Some(speed) ==> speed == self@[device@],
    {
        let mut i: usize = self.entries.len();
        assert(self.entries@.take(i as int) == self.entries@);
        while i > 0
            invariant
                i <= self.entries.len(),
                speeds_of(self.entries@).contains_key(device@) <==> speeds_of(
                    self.entries@.take(i as int),
                ).contains_key(device@),
                speeds_of(self.entries@).contains_key(device@) ==> speeds_of(
                    self.entries@,
                )[device@] == speeds_of(self.entries@.take(i as int))[device@],
            decreases i,
        {
            assert(self.entries@.take(i as int).drop_last() == self.entries@.take(i - 1));
            if str_eq(self.entries[i - 1].0.as_str(), device) {
                return Some(self.entries[i - 1].1);
            }
            i -= 1;
        }
        assert(self.entries@.take(0).len() == 0);
        None
    }

    /// A copy of the cache as it stands.
    pub fn snapshot(&self) -> (copy: Self)
        ensures
            copy@ == self@,
    {
        let mut entries: Vec<(String, Option<u64>)> = Vec::new();
        let mut i: usize = 0;
        while i < self.entries.len()
            invariant
                i <= self.entries.len(),
                entries@ == self.entries@.take(i as int),
            decreases self.entries.len() - i,
        {
            assert(self.entries@.take(i + 1) == self.entries@.take(i as int).push(
                self.entries@[i as int],
            ));
            entries.push((self.entries[i].0.clone(), self.entries[i].1));
            i += 1;
        }
        assert(self.entries@.take(self.entries@.len() as int) == self.entries@);
        DeviceCache { entries }
    }
}

/// The cache after the bandwidths of the first `upto` groups were
/// recorded: each group on whose device a measurement was run enters what
/// it told under its device.
pub open spec fn recorded(known: Map<Seq<char>, Option<u64>>, groups: Seq<FsScanGroup>, upto: int) -> Map<Seq<char>, Option<u64>>
    decreases upto,
{
    if upto <= 0 {
        known
    } else {
        if groups[upto - 1].device.probed {
            recorded(known, groups, upto - 1).insert(
                groups[upto - 1].device.id@,
                groups[upto - 1].device.bandwidth_mb_s,
            )
        } else {
            recorded(known, groups, upto - 1)
        }
    }
}

/// Recording never forgets a device, and every group with a bandwidth has
/// its device in the cache afterwards.
pub proof fn lemma_recorded_keeps(known: Map<Seq<char>, Option<u64>>, groups: Seq<FsScanGroup>, upto: int)
    requires
        0 <= upto <= groups.len(),
    ensures
        forall|device: Seq<char>|
            known.contains_key(device) ==> #[trigger] recorded(known, groups, upto).contains_key(
                device,
            ),
        forall|g: int|
            0 <= g < upto && (#[trigger] groups[g]).device.probed ==> recorded(
                known,
                groups,
                upto,
            ).contains_key(groups[g].device.id@),
    decreases upto,
{
    if upto > 0 {
        lemma_recorded_keeps(known, groups, upto - 1);
        assert forall|device: Seq<char>| known.contains_key(device) implies #[trigger] recorded(
            known,
            groups,
            upto,
        ).contains_key(device) by {
            assert(recorded(known, groups, upto - 1).contains_key(device));
        }
    }
}

/// A device is measured at most once: after a scan on which a measurement
/// of the device was run, whatever came of it, no later scan is asked to
/// read a sample from it, whatever files it then holds; and the later scan
/// gives the device what that measurement told.
pub proof fn lemma_measured_once(
    known: Map<Seq<char>, Option<u64>>,
    groups: Seq<FsScanGroup>,
    g: int,
    later: FsScanGroup,
)
    requires
        0 <= g < groups.len(),
        groups[g].device.probed,
        later.device.id@ == groups[g].device.id@,
    ensures
        sample_of(recorded(known, groups, groups.len() as int), later) is None,
        forall|outcome: ProbeOutcome|
            probed_of(
                recorded(known, groups, groups.len() as int),
                later.device.id@,
                outcome,
            ) || later.device.id@ == unknown_device(),
{
    lemma_recorded_keeps(known, groups, groups.len() as int);
}

/// A measurement that was run is never run again, whatever came of it: the
/// group that `scan_groups_async` makes of it is marked as measured, so its
/// device is remembered, even where the sample could not be read or a read
/// that took no time gave no bandwidth.
pub proof fn lemma_run_is_remembered(
    known: Map<Seq<char>, Option<u64>>,
    outcome: ProbeOutcome,
    groups: Seq<FsScanGroup>,
    g: int,
    later: FsScanGroup,
)
    requires
        0 <= g < groups.len(),
        groups[g].device.id@ != unknown_device(),
        !(outcome is NotRun),
        groups[g].device.probed == probed_of(known, groups[g].device.id@, outcome),
        later.device.id@ == groups[g].device.id@,
    ensures
        sample_of(recorded(known, groups, groups.len() as int), later) is None,
{
    lemma_measured_once(known, groups, g, later);
}

/// The scanner's error as the service sees it.
pub fn map_scanner_error(err: ScannerError) -> (r: ScanError)
    ensures
        match err {
            ScannerError::Io(detail) => r matches ScanError::Io(m) && m@ == detail@,
            ScannerError::Walker(detail) => r matches ScanError::Internal(m) && m@ == detail@,
            ScannerError::Config(inner) => r matches ScanError::Internal(m) && m@
                == inner.message(),
        },
{
    match err {
        ScannerError::Io(detail) => ScanError::Io(detail),
        ScannerError::Walker(detail) => ScanError::Internal(detail),
        ScannerError::Config(inner) => ScanError::Internal(inner.to_string()),
    }
}

/// The error of a scanner whose cache can no longer be locked.
pub fn poisoned_error() -> (r: ScanError)
    ensures
        r matches ScanError::Internal(m) && m@ == "Scanner mutex poisoned"@,
{
    ScanError::Internal(String::from_str("Scanner mutex poisoned"))
}

/// A scanned file as the service sees it.
pub open spec fn core_file(f: FsScannedFile) -> ScannedFile {
    ScannedFile { path: f.path, size_bytes: f.size, modified_unix: f.modified }
}

/// Whether `group` is the scanner's group `g` as the service sees it.
pub open spec fn is_core_group(g: FsScanGroup, group: ScanGroup) -> bool {
    &&& group.device.id == g.device.id
    &&& group.device.bandwidth_mb_s == g.device.bandwidth_mb_s
    &&& group.files@.len() == g.files@.len()
    &&& forall|i: int| 0 <= i < g.files@.len() ==> #[trigger] group.files@[i] == core_file(g.files@[i])
}

/// The scanner's group as the service sees it.
pub fn to_scan_group(g: FsScanGroup) -> (group: ScanGroup)
    ensures
        is_core_group(g, group),
{
    let ghost given = g.files@;
    let device = ScanDevice { id: g.device.id, bandwidth_mb_s: g.device.bandwidth_mb_s };
    let mut rest = g.files;
    let n = rest.len();
    let mut files: Vec<ScannedFile> = Vec::new();
    let mut i: usize = 0;
    while i < n
        invariant
            i <= n,
            n == given.len(),
            rest@.len() == n - i,
            forall|j: int| 0 <= j < rest@.len() ==> rest@[j] == given[i + j],
            files@.len() == i,
            forall|j: int| 0 <= j < i ==> #[trigger] files@[j] == core_file(given[j]),
        decreases n - i,
    {
        let f = rest.remove(0);
        files.push(ScannedFile { path: f.path, size_bytes: f.size, modified_unix: f.modified });
        i += 1;
    }
    ScanGroup { device, files }
}

/// The scanner of the local file system. It keeps the bandwidth of every
/// device it has measured, for as long as it lives.
#[derive(Debug)]
pub struct FsScanner {
    device_cache: DeviceCache,
}

impl FsScanner {
    /// The bandwidths that the scanner remembers, by device.
    pub closed spec fn known(&self) -> Map<Seq<char>, Option<u64>> {
        self.device_cache@
    }

    /// A scanner that has measured no device yet.
    pub fn new() -> (scanner: Self)
        ensures
            scanner.known() == Map::<Seq<char>, Option<u64>>::empty(),
    {
        FsScanner { device_cache: DeviceCache::new() }
    }

    /// A copy of the remembered bandwidths, to scan with.
    pub fn known_speeds(&self) -> (cache: DeviceCache)
        ensures
            cache@ == self.known(),
    {
        self.device_cache.snapshot()
    }

    /// Remembers the bandwidth of every group that has one.
    pub fn record_speeds(&mut self, groups: &Vec<FsScanGroup>)
        ensures
            final(self).known() == recorded(old(self).known(), groups@, groups.len() as int),
    {
        let mut i: usize = 0;
        while i < groups.len()
            invariant
                i <= groups.len(),
                self.known() == recorded(old(self).known(), groups@, i as int),
            decreases groups.len() - i,
        {
            if groups[i].device.probed {
                self.device_cache.insert(
                    groups[i].device.id.clone(),
                    groups[i].device.bandwidth_mb_s,
                );
            }
            i += 1;
        }
    }

    /// Ends a scan of the library: a failed scan yields its error as the
    /// service sees it and leaves the scanner as it was; a scan that
    /// succeeded has its bandwidths remembered and its groups handed on.
    pub fn scan_library_files(&mut self, scanned: Result<Vec<FsScanGroup>, ScannerError>) -> (r:
        Result<Vec<ScanGroup>, ScanError>)
        ensures
            match scanned {
                Ok(groups) => {
                    &&& final(self).known() == recorded(
                        old(self).known(),
                        groups@,
                        groups.len() as int,
                    )
                    &&& r matches Ok(mapped) && mapped@.len() == groups@.len() && forall|g: int|
                        0 <= g < groups@.len() ==> is_core_group(groups@[g], #[trigger] mapped@[g])
                },
                Err(err) => {
                    &&& final(self).known() == old(self).known()
                    &&& r matches Err(e) && match err {
                        ScannerError::Io(detail) => e matches ScanError::Io(m) && m@ == detail@,
                        ScannerError::Walker(detail) => e matches ScanError::Internal(m) && m@
                            == detail@,
                        ScannerError::Config(inner) => e matches ScanError::Internal(m) && m@
                            == inner.message(),
                    }
                },
            },
    {
        let groups = match scanned {
            Ok(groups) => groups,
            Err(err) => {
                return Err(map_scanner_error(err));
            },
        };
        self.record_speeds(&groups);
        let ghost given = groups@;
        let mut rest = groups;
        let n = rest.len();
        let mut mapped: Vec<ScanGroup> = Vec::new();
        let mut i: usize = 0;
        while i < n
            invariant
                i <= n,
                n == given.len(),
                rest@.len() == n - i,
                forall|j: int| 0 <= j < rest@.len() ==> rest@[j] == given[i + j],
                mapped@.len() == i,
                forall|g: int| 0 <= g < i ==> is_core_group(given[g], #[trigger] mapped@[g]),
            decreases n - i,
        {
            let group = rest.remove(0);
            mapped.push(to_scan_group(group));
            i += 1;
        }
        Ok(mapped)
    }
}

impl Default for FsScanner {
    fn default() -> (scanner: Self)
        ensures
            scanner.known() == Map::<Seq<char>, Option<u64>>::empty(),
    {
        FsScanner::new()
    }
}

} // verus!
