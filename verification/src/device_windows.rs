//! Device identifiers on Windows: the drive of the path.

use vstd::prelude::*;

verus! {

/// The first component of a path, as far as the drive is concerned.
#[derive(Debug, Clone, Copy, PartialEq, Eq, Structural)]
pub enum DrivePrefix {
    /// A drive prefix such as `C:`, plain or verbatim, with its letter.
    Disk(u8),
    /// A prefix of another kind, such as that of a network share.
    Other,
    /// The path starts with no prefix.
    Missing,
}

/// The identifier for a drive prefix.
pub open spec fn drive_id(prefix: DrivePrefix) -> Seq<char> {
    match prefix {
        DrivePrefix::Disk(letter) => seq![letter as char, ':'],
        DrivePrefix::Other => "OTHER_DRIVE"@,
        DrivePrefix::Missing => "NO_DRIVE"@,
    }
}

/// The identifier of the device of a file on Windows: the drive letter with
/// a colon, as in `C:`. Partitions are told apart, physical disks are not.
pub fn device_id(prefix: DrivePrefix) -> (r: Result<String, String>)
    ensures
        r matches Ok(id) && id@ == drive_id(prefix),
{
    match prefix {
        DrivePrefix::Disk(letter) => {
            let mut id = String::new();
            id.push(letter as char);
            id.push(':');
            assert(id@ == seq![letter as char, ':']);
            Ok(id)
        },
        DrivePrefix::Other => Ok(String::from_str("OTHER_DRIVE")),
        DrivePrefix::Missing => Ok(String::from_str("NO_DRIVE")),
    }
}

} // verus!
