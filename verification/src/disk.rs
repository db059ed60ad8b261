//! The backing file of a block device, as far as the device looks into it.

use vstd::prelude::*;

use crate::config::FileEngineType;
use crate::error::{OsError, VirtioBlockError};
use crate::virtio::{SECTOR_SHIFT, SECTOR_SIZE, VIRTIO_BLK_ID_BYTES};

verus! {

/// The access that a backing file is opened with.
#[derive(Clone, Copy, Debug, PartialEq, Eq, Structural)]
pub struct OpenAccess {
    /// Open for reading.
    pub read: bool,
    /// Open for writing.
    pub write: bool,
}

/// What the host is asked to open a backing file with.
#[derive(Clone, Debug, PartialEq, Eq)]
pub struct ImageRequest {
    /// Path of the file.
    pub path: String,
    /// The access that it is opened with.
    pub access: OpenAccess,
    /// Engine that serves the file.
    pub engine: FileEngineType,
}

/// The numbers by which the host tells files apart.
#[derive(Clone, Copy, Debug, PartialEq, Eq, Structural)]
pub struct FileIdentity {
    /// The device that holds the file.
    pub dev: u64,
    /// The device that the file stands for, if it is a special file.
    pub rdev: u64,
    /// The inode of the file.
    pub ino: u64,
}

/// What the host found when it opened a backing file.
#[derive(Clone, Copy, Debug, PartialEq, Eq)]
pub enum ImageReport {
    /// The file could not be opened, or its end could not be found.
    Failed(OsError),
    /// The file was opened.
    Opened {
        /// Offset of the end of the file.
        size: u64,
        /// The identity of the file, where its metadata could be read.
        metadata: Result<FileIdentity, OsError>,
        /// Whether the engine took the file.
        engine: Result<(), OsError>,
    },
}

/// What the device knows of its backing file.
#[derive(Clone, Debug, PartialEq, Eq)]
pub struct DiskProperties {
    /// Path of the file.
    pub file_path: String,
    /// Engine that serves the file.
    pub file_engine: FileEngineType,
    /// Number of whole sectors in the file.
    pub nsectors: u64,
    /// Identifier that the guest can read.
    pub image_id: [u8; VIRTIO_BLK_ID_BYTES],
}

/// The character of a decimal digit.
pub open spec fn digit(d: nat) -> char {
    if d == 0 {
        '0'
    } else if d == 1 {
        '1'
    } else if d == 2 {
        '2'
    } else if d == 3 {
        '3'
    } else if d == 4 {
        '4'
    } else if d == 5 {
        '5'
    } else if d == 6 {
        '6'
    } else if d == 7 {
        '7'
    } else if d == 8 {
        '8'
    } else {
        '9'
    }
}

/// A number in decimal notation, without leading zeroes.
pub open spec fn decimal(n: nat) -> Seq<char>
    decreases n,
{
    if n < 10 {
        seq![digit(n)]
    } else {
        decimal(n / 10).push(digit(n % 10))
    }
}

/// The three numbers of a file's identity in decimal notation, one behind the
/// other.
pub open spec fn device_id(file: FileIdentity) -> Seq<char> {
    decimal(file.dev as nat) + decimal(file.rdev as nat) + decimal(file.ino as nat)
}

/// The identifier that the guest reads: the device identifier, cut or filled
/// with zeroes to the length of the field. Without metadata it is all zeroes.
pub open spec fn disk_image_id(metadata: Result<FileIdentity, OsError>) -> Seq<u8> {
    match metadata {
        Ok(file) => Seq::new(
            VIRTIO_BLK_ID_BYTES as nat,
            |i: int|
                if i < device_id(file).len() {
                    device_id(file)[i] as u8
                } else {
                    0u8
                },
        ),
        Err(_) => Seq::new(VIRTIO_BLK_ID_BYTES as nat, |i: int| 0u8),
    }
}

/// Number of whole sectors in a file of `size` bytes.
pub open spec fn sector_count(size: u64) -> int {
    size as int / SECTOR_SIZE as int
}

proof fn lemma_decimal_is_ascii(n: nat)
    ensures
        vstd::utf8::is_ascii_chars(decimal(n)),
    decreases n,
{
    if n >= 10 {
        lemma_decimal_is_ascii(n / 10);
    }
}

/// The text of one decimal digit.
fn digit_text(d: u64) -> (text: &'static str)
    requires
        d < 10,
    ensures
        text@ == seq![digit(d as nat)],
{
    proof {
        reveal_strlit("0");
        reveal_strlit("1");
        reveal_strlit("2");
        reveal_strlit("3");
        reveal_strlit("4");
        reveal_strlit("5");
        reveal_strlit("6");
        reveal_strlit("7");
        reveal_strlit("8");
        reveal_strlit("9");
    }
    if d == 0 {
        "0"
    } else if d == 1 {
        "1"
    } else if d == 2 {
        "2"
    } else if d == 3 {
        "3"
    } else if d == 4 {
        "4"
    } else if d == 5 {
        "5"
    } else if d == 6 {
        "6"
    } else if d == 7 {
        "7"
    } else if d == 8 {
        "8"
    } else {
        "9"
    }
}

/// Writes `n` in decimal notation behind what `text` holds.
fn push_decimal(text: &mut String, n: u64)
    ensures
        final(text)@ == old(text)@ + decimal(n as nat),
    decreases n,
{
    if n >= 10 {
        push_decimal(text, n / 10);
    }
    text.append(digit_text(n % 10));
}

/// Number of whole sectors in a file of `size` bytes. What lies behind the last
/// whole sector is not shown to the guest.
fn whole_sectors(size: u64) -> (nsectors: u64)
    ensures
        nsectors == sector_count(size),
{
    let nsectors: u64 = size >> SECTOR_SHIFT;
    assert(size >> 9u8 == size / 512) by (bit_vector);
    nsectors
}

impl DiskProperties {
    /// Whether the properties are those of the file at `path`, served by
    /// `engine`, which has `size` bytes and the given identity.
    pub open spec fn describes(
        self,
        path: String,
        engine: FileEngineType,
        size: u64,
        metadata: Result<FileIdentity, OsError>,
    ) -> bool {
        &&& self.file_path == path
        &&& self.file_engine == engine
        &&& self.nsectors == sector_count(size)
        &&& self.image_id@ == disk_image_id(metadata)
    }

    /// What an attempt to serve the file at `path` yields, given what the host
    /// found there.
    pub open spec fn opens_as(
        path: String,
        engine_type: FileEngineType,
        report: ImageReport,
        result: Result<DiskProperties, VirtioBlockError>,
    ) -> bool {
        match report {
            ImageReport::Failed(error) => result == Err::<DiskProperties, VirtioBlockError>(
                VirtioBlockError::BackingFile(error, path),
            ),
            ImageReport::Opened { size, metadata, engine } => match engine {
                Err(error) => result == Err::<DiskProperties, VirtioBlockError>(
                    VirtioBlockError::FileEngine(error),
                ),
                Ok(_) => result matches Ok(disk) && disk.describes(
                    path,
                    engine_type,
                    size,
                    metadata,
                ),
            },
        }
    }

    /// What replacing the backing file by the one at `path` changes, given what
    /// the host found there. A file that the engine refuses has already given
    /// its identifier to the disk.
    pub open spec fn updates_to(
        self,
        path: String,
        report: ImageReport,
        after: DiskProperties,
        result: Result<(), VirtioBlockError>,
    ) -> bool {
        match report {
            ImageReport::Failed(error) => {
                &&& result == Err::<(), VirtioBlockError>(
                    VirtioBlockError::BackingFile(error, path),
                )
                &&& after == self
            },
            ImageReport::Opened { size, metadata, engine } => match engine {
                Err(error) => {
                    &&& result == Err::<(), VirtioBlockError>(VirtioBlockError::FileEngine(error))
                    &&& after.file_path == self.file_path
                    &&& after.file_engine == self.file_engine
                    &&& after.nsectors == self.nsectors
                    &&& after.image_id@ == disk_image_id(metadata)
                },
                Ok(_) => {
                    &&& result == Ok::<(), VirtioBlockError>(())
                    &&& after.describes(path, self.file_engine, size, metadata)
                },
            },
        }
    }

    /// The properties of the file that the host opened at `disk_image_path`.
    pub fn new(
        disk_image_path: String,
        file_engine_type: FileEngineType,
        report: ImageReport,
    ) -> (result: Result<Self, VirtioBlockError>)
        ensures
            Self::opens_as(disk_image_path, file_engine_type, report, result),
    {
        match report {
            ImageReport::Failed(error) => Err(
                VirtioBlockError::BackingFile(error, disk_image_path),
            ),
            ImageReport::Opened { size, metadata, engine } => {
                let image_id = Self::build_disk_image_id(metadata);
                match engine {
                    Err(error) => Err(VirtioBlockError::FileEngine(error)),
                    Ok(_) => Ok(
                        DiskProperties {
                            file_path: disk_image_path,
                            file_engine: file_engine_type,
                            nsectors: whole_sectors(size),
                            image_id,
                        },
                    ),
                }
            },
        }
    }

    /// Replaces the backing file by the one that the host opened at
    /// `disk_image_path`.
    pub fn update(&mut self, disk_image_path: String, report: ImageReport) -> (result: Result<
        (),
        VirtioBlockError,
    >)
        ensures
            old(self).updates_to(disk_image_path, report, *final(self), result),
    {
        match report {
            ImageReport::Failed(error) => Err(
                VirtioBlockError::BackingFile(error, disk_image_path),
            ),
            ImageReport::Opened { size, metadata, engine } => {
                self.image_id = Self::build_disk_image_id(metadata);
                if let Err(error) = engine {
                    return Err(VirtioBlockError::FileEngine(error));
                }
                self.nsectors = whole_sectors(size);
                self.file_path = disk_image_path;
                Ok(())
            },
        }
    }

    /// The access with which the file is opened: writing is asked for unless
    /// the disk is read-only.
    pub fn open_access(is_disk_read_only: bool) -> (access: OpenAccess)
        ensures
            access == (OpenAccess { read: true, write: !is_disk_read_only }),
    {
        OpenAccess { read: true, write: !is_disk_read_only }
    }

    /// The numbers of the file's identity, one behind the other.
    fn build_device_id(metadata: Result<FileIdentity, OsError>) -> (id: Result<
        String,
        VirtioBlockError,
    >)
        ensures
            match metadata {
                Ok(file) => id matches Ok(text) && text@ == device_id(file),
                Err(error) => id == Err::<String, VirtioBlockError>(
                    VirtioBlockError::GetFileMetadata(error),
                ),
            },
    {
        match metadata {
            Ok(file) => {
                let mut text = String::new();
                push_decimal(&mut text, file.dev);
                push_decimal(&mut text, file.rdev);
                push_decimal(&mut text, file.ino);
                Ok(text)
            },
            Err(error) => Err(VirtioBlockError::GetFileMetadata(error)),
        }
    }

    /// The identifier that the guest reads.
    fn build_disk_image_id(metadata: Result<FileIdentity, OsError>) -> (id: [u8;
        VIRTIO_BLK_ID_BYTES])
        ensures
            id@ == disk_image_id(metadata),
    {
        let mut id: [u8; VIRTIO_BLK_ID_BYTES] = [0u8; VIRTIO_BLK_ID_BYTES];
        if let Ok(text) = Self::build_device_id(metadata) {
            let bytes = text.as_str().as_bytes();
            proof {
                let file = metadata->Ok_0;
                lemma_decimal_is_ascii(file.dev as nat);
                lemma_decimal_is_ascii(file.rdev as nat);
                lemma_decimal_is_ascii(file.ino as nat);
                vstd::utf8::is_ascii_chars_encode_utf8(text@);
            }
            let mut i: usize = 0;
            while i < bytes.len() && i < VIRTIO_BLK_ID_BYTES
                invariant
                    i <= bytes@.len(),
                    i <= VIRTIO_BLK_ID_BYTES,
                    id@.len() == VIRTIO_BLK_ID_BYTES,
                    forall|j: int| 0 <= j < i ==> id@[j] == bytes@[j],
                    forall|j: int| i <= j < VIRTIO_BLK_ID_BYTES ==> id@[j] == 0,
                decreases bytes@.len() - i,
            {
                id[i] = bytes[i];
                i = i + 1;
            }
        }
        id
    }
}

/// The number that decimal digits stand for.
pub open spec fn decimal_value(text: Seq<char>) -> int
    decreases text.len(),
{
    if text.len() == 0 {
        0
    } else {
        10 * decimal_value(text.drop_last()) + (text.last() as int - '0' as int)
    }
}

/// Decimal notation holds digits only and stands for the number that it was made
/// of. It begins with a zero only if that is all of it.
pub proof fn law_decimal_notation_reads_back(n: nat, i: int)
    ensures
        decimal_value(decimal(n)) == n,
        decimal(n).len() > 0,
        0 <= i < decimal(n).len() ==> '0' <= decimal(n)[i] <= '9',
        decimal(n)[0] == '0' ==> n == 0,
    decreases n,
{
    if n >= 10 {
        law_decimal_notation_reads_back(n / 10, i);
        law_decimal_notation_reads_back(n / 10, 0);
        assert(decimal(n).drop_last() =~= decimal(n / 10));
    } else {
        reveal_with_fuel(decimal_value, 2);
        assert(decimal(n).drop_last() =~= Seq::<char>::empty());
    }
}

/// The identifier of a device is its three numbers in decimal notation: first the
/// device, then the device that the file stands for, then the inode.
pub proof fn law_device_id_holds_the_identity(file: FileIdentity)
    ensures
        ({
            let dev = decimal(file.dev as nat).len() as int;
            let rdev = dev + decimal(file.rdev as nat).len();
            &&& decimal_value(device_id(file).take(dev)) == file.dev
            &&& decimal_value(device_id(file).subrange(dev, rdev)) == file.rdev
            &&& decimal_value(device_id(file).skip(rdev)) == file.ino
        }),
{
    let dev = decimal(file.dev as nat).len() as int;
    let rdev = dev + decimal(file.rdev as nat).len();
    law_decimal_notation_reads_back(file.dev as nat, 0);
    law_decimal_notation_reads_back(file.rdev as nat, 0);
    law_decimal_notation_reads_back(file.ino as nat, 0);
    assert(device_id(file).take(dev) =~= decimal(file.dev as nat));
    assert(device_id(file).subrange(dev, rdev) =~= decimal(file.rdev as nat));
    assert(device_id(file).skip(rdev) =~= decimal(file.ino as nat));
}

/// The identifier that the guest reads has 20 bytes: those of the device
/// identifier as far as they fit, then zeroes. Without metadata all are zero.
pub proof fn law_image_id_is_the_cut_device_id(metadata: Result<FileIdentity, OsError>, i: int)
    requires
        0 <= i < 20,
    ensures
        disk_image_id(metadata).len() == 20,
        metadata is Err ==> disk_image_id(metadata)[i] == 0,
        metadata matches Ok(file) ==> disk_image_id(metadata)[i] == if i < device_id(file).len() {
            device_id(file)[i] as u8
        } else {
            0
        },
{
}

/// The sectors of a file are whole and lie within it, and another one would not.
pub proof fn law_only_whole_sectors_are_counted(size: u64)
    ensures
        512 * sector_count(size) <= size < 512 * (sector_count(size) + 1),
{
}

/// A file can be served exactly if it was opened and the engine took it. It then
/// has its path, its engine, its whole sectors and its identifier. A file that
/// could not be opened is named in the error.
pub proof fn law_which_files_are_served(
    path: String,
    engine_type: FileEngineType,
    report: ImageReport,
    result: Result<DiskProperties, VirtioBlockError>,
)
    requires
        DiskProperties::opens_as(path, engine_type, report, result),
    ensures
        result is Ok <==> report matches ImageReport::Opened { engine: Ok(_), .. },
        report matches ImageReport::Failed(error) ==> result
            == Err::<DiskProperties, VirtioBlockError>(VirtioBlockError::BackingFile(error, path)),
        report matches ImageReport::Opened { engine: Err(error), .. } ==> result
            == Err::<DiskProperties, VirtioBlockError>(VirtioBlockError::FileEngine(error)),
        result matches Ok(disk) ==> {
            &&& disk.file_path == path
            &&& disk.file_engine == engine_type
            &&& 512 * disk.nsectors <= report->size < 512 * (disk.nsectors + 1)
            &&& disk.image_id@ == disk_image_id(report->metadata)
        },
{
}

/// Replacing a file keeps the engine. It succeeds exactly if the new file was
/// opened and the engine took it, and the disk is then the new file. Otherwise the
/// path and the sectors stay, and so does the identifier unless the file was
/// opened.
pub proof fn law_what_replacing_a_file_changes(
    before: DiskProperties,
    path: String,
    report: ImageReport,
    after: DiskProperties,
    result: Result<(), VirtioBlockError>,
)
    requires
        before.updates_to(path, report, after, result),
    ensures
        result is Ok <==> report matches ImageReport::Opened { engine: Ok(_), .. },
        after.file_engine == before.file_engine,
        report matches ImageReport::Failed(error) ==> result == Err::<(), VirtioBlockError>(
            VirtioBlockError::BackingFile(error, path),
        ) && after == before,
        report matches ImageReport::Opened { engine: Err(error), .. } ==> result
            == Err::<(), VirtioBlockError>(VirtioBlockError::FileEngine(error)),
        result is Err ==> after.file_path == before.file_path && after.nsectors == before.nsectors,
        result is Ok ==> {
            &&& after.file_path == path
            &&& 512 * after.nsectors <= report->size < 512 * (after.nsectors + 1)
        },
        report is Opened ==> after.image_id@ == disk_image_id(report->metadata),
{
}

} // verus!
