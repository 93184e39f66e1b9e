use vstd::prelude::*;

use vstd::utf8::encode_utf8;
use crate::text::{decimal_text, lemma_parse_decimal_round_trip, parse_u64, parsed_u64, text_is, to_upper, u64_text, upper_of};

verus! {

/// The kind of physical storage device behind a volume.
#[derive(Debug, Clone, Copy, Hash, PartialEq, Eq, Structural)]
#[allow(clippy::upper_case_acronyms)]
pub enum DiskType {
    /// Solid State Drive
    SSD,
    /// Hard Disk Drive
    HDD,
    /// Unknown or virtual disk type
    Unknown,
}

/// Disk type named by an upper-cased string.
pub open spec fn disk_type_from_upper(u: Seq<char>) -> DiskType {
    if u == "SSD"@ {
        DiskType::SSD
    } else if u == "HDD"@ {
        DiskType::HDD
    } else {
        DiskType::Unknown
    }
}

pub open spec fn disk_type_name(d: DiskType) -> Seq<char> {
    match d {
        DiskType::SSD => "SSD"@,
        DiskType::HDD => "HDD"@,
        DiskType::Unknown => "Unknown"@,
    }
}

impl DiskType {
    /// Reads a disk type, ignoring case; anything unrecognised is `Unknown`.
    pub fn from_string(disk_type: &str) -> (r: Self)
        ensures
            r == disk_type_from_upper(upper_of(disk_type@)),
    {
        let upper = to_upper(disk_type);
        Self::from_uppercase(upper.as_str())
    }

    /// Reads a disk type from an already upper-cased string.
    pub fn from_uppercase(upper: &str) -> (r: Self)
        ensures
            r == disk_type_from_upper(upper@),
    {
        if text_is(upper, "SSD") {
            DiskType::SSD
        } else if text_is(upper, "HDD") {
            DiskType::HDD
        } else {
            DiskType::Unknown
        }
    }

    /// The variant's name.
    pub fn name(&self) -> (r: String)
        ensures
            r@ == disk_type_name(*self),
    {
        match self {
            DiskType::SSD => String::from_str("SSD"),
            DiskType::HDD => String::from_str("HDD"),
            DiskType::Unknown => String::from_str("Unknown"),
        }
    }
}

/// The filesystem of a volume.
#[derive(Debug, Clone, Hash)]
#[allow(clippy::upper_case_acronyms)]
pub enum FileSystem {
    /// Windows NTFS filesystem
    NTFS,
    /// FAT32 filesystem
    FAT32,
    /// Linux EXT4 filesystem
    EXT4,
    /// Apple APFS filesystem
    APFS,
    /// ExFAT filesystem
    ExFAT,
    /// Other/unknown filesystem type
    Other(String),
}

/// A filesystem as plain values.
pub enum FileSystemView {
    NTFS,
    FAT32,
    EXT4,
    APFS,
    ExFAT,
    Other(Seq<char>),
}

impl View for FileSystem {
    type V = FileSystemView;

    open spec fn view(&self) -> FileSystemView {
        match self {
            FileSystem::NTFS => FileSystemView::NTFS,
            FileSystem::FAT32 => FileSystemView::FAT32,
            FileSystem::EXT4 => FileSystemView::EXT4,
            FileSystem::APFS => FileSystemView::APFS,
            FileSystem::ExFAT => FileSystemView::ExFAT,
            FileSystem::Other(s) => FileSystemView::Other(s@),
        }
    }
}

/// Filesystem named by an upper-cased string; an unknown name is kept.
pub open spec fn file_system_from_upper(u: Seq<char>) -> FileSystemView {
    if u == "NTFS"@ {
        FileSystemView::NTFS
    } else if u == "FAT32"@ {
        FileSystemView::FAT32
    } else if u == "EXT4"@ {
        FileSystemView::EXT4
    } else if u == "APFS"@ {
        FileSystemView::APFS
    } else if u == "EXFAT"@ {
        FileSystemView::ExFAT
    } else {
        FileSystemView::Other(u)
    }
}

/// The variant's name; every other filesystem is named `Other`.
pub open spec fn file_system_name(f: FileSystemView) -> Seq<char> {
    match f {
        FileSystemView::NTFS => "NTFS"@,
        FileSystemView::FAT32 => "FAT32"@,
        FileSystemView::EXT4 => "EXT4"@,
        FileSystemView::APFS => "APFS"@,
        FileSystemView::ExFAT => "ExFAT"@,
        FileSystemView::Other(_) => "Other"@,
    }
}

impl FileSystem {
    /// Reads a filesystem, ignoring case; an unknown name is kept upper-cased.
    pub fn from_string(fs: &str) -> (r: Self)
        ensures
            r@ == file_system_from_upper(upper_of(fs@)),
    {
        let upper = to_upper(fs);
        Self::from_uppercase(upper.as_str())
    }

    /// Reads a filesystem from an already upper-cased string.
    pub fn from_uppercase(upper: &str) -> (r: Self)
        ensures
            r@ == file_system_from_upper(upper@),
    {
        if text_is(upper, "NTFS") {
            FileSystem::NTFS
        } else if text_is(upper, "FAT32") {
            FileSystem::FAT32
        } else if text_is(upper, "EXT4") {
            FileSystem::EXT4
        } else if text_is(upper, "APFS") {
            FileSystem::APFS
        } else if text_is(upper, "EXFAT") {
            FileSystem::ExFAT
        } else {
            FileSystem::Other(upper.to_owned())
        }
    }

    /// The variant's name.
    pub fn name(&self) -> (r: String)
        ensures
            r@ == file_system_name(self@),
    {
        match self {
            FileSystem::NTFS => String::from_str("NTFS"),
            FileSystem::FAT32 => String::from_str("FAT32"),
            FileSystem::EXT4 => String::from_str("EXT4"),
            FileSystem::APFS => String::from_str("APFS"),
            FileSystem::ExFAT => String::from_str("ExFAT"),
            FileSystem::Other(_) => String::from_str("Other"),
        }
    }

    /// A copy of this value.
    pub fn duplicate(&self) -> (r: Self)
        ensures
            r@ == self@,
    {
        match self {
            FileSystem::NTFS => FileSystem::NTFS,
            FileSystem::FAT32 => FileSystem::FAT32,
            FileSystem::EXT4 => FileSystem::EXT4,
            FileSystem::APFS => FileSystem::APFS,
            FileSystem::ExFAT => FileSystem::ExFAT,
            FileSystem::Other(s) => FileSystem::Other(s.clone()),
        }
    }
}

impl PartialEq for FileSystem {
    fn eq(&self, other: &FileSystem) -> (r: bool) {
        match (self, other) {
            (FileSystem::NTFS, FileSystem::NTFS) => true,
            (FileSystem::FAT32, FileSystem::FAT32) => true,
            (FileSystem::EXT4, FileSystem::EXT4) => true,
            (FileSystem::APFS, FileSystem::APFS) => true,
            (FileSystem::ExFAT, FileSystem::ExFAT) => true,
            (FileSystem::Other(a), FileSystem::Other(b)) => text_is(a.as_str(), b.as_str()),
            _ => false,
        }
    }
}

impl vstd::std_specs::cmp::PartialEqSpecImpl for FileSystem {
    open spec fn obeys_eq_spec() -> bool {
        true
    }

    open spec fn eq_spec(&self, other: &FileSystem) -> bool {
        self@ == other@
    }
}

impl Eq for FileSystem {}

/// How a volume is mounted.
#[derive(Debug, Clone, Copy, Hash, PartialEq, Eq, Structural)]
pub enum MountType {
    /// System/boot volume
    System,
    /// External/removable volume
    External,
    /// Network-attached volume
    Network,
    /// Virtual/container volume
    Virtual,
}

/// Mount type named by an upper-cased string; anything else is `System`.
pub open spec fn mount_type_from_upper(u: Seq<char>) -> MountType {
    if u == "SYSTEM"@ {
        MountType::System
    } else if u == "EXTERNAL"@ {
        MountType::External
    } else if u == "NETWORK"@ {
        MountType::Network
    } else if u == "VIRTUAL"@ {
        MountType::Virtual
    } else {
        MountType::System
    }
}

pub open spec fn mount_type_name(m: MountType) -> Seq<char> {
    match m {
        MountType::System => "System"@,
        MountType::External => "External"@,
        MountType::Network => "Network"@,
        MountType::Virtual => "Virtual"@,
    }
}

impl MountType {
    /// Reads a mount type, ignoring case; anything unrecognised is `System`.
    pub fn from_string(mount_type: &str) -> (r: Self)
        ensures
            r == mount_type_from_upper(upper_of(mount_type@)),
    {
        let upper = to_upper(mount_type);
        Self::from_uppercase(upper.as_str())
    }

    /// Reads a mount type from an already upper-cased string.
    pub fn from_uppercase(upper: &str) -> (r: Self)
        ensures
            r == mount_type_from_upper(upper@),
    {
        if text_is(upper, "SYSTEM") {
            MountType::System
        } else if text_is(upper, "EXTERNAL") {
            MountType::External
        } else if text_is(upper, "NETWORK") {
            MountType::Network
        } else if text_is(upper, "VIRTUAL") {
            MountType::Virtual
        } else {
            MountType::System
        }
    }

    /// The variant's name.
    pub fn name(&self) -> (r: String)
        ensures
            r@ == mount_type_name(*self),
    {
        match self {
            MountType::System => String::from_str("System"),
            MountType::External => String::from_str("External"),
            MountType::Network => String::from_str("Network"),
            MountType::Virtual => String::from_str("Virtual"),
        }
    }
}


/// Whether `path` lies under `base`, compared component by component as
/// `std::path::Path::starts_with` does.
/// Components are split by the path rules of the target the crate is built for.
pub uninterp spec fn path_starts_with(path: Seq<char>, base: Seq<char>) -> bool;

/// Whether two paths are equal, compared component by component as
/// `std::path::Path`'s `==` does.
/// Components are split by the path rules of the target the crate is built for.
pub uninterp spec fn same_path(a: Seq<char>, b: Seq<char>) -> bool;

/// What BLAKE3 makes of a byte string.
pub uninterp spec fn blake3_of(input: Seq<u8>) -> Seq<u8>;

/// Relies on `std::path::Path::starts_with`: whole components only.
#[verifier::external_body]
fn path_has_prefix(path: &str, base: &str) -> (r: bool)
    ensures
        r == path_starts_with(path@, base@),
{
    std::path::Path::new(path).starts_with(base)
}

/// Relies on `<std::path::Path as PartialEq>::eq`: equal component lists.
#[verifier::external_body]
fn paths_equal(a: &str, b: &str) -> (r: bool)
    ensures
        r == same_path(a@, b@),
{
    std::path::Path::new(a) == std::path::Path::new(b)
}

/// Relies on `blake3::hash`: the 32-byte digest of its input.
#[verifier::external_body]
fn blake3_digest(input: &[u8]) -> (r: Vec<u8>)
    ensures
        r@ == blake3_of(input@),
        r@.len() == 32,
{
    blake3::hash(input).as_bytes().to_vec()
}

/// Lower-case hexadecimal digit of a value below 16.
pub open spec fn hex_digit(n: u8) -> char {
    if n < 10 {
        (('0' as u8) + n) as char
    } else {
        (('a' as u8) + n - 10) as char
    }
}

/// Two lower-case hexadecimal digits per byte, high nibble first.
pub open spec fn hex_text(b: Seq<u8>) -> Seq<char>
    decreases b.len(),
{
    if b.len() == 0 {
        Seq::empty()
    } else {
        hex_text(b.drop_last()) + seq![hex_digit(b.last() / 16), hex_digit(b.last() % 16)]
    }
}

/// Relies on `hex::encode`: two lower-case digits per byte, in order.
#[verifier::external_body]
fn hex_encode(b: &[u8]) -> (r: String)
    ensures
        r@ == hex_text(b@),
{
    hex::encode(b)
}

/// The UTF-8 bytes of a list of strings, one after the other.
pub open spec fn joined_utf8(parts: Seq<String>) -> Seq<u8>
    decreases parts.len(),
{
    if parts.len() == 0 {
        Seq::empty()
    } else {
        joined_utf8(parts.drop_last()) + encode_utf8(parts.last()@)
    }
}

/// Whether two mount points are the same path, compared either way round.
pub open spec fn same_mount(a: Seq<char>, b: Seq<char>) -> bool {
    same_path(a, b) || same_path(b, a)
}

/// Whether two lists of mount points share one.
pub open spec fn mount_points_overlap(a: Seq<String>, b: Seq<String>) -> bool {
    exists|i: int, j: int|
        0 <= i < a.len() && 0 <= j < b.len() && same_mount(#[trigger] a[i]@, #[trigger] b[j]@)
}

/// A speed as stored: zero counts as unknown.
pub open spec fn stored_speed(s: Option<u64>) -> Option<i64> {
    match s {
        Some(v) => if v != 0 { Some(v as i64) } else { None },
        None => None,
    }
}

/// Speed read back from storage.
pub open spec fn loaded_speed(s: Option<i64>) -> Option<u64> {
    match s {
        Some(v) => Some(v as u64),
        None => None,
    }
}

/// A count read back from its stored text; unreadable or missing text is zero.
pub open spec fn loaded_count(s: Option<String>) -> u64 {
    match s {
        Some(t) => match parsed_u64(t@) {
            Some(v) => v,
            None => 0,
        },
        None => 0,
    }
}

/// The column values stored for volume `v`: names of the enums, counts in
/// decimal, zero speeds left out.
pub open spec fn stored_fields(v: Volume, f: VolumeFields) -> bool {
    &&& f.name == v.name
    &&& f.mount_type@ == mount_type_name(v.mount_type)
    &&& f.mount_point == v.mount_point
    &&& f.is_mounted == v.is_mounted
    &&& f.disk_type@ == disk_type_name(v.disk_type)
    &&& f.file_system@ == file_system_name(v.file_system@)
    &&& f.read_only == v.read_only
    &&& f.error_status == v.error_status
    &&& f.total_bytes_capacity@ == decimal_text(v.total_bytes_capacity as nat)
    &&& f.total_bytes_available@ == decimal_text(v.total_bytes_available as nat)
    &&& f.read_speed_mbps == stored_speed(v.read_speed_mbps)
    &&& f.write_speed_mbps == stored_speed(v.write_speed_mbps)
}

/// Errors of the volume store.
#[derive(Debug, Clone, PartialEq, Eq)]
pub enum VolumeError {
    /// The volume has no database id yet.
    NotInDatabase,
    /// No device with this public id is known.
    DeviceNotFound(Vec<u8>),
}

/// A physical or virtual storage volume.
#[derive(Debug, Clone)]
pub struct Volume {
    /// Database ID (None if not yet committed to database)
    pub id: Option<i32>,
    /// Unique public identifier (None if not yet committed)
    pub pub_id: Option<Vec<u8>>,
    /// Database ID of the device this volume is attached to, if any
    pub device_id: Option<i32>,
    /// Human-readable volume name
    pub name: String,
    /// Type of mount (system, external, etc)
    pub mount_type: MountType,
    /// Path where the volume is mounted
    pub mount_point: String,
    /// Every mount point of the volume (APFS volumes may have several)
    pub mount_points: Vec<String>,
    /// Whether the volume is currently mounted
    pub is_mounted: bool,
    /// Type of storage device (SSD, HDD, etc)
    pub disk_type: DiskType,
    /// Filesystem type (NTFS, EXT4, etc)
    pub file_system: FileSystem,
    /// Whether the volume is mounted read-only
    pub read_only: bool,
    /// Current error status if any
    pub error_status: Option<String>,
    /// Read speed in megabytes per second
    pub read_speed_mbps: Option<u64>,
    /// Write speed in megabytes per second
    pub write_speed_mbps: Option<u64>,
    /// Total storage capacity in bytes
    pub total_bytes_capacity: u64,
    /// Available storage space in bytes
    pub total_bytes_available: u64,
}

/// A volume row as the database holds it.
#[derive(Debug, Clone)]
pub struct VolumeRecord {
    pub id: i32,
    pub pub_id: Vec<u8>,
    pub device_id: Option<i32>,
    pub name: Option<String>,
    pub mount_type: Option<String>,
    pub mount_point: Option<String>,
    pub is_mounted: Option<bool>,
    pub disk_type: Option<String>,
    pub file_system: Option<String>,
    pub read_only: Option<bool>,
    pub error_status: Option<String>,
    pub total_bytes_capacity: Option<String>,
    pub total_bytes_available: Option<String>,
    pub read_speed_mbps: Option<i64>,
    pub write_speed_mbps: Option<i64>,
}

/// The column values that creating or updating a volume row writes.
#[derive(Debug, Clone)]
pub struct VolumeFields {
    pub name: String,
    pub mount_type: String,
    pub mount_point: String,
    pub is_mounted: bool,
    pub disk_type: String,
    pub file_system: String,
    pub read_only: bool,
    pub error_status: Option<String>,
    pub total_bytes_capacity: String,
    pub total_bytes_available: String,
    pub read_speed_mbps: Option<i64>,
    pub write_speed_mbps: Option<i64>,
}

fn copy_strings(v: &Vec<String>) -> (r: Vec<String>)
    ensures
        r@ == v@,
{
    let mut r: Vec<String> = Vec::new();
    let mut i: usize = 0;
    while i < v.len()
        invariant
            i <= v@.len(),
            r@ == v@.subrange(0, i as int),
        decreases v@.len() - i,
    {
        r.push(v[i].clone());
        i = i + 1;
    }
    assert(r@ =~= v@);
    r
}

fn copy_bytes(v: &[u8]) -> (r: Vec<u8>)
    ensures
        r@ == v@,
{
    let mut r: Vec<u8> = Vec::new();
    let mut i: usize = 0;
    while i < v.len()
        invariant
            i <= v@.len(),
            r@ == v@.subrange(0, i as int),
        decreases v@.len() - i,
    {
        r.push(v[i]);
        i = i + 1;
    }
    assert(r@ =~= v@);
    r
}

/// Byte strings as plain values.
pub open spec fn opt_bytes(v: Option<Vec<u8>>) -> Option<Seq<u8>> {
    match v {
        Some(b) => Some(b@),
        None => None,
    }
}

fn copy_opt_bytes(v: &Option<Vec<u8>>) -> (r: Option<Vec<u8>>)
    ensures
        opt_bytes(r) == opt_bytes(*v),
{
    match v {
        Some(b) => Some(copy_bytes(b.as_slice())),
        None => None,
    }
}

fn copy_opt_string(v: &Option<String>) -> (r: Option<String>)
    ensures
        r == *v,
{
    match v {
        Some(s) => Some(s.clone()),
        None => None,
    }
}

fn append_bytes(out: &mut Vec<u8>, b: &[u8])
    ensures
        final(out)@ == old(out)@ + b@,
{
    let mut i: usize = 0;
    while i < b.len()
        invariant
            i <= b@.len(),
            out@ == old(out)@ + b@.subrange(0, i as int),
        decreases b@.len() - i,
    {
        out.push(b[i]);
        i = i + 1;
        assert(b@.subrange(0, i as int) =~= b@.subrange(0, i - 1) + seq![b@[i - 1]]);
    }
    assert(b@.subrange(0, b@.len() as int) =~= b@);
}

fn stored_speed_of(s: Option<u64>) -> (r: Option<i64>)
    ensures
        r == stored_speed(s),
{
    match s {
        Some(v) => if v != 0 { Some(v as i64) } else { None },
        None => None,
    }
}

fn loaded_speed_of(s: Option<i64>) -> (r: Option<u64>)
    ensures
        r == loaded_speed(s),
{
    match s {
        Some(v) => Some(v as u64),
        None => None,
    }
}

fn loaded_count_of(s: &Option<String>) -> (r: u64)
    ensures
        r == loaded_count(*s),
{
    match s {
        Some(t) => match parse_u64(t.as_str()) {
            Some(v) => v,
            None => 0,
        },
        None => 0,
    }
}

impl Volume {
    /// A freshly detected, mounted volume that is not yet in the database.
    pub fn new(
        name: String,
        mount_type: MountType,
        mount_point: String,
        mount_points: Vec<String>,
        disk_type: DiskType,
        file_system: FileSystem,
        total_bytes_capacity: u64,
        total_bytes_available: u64,
        read_only: bool,
    ) -> (r: Self)
        ensures
            r.id is None,
            r.pub_id is None,
            r.device_id is None,
            r.name == name,
            r.mount_type == mount_type,
            r.mount_point == mount_point,
            r.mount_points == mount_points,
            r.is_mounted,
            r.disk_type == disk_type,
            r.file_system == file_system,
            r.read_only == read_only,
            r.error_status is None,
            r.read_speed_mbps is None,
            r.write_speed_mbps is None,
            r.total_bytes_capacity == total_bytes_capacity,
            r.total_bytes_available == total_bytes_available,
    {
        Volume {
            id: None,
            pub_id: None,
            device_id: None,
            name,
            mount_type,
            mount_point,
            mount_points,
            is_mounted: true,
            disk_type,
            file_system,
            read_only,
            error_status: None,
            read_speed_mbps: None,
            write_speed_mbps: None,
            total_bytes_capacity,
            total_bytes_available,
        }
    }

    /// A volume read back from its database row; missing values take their
    /// defaults ("Unknown" name, "/" mount point, `System`, `Unknown` disk,
    /// an `Other("Unknown")` filesystem, not mounted, writable, zero bytes).
    pub fn from_record(rec: VolumeRecord) -> (r: Self)
        ensures
            r.id == Some(rec.id),
            r.pub_id == Some(rec.pub_id),
            r.device_id == rec.device_id,
            r.name@ == (match rec.name { Some(n) => n@, None => "Unknown"@ }),
            r.mount_type == (match rec.mount_type {
                Some(m) => mount_type_from_upper(upper_of(m@)),
                None => MountType::System,
            }),
            r.mount_point@ == (match rec.mount_point { Some(m) => m@, None => "/"@ }),
            r.mount_points@.len() == 0,
            r.is_mounted == (match rec.is_mounted { Some(b) => b, None => false }),
            r.disk_type == (match rec.disk_type {
                Some(d) => disk_type_from_upper(upper_of(d@)),
                None => DiskType::Unknown,
            }),
            r.file_system@ == (match rec.file_system {
                Some(f) => file_system_from_upper(upper_of(f@)),
                None => FileSystemView::Other("Unknown"@),
            }),
            r.read_only == (match rec.read_only { Some(b) => b, None => false }),
            r.error_status == rec.error_status,
            r.total_bytes_capacity == loaded_count(rec.total_bytes_capacity),
            r.total_bytes_available == loaded_count(rec.total_bytes_available),
            r.read_speed_mbps == loaded_speed(rec.read_speed_mbps),
            r.write_speed_mbps == loaded_speed(rec.write_speed_mbps),
    {
        let name = match &rec.name {
            Some(n) => n.clone(),
            None => String::from_str("Unknown"),
        };
        let mount_type = match &rec.mount_type {
            Some(m) => MountType::from_string(m.as_str()),
            None => MountType::System,
        };
        let mount_point = match &rec.mount_point {
            Some(m) => m.clone(),
            None => String::from_str("/"),
        };
        let disk_type = match &rec.disk_type {
            Some(d) => DiskType::from_string(d.as_str()),
            None => DiskType::Unknown,
        };
        let file_system = match &rec.file_system {
            Some(f) => FileSystem::from_string(f.as_str()),
            None => FileSystem::Other(String::from_str("Unknown")),
        };
        let total_bytes_capacity = loaded_count_of(&rec.total_bytes_capacity);
        let total_bytes_available = loaded_count_of(&rec.total_bytes_available);
        Volume {
            id: Some(rec.id),
            pub_id: Some(rec.pub_id),
            device_id: rec.device_id,
            name,
            mount_type,
            mount_point,
            mount_points: Vec::new(),
            is_mounted: match rec.is_mounted { Some(b) => b, None => false },
            disk_type,
            file_system,
            read_only: match rec.read_only { Some(b) => b, None => false },
            error_status: rec.error_status,
            read_speed_mbps: loaded_speed_of(rec.read_speed_mbps),
            write_speed_mbps: loaded_speed_of(rec.write_speed_mbps),
            total_bytes_capacity,
            total_bytes_available,
        }
    }

    /// Whether `path` lies under one of this volume's mount points.
    pub fn contains_path(&self, path: &str) -> (r: bool)
        ensures
            r == exists|i: int|
                0 <= i < self.mount_points@.len() && path_starts_with(
                    path@,
                    #[trigger] self.mount_points@[i]@,
                ),
    {
        let mut i: usize = 0;
        while i < self.mount_points.len()
            invariant
                i <= self.mount_points@.len(),
                forall|k: int|
                    0 <= k < i ==> !path_starts_with(path@, #[trigger] self.mount_points@[k]@),
            decreases self.mount_points@.len() - i,
        {
            if path_has_prefix(path, self.mount_points[i].as_str()) {
                return true;
            }
            i = i + 1;
        }
        false
    }

    /// A system-detected volume merged with its database record: hardware
    /// facts come from the system, identity and metadata from the database.
    pub fn merge_with_db_volume(system_volume: &Volume, db_volume: &Volume) -> (r: Volume)
        ensures
            r.mount_point == system_volume.mount_point,
            r.mount_points@ == system_volume.mount_points@,
            r.total_bytes_capacity == system_volume.total_bytes_capacity,
            r.total_bytes_available == system_volume.total_bytes_available,
            r.disk_type == system_volume.disk_type,
            r.file_system@ == system_volume.file_system@,
            r.mount_type == system_volume.mount_type,
            r.is_mounted == system_volume.is_mounted,
            r.id == db_volume.id,
            r.device_id == db_volume.device_id,
            opt_bytes(r.pub_id) == opt_bytes(db_volume.pub_id),
            r.name == db_volume.name,
            r.read_only == db_volume.read_only,
            r.error_status == db_volume.error_status,
            r.read_speed_mbps == db_volume.read_speed_mbps,
            r.write_speed_mbps == db_volume.write_speed_mbps,
    {
        Volume {
            mount_point: system_volume.mount_point.clone(),
            mount_points: copy_strings(&system_volume.mount_points),
            total_bytes_capacity: system_volume.total_bytes_capacity,
            total_bytes_available: system_volume.total_bytes_available,
            disk_type: system_volume.disk_type,
            file_system: system_volume.file_system.duplicate(),
            mount_type: system_volume.mount_type,
            is_mounted: system_volume.is_mounted,
            id: db_volume.id,
            device_id: db_volume.device_id,
            pub_id: copy_opt_bytes(&db_volume.pub_id),
            name: db_volume.name.clone(),
            read_only: db_volume.read_only,
            error_status: copy_opt_string(&db_volume.error_status),
            read_speed_mbps: db_volume.read_speed_mbps,
            write_speed_mbps: db_volume.write_speed_mbps,
        }
    }

    /// Whether the volume has been given a public id, i.e. is tracked.
    pub fn is_volume_tracked(&self) -> (r: bool)
        ensures
            r == self.pub_id.is_some(),
    {
        self.pub_id.is_some()
    }

    /// The bytes a fingerprint digests: the device's public id, then every
    /// mount point, then the filesystem's name, all as UTF-8.
    pub fn fingerprint_input(&self, current_device_pub_id: Vec<u8>) -> (r: Vec<u8>)
        ensures
            r@ == current_device_pub_id@ + joined_utf8(self.mount_points@) + encode_utf8(
                file_system_name(self.file_system@),
            ),
    {
        let mut out = current_device_pub_id;
        let ghost device = out@;
        let mut i: usize = 0;
        while i < self.mount_points.len()
            invariant
                i <= self.mount_points@.len(),
                out@ == device + joined_utf8(self.mount_points@.subrange(0, i as int)),
            decreases self.mount_points@.len() - i,
        {
            proof {
                let next = self.mount_points@.subrange(0, i + 1);
                assert(next.drop_last() =~= self.mount_points@.subrange(0, i as int));
            }
            append_bytes(&mut out, self.mount_points[i].as_str().as_bytes());
            i = i + 1;
        }
        assert(self.mount_points@.subrange(0, i as int) =~= self.mount_points@);
        let fs = self.file_system.name();
        append_bytes(&mut out, fs.as_str().as_bytes());
        out
    }

    /// A fingerprint that stays the same across detections of one volume:
    /// the BLAKE3 digest of `fingerprint_input`.
    pub fn generate_fingerprint(&self, current_device_pub_id: Vec<u8>) -> (r: Vec<u8>)
        ensures
            r@ == blake3_of(
                current_device_pub_id@ + joined_utf8(self.mount_points@) + encode_utf8(
                    file_system_name(self.file_system@),
                ),
            ),
            r@.len() == 32,
    {
        let input = self.fingerprint_input(current_device_pub_id);
        blake3_digest(input.as_slice())
    }

    /// The fingerprint as lower-case hexadecimal.
    pub fn fingerprint_hex(&self, current_device_pub_id: Vec<u8>) -> (r: String)
        ensures
            r@ == hex_text(
                blake3_of(
                    current_device_pub_id@ + joined_utf8(self.mount_points@) + encode_utf8(
                        file_system_name(self.file_system@),
                    ),
                ),
            ),
            r@.len() == 64,
    {
        let digest = self.generate_fingerprint(current_device_pub_id);
        proof { lemma_hex_text_len(digest@); }
        hex_encode(digest.as_slice())
    }

    /// The column values stored for this volume.
    pub fn fields(&self) -> (r: VolumeFields)
        ensures
            stored_fields(*self, r),
    {
        VolumeFields {
            name: self.name.clone(),
            mount_type: self.mount_type.name(),
            mount_point: self.mount_point.clone(),
            is_mounted: self.is_mounted,
            disk_type: self.disk_type.name(),
            file_system: self.file_system.name(),
            read_only: self.read_only,
            error_status: copy_opt_string(&self.error_status),
            total_bytes_capacity: u64_text(self.total_bytes_capacity),
            total_bytes_available: u64_text(self.total_bytes_available),
            read_speed_mbps: stored_speed_of(self.read_speed_mbps),
            write_speed_mbps: stored_speed_of(self.write_speed_mbps),
        }
    }

    /// The row id and column values an update writes; a volume that was
    /// never stored cannot be updated.
    pub fn update_fields(&self) -> (r: Result<(i32, VolumeFields), VolumeError>)
        ensures
            self.id is None ==> r == Err::<(i32, VolumeFields), VolumeError>(VolumeError::NotInDatabase),
            self.id is Some ==> (r matches Ok((id, f)) && id == self.id.unwrap() && stored_fields(
                *self,
                f,
            )),
    {
        match self.id {
            Some(id) => Ok((id, self.fields())),
            None => Err(VolumeError::NotInDatabase),
        }
    }
}

proof fn lemma_hex_text_len(b: Seq<u8>)
    ensures
        hex_text(b).len() == 2 * b.len(),
    decreases b.len(),
{
    if b.len() > 0 {
        lemma_hex_text_len(b.drop_last());
    }
}

impl PartialEq for Volume {
    /// Two volumes are the same when name, disk type and filesystem agree and
    /// they share a mount point, compared as paths.
    fn eq(&self, other: &Volume) -> (r: bool) {
        if !(self.name == other.name) || self.disk_type != other.disk_type
            || !(self.file_system == other.file_system) {
            return false;
        }
        let mut i: usize = 0;
        while i < self.mount_points.len()
            invariant
                i <= self.mount_points@.len(),
                self.name@ == other.name@,
                self.disk_type == other.disk_type,
                self.file_system@ == other.file_system@,
                forall|a: int, b: int|
                    0 <= a < i && 0 <= b < other.mount_points@.len()
                        ==> !same_mount(#[trigger] self.mount_points@[a]@, #[trigger] other.mount_points@[b]@),
            decreases self.mount_points@.len() - i,
        {
            let mut j: usize = 0;
            while j < other.mount_points.len()
                invariant
                    i < self.mount_points@.len(),
                    self.name@ == other.name@,
                    self.disk_type == other.disk_type,
                    self.file_system@ == other.file_system@,
                    j <= other.mount_points@.len(),
                    forall|a: int, b: int|
                        0 <= a < i && 0 <= b < other.mount_points@.len()
                            ==> !same_mount(#[trigger] self.mount_points@[a]@, #[trigger] other.mount_points@[b]@),
                    forall|b: int|
                        0 <= b < j ==> !same_mount(self.mount_points@[i as int]@, #[trigger] other.mount_points@[b]@),
                decreases other.mount_points@.len() - j,
            {
                let a = self.mount_points[i].as_str();
                let b = other.mount_points[j].as_str();
                if paths_equal(a, b) || paths_equal(b, a) {
                    assert(same_mount(self.mount_points@[i as int]@, other.mount_points@[j as int]@));
                    assert(mount_points_overlap(self.mount_points@, other.mount_points@));
                    return true;
                }
                j = j + 1;
            }
            i = i + 1;
        }
        false
    }
}

impl vstd::std_specs::cmp::PartialEqSpecImpl for Volume {
    open spec fn obeys_eq_spec() -> bool {
        true
    }

    open spec fn eq_spec(&self, other: &Volume) -> bool {
        &&& self.name@ == other.name@
        &&& self.disk_type == other.disk_type
        &&& self.file_system@ == other.file_system@
        &&& mount_points_overlap(self.mount_points@, other.mount_points@)
    }
}

impl Eq for Volume {}


/// Changes in volume state reported by the volume manager.
#[derive(Debug, Clone)]
pub enum VolumeEvent {
    /// A new volume was discovered and added
    VolumeAdded(Volume),
    /// A volume was removed from the system
    VolumeRemoved(Volume),
    /// A volume's properties changed
    VolumeUpdated { old: Volume, new: Volume },
    /// A volume's speed test completed
    VolumeSpeedTested { id: Vec<u8>, read_speed: u64, write_speed: u64 },
    /// A volume's mount status changed
    VolumeMountChanged { id: Vec<u8>, is_mounted: bool },
    /// A volume reported an error
    VolumeError { id: Vec<u8>, error: String },
}

/// Options of volume discovery.
#[derive(Debug, Clone)]
pub struct VolumeOptions {
    /// Whether to include system volumes
    pub include_system: bool,
    /// Whether to include virtual volumes
    pub include_virtual: bool,
    /// Whether to run speed tests on discovery
    pub run_speed_test: bool,
    /// Maximum concurrent speed tests
    pub max_concurrent_speed_tests: usize,
}

impl Default for VolumeOptions {
    /// System volumes and speed tests on, virtual volumes off, two speed
    /// tests at a time.
    fn default() -> (r: Self)
        ensures
            r.include_system,
            !r.include_virtual,
            r.run_speed_test,
            r.max_concurrent_speed_tests == 2,
    {
        VolumeOptions {
            include_system: true,
            include_virtual: false,
            run_speed_test: true,
            max_concurrent_speed_tests: 2,
        }
    }
}

/// Loading the stored columns of a volume gives back its byte counts, and
/// each non-zero speed.
pub proof fn lemma_stored_volume_loads_back(v: Volume, f: VolumeFields)
    requires
        stored_fields(v, f),
    ensures
        loaded_count(Some(f.total_bytes_capacity)) == v.total_bytes_capacity,
        loaded_count(Some(f.total_bytes_available)) == v.total_bytes_available,
        v.read_speed_mbps matches Some(x) && x != 0 ==> loaded_speed(f.read_speed_mbps)
            == v.read_speed_mbps,
        v.write_speed_mbps matches Some(x) && x != 0 ==> loaded_speed(f.write_speed_mbps)
            == v.write_speed_mbps,
{
    lemma_parse_decimal_round_trip(v.total_bytes_capacity);
    lemma_parse_decimal_round_trip(v.total_bytes_available);
    assert(forall|x: u64| #[trigger] ((x as i64) as u64) == x) by (bit_vector);
}

} // verus!
