use cloud_session::volume::{
    DiskType, FileSystem, MountType, Volume, VolumeError, VolumeRecord,
};

fn sample(name: &str, mounts: &[&str], fs: FileSystem) -> Volume {
    Volume::new(
        name.to_string(),
        MountType::External,
        mounts.first().unwrap_or(&"/").to_string(),
        mounts.iter().map(|m| m.to_string()).collect(),
        DiskType::SSD,
        fs,
        1000,
        400,
        false,
    )
}

fn record() -> VolumeRecord {
    VolumeRecord {
        id: 7,
        pub_id: vec![1, 2, 3],
        device_id: Some(3),
        name: None,
        mount_type: None,
        mount_point: None,
        is_mounted: None,
        disk_type: None,
        file_system: None,
        read_only: None,
        error_status: None,
        total_bytes_capacity: None,
        total_bytes_available: None,
        read_speed_mbps: None,
        write_speed_mbps: None,
    }
}

#[test]
fn disk_type_from_string_ignores_case() {
    assert_eq!(DiskType::from_string("ssd"), DiskType::SSD);
    assert_eq!(DiskType::from_string("Hdd"), DiskType::HDD);
    assert_eq!(DiskType::from_string("nvme"), DiskType::Unknown);
    assert_eq!(DiskType::from_string(""), DiskType::Unknown);
}

#[test]
fn file_system_from_string_keeps_unknown_names_upper_cased() {
    assert_eq!(FileSystem::from_string("ntfs"), FileSystem::NTFS);
    assert_eq!(FileSystem::from_string("Fat32"), FileSystem::FAT32);
    assert_eq!(FileSystem::from_string("ext4"), FileSystem::EXT4);
    assert_eq!(FileSystem::from_string("apfs"), FileSystem::APFS);
    assert_eq!(FileSystem::from_string("exFAT"), FileSystem::ExFAT);
    assert_eq!(FileSystem::from_string("btrfs"), FileSystem::Other("BTRFS".to_string()));
}

#[test]
fn mount_type_from_string_defaults_to_system() {
    assert_eq!(MountType::from_string("external"), MountType::External);
    assert_eq!(MountType::from_string("NETWORK"), MountType::Network);
    assert_eq!(MountType::from_string("virtual"), MountType::Virtual);
    assert_eq!(MountType::from_string("system"), MountType::System);
    assert_eq!(MountType::from_string("floppy"), MountType::System);
}

#[test]
fn names_of_variants() {
    assert_eq!(DiskType::HDD.name(), "HDD");
    assert_eq!(FileSystem::ExFAT.name(), "ExFAT");
    assert_eq!(FileSystem::Other("ZFS".to_string()).name(), "Other");
    assert_eq!(MountType::Network.name(), "Network");
}

#[test]
fn contains_path_compares_whole_components() {
    let v = sample("Data", &["/mnt/data", "/media/usb"], FileSystem::EXT4);
    assert!(v.contains_path("/mnt/data/photos/a.jpg"));
    assert!(v.contains_path("/media/usb"));
    assert!(!v.contains_path("/mnt/database"));
    assert!(!v.contains_path("/home"));
    let empty = sample("None", &[], FileSystem::EXT4);
    assert!(!empty.contains_path("/"));
}

#[test]
fn merge_prefers_system_hardware_and_db_identity() {
    let system = sample("System name", &["/Volumes/A"], FileSystem::APFS);
    let mut db = Volume::from_record(VolumeRecord {
        name: Some("Stored".to_string()),
        read_only: Some(true),
        error_status: Some("bad".to_string()),
        read_speed_mbps: Some(500),
        ..record()
    });
    db.total_bytes_capacity = 5;
    let m = Volume::merge_with_db_volume(&system, &db);
    assert_eq!(m.mount_points, vec!["/Volumes/A".to_string()]);
    assert_eq!(m.mount_point, "/Volumes/A");
    assert_eq!(m.total_bytes_capacity, 1000);
    assert_eq!(m.file_system, FileSystem::APFS);
    assert_eq!(m.mount_type, MountType::External);
    assert!(m.is_mounted);
    assert_eq!(m.id, Some(7));
    assert_eq!(m.pub_id, Some(vec![1, 2, 3]));
    assert_eq!(m.device_id, Some(3));
    assert_eq!(m.name, "Stored");
    assert!(m.read_only);
    assert_eq!(m.error_status, Some("bad".to_string()));
    assert_eq!(m.read_speed_mbps, Some(500));
}

#[test]
fn tracked_volumes_have_a_public_id() {
    assert!(!sample("A", &["/a"], FileSystem::EXT4).is_volume_tracked());
    assert!(Volume::from_record(record()).is_volume_tracked());
}

#[test]
fn equality_needs_a_shared_mount_point() {
    let a = sample("Disk", &["/a", "/b"], FileSystem::APFS);
    let b = sample("Disk", &["/c", "/b"], FileSystem::APFS);
    let c = sample("Disk", &["/c"], FileSystem::APFS);
    let d = sample("Disk", &["/a"], FileSystem::NTFS);
    assert!(a == b);
    assert!(a != c);
    assert!(a != d);
    assert!(sample("Other", &["/a"], FileSystem::APFS) != a);
}

#[test]
fn record_defaults_fill_missing_values() {
    let v = Volume::from_record(record());
    assert_eq!(v.name, "Unknown");
    assert_eq!(v.mount_point, "/");
    assert_eq!(v.mount_type, MountType::System);
    assert_eq!(v.disk_type, DiskType::Unknown);
    assert_eq!(v.file_system, FileSystem::Other("Unknown".to_string()));
    assert!(!v.is_mounted);
    assert!(!v.read_only);
    assert_eq!(v.total_bytes_capacity, 0);
    assert!(v.mount_points.is_empty());
}

#[test]
fn record_values_are_read() {
    let v = Volume::from_record(VolumeRecord {
        mount_type: Some("network".to_string()),
        disk_type: Some("hdd".to_string()),
        file_system: Some("ext4".to_string()),
        total_bytes_capacity: Some("123456".to_string()),
        total_bytes_available: Some("not a number".to_string()),
        read_speed_mbps: Some(250),
        write_speed_mbps: Some(-1),
        is_mounted: Some(true),
        ..record()
    });
    assert_eq!(v.mount_type, MountType::Network);
    assert_eq!(v.disk_type, DiskType::HDD);
    assert_eq!(v.file_system, FileSystem::EXT4);
    assert_eq!(v.total_bytes_capacity, 123456);
    assert_eq!(v.total_bytes_available, 0);
    assert_eq!(v.read_speed_mbps, Some(250));
    assert_eq!(v.write_speed_mbps, Some(u64::MAX));
    assert!(v.is_mounted);
}

#[test]
fn stored_fields_render_values() {
    let mut v = sample("Data", &["/mnt/data"], FileSystem::Other("ZFS".to_string()));
    v.read_speed_mbps = Some(0);
    v.write_speed_mbps = Some(120);
    let f = v.fields();
    assert_eq!(f.name, "Data");
    assert_eq!(f.mount_type, "External");
    assert_eq!(f.disk_type, "SSD");
    assert_eq!(f.file_system, "Other");
    assert_eq!(f.total_bytes_capacity, "1000");
    assert_eq!(f.total_bytes_available, "400");
    assert_eq!(f.read_speed_mbps, None);
    assert_eq!(f.write_speed_mbps, Some(120));
}

#[test]
fn update_needs_a_database_id() {
    let v = sample("Data", &["/mnt/data"], FileSystem::EXT4);
    assert_eq!(v.update_fields().unwrap_err(), VolumeError::NotInDatabase);
    let stored = Volume::from_record(record());
    assert_eq!(stored.update_fields().unwrap().0, 7);
}

#[test]
fn fingerprint_digests_device_mounts_and_filesystem() {
    let v = sample("Data", &["/a", "/b"], FileSystem::EXT4);
    let input = v.fingerprint_input(vec![1, 2]);
    assert_eq!(input, b"\x01\x02/a/bEXT4".to_vec());
    let fp = v.generate_fingerprint(vec![1, 2]);
    assert_eq!(fp, blake3::hash(b"\x01\x02/a/bEXT4").as_bytes().to_vec());
    assert_ne!(fp, input);
    let hex = v.fingerprint_hex(vec![1, 2]);
    assert_eq!(hex.len(), 64);
    assert_eq!(hex, blake3::hash(b"\x01\x02/a/bEXT4").to_hex().to_string());
    assert_ne!(v.generate_fingerprint(vec![1, 3]), fp);
}

#[test]
fn default_options() {
    let o = cloud_session::volume::VolumeOptions::default();
    assert!(o.include_system);
    assert!(!o.include_virtual);
    assert!(o.run_speed_test);
    assert_eq!(o.max_concurrent_speed_tests, 2);
}

#[test]
fn volume_events_carry_volumes() {
    let v = sample("Data", &["/mnt/data"], FileSystem::EXT4);
    let e = cloud_session::volume::VolumeEvent::VolumeUpdated { old: v.clone(), new: v };
    assert!(matches!(e, cloud_session::volume::VolumeEvent::VolumeUpdated { .. }));
}

#[test]
fn stored_volume_loads_back() {
    let mut v = sample("Data", &["/mnt/data"], FileSystem::EXT4);
    v.total_bytes_capacity = u64::MAX;
    v.write_speed_mbps = Some(u64::MAX);
    let f = v.fields();
    let back = Volume::from_record(VolumeRecord {
        name: Some(f.name),
        mount_type: Some(f.mount_type),
        mount_point: Some(f.mount_point),
        is_mounted: Some(f.is_mounted),
        disk_type: Some(f.disk_type),
        file_system: Some(f.file_system),
        read_only: Some(f.read_only),
        error_status: f.error_status,
        total_bytes_capacity: Some(f.total_bytes_capacity),
        total_bytes_available: Some(f.total_bytes_available),
        read_speed_mbps: f.read_speed_mbps,
        write_speed_mbps: f.write_speed_mbps,
        ..record()
    });
    assert_eq!(back.total_bytes_capacity, u64::MAX);
    assert_eq!(back.total_bytes_available, 400);
    assert_eq!(back.write_speed_mbps, Some(u64::MAX));
    assert_eq!(back.mount_type, MountType::External);
    assert_eq!(back.disk_type, DiskType::SSD);
    assert_eq!(back.file_system, FileSystem::EXT4);
    assert_eq!(back.name, "Data");
}

#[test]
fn equality_compares_mount_points_as_paths() {
    let a = sample("Disk", &["/mnt/a/"], FileSystem::EXT4);
    let b = sample("Disk", &["/mnt//a"], FileSystem::EXT4);
    let c = sample("Disk", &["/mnt/ab"], FileSystem::EXT4);
    assert!(a == b);
    assert!(a != c);
}
