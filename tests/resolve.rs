use partition_identity::partition_id::PartitionID;
use partition_identity::resolve::{find_uuid, from_uuid, LinkEntry};
use partition_identity::source::PartitionSource;

fn entry(name: &str, target: Option<&str>) -> LinkEntry {
    LinkEntry { name: name.to_string(), target: target.map(|t| t.to_string()) }
}

fn two_disks() -> Vec<LinkEntry> {
    vec![entry("u1", Some("/dev/sda1")), entry("u2", Some("/dev/sda2"))]
}

#[test]
fn forward_and_reverse_are_inverse() {
    let entries = vec![entry("abcd", Some("/dev/fake1"))];
    assert_eq!(from_uuid("abcd", &entries), Some("/dev/fake1".to_string()));
    assert_eq!(find_uuid(&Some("/dev/fake1".to_string()), &entries), Some("abcd".to_string()));
}

#[test]
fn absent_name_and_path() {
    let entries = vec![entry("abcd", Some("/dev/fake1"))];
    assert_eq!(from_uuid("nonexistent", &entries), None);
    assert_eq!(find_uuid(&None, &entries), None);
    assert_eq!(find_uuid(&Some("/dev/other".to_string()), &entries), None);
    assert_eq!(from_uuid("abcd", &[]), None);
}

#[test]
fn dangling_entries_are_skipped() {
    let entries = vec![
        entry("gone", None),
        entry("u1", None),
        entry("u1", Some("/dev/sdb1")),
        entry("u2", Some("/dev/sdb2")),
    ];
    assert_eq!(from_uuid("gone", &entries), None);
    assert_eq!(from_uuid("u1", &entries), Some("/dev/sdb1".to_string()));
    assert_eq!(find_uuid(&Some("/dev/sdb2".to_string()), &entries), Some("u2".to_string()));
}

#[test]
fn two_disk_scenario() {
    let entries = two_disks();
    assert_eq!(from_uuid("u2", &entries), Some("/dev/sda2".to_string()));
    assert_eq!(find_uuid(&Some("/dev/sda1".to_string()), &entries), Some("u1".to_string()));
    assert_eq!(from_uuid("u3", &entries), None);
}

#[test]
fn first_match_wins() {
    let entries = vec![
        entry("dup", Some("/dev/sdc1")),
        entry("dup", Some("/dev/sdc2")),
        entry("other", Some("/dev/sdc1")),
    ];
    assert_eq!(from_uuid("dup", &entries), Some("/dev/sdc1".to_string()));
    assert_eq!(find_uuid(&Some("/dev/sdc1".to_string()), &entries), Some("dup".to_string()));
}

#[test]
fn device_path_of_identifier() {
    let entries = two_disks();
    assert_eq!(
        PartitionID::new_uuid("u1".into()).get_device_path(&entries),
        Some("/dev/sda1".to_string())
    );
    assert_eq!(PartitionID::new_uuid("u9".into()).get_device_path(&entries), None);
}

#[test]
fn identifier_of_device_path() {
    let entries = two_disks();
    let dev = Some("/dev/sda2".to_string());
    assert_eq!(
        PartitionID::get_source(PartitionSource::Label, &dev, &entries),
        Some(PartitionID::new_label("u2".into()))
    );
    assert_eq!(PartitionID::get_uuid(&dev, &entries), Some(PartitionID::new_uuid("u2".into())));
    assert_eq!(
        PartitionID::get_partuuid(&dev, &entries),
        Some(PartitionID::new_partuuid("u2".into()))
    );
    assert_eq!(PartitionID::get_uuid(&None, &entries), None);
    assert_eq!(PartitionID::get_uuid(&Some("/dev/sdz".to_string()), &entries), None);
}

#[test]
fn path_identity_reads_no_entries() {
    let entries = vec![entry("/dev/sda1", Some("/dev/sda1"))];
    assert_eq!(PartitionID::new_path("/dev/sda1".into()).get_device_path(&entries), None);
    assert_eq!(
        PartitionID::get_source(PartitionSource::Path, &Some("/dev/sda2".to_string()), &entries),
        Some(PartitionID::new_path("/dev/sda2".into()))
    );
    assert_eq!(PartitionID::get_source(PartitionSource::Path, &None, &entries), None);
}
