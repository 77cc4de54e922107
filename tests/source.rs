use partition_identity::source::PartitionSource;

#[test]
fn tokens_are_lowercase_names() {
    assert_eq!(PartitionSource::ID.token(), "id");
    assert_eq!(PartitionSource::Label.token(), "label");
    assert_eq!(PartitionSource::PartLabel.token(), "partlabel");
    assert_eq!(PartitionSource::PartUUID.token(), "partuuid");
    assert_eq!(PartitionSource::Path.token(), "path");
    assert_eq!(PartitionSource::UUID.token(), "uuid");
}

#[test]
fn lookup_directories() {
    assert_eq!(PartitionSource::UUID.disk_by_path(), "/dev/disk/by-uuid");
    assert_eq!(PartitionSource::PartLabel.disk_by_path(), "/dev/disk/by-partlabel");
    assert_eq!(PartitionSource::ID.disk_by_path(), "/dev/disk/by-id");
}

#[test]
fn text_prefixes() {
    assert_eq!(PartitionSource::PartUUID.text_prefix(), "PARTUUID=");
    assert_eq!(PartitionSource::Label.text_prefix(), "LABEL=");
    assert_eq!(PartitionSource::Path.text_prefix(), "");
}
