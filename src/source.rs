use vstd::prelude::*;

verus! {

/// Describes the type of partition identity.
#[derive(Copy, Clone, Debug, Hash, PartialEq, Eq, Structural)]
pub enum PartitionSource {
    ID,
    Label,
    PartLabel,
    PartUUID,
    Path,
    UUID,
}

/// The lowercase token of a kind: the suffix of its lookup directory.
pub open spec fn token_spec(k: PartitionSource) -> Seq<char> {
    match k {
        PartitionSource::ID => "id"@,
        PartitionSource::Label => "label"@,
        PartitionSource::PartLabel => "partlabel"@,
        PartitionSource::PartUUID => "partuuid"@,
        PartitionSource::Path => "path"@,
        PartitionSource::UUID => "uuid"@,
    }
}

/// What the text form of an identifier of kind `k` starts with: the upper
/// case token and `=`, and nothing for a path, which is written bare.
pub open spec fn text_prefix_spec(k: PartitionSource) -> Seq<char> {
    match k {
        PartitionSource::ID => "ID="@,
        PartitionSource::Label => "LABEL="@,
        PartitionSource::PartLabel => "PARTLABEL="@,
        PartitionSource::PartUUID => "PARTUUID="@,
        PartitionSource::Path => ""@,
        PartitionSource::UUID => "UUID="@,
    }
}

/// The directory whose entries map identifiers of kind `k` to devices.
pub open spec fn lookup_dir_spec(k: PartitionSource) -> Seq<char> {
    "/dev/disk/by-"@ + token_spec(k)
}

impl PartitionSource {
    /// The lowercase token of this kind (`"partuuid"` for `PartUUID`).
    pub fn token(self) -> (r: &'static str)
        ensures
            r@ == token_spec(self),
    {
        match self {
            PartitionSource::ID => "id",
            PartitionSource::Label => "label",
            PartitionSource::PartLabel => "partlabel",
            PartitionSource::PartUUID => "partuuid",
            PartitionSource::Path => "path",
            PartitionSource::UUID => "uuid",
        }
    }

    /// The prefix of the text form of this kind (`"PARTUUID="` for
    /// `PartUUID`, the empty string for `Path`).
    pub fn text_prefix(self) -> (r: &'static str)
        ensures
            r@ == text_prefix_spec(self),
    {
        match self {
            PartitionSource::ID => "ID=",
            PartitionSource::Label => "LABEL=",
            PartitionSource::PartLabel => "PARTLABEL=",
            PartitionSource::PartUUID => "PARTUUID=",
            PartitionSource::Path => "",
            PartitionSource::UUID => "UUID=",
        }
    }

    /// The path of the lookup directory of this kind, `/dev/disk/by-<token>`.
    pub fn disk_by_path(self) -> (r: String)
        ensures
            r@ == lookup_dir_spec(self),
    {
        String::from_str("/dev/disk/by-").concat(self.token())
    }
}

} // verus!
