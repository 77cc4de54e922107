use vstd::prelude::*;

use crate::resolve::{
    entries_view, find_uuid, forward_spec, from_uuid, opt_view, reverse_spec, LinkEntry,
};
use crate::source::{text_prefix_spec, PartitionSource};

verus! {

/// Describes a partition identity.
///
/// A device path may be recovered from this.
#[derive(Clone, Debug, Hash, PartialEq, Eq)]
pub struct PartitionID {
    pub variant: PartitionSource,
    pub id: String,
}

impl View for PartitionID {
    type V = (PartitionSource, Seq<char>);

    open spec fn view(&self) -> (PartitionSource, Seq<char>) {
        (self.variant, self.id@)
    }
}

/// Text that names no kind of identifier; it holds the text.
#[derive(Clone, Debug, Hash, PartialEq, Eq)]
pub struct ParseError {
    pub input: String,
}

/// The text that follows the prefix `p` in `s`.
pub open spec fn after(p: Seq<char>, s: Seq<char>) -> Seq<char> {
    s.subrange(p.len() as int, s.len() as int)
}

/// Reads the text form of an identifier: a bare path starting with `/`, or
/// one of `ID=`, `LABEL=`, `PARTLABEL=`, `PARTUUID=` and `UUID=` followed by
/// the value.
pub open spec fn parse_spec(s: Seq<char>) -> Option<(PartitionSource, Seq<char>)> {
    let id = text_prefix_spec(PartitionSource::ID);
    let label = text_prefix_spec(PartitionSource::Label);
    let partlabel = text_prefix_spec(PartitionSource::PartLabel);
    let partuuid = text_prefix_spec(PartitionSource::PartUUID);
    let uuid = text_prefix_spec(PartitionSource::UUID);
    if s.len() > 0 && s[0] == '/' {
        Some((PartitionSource::Path, s))
    } else if id.is_prefix_of(s) {
        Some((PartitionSource::ID, after(id, s)))
    } else if label.is_prefix_of(s) {
        Some((PartitionSource::Label, after(label, s)))
    } else if partlabel.is_prefix_of(s) {
        Some((PartitionSource::PartLabel, after(partlabel, s)))
    } else if partuuid.is_prefix_of(s) {
        Some((PartitionSource::PartUUID, after(partuuid, s)))
    } else if uuid.is_prefix_of(s) {
        Some((PartitionSource::UUID, after(uuid, s)))
    } else {
        None
    }
}

/// Writes the text form of an identifier: its kind's prefix, then its value.
pub open spec fn serialize_spec(k: PartitionSource, v: Seq<char>) -> Seq<char> {
    text_prefix_spec(k) + v
}

/// The identifier value of kind `k` for the device whose canonical path is
/// `path`: the path itself for a `Path` kind, else what reverse resolution
/// finds among the entries of the kind's lookup directory.
pub open spec fn source_spec(
    k: PartitionSource,
    path: Option<Seq<char>>,
    es: Seq<(Seq<char>, Option<Seq<char>>)>,
) -> Option<Seq<char>> {
    if k == PartitionSource::Path {
        path
    } else {
        reverse_spec(path, es)
    }
}

/// The message that describes a parse error on `input`.
pub open spec fn parse_error_message(input: Seq<char>) -> Seq<char> {
    "'"@ + input + "' is not a valid PartitionID string"@
}

/// Writing an identifier and reading the text back gives the identifier
/// again, so that writing it once more gives the same text; a path must start
/// with `/`.
pub proof fn lemma_text_round_trip(k: PartitionSource, v: Seq<char>)
    requires
        k == PartitionSource::Path ==> v.len() > 0 && v[0] == '/',
    ensures
        parse_spec(serialize_spec(k, v)) == Some((k, v)),
{
    reveal_strlit("ID=");
    reveal_strlit("LABEL=");
    reveal_strlit("PARTLABEL=");
    reveal_strlit("PARTUUID=");
    reveal_strlit("UUID=");
    reveal_strlit("");
    let p = text_prefix_spec(k);
    let s = serialize_spec(k, v);
    assert(p + v =~= s);
    assert(after(p, s) =~= v);
    if k == PartitionSource::Path {
        assert(s =~= v);
    } else {
        assert(s[0] == p[0]);
        assert(p.is_prefix_of(s)) by {
            assert(s.subrange(0, p.len() as int) =~= p);
        }
        if k != PartitionSource::ID {
            assert(s[0] != 'I');
            assert(!text_prefix_spec(PartitionSource::ID).is_prefix_of(s)) by {
                if text_prefix_spec(PartitionSource::ID).is_prefix_of(s) {
                    assert(s.subrange(0, 3)[0] == s[0]);
                }
            }
        }
        if k != PartitionSource::ID && k != PartitionSource::Label {
            assert(!text_prefix_spec(PartitionSource::Label).is_prefix_of(s)) by {
                if text_prefix_spec(PartitionSource::Label).is_prefix_of(s) {
                    assert(s.subrange(0, 6)[0] == s[0]);
                }
            }
        }
        if k == PartitionSource::PartUUID || k == PartitionSource::UUID {
            assert(!text_prefix_spec(PartitionSource::PartLabel).is_prefix_of(s)) by {
                if text_prefix_spec(PartitionSource::PartLabel).is_prefix_of(s) {
                    assert(s.subrange(0, 10)[0] == s[0]);
                    assert(s.subrange(0, 10)[4] == s[4]);
                }
            }
        }
        if k == PartitionSource::UUID {
            assert(!text_prefix_spec(PartitionSource::PartUUID).is_prefix_of(s)) by {
                if text_prefix_spec(PartitionSource::PartUUID).is_prefix_of(s) {
                    assert(s.subrange(0, 9)[0] == s[0]);
                }
            }
        }
    }
}

/// `PARTLABEL=` text reads as a partition label and never as a filesystem
/// label; `PARTUUID=` text reads as a partition UUID and never as a UUID.
pub proof fn lemma_prefix_discrimination(x: Seq<char>)
    ensures
        parse_spec("PARTLABEL="@ + x) == Some((PartitionSource::PartLabel, x)),
        parse_spec("PARTUUID="@ + x) == Some((PartitionSource::PartUUID, x)),
{
    lemma_text_round_trip(PartitionSource::PartLabel, x);
    lemma_text_round_trip(PartitionSource::PartUUID, x);
}

/// Whether `s` starts with `p`.
fn starts_with(s: &str, p: &str) -> (r: bool)
    ensures
        r == p@.is_prefix_of(s@),
{
    let n = s.unicode_len();
    let m = p.unicode_len();
    if m > n {
        return false;
    }
    let mut i: usize = 0;
    while i < m
        invariant
            i <= m <= n,
            n == s@.len(),
            m == p@.len(),
            forall|j: int| 0 <= j < i ==> p@[j] == s@[j],
        decreases m - i,
    {
        if s.get_char(i) != p.get_char(i) {
            return false;
        }
        i += 1;
    }
    assert(p@ =~= s@.subrange(0, m as int));
    true
}

/// The text of `s` after the prefix `p`, where `s` starts with `p`.
fn strip_prefix(s: &str, p: &str) -> (r: Option<String>)
    ensures
        r is Some <==> p@.is_prefix_of(s@),
        r matches Some(v) ==> v@ == after(p@, s@),
{
    if starts_with(s, p) {
        let rest = s.substring_char(p.unicode_len(), s.unicode_len());
        Some(rest.to_owned())
    } else {
        None
    }
}

impl PartitionID {
    /// Construct a new `PartitionID` as the given source.
    pub fn new(variant: PartitionSource, id: String) -> (r: Self)
        ensures
            r.variant == variant,
            r.id == id,
    {
        Self { variant, id }
    }

    /// Construct a new `PartitionID` as a `ID` source.
    pub fn new_id(id: String) -> (r: Self)
        ensures
            r.variant == PartitionSource::ID,
            r.id == id,
    {
        Self::new(PartitionSource::ID, id)
    }

    /// Construct a new `PartitionID` as a `Label` source.
    pub fn new_label(id: String) -> (r: Self)
        ensures
            r.variant == PartitionSource::Label,
            r.id == id,
    {
        Self::new(PartitionSource::Label, id)
    }

    /// Construct a new `PartitionID` as a `UUID` source.
    pub fn new_uuid(id: String) -> (r: Self)
        ensures
            r.variant == PartitionSource::UUID,
            r.id == id,
    {
        Self::new(PartitionSource::UUID, id)
    }

    /// Construct a new `PartitionID` as a `PartLabel` source.
    pub fn new_partlabel(id: String) -> (r: Self)
        ensures
            r.variant == PartitionSource::PartLabel,
            r.id == id,
    {
        Self::new(PartitionSource::PartLabel, id)
    }

    /// Construct a new `PartitionID` as a `PartUUID` source.
    pub fn new_partuuid(id: String) -> (r: Self)
        ensures
            r.variant == PartitionSource::PartUUID,
            r.id == id,
    {
        Self::new(PartitionSource::PartUUID, id)
    }

    /// Construct a new `PartitionID` as a `Path` source.
    pub fn new_path(id: String) -> (r: Self)
        ensures
            r.variant == PartitionSource::Path,
            r.id == id,
    {
        Self::new(PartitionSource::Path, id)
    }

    /// Reads an identifier from its text form (`UUID=abcd`, `/dev/sda1`).
    pub fn parse(input: &str) -> (r: Result<Self, ParseError>)
        ensures
            match r {
                Ok(p) => parse_spec(input@) == Some(p@),
                Err(e) => parse_spec(input@) is None && e.input@ == input@,
            },
    {
        let n = input.unicode_len();
        if n > 0 && input.get_char(0) == '/' {
            return Ok(Self::new_path(input.to_owned()));
        }
        if let Some(v) = strip_prefix(input, PartitionSource::ID.text_prefix()) {
            Ok(Self::new_id(v))
        } else if let Some(v) = strip_prefix(input, PartitionSource::Label.text_prefix()) {
            Ok(Self::new_label(v))
        } else if let Some(v) = strip_prefix(input, PartitionSource::PartLabel.text_prefix()) {
            Ok(Self::new_partlabel(v))
        } else if let Some(v) = strip_prefix(input, PartitionSource::PartUUID.text_prefix()) {
            Ok(Self::new_partuuid(v))
        } else if let Some(v) = strip_prefix(input, PartitionSource::UUID.text_prefix()) {
            Ok(Self::new_uuid(v))
        } else {
            Err(ParseError { input: input.to_owned() })
        }
    }

    /// Writes the text form of this identifier: `TOKEN=value`, or the bare
    /// path for a `Path` source.
    pub fn serialize(&self) -> (r: String)
        ensures
            r@ == serialize_spec(self.variant, self.id@),
    {
        String::from_str(self.variant.text_prefix()).concat(self.id.as_str())
    }

    /// Find the device path of this ID among `entries`, the scanned entries
    /// of the lookup directory of its source. A `Path` source has no lookup
    /// directory: its device path is the path itself, resolved by the caller,
    /// and this gives `None` for it.
    pub fn get_device_path(&self, entries: &[LinkEntry]) -> (r: Option<String>)
        ensures
            self.variant == PartitionSource::Path ==> r is None,
            self.variant != PartitionSource::Path ==> opt_view(r) == forward_spec(
                self.id@,
                entries_view(entries@),
            ),
    {
        if self.variant == PartitionSource::Path {
            None
        } else {
            from_uuid(self.id.as_str(), entries)
        }
    }

    /// Find the given source ID of the device at `path`, the canonical form of
    /// the device path (`None` where it could not be resolved). For a `Path`
    /// source that is the canonical path itself, and `entries` are not read;
    /// for the others it is looked up among
    /// `entries`, the scanned entries of the lookup directory of `variant`.
    pub fn get_source(variant: PartitionSource, path: &Option<String>, entries: &[LinkEntry]) -> (r:
        Option<Self>)
        ensures
            match r {
                Some(p) => p.variant == variant && source_spec(
                    variant,
                    opt_view(*path),
                    entries_view(entries@),
                ) == Some(p.id@),
                None => source_spec(variant, opt_view(*path), entries_view(entries@)) is None,
            },
    {
        if variant == PartitionSource::Path {
            return match path {
                Some(p) => Some(Self::new_path(p.clone())),
                None => None,
            };
        }
        match find_uuid(path, entries) {
            Some(id) => Some(Self { variant, id }),
            None => None,
        }
    }

    /// Find the UUID of the device at `path` among the entries of the UUID
    /// lookup directory.
    pub fn get_uuid(path: &Option<String>, entries: &[LinkEntry]) -> (r: Option<Self>)
        ensures
            match r {
                Some(p) => p.variant == PartitionSource::UUID && reverse_spec(
                    opt_view(*path),
                    entries_view(entries@),
                ) == Some(p.id@),
                None => reverse_spec(opt_view(*path), entries_view(entries@)) is None,
            },
    {
        Self::get_source(PartitionSource::UUID, path, entries)
    }

    /// Find the PARTUUID of the device at `path` among the entries of the
    /// PARTUUID lookup directory.
    pub fn get_partuuid(path: &Option<String>, entries: &[LinkEntry]) -> (r: Option<Self>)
        ensures
            match r {
                Some(p) => p.variant == PartitionSource::PartUUID && reverse_spec(
                    opt_view(*path),
                    entries_view(entries@),
                ) == Some(p.id@),
                None => reverse_spec(opt_view(*path), entries_view(entries@)) is None,
            },
    {
        Self::get_source(PartitionSource::PartUUID, path, entries)
    }
}

impl ParseError {
    /// Describes the error: the text, and that it names no identifier.
    pub fn message(&self) -> (r: String)
        ensures
            r@ == parse_error_message(self.input@),
    {
        String::from_str("'").concat(self.input.as_str()).concat(
            "' is not a valid PartitionID string",
        )
    }
}

impl std::str::FromStr for PartitionID {
    type Err = ParseError;

    fn from_str(input: &str) -> (r: Result<Self, ParseError>)
        ensures
            match r {
                Ok(p) => parse_spec(input@) == Some(p@),
                Err(e) => parse_spec(input@) is None && e.input@ == input@,
            },
    {
        PartitionID::parse(input)
    }
}

} // verus!
