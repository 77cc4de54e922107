//! Find the stable identifier of a partition from its device path, or the
//! device path from a stable identifier.
//!
//! The operating environment publishes, for each kind of identifier, a
//! directory `/dev/disk/by-<kind>` of symlinks named by identifier value. This
//! library holds the identifier model, its `KIND=value` text form, and the two
//! scans over such a directory, given its entries as plain values.
pub mod partition_id;
pub mod resolve;
pub mod source;
