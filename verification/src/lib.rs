//! Encoder for the classic Mac OS "Alias" record: a fixed-layout binary
//! blob that links a file or folder to its volume and parent directory,
//! followed by tagged variable-length "extra" sub-records.
//!
//! The crate provides the binary encoder (`codec::encode`), the
//! volume-boundary discovery walk over device/inode identities
//! (`volume::find_volume_root`), and the assembly of the standard extra
//! sub-records from plain path and name values (`assemble::build_alias`).
//! Filesystem metadata reads and host-OS volume-name lookups are left to
//! the caller; everything here is pure and verified.

pub mod assemble;
pub mod codec;
pub mod dates;
pub mod endian;
pub mod record;
pub mod utf16;
pub mod volume;
