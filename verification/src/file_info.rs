//! Per-file metadata gathered beside the engine's own fields: lock state,
//! file identity and the core of a PDF's XMP packet.

use crate::paths::{is_pdf_path, lowercase};
use crate::text::{decimal_digits, has_suffix, text_view, u64_to_decimal};
use vstd::prelude::*;

verus! {

/// What is known of a file beyond what the engine reports.
#[derive(Clone, Debug, PartialEq, Eq)]
pub struct FileInfo {
    pub is_locked: bool,
    pub file_id: Option<String>,
    pub pdf_title: Option<String>,
    pub pdf_author: Option<String>,
    pub pdf_creator: Option<String>,
}

/// How the attempt to take an exclusive lock on a file ended.
#[derive(Clone, Copy, Debug, PartialEq, Eq)]
pub enum LockProbe {
    /// The file could not be opened for writing.
    OpenFailed,
    /// The probe itself broke down.
    ProbeFailed,
    /// The file was opened, and the lock was refused.
    LockRefused,
    /// The file was opened, and the lock was granted.
    LockGranted,
}

/// The identity that the file system gives a file.
#[derive(Clone, Copy, Debug, PartialEq, Eq)]
pub enum FileIdentity {
    Inode { device_id: u64, inode_number: u64 },
    LowRes { volume_serial_number: u32, file_index: u64 },
    HighRes { volume_serial_number: u64, file_id: u128 },
}

/// Title, author and creator tool from a document's XMP packet.
#[derive(Clone, Debug, PartialEq, Eq)]
pub struct XmpCore {
    pub title: Option<String>,
    pub author: Option<String>,
    pub creator_tool: Option<String>,
}

/// How much is gathered for each result.
#[derive(Clone, Copy, Debug, PartialEq, Eq)]
pub enum EnrichmentLevel {
    /// Lock state and identity only.
    Fast,
    /// Also the XMP core of PDF files.
    Full,
}

/// One way of opening a file for its XMP packet.
#[derive(Clone, Copy, Debug, PartialEq, Eq)]
pub struct XmpOpenOptions {
    pub only_xmp: bool,
    pub use_smart_handler: bool,
    pub use_packet_scanning: bool,
    pub for_update: bool,
}

/// A file counts as locked unless the probe was granted the lock.
pub open spec fn probe_locked(probe: LockProbe) -> bool {
    probe != LockProbe::LockGranted
}

/// The identity string of a file: the decimal file index of a
/// low-resolution identity, nothing for the other kinds.
pub open spec fn identity_text(identity: Option<FileIdentity>) -> Option<Seq<char>> {
    match identity {
        Some(FileIdentity::LowRes { volume_serial_number, file_index }) => Some(
            decimal_digits(file_index as nat),
        ),
        _ => None,
    }
}

/// The options of the `attempt`-th try at opening a file for its XMP
/// packet: first the format-aware handler on the packet alone, then a scan
/// of the raw file for a packet, then nothing more.
pub open spec fn xmp_open_options(attempt: nat, for_update: bool) -> Option<XmpOpenOptions> {
    if attempt == 0 {
        Some(
            XmpOpenOptions {
                only_xmp: true,
                use_smart_handler: true,
                use_packet_scanning: false,
                for_update,
            },
        )
    } else if attempt == 1 {
        Some(
            XmpOpenOptions {
                only_xmp: false,
                use_smart_handler: false,
                use_packet_scanning: true,
                for_update,
            },
        )
    } else {
        None
    }
}

/// Whether a file counts as locked after the given probe.
pub fn is_locked(probe: LockProbe) -> (res: bool)
    ensures
        res == probe_locked(probe),
{
    match probe {
        LockProbe::LockGranted => false,
        _ => true,
    }
}

/// The identity string of a file.
pub fn file_id_string(identity: Option<FileIdentity>) -> (res: Option<String>)
    ensures
        text_view(res) == identity_text(identity),
{
    match identity {
        Some(FileIdentity::LowRes { volume_serial_number: _, file_index }) => Some(
            u64_to_decimal(file_index),
        ),
        _ => None,
    }
}

/// How to open a file for its XMP packet after `failed_attempts` tries have
/// failed; `None` when it is time to give up.
pub fn next_xmp_open(failed_attempts: u8, for_update: bool) -> (res: Option<XmpOpenOptions>)
    ensures
        res == xmp_open_options(failed_attempts as nat, for_update),
{
    if failed_attempts == 0 {
        Some(
            XmpOpenOptions {
                only_xmp: true,
                use_smart_handler: true,
                use_packet_scanning: false,
                for_update,
            },
        )
    } else if failed_attempts == 1 {
        Some(
            XmpOpenOptions {
                only_xmp: false,
                use_smart_handler: false,
                use_packet_scanning: true,
                for_update,
            },
        )
    } else {
        None
    }
}

/// Whether the XMP packet of `path` is to be read at the given level: only
/// at the full level, and only for PDF files.
pub fn wants_xmp(level: EnrichmentLevel, path: &str) -> (res: bool)
    ensures
        res == (level == EnrichmentLevel::Full && has_suffix(lowercase(path@), ".pdf"@)),
{
    match level {
        EnrichmentLevel::Full => is_pdf_path(path),
        EnrichmentLevel::Fast => false,
    }
}

/// The metadata of a file at the fast level: lock state and identity.
pub fn get_file_info(probe: LockProbe, identity: Option<FileIdentity>) -> (info: FileInfo)
    ensures
        info.is_locked == probe_locked(probe),
        text_view(info.file_id) == identity_text(identity),
        info.pdf_title is None,
        info.pdf_author is None,
        info.pdf_creator is None,
{
    FileInfo {
        is_locked: is_locked(probe),
        file_id: file_id_string(identity),
        pdf_title: None,
        pdf_author: None,
        pdf_creator: None,
    }
}

/// The metadata of a file at the full level. The XMP fields are taken over
/// for a PDF file whose packet was read, and are absent otherwise: for
/// another kind of file, and for a PDF whose packet could not be read.
pub fn get_file_info_all_meta(
    path: &str,
    probe: LockProbe,
    identity: Option<FileIdentity>,
    xmp: Option<XmpCore>,
) -> (info: FileInfo)
    ensures
        info.is_locked == probe_locked(probe),
        text_view(info.file_id) == identity_text(identity),
        (info.pdf_title, info.pdf_author, info.pdf_creator) == (
            if has_suffix(lowercase(path@), ".pdf"@) && xmp is Some {
                (xmp->0.title, xmp->0.author, xmp->0.creator_tool)
            } else {
                (None::<String>, None::<String>, None::<String>)
            }
        ),
{
    let base = get_file_info(probe, identity);
    if is_pdf_path(path) {
        match xmp {
            Some(core) => FileInfo {
                is_locked: base.is_locked,
                file_id: base.file_id,
                pdf_title: core.title,
                pdf_author: core.author,
                pdf_creator: core.creator_tool,
            },
            None => base,
        }
    } else {
        base
    }
}

} // verus!
