use vstd::prelude::*;
use vstd::slice::slice_to_vec;
use crate::proto::{FileRef, FileRefV1, FileRefV1View, FileRefView};

verus! {

/// The fixed chunk size: both the backing store's largest single fetch and
/// the mandated upload part size.
pub const CHUNK_SIZE: usize = 512 * 1024;

/// The document the backing store attached to a message: what the protocol
/// layer reads out of a stored message's media.
pub struct DocumentInfo {
    pub id: i64,
    pub access_hash: i64,
    pub file_reference: Vec<u8>,
    pub size: i64,
}

/// The media attached to a stored message, reduced to the cases the protocol
/// layer distinguishes.
pub enum MediaInfo {
    /// The message carries no media at all.
    Missing,
    /// The media is something other than a document.
    NotDocument,
    /// The media is a document slot with nothing in it.
    DocumentUnavailable,
    /// The document is a placeholder, not a plain stored document.
    NotPlainDocument,
    /// A plain stored document.
    Document(DocumentInfo),
}

/// A stored content message: its id and whatever media it carries.
pub struct MessageInfo {
    pub id: i32,
    pub media: MediaInfo,
}

/// The File Reference a stored message yields: present exactly when the
/// message carries a plain stored document, and then built from that
/// document's fields and the message's id.
pub open spec fn spec_message_file_ref(m: MessageInfo) -> Option<FileRefView> {
    match m.media {
        MediaInfo::Document(d) => Some(FileRefView::V1(FileRefV1View {
            message_id: m.id,
            document_id: d.id,
            file_reference: d.file_reference@,
            access_hash: d.access_hash,
            file_size: d.size,
        })),
        _ => None,
    }
}

pub(crate) fn clone_bytes(v: &Vec<u8>) -> (r: Vec<u8>)
    ensures
        r@ == v@,
{
    slice_to_vec(v.as_slice())
}

/// Extract a File Reference from a stored message, exactly as finalize and
/// refresh both do. Fails, never guesses, when the media is not a plain
/// stored document.
pub fn message_to_file_ref(message: &MessageInfo) -> (r: Option<FileRef>)
    ensures
        match spec_message_file_ref(*message) {
            Some(v) => r matches Some(f) && f@ == v,
            None => r is None,
        },
{
    match &message.media {
        MediaInfo::Document(d) => Some(FileRef::V1(FileRefV1 {
            message_id: message.id,
            document_id: d.id,
            file_reference: clone_bytes(&d.file_reference),
            access_hash: d.access_hash,
            file_size: d.size,
        })),
        _ => None,
    }
}

} // verus!
