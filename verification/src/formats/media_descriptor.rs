//! Media descriptors carried with media messages.

use vstd::prelude::*;

use crate::text::{chars_of, contains_exec, contains_seq, str_eq};

verus! {

/// Kind of media, derived from the MIME type.
#[derive(Debug, Clone, Copy, PartialEq, Eq, Structural)]
pub enum MediaKind {
    Image,
    Video,
    Audio,
    Document,
    Sticker,
    Gif,
}

/// Descriptor of one media asset.
#[derive(Debug, Clone)]
pub struct MediaDescriptor {
    /// The asset's UUID, as its 16 bytes.
    pub asset_id: [u8; 16],
    pub mime_type: String,
    pub bytes_total: u64,
    pub chunk_count: u32,
    pub merkle_root: [u8; 32],
    pub blob_id: uuid::Uuid,
    pub wrapped_k_asset: Vec<u8>,
    pub storage_sink: Option<String>,
    pub width: u32,
    pub height: u32,
    pub duration_ms: u64,
    pub thumbnail_ref: Option<String>,
    pub node_id: String,
    pub version_id: String,
}

/// The top-level type of a MIME type: the text before the first `/`.
pub open spec fn mime_top_level(m: Seq<char>) -> Seq<char> {
    m.take(crate::knowledge::link_safety::find_char_from(m, '/', 0))
}

/// The media kind of a MIME type: `image/*` is an image (a GIF when the type
/// mentions `gif`), `video/*` a video, `audio/*` audio, anything else a
/// document.
pub open spec fn media_kind_of(m: Seq<char>) -> MediaKind {
    let top = mime_top_level(m);
    if top == "image"@ {
        if contains_seq(m, "gif"@) {
            MediaKind::Gif
        } else {
            MediaKind::Image
        }
    } else if top == "video"@ {
        MediaKind::Video
    } else if top == "audio"@ {
        MediaKind::Audio
    } else {
        MediaKind::Document
    }
}

impl MediaDescriptor {
    /// The media kind, from the MIME type.
    pub fn kind(&self) -> (r: MediaKind)
        ensures
            r == media_kind_of(self.mime_type@),
    {
        let m = chars_of(self.mime_type.as_str());
        let mut end: usize = 0;
        while end < m.len() && m[end] != '/'
            invariant
                0 <= end <= m@.len(),
                crate::knowledge::link_safety::find_char_from(m@, '/', 0) == crate::knowledge::link_safety::find_char_from(m@, '/', end as int),
            decreases m@.len() - end,
        {
            end = end + 1;
        }
        let top = crate::text::string_of_range(&m, 0, end);
        assert(top@ == mime_top_level(m@));
        if str_eq(top.as_str(), "image") {
            let gif = chars_of("gif");
            if contains_exec(&m, &gif) {
                MediaKind::Gif
            } else {
                MediaKind::Image
            }
        } else if str_eq(top.as_str(), "video") {
            MediaKind::Video
        } else if str_eq(top.as_str(), "audio") {
            MediaKind::Audio
        } else {
            MediaKind::Document
        }
    }
}

/// The MIME type for a file extension.
pub open spec fn mime_for_extension(ext: Option<Seq<char>>) -> Seq<char> {
    match ext {
        Some(e) => if e == "jpg"@ || e == "jpeg"@ {
            "image/jpeg"@
        } else if e == "png"@ {
            "image/png"@
        } else if e == "gif"@ {
            "image/gif"@
        } else if e == "webp"@ {
            "image/webp"@
        } else if e == "mp4"@ {
            "video/mp4"@
        } else if e == "webm"@ {
            "video/webm"@
        } else if e == "mp3"@ {
            "audio/mpeg"@
        } else if e == "ogg"@ {
            "audio/ogg"@
        } else if e == "wav"@ {
            "audio/wav"@
        } else if e == "pdf"@ {
            "application/pdf"@
        } else {
            "application/octet-stream"@
        },
        None => "application/octet-stream"@,
    }
}

/// The MIME type for a file's extension (`None` when the file has none or
/// it is not UTF-8); unknown extensions give `application/octet-stream`.
pub fn mime_from_extension(extension: Option<&str>) -> (r: String)
    ensures
        r@ == mime_for_extension(
            match extension {
                Some(e) => Some(e@),
                None => None,
            },
        ),
{
    let m: &str = match extension {
        Some(e) => if str_eq(e, "jpg") || str_eq(e, "jpeg") {
            "image/jpeg"
        } else if str_eq(e, "png") {
            "image/png"
        } else if str_eq(e, "gif") {
            "image/gif"
        } else if str_eq(e, "webp") {
            "image/webp"
        } else if str_eq(e, "mp4") {
            "video/mp4"
        } else if str_eq(e, "webm") {
            "video/webm"
        } else if str_eq(e, "mp3") {
            "audio/mpeg"
        } else if str_eq(e, "ogg") {
            "audio/ogg"
        } else if str_eq(e, "wav") {
            "audio/wav"
        } else if str_eq(e, "pdf") {
            "application/pdf"
        } else {
            "application/octet-stream"
        },
        None => "application/octet-stream",
    };
    m.to_owned()
}

} // verus!
