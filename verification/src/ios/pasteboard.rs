//! The pasteboard: text with the application's metadata, and images.

use crate::bytes;
use crate::bytes::{be_bytes, be_number, text_from_utf8};
use crate::clipboard;
use crate::clipboard::{joined_text, ClipboardEntry, ClipboardString, ImageFormat};
use vstd::prelude::*;
use vstd::utf8::*;

verus! {

/// The type identifier of an image format.
pub open spec fn uti(format: ImageFormat) -> Seq<char> {
    match format {
        ImageFormat::Png => "public.png"@,
        ImageFormat::Jpeg => "public.jpeg"@,
        ImageFormat::Gif => "com.compuserve.gif"@,
        ImageFormat::Webp => "org.webmproject.webp"@,
        ImageFormat::Bmp => "com.microsoft.bmp"@,
        ImageFormat::Svg => "public.svg-image"@,
        ImageFormat::Tiff => "public.tiff"@,
    }
}

pub fn image_format_uti(format: ImageFormat) -> (identifier: &'static str)
    ensures
        identifier@ == uti(format),
{
    match format {
        ImageFormat::Png => "public.png",
        ImageFormat::Jpeg => "public.jpeg",
        ImageFormat::Gif => "com.compuserve.gif",
        ImageFormat::Webp => "org.webmproject.webp",
        ImageFormat::Bmp => "com.microsoft.bmp",
        ImageFormat::Svg => "public.svg-image",
        ImageFormat::Tiff => "public.tiff",
    }
}

/// What is written for a text with metadata: the hash of the text, so that metadata of
/// another text is not taken for its own, and the metadata.
#[derive(Debug, PartialEq, Eq)]
pub struct TextMetadata {
    pub hash: Vec<u8>,
    pub metadata: String,
}

/// What goes on the pasteboard.
#[derive(Debug, PartialEq, Eq)]
pub enum PasteboardWrite {
    Clear,
    Text { text: String, metadata: Option<TextMetadata> },
    Image { identifier: &'static str, bytes: Vec<u8> },
}

/// What copying the entries puts on the pasteboard: nothing, the one text with its metadata,
/// the one image, or the text of all that are texts. `text_hash` is the hash of the first
/// entry's text.
pub fn write_to_clipboard(entries: Vec<ClipboardEntry>, text_hash: u64) -> (write: PasteboardWrite)
    ensures
        entries@.len() == 0 ==> write is Clear,
        entries@.len() == 1 ==> match entries@[0] {
            ClipboardEntry::Text(string) => write matches PasteboardWrite::Text { text, metadata }
                && text@ == string.text@ && match string.metadata {
                Some(kept) => metadata matches Some(written) && written.metadata@ == kept@
                    && written.hash@ == bytes::low_bytes(text_hash as nat, 8),
                None => metadata is None,
            },
            ClipboardEntry::Image { format, bytes: data } => write matches PasteboardWrite::Image {
                identifier,
                bytes: written,
            } && identifier@ == uti(format) && written@ == data@,
        },
        entries@.len() > 1 ==> (write matches PasteboardWrite::Text { text, metadata } && text@
            == clipboard::texts(entries@) && metadata is None),
{
    let mut entries = entries;
    if entries.len() == 0 {
        return PasteboardWrite::Clear;
    }
    if entries.len() > 1 {
        // Images do not concatenate.
        return PasteboardWrite::Text { text: joined_text(&entries), metadata: None };
    }
    match entries.remove(0) {
        ClipboardEntry::Text(string) => {
            let metadata = match string.metadata {
                Some(kept) => Some(
                    TextMetadata { hash: be_bytes(text_hash, 8), metadata: kept },
                ),
                None => None,
            };
            PasteboardWrite::Text { text: string.text, metadata }
        },
        ClipboardEntry::Image { format, bytes: data } => PasteboardWrite::Image {
            identifier: image_format_uti(format),
            bytes: data,
        },
    }
}

/// Whether a hash on the pasteboard is that of the text beside it.
pub open spec fn hash_matches(hash: Option<Vec<u8>>, text_hash: u64) -> bool {
    match hash {
        Some(hash) => hash@.len() == 8 && bytes::big_endian(hash@) == text_hash,
        None => false,
    }
}

/// The metadata of a text on the pasteboard, where it belongs to this text and is a text
/// itself.
pub open spec fn kept_metadata(
    hash: Option<Vec<u8>>,
    text_hash: u64,
    metadata: Option<Vec<u8>>,
) -> Option<Seq<char>> {
    match metadata {
        Some(metadata) => if hash_matches(hash, text_hash) && valid_utf8(metadata@) {
            Some(decode_utf8(metadata@))
        } else {
            None
        },
        None => None,
    }
}

/// Whether the hash matches, so that the metadata is worth reading.
pub fn hash_is_of(hash: &Option<Vec<u8>>, text_hash: u64) -> (matches: bool)
    ensures
        matches == hash_matches(*hash, text_hash),
{
    match hash {
        Some(hash) => hash.len() == 8 && be_number(hash.as_slice()) == text_hash,
        None => false,
    }
}

/// The text on the pasteboard with its metadata; `text_hash` is the hash of the text.
pub fn read_text(
    text: String,
    hash: Option<Vec<u8>>,
    text_hash: u64,
    metadata: Option<Vec<u8>>,
) -> (string: ClipboardString)
    ensures
        string.text@ == text@,
        crate::input::text_view(string.metadata) == kept_metadata(hash, text_hash, metadata),
{
    let kept = match metadata {
        Some(metadata) => if hash_is_of(&hash, text_hash) {
            text_from_utf8(metadata)
        } else {
            None
        },
        None => None,
    };
    ClipboardString { text, metadata: kept }
}

/// The image formats, in the order in which they are looked for.
pub open spec fn formats() -> Seq<ImageFormat> {
    seq![
        ImageFormat::Png,
        ImageFormat::Jpeg,
        ImageFormat::Webp,
        ImageFormat::Gif,
        ImageFormat::Svg,
        ImageFormat::Bmp,
        ImageFormat::Tiff,
    ]
}

pub fn image_formats() -> (all: Vec<ImageFormat>)
    ensures
        all@ == formats(),
{
    let mut all: Vec<ImageFormat> = Vec::new();
    all.push(ImageFormat::Png);
    all.push(ImageFormat::Jpeg);
    all.push(ImageFormat::Webp);
    all.push(ImageFormat::Gif);
    all.push(ImageFormat::Svg);
    all.push(ImageFormat::Bmp);
    all.push(ImageFormat::Tiff);
    all
}

/// The image on the pasteboard: what is there in a format, unless it is empty.
pub fn read_image(format: ImageFormat, data: Option<Vec<u8>>) -> (entry: Option<ClipboardEntry>)
    ensures
        match data {
            Some(data) => if data@.len() == 0 {
                entry is None
            } else {
                entry == Some(ClipboardEntry::Image { format, bytes: data })
            },
            None => entry is None,
        },
{
    match data {
        Some(data) => if data.len() == 0 {
            None
        } else {
            Some(ClipboardEntry::Image { format, bytes: data })
        },
        None => None,
    }
}

/// Every image format is looked for.
pub proof fn law_every_format_is_read(format: ImageFormat)
    ensures
        formats().contains(format),
{
    let index: int = match format {
        ImageFormat::Png => 0,
        ImageFormat::Jpeg => 1,
        ImageFormat::Webp => 2,
        ImageFormat::Gif => 3,
        ImageFormat::Svg => 4,
        ImageFormat::Bmp => 5,
        ImageFormat::Tiff => 6,
    };
    assert(formats()[index] == format);
}

/// A text that is copied with metadata is pasted with it: the hash written beside it is the
/// one that is looked for.
pub proof fn law_metadata_survives(text_hash: u64, metadata: Seq<char>, hash: Vec<u8>, data: Vec<u8>)
    requires
        hash@ == bytes::low_bytes(text_hash as nat, 8),
        data@ == encode_utf8(metadata),
    ensures
        kept_metadata(Some(hash), text_hash, Some(data)) == Some(metadata),
{
    bytes::lemma_byte_powers();
    bytes::law_bytes_read_back(text_hash as nat, 8);
    encode_utf8_valid_utf8(metadata);
    encode_utf8_decode_utf8(metadata);
}

/// Metadata of another text is not taken for this one's.
pub proof fn law_foreign_metadata_is_dropped(
    text_hash: u64,
    other_hash: u64,
    hash: Vec<u8>,
    data: Option<Vec<u8>>,
)
    requires
        hash@ == bytes::low_bytes(other_hash as nat, 8),
        other_hash != text_hash,
    ensures
        kept_metadata(Some(hash), text_hash, data) is None,
{
    bytes::lemma_byte_powers();
    bytes::law_bytes_read_back(other_hash as nat, 8);
}

} // verus!
