//! What the side pane shows.

use vstd::prelude::*;
use crate::artifact::Artifact;
use crate::pathops::{extension_of, path_extension};
use crate::text::{ascii_lower, decimal, push_chars, push_decimal, str_eq, to_ascii_lowercase};

verus! {

/// The side pane's content.
#[derive(Debug, PartialEq)]
pub enum Previewer {
    Empty,
    Folder(FolderPreviewer),
    Preview(PreviewPreviewer),
}

/// The entries of the selected folder.
#[derive(Debug, PartialEq)]
pub struct FolderPreviewer {
    pub title: String,
    pub artifacts: Vec<Artifact>,
}

/// The beginning of the selected file, or a summary of an image.
#[derive(Debug, PartialEq)]
pub struct PreviewPreviewer {
    pub title: String,
    pub body: String,
}

/// The most bytes of a file the text preview shows.
pub const MAX_PREVIEW_BYTES: usize = 65536;

/// Whether a (lowercased) extension is that of an image format.
pub open spec fn image_extension(e: Seq<char>) -> bool {
    e == "png"@ || e == "jpg"@ || e == "jpeg"@ || e == "gif"@ || e == "webp"@ || e == "bmp"@ || e
        == "tif"@ || e == "tiff"@ || e == "ico"@
}

/// Whether `p` names an image file by its extension, in any case.
pub open spec fn image_path(p: Seq<char>) -> bool {
    extension_of(p) matches Some(e) && image_extension(ascii_lower(e))
}

/// Whether `path` names an image by its extension (png, jpg, jpeg, gif,
/// webp, bmp, tif, tiff or ico, in any case).
pub fn is_image_path(path: &str) -> (r: bool)
    ensures
        r == image_path(path@),
{
    let ext = match path_extension(path) {
        Some(e) => e,
        None => return false,
    };
    let e = to_ascii_lowercase(ext.as_str());
    let s = e.as_str();
    str_eq(s, "png") || str_eq(s, "jpg") || str_eq(s, "jpeg") || str_eq(s, "gif") || str_eq(s, "webp")
        || str_eq(s, "bmp") || str_eq(s, "tif") || str_eq(s, "tiff") || str_eq(s, "ico")
}

/// What the first bytes of a file tell of an image's size.
#[derive(Debug, Clone, Copy, PartialEq, Eq, Structural)]
pub enum ImageProbe {
    /// Width and height, read from the header.
    Dimensions(u32, u32),
    /// A JPEG file: its size lies further in (see `jpeg_dimensions`).
    Jpeg,
    /// Not a format the probe knows, or too short.
    Unknown,
}

/// The big-endian number in two bytes.
pub open spec fn be16(a: u8, b: u8) -> int {
    a * 256 + b
}

/// The little-endian number in two bytes.
pub open spec fn le16(a: u8, b: u8) -> int {
    a + b * 256
}

/// The big-endian number in the four bytes of `h` from `i`.
pub open spec fn be32(h: Seq<u8>, i: int) -> int {
    h[i] * 16777216 + h[i + 1] * 65536 + h[i + 2] * 256 + h[i + 3]
}

/// Whether `h` starts with the PNG signature.
pub open spec fn png_signature(h: Seq<u8>) -> bool {
    h.len() >= 8 && h[0] == 0x89 && h[1] == 0x50 && h[2] == 0x4e && h[3] == 0x47 && h[4] == 0x0d && h[5]
        == 0x0a && h[6] == 0x1a && h[7] == 0x0a
}

/// Whether `h` starts with `GIF87a` or `GIF89a`.
pub open spec fn gif_signature(h: Seq<u8>) -> bool {
    h.len() >= 6 && h[0] == 0x47 && h[1] == 0x49 && h[2] == 0x46 && h[3] == 0x38 && (h[4] == 0x37 || h[4]
        == 0x39) && h[5] == 0x61
}

/// What the first bytes `h` of a file (at least ten of them) tell: a PNG's
/// size from its IHDR chunk (with 24 bytes), a GIF's from its logical
/// screen, that a JPEG needs scanning, or nothing.
pub open spec fn header_probe(h: Seq<u8>) -> ImageProbe {
    if h.len() < 10 {
        ImageProbe::Unknown
    } else if png_signature(h) && h.len() >= 24 {
        ImageProbe::Dimensions(be32(h, 16) as u32, be32(h, 20) as u32)
    } else if gif_signature(h) {
        ImageProbe::Dimensions(le16(h[6], h[7]) as u32, le16(h[8], h[9]) as u32)
    } else if h[0] == 0xff && h[1] == 0xd8 {
        ImageProbe::Jpeg
    } else {
        ImageProbe::Unknown
    }
}

/// Reads an image's size from the first bytes of its file (the probe reads
/// up to 24): PNG and GIF headers give it directly, a JPEG has to be
/// scanned.
pub fn probe_image_dimensions(header: &Vec<u8>) -> (r: ImageProbe)
    ensures
        r == header_probe(header@),
{
    let n = header.len();
    if n < 10 {
        return ImageProbe::Unknown;
    }
    let png = header[0] == 0x89 && header[1] == 0x50 && header[2] == 0x4e && header[3] == 0x47 && header[4]
        == 0x0d && header[5] == 0x0a && header[6] == 0x1a && header[7] == 0x0a;
    if png && n >= 24 {
        let w: u32 = (header[16] as u32) * 16777216 + (header[17] as u32) * 65536 + (header[18] as u32) * 256
            + (header[19] as u32);
        let h: u32 = (header[20] as u32) * 16777216 + (header[21] as u32) * 65536 + (header[22] as u32) * 256
            + (header[23] as u32);
        return ImageProbe::Dimensions(w, h);
    }
    let gif = header[0] == 0x47 && header[1] == 0x49 && header[2] == 0x46 && header[3] == 0x38 && (header[4]
        == 0x37 || header[4] == 0x39) && header[5] == 0x61;
    if gif {
        let w: u32 = (header[6] as u32) + (header[7] as u32) * 256;
        let h: u32 = (header[8] as u32) + (header[9] as u32) * 256;
        return ImageProbe::Dimensions(w, h);
    }
    if header[0] == 0xff && header[1] == 0xd8 {
        return ImageProbe::Jpeg;
    }
    ImageProbe::Unknown
}

/// Whether a JPEG marker stands alone, without a length: start and end of
/// image, TEM and the restart markers.
pub open spec fn standalone_marker(m: u8) -> bool {
    m == 0xd8 || m == 0xd9 || m == 0x01 || (0xd0 <= m && m <= 0xd7)
}

/// The size a scan of JPEG data `d` from offset `i` finds: bytes up to a
/// `0xff` are skipped, standalone markers passed, and each segment either
/// is a baseline or progressive start-of-frame (whose height and width it
/// reads) or is stepped over by its length; a truncated or malformed
/// segment, or fewer than ten bytes left, ends the scan with nothing.
pub open spec fn jpeg_scan(d: Seq<u8>, i: int) -> Option<(u32, u32)>
    decreases d.len() - i,
{
    if i < 0 || !(i + 9 < d.len()) {
        None
    } else if d[i] != 0xff {
        jpeg_scan(d, i + 1)
    } else {
        let marker = d[i + 1];
        let j = i + 2;
        if standalone_marker(marker) {
            jpeg_scan(d, j)
        } else {
            let seg = be16(d[j], d[j + 1]);
            if seg < 2 || j + seg > d.len() {
                None
            } else if (marker == 0xc0 || marker == 0xc2) && seg >= 7 {
                Some((be16(d[j + 5], d[j + 6]) as u32, be16(d[j + 3], d[j + 4]) as u32))
            } else {
                jpeg_scan(d, j + seg)
            }
        }
    }
}

/// The width and height of the JPEG image in `data` (its whole file), from
/// its first baseline or progressive start-of-frame segment.
pub fn jpeg_dimensions(data: &Vec<u8>) -> (r: Option<(u32, u32)>)
    ensures
        r == jpeg_scan(data@, 2),
{
    let len = data.len();
    let mut i: usize = 2;
    while i < len && len - i > 9
        invariant
            len == data@.len(),
            2 <= i,
            jpeg_scan(data@, 2) == jpeg_scan(data@, i as int),
        decreases len - i,
    {
        if data[i] != 0xff {
            i = i + 1;
        } else {
            let marker = data[i + 1];
            let j = i + 2;
            if marker == 0xd8 || marker == 0xd9 || marker == 0x01 || (0xd0 <= marker && marker <= 0xd7) {
                i = j;
            } else {
                let seg: usize = (data[j] as usize) * 256 + (data[j + 1] as usize);
                if seg < 2 || seg > len - j {
                    return None;
                }
                if (marker == 0xc0 || marker == 0xc2) && seg >= 7 {
                    let h: u32 = (data[j + 3] as u32) * 256 + (data[j + 4] as u32);
                    let w: u32 = (data[j + 5] as u32) * 256 + (data[j + 6] as u32);
                    return Some((w, h));
                }
                i = j + seg;
            }
        }
    }
    None
}

/// The text shown for an image: its path and size in bytes, its
/// dimensions when known, and a hint on opening it.
pub open spec fn summary_text(path: Seq<char>, size: nat, dims: Option<(u32, u32)>) -> Seq<char> {
    "Image preview\nFile: "@ + path + "\nSize: "@ + decimal(size) + " bytes\n"@ + (match dims {
        Some((w, h)) => "Dimensions: "@ + decimal(w as nat) + "×"@ + decimal(h as nat),
        None => "Dimensions: (unavailable)"@,
    }) + "\n\nTip: press Enter to open with the system app, or e for $EDITOR."@
}

/// The preview of an image at `path` whose file has `size` bytes and
/// whose dimensions are `dims` (when they could be read).
pub fn image_preview_summary(path: &str, size: u64, dims: Option<(u32, u32)>) -> (r: String)
    ensures
        r@ == summary_text(path@, size as nat, dims),
{
    let mut s = String::new();
    push_chars(&mut s, "Image preview\nFile: ");
    push_chars(&mut s, path);
    push_chars(&mut s, "\nSize: ");
    push_decimal(&mut s, size);
    push_chars(&mut s, " bytes\n");
    match dims {
        Some((w, h)) => {
            push_chars(&mut s, "Dimensions: ");
            push_decimal(&mut s, w as u64);
            push_chars(&mut s, "×");
            push_decimal(&mut s, h as u64);
        },
        None => push_chars(&mut s, "Dimensions: (unavailable)"),
    }
    push_chars(&mut s, "\n\nTip: press Enter to open with the system app, or e for $EDITOR.");
    assert(s@ =~= summary_text(path@, size as nat, dims));
    s
}

} // verus!
