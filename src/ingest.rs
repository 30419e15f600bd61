//! What the store keeps for an upload: a grayscale bitmap, a preview, and
//! trimmed labels.
use crate::codec::{
    decode_gray, encode, encoding, gray_decoding, thumbnail_of, thumbnail_sampling, RasterFormat,
};
use crate::error::CoreError;
use crate::geometry::{lemma_scaled_fits, place, scaled_size};
use crate::raster::Raster;
use vstd::prelude::*;

verus! {

/// Bound, in pixels, of each side of a preview.
pub const THUMBNAIL_SIZE: u32 = 512;

/// `s` with leading and trailing whitespace removed.
pub uninterp spec fn trimmed(s: Seq<char>) -> Seq<char>;

/// Relies on `str::trim`, which drops leading and trailing whitespace.
#[verifier::external_body]
fn trim_text(s: &str) -> (r: String)
    ensures
        r@ == trimmed(s@),
{
    s.trim().to_string()
}

/// A side of a preview: the scaled side, but never less than one pixel.
pub open spec fn at_least_one(v: int) -> int {
    if v < 1 {
        1
    } else {
        v
    }
}

/// Size of the preview of a `sw × sh` image: scaled to fit a square of
/// `THUMBNAIL_SIZE` as a canvas would be, without the letterbox, each side at
/// least one pixel.
pub open spec fn thumbnail_size(sw: int, sh: int) -> (int, int) {
    let (w, h) = scaled_size(sw, sh, THUMBNAIL_SIZE as int, THUMBNAIL_SIZE as int);
    (at_least_one(w), at_least_one(h))
}

/// The preview size of a `sw × sh` image.
pub fn thumbnail_dimensions(sw: u32, sh: u32) -> (r: (u32, u32))
    ensures
        r.0 as int == thumbnail_size(sw as int, sh as int).0,
        r.1 as int == thumbnail_size(sw as int, sh as int).1,
        1 <= r.0 <= THUMBNAIL_SIZE,
        1 <= r.1 <= THUMBNAIL_SIZE,
{
    proof {
        lemma_scaled_fits(sw as int, sh as int, THUMBNAIL_SIZE as int, THUMBNAIL_SIZE as int);
    }
    let p = place(sw, sh, THUMBNAIL_SIZE, THUMBNAIL_SIZE);
    let w = if p.width < 1 {
        1
    } else {
        p.width
    };
    let h = if p.height < 1 {
        1
    } else {
        p.height
    };
    (w, h)
}

/// Decodes an upload into a grayscale raster. Empty or unrecognizable bytes
/// are a `Decode` error.
pub fn process_image(data: &Vec<u8>) -> (r: Result<Raster, CoreError>)
    ensures
        data@.len() == 0 ==> r matches Err(CoreError::Decode),
        data@.len() > 0 && gray_decoding(data@) is None ==> r matches Err(CoreError::Decode),
        data@.len() > 0 && gray_decoding(data@) is Some ==> (r matches Ok(img) && img.wf()
            && gray_decoding(data@) == Some((img.width, img.height, img.pixels@))),
{
    if data.len() == 0 {
        return Err(CoreError::Decode);
    }
    match decode_gray(data.as_slice()) {
        Some(img) => Ok(img),
        None => Err(CoreError::Decode),
    }
}

/// The bytes stored for an upload: the full image as a grayscale bitmap and
/// its preview as a JPEG.
pub struct Ingested {
    pub full: Vec<u8>,
    pub thumbnail: Vec<u8>,
}

/// Stored bitmap and preview for the upload `data`, or why there are none.
pub open spec fn ingestion(data: Seq<u8>) -> Result<(Seq<u8>, Seq<u8>), CoreError> {
    if data.len() == 0 {
        Err(CoreError::Decode)
    } else {
        match gray_decoding(data) {
            None => Err(CoreError::Decode),
            Some((w, h, pixels)) => match encoding(RasterFormat::Bmp, w, h, pixels) {
                None => Err(CoreError::Encode),
                Some(full) => {
                    let (tw, th) = thumbnail_size(w as int, h as int);
                    let preview = thumbnail_sampling(w, h, pixels, tw as u32, th as u32);
                    match encoding(RasterFormat::Jpeg, tw as u32, th as u32, preview) {
                        None => Err(CoreError::Encode),
                        Some(thumb) => Ok((full, thumb)),
                    }
                },
            },
        }
    }
}

/// Turns uploaded bytes into what the store keeps.
pub fn ingest(data: &Vec<u8>) -> (r: Result<Ingested, CoreError>)
    ensures
        r matches Ok(stored) ==> ingestion(data@) == Ok::<(Seq<u8>, Seq<u8>), CoreError>(
            (stored.full@, stored.thumbnail@),
        ),
        r matches Err(e) ==> ingestion(data@) == Err::<(Seq<u8>, Seq<u8>), CoreError>(e),
{
    let img = match process_image(data) {
        Ok(img) => img,
        Err(e) => return Err(e),
    };
    let full = match encode(RasterFormat::Bmp, &img) {
        Some(bytes) => bytes,
        None => return Err(CoreError::Encode),
    };
    let (tw, th) = thumbnail_dimensions(img.width, img.height);
    proof {
        assert(tw as int * th as int <= 512 * 512) by (nonlinear_arith)
            requires
                1 <= tw <= 512,
                1 <= th <= 512,
        ;
    }
    let preview = thumbnail_of(&img, tw, th);
    match encode(RasterFormat::Jpeg, &preview) {
        Some(thumbnail) => Ok(Ingested { full, thumbnail }),
        None => Err(CoreError::Encode),
    }
}

/// An upload's labels: the title, and the artist when one is given.
pub struct Labels {
    pub title: String,
    pub artist: Option<String>,
}

/// Trims an upload's title and artist. A title that trims to nothing is a
/// `MissingTitle` error; an artist that does is left out.
pub fn labels(title: &str, artist: &str) -> (r: Result<Labels, CoreError>)
    ensures
        trimmed(title@).len() == 0 ==> r matches Err(CoreError::MissingTitle),
        trimmed(title@).len() > 0 ==> (r matches Ok(l) && l.title@ == trimmed(title@) && (
        trimmed(artist@).len() == 0 ==> l.artist is None) && (trimmed(artist@).len() > 0
            ==> (l.artist matches Some(a) && a@ == trimmed(artist@)))),
{
    let title = trim_text(title);
    if title.as_str().is_empty() {
        return Err(CoreError::MissingTitle);
    }
    let artist = trim_text(artist);
    let artist = if artist.as_str().is_empty() {
        None
    } else {
        Some(artist)
    };
    Ok(Labels { title, artist })
}

} // verus!
