//! Cover images: their pixel bytes and where they are cached.
use vstd::prelude::*;
use vstd::string::StringExecFns;

verus! {

/// Directory of the image cache.
pub const CACHE_DIR: &'static str = "/tmp/rustify-wled";

/// Lower-case hexadecimal MD5 digest of a text, as md5 formats it.
pub uninterp spec fn md5_hex_of(s: Seq<char>) -> Seq<char>;

/// Relies on `md5::compute` and its `LowerHex` formatting: the digest depends
/// on the text alone and prints as 32 hexadecimal digits.
#[verifier::external_body]
fn md5_hex(s: &str) -> (r: String)
    ensures
        r@ == md5_hex_of(s@),
        r@.len() == 32,
{
    format!("{:x}", md5::compute(s))
}

/// The cache file of an image whose key is `key`: `<CACHE_DIR>/<key>.png`.
pub fn cache_file_path(key: &str) -> (r: String)
    ensures
        r@ == CACHE_DIR@ + "/"@ + key@ + ".png"@,
{
    let mut path = String::from_str(CACHE_DIR);
    path.append("/");
    path.append(key);
    path.append(".png");
    path
}

/// The cache file of an image URL, keyed by the MD5 digest of the URL, or
/// the cache directory itself.
pub fn get_cache_path(url: &str, with_file: bool) -> (r: String)
    ensures
        with_file ==> r@ == CACHE_DIR@ + "/"@ + md5_hex_of(url@) + ".png"@,
        !with_file ==> r@ == CACHE_DIR@,
{
    if with_file {
        let key = md5_hex(url);
        cache_file_path(key.as_str())
    } else {
        String::from_str(CACHE_DIR)
    }
}

/// What precaching an image takes: nothing when its cache file exists,
/// else fetching it into the returned cache file.
pub fn precache_image(url: &str, cached: bool) -> (r: Option<String>)
    ensures
        cached ==> r is None,
        !cached ==> r is Some && r->Some_0@ == CACHE_DIR@ + "/"@ + md5_hex_of(url@) + ".png"@,
{
    if cached {
        None
    } else {
        Some(get_cache_path(url, true))
    }
}

/// Why pixel bytes could not be produced.
#[derive(Clone, Copy, Debug, PartialEq, Eq, Structural)]
pub enum ImageError {
    /// The decoded image does not have `width · height` pixels.
    SizeMismatch,
}

/// Channel `c` of a pixel.
pub open spec fn channel(p: (u8, u8, u8), c: int) -> u8 {
    if c == 0 {
        p.0
    } else if c == 1 {
        p.1
    } else {
        p.2
    }
}

/// The pixels' channels in order: red, green, blue of each pixel in turn.
pub open spec fn rgb_bytes(pixels: Seq<(u8, u8, u8)>) -> Seq<u8> {
    Seq::new(3 * pixels.len(), |i: int| channel(pixels[i / 3], i % 3))
}

/// The RGB bytes of a cover of `width × height` pixels: all zero when there
/// is no cover, else the decoded pixels' channels in order.
pub fn get_image_pixels(pixels: Option<Vec<(u8, u8, u8)>>, width: &u32, height: &u32) -> (r: Result<
    Vec<u8>,
    ImageError,
>)
    requires
        3 * (*width as int) * (*height as int) <= usize::MAX,
    ensures
        match pixels {
            None => r is Ok && r->Ok_0@ == Seq::new(3 * (*width as nat) * (*height as nat), |i: int| 0u8),
            Some(p) => if p@.len() == (*width as int) * (*height as int) {
                r is Ok && r->Ok_0@ == rgb_bytes(p@)
            } else {
                r == Err::<Vec<u8>, ImageError>(ImageError::SizeMismatch)
            },
        },
{
    let w = *width;
    let h = *height;
    assert(0 <= (w as int) * (h as int) && (w as int) * (h as int) <= 3 * (w as int) * (h as int)
        && 3 * (w as int) * (h as int) == 3 * ((w as int) * (h as int))) by (nonlinear_arith);
    let count = (*width as usize) * (*height as usize);
    match pixels {
        None => {
            let total = 3 * count;
            let mut bytes: Vec<u8> = Vec::new();
            let mut i: usize = 0;
            while i < total
                invariant
                    i <= total,
                    bytes@ == Seq::new(i as nat, |j: int| 0u8),
                decreases total - i,
            {
                bytes.push(0);
                i = i + 1;
                assert(bytes@ =~= Seq::new(i as nat, |j: int| 0u8));
            }
            assert(total as int == 3 * (*width as nat) * (*height as nat));
            assert(bytes@ =~= Seq::new(3 * (*width as nat) * (*height as nat), |i: int| 0u8));
            Ok(bytes)
        },
        Some(p) => {
            if p.len() != count {
                return Err(ImageError::SizeMismatch);
            }
            let mut bytes: Vec<u8> = Vec::new();
            let mut i: usize = 0;
            while i < p.len()
                invariant
                    i <= p@.len(),
                    3 * p@.len() <= usize::MAX,
                    bytes@ == rgb_bytes(p@.take(i as int)),
                decreases p@.len() - i,
            {
                let (red, green, blue) = p[i];
                bytes.push(red);
                bytes.push(green);
                bytes.push(blue);
                i = i + 1;
                assert(bytes@ =~= rgb_bytes(p@.take(i as int))) by {
                    let q = p@.take(i as int);
                    assert forall|j: int| 0 <= j < 3 * q.len() implies bytes@[j] == channel(
                        q[j / 3],
                        j % 3,
                    ) by {
                        if j < 3 * (i - 1) {
                            assert(q[j / 3] == p@.take(i - 1)[j / 3]);
                        }
                    }
                }
            }
            assert(p@.take(p@.len() as int) =~= p@);
            Ok(bytes)
        },
    }
}

} // verus!
