//! Texture upload processing: checking the uploaded PNG, rescaling the canvas
//! of legacy capes and re-encoding the picture, and updating a profile's
//! texture record.

use super::api::{YggdrasilError, YggdrasilErrorView};
use super::types::{ProfileTextures, SkinModel};
use vstd::prelude::*;

verus! {

/// The byte of the re-encoded canvas at column `x`, row `y`, channel `c`: the
/// source pixel where the source covers it, transparent black elsewhere.
pub open spec fn washed_byte(src: Seq<u8>, ow: nat, oh: nat, x: nat, y: nat, c: nat) -> u8 {
    if x < ow && y < oh {
        src[((y * ow + x) * 4 + c) as int]
    } else {
        0
    }
}

/// `dst` is the `w`×`h` RGBA canvas holding the `ow`×`oh` RGBA picture `src`
/// in its upper-left corner, the rest transparent.
pub open spec fn is_washed(dst: Seq<u8>, src: Seq<u8>, ow: nat, oh: nat, w: nat, h: nat) -> bool {
    &&& dst.len() == h * w * 4
    &&& forall|x: nat, y: nat, c: nat|
        x < w && y < h && c < 4 ==> #[trigger] dst[((y * w + x) * 4 + c) as int] == washed_byte(
            src,
            ow,
            oh,
            x,
            y,
            c,
        )
}

proof fn lemma_index_unique(w: nat, x1: nat, y1: nat, c1: nat, x2: nat, y2: nat, c2: nat)
    requires
        x1 < w,
        x2 < w,
        c1 < 4,
        c2 < 4,
        (y1 * w + x1) * 4 + c1 == (y2 * w + x2) * 4 + c2,
    ensures
        x1 == x2 && y1 == y2 && c1 == c2,
{
    assert(c1 == c2 && y1 * w + x1 == y2 * w + x2) by (nonlinear_arith)
        requires
            c1 < 4,
            c2 < 4,
            (y1 * w + x1) * 4 + c1 == (y2 * w + x2) * 4 + c2,
    ;
    if y1 < y2 {
        assert(y1 * w + w <= y2 * w) by (nonlinear_arith)
            requires
                y1 < y2,
        ;
    } else if y2 < y1 {
        assert(y2 * w + w <= y1 * w) by (nonlinear_arith)
            requires
                y2 < y1,
        ;
    }
}

proof fn lemma_index_bound(w: nat, h: nat, x: nat, y: nat, c: nat)
    requires
        x < w,
        y < h,
        c < 4,
    ensures
        (y * w + x) * 4 + c < h * w * 4,
{
    assert(y * w + w <= h * w) by (nonlinear_arith)
        requires
            y < h,
    ;
    assert((y * w + x) * 4 + c < (y * w + w) * 4) by (nonlinear_arith)
        requires
            x < w,
            c < 4,
    ;
    assert((y * w + w) * 4 <= h * w * 4) by (nonlinear_arith)
        requires
            y * w + w <= h * w,
    ;
}

/// Copies the `ow`×`oh` RGBA picture `src` into the upper-left corner of a
/// transparent `w`×`h` RGBA canvas.
pub fn wash_rgba(src: &Vec<u8>, ow: u32, oh: u32, w: u32, h: u32) -> (dst: Vec<u8>)
    requires
        src@.len() == oh * ow * 4,
        ow <= w,
        oh <= h,
    ensures
        is_washed(dst@, src@, ow as nat, oh as nat, w as nat, h as nat),
{
    let ghost gw = w as nat;
    let ghost gh = h as nat;
    let n = src.len();
    let mut dst: Vec<u8> = Vec::new();
    let mut y: u32 = 0;
    while y < h
        invariant
            y <= h,
            ow <= w,
            oh <= h,
            src@.len() == oh * ow * 4,
            gw == w,
            gh == h,
            n == src@.len(),
            dst@.len() == (y * gw) * 4,
            forall|xx: nat, yy: nat, cc: nat|
                xx < gw && yy < gh && cc < 4 && (yy * gw + xx) * 4 + cc < dst@.len() ==> #[trigger] dst@[((
                yy * gw + xx) * 4 + cc) as int] == washed_byte(src@, ow as nat, oh as nat, xx, yy, cc),
        decreases h - y,
    {
        let mut x: u32 = 0;
        while x < w
            invariant
                y < h,
                x <= w,
                ow <= w,
                oh <= h,
                src@.len() == oh * ow * 4,
                gw == w,
                gh == h,
                n == src@.len(),
            gw == w,
            gh == h,
            n == src@.len(),
                dst@.len() == (y * gw + x) * 4,
                forall|xx: nat, yy: nat, cc: nat|
                    xx < gw && yy < gh && cc < 4 && (yy * gw + xx) * 4 + cc < dst@.len() ==> #[trigger] dst@[((
                    yy * gw + xx) * 4 + cc) as int] == washed_byte(src@, ow as nat, oh as nat, xx, yy, cc),
            decreases w - x,
        {
            let mut c: u32 = 0;
            while c < 4
                invariant
                    y < h,
                    x < w,
                    c <= 4,
                    ow <= w,
                    oh <= h,
                    src@.len() == oh * ow * 4,
                    gw == w,
                    gh == h,
                    n == src@.len(),
                gw == w,
                gh == h,
                n == src@.len(),
            gw == w,
            gh == h,
            n == src@.len(),
                    dst@.len() == (y * gw + x) * 4 + c,
                    forall|xx: nat, yy: nat, cc: nat|
                        xx < gw && yy < gh && cc < 4 && (yy * gw + xx) * 4 + cc < dst@.len() ==> #[trigger] dst@[((
                        yy * gw + xx) * 4 + cc) as int] == washed_byte(src@, ow as nat, oh as nat, xx, yy, cc),
                decreases 4 - c,
            {
                let byte = if x < ow && y < oh {
                    proof {
                        lemma_index_bound(ow as nat, oh as nat, x as nat, y as nat, c as nat);
                        assert(y * ow <= (y * ow + x) * 4 + c);
                    }
                    let i = ((y as usize) * (ow as usize) + (x as usize)) * 4 + (c as usize);
                    src[i]
                } else {
                    0u8
                };
                let ghost before = dst@;
                dst.push(byte);
                proof {
                    assert forall|xx: nat, yy: nat, cc: nat|
                        xx < gw && yy < gh && cc < 4 && (yy * gw + xx) * 4 + cc < dst@.len() implies #[trigger] dst@[((
                        yy * gw + xx) * 4 + cc) as int] == washed_byte(src@, ow as nat, oh as nat, xx, yy, cc) by {
                        if (yy * gw + xx) * 4 + cc == before.len() {
                            lemma_index_unique(gw, xx, yy, cc, x as nat, y as nat, c as nat);
                        } else {
                            assert(dst@[((yy * gw + xx) * 4 + cc) as int] == before[((yy * gw + xx) * 4 + cc) as int]);
                        }
                    }
                }
                c += 1;
            }
            x += 1;
        }
        proof {
            assert((y * gw + gw) * 4 == ((y + 1) * gw) * 4) by (nonlinear_arith);
        }
        y += 1;
    }
    proof {
        assert((gh * gw) * 4 == gh * gw * 4);
        assert forall|xx: nat, yy: nat, cc: nat| xx < gw && yy < gh && cc < 4 implies #[trigger] dst@[((
            yy * gw + xx) * 4 + cc) as int] == washed_byte(src@, ow as nat, oh as nat, xx, yy, cc) by {
            lemma_index_bound(gw, gh, xx, yy, cc);
        }
    }
    dst
}

/// The canvas `washed(src, ow, oh, w, h)` described by [`is_washed`], byte by byte.
pub open spec fn washed(src: Seq<u8>, ow: nat, oh: nat, w: nat, h: nat) -> Seq<u8> {
    Seq::new(h * w * 4, |i: int| washed_byte(src, ow, oh, ((i / 4) % (w as int)) as nat, ((i / 4) / (w as int)) as nat, (i % 4) as nat))
}

proof fn lemma_washed_is_washed(dst: Seq<u8>, src: Seq<u8>, ow: nat, oh: nat, w: nat, h: nat)
    requires
        is_washed(dst, src, ow, oh, w, h),
        w > 0,
    ensures
        dst == washed(src, ow, oh, w, h),
{
    let t = washed(src, ow, oh, w, h);
    assert forall|i: int| 0 <= i < dst.len() implies dst[i] == t[i] by {
        let q = i / 4;
        let c = i % 4;
        let x = q % (w as int);
        let y = q / (w as int);
        assert(i == q * 4 + c && 0 <= c < 4 && q >= 0) by (nonlinear_arith)
            requires
                i >= 0,
                q == i / 4,
                c == i % 4,
        ;
        assert(q == y * w + x && 0 <= x < w && y >= 0) by (nonlinear_arith)
            requires
                q >= 0,
                w > 0,
                x == q % (w as int),
                y == q / (w as int),
        ;
        assert(y < h) by (nonlinear_arith)
            requires
                q == y * w + x,
                0 <= x,
                q * 4 + c < h * w * 4,
                0 <= c,
                w > 0,
        ;
        assert(dst[((y as nat * w + x as nat) * 4 + c as nat) as int] == washed_byte(
            src,
            ow,
            oh,
            x as nat,
            y as nat,
            c as nat,
        ));
    }
}

/// The upload path name of a texture slot.
#[derive(Clone, Copy, PartialEq, Eq, Debug)]
pub enum LowercaseTexture {
    Skin,
    Cape,
}

/// The largest allocation the PNG decoder may make while reading the header (16 MiB).
pub const PNG_DECODE_MAX_ALLOC: u64 = 16 * 1024 * 1024;

/// What reading the header of `bytes` as PNG gives (`image::codecs::png::PngDecoder`
/// with an allocation limit): its dimensions, or whether the failure is an
/// unsupported palette encoding, with the error text.
pub uninterp spec fn png_header_result(bytes: Seq<u8>, max_alloc: u64) -> Result<(u32, u32), (bool, Seq<char>)>;

/// The spec view of a header read.
pub open spec fn header_view(r: Result<(u32, u32), (bool, String)>) -> Result<(u32, u32), (bool, Seq<char>)> {
    match r {
        Ok(d) => Ok(d),
        Err(e) => Err((e.0, e.1@)),
    }
}

/// Reads the dimensions of a PNG picture (`PngDecoder::with_limits` then
/// `ImageDecoder::dimensions`). An error is reported with its text and whether
/// it is the unsupported-color error that palette-based pictures raise.
#[verifier::external_body]
fn png_header(bytes: &[u8], max_alloc: u64) -> (r: Result<(u32, u32), (bool, String)>)
    ensures
        header_view(r) == png_header_result(bytes@, max_alloc),
{
    let mut limits = image::Limits::default();
    limits.max_alloc = Some(max_alloc);
    match image::codecs::png::PngDecoder::with_limits(std::io::Cursor::new(bytes), limits) {
        Ok(d) => Ok(image::ImageDecoder::dimensions(&d)),
        Err(image::ImageError::Unsupported(e)) if matches!(
            e.kind(),
            image::error::UnsupportedErrorKind::Color(image::ExtendedColorType::Unknown(_))
        ) => Err((true, e.to_string())),
        Err(e) => Err((false, e.to_string())),
    }
}

/// What decoding `bytes` as PNG into 8-bit RGBA gives: width, height and pixels,
/// or the error text.
pub uninterp spec fn png_rgba8_result(bytes: Seq<u8>) -> Result<(u32, u32, Seq<u8>), Seq<char>>;

/// The spec view of a decoding.
pub open spec fn rgba8_view(r: Result<(u32, u32, Vec<u8>), String>) -> Result<(u32, u32, Seq<u8>), Seq<char>> {
    match r {
        Ok(v) => Ok((v.0, v.1, v.2@)),
        Err(e) => Err(e@),
    }
}

/// Whether the dimensions of a decoded picture are those its header announces
/// (whenever the header can be read, whatever the allocation limit).
pub open spec fn dimensions_match_header(bytes: Seq<u8>, w: u32, h: u32) -> bool {
    forall|limit: u64| #[trigger] png_header_result(bytes, limit) is Ok ==> png_header_result(bytes, limit)->Ok_0 == (w, h)
}

/// Decodes a PNG picture into 8-bit RGBA pixels (`image::load_from_memory_with_format`
/// then `DynamicImage::to_rgba8`).
///
/// Beside the name, the contract states that the pixel buffer holds four bytes
/// per pixel, and that its dimensions are those of the PNG header, when the
/// header could be read.
#[verifier::external_body]
fn png_rgba8(bytes: &[u8]) -> (r: Result<(u32, u32, Vec<u8>), String>)
    ensures
        rgba8_view(r) == png_rgba8_result(bytes@),
        r matches Ok(v) ==> v.2@.len() == v.1 * v.0 * 4,
        r matches Ok(v) ==> dimensions_match_header(bytes@, v.0, v.1),
{
    match image::load_from_memory_with_format(bytes, image::ImageFormat::Png) {
        Ok(img) => {
            let rgba = img.to_rgba8();
            Ok((rgba.width(), rgba.height(), rgba.into_raw()))
        },
        Err(e) => Err(e.to_string()),
    }
}

/// What encoding the `w`×`h` 8-bit RGBA pixels `data` as PNG gives: the file, or the error text.
pub uninterp spec fn png_encoding_result(data: Seq<u8>, w: u32, h: u32) -> Result<Seq<u8>, Seq<char>>;

/// The spec view of an encoding.
pub open spec fn encoding_view(r: Result<Vec<u8>, String>) -> Result<Seq<u8>, Seq<char>> {
    match r {
        Ok(v) => Ok(v@),
        Err(e) => Err(e@),
    }
}

/// Encodes 8-bit RGBA pixels as a PNG file (`PngEncoder::write_image`, which
/// panics unless the buffer holds four bytes per pixel).
#[verifier::external_body]
fn png_encode_rgba8(data: &[u8], w: u32, h: u32) -> (r: Result<Vec<u8>, String>)
    requires
        data@.len() == h * w * 4,
    ensures
        encoding_view(r) == png_encoding_result(data@, w, h),
{
    let mut out = Vec::new();
    let encoder = image::codecs::png::PngEncoder::new(&mut out);
    match image::ImageEncoder::write_image(encoder, data, w, h, image::ExtendedColorType::Rgba8) {
        Ok(()) => Ok(out),
        Err(e) => Err(e.to_string()),
    }
}

/// Why an upload was turned down: a plain-text answer with a status code, or a
/// Yggdrasil error.
pub enum UploadFailure {
    Plain(u16, String),
    Yggdrasil(YggdrasilError),
}

/// The spec view of an upload failure.
pub enum UploadFailureView {
    Plain(u16, Seq<char>),
    Yggdrasil(YggdrasilErrorView),
}

impl View for UploadFailure {
    type V = UploadFailureView;

    open spec fn view(&self) -> UploadFailureView {
        match self {
            UploadFailure::Plain(s, m) => UploadFailureView::Plain(*s, m@),
            UploadFailure::Yggdrasil(e) => UploadFailureView::Yggdrasil(e@),
        }
    }
}

/// A texture ready to be stored: the re-encoded PNG file, its size and the skin model.
pub struct ProcessedTexture {
    pub png: Vec<u8>,
    pub width: u32,
    pub height: u32,
    pub model: SkinModel,
}

/// The skin model asked for by an upload: skins take `default`/`classic` (also
/// when absent) or `slim`; capes ignore the field.
pub open spec fn spec_parse_skin_model(texture: LowercaseTexture, model: Option<Seq<char>>) -> Option<SkinModel> {
    match texture {
        LowercaseTexture::Cape => Some(SkinModel::Default),
        LowercaseTexture::Skin => match model {
            None => Some(SkinModel::Default),
            Some(m) => if m == "default"@ || m == "classic"@ {
                Some(SkinModel::Default)
            } else if m == "slim"@ {
                Some(SkinModel::Slim)
            } else {
                None
            },
        },
    }
}

/// The skin model asked for by an upload, if it is an allowed one.
pub fn parse_skin_model(texture: LowercaseTexture, model: Option<&str>) -> (r: Option<SkinModel>)
    ensures
        r == spec_parse_skin_model(texture, match model {
            Some(m) => Some(m@),
            None => None,
        }),
{
    match texture {
        LowercaseTexture::Cape => Some(SkinModel::Default),
        LowercaseTexture::Skin => match model {
            None => Some(SkinModel::Default),
            Some(m) => {
                let m = m.to_owned();
                if m == String::from_str("default") || m == String::from_str("classic") {
                    Some(SkinModel::Default)
                } else if m == String::from_str("slim") {
                    Some(SkinModel::Slim)
                } else {
                    None
                }
            },
        },
    }
}

/// Whether a `w`×`h` picture is an accepted texture size: a multiple of 64×32,
/// or, for capes, a multiple of 22×17 (a legacy cape layout).
pub open spec fn spec_size_accepted(w: u32, h: u32, is_cape: bool) -> bool {
    w != 0 && h != 0 && ((w % 64 == 0 && h % 32 == 0) || (is_cape && w % 22 == 0 && h % 17 == 0))
}

/// The canvas a picture is stored on: legacy 22×17 capes are widened to 64×32
/// multiples, anything else keeps its size.
pub open spec fn spec_canvas(w: u32, h: u32, is_cape: bool) -> (u32, u32) {
    if is_cape && w % 22 == 0 && h % 17 == 0 {
        ((64 * (w / 22)) as u32, (32 * (h / 17)) as u32)
    } else {
        (w, h)
    }
}

/// The text sent back when a picture has a size that is not accepted.
pub open spec fn size_requirements_message() -> Seq<char> {
    "Picture does not match size requirements. The size is only allowed to be multiples of 64x32 (for skins and capes) or 22x17 (for capes only)"@
}

/// The outcome of an upload of `png` (when a file was sent) as a `texture`
/// with the `model` field, step by step as the endpoint takes them.
pub open spec fn upload_outcome(texture: LowercaseTexture, model: Option<Seq<char>>, png: Option<Seq<u8>>) -> Result<(Seq<u8>, u32, u32, SkinModel), UploadFailureView> {
    match png {
        None => Err(UploadFailureView::Yggdrasil(YggdrasilErrorView::HttpError(400))),
        Some(bytes) => match png_header_result(bytes, PNG_DECODE_MAX_ALLOC) {
            Err((palette, m)) => if palette {
                Err(UploadFailureView::Plain(400, "Palette-based PNG file is not supported"@))
            } else {
                Err(UploadFailureView::Plain(400, "Error decoding PNG data: "@ + m))
            },
            Ok((w, h)) => {
                let is_cape = texture == LowercaseTexture::Cape;
                if w > 512 || h > 512 {
                    Err(UploadFailureView::Plain(413, "Picture size exceed the max of 512x512 pixels."@))
                } else if !spec_size_accepted(w, h, is_cape) {
                    Err(UploadFailureView::Plain(400, size_requirements_message()))
                } else {
                    match png_rgba8_result(bytes) {
                        Err(m) => Err(UploadFailureView::Plain(400, "Error decoding PNG data: "@ + m)),
                        Ok((_, _, pixels)) => match spec_parse_skin_model(texture, model) {
                            None => Err(UploadFailureView::Plain(400, "Invalid skin model. Allowed values are: default, classic, slim"@)),
                            Some(sm) => {
                                let (cw, ch) = spec_canvas(w, h, is_cape);
                                match png_encoding_result(washed(pixels, w as nat, h as nat, cw as nat, ch as nat), cw, ch) {
                                    Err(m) => Err(UploadFailureView::Yggdrasil(YggdrasilErrorView::Other("Error encoding PNG data: "@ + m))),
                                    Ok(file) => Ok((file, cw, ch, sm)),
                                }
                            },
                        },
                    }
                }
            },
        },
    }
}

/// The outcome of an upload as the exec result gives it.
pub open spec fn outcome_view(r: Result<ProcessedTexture, UploadFailure>) -> Result<(Seq<u8>, u32, u32, SkinModel), UploadFailureView> {
    match r {
        Ok(p) => Ok((p.png@, p.width, p.height, p.model)),
        Err(e) => Err(e@),
    }
}

/// Checks and re-encodes an uploaded texture: the PNG must be readable, at most
/// 512×512, a multiple of 64×32 (or of 22×17 for capes, which are then put on a
/// 64×32-multiple canvas), and a skin's model must be `default`, `classic` or
/// `slim`. The picture is re-encoded as plain RGBA.
pub fn process_texture_upload(texture: LowercaseTexture, model: Option<&str>, png: Option<&[u8]>) -> (r: Result<ProcessedTexture, UploadFailure>)
    ensures
        outcome_view(r) == upload_outcome(
            texture,
            match model {
                Some(m) => Some(m@),
                None => None,
            },
            match png {
                Some(b) => Some(b@),
                None => None,
            },
        ),
{
    let bytes = match png {
        None => return Err(UploadFailure::Yggdrasil(YggdrasilError::HttpError(400))),
        Some(b) => b,
    };
    let (w, h) = match png_header(bytes, PNG_DECODE_MAX_ALLOC) {
        Ok(d) => d,
        Err((palette, m)) => {
            if palette {
                return Err(
                    UploadFailure::Plain(400, String::from_str("Palette-based PNG file is not supported")),
                );
            } else {
                let mut msg = String::from_str("Error decoding PNG data: ");
                msg.append(m.as_str());
                return Err(UploadFailure::Plain(400, msg));
            }
        },
    };
    let is_cape = match texture {
        LowercaseTexture::Cape => true,
        LowercaseTexture::Skin => false,
    };
    if w > 512 || h > 512 {
        return Err(
            UploadFailure::Plain(413, String::from_str("Picture size exceed the max of 512x512 pixels.")),
        );
    }
    let is_standard = w % 64 == 0 && h % 32 == 0;
    let is_cape_unstandard = is_cape && w % 22 == 0 && h % 17 == 0;
    if w == 0 || h == 0 || !(is_standard || is_cape_unstandard) {
        return Err(
            UploadFailure::Plain(
                400,
                String::from_str(
                    "Picture does not match size requirements. The size is only allowed to be multiples of 64x32 (for skins and capes) or 22x17 (for capes only)",
                ),
            ),
        );
    }
    let (cw, ch) = if is_cape_unstandard {
        (64 * (w / 22), 32 * (h / 17))
    } else {
        (w, h)
    };
    let pixels = match png_rgba8(bytes) {
        Ok(v) => {
            assert(png_header_result(bytes@, PNG_DECODE_MAX_ALLOC) is Ok);
            v.2
        },
        Err(m) => {
            let mut msg = String::from_str("Error decoding PNG data: ");
            msg.append(m.as_str());
            return Err(UploadFailure::Plain(400, msg));
        },
    };
    let sm = match parse_skin_model(texture, model) {
        Some(m) => m,
        None => {
            return Err(
                UploadFailure::Plain(
                    400,
                    String::from_str("Invalid skin model. Allowed values are: default, classic, slim"),
                ),
            );
        },
    };
    let canvas = wash_rgba(&pixels, w, h, cw, ch);
    proof {
        lemma_washed_is_washed(canvas@, pixels@, w as nat, h as nat, cw as nat, ch as nat);
    }
    match png_encode_rgba8(canvas.as_slice(), cw, ch) {
        Ok(file) => Ok(ProcessedTexture { png: file, width: cw, height: ch, model: sm }),
        Err(m) => {
            let mut msg = String::from_str("Error encoding PNG data: ");
            msg.append(m.as_str());
            Err(UploadFailure::Yggdrasil(YggdrasilError::Other(msg)))
        },
    }
}

/// The texture slots of a profile, as far as an upload or a removal changes them.
#[derive(Clone, Copy, PartialEq, Eq, Debug)]
pub struct TextureSlots {
    pub skin_model: SkinModel,
    pub skin_file: Option<u128>,
    pub cape_file: Option<u128>,
}

impl TextureSlots {
    /// The slots of stored textures.
    pub fn of(t: &ProfileTextures) -> (r: Self)
        ensures
            r == (TextureSlots { skin_model: t.skin_model, skin_file: t.skin_file, cape_file: t.cape_file }),
    {
        TextureSlots { skin_model: t.skin_model, skin_file: t.skin_file, cape_file: t.cape_file }
    }
}

/// The slots after storing `new_file` as the `texture` of a profile with slots
/// `existing` (none yet when the profile has no textures): a skin also sets the
/// model, a cape keeps it (and a profile's first cape gets the default model).
pub open spec fn spec_slots_after_upload(
    existing: Option<TextureSlots>,
    texture: LowercaseTexture,
    model: SkinModel,
    new_file: u128,
) -> TextureSlots {
    match existing {
        Some(t) => match texture {
            LowercaseTexture::Skin => TextureSlots { skin_model: model, skin_file: Some(new_file), ..t },
            LowercaseTexture::Cape => TextureSlots { cape_file: Some(new_file), ..t },
        },
        None => match texture {
            LowercaseTexture::Skin => TextureSlots { skin_model: model, skin_file: Some(new_file), cape_file: None },
            LowercaseTexture::Cape => TextureSlots {
                skin_model: SkinModel::Default,
                skin_file: None,
                cape_file: Some(new_file),
            },
        },
    }
}

/// The file that a slot held before it is overwritten or cleared.
pub open spec fn spec_replaced_file(existing: Option<TextureSlots>, texture: LowercaseTexture) -> Option<u128> {
    match existing {
        Some(t) => match texture {
            LowercaseTexture::Skin => t.skin_file,
            LowercaseTexture::Cape => t.cape_file,
        },
        None => None,
    }
}

/// Plans an upload: the slots to store and the file that is no longer referenced.
pub fn plan_texture_upload(
    existing: Option<TextureSlots>,
    texture: LowercaseTexture,
    model: SkinModel,
    new_file: u128,
) -> (r: (TextureSlots, Option<u128>))
    ensures
        r.0 == spec_slots_after_upload(existing, texture, model, new_file),
        r.1 == spec_replaced_file(existing, texture),
        texture == LowercaseTexture::Skin ==> r.0.skin_model == model && r.0.skin_file == Some(new_file),
        texture == LowercaseTexture::Cape ==> r.0.cape_file == Some(new_file),
{
    match existing {
        Some(t) => match texture {
            LowercaseTexture::Skin => (TextureSlots { skin_model: model, skin_file: Some(new_file), ..t }, t.skin_file),
            LowercaseTexture::Cape => (TextureSlots { cape_file: Some(new_file), ..t }, t.cape_file),
        },
        None => match texture {
            LowercaseTexture::Skin => (
                TextureSlots { skin_model: model, skin_file: Some(new_file), cape_file: None },
                None,
            ),
            LowercaseTexture::Cape => (
                TextureSlots { skin_model: SkinModel::Default, skin_file: None, cape_file: Some(new_file) },
                None,
            ),
        },
    }
}

/// The slots after clearing the `texture` slot.
pub open spec fn spec_slots_after_removal(t: TextureSlots, texture: LowercaseTexture) -> TextureSlots {
    match texture {
        LowercaseTexture::Skin => TextureSlots { skin_file: None, ..t },
        LowercaseTexture::Cape => TextureSlots { cape_file: None, ..t },
    }
}

/// Plans a removal: the slots to store and the file that is no longer referenced.
pub fn plan_texture_removal(t: TextureSlots, texture: LowercaseTexture) -> (r: (TextureSlots, Option<u128>))
    ensures
        r.0 == spec_slots_after_removal(t, texture),
        r.1 == spec_replaced_file(Some(t), texture),
{
    match texture {
        LowercaseTexture::Skin => (TextureSlots { skin_file: None, ..t }, t.skin_file),
        LowercaseTexture::Cape => (TextureSlots { cape_file: None, ..t }, t.cape_file),
    }
}

/// Uploading a texture and then removing it leaves the slot empty and the other
/// slot as it was, and the removal releases exactly the uploaded file.
pub proof fn law_upload_then_remove(
    existing: Option<TextureSlots>,
    texture: LowercaseTexture,
    model: SkinModel,
    new_file: u128,
)
    ensures
        ({
            let up = spec_slots_after_upload(existing, texture, model, new_file);
            let down = spec_slots_after_removal(up, texture);
            &&& spec_replaced_file(Some(up), texture) == Some(new_file)
            &&& down.skin_file == (match texture {
                LowercaseTexture::Skin => None,
                LowercaseTexture::Cape => match existing {
                    Some(t) => t.skin_file,
                    None => None,
                },
            })
            &&& down.cape_file == (match texture {
                LowercaseTexture::Cape => None,
                LowercaseTexture::Skin => match existing {
                    Some(t) => t.cape_file,
                    None => None,
                },
            })
        }),
{
}

/// An upload fills its own slot with the new file and leaves the other slot
/// as it was: a skin upload also makes the upload's model the profile's skin
/// model, whether or not the profile had textures; a cape upload keeps the
/// profile's skin model (the default one for a profile without textures).
/// The file that the slot held before is the one released.
pub proof fn law_upload_fills_its_slot(
    existing: Option<TextureSlots>,
    texture: LowercaseTexture,
    model: SkinModel,
    new_file: u128,
)
    ensures
        ({
            let after = spec_slots_after_upload(existing, texture, model, new_file);
            let before_skin = match existing {
                Some(t) => t.skin_file,
                None => None,
            };
            let before_cape = match existing {
                Some(t) => t.cape_file,
                None => None,
            };
            let before_model = match existing {
                Some(t) => t.skin_model,
                None => SkinModel::Default,
            };
            &&& texture == LowercaseTexture::Skin ==> {
                &&& after.skin_model == model
                &&& after.skin_file == Some(new_file)
                &&& after.cape_file == before_cape
                &&& spec_replaced_file(existing, texture) == before_skin
            }
            &&& texture == LowercaseTexture::Cape ==> {
                &&& after.skin_model == before_model
                &&& after.cape_file == Some(new_file)
                &&& after.skin_file == before_skin
                &&& spec_replaced_file(existing, texture) == before_cape
            }
        }),
{
}

/// Every skin model that the upload form names as allowed is accepted, and
/// only those: `default` and `classic` (and no model at all) give the default
/// (wide-armed) model, `slim` the slim one; a cape takes the default model
/// whatever the field says.
pub proof fn law_allowed_skin_models(m: Seq<char>)
    ensures
        spec_parse_skin_model(LowercaseTexture::Skin, Some(m)) is Some <==> (m == "default"@ || m == "classic"@
            || m == "slim"@),
        m == "default"@ ==> spec_parse_skin_model(LowercaseTexture::Skin, Some(m)) == Some(SkinModel::Default),
        m == "classic"@ ==> spec_parse_skin_model(LowercaseTexture::Skin, Some(m)) == Some(SkinModel::Default),
        m == "slim"@ ==> spec_parse_skin_model(LowercaseTexture::Skin, Some(m)) == Some(SkinModel::Slim),
        spec_parse_skin_model(LowercaseTexture::Skin, None) == Some(SkinModel::Default),
        spec_parse_skin_model(LowercaseTexture::Cape, Some(m)) == Some(SkinModel::Default),
{
    reveal_strlit("default");
    reveal_strlit("classic");
    reveal_strlit("slim");
    assert("default"@.len() != "slim"@.len());
    assert("classic"@.len() != "slim"@.len());
}

} // verus!
