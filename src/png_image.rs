//! PNG encoding of RGBA frames, and the image size a PNG stream declares.
use vstd::prelude::*;

verus! {

#[verifier::external_type_specification]
#[verifier::external_body]
pub struct ExImageError(image::ImageError);

/// The eight bytes that open every PNG stream.
pub open spec fn png_signature() -> Seq<u8> {
    seq![137u8, 80, 78, 71, 13, 10, 26, 10]
}

/// Length (13, big-endian) and type (`IHDR`) of the header chunk, which
/// follows the signature.
pub open spec fn ihdr_prefix() -> Seq<u8> {
    seq![0u8, 0, 0, 13, 73, 72, 68, 82]
}

/// A 32-bit value as four big-endian bytes.
pub open spec fn be_bytes(x: u32) -> Seq<u8> {
    seq![
        (x / 0x1000000) as u8,
        ((x / 0x10000) % 0x100) as u8,
        ((x / 0x100) % 0x100) as u8,
        (x % 0x100) as u8,
    ]
}

/// The four big-endian bytes at `i` read as a number.
pub open spec fn be_value_at(s: Seq<u8>, i: int) -> int {
    s[i] * 0x1000000 + s[i + 1] * 0x10000 + s[i + 2] * 0x100 + s[i + 3]
}

/// The first 24 bytes of a PNG stream of a `width` x `height` image:
/// signature, then the header chunk's length, type, width and height.
pub open spec fn png_header(width: u32, height: u32) -> Seq<u8> {
    png_signature() + ihdr_prefix() + be_bytes(width) + be_bytes(height)
}

/// Whether `png` opens with the header of a `width` x `height` image.
pub open spec fn declares_size(png: Seq<u8>, width: u32, height: u32) -> bool {
    png.len() >= 24 && png.subrange(0, 24) == png_header(width, height)
}

/// The width and height that a PNG stream declares in its header chunk,
/// or `None` where the bytes do not open as a PNG stream.
pub open spec fn png_size(png: Seq<u8>) -> Option<(u32, u32)> {
    if png.len() >= 24 && png.subrange(0, 16) == png_signature() + ihdr_prefix() {
        Some((be_value_at(png, 16) as u32, be_value_at(png, 20) as u32))
    } else {
        None
    }
}

/// The PNG stream that the encoder writes for an RGBA pixel buffer.
pub uninterp spec fn png_encoding_of(width: u32, height: u32, pixels: Seq<u8>) -> Seq<u8>;

/// Relies on image's `write_buffer_with_format` with `ColorType::Rgba8` and
/// `ImageFormat::Png` (what `ImageBuffer::write_to` calls): the png encoder
/// refuses a zero width or height and otherwise succeeds (an in-memory
/// buffer takes every write), opening the stream with the signature and the header chunk that holds width and height big-endian.
#[verifier::external_body]
fn write_rgba_png(width: u32, height: u32, pixels: &Vec<u8>) -> (r: Result<Vec<u8>, image::ImageError>)
    requires
        pixels@.len() == width * height * 4,
    ensures
        r is Ok ==> r->Ok_0@ == png_encoding_of(width, height, pixels@),
        r is Ok ==> declares_size(png_encoding_of(width, height, pixels@), width, height),
        width == 0 || height == 0 ==> r is Err,
        width > 0 && height > 0 ==> r is Ok,
{
    let mut bytes: Vec<u8> = Vec::new();
    let mut cursor = std::io::Cursor::new(&mut bytes);
    let written = image::write_buffer_with_format(
        &mut cursor, pixels, width, height, image::ColorType::Rgba8, image::ImageFormat::Png);
    written.map(|_| bytes)
}

/// Encodes a `width` x `height` RGBA buffer as a PNG stream; on failure,
/// the encoder's description of what went wrong.
pub fn encode_png(width: u32, height: u32, pixels: &Vec<u8>) -> (r: Result<Vec<u8>, String>)
    requires
        pixels@.len() == width * height * 4,
    ensures
        r is Ok ==> r->Ok_0@ == png_encoding_of(width, height, pixels@),
        r is Ok ==> declares_size(r->Ok_0@, width, height),
        r is Ok <==> width > 0 && height > 0,
{
    match write_rgba_png(width, height, pixels) {
        Ok(png) => Ok(png),
        Err(e) => Err(e.to_string()),
    }
}

/// The width and height declared in the header chunk of a PNG stream, or
/// `None` where `png` does not open with a PNG signature and header chunk.
pub fn png_dimensions(png: &Vec<u8>) -> (r: Option<(u32, u32)>)
    ensures
        r == png_size(png@),
{
    if png.len() < 24 {
        return None;
    }
    let expected: Vec<u8> = vec![137u8, 80, 78, 71, 13, 10, 26, 10, 0, 0, 0, 13, 73, 72, 68, 82];
    assert(expected@ =~= png_signature() + ihdr_prefix());
    let mut i: usize = 0;
    while i < 16
        invariant
            0 <= i <= 16,
            png@.len() >= 24,
            expected@ == png_signature() + ihdr_prefix(),
            forall|j: int| 0 <= j < i ==> png@[j] == expected@[j],
        decreases 16 - i,
    {
        if png[i] != expected[i] {
            assert(png@.subrange(0, 16)[i as int] != expected@[i as int]);
            return None;
        }
        i = i + 1;
    }
    assert(png@.subrange(0, 16) =~= expected@);
    let width = read_be_u32(png, 16);
    let height = read_be_u32(png, 20);
    Some((width, height))
}

fn read_be_u32(s: &Vec<u8>, i: usize) -> (r: u32)
    requires
        i <= 20,
        i + 4 <= s@.len(),
    ensures
        r == be_value_at(s@, i as int),
{
    let (a, b, c, d) = (s[i] as u32, s[i + 1] as u32, s[i + 2] as u32, s[i + 3] as u32);
    assert(a * 0x1000000 + b * 0x10000 + c * 0x100 + d <= 0xffffffff) by (nonlinear_arith)
        requires a < 256, b < 256, c < 256, d < 256;
    a * 0x1000000 + b * 0x10000 + c * 0x100 + d
}

proof fn lemma_be_round_trip(x: u32)
    ensures
        be_value_at(be_bytes(x), 0) == x,
{
    let b = be_bytes(x);
    let v = x as int;
    assert(b[0] == v / 0x1000000);
    assert(b[1] == (v / 0x10000) % 0x100);
    assert(b[2] == (v / 0x100) % 0x100);
    assert(b[3] == v % 0x100);
    assert((v / 0x1000000) * 0x1000000 + ((v / 0x10000) % 0x100) * 0x10000
        + ((v / 0x100) % 0x100) * 0x100 + v % 0x100 == v) by (nonlinear_arith)
        requires 0 <= v < 0x100000000;
}

/// A stream that opens with the header of a `width` x `height` image
/// declares that size.
pub proof fn lemma_declared_size(png: Seq<u8>, width: u32, height: u32)
    requires
        declares_size(png, width, height),
    ensures
        png_size(png) == Some((width, height)),
{
    let h = png_header(width, height);
    assert(png.subrange(0, 16) =~= h.subrange(0, 16));
    assert(h.subrange(0, 16) =~= png_signature() + ihdr_prefix());
    lemma_be_round_trip(width);
    lemma_be_round_trip(height);
    assert(h.subrange(16, 20) =~= be_bytes(width));
    assert(h.subrange(20, 24) =~= be_bytes(height));
    assert(png.subrange(16, 20) =~= png.subrange(0, 24).subrange(16, 20));
    assert(png.subrange(20, 24) =~= png.subrange(0, 24).subrange(20, 24));
    assert(png.subrange(16, 20) =~= be_bytes(width));
    assert(png.subrange(20, 24) =~= be_bytes(height));
    assert(be_value_at(png, 16) == be_value_at(be_bytes(width), 0));
    assert(be_value_at(png, 20) == be_value_at(be_bytes(height), 0));
}

} // verus!
