//! The video memory as a picture: one bit for each pixel, turned upright
//! for the cabinet's rotated screen.

use vstd::prelude::*;

verus! {

/// Width and height of the upright picture.
pub const WIDTH: usize = 224;
pub const HEIGHT: usize = 256;

/// Bytes of video memory: one bit for each pixel.
pub const VRAM_LEN: usize = 0x1C00;

/// A lit pixel and a dark one, as opaque RGB words.
pub const LIT: u32 = 0xFFFF_FFFF;
pub const DARK: u32 = 0x0000_00FF;

/// Bit `n` of the video memory, counting from bit 0 of its first byte.
pub open spec fn vram_bit(vram: Seq<u8>, n: int) -> bool {
    (vram[n / 8] >> ((n % 8) as u8)) % 2 == 1
}

/// Pixel `k` of the upright picture, row by row from the top. The memory
/// holds the picture turned a quarter left: column `x` of row `y` from the
/// bottom is bit `y + 256 * x`.
pub open spec fn pixel_at(vram: Seq<u8>, k: int) -> u32 {
    let y = (HEIGHT - 1) - k / (WIDTH as int);
    let x = k % (WIDTH as int);
    if vram_bit(vram, y + HEIGHT * x) {
        LIT
    } else {
        DARK
    }
}

/// Relies on byteorder's `BigEndian::read_u32`: the first four bytes of
/// `buf` as one number, most significant first.
#[verifier::external_body]
fn read_be_u32(buf: &[u8]) -> (r: u32)
    requires
        buf@.len() >= 4,
    ensures
        r == buf@[0] * 0x100_0000 + buf@[1] * 0x1_0000 + buf@[2] * 0x100 + buf@[3],
{
    <byteorder::BigEndian as byteorder::ByteOrder>::read_u32(buf)
}

/// The picture that the video memory holds, row by row from the top.
pub fn render_frame(vram: &[u8]) -> (r: Vec<u32>)
    requires
        vram@.len() == VRAM_LEN,
    ensures
        r@.len() == WIDTH * HEIGHT,
        forall|k: int| 0 <= k < WIDTH * HEIGHT ==> r@[k] == pixel_at(vram@, k),
{
    let lit: [u8; 4] = [255, 255, 255, 255];
    let dark: [u8; 4] = [0, 0, 0, 255];
    assert(lit@ =~= seq![255u8, 255u8, 255u8, 255u8]);
    assert(dark@ =~= seq![0u8, 0u8, 0u8, 255u8]);
    let mut frame: Vec<u32> = Vec::new();
    let mut k: usize = 0;
    while k < WIDTH * HEIGHT
        invariant
            vram@.len() == VRAM_LEN,
            lit@ == seq![255u8, 255u8, 255u8, 255u8],
            dark@ == seq![0u8, 0u8, 0u8, 255u8],
            k <= WIDTH * HEIGHT,
            frame@.len() == k,
            forall|j: int| 0 <= j < k ==> frame@[j] == pixel_at(vram@, j),
        decreases WIDTH * HEIGHT - k,
    {
        let y = (HEIGHT - 1) - k / WIDTH;
        let x = k % WIDTH;
        let n = y + HEIGHT * x;
        let byte = vram[n / 8];
        let on = (byte >> ((n % 8) as u8)) % 2 == 1;
        assert(on == vram_bit(vram@, n as int));
        let pixel = if on {
            read_be_u32(lit.as_slice())
        } else {
            read_be_u32(dark.as_slice())
        };
        frame.push(pixel);
        k = k + 1;
    }
    frame
}

} // verus!
