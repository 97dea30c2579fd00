use vstd::prelude::*;

verus! {

/// How an RGBA8 image is laid out for a copy into a 2D texture: its extent
/// and the byte layout of its rows.
#[derive(PartialEq, Eq, Structural, Clone, Copy, Debug)]
pub struct TextureLayout {
    pub width: u32,
    pub height: u32,
    pub depth_or_array_layers: u32,
    pub bytes_per_row: u32,
    pub rows_per_image: u32,
}

/// The layout of a `width` x `height` RGBA8 image: one layer, four bytes per
/// texel, `height` rows.
pub open spec fn spec_rgba8_layout(width: u32, height: u32) -> TextureLayout {
    TextureLayout {
        width,
        height,
        depth_or_array_layers: 1,
        bytes_per_row: (width * 4) as u32,
        rows_per_image: height,
    }
}

/// The layout of a `width` x `height` RGBA8 image: one layer, four bytes per
/// texel, `height` rows. `width * 4` must fit in a `u32`.
pub fn rgba8_layout(width: u32, height: u32) -> (res: TextureLayout)
    requires
        width * 4 <= u32::MAX,
    ensures
        res == spec_rgba8_layout(width, height),
{
    TextureLayout { width, height, depth_or_array_layers: 1, bytes_per_row: width * 4, rows_per_image: height }
}

/// The four bytes of a solid colour given as `0xRRGGBBAA`, most significant
/// first: red, green, blue, alpha.
pub fn solid_texel(rgba: u32) -> (res: [u8; 4])
    ensures
        res@ == seq![
            (rgba / 0x100_0000) as u8,
            (rgba / 0x1_0000 % 0x100) as u8,
            (rgba / 0x100 % 0x100) as u8,
            (rgba % 0x100) as u8,
        ],
{
    let r: u8 = (rgba / 0x100_0000) as u8;
    let g: u8 = (rgba / 0x1_0000 % 0x100) as u8;
    let b: u8 = (rgba / 0x100 % 0x100) as u8;
    let a: u8 = (rgba % 0x100) as u8;
    [r, g, b, a]
}

/// How many vertices of `stride` bytes a buffer of `buffer_size` bytes
/// holds, as a `u32` draw count (truncated to 32 bits, as the cast does).
pub fn vertex_count(buffer_size: u64, stride: u64) -> (res: u32)
    requires
        stride > 0,
    ensures
        res == (buffer_size / stride) as u32,
{
    (buffer_size / stride) as u32
}

} // verus!
