use crate::color::Color;
use vstd::prelude::*;

verus! {

/// Packs row-major pixel colors into the dense byte buffer an image encoder
/// takes: three bytes per pixel, in `[r, g, b]` order.
pub fn rgb_bytes(pixels: &Vec<Color>) -> (bytes: Vec<u8>)
    ensures
        bytes@.len() == 3 * pixels@.len(),
        forall|i: int|
            0 <= i < pixels@.len() ==> {
                &&& bytes@[3 * i] == (#[trigger] pixels@[i]).r
                &&& bytes@[3 * i + 1] == pixels@[i].g
                &&& bytes@[3 * i + 2] == pixels@[i].b
            },
{
    let mut bytes: Vec<u8> = Vec::new();
    let mut idx: usize = 0;
    while idx < pixels.len()
        invariant
            idx <= pixels@.len(),
            bytes@.len() == 3 * idx,
            forall|i: int|
                0 <= i < idx ==> {
                    &&& bytes@[3 * i] == (#[trigger] pixels@[i]).r
                    &&& bytes@[3 * i + 1] == pixels@[i].g
                    &&& bytes@[3 * i + 2] == pixels@[i].b
                },
        decreases pixels@.len() - idx,
    {
        let c = pixels[idx];
        bytes.push(c.r);
        bytes.push(c.g);
        bytes.push(c.b);
        idx = idx + 1;
    }
    bytes
}

/// Packs row-major pixel colors into the byte buffer a windowed framebuffer
/// takes: four bytes per pixel, in `[r, g, b, a]` order with the fixed alpha
/// value `0xFF`.
pub fn rgba_bytes(pixels: &Vec<Color>) -> (bytes: Vec<u8>)
    ensures
        bytes@.len() == 4 * pixels@.len(),
        forall|i: int|
            0 <= i < pixels@.len() ==> {
                &&& bytes@[4 * i] == (#[trigger] pixels@[i]).r
                &&& bytes@[4 * i + 1] == pixels@[i].g
                &&& bytes@[4 * i + 2] == pixels@[i].b
                &&& bytes@[4 * i + 3] == 0xFFu8
            },
{
    let mut bytes: Vec<u8> = Vec::new();
    let mut idx: usize = 0;
    while idx < pixels.len()
        invariant
            idx <= pixels@.len(),
            bytes@.len() == 4 * idx,
            forall|i: int|
                0 <= i < idx ==> {
                    &&& bytes@[4 * i] == (#[trigger] pixels@[i]).r
                    &&& bytes@[4 * i + 1] == pixels@[i].g
                    &&& bytes@[4 * i + 2] == pixels@[i].b
                    &&& bytes@[4 * i + 3] == 0xFFu8
                },
        decreases pixels@.len() - idx,
    {
        let c = pixels[idx];
        bytes.push(c.r);
        bytes.push(c.g);
        bytes.push(c.b);
        bytes.push(0xFF);
        idx = idx + 1;
    }
    bytes
}

} // verus!
