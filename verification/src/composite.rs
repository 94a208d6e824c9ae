//! The display compositor.
//!
//! Maps the multi-layer field to a single presentable RGBA image: each
//! pixel is the sum over layers of the layer's intensity weighted by its
//! authored display colour, saturating at the machine limit. The image is
//! for presentation only and is never read back into the simulation.

use vstd::prelude::*;
use crate::diffuse::PheromoneLayerParam;
use crate::field::PheromoneField;
use crate::rates::RATE_ONE;
use crate::species::ColorFp;

verus! {

/// Channel `chan` of a colour (red, green, blue, alpha in order).
pub open spec fn color_channel(c: ColorFp, chan: int) -> int {
    if chan == 0 {
        c.r as int
    } else if chan == 1 {
        c.g as int
    } else if chan == 2 {
        c.b as int
    } else {
        c.a as int
    }
}

/// The contribution of the first `l` layers to one pixel channel: each
/// layer's intensity scaled by its display colour channel, in [`RATE_ONE`]
/// fixed point.
pub open spec fn channel_sum(
    f: PheromoneField,
    params: Seq<PheromoneLayerParam>,
    x: int,
    y: int,
    chan: int,
    l: int,
) -> int
    decreases l,
{
    if l <= 0 {
        0
    } else {
        channel_sum(f, params, x, y, chan, l - 1) + (f.at(l - 1, x, y) as int) * color_channel(
            params[l - 1].color,
            chan,
        ) / (RATE_ONE as int)
    }
}

/// One composited pixel channel: the whole-stack sum, saturated.
pub open spec fn composited(
    f: PheromoneField,
    params: Seq<PheromoneLayerParam>,
    x: int,
    y: int,
    chan: int,
) -> int {
    let s = channel_sum(f, params, x, y, chan, f.layers as int);
    if s <= 0xffff_ffff {
        s
    } else {
        0xffff_ffff
    }
}

/// The presentable image: one RGBA pixel per field cell, channels in
/// [`RATE_ONE`] fixed point.
pub struct DisplayImage {
    pub data: Vec<u32>,
    pub width: u32,
    pub height: u32,
}

impl DisplayImage {
    /// Structural validity: four channels per pixel.
    pub open spec fn wf(self) -> bool {
        1 <= self.width && 1 <= self.height && self.data@.len() == self.height * self.width * 4
    }

    /// The flat index of channel `chan` of pixel `(x, y)`.
    pub open spec fn index(self, x: int, y: int, chan: int) -> int {
        (y * self.width + x) * 4 + chan
    }

    /// Channel `chan` of pixel `(x, y)`.
    pub open spec fn at(self, x: int, y: int, chan: int) -> u32 {
        self.data@[self.index(x, y, chan)]
    }
}

/// A pixel-channel index lies inside the image buffer.
proof fn lemma_pixel_index_bounds(w: int, h: int, x: int, y: int, chan: int)
    by (nonlinear_arith)
    requires
        1 <= w,
        1 <= h,
        0 <= x < w,
        0 <= y < h,
        0 <= chan < 4,
    ensures
        0 <= (y * w + x) * 4 + chan < h * w * 4,
        y * w + x <= (y * w + x) * 4 + chan,
{
}

/// A layer's contribution to a channel is at most the cell intensity.
proof fn lemma_channel_term_bounds(v: int, c: int)
    by (nonlinear_arith)
    requires
        0 <= v <= 0xffff_ffff,
        0 <= c <= 1_000_000,
    ensures
        0 <= v * c / 1_000_000 <= 0xffff_ffff,
{
}

/// Colour channels are unit fractions.
pub open spec fn colors_wf(params: Seq<PheromoneLayerParam>) -> bool {
    forall|i: int|
        0 <= i < params.len() ==> #[trigger] params[i].color.r <= RATE_ONE && params[i].color.g
            <= RATE_ONE && params[i].color.b <= RATE_ONE && params[i].color.a <= RATE_ONE
}

/// Composite the whole field into the presentable image: every pixel
/// channel is the saturated sum of the layer intensities under that
/// layer's display colour.
pub fn composite_pass(f: &PheromoneField, params: &Vec<PheromoneLayerParam>) -> (img:
    DisplayImage)
    requires
        f.wf(),
        params@.len() >= f.layers,
        colors_wf(params@),
    ensures
        img.wf(),
        img.width == f.width,
        img.height == f.height,
        forall|x: int, y: int, chan: int|
            0 <= x < f.width && 0 <= y < f.height && 0 <= chan < 4 ==> img.at(x, y, chan) as int
                == composited(*f, params@, x, y, chan),
{
    let w: u32 = f.width;
    let h: u32 = f.height;
    let lay: u32 = f.layers;
    let mut data: Vec<u32> = Vec::new();
    let mut y: u32 = 0;
    while y < h
        invariant
            y <= h,
            f.wf(),
            w == f.width,
            h == f.height,
            lay == f.layers,
            params@.len() >= lay,
            colors_wf(params@),
            data@.len() == (y as int) * (w as int) * 4,
            forall|x2: int, y2: int, c2: int|
                0 <= x2 < w && 0 <= y2 < h && 0 <= c2 < 4 && (y2 * w + x2) * 4 + c2 < data@.len()
                    ==> data@[(y2 * w + x2) * 4 + c2] as int == composited(*f, params@, x2, y2, c2),
        decreases h - y,
    {
        let mut x: u32 = 0;
        while x < w
            invariant
                y < h,
                x <= w,
                f.wf(),
                w == f.width,
                h == f.height,
                lay == f.layers,
                params@.len() >= lay,
                colors_wf(params@),
                data@.len() == ((y as int) * (w as int) + (x as int)) * 4,
                forall|x2: int, y2: int, c2: int|
                    0 <= x2 < w && 0 <= y2 < h && 0 <= c2 < 4 && (y2 * w + x2) * 4 + c2
                        < data@.len() ==> data@[(y2 * w + x2) * 4 + c2] as int == composited(
                        *f,
                        params@,
                        x2,
                        y2,
                        c2,
                    ),
            decreases w - x,
        {
            let mut acc_r: u64 = 0;
            let mut acc_g: u64 = 0;
            let mut acc_b: u64 = 0;
            let mut acc_a: u64 = 0;
            let mut l: u32 = 0;
            while l < lay
                invariant
                    l <= lay,
                    y < h,
                    x < w,
                    f.wf(),
                    w == f.width,
                    h == f.height,
                    lay == f.layers,
                    params@.len() >= lay,
                    colors_wf(params@),
                    acc_r as int == channel_sum(*f, params@, x as int, y as int, 0, l as int),
                    acc_g as int == channel_sum(*f, params@, x as int, y as int, 1, l as int),
                    acc_b as int == channel_sum(*f, params@, x as int, y as int, 2, l as int),
                    acc_a as int == channel_sum(*f, params@, x as int, y as int, 3, l as int),
                    acc_r <= (l as int) * 0xffff_ffff,
                    acc_g <= (l as int) * 0xffff_ffff,
                    acc_b <= (l as int) * 0xffff_ffff,
                    acc_a <= (l as int) * 0xffff_ffff,
                decreases lay - l,
            {
                let v: u64 = f.get(l, x, y) as u64;
                let p = params[l as usize];
                proof {
                    lemma_channel_term_bounds(v as int, p.color.r as int);
                    lemma_channel_term_bounds(v as int, p.color.g as int);
                    lemma_channel_term_bounds(v as int, p.color.b as int);
                    lemma_channel_term_bounds(v as int, p.color.a as int);
                    assert((l as int) * 0xffff_ffff + 0xffff_ffff == ((l as int) + 1)
                        * 0xffff_ffff) by (nonlinear_arith);
                    assert((lay as int) * 0xffff_ffff <= 256 * 0xffff_ffffi64)
                        by (nonlinear_arith)
                        requires
                            0 <= lay <= 256,
                    ;
                }
                acc_r = acc_r + v * (p.color.r as u64) / (RATE_ONE as u64);
                acc_g = acc_g + v * (p.color.g as u64) / (RATE_ONE as u64);
                acc_b = acc_b + v * (p.color.b as u64) / (RATE_ONE as u64);
                acc_a = acc_a + v * (p.color.a as u64) / (RATE_ONE as u64);
                l = l + 1;
            }
            let pr: u32 = if acc_r <= 0xffff_ffffu64 {
                acc_r as u32
            } else {
                0xffff_ffffu32
            };
            let pg: u32 = if acc_g <= 0xffff_ffffu64 {
                acc_g as u32
            } else {
                0xffff_ffffu32
            };
            let pb: u32 = if acc_b <= 0xffff_ffffu64 {
                acc_b as u32
            } else {
                0xffff_ffffu32
            };
            let pa: u32 = if acc_a <= 0xffff_ffffu64 {
                acc_a as u32
            } else {
                0xffff_ffffu32
            };
            data.push(pr);
            data.push(pg);
            data.push(pb);
            data.push(pa);
            proof {
                assert forall|x2: int, y2: int, c2: int|
                    0 <= x2 < w && 0 <= y2 < h && 0 <= c2 < 4 && (y2 * w + x2) * 4 + c2
                        < data@.len() implies data@[(y2 * w + x2) * 4 + c2] as int == composited(
                    *f,
                    params@,
                    x2,
                    y2,
                    c2,
                ) by {
                    lemma_pixel_index_bounds(w as int, h as int, x2, y2, c2);
                    if !(x2 == x as int && y2 == y as int) {
                        assert((y2 * w + x2) * 4 + c2 < ((y as int) * (w as int) + (x as int)) * 4
                            || (y2 * w + x2) * 4 + c2 >= ((y as int) * (w as int) + (x as int)) * 4
                            + 4) by (nonlinear_arith)
                            requires
                                0 <= x2 < w,
                                0 <= y2 < h,
                                0 <= c2 < 4,
                                0 <= x < w,
                                0 <= y < h,
                                !(x2 == x as int && y2 == y as int),
                                1 <= w,
                        ;
                    }
                }
            }
            x = x + 1;
        }
        proof {
            assert(((y as int) * (w as int) + (w as int)) * 4 == ((y as int) + 1) * (w as int)
                * 4) by (nonlinear_arith);
        }
        y = y + 1;
    }
    let img = DisplayImage { data, width: w, height: h };
    proof {
        assert forall|x2: int, y2: int, c2: int|
            0 <= x2 < w && 0 <= y2 < h && 0 <= c2 < 4 implies img.at(x2, y2, c2) as int
            == composited(*f, params@, x2, y2, c2) by {
            lemma_pixel_index_bounds(w as int, h as int, x2, y2, c2);
        }
    }
    img
}

} // verus!
