use vstd::prelude::*;

use crate::pixels::image::Image;

verus! {

/// The ASCII decimal digits of `n`, most significant first, with no leading
/// zero.
pub open spec fn decimal(n: nat) -> Seq<u8>
    decreases n,
{
    if n < 10 {
        seq![(n + 48) as u8]
    } else {
        decimal(n / 10).push((n % 10 + 48) as u8)
    }
}

/// One pixel's line: `"R G B\n"`.
pub open spec fn pixel_line(p: (u8, u8, u8)) -> Seq<u8> {
    decimal(p.0 as nat) + seq![32u8] + decimal(p.1 as nat) + seq![32u8] + decimal(p.2 as nat)
        + seq![10u8]
}

/// The three header lines: `"P3\n"`, `"W H\n"` and `"255\n"`.
pub open spec fn ppm_header(width: nat, height: nat) -> Seq<u8> {
    seq![80u8, 51u8, 10u8] + decimal(width) + seq![32u8] + decimal(height) + seq![
        10u8,
        50u8,
        53u8,
        53u8,
        10u8,
    ]
}

/// The pixel lines, in buffer order.
pub open spec fn ppm_body(pixels: Seq<(u8, u8, u8)>) -> Seq<u8>
    decreases pixels.len(),
{
    if pixels.len() == 0 {
        seq![]
    } else {
        ppm_body(pixels.drop_last()) + pixel_line(pixels.last())
    }
}

/// The plain-text PPM file of a raster of 8-bit RGB triples.
pub open spec fn ppm_text(width: nat, height: nat, pixels: Seq<(u8, u8, u8)>) -> Seq<u8> {
    ppm_header(width, height) + ppm_body(pixels)
}

/// Appends the decimal digits of `n`.
fn push_decimal(out: &mut Vec<u8>, n: u64)
    ensures
        final(out)@ == old(out)@ + decimal(n as nat),
    decreases n,
{
    if n >= 10 {
        push_decimal(out, n / 10);
    }
    let ghost mid = out@;
    out.push((n % 10) as u8 + 48);
    proof {
        if n >= 10 {
            assert(mid == old(out)@ + decimal((n / 10) as nat));
            assert(out@ =~= old(out)@ + decimal(n as nat));
        } else {
            assert(out@ =~= old(out)@ + decimal(n as nat));
        }
    }
}

impl Image<(u8, u8, u8)> {
    /// The raster as a plain-text PPM file: a `P3` header with the size and
    /// the largest channel value 255, then one `"R G B"` line per pixel.
    pub fn ppm_bytes(&self) -> (r: Vec<u8>)
        ensures
            r@ == ppm_text(self.width as nat, self.height as nat, self.pixels@),
    {
        let mut out: Vec<u8> = Vec::new();
        out.push(80u8);
        out.push(51u8);
        out.push(10u8);
        push_decimal(&mut out, self.width as u64);
        out.push(32u8);
        push_decimal(&mut out, self.height as u64);
        out.push(10u8);
        out.push(50u8);
        out.push(53u8);
        out.push(53u8);
        out.push(10u8);
        assert(out@ =~= ppm_header(self.width as nat, self.height as nat));
        let n = self.pixels.len();
        let mut i: usize = 0;
        while i < n
            invariant
                n == self.pixels@.len(),
                i <= n,
                out@ == ppm_header(self.width as nat, self.height as nat) + ppm_body(
                    self.pixels@.take(i as int),
                ),
            decreases n - i,
        {
            let (r, g, b) = self.pixels[i];
            let ghost start = out@;
            push_decimal(&mut out, r as u64);
            out.push(32u8);
            push_decimal(&mut out, g as u64);
            out.push(32u8);
            push_decimal(&mut out, b as u64);
            out.push(10u8);
            proof {
                let next = self.pixels@.take(i + 1);
                assert(next.drop_last() =~= self.pixels@.take(i as int));
                assert(next.last() == (r, g, b));
                assert(out@ =~= start + pixel_line((r, g, b)));
            }
            i = i + 1;
        }
        assert(self.pixels@.take(n as int) =~= self.pixels@);
        out
    }
}

} // verus!
