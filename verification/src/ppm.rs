//! Serialization of the rendered image as a plain-text pixel map.
//!
//! The stream is ASCII: a header of the magic `P3`, the image dimensions,
//! and the maximum channel value `255` followed by a blank line; and a body
//! of one `R G B` line per pixel, in accumulation-buffer order (rows from
//! the top of the image to the bottom, columns left to right). The
//! quantized channel values are supplied by the tone mapper; everything
//! emitted here is pinned down to the byte.

use vstd::prelude::*;

verus! {

/// ASCII code of the decimal digit `d`.
pub open spec fn digit_byte(d: int) -> u8 {
    (48 + d) as u8
}

/// The shortest decimal numeral of `n`, as ASCII bytes.
pub open spec fn decimal(n: nat) -> Seq<u8>
    decreases n,
{
    if n < 10 {
        seq![digit_byte(n as int)]
    } else {
        decimal(n / 10) + seq![digit_byte((n % 10) as int)]
    }
}

/// One body line of the stream: `"R G B\n"`.
pub open spec fn pixel_line(r: u8, g: u8, b: u8) -> Seq<u8> {
    decimal(r as nat) + seq![32u8] + decimal(g as nat) + seq![32u8] + decimal(b as nat)
        + seq![10u8]
}

/// The stream header: `"P3\n<width> <height>\n255\n\n"`.
pub open spec fn header(width: nat, height: nat) -> Seq<u8> {
    seq![80u8, 51u8, 10u8] + decimal(width) + seq![32u8] + decimal(height) + seq![10u8]
        + seq![50u8, 53u8, 53u8, 10u8, 10u8]
}

/// The body of the stream: the line of each pixel, in buffer order.
pub open spec fn body(pixels: Seq<(u8, u8, u8)>) -> Seq<u8>
    decreases pixels.len(),
{
    if pixels.len() == 0 {
        Seq::empty()
    } else {
        body(pixels.drop_last()) + pixel_line(pixels.last().0, pixels.last().1, pixels.last().2)
    }
}

/// The complete stream of a `width` by `height` image.
pub open spec fn image_bytes(width: nat, height: nat, pixels: Seq<(u8, u8, u8)>) -> Seq<u8> {
    header(width, height) + body(pixels)
}

/// Appends the decimal numeral of `n` to `out`.
pub fn push_decimal(out: &mut Vec<u8>, n: u32)
    ensures
        final(out)@ == old(out)@ + decimal(n as nat),
    decreases n,
{
    if n >= 10 {
        push_decimal(out, n / 10);
    }
    out.push(48 + (n % 10) as u8);
    proof {
        assert(out@ =~= old(out)@ + decimal(n as nat));
    }
}

/// Appends the line `"R G B\n"` of one quantized pixel to `out`.
pub fn push_pixel_line(out: &mut Vec<u8>, r: u8, g: u8, b: u8)
    ensures
        final(out)@ == old(out)@ + pixel_line(r, g, b),
{
    push_decimal(out, r as u32);
    out.push(32);
    push_decimal(out, g as u32);
    out.push(32);
    push_decimal(out, b as u32);
    out.push(10);
    proof {
        assert(out@ =~= old(out)@ + pixel_line(r, g, b));
    }
}

/// Appends the stream header of a `width` by `height` image to `out`.
pub fn push_header(out: &mut Vec<u8>, width: u32, height: u32)
    ensures
        final(out)@ == old(out)@ + header(width as nat, height as nat),
{
    out.push(80);
    out.push(51);
    out.push(10);
    push_decimal(out, width);
    out.push(32);
    push_decimal(out, height);
    out.push(10);
    out.push(50);
    out.push(53);
    out.push(53);
    out.push(10);
    out.push(10);
    proof {
        assert(out@ =~= old(out)@ + header(width as nat, height as nat));
    }
}

/// Serializes a rendered image: the header, and the line of every pixel of
/// the accumulation buffer, in buffer order.
pub fn render_ppm(width: u32, height: u32, pixels: &Vec<(u8, u8, u8)>) -> (stream: Vec<u8>)
    ensures
        stream@ == image_bytes(width as nat, height as nat, pixels@),
{
    let mut stream: Vec<u8> = Vec::new();
    push_header(&mut stream, width, height);
    proof {
        assert(stream@ =~= header(width as nat, height as nat) + body(pixels@.take(0)));
    }
    let mut k: usize = 0;
    while k < pixels.len()
        invariant
            k <= pixels@.len(),
            stream@ == header(width as nat, height as nat) + body(pixels@.take(k as int)),
        decreases pixels@.len() - k,
    {
        let p = pixels[k];
        push_pixel_line(&mut stream, p.0, p.1, p.2);
        proof {
            assert(pixels@.take(k + 1).drop_last() =~= pixels@.take(k as int));
            assert(pixels@.take(k + 1).last() == pixels@[k as int]);
            assert(stream@ =~= header(width as nat, height as nat) + body(pixels@.take(k + 1)));
        }
        k = k + 1;
    }
    proof {
        assert(pixels@.take(pixels@.len() as int) =~= pixels@);
        assert(stream@ =~= image_bytes(width as nat, height as nat, pixels@));
    }
    stream
}

} // verus!
