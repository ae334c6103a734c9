//! The portable pixmap format, in its plain (text) and raw (binary) variants.
use vstd::prelude::*;

use crate::image::Image;
use crate::text::{ascii_bytes, decimal, push_decimal_bytes};

verus! {

/// A pixel as its red, green and blue channel values, each from 0 to 255.
pub type Rgb8 = (u8, u8, u8);

/// The header: the magic token `P` and its variant digit, the width and height,
/// and the largest channel value, each on a line of its own.
pub open spec fn header(variant: char, width: nat, height: nat) -> Seq<u8> {
    ascii_bytes(
        seq!['P', variant, '\n'] + decimal(width) + seq![' '] + decimal(height) + seq![
            '\n',
            '2',
            '5',
            '5',
            '\n',
        ],
    )
}

/// A pixel as a line of text: its three channel values in decimal, separated by spaces.
pub open spec fn plain_line(p: Rgb8) -> Seq<u8> {
    ascii_bytes(
        decimal(p.0 as nat) + seq![' '] + decimal(p.1 as nat) + seq![' '] + decimal(p.2 as nat)
            + seq!['\n'],
    )
}

/// The lines of all pixels, in order.
pub open spec fn plain_body(px: Seq<Rgb8>) -> Seq<u8>
    decreases px.len(),
{
    if px.len() == 0 {
        Seq::empty()
    } else {
        plain_body(px.drop_last()) + plain_line(px.last())
    }
}

/// Three bytes for each pixel, in order, with nothing between them.
pub open spec fn raw_body(px: Seq<Rgb8>) -> Seq<u8>
    decreases px.len(),
{
    if px.len() == 0 {
        Seq::empty()
    } else {
        raw_body(px.drop_last()) + seq![px.last().0, px.last().1, px.last().2]
    }
}

/// The plain file of an image `width` pixels wide and `height` pixels high.
pub open spec fn plain_file(width: nat, height: nat, px: Seq<Rgb8>) -> Seq<u8> {
    header('3', width, height) + plain_body(px)
}

/// The raw file of an image `width` pixels wide and `height` pixels high.
pub open spec fn raw_file(width: nat, height: nat, px: Seq<Rgb8>) -> Seq<u8> {
    header('6', width, height) + raw_body(px)
}

/// Appends the header of the variant `variant` to `out`.
fn push_header(out: &mut Vec<u8>, variant: char, width: usize, height: usize)
    requires
        variant == '3' || variant == '6',
    ensures
        final(out)@ == old(out)@ + header(variant, width as nat, height as nat),
{
    out.push('P' as u8);
    out.push(variant as u8);
    out.push('\n' as u8);
    push_decimal_bytes(out, width);
    out.push(' ' as u8);
    push_decimal_bytes(out, height);
    out.push('\n' as u8);
    out.push('2' as u8);
    out.push('5' as u8);
    out.push('5' as u8);
    out.push('\n' as u8);
    assert(final(out)@ =~= old(out)@ + header(variant, width as nat, height as nat));
}

/// Encodes an image in the plain variant: after the header, one line of text per pixel,
/// row after row, each row from left to right.
pub fn encode_plain(image: &Image<Rgb8>) -> (r: Vec<u8>)
    ensures
        r@ == plain_file(image.cols(), image.rows(), image.pixels()),
{
    let mut out: Vec<u8> = Vec::new();
    push_header(&mut out, '3', image.width(), image.height());
    let ghost head = out@;
    let n = image.size();
    let mut k: usize = 0;
    while k < n
        invariant
            n == image.pixels().len(),
            n == image.rows() * image.cols(),
            k <= n,
            head == header('3', image.cols(), image.rows()),
            out@ == head + plain_body(image.pixels().take(k as int)),
        decreases n - k,
    {
        let (row, col) = image.position(k);
        let p = *image.get(row, col);
        push_decimal_bytes(&mut out, p.0 as usize);
        out.push(' ' as u8);
        push_decimal_bytes(&mut out, p.1 as usize);
        out.push(' ' as u8);
        push_decimal_bytes(&mut out, p.2 as usize);
        out.push('\n' as u8);
        proof {
            let px = image.pixels();
            assert(px.take(k + 1).drop_last() =~= px.take(k as int));
            assert(out@ =~= head + plain_body(px.take(k + 1)));
        }
        k += 1;
    }
    assert(image.pixels().take(n as int) =~= image.pixels());
    out
}

/// Encodes an image in the raw variant: after the header, three bytes per pixel,
/// row after row, each row from left to right.
pub fn encode_raw(image: &Image<Rgb8>) -> (r: Vec<u8>)
    ensures
        r@ == raw_file(image.cols(), image.rows(), image.pixels()),
{
    let mut out: Vec<u8> = Vec::new();
    push_header(&mut out, '6', image.width(), image.height());
    let ghost head = out@;
    let n = image.size();
    let mut k: usize = 0;
    while k < n
        invariant
            n == image.pixels().len(),
            n == image.rows() * image.cols(),
            k <= n,
            head == header('6', image.cols(), image.rows()),
            out@ == head + raw_body(image.pixels().take(k as int)),
        decreases n - k,
    {
        let (row, col) = image.position(k);
        let p = *image.get(row, col);
        out.push(p.0);
        out.push(p.1);
        out.push(p.2);
        proof {
            let px = image.pixels();
            assert(px.take(k + 1).drop_last() =~= px.take(k as int));
            assert(out@ =~= head + raw_body(px.take(k + 1)));
        }
        k += 1;
    }
    assert(image.pixels().take(n as int) =~= image.pixels());
    out
}

} // verus!
