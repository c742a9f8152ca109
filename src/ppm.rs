use vstd::prelude::*;

verus! {

/// Largest value of an 8-bit colour channel.
pub const MAX_CHANNEL: u8 = 255;

/// A scaled channel value clamped into `[0, 255]`.
pub open spec fn clamp_channel(v: int) -> int {
    if v < 0 {
        0
    } else if v > 255 {
        255
    } else {
        v
    }
}

/// ASCII decimal digits of `n`, most significant first, without leading zeros.
pub open spec fn decimal(n: nat) -> Seq<u8>
    decreases n,
{
    if n < 10 {
        seq![(48 + n) as u8]
    } else {
        decimal(n / 10) + seq![(48 + n % 10) as u8]
    }
}

/// Header of a binary RGB image: magic `P6`, the width and height in decimal
/// and the largest channel value, each ended by whitespace:
/// `"P6\n{width} {height}\n255\n"`.
pub open spec fn header(width: nat, height: nat) -> Seq<u8> {
    seq![80u8, 54u8, 10u8]
        + decimal(width)
        + seq![32u8]
        + decimal(height)
        + seq![10u8, 50u8, 53u8, 53u8, 10u8]
}

/// Pixel bytes of the image: every scaled channel value clamped, in order.
pub open spec fn channel_bytes(scaled: Seq<i32>) -> Seq<u8> {
    Seq::new(scaled.len(), |k: int| clamp_channel(scaled[k] as int) as u8)
}

/// The whole image file for a `width` by `height` frame.
pub open spec fn frame_bytes(width: nat, height: nat, scaled: Seq<i32>) -> Seq<u8> {
    header(width, height) + channel_bytes(scaled)
}

/// Quantises one channel that has already been scaled to `[0, 255]` and
/// truncated: values below 0 become 0 and values above 255 become 255.
pub fn encode_channel(scaled: i32) -> (r: u8)
    ensures
        r as int == clamp_channel(scaled as int),
{
    if scaled < 0 {
        0
    } else if scaled > MAX_CHANNEL as i32 {
        MAX_CHANNEL
    } else {
        scaled as u8
    }
}

/// Appends the decimal digits of `n` to `out`.
pub fn push_decimal(out: &mut Vec<u8>, n: usize)
    ensures
        final(out)@ == old(out)@ + decimal(n as nat),
    decreases n,
{
    if n >= 10 {
        push_decimal(out, n / 10);
    }
    out.push(48u8 + (n % 10) as u8);
    assert(out@ =~= old(out)@ + decimal(n as nat));
}

/// The header of a binary RGB image of `width` by `height` pixels.
pub fn encode_header(width: usize, height: usize) -> (r: Vec<u8>)
    ensures
        r@ == header(width as nat, height as nat),
{
    let mut out: Vec<u8> = Vec::new();
    out.push(80u8);
    out.push(54u8);
    out.push(10u8);
    push_decimal(&mut out, width);
    out.push(32u8);
    push_decimal(&mut out, height);
    out.push(10u8);
    out.push(50u8);
    out.push(53u8);
    out.push(53u8);
    out.push(10u8);
    assert(out@ =~= header(width as nat, height as nat));
    out
}

/// Encodes a frame as a binary RGB image. `scaled` holds three channel values
/// per pixel, pixels in row-major order, each channel already scaled to
/// `[0, 255]` and truncated; they are clamped here. Returns `None` when
/// `scaled` does not hold exactly three values for each of the
/// `width * height` pixels.
pub fn encode_frame(width: usize, height: usize, scaled: &Vec<i32>) -> (r: Option<Vec<u8>>)
    ensures
        r is Some <==> scaled@.len() == 3 * width * height,
        r matches Some(bytes) ==> bytes@ == frame_bytes(width as nat, height as nat, scaled@),
{
    let len = scaled.len();
    let pixels = match width.checked_mul(height) {
        Some(p) => p,
        None => {
            assert(len < 3 * width * height) by (nonlinear_arith)
                requires
                    width * height > usize::MAX,
                    len <= usize::MAX,
            ;
            return None;
        },
    };
    let channels = match pixels.checked_mul(3) {
        Some(c) => c,
        None => {
            assert(len < 3 * width * height) by (nonlinear_arith)
                requires
                    pixels * 3 > usize::MAX,
                    pixels == width * height,
                    len <= usize::MAX,
            ;
            return None;
        },
    };
    assert(channels == 3 * width * height) by (nonlinear_arith)
        requires
            channels == pixels * 3,
            pixels == width * height,
    ;
    if len != channels {
        return None;
    }
    let mut out = encode_header(width, height);
    let ghost head = out@;
    let mut k: usize = 0;
    while k < scaled.len()
        invariant
            k <= scaled@.len(),
            out@ == head + channel_bytes(scaled@.take(k as int)),
        decreases scaled@.len() - k,
    {
        out.push(encode_channel(scaled[k]));
        assert(scaled@.take(k + 1) =~= scaled@.take(k as int).push(scaled@[k as int]));
        assert(channel_bytes(scaled@.take(k + 1)) =~= channel_bytes(scaled@.take(k as int)).push(
            clamp_channel(scaled@[k as int] as int) as u8,
        ));
        k = k + 1;
    }
    assert(scaled@.take(k as int) =~= scaled@);
    Some(out)
}

} // verus!
