use vstd::prelude::*;

verus! {

/// The bytes of a YV12 picture: the luma plane, then the V plane, then the U
/// plane.
pub open spec fn yv12_bytes(y: Seq<u8>, u: Seq<u8>, v: Seq<u8>) -> Seq<u8> {
    y + v + u
}

/// Appends every byte of `src` to `dst`.
fn append_all(dst: &mut Vec<u8>, src: &[u8])
    ensures
        final(dst)@ == old(dst)@ + src@,
{
    let mut i: usize = 0;
    while i < src.len()
        invariant
            i <= src@.len(),
            dst@ == old(dst)@ + src@.take(i as int),
        decreases src@.len() - i,
    {
        dst.push(src[i]);
        i = i + 1;
        proof {
            assert(src@.take(i as int) =~= src@.take(i - 1 as int).push(src@[i - 1]));
        }
    }
    proof {
        assert(src@.take(i as int) =~= src@);
    }
}

/// Lays out the three planes of a YUV 4:2:0 picture (`y`, `u`, `v`) as the
/// YV12 buffer that the display surface takes.
pub fn pack_yv12(y: &[u8], u: &[u8], v: &[u8]) -> (r: Vec<u8>)
    ensures
        r@ == yv12_bytes(y@, u@, v@),
{
    let mut out: Vec<u8> = Vec::new();
    append_all(&mut out, y);
    append_all(&mut out, v);
    append_all(&mut out, u);
    proof {
        assert(Seq::<u8>::empty() + y@ =~= y@);
    }
    out
}

/// The 16-bit sample stored little-endian at bytes `2 * i` and `2 * i + 1`.
pub open spec fn sample_at(b: Seq<u8>, i: int) -> i16 {
    (b[2 * i] as int + 256 * (b[2 * i + 1] as int)) as u16 as i16
}

/// Reads the packed signed 16-bit samples of an audio plane, two bytes each,
/// low byte first; a trailing odd byte is not a sample.
pub fn samples_from_bytes(bytes: &[u8]) -> (r: Vec<i16>)
    ensures
        r@.len() == bytes@.len() / 2,
        forall|i: int| 0 <= i < r@.len() ==> #[trigger] r@[i] == sample_at(bytes@, i),
{
    let len: usize = bytes.len();
    let n: usize = len / 2;
    let mut out: Vec<i16> = Vec::new();
    let mut i: usize = 0;
    while i < n
        invariant
            len == bytes@.len(),
            n == len / 2,
            i <= n,
            out@.len() == i,
            forall|j: int| 0 <= j < i ==> #[trigger] out@[j] == sample_at(bytes@, j),
        decreases n - i,
    {
        assert(2 * i + 1 < len) by (nonlinear_arith)
            requires
                i < n,
                n == len / 2,
        ;
        let lo: u16 = bytes[2 * i] as u16;
        let hi: u16 = bytes[2 * i + 1] as u16;
        let word: u16 = lo + 256 * hi;
        out.push(#[verifier::truncate] (word as i16));
        i = i + 1;
    }
    out
}

/// The frame dump keeps one frame in this many.
pub const FRAME_SAMPLING_PERIOD: usize = 30;

/// Whether the frame with this 1-based position in decode order is dumped.
pub fn is_sampled_frame(position: usize) -> (r: bool)
    ensures
        r == (position % FRAME_SAMPLING_PERIOD == 0),
{
    position % FRAME_SAMPLING_PERIOD == 0
}

/// The decimal digits of `n`, most significant first, as ASCII.
pub open spec fn decimal(n: nat) -> Seq<u8>
    decreases n,
{
    if n < 10 {
        seq![(48 + n) as u8]
    } else {
        decimal(n / 10).push((48 + n % 10) as u8)
    }
}

/// The header of a binary PPM picture of the given size: `P6`, the width and
/// height in decimal, and the largest channel value, 255.
pub open spec fn ppm_header(width: nat, height: nat) -> Seq<u8> {
    seq![80u8, 54u8, 10u8] + decimal(width) + seq![32u8] + decimal(height) + seq![
        10u8,
        50u8,
        53u8,
        53u8,
        10u8,
    ]
}

/// Appends the decimal digits of `n` to `out`.
fn push_decimal(out: &mut Vec<u8>, n: u32)
    ensures
        final(out)@ == old(out)@ + decimal(n as nat),
    decreases n,
{
    if n < 10 {
        out.push(48u8 + n as u8);
    } else {
        push_decimal(out, n / 10);
        out.push(48u8 + (n % 10) as u8);
    }
}

/// The bytes of a frame dump: a PPM header for a `width` by `height` picture,
/// followed by the RGB bytes of the picture.
pub fn ppm_image(width: u32, height: u32, rgb: &[u8]) -> (r: Vec<u8>)
    ensures
        r@ == ppm_header(width as nat, height as nat) + rgb@,
{
    let mut out: Vec<u8> = Vec::new();
    out.push(80u8);
    out.push(54u8);
    out.push(10u8);
    push_decimal(&mut out, width);
    out.push(32u8);
    push_decimal(&mut out, height);
    out.push(10u8);
    out.push(50u8);
    out.push(53u8);
    out.push(53u8);
    out.push(10u8);
    append_all(&mut out, rgb);
    proof {
        assert(out@ =~= ppm_header(width as nat, height as nat) + rgb@);
    }
    out
}

} // verus!
