use vstd::prelude::*;
use vstd::arithmetic::div_mod::lemma_fundamental_div_mod;
use vstd::arithmetic::div_mod::lemma_mod_bound;
use crate::errors::PipelineError;

verus! {

/// Spatial side length of the model's square input, in pixels.
pub const SIDE: usize = 378;

/// Number of pixels of a square image with the given side length.
pub open spec fn area(side: int) -> int {
    side * side
}

/// What decoding an image file and resizing it to a `side` by `side` square
/// returns as a pixel-interleaved RGB8 buffer. The result depends on the
/// bytes and the side length alone.
pub uninterp spec fn decoded_rgb_of(side: u32, bytes: Seq<u8>) -> Seq<u8>;

/// Whether the given bytes decode as an image at all. Decoding depends on
/// the bytes and the side length alone, so success is a function of them.
pub uninterp spec fn decode_ok(side: u32, bytes: Seq<u8>) -> bool;

/// Relies on image::load_from_memory and image::DynamicImage::resize_to_fill:
/// decoding and triangle-filter resizing depend on the input bytes alone
/// (so the outcome, success included, is a function of them), and
/// resize_to_fill returns an image of exactly the requested dimensions, whose
/// RGB8 raw buffer holds three bytes per pixel.
#[verifier::external_body]
fn decode_and_resize(bytes: &Vec<u8>, side: u32) -> (r: Option<Vec<u8>>)
    ensures
        r is Some <==> decode_ok(side, bytes@),
        r matches Some(v) ==> v@ == decoded_rgb_of(side, bytes@) && v@.len() == 3 * area(
            side as int,
        ),
{
    match image::load_from_memory(bytes.as_slice()) {
        Ok(img) => Some(
            img.resize_to_fill(side, side, image::imageops::FilterType::Triangle)
                .to_rgb8()
                .into_raw(),
        ),
        Err(_) => None,
    }
}

/// Position of channel `c` of pixel `p` in a channel-first buffer.
pub open spec fn flat_index(side: int, c: int, p: int) -> int {
    c * area(side) + p
}

/// Position of channel `c` of pixel `p` in a pixel-interleaved buffer.
pub open spec fn interleaved_index(c: int, p: int) -> int {
    p * 3 + c
}

/// `out` is the channel-first rearrangement of the pixel-interleaved square
/// RGB buffer `input`.
pub open spec fn channel_first_ok(input: Seq<u8>, out: Seq<u8>, side: int) -> bool {
    &&& out.len() == 3 * area(side)
    &&& forall|c: int, p: int|
        0 <= c < 3 && 0 <= p < area(side) ==> out[#[trigger] flat_index(side, c, p)]
            == input[interleaved_index(c, p)]
}

/// Rearranges a pixel-interleaved square RGB buffer into channel-first
/// layout: all red bytes first, then all green, then all blue, each channel
/// in row order.
pub fn to_channel_first(data: &Vec<u8>, side: usize) -> (r: Vec<u8>)
    requires
        data@.len() == 3 * area(side as int),
    ensures
        channel_first_ok(data@, r@, side as int),
{
    let n = data.len();
    proof {
        assert(n == data@.len());
        assert(area(side as int) >= 0) by (nonlinear_arith);
    }
    let s2: usize = side * side;
    let mut out: Vec<u8> = Vec::new();
    let mut c: usize = 0;
    while c < 3
        invariant
            s2 == area(side as int),
            data@.len() == 3 * (s2 as int),
            data@.len() <= usize::MAX,
            c <= 3,
            out@.len() == c * (s2 as int),
            forall|cc: int, pp: int|
                0 <= cc < c && 0 <= pp < s2 ==> out@[#[trigger] flat_index(side as int, cc, pp)]
                    == data@[interleaved_index(cc, pp)],
        decreases 3 - c,
    {
        let mut p: usize = 0;
        while p < s2
            invariant
                s2 == area(side as int),
                data@.len() == 3 * (s2 as int),
                data@.len() <= usize::MAX,
                c < 3,
                p <= s2,
                out@.len() == c * (s2 as int) + p,
                forall|cc: int, pp: int|
                    0 <= cc < c && 0 <= pp < s2 ==> out@[#[trigger] flat_index(
                        side as int,
                        cc,
                        pp,
                    )] == data@[interleaved_index(cc, pp)],
                forall|pp: int|
                    0 <= pp < p ==> out@[#[trigger] flat_index(side as int, c as int, pp)]
                        == data@[interleaved_index(c as int, pp)],
            decreases s2 - p,
        {
            proof {
                assert(0 <= p * 3 + c < 3 * (s2 as int)) by (nonlinear_arith)
                    requires
                        0 <= p < s2,
                        0 <= c < 3,
                ;
            }
            let byte = data[p * 3 + c];
            out.push(byte);
            proof {
                assert(flat_index(side as int, c as int, p as int) == c * (s2 as int) + p);
                assert forall|cc: int, pp: int| 0 <= cc < c && 0 <= pp < s2 implies out@[
                    #[trigger] flat_index(side as int, cc, pp)
                ] == data@[interleaved_index(cc, pp)] by {
                    assert(0 <= flat_index(side as int, cc, pp) < c * (s2 as int) + p)
                        by (nonlinear_arith)
                        requires
                            flat_index(side as int, cc, pp) == cc * area(side as int) + pp,
                            s2 == area(side as int),
                            0 <= cc < c,
                            0 <= pp < s2,
                            0 <= p,
                    ;
                }
            }
            p = p + 1;
        }
        proof {
            assert((c as int + 1) * (s2 as int) == c * (s2 as int) + (s2 as int))
                by (nonlinear_arith);
        }
        c = c + 1;
    }
    out
}

/// The per-channel normalization as an exact numerator over the denominator
/// 255: scaling a byte from [0, 255] to [0, 1] and then mapping it to
/// [-1, 1] by subtracting 0.5 and dividing by 0.5 gives (2*v - 255) / 255.
pub open spec fn norm_numerator(v: u8) -> int {
    2 * v - 255
}

/// Normalizes each byte to the exact numerator of its value in [-1, 1] over
/// the denominator 255.
pub fn normalize(data: &Vec<u8>) -> (r: Vec<i16>)
    ensures
        r@.len() == data@.len(),
        forall|i: int| 0 <= i < data@.len() ==> r@[i] == norm_numerator(data@[i]),
{
    let mut out: Vec<i16> = Vec::new();
    let mut j: usize = 0;
    while j < data.len()
        invariant
            j <= data@.len(),
            out@.len() == j,
            forall|i: int| 0 <= i < j ==> out@[i] == norm_numerator(data@[i]),
        decreases data@.len() - j,
    {
        let v: i16 = data[j] as i16;
        out.push(2 * v - 255);
        j = j + 1;
    }
    out
}

/// A normalized, channel-first image tensor in exact fixed-point form: each
/// element is the numerator of its value over the denominator 255.
pub struct ImageTensor {
    /// Channel-first numerators, channel by channel in row order.
    pub data: Vec<i16>,
}

impl ImageTensor {
    /// The tensor has exactly 3 channels of SIDE by SIDE numerators, each in
    /// the normalized range.
    pub open spec fn wf(&self) -> bool {
        &&& self.data@.len() == 3 * area(SIDE as int)
        &&& forall|i: int| 0 <= i < self.data@.len() ==> -255 <= #[trigger] self.data@[i] <= 255
    }
}

/// The tensor holds, in channel-first order, the exact normalization of the
/// decoded and resized image bytes.
pub open spec fn tensor_matches(bytes: Seq<u8>, t: ImageTensor) -> bool {
    &&& t.data@.len() == 3 * area(SIDE as int)
    &&& forall|c: int, p: int|
        0 <= c < 3 && 0 <= p < area(SIDE as int) ==> t.data@[#[trigger] flat_index(
            SIDE as int,
            c,
            p,
        )] == norm_numerator(decoded_rgb_of(SIDE as u32, bytes)[interleaved_index(c, p)])
}

/// Decodes raw image-file bytes, resizes them to the fixed square resolution
/// with a triangular filter, converts to 3-channel color, rearranges the
/// pixels to channel-first layout, and normalizes every byte to [-1, 1] in
/// exact fixed-point form. It succeeds exactly on decodable bytes; any
/// decode failure aborts preprocessing.
pub fn load_image(bytes: &Vec<u8>) -> (r: Result<ImageTensor, PipelineError>)
    ensures
        r is Ok <==> decode_ok(SIDE as u32, bytes@),
        r matches Ok(t) ==> t.wf() && tensor_matches(bytes@, t),
        r matches Err(e) ==> e == PipelineError::Decode,
{
    match decode_and_resize(bytes, SIDE as u32) {
        None => Err(PipelineError::Decode),
        Some(rgb) => {
            let chw = to_channel_first(&rgb, SIDE);
            let data = normalize(&chw);
            let t = ImageTensor { data };
            proof {
                let s2 = area(SIDE as int);
                assert forall|c: int, p: int| 0 <= c < 3 && 0 <= p < s2 implies t.data@[
                    #[trigger] flat_index(SIDE as int, c, p)
                ] == norm_numerator(
                    decoded_rgb_of(SIDE as u32, bytes@)[interleaved_index(c, p)],
                ) by {
                    assert(0 <= flat_index(SIDE as int, c, p) < 3 * s2) by (nonlinear_arith)
                        requires
                            flat_index(SIDE as int, c, p) == c * area(SIDE as int) + p,
                            s2 == area(SIDE as int),
                            0 <= c < 3,
                            0 <= p < s2,
                    ;
                }
            }
            Ok(t)
        },
    }
}

/// Preprocessing is deterministic: any two tensors produced from the same
/// image bytes agree element for element, so loading the same image twice
/// yields identical tensors.
pub proof fn lemma_preprocess_deterministic(bytes: Seq<u8>, t1: ImageTensor, t2: ImageTensor)
    requires
        tensor_matches(bytes, t1),
        tensor_matches(bytes, t2),
    ensures
        t1.data@ =~= t2.data@,
{
    let s2 = area(SIDE as int);
    assert(s2 > 0) by (nonlinear_arith)
        requires
            s2 == (SIDE as int) * (SIDE as int),
            SIDE as int == 378,
    ;
    assert forall|i: int| 0 <= i < t1.data@.len() implies t1.data@[i] == t2.data@[i] by {
        let c = i / s2;
        let p = i % s2;
        lemma_fundamental_div_mod(i, s2);
        lemma_mod_bound(i, s2);
        assert(0 <= c < 3) by (nonlinear_arith)
            requires
                i == s2 * c + p,
                0 <= p < s2,
                0 <= i < 3 * s2,
                s2 > 0,
        ;
        assert(flat_index(SIDE as int, c, p) == i) by (nonlinear_arith)
            requires
                flat_index(SIDE as int, c, p) == c * area(SIDE as int) + p,
                s2 == area(SIDE as int),
                i == s2 * c + p,
        ;
    }
}

/// A solid-gray pixel value of 127 or 128 normalizes to within one
/// denominator step of zero: its exact numerator over 255 is -1 or 1, so the
/// normalized value lies within 1/255 of 0.
pub proof fn lemma_gray_normalizes_near_zero()
    ensures
        norm_numerator(127) == -1,
        norm_numerator(128) == 1,
{
}

} // verus!
