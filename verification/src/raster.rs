//! The raster sink: hands the finished pixel buffer to the PNG encoder and
//! yields the encoded image bytes. The encoder itself is an external
//! collaborator; the single trusted wrapper below is the only point where the
//! library relies on it.

use vstd::prelude::*;
use crate::compositor::Compositor;
use crate::compositor::padded;
use crate::mode::ColorMode;
use crate::planner::TranscodePlan;
use crate::transcode::spec_transcode;

verus! {

#[verifier::external_type_specification]
#[verifier::external_body]
pub struct ExEncodingError(png::EncodingError);

/// The bytes of the encoded image file that the PNG encoder produces for this
/// exact width, height, color type code, compression code and pixel payload.
/// The encoding is a function of these arguments alone.
pub uninterp spec fn png_bytes_of(
    width: u32,
    height: u32,
    color_code: u8,
    compression_code: u8,
    pixels: Seq<u8>,
) -> Seq<u8>;

/// Samples per pixel the PNG encoder expects for a color type code at the
/// default bit depth of eight: 0 grayscale, 2 RGB, 4 grayscale-alpha,
/// 6 RGBA; any other code is configured as grayscale by the wrapper.
pub open spec fn code_samples(color_code: u8) -> int {
    if color_code == 2 {
        3
    } else if color_code == 4 {
        2
    } else if color_code == 6 {
        4
    } else {
        1
    }
}

/// Fatal failures of one transcoding run, all raised by the raster sink.
/// Configuration failures cannot arise here — the plan's dimension is proved
/// positive and every mode maps to a color type the encoder accepts — so
/// what remains is the sink rejecting the pixel stream handed to it (more
/// source bytes arrived than the plan's capacity holds).
#[derive(Clone, Copy, PartialEq, Eq, Structural, Debug)]
pub enum RunError {
    SinkWriteFailed,
}

/// Relies on png 0.17: `Encoder::new`, `set_color` and `set_compression`
/// configure an encoder at the default bit depth of eight; `write_header`
/// fails only for zero width, zero height, or a color/bit-depth pairing the
/// PNG standard disallows (every color type selected here is valid at depth
/// eight); `Writer::write_image_data` fails only when the data length differs
/// from `width * height * samples`; `Writer::finish` flushes the trailing
/// chunks. All output goes into a `Vec<u8>`, whose `io::Write` never fails,
/// so encoding succeeds exactly on a correctly sized buffer. The encoded
/// bytes depend on the arguments alone and are named `png_bytes_of`.
#[verifier::external_body]
fn png_encode_raw(
    width: u32,
    height: u32,
    color_code: u8,
    compression_code: u8,
    data: &Vec<u8>,
) -> (r: Result<Vec<u8>, png::EncodingError>)
    ensures
        r matches Ok(b) ==> b@ == png_bytes_of(width, height, color_code, compression_code, data@),
        (width > 0 && height > 0 && data@.len() == (width as int) * (height as int) * code_samples(
            color_code,
        )) ==> r is Ok,
{
    let mut out: Vec<u8> = Vec::new();
    let mut enc = png::Encoder::new(&mut out, width, height);
    let color = match color_code { 2 => png::ColorType::Rgb, 4 => png::ColorType::GrayscaleAlpha, 6 => png::ColorType::Rgba, _ => png::ColorType::Grayscale };
    enc.set_color(color);
    #[allow(deprecated)]
    let level = match compression_code { 1 => png::Compression::Fast, 2 => png::Compression::Best, 3 => png::Compression::Huffman, 4 => png::Compression::Rle, _ => png::Compression::Default };
    enc.set_compression(level);
    let mut writer = enc.write_header()?;
    writer.write_image_data(data.as_slice())?;
    writer.finish()?;
    Ok(out)
}

/// The samples the sink expects for a mode's color type code are exactly the
/// mode's bytes per pixel.
pub proof fn lemma_mode_samples(mode: ColorMode)
    ensures
        code_samples(mode.spec_color_type_code()) == mode.spec_bytes_per_pixel(),
{
}

/// Appends the owed zero padding and hands the finished pixel buffer to the
/// sink. When the emitted pixel bytes do not exceed the plan's capacity the
/// sink is guaranteed to accept the buffer; whatever comes back on success is
/// the encoder's output for the padded buffer.
pub fn finalize(c: Compositor) -> (r: Result<Vec<u8>, RunError>)
    requires
        c.plan.wf(),
        c.plan.capacity() <= usize::MAX,
    ensures
        c.pixels@.len() <= c.plan.capacity() ==> r is Ok,
        r matches Ok(b) ==> b@ == png_bytes_of(
            c.plan.dimension,
            c.plan.dimension,
            c.plan.color_mode.spec_color_type_code(),
            c.plan.compression_level.spec_code(),
            padded(c.pixels@, c.plan.capacity()),
        ),
{
    let ghost pix = c.pixels@;
    let ghost cap = c.plan.capacity();
    let width = c.plan.dimension;
    let color_code = c.plan.color_mode.color_type_code();
    let compression_code = c.plan.compression_level.code();
    proof {
        lemma_mode_samples(c.plan.color_mode);
    }
    let pixels = c.into_pixels();
    proof {
        if pix.len() <= cap {
            assert(pixels@.len() == cap);
        } else {
            assert(padded(pix, cap) =~= pix);
        }
    }
    match png_encode_raw(width, width, color_code, compression_code, &pixels) {
        Ok(b) => Ok(b),
        Err(_) => Err(RunError::SinkWriteFailed),
    }
}

/// The views of a sequence of byte vectors.
pub open spec fn views_of(s: Seq<Vec<u8>>) -> Seq<Seq<u8>> {
    s.map_values(|v: Vec<u8>| v@)
}

/// The pixel bytes one run emits before padding: each source transcoded for
/// the mode, concatenated in order.
pub open spec fn composed_pixels(mode: ColorMode, sources: Seq<Seq<u8>>) -> Seq<u8>
    decreases sources.len(),
{
    if sources.len() == 0 {
        Seq::empty()
    } else {
        spec_transcode(mode, sources.first()) + composed_pixels(mode, sources.drop_first())
    }
}

/// One whole transcoding run over in-memory sources: transcodes each source
/// in order into the pixel buffer, pads to the plan's capacity, and encodes.
/// Succeeds whenever the transcoded sources fit the planned capacity.
pub fn run(plan: TranscodePlan, sources: Vec<Vec<u8>>) -> (r: Result<Vec<u8>, RunError>)
    requires
        plan.wf(),
        plan.capacity() <= usize::MAX,
    ensures
        composed_pixels(plan.color_mode, views_of(sources@)).len() <= plan.capacity() ==> r is Ok,
        r matches Ok(b) ==> b@ == png_bytes_of(
            plan.dimension,
            plan.dimension,
            plan.color_mode.spec_color_type_code(),
            plan.compression_level.spec_code(),
            padded(composed_pixels(plan.color_mode, views_of(sources@)), plan.capacity()),
        ),
{
    let ghost p0 = plan;
    let ghost all = views_of(sources@);
    let mut c = Compositor::new(plan);
    let mut rest = sources;
    while rest.len() > 0
        invariant
            c.plan == p0,
            c.pixels@ + composed_pixels(p0.color_mode, views_of(rest@)) == composed_pixels(
                p0.color_mode,
                all,
            ),
        decreases rest.len(),
    {
        let ghost before = rest@;
        let chunk = rest.remove(0);
        proof {
            assert(views_of(rest@) =~= views_of(before).drop_first());
            assert(composed_pixels(p0.color_mode, views_of(before)) == spec_transcode(
                p0.color_mode,
                chunk@,
            ) + composed_pixels(p0.color_mode, views_of(before).drop_first()));
        }
        c.push_chunk(chunk);
        proof {
            assert(c.pixels@ + composed_pixels(p0.color_mode, views_of(rest@)) =~= composed_pixels(
                p0.color_mode,
                all,
            ));
        }
    }
    proof {
        assert(c.pixels@ =~= composed_pixels(p0.color_mode, all));
    }
    finalize(c)
}

} // verus!
