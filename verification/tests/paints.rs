use vello_capture::byte_order::ByteOrder;
use vello_capture::encode::{
    encode_blurred_rounded_rect_paint, encode_external_texture_paint, encode_gradient_paint,
};
use vello_capture::gpu_paint::GpuEncodedPaint;
use vello_capture::layout::{count_texels, prepare_encoded_paints, PaintBuffers};
use vello_capture::pack::{
    pack_image_offset, pack_image_params, pack_image_size, pack_radial_kind_and_swapped,
    pack_texture_width_and_extend_mode, EXTERNAL_IMAGE_SOURCE_FLAG,
};
use vello_capture::paint::{
    EncodedBlurredRoundedRectangle, EncodedExternalTexture, EncodedGradient, EncodedKind,
    EncodedPaint, Extend, FocalData, GradientRamp, ImageQuality, ImageSampler, PremulRgba8,
    RadialKind, RectU16, SweepKind,
};

const TRANSFORM: [u32; 6] = [11, 12, 13, 14, 15, 16];

fn gradient(kind: EncodedKind, extend: Extend) -> EncodedGradient {
    EncodedGradient { kind, transform: TRANSFORM, extend }
}

fn texture() -> EncodedExternalTexture {
    EncodedExternalTexture {
        source_region: RectU16 { x0: 3, y0: 5, x1: 13, y1: 25 },
        sampler: ImageSampler {
            x_extend: Extend::Repeat,
            y_extend: Extend::Reflect,
            quality: ImageQuality::High,
        },
        transform: TRANSFORM,
        tint: 0x8040_2010,
        tint_mode: 1,
    }
}

fn blurred(invert: bool) -> EncodedBlurredRoundedRectangle {
    EncodedBlurredRoundedRectangle {
        exponent: 21,
        recip_exponent: 22,
        scale: 23,
        std_dev_inv: 24,
        min_edge: 25,
        w: 26,
        h: 27,
        r1: 28,
        width: 29,
        height: 30,
        invert,
        color: PremulRgba8 { r: 1, g: 2, b: 3, a: 4 },
        transform: TRANSFORM,
    }
}

fn words(paint: &GpuEncodedPaint) -> Vec<u32> {
    let bytes = paint.as_bytes(ByteOrder::Little);
    assert_eq!(bytes.len() % 16, 0);
    bytes
        .chunks(4)
        .map(|c| u32::from_le_bytes([c[0], c[1], c[2], c[3]]))
        .collect()
}

#[test]
fn image_params_have_their_own_bits() {
    assert_eq!(pack_image_params(2, 1, 0, 0), 0b00_01_10);
    assert_eq!(pack_image_params(0, 0, 2, 0), 0b10_00_00);
    assert_eq!(pack_image_params(3, 3, 3, 255), 0x3fff);
    assert_eq!(EXTERNAL_IMAGE_SOURCE_FLAG, 1 << 14);
}

#[test]
fn sizes_and_offsets_are_two_halves() {
    assert_eq!(pack_image_size(0x1234, 0xabcd), 0x1234_abcd);
    assert_eq!(pack_image_offset(u16::MAX, 1), 0xffff_0001);
    assert_eq!(pack_image_size(0, 0), 0);
}

#[test]
fn gradient_words_pack_width_and_mode() {
    assert_eq!(pack_texture_width_and_extend_mode(256, 0), 0x0000_0100);
    assert_eq!(pack_texture_width_and_extend_mode(256, 1), 0x4000_0100);
    assert_eq!(pack_texture_width_and_extend_mode(0x3fff_ffff, 2), 0xbfff_ffff);
    assert_eq!(pack_radial_kind_and_swapped(2, 1), 6);
    assert_eq!(pack_radial_kind_and_swapped(1, 0), 1);
}

#[test]
fn codes_follow_declaration_order() {
    assert_eq!(Extend::Pad.code(), 0);
    assert_eq!(Extend::Repeat.code(), 1);
    assert_eq!(Extend::Reflect.code(), 2);
    assert_eq!(ImageQuality::Low.code(), 0);
    assert_eq!(ImageQuality::Medium.code(), 1);
    assert_eq!(ImageQuality::High.code(), 2);
}

#[test]
fn codes_agree_with_peniko() {
    assert_eq!(Extend::Pad.code(), vello_common::peniko::Extend::Pad as u32);
    assert_eq!(Extend::Repeat.code(), vello_common::peniko::Extend::Repeat as u32);
    assert_eq!(Extend::Reflect.code(), vello_common::peniko::Extend::Reflect as u32);
    assert_eq!(ImageQuality::Low.code(), vello_common::peniko::ImageQuality::Low as u32);
    assert_eq!(ImageQuality::Medium.code(), vello_common::peniko::ImageQuality::Medium as u32);
    assert_eq!(ImageQuality::High.code(), vello_common::peniko::ImageQuality::High as u32);
}

#[test]
fn rectangle_sides() {
    let rect = RectU16 { x0: 3, y0: 5, x1: 13, y1: 25 };
    assert_eq!((rect.width(), rect.height()), (10, 20));
    let inverted = RectU16 { x0: 9, y0: 9, x1: 4, y1: 8 };
    assert_eq!((inverted.width(), inverted.height()), (0, 0));
    let full = RectU16 { x0: 0, y0: 0, x1: u16::MAX, y1: u16::MAX };
    assert_eq!((full.width(), full.height()), (u16::MAX, u16::MAX));
}

#[test]
fn color_word_has_red_first_in_memory() {
    let color = PremulRgba8 { r: 0xaa, g: 0xbb, b: 0xcc, a: 0xff };
    assert_eq!(color.to_u32(ByteOrder::Little), 0xffcc_bbaa);
    assert_eq!(color.to_u32(ByteOrder::Big), 0xaabb_ccff);
    let other = PremulRgba8 { r: 1, g: 2, b: 3, a: 4 };
    assert_eq!(other.to_u32(ByteOrder::Little), 0x0403_0201);
    assert_eq!(other.to_u32(ByteOrder::Big), 0x0102_0304);
}

#[test]
fn linear_gradient_words() {
    let paint = encode_gradient_paint(&gradient(EncodedKind::Linear, Extend::Reflect), 512, 7);
    assert!(matches!(paint, GpuEncodedPaint::LinearGradient(_)));
    assert_eq!(words(&paint), vec![0x8000_0200, 7, 11, 12, 13, 14, 15, 16]);
}

#[test]
fn concentric_radial_gradient_words() {
    let kind = EncodedKind::Radial(RadialKind::Radial { bias: 41, scale: 42 });
    let paint = encode_gradient_paint(&gradient(kind, Extend::Pad), 64, 3);
    assert_eq!(
        words(&paint),
        vec![64, 3, 11, 12, 13, 14, 15, 16, 0, 41, 42, 0, 0, 0, 0, 0]
    );
}

#[test]
fn strip_radial_gradient_words() {
    let kind = EncodedKind::Radial(RadialKind::Strip { scaled_r0_squared: 43 });
    let paint = encode_gradient_paint(&gradient(kind, Extend::Pad), 64, 3);
    assert_eq!(
        words(&paint),
        vec![64, 3, 11, 12, 13, 14, 15, 16, 1, 0, 0, 0, 0, 0, 0, 43]
    );
}

#[test]
fn focal_radial_gradient_words() {
    for (swapped, word) in [(false, 2), (true, 6)] {
        let focal_data = FocalData { fr1: 44, f_focal_x: 45, f_is_swapped: swapped };
        let kind = EncodedKind::Radial(RadialKind::Focal { focal_data, fp0: 46, fp1: 47 });
        let paint = encode_gradient_paint(&gradient(kind, Extend::Repeat), 64, 3);
        assert_eq!(
            words(&paint),
            vec![0x4000_0040, 3, 11, 12, 13, 14, 15, 16, word, 46, 47, 46, 47, 44, 45, 0]
        );
    }
}

#[test]
fn sweep_gradient_words() {
    let kind = EncodedKind::Sweep(SweepKind { start_angle: 48, inv_angle_delta: 49 });
    let paint = encode_gradient_paint(&gradient(kind, Extend::Pad), 64, 3);
    assert_eq!(words(&paint), vec![64, 3, 11, 12, 13, 14, 15, 16, 48, 49, 0, 0]);
}

#[test]
fn external_texture_words() {
    let paint = encode_external_texture_paint(&texture());
    let params = 0x4000 + 2 + 4 + 32;
    assert_eq!(
        words(&paint),
        vec![params, 0x000a_0014, 0x0003_0005, 11, 12, 13, 14, 15, 16, 0x8040_2010, 1, 0]
    );
}

#[test]
fn external_texture_fields_read_back() {
    let read = words(&encode_external_texture_paint(&texture()));
    assert_eq!(read[0] & EXTERNAL_IMAGE_SOURCE_FLAG, EXTERNAL_IMAGE_SOURCE_FLAG);
    assert_eq!(read[0] & 3, ImageQuality::High.code());
    assert_eq!((read[0] >> 2) & 3, Extend::Repeat.code());
    assert_eq!((read[0] >> 4) & 3, Extend::Reflect.code());
    assert_eq!((read[0] >> 6) & 0xff, 0);
    assert_eq!((read[1] >> 16, read[1] & 0xffff), (10, 20));
    assert_eq!((read[2] >> 16, read[2] & 0xffff), (3, 5));
}

#[test]
fn inverted_source_region_has_no_size() {
    let mut image = texture();
    image.source_region = RectU16 { x0: 10, y0: 20, x1: 1, y1: 2 };
    let read = words(&encode_external_texture_paint(&image));
    assert_eq!(read[1], 0);
    assert_eq!(read[2], 0x000a_0014);
}

#[test]
fn blurred_rounded_rect_words() {
    for (invert, word) in [(false, 0), (true, 1)] {
        let paint = encode_blurred_rounded_rect_paint(&blurred(invert), ByteOrder::Little);
        assert_eq!(paint.as_bytes(ByteOrder::Little).len(), 5 * 16);
        assert_eq!(
            words(&paint),
            vec![
                11, 12, 13, 14, 15, 16, 0x0403_0201, word, 21, 22, 23, 24, 25, 26, 27, 28, 29, 30,
                0, 0
            ]
        );
    }
}

#[test]
fn gradient_head_reads_back() {
    let paint = encode_gradient_paint(&gradient(EncodedKind::Linear, Extend::Repeat), 1000, 77);
    let read = words(&paint);
    assert_eq!(read[0] & 0x3fff_ffff, 1000);
    assert_eq!(read[0] >> 30, Extend::Repeat.code());
    assert_eq!(read[1], 77);
    assert_eq!(&read[2..8], &TRANSFORM);
}

#[test]
fn color_word_is_that_of_the_color_crate() {
    let order = if machine_is_big_endian() { ByteOrder::Big } else { ByteOrder::Little };
    let expected = vello_common::peniko::color::PremulRgba8 { r: 9, g: 8, b: 7, a: 6 }.to_u32();
    assert_eq!(PremulRgba8 { r: 9, g: 8, b: 7, a: 6 }.to_u32(order), expected);
}

fn machine_is_big_endian() -> bool {
    1_u32.to_ne_bytes() == 1_u32.to_be_bytes()
}

#[test]
fn words_follow_the_byte_order() {
    let paint = encode_gradient_paint(
        &gradient(EncodedKind::Linear, Extend::Pad),
        0x0403_0201,
        0x0807_0605,
    );
    assert_eq!(&paint.as_bytes(ByteOrder::Little)[..8], &[1, 2, 3, 4, 5, 6, 7, 8]);
    assert_eq!(&paint.as_bytes(ByteOrder::Big)[..8], &[4, 3, 2, 1, 8, 7, 6, 5]);
}

#[test]
fn color_bytes_do_not_depend_on_the_byte_order() {
    for order in [ByteOrder::Little, ByteOrder::Big] {
        let bytes = encode_blurred_rounded_rect_paint(&blurred(false), order).as_bytes(order);
        assert_eq!(&bytes[24..28], &[1, 2, 3, 4]);
    }
}

#[test]
fn words_read_back_in_either_order() {
    let buffers = prepare_encoded_paints(&mixed_paints(), ByteOrder::Big, (), |cache, _| {
        (cache, RAMP)
    });
    let at = buffers.0.paint_idxs[1] as usize * 16;
    assert_eq!(&buffers.0.encoded_paints[at..at + 8], &[0, 0, 1, 0, 0, 0, 0, 5]);
}

#[test]
fn atlas_images_are_not_encoded() {
    let buffers = with_fixed_ramp(&[EncodedPaint::Image, EncodedPaint::Image]);
    assert_eq!(buffers.paint_idxs, vec![0, 0, 0]);
    assert!(buffers.encoded_paints.is_empty());
}

#[test]
fn serializing_leaves_the_rest_of_the_buffer() {
    let linear = encode_gradient_paint(&gradient(EncodedKind::Linear, Extend::Pad), 4, 0);
    let image = encode_external_texture_paint(&texture());
    let mut buffer = vec![0xee_u8; 100];
    GpuEncodedPaint::serialize_to_buffer(&[linear, image], ByteOrder::Little, &mut buffer);
    assert_eq!(&buffer[..32], &linear.as_bytes(ByteOrder::Little)[..]);
    assert_eq!(&buffer[32..80], &image.as_bytes(ByteOrder::Little)[..]);
    assert_eq!(&buffer[80..], &[0xee_u8; 20]);
}

const RAMP: GradientRamp = GradientRamp { start: 5, width: 256 };

fn with_fixed_ramp(paints: &[EncodedPaint]) -> PaintBuffers {
    prepare_encoded_paints(paints, ByteOrder::Little, (), |cache, _| (cache, RAMP)).0
}

fn encoded_with_fixed_ramp(paint: &EncodedPaint) -> Vec<u8> {
    match paint {
        EncodedPaint::Gradient(gradient) => {
            encode_gradient_paint(gradient, RAMP.width, RAMP.start).as_bytes(ByteOrder::Little)
        }
        EncodedPaint::Image => Vec::new(),
        EncodedPaint::ExternalTexture(image) => encode_external_texture_paint(image).as_bytes(ByteOrder::Little),
        EncodedPaint::BlurredRoundedRect(rect) => {
            encode_blurred_rounded_rect_paint(rect, ByteOrder::Little).as_bytes(ByteOrder::Little)
        }
    }
}

fn mixed_paints() -> Vec<EncodedPaint> {
    let sweep = EncodedKind::Sweep(SweepKind { start_angle: 48, inv_angle_delta: 49 });
    let radial = EncodedKind::Radial(RadialKind::Radial { bias: 41, scale: 42 });
    vec![
        EncodedPaint::Image,
        EncodedPaint::Gradient(gradient(EncodedKind::Linear, Extend::Pad)),
        EncodedPaint::BlurredRoundedRect(blurred(true)),
        EncodedPaint::Image,
        EncodedPaint::Image,
        EncodedPaint::ExternalTexture(texture()),
        EncodedPaint::Gradient(gradient(sweep, Extend::Pad)),
        EncodedPaint::Gradient(gradient(radial, Extend::Pad)),
        EncodedPaint::Image,
    ]
}

#[test]
fn offsets_count_texels() {
    let buffers = with_fixed_ramp(&mixed_paints());
    assert_eq!(buffers.paint_idxs, vec![0, 0, 2, 7, 7, 7, 10, 13, 17, 17]);
    assert_eq!(buffers.encoded_paints.len(), 17 * 16);
    assert_eq!(count_texels(&mixed_paints()), Some(17));
}

#[test]
fn paints_lie_between_their_offsets() {
    let paints = mixed_paints();
    let buffers = with_fixed_ramp(&paints);
    for (i, paint) in paints.iter().enumerate() {
        let from = buffers.paint_idxs[i] as usize * 16;
        let to = buffers.paint_idxs[i + 1] as usize * 16;
        assert_eq!(buffers.encoded_paints[from..to].to_vec(), encoded_with_fixed_ramp(paint));
    }
}

#[test]
fn words_read_back_at_the_offset() {
    let paints = mixed_paints();
    let buffers = with_fixed_ramp(&paints);
    let start = buffers.paint_idxs[2] as usize * 16;
    let word = &buffers.encoded_paints[start + 4 * 6..start + 4 * 7];
    assert_eq!(word, &[1, 2, 3, 4]);
}

#[test]
fn ramps_are_asked_for_in_scene_order() {
    let order = ByteOrder::Little;
    let (buffers, asked) =
        prepare_encoded_paints(&mixed_paints(), order, Vec::new(), |mut asked: Vec<usize>, i| {
            asked.push(i);
            let n = asked.len() as u32;
            (asked, GradientRamp { start: 100 * n, width: n })
        });
    assert_eq!(asked, vec![1, 6, 7]);
    for (n, i) in [1_usize, 6, 7].iter().enumerate() {
        let at = buffers.paint_idxs[*i] as usize * 16;
        let n = n as u32 + 1;
        assert_eq!(buffers.encoded_paints[at..at + 4], n.to_le_bytes());
        assert_eq!(buffers.encoded_paints[at + 4..at + 8], (100 * n).to_le_bytes());
    }
}

#[test]
fn offsets_do_not_depend_on_ramps() {
    let elsewhere = prepare_encoded_paints(&mixed_paints(), ByteOrder::Little, (), |cache, i| {
        (cache, GradientRamp { start: 7 * i as u32, width: 64 })
    });
    assert_eq!(elsewhere.0.paint_idxs, with_fixed_ramp(&mixed_paints()).paint_idxs);
}

#[test]
fn ramp_of_a_gradient_reaches_its_texels() {
    let ramp = GradientRamp { start: 0x0102_0304, width: 0x200 };
    let paint = EncodedPaint::Gradient(gradient(EncodedKind::Linear, Extend::Pad));
    let (buffers, _) = prepare_encoded_paints(&[paint], ByteOrder::Little, (), |cache, _| (cache, ramp));
    assert_eq!(&buffers.encoded_paints[..8], &[0, 2, 0, 0, 4, 3, 2, 1]);
}

#[test]
fn no_paints() {
    let buffers = with_fixed_ramp(&[]);
    assert_eq!(buffers.paint_idxs, vec![0]);
    assert!(buffers.encoded_paints.is_empty());
    assert_eq!(count_texels(&[]), Some(0));
}
