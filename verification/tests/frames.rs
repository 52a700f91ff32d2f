use vello_capture::byte_order::ByteOrder;
use vello_capture::capture::{
    finish_capture, prepare_capture, render_to_capture, CapturedFrame, Config, PreparedCapture, Scene,
    TILE_HEIGHT,
};
use vello_capture::paint::{
    EncodedGradient, EncodedKind, EncodedPaint, Extend, GradientRamp,
};
use vello_capture::pass::{
    CaptureBackend, CaptureLoadOp, CaptureOp, CaptureTargetKind, CapturedExternalTextureRun,
    LoadOp, StripPassRenderTarget,
};

fn scene() -> Scene {
    let gradient = EncodedGradient {
        kind: EncodedKind::Linear,
        transform: [1, 2, 3, 4, 5, 6],
        extend: Extend::Repeat,
    };
    Scene {
        encoded_paints: vec![
            EncodedPaint::Gradient(gradient),
            EncodedPaint::Image,
        ],
        alphas: vec![0, 128, 255],
    }
}

fn ramp(luts: Vec<u8>, paint: usize) -> (Vec<u8>, GradientRamp) {
    assert_eq!(paint, 0);
    let mut luts = luts;
    luts.push(202);
    luts.push(203);
    (luts, GradientRamp { start: 9, width: 256 })
}

fn take(luts: Vec<u8>) -> Vec<u8> {
    luts
}

fn prepare(scene: &Scene, width: u32, height: u32, alphas: u32, paints: u32) -> PreparedCapture {
    prepare_capture(scene, width, height, alphas, paints, ByteOrder::Little, vec![200, 201], ramp, take)
}

fn single_pass(target: StripPassRenderTarget, load_op: LoadOp) -> (CaptureTargetKind, u32, CaptureLoadOp) {
    let mut backend: CaptureBackend<u8> = CaptureBackend::new();
    backend.render_strips(&[], &[], &[], target, load_op);
    assert_eq!(backend.ops.len(), 1);
    match &backend.ops[0] {
        CaptureOp::RenderStrips(pass) => (pass.target_kind, pass.target_index, pass.load_op),
        _ => unreachable!(),
    }
}

#[test]
fn new_backend_is_empty() {
    let backend: CaptureBackend<u8> = CaptureBackend::new();
    assert!(backend.ops.is_empty());
}

#[test]
fn targets_are_flattened() {
    assert_eq!(
        single_pass(StripPassRenderTarget::Root, LoadOp::Clear),
        (CaptureTargetKind::Root, 0, CaptureLoadOp::Clear)
    );
    assert_eq!(
        single_pass(StripPassRenderTarget::SlotTexture(1), LoadOp::Load),
        (CaptureTargetKind::SlotTexture, 1, CaptureLoadOp::Load)
    );
    assert_eq!(
        single_pass(StripPassRenderTarget::FilterLayer(0x8000_0001), LoadOp::Load),
        (CaptureTargetKind::FilterLayer, 0x8000_0001, CaptureLoadOp::Load)
    );
}

#[test]
fn foreign_codes() {
    assert_eq!(CaptureTargetKind::Root.code(), 0);
    assert_eq!(CaptureTargetKind::SlotTexture.code(), 1);
    assert_eq!(CaptureTargetKind::FilterLayer.code(), 2);
    assert_eq!(CaptureLoadOp::Load.code(), 0);
    assert_eq!(CaptureLoadOp::Clear.code(), 1);
    assert_eq!(CaptureTargetKind::FilterLayer as u32, CaptureTargetKind::FilterLayer.code());
    assert_eq!(CaptureLoadOp::Clear as u32, CaptureLoadOp::Clear.code());
}

#[test]
fn calls_are_recorded_in_order() {
    let run = CapturedExternalTextureRun { texture_id: 1 << 40, strip_start: 1, strip_end: 3 };
    let mut backend: CaptureBackend<(u16, u32)> = CaptureBackend::new();
    backend.clear_slots(1, &[4, 2, 9]);
    backend.render_strips(
        &[(1, 10), (2, 20)],
        &[(3, 30)],
        &[run],
        StripPassRenderTarget::SlotTexture(0),
        LoadOp::Clear,
    );
    backend.apply_filter(77);
    backend.clear_slots(0, &[]);
    assert_eq!(backend.ops.len(), 4);
    match &backend.ops[0] {
        CaptureOp::ClearSlots { texture_index, slots } => {
            assert_eq!(*texture_index, 1);
            assert_eq!(slots, &vec![4, 2, 9]);
        }
        _ => panic!(),
    }
    match &backend.ops[1] {
        CaptureOp::RenderStrips(pass) => {
            assert_eq!(pass.target_kind, CaptureTargetKind::SlotTexture);
            assert_eq!(pass.target_index, 0);
            assert_eq!(pass.load_op, CaptureLoadOp::Clear);
            assert_eq!(pass.opaque, vec![(1, 10), (2, 20)]);
            assert_eq!(pass.alpha, vec![(3, 30)]);
            assert_eq!(pass.external_runs, vec![run]);
        }
        _ => panic!(),
    }
    assert!(matches!(&backend.ops[2], CaptureOp::ApplyFilter { layer_id: 77 }));
    match &backend.ops[3] {
        CaptureOp::ClearSlots { texture_index, slots } => {
            assert_eq!(*texture_index, 0);
            assert!(slots.is_empty());
        }
        _ => panic!(),
    }
}

#[test]
fn frame_holds_what_was_captured() {
    let scene = scene();
    let result: Result<CapturedFrame<u8>, &str> = render_to_capture(
        &scene,
        640,
        480,
        4096,
        256,
        ByteOrder::Little,
        vec![200, 201],
        ramp,
        take,
        |slots, paint_idxs, mut backend| {
            assert_eq!(slots, 1024);
            assert_eq!(paint_idxs, &vec![0, 2, 2]);
            assert!(backend.ops.is_empty());
            backend.clear_slots(0, &[1]);
            backend.render_strips(&[5], &[6, 7], &[], StripPassRenderTarget::Root, LoadOp::Clear);
            Ok(backend)
        },
    );
    let frame = result.unwrap();
    assert_eq!(
        frame.config,
        Config {
            width: 640,
            height: 480,
            strip_height: 4,
            alphas_tex_width_bits: 12,
            encoded_paints_tex_width_bits: 8,
            strip_offset_x: 0,
            strip_offset_y: 0,
            negate_ndc: 0,
        }
    );
    assert_eq!(frame.alphas, vec![0, 128, 255]);
    assert_eq!(frame.gradient_lut, vec![200, 201, 202, 203]);
    assert_eq!(frame.paint_idxs, vec![0, 2, 2]);
    let mut expected: Vec<u8> = Vec::new();
    for word in [0x4000_0100_u32, 9, 1, 2, 3, 4, 5, 6] {
        expected.extend_from_slice(&word.to_le_bytes());
    }
    assert_eq!(frame.encoded_paints, expected);
    assert_eq!(frame.ops.len(), 2);
    match &frame.ops[1] {
        CaptureOp::RenderStrips(pass) => {
            assert_eq!(pass.opaque, vec![5]);
            assert_eq!(pass.alpha, vec![6, 7]);
        }
        _ => panic!(),
    }
}

#[test]
fn scheduler_error_is_returned() {
    let result: Result<CapturedFrame<u8>, &str> =
        render_to_capture(&scene(), 1, 1, 4, 1, ByteOrder::Little, vec![], ramp, take, |slots, _, mut backend| {
            assert_eq!(slots, 1);
            backend.apply_filter(1);
            Err("out of slots")
        });
    assert_eq!(result.err(), Some("out of slots"));
}

#[test]
fn widths_below_one_tile_have_no_slots() {
    for (width, slots, bits) in [(1, 0, 0), (2, 0, 1), (4, 1, 2), (0x8000_0000, 0x2000_0000, 31)] {
        let prepared = prepare(&scene(), 8, 8, width, width);
        assert_eq!(prepared.total_slots, slots);
        assert_eq!(prepared.config.alphas_tex_width_bits, bits);
        assert_eq!(prepared.config.encoded_paints_tex_width_bits, bits);
    }
}

#[test]
fn slots_use_up_the_width() {
    for bits in 2..20 {
        let width = 1_u32 << bits;
        let prepared = prepare(&scene(), 8, 8, width, 1);
        assert_eq!(prepared.total_slots as u32 * u32::from(TILE_HEIGHT), width);
    }
}

#[test]
fn strip_height_is_the_tile_height() {
    let prepared = prepare(&scene(), 8, 8, 4, 4);
    assert_eq!(prepared.config.strip_height, u32::from(vello_common::tile::Tile::HEIGHT));
    assert_eq!(prepared.config.strip_height, 4);
}

#[test]
fn log2_addresses_rows_and_columns() {
    let prepared = prepare(&scene(), 8, 8, 4, 64);
    let bits = prepared.config.encoded_paints_tex_width_bits;
    for texel in [0_u32, 1, 63, 64, 65, 1000, u32::MAX] {
        let row = texel >> bits;
        let column = texel & (64 - 1);
        assert!(column < 64);
        assert_eq!(u64::from(row) * 64 + u64::from(column), u64::from(texel));
    }
}

#[test]
fn finishing_keeps_the_prepared_buffers() {
    let scene = scene();
    let prepared = prepare(&scene, 2, 3, 16, 32);
    let mut backend: CaptureBackend<u8> = CaptureBackend::new();
    backend.apply_filter(3);
    let result: Result<CapturedFrame<u8>, ()> = finish_capture(prepared, &scene, Ok(backend));
    let frame = result.unwrap();
    assert_eq!((frame.config.width, frame.config.height), (2, 3));
    assert_eq!(frame.encoded_paints.len(), 32);
    assert_eq!(frame.paint_idxs, vec![0, 2, 2]);
    assert_eq!(frame.gradient_lut, vec![200, 201, 202, 203]);
    assert!(matches!(&frame.ops[0], CaptureOp::ApplyFilter { layer_id: 3 }));

    let prepared = prepare(&scene, 2, 3, 16, 32);
    let failed: Result<CapturedFrame<u8>, u8> = finish_capture(prepared, &scene, Err(9));
    assert_eq!(failed.err(), Some(9));
}

fn rendered(width: u32, height: u32, paints: u32, fail: bool) -> Result<CapturedFrame<u8>, u8> {
    render_to_capture(
        &scene(),
        width,
        height,
        64,
        paints,
        ByteOrder::Big,
        vec![1],
        ramp,
        take,
        |slots, paint_idxs, mut backend| {
            backend.clear_slots(slots, paint_idxs);
            backend.render_strips(&[5], &[6, 7], &[], StripPassRenderTarget::Root, LoadOp::Load);
            if fail {
                Err(3)
            } else {
                Ok(backend)
            }
        },
    )
}

#[test]
fn sizes_reach_only_the_config() {
    let a = rendered(10, 20, 128, false).unwrap();
    let b = rendered(640, 480, 4, false).unwrap();
    assert_eq!(a.alphas, b.alphas);
    assert_eq!(a.encoded_paints, b.encoded_paints);
    assert_eq!(a.paint_idxs, b.paint_idxs);
    assert_eq!(a.gradient_lut, b.gradient_lut);
    assert_eq!(format!("{:?}", a.ops), format!("{:?}", b.ops));
    let mut config = b.config;
    config.width = 10;
    config.height = 20;
    config.encoded_paints_tex_width_bits = 7;
    assert_eq!(a.config, config);
    assert_eq!(rendered(10, 20, 128, true).err(), Some(3));
    assert_eq!(rendered(640, 480, 4, true).err(), Some(3));
}
