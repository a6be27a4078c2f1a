use render_headless::copier::{
    create_render_textures, image_copy_extract, ImageCopier, ImageCopiers, RatRenderState,
};
use render_headless::copy_stage::{
    find_gpu_image, snapshot_enabled, CopyCommand, CopyOutcome, GpuImage, ImageCopyNode,
};
use render_headless::deliver::{
    delivery_channel, receive_frame_blocking, send_image_bytes, try_receive_frame, CyclePhase,
    DeliverOutcome, ReadbackCycle,
};
use render_headless::layout::{
    align_copy_bytes_per_row, block_copy_size, block_dimensions, bytes_per_pixel,
    is_block_compressed, padded_bytes_per_row, PixelFormat, COPY_BYTES_PER_ROW_ALIGNMENT,
};
use render_headless::reconstruct::{parse_image_data, reconstruct_image, rgba_to_rgb, unpad_rows};
use render_headless::ReadbackError;

/// Pads each `row_bytes`-byte row of `packed` with zeros up to `aligned` bytes.
fn pad_rows(packed: &[u8], height: usize, row_bytes: usize, aligned: usize) -> Vec<u8> {
    let mut out = Vec::new();
    for r in 0..height {
        out.extend_from_slice(&packed[r * row_bytes..r * row_bytes + row_bytes]);
        for _ in row_bytes..aligned {
            out.push(0);
        }
    }
    out
}

/// A deterministic RGBA test pattern of `w * h` texels.
fn rgba_pattern(w: usize, h: usize) -> Vec<u8> {
    let mut out = Vec::new();
    for i in 0..(w * h) {
        out.push((i % 251) as u8);
        out.push((i * 3 % 253) as u8);
        out.push((i * 7 % 239) as u8);
        out.push(255);
    }
    out
}

#[test]
fn alignment_constant_is_256() {
    assert_eq!(COPY_BYTES_PER_ROW_ALIGNMENT, 256);
}

#[test]
fn align_rounds_up_to_next_multiple() {
    assert_eq!(align_copy_bytes_per_row(0), 0);
    assert_eq!(align_copy_bytes_per_row(1), 256);
    assert_eq!(align_copy_bytes_per_row(255), 256);
    assert_eq!(align_copy_bytes_per_row(256), 256);
    assert_eq!(align_copy_bytes_per_row(257), 512);
    assert_eq!(align_copy_bytes_per_row(1032), 1280);
}

#[test]
fn padded_bytes_per_row_covers_row_and_is_aligned() {
    let cases = [
        (1u32, PixelFormat::R8Unorm),
        (3, PixelFormat::Rg8Unorm),
        (258, PixelFormat::Rgba8UnormSrgb),
        (64, PixelFormat::Bgra8UnormSrgb),
        (640, PixelFormat::Rgba8UnormSrgb),
    ];
    for (w, f) in cases {
        let padded = padded_bytes_per_row(w, f);
        let row = w as u64 * bytes_per_pixel(f) as u64;
        assert!(padded >= row);
        assert_eq!(padded % 256, 0);
    }
}

#[test]
fn padded_bytes_per_row_scenario_258_rgba() {
    // 258 texels at 4 bytes each: 1032 unpadded, next multiple of 256 is 1280
    assert_eq!(padded_bytes_per_row(258, PixelFormat::Rgba8UnormSrgb), 1280);
}

#[test]
fn block_compressed_rows_count_blocks() {
    assert_eq!(block_dimensions(PixelFormat::Bc1RgbaUnorm), (4, 4));
    assert_eq!(block_copy_size(PixelFormat::Bc1RgbaUnorm), 8);
    assert!(is_block_compressed(PixelFormat::Bc3RgbaUnorm));
    assert!(!is_block_compressed(PixelFormat::Rgba8UnormSrgb));
    // 64 texels across is 16 blocks of 8 bytes: 128 bytes, padded to 256
    assert_eq!(padded_bytes_per_row(64, PixelFormat::Bc1RgbaUnorm), 256);
}

#[test]
fn reconstruct_round_trips_padded_pattern() {
    let (w, h) = (3usize, 2usize);
    let packed = rgba_pattern(w, h);
    let row_bytes = w * 4;
    let padded = pad_rows(&packed, h, row_bytes, 256);
    assert_eq!(padded.len(), 512);
    let out = reconstruct_image(w as u32, h as u32, PixelFormat::Rgba8UnormSrgb, &padded);
    assert_eq!(out, packed);
}

#[test]
fn reconstruct_direct_path_when_row_is_exactly_aligned() {
    // 64 texels at 4 bytes each is exactly one alignment unit per row
    let (w, h) = (64usize, 2usize);
    let packed = rgba_pattern(w, h);
    assert_eq!(w * 4, 256);
    let out = reconstruct_image(w as u32, h as u32, PixelFormat::Rgba8UnormSrgb, &packed);
    assert_eq!(out.len(), packed.len());
    assert_eq!(out, packed);
}

#[test]
fn reconstruct_scenario_258_by_4() {
    let (w, h) = (258usize, 4usize);
    let packed = rgba_pattern(w, h);
    let row_bytes = w * 4;
    assert_eq!(row_bytes, 1032);
    let padded = pad_rows(&packed, h, row_bytes, 1280);
    assert_eq!(padded.len(), 5120);
    let out = reconstruct_image(w as u32, h as u32, PixelFormat::Rgba8UnormSrgb, &padded);
    assert_eq!(out.len(), 4128);
    assert_eq!(out, packed);
}

#[test]
fn unpad_rows_keeps_row_prefixes_in_order() {
    let data = vec![
        1, 2, 3, 9, 9, 9, //
        4, 5, 6, 8, 8, 8,
    ];
    let out = unpad_rows(&data, 2, 3, 6);
    assert_eq!(out, vec![1, 2, 3, 4, 5, 6]);
}

#[test]
fn rgba_to_rgb_drops_every_fourth_byte() {
    let data = vec![1, 2, 3, 4, 5, 6, 7, 8];
    assert_eq!(rgba_to_rgb(&data), vec![1, 2, 3, 5, 6, 7]);
}

#[test]
fn parse_image_data_depads_and_drops_alpha() {
    let mut padded = vec![0u8; 256];
    padded[0] = 10;
    padded[1] = 20;
    padded[2] = 30;
    padded[3] = 255;
    let out = parse_image_data(1, 1, &padded);
    assert_eq!(out, vec![10, 20, 30]);
}

#[test]
fn parse_image_data_length_formula() {
    let (w, h) = (258usize, 4usize);
    let packed = rgba_pattern(w, h);
    let padded = pad_rows(&packed, h, w * 4, 1280);
    let out = parse_image_data(w as u32, h as u32, &padded);
    assert_eq!(out.len(), 3 * w * h);
    // spot-check the first texel: the alpha byte is gone
    assert_eq!(&out[0..3], &packed[0..3]);
    assert_eq!(&out[3..6], &packed[4..7]);
}

#[test]
fn new_copier_sizes_buffer_for_aligned_rows() {
    let c = ImageCopier::new(7, 258, 4, PixelFormat::Rgba8UnormSrgb);
    assert_eq!(c.src_image(), 7);
    assert_eq!(c.buffer_size(), 1280 * 4);
    assert!(c.enabled());
}

#[test]
fn rat_render_state_starts_unbuilt() {
    let s = RatRenderState::new(640, 480);
    assert!(!s.built);
    assert_eq!(s.width, 640);
    assert_eq!(s.height, 480);
}

#[test]
fn disabled_request_issues_no_copy_until_reenabled() {
    let c = ImageCopier::new(1, 64, 4, PixelFormat::Rgba8UnormSrgb);
    let images = vec![GpuImage { id: 1, width: 64, height: 4, format: PixelFormat::Rgba8UnormSrgb }];
    let registry = ImageCopiers(vec![c]);
    let node = ImageCopyNode;

    registry.0[0].set_enabled(false);
    let on = snapshot_enabled(&registry);
    assert_eq!(on, vec![false]);
    let out = node.run(&registry, &on, &images);
    assert_eq!(out, vec![CopyOutcome::Disabled]);

    // still disabled on a later frame: still no command
    let on = snapshot_enabled(&registry);
    let out = node.run(&registry, &on, &images);
    assert_eq!(out, vec![CopyOutcome::Disabled]);

    registry.0[0].set_enabled(true);
    let on = snapshot_enabled(&registry);
    let out = node.run(&registry, &on, &images);
    assert_eq!(
        out,
        vec![CopyOutcome::Issued(CopyCommand {
            src_image: 1,
            bytes_per_row: 256,
            width: 64,
            height: 4,
        })]
    );
}

#[test]
fn missing_gpu_image_is_source_not_ready() {
    let c = ImageCopier::new(42, 64, 4, PixelFormat::Rgba8UnormSrgb);
    let registry = ImageCopiers(vec![c]);
    let node = ImageCopyNode;
    let on = snapshot_enabled(&registry);
    let out = node.run(&registry, &on, &Vec::new());
    assert_eq!(out, vec![CopyOutcome::SourceNotReady]);
}

#[test]
fn find_gpu_image_returns_first_match() {
    let images = vec![
        GpuImage { id: 5, width: 8, height: 8, format: PixelFormat::R8Unorm },
        GpuImage { id: 6, width: 16, height: 16, format: PixelFormat::R8Unorm },
        GpuImage { id: 5, width: 32, height: 32, format: PixelFormat::R8Unorm },
    ];
    let found = find_gpu_image(&images, 5).unwrap();
    assert_eq!(found.width, 8);
    assert!(find_gpu_image(&images, 9).is_none());
}

#[test]
fn extract_snapshots_registry_and_shares_flags() {
    let a = ImageCopier::new(1, 64, 2, PixelFormat::Rgba8UnormSrgb);
    let b = ImageCopier::new(2, 64, 2, PixelFormat::Rgba8UnormSrgb);
    let producer_side = vec![a, b];
    let registry = image_copy_extract(&producer_side);
    assert_eq!(registry.0.len(), 2);
    assert_eq!(registry.0[0].src_image(), 1);
    assert_eq!(registry.0[1].src_image(), 2);
    // the snapshot shares each request's enable flag with the producer side
    producer_side[1].set_enabled(false);
    assert!(registry.0[0].enabled());
    assert!(!registry.0[1].enabled());
}

#[test]
fn frame_ordering_n_enabled_requests_deliver_in_order() {
    let copiers = vec![
        ImageCopier::new(1, 64, 1, PixelFormat::Rgba8UnormSrgb),
        ImageCopier::new(2, 64, 1, PixelFormat::Rgba8UnormSrgb),
        ImageCopier::new(3, 64, 1, PixelFormat::Rgba8UnormSrgb),
    ];
    let images = vec![
        GpuImage { id: 1, width: 64, height: 1, format: PixelFormat::Rgba8UnormSrgb },
        GpuImage { id: 2, width: 64, height: 1, format: PixelFormat::Rgba8UnormSrgb },
        GpuImage { id: 3, width: 64, height: 1, format: PixelFormat::Rgba8UnormSrgb },
    ];
    let registry = image_copy_extract(&copiers);
    let node = ImageCopyNode;
    let on = snapshot_enabled(&registry);
    let out = node.run(&registry, &on, &images);
    assert_eq!(out.len(), 3);
    for (i, o) in out.iter().enumerate() {
        match o {
            CopyOutcome::Issued(cmd) => assert_eq!(cmd.src_image, (i + 1) as u64),
            other => panic!("request {i} should issue a copy, got {other:?}"),
        }
    }

    // deliver one buffer per issued command, in registry order
    let (sender, receiver) = delivery_channel();
    for o in &out {
        if let CopyOutcome::Issued(cmd) = o {
            assert_eq!(send_image_bytes(&sender, vec![cmd.src_image as u8]), DeliverOutcome::Delivered);
        }
    }
    assert_eq!(receive_frame_blocking(&receiver).unwrap(), vec![1]);
    assert_eq!(receive_frame_blocking(&receiver).unwrap(), vec![2]);
    assert_eq!(receive_frame_blocking(&receiver).unwrap(), vec![3]);
    assert_eq!(try_receive_frame(&receiver).unwrap(), None);
}

#[test]
fn cycle_walks_map_copy_send_unmap() {
    let mut cycle = ReadbackCycle::new();
    assert_eq!(cycle.current_phase(), CyclePhase::Idle);
    cycle.request_map();
    assert_eq!(cycle.current_phase(), CyclePhase::MapPending);
    assert_eq!(cycle.complete_map(true), Ok(()));
    assert_eq!(cycle.current_phase(), CyclePhase::Mapped);
    cycle.copy_out();
    assert_eq!(cycle.current_phase(), CyclePhase::Copied);
    cycle.record_send(DeliverOutcome::Delivered);
    assert_eq!(cycle.current_phase(), CyclePhase::Sent);
    cycle.unmap();
    assert_eq!(cycle.current_phase(), CyclePhase::Idle);
}

#[test]
fn cycle_map_failure_ends_frame_without_unmap() {
    let mut cycle = ReadbackCycle::new();
    cycle.request_map();
    assert_eq!(cycle.complete_map(false), Err(ReadbackError::MapFailed));
    assert_eq!(cycle.current_phase(), CyclePhase::Failed);
}

#[test]
fn disable_during_inflight_map_still_delivers_once() {
    let c = ImageCopier::new(1, 64, 1, PixelFormat::Rgba8UnormSrgb);
    let images = vec![GpuImage { id: 1, width: 64, height: 1, format: PixelFormat::Rgba8UnormSrgb }];
    let registry = ImageCopiers(vec![c]);
    let node = ImageCopyNode;
    let (sender, receiver) = delivery_channel();

    // frame one: enabled at snapshot time, so the copy is issued
    let on = snapshot_enabled(&registry);
    let out = node.run(&registry, &on, &images);
    assert!(matches!(out[0], CopyOutcome::Issued(_)));

    let mut cycle = ReadbackCycle::new();
    cycle.request_map();
    // the producer disables the request while the map is in flight
    registry.0[0].set_enabled(false);
    // the in-flight request still runs its sequence to completion
    cycle.complete_map(true).unwrap();
    cycle.copy_out();
    let outcome = send_image_bytes(&sender, vec![7, 7, 7]);
    assert_eq!(outcome, DeliverOutcome::Delivered);
    cycle.record_send(outcome);
    cycle.unmap();

    // the one in-flight buffer arrives, exactly once
    assert_eq!(receive_frame_blocking(&receiver).unwrap(), vec![7, 7, 7]);
    assert_eq!(try_receive_frame(&receiver).unwrap(), None);

    // the next frame sees the flag down and issues nothing
    let on = snapshot_enabled(&registry);
    let out = node.run(&registry, &on, &images);
    assert_eq!(out, vec![CopyOutcome::Disabled]);
}

#[test]
fn send_after_consumer_shutdown_is_swallowed() {
    let (sender, receiver) = delivery_channel();
    drop(receiver);
    // the consumer is gone: the send fails quietly, with no panic
    let outcome = send_image_bytes(&sender, vec![1, 2, 3]);
    assert_eq!(outcome, DeliverOutcome::ChannelClosed);
}

#[test]
fn receive_after_producer_shutdown_reports_closed_channel() {
    let (sender, receiver) = delivery_channel();
    assert_eq!(send_image_bytes(&sender, vec![9]), DeliverOutcome::Delivered);
    drop(sender);
    // the queued frame still arrives, then the closure is reported
    assert_eq!(receive_frame_blocking(&receiver).unwrap(), vec![9]);
    assert_eq!(receive_frame_blocking(&receiver), Err(ReadbackError::ChannelClosed));
    assert_eq!(try_receive_frame(&receiver), Err(ReadbackError::ChannelClosed));
}

#[test]
fn render_texture_pair_shares_extent_and_format() {
    let (render_texture, cpu_texture) = create_render_textures(640, 480);
    assert_eq!((render_texture.width, render_texture.height), (640, 480));
    assert_eq!((cpu_texture.width, cpu_texture.height), (640, 480));
    assert_eq!(render_texture.format, cpu_texture.format);
    assert!(render_texture.usage.copy_src);
    assert!(render_texture.usage.render_attachment);
    assert!(!cpu_texture.usage.copy_src);
    assert!(!cpu_texture.usage.render_attachment);
}
