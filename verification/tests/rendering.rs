use oculurum::compositor::Compositor;
use oculurum::fstree::{plan, FsEntry};
use oculurum::mode::{ColorMode, CompressionLevel};
use oculurum::planner::make_plan;
use oculurum::raster::{finalize, run, RunError};

fn decode(bytes: &[u8]) -> (png::OutputInfo, Vec<u8>) {
    let decoder = png::Decoder::new(bytes);
    let mut reader = decoder.read_info().unwrap();
    let mut buf = vec![0u8; reader.output_buffer_size()];
    let info = reader.next_frame(&mut buf).unwrap();
    buf.truncate(info.buffer_size());
    (info, buf)
}

#[test]
fn compositor_tracks_cursor_and_padding() {
    let p = make_plan(10, vec![], ColorMode::Grayscale, CompressionLevel::Default).unwrap();
    assert_eq!(p.dimension, 4);
    let mut c = Compositor::new(p);
    assert_eq!(c.written(), 0);
    assert_eq!(c.padding_len(), 16);
    c.push_chunk(vec![9, 8, 7]);
    c.push_chunk(vec![6, 5, 4, 3, 2, 1, 0]);
    assert_eq!(c.written(), 10);
    assert_eq!(c.padding_len(), 6);
    let px = c.into_pixels();
    assert_eq!(px.len(), 16);
    assert_eq!(&px[..10], &[9, 8, 7, 6, 5, 4, 3, 2, 1, 0]);
    assert!(px[10..].iter().all(|&b| b == 0));
}

#[test]
fn compositor_counts_expanded_bytes_in_bitwise_mode() {
    let p = make_plan(2, vec![], ColorMode::Bitwise, CompressionLevel::Default).unwrap();
    assert_eq!(p.dimension, 5);
    let mut c = Compositor::new(p);
    c.push_chunk(vec![0b00000001, 0b11111111]);
    // The cursor counts emitted pixel bytes: 8 per input byte.
    assert_eq!(c.written(), 16);
    assert_eq!(c.padding_len(), 9);
    let px = c.into_pixels();
    assert_eq!(px.len(), 25);
    assert_eq!(&px[..8], &[0xff, 0, 0, 0, 0, 0, 0, 0]);
    assert_eq!(&px[8..16], &[0xff; 8]);
    assert!(px[16..].iter().all(|&b| b == 0));
}

#[test]
fn single_file_grayscale_roundtrip() {
    let data: Vec<u8> = vec![10, 20, 30, 40, 50, 60, 70, 80, 90, 100];
    let p = plan(
        &FsEntry::File {
            path: String::from("ten.bin"),
            size: data.len() as u64,
        },
        ColorMode::Grayscale,
        CompressionLevel::Default,
    )
    .unwrap();
    assert_eq!(p.dimension, 4);
    let img = run(p, vec![data.clone()]).unwrap();
    // A real encoded file, not the raw buffer: it starts with the PNG
    // signature.
    assert_eq!(&img[..8], &[137, 80, 78, 71, 13, 10, 26, 10]);
    let (info, px) = decode(&img);
    assert_eq!((info.width, info.height), (4, 4));
    assert_eq!(info.color_type, png::ColorType::Grayscale);
    assert_eq!(px.len(), 16);
    assert_eq!(&px[..10], &data[..]);
    assert!(px[10..].iter().all(|&b| b == 0));
}

#[test]
fn two_byte_bitwise_roundtrip() {
    let p = plan(
        &FsEntry::File {
            path: String::from("two.bin"),
            size: 2,
        },
        ColorMode::Bitwise,
        CompressionLevel::Default,
    )
    .unwrap();
    assert_eq!(p.dimension, 5);
    let img = run(p, vec![vec![0b00000001, 0b11111111]]).unwrap();
    let (info, px) = decode(&img);
    assert_eq!((info.width, info.height), (5, 5));
    assert_eq!(info.color_type, png::ColorType::Grayscale);
    assert_eq!(px.len(), 25);
    assert_eq!(&px[..8], &[0xff, 0, 0, 0, 0, 0, 0, 0]);
    assert_eq!(&px[8..16], &[0xff; 8]);
    assert!(px[16..].iter().all(|&b| b == 0));
}

#[test]
fn empty_directory_renders_single_pixel() {
    let tree = FsEntry::Dir { entries: vec![] };
    for mode in [
        ColorMode::Bitwise,
        ColorMode::Grayscale,
        ColorMode::Rgb,
        ColorMode::GrayscaleAlpha,
        ColorMode::Rgba,
    ] {
        let p = plan(&tree, mode, CompressionLevel::Default).unwrap();
        assert_eq!(p.dimension, 1);
        let bpp = p.bytes_per_pixel as usize;
        let img = run(p, vec![]).unwrap();
        let (info, px) = decode(&img);
        assert_eq!((info.width, info.height), (1, 1));
        assert_eq!(px.len(), bpp);
        assert!(px.iter().all(|&b| b == 0));
    }
}

#[test]
fn unreadable_file_still_counted_in_plan() {
    // Planning counted both files (3 + 5 bytes); the 3-byte one could not be
    // read afterwards, so only the other's bytes arrive.
    let tree = FsEntry::Dir {
        entries: vec![
            FsEntry::File {
                path: String::from("locked.bin"),
                size: 3,
            },
            FsEntry::File {
                path: String::from("ok.bin"),
                size: 5,
            },
        ],
    };
    let p = plan(&tree, ColorMode::Grayscale, CompressionLevel::Default).unwrap();
    // total 8: floor(sqrt(8)) + 1 = 3
    assert_eq!(p.dimension, 3);
    let img = run(p, vec![vec![1, 2, 3, 4, 5]]).unwrap();
    let (info, px) = decode(&img);
    assert_eq!((info.width, info.height), (3, 3));
    assert_eq!(px, vec![1, 2, 3, 4, 5, 0, 0, 0, 0]);
}

#[test]
fn rgb_bytes_pass_through_in_triples() {
    let data: Vec<u8> = (1..=10).collect();
    let p = make_plan(10, vec![], ColorMode::Rgb, CompressionLevel::Default).unwrap();
    assert_eq!(p.dimension, 2);
    let img = run(p, vec![data]).unwrap();
    let (info, px) = decode(&img);
    assert_eq!((info.width, info.height), (2, 2));
    assert_eq!(info.color_type, png::ColorType::Rgb);
    // Capacity 2 * 2 * 3 = 12: ten data bytes, two zeros. The pushed bytes
    // exceed nothing; consecutive triples are the sink's R,G,B channels.
    assert_eq!(px, vec![1, 2, 3, 4, 5, 6, 7, 8, 9, 10, 0, 0]);
}

#[test]
fn oversized_stream_is_rejected_by_the_sink() {
    // Planned for 2 bytes (capacity 2 * 2 = 4), but a source grew to 6 bytes
    // after planning: the padding saturates at zero and the sink rejects the
    // overlong buffer.
    let p = make_plan(2, vec![], ColorMode::Grayscale, CompressionLevel::Default).unwrap();
    assert_eq!(p.dimension, 2);
    let mut c = Compositor::new(p);
    c.push_chunk(vec![1, 2, 3, 4, 5, 6]);
    assert_eq!(c.padding_len(), 0);
    assert_eq!(finalize(c), Err(RunError::SinkWriteFailed));
}

#[test]
fn every_compression_level_encodes() {
    for level in [
        CompressionLevel::Default,
        CompressionLevel::Fast,
        CompressionLevel::Best,
        CompressionLevel::Huffman,
        CompressionLevel::Rle,
    ] {
        let p = make_plan(4, vec![], ColorMode::Grayscale, level).unwrap();
        let img = run(p, vec![vec![11, 22, 33, 44]]).unwrap();
        let (info, px) = decode(&img);
        assert_eq!((info.width, info.height), (3, 3));
        assert_eq!(px, vec![11, 22, 33, 44, 0, 0, 0, 0, 0]);
    }
}
