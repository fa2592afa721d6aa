use oculurum::fstree::{calculate_dimensions, plan, FsEntry};
use oculurum::mode::{ColorMode, CompressionLevel};
use oculurum::planner::{calculate_dimension, make_plan};

#[test]
fn dimension_small_grayscale() {
    // floor(sqrt(1.0 * 10)) + 1 = 4
    assert_eq!(calculate_dimension(10, ColorMode::Grayscale), Some(4));
}

#[test]
fn dimension_bitwise_two_bytes() {
    // floor(sqrt(8.0 * 2)) + 1 = 5
    assert_eq!(calculate_dimension(2, ColorMode::Bitwise), Some(5));
}

#[test]
fn dimension_zero_is_one() {
    assert_eq!(calculate_dimension(0, ColorMode::Bitwise), Some(1));
    assert_eq!(calculate_dimension(0, ColorMode::Grayscale), Some(1));
    assert_eq!(calculate_dimension(0, ColorMode::Rgb), Some(1));
    assert_eq!(calculate_dimension(0, ColorMode::GrayscaleAlpha), Some(1));
    assert_eq!(calculate_dimension(0, ColorMode::Rgba), Some(1));
}

#[test]
fn dimension_fractional_multipliers() {
    // Rgb: floor(sqrt(0.3 * 10)) + 1 = floor(sqrt(3)) + 1 = 2
    assert_eq!(calculate_dimension(10, ColorMode::Rgb), Some(2));
    // GrayscaleAlpha: floor(sqrt(0.5 * 8)) + 1 = 3
    assert_eq!(calculate_dimension(8, ColorMode::GrayscaleAlpha), Some(3));
    // Rgba: floor(sqrt(0.25 * 16)) + 1 = 3
    assert_eq!(calculate_dimension(16, ColorMode::Rgba), Some(3));
    // Rgb at 1 byte: floor(sqrt(0.3)) + 1 = 1
    assert_eq!(calculate_dimension(1, ColorMode::Rgb), Some(1));
}

#[test]
fn dimension_exact_squares() {
    // floor(sqrt(9)) + 1 = 4: the formula always biases upward.
    assert_eq!(calculate_dimension(9, ColorMode::Grayscale), Some(4));
    assert_eq!(calculate_dimension(16, ColorMode::Grayscale), Some(5));
}

#[test]
fn dimension_overflow_is_none() {
    // floor(sqrt(8 * u64::MAX)) is about 2^33.5, which exceeds u32::MAX.
    assert_eq!(calculate_dimension(u64::MAX, ColorMode::Bitwise), None);
    // Grayscale at the same size still overflows (sqrt(2^64) > 2^32 - 1).
    assert_eq!(calculate_dimension(u64::MAX, ColorMode::Grayscale), None);
}

#[test]
fn make_plan_carries_fields() {
    let p = make_plan(
        10,
        vec![String::from("a")],
        ColorMode::Grayscale,
        CompressionLevel::Best,
    )
    .unwrap();
    assert_eq!(p.dimension, 4);
    assert_eq!(p.bytes_per_pixel, 1);
    assert_eq!(p.file_list, vec![String::from("a")]);
    assert_eq!(p.color_mode, ColorMode::Grayscale);
    assert_eq!(p.compression_level, CompressionLevel::Best);
}

fn sample_tree() -> FsEntry {
    FsEntry::Dir {
        entries: vec![
            FsEntry::File {
                path: String::from("a.bin"),
                size: 3,
            },
            FsEntry::Dir {
                entries: vec![
                    FsEntry::File {
                        path: String::from("sub/b.bin"),
                        size: 5,
                    },
                    FsEntry::Dir { entries: vec![] },
                    FsEntry::File {
                        path: String::from("sub/c.bin"),
                        size: 7,
                    },
                ],
            },
            FsEntry::File {
                path: String::from("d.bin"),
                size: 11,
            },
        ],
    }
}

#[test]
fn directory_aggregation_sums_all_files() {
    let tree = sample_tree();
    let mut names: Vec<String> = Vec::new();
    let total = calculate_dimensions(&tree, &mut names);
    assert_eq!(total, 3 + 5 + 7 + 11);
    assert_eq!(
        names,
        vec![
            String::from("a.bin"),
            String::from("sub/b.bin"),
            String::from("sub/c.bin"),
            String::from("d.bin"),
        ]
    );
}

#[test]
fn planning_is_idempotent() {
    let tree = sample_tree();
    let p1 = plan(&tree, ColorMode::Rgba, CompressionLevel::Fast).unwrap();
    let p2 = plan(&tree, ColorMode::Rgba, CompressionLevel::Fast).unwrap();
    assert_eq!(p1.dimension, p2.dimension);
    assert_eq!(p1.bytes_per_pixel, p2.bytes_per_pixel);
    assert_eq!(p1.file_list, p2.file_list);
    assert_eq!(p1.color_mode, p2.color_mode);
    assert_eq!(p1.compression_level, p2.compression_level);
}

#[test]
fn empty_directory_plans_single_pixel() {
    let tree = FsEntry::Dir { entries: vec![] };
    let p = plan(&tree, ColorMode::Grayscale, CompressionLevel::Default).unwrap();
    assert_eq!(p.dimension, 1);
    assert!(p.file_list.is_empty());
}
