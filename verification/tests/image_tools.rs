use phyrexian_library::utility::image_tools::{
    combine_coordinates, split_range_align_end, split_range_align_start, tile_starts, CustomSplit,
    ImagePoint, SplitMode, SplitableImageExt,
};
use std::num::NonZeroU32;

#[test]
fn test_image_point() {
    let x = 465;
    let y = 0;
    let point = ImagePoint::new(x, y);
    // Test getting the x-coordinate.
    assert_eq!(point.x(), x);
    // Test getting the y-coordinate.
    assert_eq!(point.y(), y);
}

#[test]
fn test_split_align_start() {
    // Test zero input length.
    assert_eq!(split_range_align_start(0, NonZeroU32::new(12).unwrap().get()), Vec::<u32>::new());
    // Test input length smaller than split length.
    assert_eq!(split_range_align_start(364, NonZeroU32::new(2490).unwrap().get()), Vec::<u32>::new());
    // Test normal behaviour without overlap.
    assert_eq!(split_range_align_start(50000, NonZeroU32::new(10000).unwrap().get()), vec!(0, 10000, 20000, 30000, 40000));
    // Test normal behaviour with overlap.
    assert_eq!(split_range_align_start(50067, NonZeroU32::new(10000).unwrap().get()), vec!(0, 67, 10067, 20067, 30067, 40067));
}

#[test]
fn test_split_align_end() {
    // Test zero input length.
    assert_eq!(split_range_align_end(0, NonZeroU32::new(12).unwrap().get()), Vec::<u32>::new());
    // Test input length smaller than split length.
    assert_eq!(split_range_align_end(364, NonZeroU32::new(2490).unwrap().get()), Vec::<u32>::new());
    // Test normal behaviour without overlap.
    assert_eq!(split_range_align_end(50000, NonZeroU32::new(10000).unwrap().get()), vec!(0, 10000, 20000, 30000, 40000));
    // Test normal behaviour with overlap.
    assert_eq!(split_range_align_end(50067, NonZeroU32::new(10000).unwrap().get()), vec!(0, 10000, 20000, 30000, 40000, 40067));
}

#[test]
fn test_combine_coordinates() {
    let x = vec![7, 24987, 78];
    let y = vec![12, 943, 44944];
    // Test empty height input.
    assert_eq!(combine_coordinates(&Vec::new(), &y), Vec::<ImagePoint>::new());
    // Test empty width input.
    assert_eq!(combine_coordinates(&x, &Vec::new()), Vec::<ImagePoint>::new());
    let combined_assertion = [
        (7, 12), (7, 943), (7, 44944),
        (24987, 12), (24987, 943), (24987, 44944),
        (78, 12), (78, 943), (78, 44944),
    ].iter().map(ImagePoint::from);
    // Check if every element is present without caring for the order of elements.
    let combined_result = combine_coordinates(&x, &y);
    assert_eq!(combined_assertion.len(), combined_result.len());
    for assertion in combined_assertion {
        assert!(combined_result.contains(&assertion));
    }
}

#[test]
fn combine_coordinates_goes_by_x_first() {
    assert_eq!(
        combine_coordinates(&[1, 2], &[10, 20, 30]),
        vec![
            ImagePoint::new(1, 10),
            ImagePoint::new(1, 20),
            ImagePoint::new(1, 30),
            ImagePoint::new(2, 10),
            ImagePoint::new(2, 20),
            ImagePoint::new(2, 30),
        ]
    );
}

#[test]
fn split_ranges_at_the_edges() {
    assert_eq!(split_range_align_end(12, 12), vec![0]);
    assert_eq!(split_range_align_start(12, 12), vec![0]);
    assert_eq!(split_range_align_end(13, 12), vec![0, 1]);
    assert_eq!(split_range_align_start(13, 12), vec![0, 1]);
    assert_eq!(split_range_align_end(5, 1), vec![0, 1, 2, 3, 4]);
    assert_eq!(split_range_align_end(u32::MAX, u32::MAX - 1), vec![0, 1]);
    assert_eq!(split_range_align_start(u32::MAX, 2_000_000_000), vec![0, 294_967_295, 2_294_967_295]);
}

#[test]
fn image_point_conversions() {
    let point = ImagePoint::from((3, 4));
    assert_eq!(point, ImagePoint::new(3, 4));
    assert_eq!(ImagePoint::from(&(5, 6)), ImagePoint::new(5, 6));
    let pair: (u32, u32) = point.into();
    assert_eq!(pair, (3, 4));
    assert_eq!(point.to_string(), "(x = 3 , y = 4)");
    assert_eq!(ImagePoint::new(0, 4_294_967_295).to_string(), "(x = 0 , y = 4294967295)");
}

#[test]
fn split_modes_place_the_tiles() {
    let bottom_left = SplitMode::EdgeOverlapBottomLeftMode.get_starts(25, 15, 10, 10);
    assert_eq!(
        bottom_left,
        combine_coordinates(&[0, 5, 15], &[0, 5])
    );
    let bottom_right = SplitMode::EdgeOverlapBottomRightMode.get_starts(25, 15, 10, 10);
    assert_eq!(bottom_right, combine_coordinates(&[0, 10, 15], &[0, 5]));
    let top_left = SplitMode::EdgeOverlapTopLeftMode.get_starts(25, 15, 10, 10);
    assert_eq!(top_left, combine_coordinates(&[0, 5, 15], &[0, 5]));
    let top_right = SplitMode::EdgeOverlapTopRightMode.get_starts(25, 25, 10, 10);
    assert_eq!(top_right, combine_coordinates(&[0, 10, 15], &[0, 5, 15]));
    assert!(matches!(SplitMode::default(), SplitMode::EdgeOverlapBottomRightMode));
    assert_eq!(SplitMode::default().debug_name(), "EdgeOverlapBottomRightMode");
    assert_eq!(
        SplitMode::EdgeOverlapTopLeftMode.to_string(),
        "Split mode: overlap at top and left edge"
    );
}

struct Corner;

impl CustomSplit for Corner {
    fn starts(&self, image_width: u32, image_height: u32, split_width: u32, split_height: u32) -> Vec<ImagePoint> {
        vec![ImagePoint::new(image_width - split_width, image_height - split_height)]
    }
}

struct OverTheEdge;

impl CustomSplit for OverTheEdge {
    fn starts(&self, image_width: u32, _image_height: u32, _split_width: u32, _split_height: u32) -> Vec<ImagePoint> {
        vec![ImagePoint::new(image_width - 5, 0), ImagePoint::new(1000, 1000)]
    }
}

#[test]
fn custom_mode_decides_by_itself() {
    let mode = SplitMode::CustomMode(Box::new(Corner));
    assert_eq!(mode.get_starts(100, 50, 10, 20), vec![ImagePoint::new(90, 30)]);
    assert_eq!(mode.debug_name(), "CustomMode");
    assert_eq!(mode.to_string(), "Split mode: custom splitting");
    assert_eq!(tile_starts(5, 50, 10, 20, &mode), Vec::<ImagePoint>::new());
    assert_eq!(tile_starts(100, 50, 10, 20, &mode), vec![ImagePoint::new(90, 30)]);
}

#[test]
fn image_is_split_into_tiles() {
    let mut image = image::DynamicImage::new_rgb8(25, 15);
    let tiles = image.split_into(10, 10, SplitMode::EdgeOverlapBottomRightMode);
    assert_eq!(tiles.len(), 6);
    // The image itself stays as it is.
    assert_eq!(image.width(), 25);
    assert_eq!(image.height(), 15);
    for tile in tiles.iter() {
        assert_eq!(tile.width(), 10);
        assert_eq!(tile.height(), 10);
    }
    let mut small = image::DynamicImage::new_rgb8(5, 15);
    assert_eq!(small.split_into(10, 10, SplitMode::default()).len(), 0);
    let mut exact = image::DynamicImage::new_luma8(20, 10);
    assert_eq!(exact.split_into(10, 10, SplitMode::EdgeOverlapTopLeftMode).len(), 2);
    // A custom mode may place a tile over the edge: it is cut to the image.
    let mut wide = image::DynamicImage::new_rgb8(30, 20);
    let tiles = wide.split_into(20, 15, SplitMode::CustomMode(Box::new(OverTheEdge)));
    assert_eq!(tiles.len(), 2);
    assert_eq!((tiles[0].width(), tiles[0].height()), (5, 15));
    assert_eq!((tiles[1].width(), tiles[1].height()), (0, 0));
}
