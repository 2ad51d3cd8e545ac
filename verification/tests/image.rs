use libharuhishot::{ColorType, ImageInfo, ImageViewInfo, Position, Region, Size};

/// An image of `width` by `height` whose pixel in the column `x` of the row
/// `y` holds the bytes `x`, `y`, `x + y` and 255.
fn image(width: u32, height: u32) -> ImageInfo {
    let mut data = Vec::new();
    for y in 0..height {
        for x in 0..width {
            data.extend_from_slice(&[x as u8, y as u8, (x + y) as u8, 255]);
        }
    }
    ImageInfo { data, width, height, color_type: ColorType::Rgba8 }
}

fn view(info: ImageInfo, x: i32, y: i32, width: i32, height: i32) -> ImageViewInfo {
    ImageViewInfo {
        info,
        region: Region { position: Position { x, y }, size: Size { width, height } },
    }
}

#[test]
fn the_selected_part_is_cut_out_row_by_row() {
    let part = view(image(5, 4), 1, 2, 3, 2).crop().expect("the part lies within the image");
    assert_eq!((part.width, part.height), (3, 2));
    assert_eq!(part.color_type, ColorType::Rgba8);
    assert_eq!(
        part.data,
        vec![
            1, 2, 3, 255, 2, 2, 4, 255, 3, 2, 5, 255, // the row 2
            1, 3, 4, 255, 2, 3, 5, 255, 3, 3, 6, 255, // the row 3
        ]
    );
}

#[test]
fn the_whole_image_is_a_part_of_itself() {
    let whole = image(7, 3);
    let part = view(whole.clone(), 0, 0, 7, 3).crop().expect("the whole lies within the image");
    assert_eq!(part.data, whole.data);
    assert_eq!((part.width, part.height), (7, 3));
}

#[test]
fn a_part_may_be_empty() {
    let part = view(image(4, 4), 4, 4, 0, 0).crop().expect("an empty part at the far corner");
    assert!(part.data.is_empty());
    assert_eq!((part.width, part.height), (0, 0));
    let part = view(image(4, 4), 1, 1, 0, 3).crop().expect("a part without width");
    assert!(part.data.is_empty());
    assert_eq!((part.width, part.height), (0, 3));
    let part = view(image(4, 4), 1, 1, 3, 0).crop().expect("a part without height");
    assert!(part.data.is_empty());
    assert_eq!((part.width, part.height), (3, 0));
}

#[test]
fn a_part_that_reaches_beyond_the_image_is_not_cut_out() {
    assert!(view(image(5, 4), 3, 0, 3, 1).crop().is_none());
    assert!(view(image(5, 4), 0, 3, 1, 2).crop().is_none());
    assert!(view(image(5, 4), -1, 0, 2, 2).crop().is_none());
    assert!(view(image(5, 4), 0, -1, 2, 2).crop().is_none());
    assert!(view(image(5, 4), 1, 1, -1, 2).crop().is_none());
    assert!(view(image(5, 4), 1, 1, 2, -1).crop().is_none());
    assert!(view(image(5, 4), i32::MAX, i32::MAX, i32::MAX, i32::MAX).crop().is_none());
    assert!(view(image(5, 4), 6, 0, 0, 0).crop().is_none());
}

#[test]
fn an_image_with_too_few_or_too_many_bytes_is_not_cut() {
    let mut short = image(5, 4);
    short.data.pop();
    assert!(view(short, 0, 0, 1, 1).crop().is_none());
    let mut long = image(5, 4);
    long.data.push(0);
    assert!(view(long, 0, 0, 1, 1).crop().is_none());
    let huge = ImageInfo {
        data: vec![0; 16],
        width: u32::MAX,
        height: u32::MAX,
        color_type: ColorType::Rgba8,
    };
    assert!(view(huge, 0, 0, 1, 1).crop().is_none());
}
