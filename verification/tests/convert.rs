use libharuhishot::{create_converter, ColorType, Converter, Format};

#[test]
fn every_supported_layout_has_its_converter() {
    assert_eq!(create_converter(Format::Argb8888), Some(Converter::ConvertRGB8));
    assert_eq!(create_converter(Format::Xrgb8888), Some(Converter::ConvertRGB8));
    assert_eq!(create_converter(Format::Xbgr8888), Some(Converter::ConvertNone));
    assert_eq!(create_converter(Format::Abgr2101010), Some(Converter::ConvertBGR10));
    assert_eq!(create_converter(Format::Xbgr2101010), Some(Converter::ConvertBGR10));
}

#[test]
fn other_layouts_have_no_converter() {
    // 0x36314752 is the number of a 16-bit layout.
    assert_eq!(create_converter(Format::Other(0x36314752)), None);
    assert!(!Format::Other(0x36314752).is_supported());
    assert!(!Format::Other(0).is_supported());
    assert!(Format::Argb8888.is_supported());
    assert!(Format::Xbgr2101010.is_supported());
}

#[test]
fn argb_swaps_red_and_blue() {
    // blue, green, red, alpha in memory
    let mut data = vec![10u8, 20, 30, 40, 50, 60, 70, 80];
    let color = Converter::ConvertRGB8.convert_inplace(&mut data);
    assert_eq!(color, ColorType::Rgba8);
    assert_eq!(data, vec![30u8, 20, 10, 40, 70, 60, 50, 80]);
}

#[test]
fn xbgr_stays_as_it_is() {
    let mut data = vec![1u8, 2, 3, 4, 5, 6, 7, 8];
    let color = Converter::ConvertNone.convert_inplace(&mut data);
    assert_eq!(color, ColorType::Rgba8);
    assert_eq!(data, vec![1u8, 2, 3, 4, 5, 6, 7, 8]);
}

#[test]
fn ten_bit_channels_lose_their_two_lowest_bits() {
    // red 1023, green 512, blue 3, alpha 3: the word 0xC03803FF
    let mut data = vec![0xffu8, 0x03, 0x38, 0xc0];
    let color = Converter::ConvertBGR10.convert_inplace(&mut data);
    assert_eq!(color, ColorType::Rgba8);
    assert_eq!(data, vec![255u8, 128, 0, 255]);

    // red 4, green 7, blue 1020, alpha 0: the word 0x3FC01C04
    let mut data = vec![0x04u8, 0x1c, 0xc0, 0x3f];
    Converter::ConvertBGR10.convert_inplace(&mut data);
    assert_eq!(data, vec![1u8, 1, 255, 255]);
}

#[test]
fn ten_bit_conversion_never_gains_precision() {
    for red in [0u32, 1, 2, 3, 4, 5, 511, 512, 1020, 1021, 1022, 1023] {
        for blue in [0u32, 3, 4, 700, 1023] {
            let green = 1023 - red;
            let word = (blue << 20) | (green << 10) | red;
            let mut data = word.to_le_bytes().to_vec();
            Converter::ConvertBGR10.convert_inplace(&mut data);
            assert_eq!(data[0] as u32, red / 4);
            assert_eq!(data[1] as u32, green / 4);
            assert_eq!(data[2] as u32, blue / 4);
            assert_eq!(data[3], 255);
        }
    }
}

#[test]
fn conversion_keeps_the_length_and_the_bytes_behind_the_last_pixel() {
    let mut data = vec![1u8, 2, 3, 4, 5, 6, 7, 8, 9, 10, 11];
    Converter::ConvertRGB8.convert_inplace(&mut data);
    assert_eq!(data, vec![3u8, 2, 1, 4, 7, 6, 5, 8, 9, 10, 11]);

    let mut data = vec![0xffu8, 0x03, 0x38, 0xc0, 9, 8, 7];
    Converter::ConvertBGR10.convert_inplace(&mut data);
    assert_eq!(data, vec![255u8, 128, 0, 255, 9, 8, 7]);

    let mut short = vec![1u8, 2, 3];
    Converter::ConvertRGB8.convert_inplace(&mut short);
    assert_eq!(short, vec![1u8, 2, 3]);

    let mut empty: Vec<u8> = Vec::new();
    Converter::ConvertBGR10.convert_inplace(&mut empty);
    assert!(empty.is_empty());
}

#[test]
fn eight_bit_conversion_is_undone_by_itself() {
    let before: Vec<u8> = (0..=255u8).collect();
    let mut data = before.clone();
    Converter::ConvertRGB8.convert_inplace(&mut data);
    assert_ne!(data, before);
    Converter::ConvertRGB8.convert_inplace(&mut data);
    assert_eq!(data, before);
}
