use base64::Engine;
use oopslauncher::icon::{
    choose_icon, data_uri, get_file_icon_base64, image_buffer_to_base64, IconImage, ShellIcons,
    BUFFER_TOO_SMALL, DATA_URI_PREFIX,
};

fn image_with_alpha(width: u32, height: u32, transparent: usize) -> IconImage {
    let total = (width * height) as usize;
    let mut bytes = Vec::new();
    for i in 0..total {
        bytes.extend_from_slice(&[10, 20, 30, if i < transparent { 0 } else { 255 }]);
    }
    IconImage::from_rgba(width, height, bytes).unwrap()
}

fn decode(uri: &str) -> image::RgbaImage {
    let text = uri.strip_prefix("data:image/png;base64,").unwrap();
    let png = base64::engine::general_purpose::STANDARD.decode(text).unwrap();
    assert_eq!(&png[..8], &[0x89, b'P', b'N', b'G', 0x0d, 0x0a, 0x1a, 0x0a]);
    image::load_from_memory_with_format(&png, image::ImageFormat::Png).unwrap().to_rgba8()
}

#[test]
fn image_takes_four_bytes_a_pixel() {
    let image = IconImage::from_rgba(2, 1, vec![1, 2, 3, 4, 5, 6, 7, 8]).unwrap();
    assert_eq!((image.width(), image.height()), (2, 1));
    assert_eq!(image.pixels(), &vec![1, 2, 3, 4, 5, 6, 7, 8]);
}

#[test]
fn short_buffer_is_refused() {
    assert_eq!(
        IconImage::from_rgba(2, 1, vec![1, 2, 3, 4, 5, 6, 7]).err(),
        Some(BUFFER_TOO_SMALL.to_string())
    );
    assert_eq!(
        IconImage::from_bgra(1, 1, Vec::new()).err(),
        Some("Failed to create image buffer".to_string())
    );
    assert!(IconImage::from_rgba(u32::MAX, u32::MAX, vec![0; 16]).is_err());
}

#[test]
fn bytes_beyond_the_image_are_dropped() {
    let image = IconImage::from_rgba(1, 1, vec![1, 2, 3, 4, 5, 6]).unwrap();
    assert_eq!(image.pixels(), &vec![1, 2, 3, 4]);
    let empty = IconImage::from_rgba(0, 5, vec![1, 2, 3]).unwrap();
    assert!(empty.pixels().is_empty());
}

#[test]
fn red_and_blue_change_places() {
    let image = IconImage::from_bgra(2, 1, vec![1, 2, 3, 4, 5, 6, 7, 8, 9]).unwrap();
    assert_eq!(image.pixels(), &vec![3, 2, 1, 4, 7, 6, 5, 8]);
}

#[test]
fn mostly_transparent_from_85_in_100() {
    assert!(image_with_alpha(10, 10, 85).is_mostly_transparent());
    assert!(image_with_alpha(10, 10, 100).is_mostly_transparent());
    assert!(!image_with_alpha(10, 10, 84).is_mostly_transparent());
    assert!(!image_with_alpha(10, 10, 0).is_mostly_transparent());
    assert!(image_with_alpha(20, 1, 17).is_mostly_transparent());
    assert!(!image_with_alpha(20, 1, 16).is_mostly_transparent());
    assert!(!image_with_alpha(3, 2, 5).is_mostly_transparent());
    assert!(image_with_alpha(3, 2, 6).is_mostly_transparent());
}

#[test]
fn image_without_pixels_is_not_transparent() {
    assert!(!image_with_alpha(0, 0, 0).is_mostly_transparent());
    assert!(!image_with_alpha(0, 7, 0).is_mostly_transparent());
}

#[test]
fn only_alpha_counts_as_transparent() {
    let image = IconImage::from_rgba(1, 1, vec![0, 0, 0, 1]).unwrap();
    assert!(!image.is_mostly_transparent());
    let image = IconImage::from_rgba(1, 1, vec![9, 9, 9, 0]).unwrap();
    assert!(image.is_mostly_transparent());
}

#[test]
fn flip_reverses_the_rows() {
    let image = IconImage::from_rgba(1, 3, vec![1, 1, 1, 1, 2, 2, 2, 2, 3, 3, 3, 3]).unwrap();
    let flipped = image.flip_vertical();
    assert_eq!((flipped.width(), flipped.height()), (1, 3));
    assert_eq!(flipped.pixels(), &vec![3, 3, 3, 3, 2, 2, 2, 2, 1, 1, 1, 1]);
    let wide = IconImage::from_rgba(2, 2, (0..16).collect()).unwrap();
    assert_eq!(
        wide.flip_vertical().pixels(),
        &vec![8, 9, 10, 11, 12, 13, 14, 15, 0, 1, 2, 3, 4, 5, 6, 7]
    );
    assert_eq!(wide.flip_vertical().flip_vertical().pixels(), wide.pixels());
    let empty = IconImage::from_rgba(4, 0, Vec::new()).unwrap();
    assert!(empty.flip_vertical().pixels().is_empty());
}

#[test]
fn small_rendering_replaces_a_transparent_large_one() {
    let icons = ShellIcons {
        large: image_with_alpha(4, 4, 16),
        small: Some(image_with_alpha(2, 2, 0)),
    };
    assert_eq!(choose_icon(icons).width(), 2);
    let icons = ShellIcons {
        large: image_with_alpha(4, 4, 2),
        small: Some(image_with_alpha(2, 2, 0)),
    };
    assert_eq!(choose_icon(icons).width(), 4);
    let icons = ShellIcons { large: image_with_alpha(4, 4, 16), small: None };
    assert_eq!(choose_icon(icons).width(), 4);
}

#[test]
fn data_uri_has_the_png_prefix() {
    assert_eq!(data_uri("QUJD"), "data:image/png;base64,QUJD");
    assert_eq!(data_uri(""), DATA_URI_PREFIX);
}

#[test]
fn encoded_icon_is_the_image_upright() {
    let image =
        IconImage::from_rgba(2, 2, vec![1, 2, 3, 4, 5, 6, 7, 8, 9, 10, 11, 12, 13, 14, 15, 16])
            .unwrap();
    let uri = image_buffer_to_base64(&image).unwrap();
    assert!(uri.starts_with(DATA_URI_PREFIX));
    let decoded = decode(&uri);
    assert_eq!((decoded.width(), decoded.height()), (2, 2));
    assert_eq!(
        decoded.into_raw(),
        vec![9, 10, 11, 12, 13, 14, 15, 16, 1, 2, 3, 4, 5, 6, 7, 8]
    );
}

#[test]
fn encoding_is_repeatable() {
    let image = image_with_alpha(8, 8, 10);
    assert_eq!(image_buffer_to_base64(&image), image_buffer_to_base64(&image));
}

#[test]
fn image_without_pixels_cannot_be_encoded() {
    let empty = IconImage::from_rgba(0, 0, Vec::new()).unwrap();
    assert!(image_buffer_to_base64(&empty).is_err());
}

#[test]
fn platform_without_icons_gives_an_empty_icon() {
    assert_eq!(get_file_icon_base64(None), Ok(String::new()));
}

#[test]
fn icon_of_a_file_is_the_chosen_rendering() {
    let large_bytes: Vec<u8> = (0..64).map(|i| if i % 4 == 3 { 0 } else { 200 }).collect();
    let small_bytes = vec![50, 60, 70, 255];
    let icons = ShellIcons {
        large: IconImage::from_bgra(4, 4, large_bytes).unwrap(),
        small: Some(IconImage::from_bgra(1, 1, small_bytes).unwrap()),
    };
    let uri = get_file_icon_base64(Some(icons)).unwrap();
    let decoded = decode(&uri);
    assert_eq!((decoded.width(), decoded.height()), (1, 1));
    assert_eq!(decoded.into_raw(), vec![70, 60, 50, 255]);
}
