use morrigu::texture::{
    check_texture_upload, cubemap_face_files, default_texture_pixels, TextureDataSizeError,
    TextureFormat, FORMAT_R8G8B8A8_SRGB, FORMAT_R8G8B8A8_UNORM,
};

#[test]
fn texture_formats_map_to_vulkan_values() {
    assert_eq!(TextureFormat::RGBA8_SRGB.vk_format(), 43);
    assert_eq!(TextureFormat::RGBA8_UNORM.vk_format(), 37);
    assert_eq!(FORMAT_R8G8B8A8_SRGB, 43);
    assert_eq!(FORMAT_R8G8B8A8_UNORM, 37);
}

#[test]
fn upload_of_exact_size_is_accepted() {
    assert_eq!(check_texture_upload([4, 3], 12), Ok(()));
    assert_eq!(check_texture_upload([0, 7], 0), Ok(()));
}

#[test]
fn upload_of_wrong_size_is_refused() {
    assert_eq!(
        check_texture_upload([4, 3], 48),
        Err(TextureDataSizeError { expected: 12, actual: 48 })
    );
    assert_eq!(
        check_texture_upload([2, 2], 3),
        Err(TextureDataSizeError { expected: 4, actual: 3 })
    );
}

#[test]
fn default_texture_alternates_white_and_magenta() {
    let (pixels, w, h) = default_texture_pixels();
    assert_eq!((w, h), (2, 2));
    assert_eq!(pixels.len(), 16);
    assert_eq!(&pixels[0..4], &[255, 255, 255, 255]);
    assert_eq!(&pixels[4..8], &[255, 0, 255, 255]);
    assert_eq!(&pixels[8..12], &[255, 0, 255, 255]);
    assert_eq!(&pixels[12..16], &[255, 255, 255, 255]);
}

#[test]
fn cubemap_faces_come_in_layout_order() {
    let files = cubemap_face_files("png");
    assert_eq!(
        files,
        vec!["front.png", "back.png", "top.png", "bottom.png", "right.png", "left.png"]
    );
    let files = cubemap_face_files("jpg");
    assert_eq!(files[5], "left.jpg");
}
