use aphanite::service::yggdrasil::texture::{
    plan_texture_removal, plan_texture_upload, process_texture_upload, wash_rgba, LowercaseTexture,
    TextureSlots, UploadFailure,
};
use aphanite::service::yggdrasil::types::SkinModel;

fn png_rgba(w: u32, h: u32, fill: [u8; 4]) -> Vec<u8> {
    let mut img = image::RgbaImage::new(w, h);
    for p in img.pixels_mut() {
        *p = image::Rgba(fill);
    }
    let mut out = std::io::Cursor::new(Vec::new());
    img.write_to(&mut out, image::ImageFormat::Png).unwrap();
    out.into_inner()
}

fn decode(png: &[u8]) -> image::RgbaImage {
    image::load_from_memory_with_format(png, image::ImageFormat::Png).unwrap().to_rgba8()
}

fn plain(r: Result<aphanite::service::yggdrasil::texture::ProcessedTexture, UploadFailure>) -> (u16, String) {
    match r {
        Err(UploadFailure::Plain(s, m)) => (s, m),
        _ => panic!("expected a plain failure"),
    }
}

#[test]
fn skin_upload_is_reencoded() {
    let png = png_rgba(64, 32, [10, 20, 30, 255]);
    let t = process_texture_upload(LowercaseTexture::Skin, Some("slim"), Some(&png)).ok().unwrap();
    assert_eq!((t.width, t.height), (64, 32));
    assert_eq!(t.model, SkinModel::Slim);
    let img = decode(&t.png);
    assert_eq!(img.dimensions(), (64, 32));
    assert_eq!(img.get_pixel(5, 5).0, [10, 20, 30, 255]);
}

#[test]
fn skin_models() {
    let png = png_rgba(64, 64, [1, 2, 3, 255]);
    let t = process_texture_upload(LowercaseTexture::Skin, None, Some(&png)).ok().unwrap();
    assert_eq!(t.model, SkinModel::Default);
    let t = process_texture_upload(LowercaseTexture::Skin, Some("classic"), Some(&png)).ok().unwrap();
    assert_eq!(t.model, SkinModel::Default);
    let (s, m) = plain(process_texture_upload(LowercaseTexture::Skin, Some("wide"), Some(&png)));
    assert_eq!(s, 400);
    assert_eq!(m, "Invalid skin model. Allowed values are: default, classic, slim");
}

#[test]
fn legacy_cape_is_widened() {
    let png = png_rgba(22, 17, [200, 100, 50, 255]);
    let t = process_texture_upload(LowercaseTexture::Cape, None, Some(&png)).ok().unwrap();
    assert_eq!((t.width, t.height), (64, 32));
    let img = decode(&t.png);
    assert_eq!(img.get_pixel(21, 16).0, [200, 100, 50, 255]);
    assert_eq!(img.get_pixel(22, 0).0, [0, 0, 0, 0]);
    assert_eq!(img.get_pixel(0, 17).0, [0, 0, 0, 0]);
}

#[test]
fn legacy_size_is_refused_for_skins() {
    let png = png_rgba(22, 17, [0, 0, 0, 255]);
    let (s, m) = plain(process_texture_upload(LowercaseTexture::Skin, None, Some(&png)));
    assert_eq!(s, 400);
    assert!(m.starts_with("Picture does not match size requirements."));
}

#[test]
fn oversized_picture_is_refused() {
    let png = png_rgba(576, 64, [0, 0, 0, 255]);
    let (s, m) = plain(process_texture_upload(LowercaseTexture::Skin, None, Some(&png)));
    assert_eq!(s, 413);
    assert_eq!(m, "Picture size exceed the max of 512x512 pixels.");
}

#[test]
fn garbage_is_refused() {
    let (s, m) = plain(process_texture_upload(LowercaseTexture::Skin, None, Some(b"not a png")));
    assert_eq!(s, 400);
    assert!(m.starts_with("Error decoding PNG data: "));
}

#[test]
fn missing_file_is_a_bad_request() {
    match process_texture_upload(LowercaseTexture::Skin, None, None) {
        Err(UploadFailure::Yggdrasil(e)) => assert_eq!(e.into_response_parts().0, 400),
        _ => panic!("expected a Yggdrasil failure"),
    }
}

#[test]
fn wash_copies_into_the_corner() {
    let src: Vec<u8> = (0..16).collect(); // 2x2 RGBA
    let dst = wash_rgba(&src, 2, 2, 3, 3);
    assert_eq!(dst.len(), 36);
    assert_eq!(&dst[0..8], &src[0..8]);
    assert_eq!(&dst[8..12], &[0, 0, 0, 0]);
    assert_eq!(&dst[12..20], &src[8..16]);
    assert!(dst[24..36].iter().all(|b| *b == 0));
}

#[test]
fn upload_then_remove_slots() {
    let (slots, old) = plan_texture_upload(None, LowercaseTexture::Skin, SkinModel::Slim, 11);
    assert_eq!(old, None);
    assert_eq!(slots.skin_file, Some(11));
    assert_eq!(slots.cape_file, None);
    assert_eq!(slots.skin_model, SkinModel::Slim);
    let (slots2, old2) = plan_texture_upload(Some(slots), LowercaseTexture::Skin, SkinModel::Default, 12);
    assert_eq!(old2, Some(11));
    assert_eq!(slots2.skin_file, Some(12));
    let (slots3, removed) = plan_texture_removal(slots2, LowercaseTexture::Skin);
    assert_eq!(removed, Some(12));
    assert_eq!(slots3.skin_file, None);
    let _unused: TextureSlots = slots3;
}
