use tacagaita::commands::GlCmd;
use tacagaita::commands::HandleArena;
use tacagaita::textures::Texture;
use tacagaita::textures::TextureDescriptor;
use tacagaita::textures::TextureError;
use tacagaita::textures::TextureSource;

fn png_bytes_1x2(topr: u8, bottomr: u8) -> Vec<u8> {
    let mut img = image::RgbImage::new(1, 2);
    img.put_pixel(0, 0, image::Rgb([topr, 20, 30]));
    img.put_pixel(0, 1, image::Rgb([bottomr, 50, 60]));
    let mut bytes: Vec<u8> = Vec::new();
    img.write_to(
        &mut std::io::Cursor::new(&mut bytes),
        image::ImageFormat::Png,
    )
    .unwrap();
    bytes
}

#[test]
fn descriptor_builds_relative_path() {
    let d = TextureDescriptor::new("wall.jpg", "texture_1");
    assert_eq!(d.name.as_str(), "src/textures/wall.jpg");
    assert_eq!(d.uniform.as_str(), "texture_1");
}

#[test]
fn batch_with_one_bad_source_fails_whole_and_emits_nothing() {
    let mut arena = HandleArena::new();
    let mut log: Vec<GlCmd> = Vec::new();
    let sources = vec![
        TextureSource {
            bytes: png_bytes_1x2(10, 40),
            uniform: String::from("texture_1"),
        },
        TextureSource {
            bytes: vec![1u8, 2, 3, 4],
            uniform: String::from("texture_2"),
        },
    ];
    let r = Texture::from_files(&sources, &mut arena, &mut log);
    // all-or-nothing: zero textures, no command issued
    assert!(matches!(r, Err(TextureError::Decode { .. })));
    assert!(log.is_empty());
}

#[test]
fn unsupported_channel_layout_is_a_decode_error() {
    let mut img = image::GrayImage::new(2, 2);
    img.put_pixel(0, 0, image::Luma([99u8]));
    let mut bytes: Vec<u8> = Vec::new();
    img.write_to(
        &mut std::io::Cursor::new(&mut bytes),
        image::ImageFormat::Png,
    )
    .unwrap();

    let mut arena = HandleArena::new();
    let mut log: Vec<GlCmd> = Vec::new();
    let sources = vec![TextureSource {
        bytes,
        uniform: String::from("texture_1"),
    }];
    // a grayscale image decodes, but its layout is unsupported: the batch
    // fails with a typed decode error instead of aborting
    let r = Texture::from_files(&sources, &mut arena, &mut log);
    assert!(matches!(r, Err(TextureError::Decode { .. })));
    assert!(log.is_empty());
}

#[test]
fn good_batch_uploads_every_image_in_order() {
    let mut arena = HandleArena::new();
    let mut log: Vec<GlCmd> = Vec::new();
    let sources = vec![
        TextureSource {
            bytes: png_bytes_1x2(10, 40),
            uniform: String::from("texture_1"),
        },
        TextureSource {
            bytes: png_bytes_1x2(11, 41),
            uniform: String::from("texture_2"),
        },
    ];
    let textures = Texture::from_files(&sources, &mut arena, &mut log).unwrap();
    assert_eq!(textures.len(), 2);
    assert_eq!(textures[0].uniform().as_str(), "texture_1");
    assert_eq!(textures[1].uniform().as_str(), "texture_2");
    assert_ne!(textures[0].id(), textures[1].id());
    // nine commands per image
    assert_eq!(log.len(), 18);
    assert!(matches!(log[0], GlCmd::GenTexture { texture } if texture == textures[0].id()));
    assert!(matches!(log[8], GlCmd::BindTexture { texture: 0 }));
    assert!(matches!(log[9], GlCmd::GenTexture { texture } if texture == textures[1].id()));
    let uploads = log
        .iter()
        .filter(|c| matches!(c, GlCmd::TexImage2D { .. }))
        .count();
    assert_eq!(uploads, 2);
}

#[test]
fn decoded_pixels_are_vertically_flipped() {
    let mut arena = HandleArena::new();
    let mut log: Vec<GlCmd> = Vec::new();
    let sources = vec![TextureSource {
        bytes: png_bytes_1x2(10, 40),
        uniform: String::from("texture_1"),
    }];
    let _textures = Texture::from_files(&sources, &mut arena, &mut log).unwrap();
    let upload = log
        .iter()
        .find(|c| matches!(c, GlCmd::TexImage2D { .. }))
        .unwrap();
    match upload {
        GlCmd::TexImage2D {
            width,
            height,
            channels,
            pixels,
        } => {
            assert_eq!((*width, *height, *channels), (1, 2, 3));
            // image row 0 held (10, 20, 30); after the flip it is the last row
            assert_eq!(pixels.as_slice(), &[40, 50, 60, 10, 20, 30]);
        }
        _ => unreachable!(),
    }
}
