//! Texture loading: decoding image bytes and uploading each image as a 2D
//! texture resource, tagged with the sampler-uniform name it binds to.
//!
//! Loading is two-phase and all-or-nothing: first every byte buffer is
//! decoded (a single failure aborts the whole batch before any command is
//! emitted), then each decoded image is uploaded with repeat wrapping,
//! linear filtering and generated mipmaps.

use vstd::prelude::*;
use vstd::string::StringExecFns;

verus! {

use crate::commands::GlCmd;
use crate::commands::HandleArena;
use crate::commands::TexParamName;
use crate::commands::TexParamValue;
use crate::commands::added;
use crate::commands::extends;

/// The decode-error type of the `image` crate, opaque to the library.
#[verifier::external_type_specification]
#[verifier::external_body]
pub struct ExImageError(image::ImageError);

/// What a decoded image holds: dimensions, channel count and the raw pixel
/// bytes, rows bottom-up (vertically flipped relative to the file, so that
/// pixel row 0 maps to texture-coordinate row 0).
pub ghost struct ImageModel {
    pub width: u32,
    pub height: u32,
    pub channels: u32,
    pub pixels: Seq<u8>,
}

/// A decoded image held as plain values.
pub struct ImageData {
    pub width: u32,
    pub height: u32,
    pub channels: u32,
    pub pixels: Vec<u8>,
}

impl View for ImageData {
    type V = ImageModel;

    open spec fn view(&self) -> ImageModel {
        ImageModel {
            width: self.width,
            height: self.height,
            channels: self.channels,
            pixels: self.pixels@,
        }
    }
}

/// What decoding a byte buffer returns: `None` when the bytes are not a
/// decodable image or decode to a channel layout other than 8-bit RGB or
/// RGBA, otherwise the decoded, vertically flipped image. The result
/// depends on the bytes alone.
pub uninterp spec fn decoded_image_of(bytes: Seq<u8>) -> Option<ImageModel>;

/// Relies on `image::load_from_memory` followed by `DynamicImage::flipv`
/// and extraction of the raw 8-bit RGB/RGBA buffer; the result depends on
/// the bytes alone. A decoded channel layout other than 8-bit RGB or RGBA
/// is unsupported and comes back as the crate's own unsupported-color
/// error, never as a normal return.
#[verifier::external_body]
fn decode_texture_bytes(bytes: &Vec<u8>) -> (r: Result<ImageData, image::ImageError>)
    ensures
        r is Ok <==> decoded_image_of(bytes@) is Some,
        r matches Ok(d) ==> d@ == decoded_image_of(bytes@)->0,
        r matches Ok(d) ==> d@.channels == 3 || d@.channels == 4,
{
    let img = match image::load_from_memory(bytes.as_slice()) {
        Ok(i) => i.flipv(),
        Err(e) => return Err(e),
    };
    let (channels, pixels) = match (img.as_rgb8(), img.as_rgba8()) {
        (Some(buffer), _) => (3u32, buffer.as_raw().clone()),
        (_, Some(buffer)) => (4u32, buffer.as_raw().clone()),
        _ => return Err(image::ImageError::Unsupported(
            image::error::UnsupportedError::from_format_and_kind(
                image::error::ImageFormatHint::Unknown,
                image::error::UnsupportedErrorKind::Color(img.color().into())))),
    };
    Ok(ImageData { width: img.width(), height: img.height(), channels, pixels })
}

/// Locates a texture image by name under the textures directory and names
/// the sampler uniform it will be bound to.
pub struct TextureDescriptor {
    pub name: String,
    pub uniform: String,
}

impl TextureDescriptor {
    /// Builds the relative path `src/textures/<name>` of the image file and
    /// records the sampler-uniform name.
    pub fn new(name: &str, uniform: &str) -> (r: TextureDescriptor)
        ensures
            r.name@ == "src/textures/"@ + name@,
            r.uniform@ == uniform@,
    {
        TextureDescriptor {
            name: String::from_str("src/textures/").concat(name),
            uniform: uniform.to_owned(),
        }
    }
}

/// The bytes of one image file together with the sampler-uniform name the
/// resulting texture binds to.
pub struct TextureSource {
    pub bytes: Vec<u8>,
    pub uniform: String,
}

/// Why a texture batch failed: the file could not be read (reported by the
/// caller that did the reading), or its bytes could not be decoded.
#[derive(Debug)]
pub enum TextureError {
    Load { path: String },
    Decode { error: image::ImageError },
}

/// A 2D texture resource, tagged with its sampler-uniform name. Created
/// once at load time and immutable thereafter.
pub struct Texture {
    id: u32,
    uniform: String,
}

impl Texture {
    pub closed spec fn id_spec(&self) -> u32 {
        self.id
    }

    pub closed spec fn uniform_spec(&self) -> Seq<char> {
        self.uniform@
    }

    /// The virtual handle of the underlying texture object.
    pub fn id(&self) -> (r: u32)
        ensures
            r == self.id_spec(),
    {
        self.id
    }

    /// The sampler-uniform name this texture binds to.
    pub fn uniform(&self) -> (r: &String)
        ensures
            r@ == self.uniform_spec(),
    {
        &self.uniform
    }

    /// Decodes every source and uploads every decoded image, all-or-nothing:
    /// returns the textures in source order, or the decode error of the
    /// first undecodable source, with no texture created and no command
    /// emitted.
    pub fn from_files(sources: &Vec<TextureSource>, arena: &mut HandleArena, log: &mut Vec<GlCmd>)
        -> (r: Result<Vec<Texture>, TextureError>)
        requires
            old(arena).wf(),
            old(arena).next_id() + sources@.len() <= u32::MAX,
        ensures
            final(arena).wf(),
            r is Ok <==> (forall|i: int|
                0 <= i < sources@.len() ==> decoded_image_of(#[trigger] sources@[i].bytes@) is Some),
            r matches Ok(textures) ==> {
                &&& textures@.len() == sources@.len()
                &&& final(arena).next_id() == old(arena).next_id() + sources@.len()
                &&& extends(old(log)@, final(log)@)
                &&& added(old(log)@, final(log)@).len() == 9 * sources@.len()
                &&& forall|i: int|
                    0 <= i < sources@.len() ==> {
                        &&& (#[trigger] textures@[i]).id_spec() == old(arena).next_id() + i
                        &&& textures@[i].uniform_spec() == sources@[i].uniform@
                        &&& upload_cmds_at(
                            textures@[i].id_spec(),
                            decoded_image_of(sources@[i].bytes@)->0,
                            final(log)@,
                            old(log)@.len() + 9 * i,
                        )
                    }
            },
            r matches Err(e) ==> {
                &&& e is Decode
                &&& final(log)@ == old(log)@
                &&& *final(arena) == *old(arena)
                &&& exists|i: int|
                    {
                        &&& 0 <= i < sources@.len()
                        &&& decoded_image_of(#[trigger] sources@[i].bytes@) is None
                        &&& forall|j: int|
                            0 <= j < i ==> decoded_image_of(#[trigger] sources@[j].bytes@) is Some
                    }
            },
    {
        let images = match load_all(sources) {
            Ok(images) => images,
            Err(e) => {
                return Err(e);
            },
        };
        Ok(upload_all(&images, sources, arena, log))
    }
}

/// `log` holds, starting at `at`, the nine commands that upload `img` as
/// texture `id`: generate and bind, four sampling parameters (repeat
/// wrapping and linear filtering on both axes), the pixel upload, mipmap
/// generation, and an unbind.
pub open spec fn upload_cmds_at(id: u32, img: ImageModel, log: Seq<GlCmd>, at: int) -> bool {
    &&& at >= 0
    &&& log.len() >= at + 9
    &&& log[at] == (GlCmd::GenTexture { texture: id })
    &&& log[at + 1] == (GlCmd::BindTexture { texture: id })
    &&& log[at + 2] == (GlCmd::TexParameter {
        name: TexParamName::WrapS,
        value: TexParamValue::Repeat,
    })
    &&& log[at + 3] == (GlCmd::TexParameter {
        name: TexParamName::WrapT,
        value: TexParamValue::Repeat,
    })
    &&& log[at + 4] == (GlCmd::TexParameter {
        name: TexParamName::MinFilter,
        value: TexParamValue::Linear,
    })
    &&& log[at + 5] == (GlCmd::TexParameter {
        name: TexParamName::MagFilter,
        value: TexParamValue::Linear,
    })
    &&& (log[at + 6] matches GlCmd::TexImage2D { width, height, channels, pixels }
        && width == img.width && height == img.height && channels == img.channels
        && pixels@ == img.pixels)
    &&& log[at + 7] == (GlCmd::GenerateMipmap)
    &&& log[at + 8] == (GlCmd::BindTexture { texture: 0 })
}

/// Upload commands stay where they are when the log only grows.
pub proof fn lemma_upload_cmds_extend(id: u32, img: ImageModel, a: Seq<GlCmd>, b: Seq<GlCmd>, at: int)
    requires
        upload_cmds_at(id, img, a, at),
        crate::commands::extends(a, b),
    ensures
        upload_cmds_at(id, img, b, at),
{
    crate::commands::lemma_extends_index(a, b);
}

/// Decodes every source in order; the first source that does not decode
/// aborts the batch with its decode error.
fn load_all(sources: &Vec<TextureSource>) -> (r: Result<Vec<ImageData>, TextureError>)
    ensures
        r is Ok <==> (forall|i: int|
            0 <= i < sources@.len() ==> decoded_image_of(#[trigger] sources@[i].bytes@) is Some),
        r matches Ok(images) ==> {
            &&& images@.len() == sources@.len()
            &&& forall|i: int|
                0 <= i < sources@.len() ==> (#[trigger] images@[i])@ == decoded_image_of(
                    sources@[i].bytes@,
                )->0 && (images@[i]@.channels == 3 || images@[i]@.channels == 4)
        },
        r matches Err(e) ==> e is Decode && (exists|i: int|
            {
                &&& 0 <= i < sources@.len()
                &&& decoded_image_of(#[trigger] sources@[i].bytes@) is None
                &&& forall|j: int|
                    0 <= j < i ==> decoded_image_of(#[trigger] sources@[j].bytes@) is Some
            }),
{
    let mut images: Vec<ImageData> = Vec::new();
    let mut i: usize = 0;
    while i < sources.len()
        invariant
            i <= sources@.len(),
            images@.len() == i,
            forall|j: int|
                0 <= j < i ==> decoded_image_of(#[trigger] sources@[j].bytes@) is Some,
            forall|j: int|
                0 <= j < i ==> (#[trigger] images@[j])@ == decoded_image_of(sources@[j].bytes@)->0
                    && (images@[j]@.channels == 3 || images@[j]@.channels == 4),
        decreases sources@.len() - i,
    {
        match decode_texture_bytes(&sources[i].bytes) {
            Ok(image) => {
                images.push(image);
            },
            Err(e) => {
                return Err(TextureError::Decode { error: e });
            },
        }
        i = i + 1;
    }
    Ok(images)
}

/// Uploads every decoded image in order, nine commands each, and tags each
/// resulting texture with its source's uniform name.
fn upload_all(
    images: &Vec<ImageData>,
    sources: &Vec<TextureSource>,
    arena: &mut HandleArena,
    log: &mut Vec<GlCmd>,
) -> (textures: Vec<Texture>)
    requires
        old(arena).wf(),
        old(arena).next_id() + images@.len() <= u32::MAX,
        images@.len() == sources@.len(),
    ensures
        final(arena).wf(),
        final(arena).next_id() == old(arena).next_id() + images@.len(),
        textures@.len() == images@.len(),
        extends(old(log)@, final(log)@),
        added(old(log)@, final(log)@).len() == 9 * images@.len(),
        forall|i: int|
            0 <= i < images@.len() ==> {
                &&& (#[trigger] textures@[i]).id_spec() == old(arena).next_id() + i
                &&& textures@[i].uniform_spec() == sources@[i].uniform@
                &&& upload_cmds_at(
                    textures@[i].id_spec(),
                    images@[i]@,
                    final(log)@,
                    old(log)@.len() + 9 * i,
                )
            },
{
    let ghost log0 = log@;
    let ghost base = log@.len() as int;
    let ghost id0 = old(arena).next_id();
    let mut textures: Vec<Texture> = Vec::new();
    let mut i: usize = 0;
    while i < images.len()
        invariant
            i <= images@.len(),
            images@.len() == sources@.len(),
            arena.wf(),
            id0 + images@.len() <= u32::MAX,
            arena.next_id() == id0 + i,
            textures@.len() == i,
            log0.len() == base,
            log@.len() == base + 9 * i,
            log0.is_prefix_of(log@),
            forall|j: int|
                0 <= j < i ==> {
                    &&& (#[trigger] textures@[j]).id_spec() == id0 + j
                    &&& textures@[j].uniform_spec() == sources@[j].uniform@
                    &&& upload_cmds_at(textures@[j].id_spec(), images@[j]@, log@, base + 9 * j)
                },
        decreases images@.len() - i,
    {
        let ghost prev = log@;
        let id = arena.fresh();
        log.push(GlCmd::GenTexture { texture: id });
        log.push(GlCmd::BindTexture { texture: id });
        log.push(GlCmd::TexParameter { name: TexParamName::WrapS, value: TexParamValue::Repeat });
        log.push(GlCmd::TexParameter { name: TexParamName::WrapT, value: TexParamValue::Repeat });
        log.push(
            GlCmd::TexParameter { name: TexParamName::MinFilter, value: TexParamValue::Linear },
        );
        log.push(
            GlCmd::TexParameter { name: TexParamName::MagFilter, value: TexParamValue::Linear },
        );
        let img = &images[i];
        log.push(
            GlCmd::TexImage2D {
                width: img.width,
                height: img.height,
                channels: img.channels,
                pixels: crate::linalg::copy_u8_vec(&img.pixels),
            },
        );
        log.push(GlCmd::GenerateMipmap);
        log.push(GlCmd::BindTexture { texture: 0 });
        textures.push(Texture { id, uniform: sources[i].uniform.clone() });
        proof {
            assert(forall|p: int| 0 <= p < prev.len() ==> log@[p] == prev[p]);
        }
        i = i + 1;
    }
    proof {
        assert(added(log0, log@) =~= log@.skip(base));
    }
    textures
}

} // verus!
