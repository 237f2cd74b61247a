use vstd::prelude::*;

verus! {

#[verifier::external_type_specification]
#[verifier::external_body]
pub struct ExImageError(image::ImageError);

/// The pixel formats a texture can be built with.
#[non_exhaustive]
#[allow(non_camel_case_types)]
#[derive(Clone, Copy, Debug, PartialEq, Eq, Structural)]
pub enum TextureFormat {
    RGBA8_SRGB,
    RGBA8_UNORM,
}

/// The raw `VkFormat` value of `R8G8B8A8_UNORM`.
pub const FORMAT_R8G8B8A8_UNORM: i32 = 37;

/// The raw `VkFormat` value of `R8G8B8A8_SRGB`.
pub const FORMAT_R8G8B8A8_SRGB: i32 = 43;

pub open spec fn spec_vk_format(format: TextureFormat) -> i32 {
    match format {
        TextureFormat::RGBA8_SRGB => FORMAT_R8G8B8A8_SRGB,
        TextureFormat::RGBA8_UNORM => FORMAT_R8G8B8A8_UNORM,
    }
}

impl TextureFormat {
    /// The Vulkan format of these pixels, as its raw value.
    pub fn vk_format(self) -> (r: i32)
        ensures
            r == spec_vk_format(self),
    {
        match self {
            TextureFormat::RGBA8_SRGB => FORMAT_R8G8B8A8_SRGB,
            TextureFormat::RGBA8_UNORM => FORMAT_R8G8B8A8_UNORM,
        }
    }
}

/// Data of the wrong size for a texture: how many bytes it needs, how many came.
#[derive(Clone, Copy, Debug, PartialEq, Eq, Structural)]
pub struct TextureDataSizeError {
    pub expected: usize,
    pub actual: usize,
}

/// Checks data meant to replace a texture's pixels: its length must be the
/// texture's `dimensions[0] x dimensions[1]` texel count.
pub fn check_texture_upload(dimensions: [u32; 2], data_len: usize) -> (r: Result<
    (),
    TextureDataSizeError,
>)
    requires
        dimensions[0] * dimensions[1] <= u32::MAX,
    ensures
        r == if dimensions[0] * dimensions[1] == data_len {
            Ok::<(), TextureDataSizeError>(())
        } else {
            Err(
                TextureDataSizeError {
                    expected: (dimensions[0] * dimensions[1]) as usize,
                    actual: data_len,
                },
            )
        },
{
    let expected = dimensions[0] * dimensions[1];
    let expected = expected as usize;
    if expected != data_len {
        Err(TextureDataSizeError { expected, actual: data_len })
    } else {
        Ok(())
    }
}

/// The texture bound where a material names none: 2x2 RGBA texels, white and
/// magenta on alternating texels.
pub fn default_texture_pixels() -> (r: (Vec<u8>, u32, u32))
    ensures
        r.0@ == seq![
            255u8, 255u8, 255u8, 255u8, 255u8, 0u8, 255u8, 255u8,
            255u8, 0u8, 255u8, 255u8, 255u8, 255u8, 255u8, 255u8,
        ],
        r.1 == 2,
        r.2 == 2,
{
    let pixels = vec![
        255u8, 255u8, 255u8, 255u8, 255u8, 0u8, 255u8, 255u8,
        255u8, 0u8, 255u8, 255u8, 255u8, 255u8, 255u8, 255u8,
    ];
    (pixels, 2, 2)
}

/// The order in which a cube map's faces are loaded and laid out in its image.
pub open spec fn cubemap_face(i: int) -> Seq<char> {
    if i == 0 {
        "front"@
    } else if i == 1 {
        "back"@
    } else if i == 2 {
        "top"@
    } else if i == 3 {
        "bottom"@
    } else if i == 4 {
        "right"@
    } else {
        "left"@
    }
}

/// The file names of a cube map's six faces, in layout order, for images with
/// the given extension: `front.<extension>`, `back.<extension>`, and so on.
pub fn cubemap_face_files(extension: &str) -> (r: Vec<String>)
    ensures
        r@.len() == 6,
        forall|i: int| 0 <= i < 6 ==> #[trigger] r@[i]@ == cubemap_face(i) + "."@ + extension@,
{
    let mut r: Vec<String> = Vec::new();
    r.push("front".to_owned().concat(".").concat(extension));
    r.push("back".to_owned().concat(".").concat(extension));
    r.push("top".to_owned().concat(".").concat(extension));
    r.push("bottom".to_owned().concat(".").concat(extension));
    r.push("right".to_owned().concat(".").concat(extension));
    r.push("left".to_owned().concat(".").concat(extension));
    r
}

/// The settings textures are built with: their pixel format.
pub struct TextureBuilder {
    pub format: TextureFormat,
}

impl TextureBuilder {
    /// Textures in sRGB RGBA.
    pub fn new() -> (r: Self)
        ensures
            r.format == TextureFormat::RGBA8_SRGB,
    {
        TextureBuilder { format: TextureFormat::RGBA8_SRGB }
    }

    pub fn with_format(self, format: TextureFormat) -> (r: Self)
        ensures
            r.format == format,
    {
        TextureBuilder { format }
    }
}

impl Default for TextureBuilder {
    fn default() -> (r: Self)
        ensures
            r.format == TextureFormat::RGBA8_SRGB,
    {
        Self::new()
    }
}

/// Where byte `k` of an RGBA image `width` texels wide comes from when the image
/// is mirrored left to right: the same channel of the texel at the mirrored column
/// of the same row.
pub open spec fn mirrored_index(k: int, width: int) -> int {
    let texel = k / 4;
    let row = texel / width;
    let column = texel % width;
    4 * (row * width + (width - 1 - column)) + k % 4
}

/// The bytes of an RGBA image mirrored left to right.
pub open spec fn mirrored_rgba(pixels: Seq<u8>, width: int) -> Seq<u8> {
    Seq::new(pixels.len(), |k: int| pixels[mirrored_index(k, width)])
}

proof fn lemma_mirrored_index_in_range(k: int, width: int, height: int)
    requires
        width > 0,
        0 <= k < 4 * width * height,
    ensures
        0 <= mirrored_index(k, width) < 4 * width * height,
{
    let texel = k / 4;
    let row = texel / width;
    let column = texel % width;
    assert(0 <= k % 4 < 4 && k == 4 * texel + k % 4) by (nonlinear_arith)
        requires
            k >= 0,
            texel == k / 4,
    ;
    assert(0 <= texel < width * height) by (nonlinear_arith)
        requires
            0 <= k < 4 * width * height,
            k == 4 * texel + k % 4,
            0 <= k % 4 < 4,
    ;
    assert(texel == row * width + column && 0 <= column < width && row >= 0) by (nonlinear_arith)
        requires
            width > 0,
            texel >= 0,
            row == texel / width,
            column == texel % width,
    ;
    assert(row < height) by (nonlinear_arith)
        requires
            width > 0,
            texel == row * width + column,
            0 <= column,
            texel < width * height,
    ;
    let m = row * width + (width - 1 - column);
    assert(0 <= m < width * height) by (nonlinear_arith)
        requires
            width > 0,
            0 <= row < height,
            0 <= column < width,
            m == row * width + (width - 1 - column),
    ;
    assert(0 <= 4 * m + k % 4 < 4 * width * height) by (nonlinear_arith)
        requires
            0 <= m < width * height,
            0 <= k % 4 < 4,
    ;
}

/// Mirrors an RGBA image of `width x height` texels left to right, as images
/// are turned before they become textures.
pub fn flip_horizontal(pixels: &Vec<u8>, width: u32, height: u32) -> (r: Vec<u8>)
    requires
        pixels@.len() == 4 * width * height,
    ensures
        r@ == mirrored_rgba(pixels@, width as int),
{
    let mut out: Vec<u8> = Vec::new();
    let len = pixels.len();
    let w = width as usize;
    let mut k: usize = 0;
    while k < len
        invariant
            len == pixels@.len(),
            len == 4 * width * height,
            w == width,
            k <= len,
            out@ =~= Seq::new(k as nat, |i: int| pixels@[mirrored_index(i, width as int)]),
        decreases len - k,
    {
        proof {
            assert(width > 0) by (nonlinear_arith)
                requires
                    k < len,
                    len == 4 * width * height,
            ;
            lemma_mirrored_index_in_range(k as int, width as int, height as int);
        }
        let texel = k / 4;
        let row = texel / w;
        let column = texel % w;
        proof {
            assert(row * w + (w - 1 - column) <= texel + w) by (nonlinear_arith)
                requires
                    w > 0,
                    row == texel / w,
                    column == texel % w,
                    texel >= 0,
            ;
        }
        let source = 4 * (row * w + (w - 1 - column)) + k % 4;
        out.push(pixels[source]);
        k = k + 1;
    }
    out
}

/// Mirroring twice brings every byte back to its place.
proof fn lemma_mirrored_index_involution(k: int, width: int)
    requires
        width > 0,
        k >= 0,
    ensures
        mirrored_index(mirrored_index(k, width), width) == k,
{
    let texel = k / 4;
    let c = k % 4;
    let row = texel / width;
    let column = texel % width;
    vstd::arithmetic::div_mod::lemma_fundamental_div_mod(k, 4);
    vstd::arithmetic::div_mod::lemma_fundamental_div_mod(texel, width);
    assert(texel >= 0 && 0 <= c < 4 && 0 <= column < width && row >= 0) by (nonlinear_arith)
        requires
            k >= 0,
            width > 0,
            texel == k / 4,
            c == k % 4,
            row == texel / width,
            column == texel % width,
    ;
    let mirrored_texel = row * width + (width - 1 - column);
    let m = 4 * mirrored_texel + c;
    assert(m == mirrored_index(k, width));
    vstd::arithmetic::div_mod::lemma_fundamental_div_mod_converse(m, 4, mirrored_texel, c);
    vstd::arithmetic::div_mod::lemma_fundamental_div_mod_converse(
        mirrored_texel,
        width,
        row,
        width - 1 - column,
    );
    assert(m / 4 == mirrored_texel && m % 4 == c);
    assert(mirrored_texel / width == row && mirrored_texel % width == width - 1 - column);
    assert(4 * (row * width + column) + c == k);
}

/// Mirroring an image twice gives the image back.
pub proof fn lemma_flip_twice_is_identity(pixels: Seq<u8>, width: nat, height: nat)
    requires
        pixels.len() == 4 * width * height,
    ensures
        mirrored_rgba(mirrored_rgba(pixels, width as int), width as int) == pixels,
{
    let once = mirrored_rgba(pixels, width as int);
    let twice = mirrored_rgba(once, width as int);
    assert forall|k: int| 0 <= k < pixels.len() implies #[trigger] twice[k] == pixels[k] by {
        assert(width > 0) by (nonlinear_arith)
            requires
                0 <= k < pixels.len(),
                pixels.len() == 4 * width * height,
        ;
        lemma_mirrored_index_in_range(k, width as int, height as int);
        lemma_mirrored_index_involution(k, width as int);
    }
    assert(twice =~= pixels);
}

/// The bytes of a cube map: the bytes of its faces, one face after the other.
pub open spec fn concat_faces(faces: Seq<Vec<u8>>) -> Seq<u8>
    decreases faces.len(),
{
    if faces.len() == 0 {
        Seq::empty()
    } else {
        concat_faces(faces.drop_last()) + faces.last()@
    }
}

/// Joins the images of a cube map's faces, given in layout order, into the data
/// of one image of six layers.
pub fn cubemap_data(faces: &Vec<Vec<u8>>) -> (r: Vec<u8>)
    requires
        concat_faces(faces@).len() <= usize::MAX,
    ensures
        r@ == concat_faces(faces@),
{
    let mut data: Vec<u8> = Vec::new();
    let mut i: usize = 0;
    while i < faces.len()
        invariant
            i <= faces@.len(),
            data@ == concat_faces(faces@.take(i as int)),
        decreases faces@.len() - i,
    {
        let face = &faces[i];
        let ghost before = data@;
        let mut j: usize = 0;
        while j < face.len()
            invariant
                j <= face@.len(),
                data@ == before + face@.take(j as int),
            decreases face@.len() - j,
        {
            data.push(face[j]);
            j = j + 1;
            proof {
                assert(face@.take(j as int) =~= face@.take(j - 1 as int).push(face@[j - 1 as int]));
            }
        }
        proof {
            assert(face@.take(j as int) =~= face@);
            assert(faces@.take(i + 1 as int).drop_last() =~= faces@.take(i as int));
        }
        i = i + 1;
    }
    proof {
        assert(faces@.take(i as int) =~= faces@);
    }
    data
}


/// What the `image` crate decodes from these bytes, as 8-bit RGBA texels row by
/// row, with the width and height; `None` where it refuses them.
pub uninterp spec fn decoded_rgba8(bytes: Seq<u8>) -> Option<(Seq<u8>, u32, u32)>;

/// `image::load_from_memory`, which guesses the format from the bytes and decodes
/// them, then `DynamicImage::into_rgba8` and `ImageBuffer::into_raw`. An RGBA
/// buffer holds four bytes per texel, which `ImageBuffer` keeps as an invariant.
#[verifier::external_body]
fn decode_rgba8(bytes: &[u8]) -> (r: Result<(Vec<u8>, u32, u32), image::ImageError>)
    ensures
        r is Ok <==> decoded_rgba8(bytes@) is Some,
        r matches Ok(t) ==> decoded_rgba8(bytes@) == Some((t.0@, t.1, t.2)) && t.0@.len() == 4
            * t.1 * t.2,
{
    let image = image::load_from_memory(bytes)?.into_rgba8();
    let (width, height) = image.dimensions();
    Ok((image.into_raw(), width, height))
}

/// The texels of an image file's bytes as a texture stores them: decoded to RGBA
/// and mirrored left to right, with the width and height.
pub open spec fn texture_pixels(bytes: Seq<u8>) -> Option<(Seq<u8>, u32, u32)> {
    match decoded_rgba8(bytes) {
        Some(d) => Some((mirrored_rgba(d.0, d.1 as int), d.1, d.2)),
        None => None,
    }
}

/// Decodes the bytes of an image file into the texels of a texture.
pub fn texture_pixels_from_bytes(bytes: &[u8]) -> (r: Result<(Vec<u8>, u32, u32), image::ImageError>)
    ensures
        r is Ok <==> decoded_rgba8(bytes@) is Some,
        r matches Ok(t) ==> texture_pixels(bytes@) == Some((t.0@, t.1, t.2)),
{
    let (pixels, width, height) = decode_rgba8(bytes)?;
    let mirrored = flip_horizontal(&pixels, width, height);
    Ok((mirrored, width, height))
}

/// Why the faces of a cube map could not be made into its image.
#[derive(Debug)]
pub enum CubemapDecodeError {
    /// A face is not an image the `image` crate can decode.
    ImageLoadError(image::ImageError),
    /// A face does not have the size of the first one.
    FaceSizeMismatch,
}

/// Whether the face at `i` decodes, to the size of the first face.
pub open spec fn face_fits(faces: Seq<Vec<u8>>, i: int) -> bool {
    &&& decoded_rgba8(faces[i]@) is Some
    &&& decoded_rgba8(faces[i]@).unwrap().1 == decoded_rgba8(faces[0]@).unwrap().1
    &&& decoded_rgba8(faces[i]@).unwrap().2 == decoded_rgba8(faces[0]@).unwrap().2
}

/// The texels of the faces, one face after the other, each as a texture stores it.
pub open spec fn concat_face_pixels(faces: Seq<Vec<u8>>) -> Seq<u8>
    decreases faces.len(),
{
    if faces.len() == 0 {
        Seq::empty()
    } else {
        concat_face_pixels(faces.drop_last()) + texture_pixels(faces.last()@).unwrap().0
    }
}

/// Decodes the files of a cube map's faces, given in layout order, into the data of
/// one image of six layers and the size of a face. The faces are taken in order,
/// and the first that does not decode, or does not have the first face's size, is
/// reported.
pub fn cubemap_from_face_bytes(faces: &Vec<Vec<u8>>) -> (r: Result<
    (Vec<u8>, u32, u32),
    CubemapDecodeError,
>)
    ensures
        r is Ok <==> forall|i: int| 0 <= i < faces@.len() ==> #[trigger] face_fits(faces@, i),
        r matches Err(CubemapDecodeError::ImageLoadError(_)) ==> exists|i: int|
            0 <= i < faces@.len() && (forall|j: int| 0 <= j < i ==> #[trigger] face_fits(faces@, j))
                && #[trigger] decoded_rgba8(faces@[i]@) is None,
        r matches Err(CubemapDecodeError::FaceSizeMismatch) ==> exists|i: int|
            0 <= i < faces@.len() && (forall|j: int| 0 <= j < i ==> #[trigger] face_fits(faces@, j))
                && decoded_rgba8(faces@[i]@) is Some && !#[trigger] face_fits(faces@, i),
        r matches Ok(t) ==> t.0@ == concat_face_pixels(faces@) && if faces@.len() == 0 {
            t.1 == 0 && t.2 == 0
        } else {
            t.1 == decoded_rgba8(faces@[0]@).unwrap().1 && t.2 == decoded_rgba8(
                faces@[0]@,
            ).unwrap().2
        },
{
    let mut data: Vec<u8> = Vec::new();
    let mut width: u32 = 0;
    let mut height: u32 = 0;
    let mut i: usize = 0;
    while i < faces.len()
        invariant
            i <= faces@.len(),
            forall|j: int| 0 <= j < i ==> #[trigger] face_fits(faces@, j),
            data@ == concat_face_pixels(faces@.take(i as int)),
            i == 0 ==> width == 0 && height == 0,
            i > 0 ==> width == decoded_rgba8(faces@[0]@).unwrap().1 && height == decoded_rgba8(
                faces@[0]@,
            ).unwrap().2,
        decreases faces@.len() - i,
    {
        let (mut pixels, w, h) = match texture_pixels_from_bytes(faces[i].as_slice()) {
            Ok(t) => t,
            Err(e) => {
                assert(!face_fits(faces@, i as int));
                return Err(CubemapDecodeError::ImageLoadError(e));
            },
        };
        if i == 0 {
            width = w;
            height = h;
        } else if w != width || h != height {
            assert(!face_fits(faces@, i as int));
            return Err(CubemapDecodeError::FaceSizeMismatch);
        }
        assert(face_fits(faces@, i as int));
        proof {
            assert(faces@.take(i + 1 as int).drop_last() =~= faces@.take(i as int));
        }
        data.append(&mut pixels);
        i = i + 1;
    }
    proof {
        assert(faces@.take(i as int) =~= faces@);
    }
    Ok((data, width, height))
}

} // verus!
