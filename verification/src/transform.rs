use vstd::prelude::*;

verus! {

// Vectors, quaternions and matrices are held as the IEEE-754 bit patterns of
// their `f32` components, in glam's component order: a vector as [x, y, z], a
// quaternion as [x, y, z, w], a matrix as its four columns one after the other.
// The arithmetic on them is glam's; the names below stand for its results. The
// crate builds glam with its `scalar-math` feature, so every machine runs glam's
// one scalar code path, whose IEEE-754 operations round the same everywhere.
// Where a result holds a NaN, its sign and payload bits are still not fixed
// across machines, so a name is owed only where it, or the result, holds none.

/// The bit pattern of 1.0.
pub const ONE_BITS: u32 = 0x3f80_0000;

/// What glam's `Vec3 + Vec3` gives on these components.
pub uninterp spec fn vec3_add(a: [u32; 3], b: [u32; 3]) -> [u32; 3];

/// What glam's component-wise `Vec3 * Vec3` gives on these components.
pub uninterp spec fn vec3_mul(a: [u32; 3], b: [u32; 3]) -> [u32; 3];

/// What glam's Hamilton product `Quat * Quat` gives on these components.
pub uninterp spec fn quat_mul(a: [u32; 4], b: [u32; 4]) -> [u32; 4];

/// What glam's `Mat4::from_scale_rotation_translation` gives on these components.
pub uninterp spec fn mat4_from_scale_rotation_translation(
    scale: [u32; 3],
    rotation: [u32; 4],
    translation: [u32; 3],
) -> [u32; 16];

/// What glam's `Mat4::to_scale_rotation_translation` gives on these components.
pub uninterp spec fn mat4_to_scale_rotation_translation(m: [u32; 16]) -> ([u32; 3], [u32; 4], [u32; 3]);

/// What glam's matrix product `Mat4 * Mat4` gives on these components.
pub uninterp spec fn mat4_mul(a: [u32; 16], b: [u32; 16]) -> [u32; 16];

/// Whether a bit pattern is one of an `f32` NaN: all exponent bits set and a
/// nonzero fraction.
pub open spec fn is_nan_bits(b: u32) -> bool {
    (b & 0x7f80_0000u32) == 0x7f80_0000u32 && (b & 0x007f_ffffu32) != 0u32
}

pub open spec fn no_nan3(v: [u32; 3]) -> bool {
    forall|i: int| 0 <= i < 3 ==> !is_nan_bits(#[trigger] v@[i])
}

pub open spec fn no_nan4(v: [u32; 4]) -> bool {
    forall|i: int| 0 <= i < 4 ==> !is_nan_bits(#[trigger] v@[i])
}

pub open spec fn no_nan16(v: [u32; 16]) -> bool {
    forall|i: int| 0 <= i < 16 ==> !is_nan_bits(#[trigger] v@[i])
}

/// Whether no component of a decomposition is a NaN.
pub open spec fn no_nan_parts(p: ([u32; 3], [u32; 4], [u32; 3])) -> bool {
    no_nan3(p.0) && no_nan4(p.1) && no_nan3(p.2)
}

/// The identity quaternion (0, 0, 0, 1).
pub open spec fn quat_identity() -> [u32; 4] {
    [0, 0, 0, ONE_BITS]
}

/// The identity matrix.
pub open spec fn mat4_identity() -> [u32; 16] {
    [ONE_BITS, 0, 0, 0, 0, ONE_BITS, 0, 0, 0, 0, ONE_BITS, 0, 0, 0, 0, ONE_BITS]
}

/// Adds two vectors with glam's `Vec3 + Vec3`; the components go through as bits.
/// The result is the named one wherever either holds no NaN.
#[verifier::external_body]
fn add_vec3(a: [u32; 3], b: [u32; 3]) -> (r: [u32; 3])
    ensures
        no_nan3(r) || no_nan3(vec3_add(a, b)) ==> r == vec3_add(a, b),
{
    let a: glam::Vec3 = bytemuck::cast(a);
    let b: glam::Vec3 = bytemuck::cast(b);
    bytemuck::cast(a + b)
}

/// Multiplies two vectors component by component with glam's `Vec3 * Vec3`.
/// The result is the named one wherever either holds no NaN.
#[verifier::external_body]
fn mul_vec3(a: [u32; 3], b: [u32; 3]) -> (r: [u32; 3])
    ensures
        no_nan3(r) || no_nan3(vec3_mul(a, b)) ==> r == vec3_mul(a, b),
{
    let a: glam::Vec3 = bytemuck::cast(a);
    let b: glam::Vec3 = bytemuck::cast(b);
    bytemuck::cast(a * b)
}

/// Multiplies two quaternions with glam's `Quat * Quat` (scalar code, see above).
/// The result is the named one wherever either holds no NaN.
#[verifier::external_body]
fn mul_quat(a: [u32; 4], b: [u32; 4]) -> (r: [u32; 4])
    ensures
        no_nan4(r) || no_nan4(quat_mul(a, b)) ==> r == quat_mul(a, b),
{
    let a: glam::Quat = bytemuck::cast(a);
    let b: glam::Quat = bytemuck::cast(b);
    bytemuck::cast(a * b)
}

/// Builds an affine matrix with glam's `Mat4::from_scale_rotation_translation`.
/// The result is the named one wherever either holds no NaN. On unit scale, the identity rotation and
/// no translation, glam's source computes each entry as `1.0 - (0 + 0)`, `0 + 0`,
/// `0 - 0` or a product of such by `1.0`, which is exactly the identity matrix.
#[verifier::external_body]
fn compose_matrix(scale: [u32; 3], rotation: [u32; 4], translation: [u32; 3]) -> (r: [u32; 16])
    ensures
        no_nan16(r) || no_nan16(mat4_from_scale_rotation_translation(scale, rotation, translation))
            ==> r == mat4_from_scale_rotation_translation(scale, rotation, translation),
        scale == [ONE_BITS, ONE_BITS, ONE_BITS] && rotation == quat_identity() && translation == [
            0u32,
            0u32,
            0u32,
        ] ==> r == mat4_identity(),
{
    let scale: glam::Vec3 = bytemuck::cast(scale);
    let rotation: glam::Quat = bytemuck::cast(rotation);
    let translation: glam::Vec3 = bytemuck::cast(translation);
    bytemuck::cast(glam::Mat4::from_scale_rotation_translation(scale, rotation, translation))
}

/// Splits an affine matrix with glam's `Mat4::to_scale_rotation_translation`
/// (scalar code, see above). The result is the named one wherever either holds no
/// NaN; the translation is the matrix's last column, copied as it is.
#[verifier::external_body]
fn decompose_matrix(m: [u32; 16]) -> (r: ([u32; 3], [u32; 4], [u32; 3]))
    ensures
        no_nan_parts(r) || no_nan_parts(mat4_to_scale_rotation_translation(m)) ==> r
            == mat4_to_scale_rotation_translation(m),
        r.2 == [m[12], m[13], m[14]],
{
    let m: glam::Mat4 = bytemuck::cast(m);
    let (scale, rotation, translation) = m.to_scale_rotation_translation();
    (bytemuck::cast(scale), bytemuck::cast(rotation), bytemuck::cast(translation))
}

/// Multiplies two matrices with glam's `Mat4 * Mat4`. The result is the named one
/// wherever either holds no NaN.
#[verifier::external_body]
fn mul_mat4(a: [u32; 16], b: [u32; 16]) -> (r: [u32; 16])
    ensures
        no_nan16(r) || no_nan16(mat4_mul(a, b)) ==> r == mat4_mul(a, b),
{
    let a: glam::Mat4 = bytemuck::cast(a);
    let b: glam::Mat4 = bytemuck::cast(b);
    bytemuck::cast(a * b)
}

#[derive(Clone, Copy)]
struct CacheData {
    is_outdated: bool,
    matrix: [u32; 16],
}

/// What a transform holds: its parts, and the matrix it last computed together
/// with whether the parts have changed since.
pub struct TransformView {
    pub translation: [u32; 3],
    pub rotation: [u32; 4],
    pub scale: [u32; 3],
    pub is_outdated: bool,
    pub cached_matrix: [u32; 16],
}

/// The placement of an object: translation, rotation and scale, with its matrix
/// computed on demand and kept until a part changes.
#[derive(Clone)]
pub struct Transform {
    translation: [u32; 3],
    rotation: [u32; 4],
    scale: [u32; 3],
    cache: CacheData,
}

impl View for Transform {
    type V = TransformView;

    closed spec fn view(&self) -> TransformView {
        TransformView {
            translation: self.translation,
            rotation: self.rotation,
            scale: self.scale,
            is_outdated: self.cache.is_outdated,
            cached_matrix: self.cache.matrix,
        }
    }
}

/// Whether `r` is what a transform answers for its matrix: the kept matrix while
/// no part changed, else the matrix built from the parts (named where it holds no
/// NaN).
pub open spec fn answers(t: TransformView, r: [u32; 16]) -> bool {
    &&& !t.is_outdated ==> r == t.cached_matrix
    &&& t.is_outdated && (no_nan16(r) || no_nan16(
        mat4_from_scale_rotation_translation(t.scale, t.rotation, t.translation),
    )) ==> r == mat4_from_scale_rotation_translation(t.scale, t.rotation, t.translation)
}

/// Whether the kept matrix of a transform, when it is current and holds no NaN, is
/// the one built from the parts.
pub open spec fn coherent(t: TransformView) -> bool {
    t.is_outdated || (no_nan16(t.cached_matrix) || no_nan16(
        mat4_from_scale_rotation_translation(t.scale, t.rotation, t.translation),
    ) ==> t.cached_matrix == mat4_from_scale_rotation_translation(
        t.scale,
        t.rotation,
        t.translation,
    ))
}

/// The view of a transform that was never changed.
pub open spec fn default_view() -> TransformView {
    TransformView {
        translation: [0u32, 0u32, 0u32],
        rotation: quat_identity(),
        scale: [ONE_BITS, ONE_BITS, ONE_BITS],
        is_outdated: false,
        cached_matrix: mat4_identity(),
    }
}

proof fn lemma_identity_has_no_nan()
    ensures
        no_nan16(mat4_identity()),
{
    assert(!is_nan_bits(0x3f80_0000u32) && !is_nan_bits(0u32)) by (bit_vector);
    assert forall|i: int| 0 <= i < 16 implies !is_nan_bits(#[trigger] mat4_identity()@[i]) by {
        assert(mat4_identity()@[i] == 0u32 || mat4_identity()@[i] == ONE_BITS);
    }
}

impl Transform {
    /// No translation, no rotation, unit scale; its matrix is the identity, which
    /// is also what glam builds from these parts.
    pub fn new() -> (r: Transform)
        ensures
            r@ == default_view(),
            coherent(r@),
    {
        let scale: [u32; 3] = [ONE_BITS, ONE_BITS, ONE_BITS];
        let rotation: [u32; 4] = [0, 0, 0, ONE_BITS];
        let translation: [u32; 3] = [0, 0, 0];
        let matrix = compose_matrix(scale, rotation, translation);
        proof {
            lemma_identity_has_no_nan();
        }
        Transform {
            translation,
            rotation,
            scale,
            cache: CacheData { is_outdated: false, matrix },
        }
    }

    /// The transform a matrix describes: its parts are the matrix's decomposition,
    /// and the matrix itself is kept as is.
    pub fn from_matrix(matrix: [u32; 16]) -> (r: Transform)
        ensures
            no_nan_parts((r@.scale, r@.rotation, r@.translation)) || no_nan_parts(
                mat4_to_scale_rotation_translation(matrix),
            ) ==> (r@.scale, r@.rotation, r@.translation) == mat4_to_scale_rotation_translation(
                matrix,
            ),
            r@.translation == [matrix[12], matrix[13], matrix[14]],
            !r@.is_outdated,
            r@.cached_matrix == matrix,
    {
        let (scale, rotation, translation) = decompose_matrix(matrix);
        Transform {
            translation,
            rotation,
            scale,
            cache: CacheData { is_outdated: false, matrix },
        }
    }

    pub fn translation(&self) -> (r: &[u32; 3])
        ensures
            *r == self@.translation,
    {
        &self.translation
    }

    pub fn rotation(&self) -> (r: &[u32; 4])
        ensures
            *r == self@.rotation,
    {
        &self.rotation
    }

    pub fn scale(&self) -> (r: &[u32; 3])
        ensures
            *r == self@.scale,
    {
        &self.scale
    }

    /// The matrix of this transform: built from the parts when they changed since
    /// the last computation, and then kept; the kept one otherwise.
    pub fn matrix(&mut self) -> (r: [u32; 16])
        ensures
            answers(old(self)@, r),
            final(self)@ == (TransformView { is_outdated: false, cached_matrix: r, ..old(self)@ }),
            coherent(old(self)@) ==> coherent(final(self)@),
    {
        if self.cache.is_outdated {
            self.cache.matrix = compose_matrix(self.scale, self.rotation, self.translation);
            self.cache.is_outdated = false;
        }
        self.cache.matrix
    }

    /// The matrix as last computed, without looking at later changes of the parts.
    pub fn cached_matrix(&self) -> (r: [u32; 16])
        ensures
            r == self@.cached_matrix,
    {
        self.cache.matrix
    }

    pub fn set_translation(&mut self, translation: &[u32; 3])
        ensures
            final(self)@ == (TransformView {
                translation: *translation,
                is_outdated: true,
                ..old(self)@
            }),
            coherent(final(self)@),
    {
        self.translation = *translation;
        self.cache.is_outdated = true;
    }

    pub fn set_rotation(&mut self, rotation: &[u32; 4])
        ensures
            final(self)@ == (TransformView { rotation: *rotation, is_outdated: true, ..old(self)@ }),
            coherent(final(self)@),
    {
        self.rotation = *rotation;
        self.cache.is_outdated = true;
    }

    pub fn set_scale(&mut self, scale: &[u32; 3])
        ensures
            final(self)@ == (TransformView { scale: *scale, is_outdated: true, ..old(self)@ }),
            coherent(final(self)@),
    {
        self.scale = *scale;
        self.cache.is_outdated = true;
    }

    /// Moves by `translation`.
    pub fn translate(&mut self, translation: &[u32; 3])
        ensures
            final(self)@.rotation == old(self)@.rotation,
            final(self)@.scale == old(self)@.scale,
            final(self)@.cached_matrix == old(self)@.cached_matrix,
            final(self)@.is_outdated,
            no_nan3(final(self)@.translation) || no_nan3(
                vec3_add(old(self)@.translation, *translation),
            ) ==> final(self)@.translation == vec3_add(
                old(self)@.translation,
                *translation,
            ),
            coherent(final(self)@),
    {
        self.translation = add_vec3(self.translation, *translation);
        self.cache.is_outdated = true;
    }

    /// Turns by `rotation`, applied after the current rotation's frame: the new
    /// rotation is the current one times `rotation`.
    pub fn rotate(&mut self, rotation: &[u32; 4])
        ensures
            final(self)@.translation == old(self)@.translation,
            final(self)@.scale == old(self)@.scale,
            final(self)@.cached_matrix == old(self)@.cached_matrix,
            final(self)@.is_outdated,
            no_nan4(final(self)@.rotation) || no_nan4(quat_mul(old(self)@.rotation, *rotation))
                ==> final(self)@.rotation == quat_mul(
                old(self)@.rotation,
                *rotation,
            ),
            coherent(final(self)@),
    {
        self.rotation = mul_quat(self.rotation, *rotation);
        self.cache.is_outdated = true;
    }

    /// Scales each axis by the matching component of `scale`.
    pub fn rescale(&mut self, scale: &[u32; 3])
        ensures
            final(self)@.translation == old(self)@.translation,
            final(self)@.rotation == old(self)@.rotation,
            final(self)@.cached_matrix == old(self)@.cached_matrix,
            final(self)@.is_outdated,
            no_nan3(final(self)@.scale) || no_nan3(vec3_mul(old(self)@.scale, *scale))
                ==> final(self)@.scale == vec3_mul(
                old(self)@.scale,
                *scale,
            ),
            coherent(final(self)@),
    {
        self.scale = mul_vec3(self.scale, *scale);
        self.cache.is_outdated = true;
    }

    /// The transform whose matrix is this one's matrix times `rhs`'s.
    pub fn combine(self, rhs: Transform) -> (r: Transform)
        ensures
            !r@.is_outdated,
            exists|ms: [u32; 16], mr: [u32; 16]|
                #![trigger answers(self@, ms), answers(rhs@, mr)]
                answers(self@, ms) && answers(rhs@, mr) && (no_nan16(r@.cached_matrix)
                    || no_nan16(mat4_mul(ms, mr)) ==> r@.cached_matrix == mat4_mul(ms, mr)),
            no_nan_parts((r@.scale, r@.rotation, r@.translation)) || no_nan_parts(
                mat4_to_scale_rotation_translation(r@.cached_matrix),
            ) ==> (r@.scale, r@.rotation, r@.translation) == mat4_to_scale_rotation_translation(
                r@.cached_matrix,
            ),
            r@.translation == [r@.cached_matrix[12], r@.cached_matrix[13], r@.cached_matrix[14]],
    {
        let mut lhs = self;
        let mut rhs = rhs;
        let ms = lhs.matrix();
        let mr = rhs.matrix();
        let m = mul_mat4(ms, mr);
        let r = Transform::from_matrix(m);
        assert(answers(self@, ms) && answers(rhs@, mr));
        r
    }
}

impl Default for Transform {
    fn default() -> (r: Transform)
        ensures
            r@ == default_view(),
            coherent(r@),
    {
        Transform::new()
    }
}

/// A transform that was never changed answers the identity matrix.
pub proof fn lemma_default_matrix_identity(t: TransformView, r: [u32; 16])
    requires
        t == default_view(),
        answers(t, r),
    ensures
        r == mat4_identity(),
{
}

/// After any change of a part, the matrix answered is the one built from the
/// current parts, wherever that one holds no NaN.
pub proof fn lemma_matrix_follows_parts(t: TransformView, r: [u32; 16])
    requires
        t.is_outdated,
        answers(t, r),
        no_nan16(mat4_from_scale_rotation_translation(t.scale, t.rotation, t.translation)),
    ensures
        r == mat4_from_scale_rotation_translation(t.scale, t.rotation, t.translation),
{
}

/// The matrix a coherent transform answers is always the one built from its
/// current parts, wherever that one holds no NaN. A new transform is coherent,
/// and every setter, `translate`, `rotate`, `rescale` and `matrix` keep it so.
pub proof fn lemma_coherent_matrix_is_composition(t: TransformView, r: [u32; 16])
    requires
        coherent(t),
        answers(t, r),
        no_nan16(mat4_from_scale_rotation_translation(t.scale, t.rotation, t.translation)),
    ensures
        r == mat4_from_scale_rotation_translation(t.scale, t.rotation, t.translation),
{
}

} // verus!
