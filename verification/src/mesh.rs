use vstd::prelude::*;
use crate::bits::{Vec3, ONE_BITS, ZERO_BITS};
use crate::matrix::{spec_identity4, Mat4};
use crate::vertex::Vertex;

verus! {

/// The raw arrays for one sub-model, as the OBJ loader hands them over:
/// flat position, normal and texture-coordinate component arrays (three,
/// three and two components per source vertex, each component a
/// single-precision bit pattern), and the per-face-vertex index array.
/// The normal and texture-coordinate arrays may be empty or short.
#[derive(Clone, Debug)]
pub struct RawModel {
    pub positions: Vec<u32>,
    pub normals: Vec<u32>,
    pub texcoords: Vec<u32>,
    pub face_indices: Vec<u32>,
}

/// Why a mesh could not be built.
#[derive(Clone, PartialEq, Eq, Debug)]
pub enum LoadError {
    /// The OBJ source could not be read or parsed; carries the loader's
    /// description.
    Unparseable(String),
    /// A face index points past the end of its model's position array.
    FaceIndexOutOfRange,
    /// The expansion would emit more vertices than an index buffer entry
    /// can number.
    TooManyFaceVertices,
}

/// The vertex gathered for face index `i` of model `m`: the position is
/// taken from the position array, while the normal and texture coordinate
/// fall back to zero when their arrays are too short to cover `i`.
pub open spec fn vertex_from(m: RawModel, i: int) -> Vertex {
    Vertex {
        px: m.positions@[3 * i],
        py: m.positions@[3 * i + 1],
        pz: m.positions@[3 * i + 2],
        nx: if 3 * i + 3 <= m.normals@.len() {
            m.normals@[3 * i]
        } else {
            ZERO_BITS
        },
        ny: if 3 * i + 3 <= m.normals@.len() {
            m.normals@[3 * i + 1]
        } else {
            ZERO_BITS
        },
        nz: if 3 * i + 3 <= m.normals@.len() {
            m.normals@[3 * i + 2]
        } else {
            ZERO_BITS
        },
        tu: if 2 * i + 2 <= m.texcoords@.len() {
            m.texcoords@[2 * i]
        } else {
            ZERO_BITS
        },
        tv: if 2 * i + 2 <= m.texcoords@.len() {
            m.texcoords@[2 * i + 1]
        } else {
            ZERO_BITS
        },
    }
}

/// One vertex per entry of the face-index array, in face order.
pub open spec fn expand_model(m: RawModel) -> Seq<Vertex> {
    Seq::new(m.face_indices@.len(), |k: int| vertex_from(m, m.face_indices@[k] as int))
}

/// The expansions of all models, concatenated in model order.
pub open spec fn expand_models(ms: Seq<RawModel>) -> Seq<Vertex>
    decreases ms.len(),
{
    if ms.len() == 0 {
        Seq::empty()
    } else {
        expand_models(ms.drop_last()) + expand_model(ms.last())
    }
}

/// Every face index of `m` has a full position triple to gather.
pub open spec fn model_indices_valid(m: RawModel) -> bool {
    forall|k: int|
        0 <= k < m.face_indices@.len() ==> 3 * (m.face_indices@[k] as int) + 3
            <= m.positions@.len()
}

/// Every model's face indices are coverable by its position array.
pub open spec fn models_valid(ms: Seq<RawModel>) -> bool {
    forall|j: int| 0 <= j < ms.len() ==> model_indices_valid(ms[j])
}

/// How many vertices the expansion of `ms` emits.
pub open spec fn total_face_vertices(ms: Seq<RawModel>) -> int
    decreases ms.len(),
{
    if ms.len() == 0 {
        0
    } else {
        total_face_vertices(ms.drop_last()) + ms.last().face_indices@.len()
    }
}

/// The expansion emits exactly one vertex per face index.
pub proof fn lemma_expand_models_len(ms: Seq<RawModel>)
    ensures
        expand_models(ms).len() == total_face_vertices(ms),
    decreases ms.len(),
{
    if ms.len() > 0 {
        lemma_expand_models_len(ms.drop_last());
    }
}

/// A prefix of the models emits no more vertices than all of them.
pub proof fn lemma_total_take_le(ms: Seq<RawModel>, j: int)
    requires
        0 <= j <= ms.len(),
    ensures
        total_face_vertices(ms.take(j)) <= total_face_vertices(ms),
    decreases ms.len() - j,
{
    if j < ms.len() {
        lemma_total_take_le(ms, j + 1);
        assert(ms.take(j + 1).drop_last() =~= ms.take(j));
        assert(ms.take(j + 1).last() == ms[j]);
    } else {
        assert(ms.take(j) =~= ms);
    }
}

/// All normal components of all vertices are IEEE 754 zeros.
pub open spec fn all_normals_zero(s: Seq<Vertex>) -> bool {
    forall|i: int| 0 <= i < s.len() ==> s[i].has_zero_normal()
}

/// How many vertices of `s` have a zero normal.
pub open spec fn zero_normal_count_of(s: Seq<Vertex>) -> int
    decreases s.len(),
{
    if s.len() == 0 {
        0
    } else {
        zero_normal_count_of(s.drop_last()) + if s.last().has_zero_normal() {
            1int
        } else {
            0int
        }
    }
}

/// Every vertex has a zero normal exactly when the zero-normal count
/// reaches the vertex count.
pub proof fn lemma_zero_normal_count_full(s: Seq<Vertex>)
    ensures
        all_normals_zero(s) <==> zero_normal_count_of(s) == s.len(),
    decreases s.len(),
{
    if s.len() > 0 {
        lemma_zero_normal_count_full(s.drop_last());
        lemma_zero_normal_count_bound(s.drop_last());
        if all_normals_zero(s) {
            assert(all_normals_zero(s.drop_last()));
        }
        if zero_normal_count_of(s) == s.len() {
            assert forall|i: int| 0 <= i < s.len() implies s[i].has_zero_normal() by {
                if i < s.len() - 1 {
                    assert(s.drop_last()[i] == s[i]);
                }
            }
        }
    }
}

/// The zero-normal count never exceeds the vertex count.
pub proof fn lemma_zero_normal_count_bound(s: Seq<Vertex>)
    ensures
        0 <= zero_normal_count_of(s) <= s.len(),
    decreases s.len(),
{
    if s.len() > 0 {
        lemma_zero_normal_count_bound(s.drop_last());
    }
}

/// The position of a vertex, as a vector of bit patterns.
pub open spec fn position_of(v: Vertex) -> Vec3 {
    Vec3 { x: v.px, y: v.py, z: v.pz }
}

/// `v` with its normal replaced by `n`.
pub open spec fn with_normal(v: Vertex, n: Vec3) -> Vertex {
    Vertex { nx: n.x, ny: n.y, nz: n.z, ..v }
}

/// A triangle mesh: the expanded vertex list, the index list (always the
/// identity permutation of the vertex list, because expansion never
/// deduplicates), and the decomposed model transform. The model matrix is
/// the product `translate * rotate * scaling(scale)`, composed by the
/// render driver from the parts carried here.
#[derive(Clone, Debug)]
pub struct Mesh {
    pub vertices: Vec<Vertex>,
    pub indices: Vec<u32>,
    pub scale: u32,
    pub translate: Mat4,
    pub rotate: Mat4,
}

impl Mesh {
    /// An empty mesh with the identity transform and unit scale.
    pub fn new() -> (m: Mesh)
        ensures
            m.vertices@ == Seq::<Vertex>::empty(),
            m.indices@ == Seq::<u32>::empty(),
            m.scale == ONE_BITS,
            m.translate == spec_identity4(),
            m.rotate == spec_identity4(),
    {
        Mesh {
            vertices: Vec::new(),
            indices: Vec::new(),
            scale: ONE_BITS,
            translate: Mat4::identity(),
            rotate: Mat4::identity(),
        }
    }

    /// Expands loader output into a mesh: for every face index, one
    /// gathered vertex, and an index list that numbers the emitted
    /// vertices `0, 1, 2, ...` in order. Rejects a face index with no
    /// position triple to gather, and an expansion too large for the
    /// index entries to number.
    #[verifier::loop_isolation(false)]
    pub fn from_models(models: &Vec<RawModel>) -> (r: Result<Mesh, LoadError>)
        ensures
            r is Ok <==> models_valid(models@) && total_face_vertices(models@) <= u32::MAX,
            !models_valid(models@) ==> r == Err::<Mesh, LoadError>(LoadError::FaceIndexOutOfRange),
            models_valid(models@) && total_face_vertices(models@) > u32::MAX ==> r == Err::<
                Mesh,
                LoadError,
            >(LoadError::TooManyFaceVertices),
            r matches Ok(m) ==> {
                &&& m.vertices@ == expand_models(models@)
                &&& m.indices@ == Seq::new(expand_models(models@).len(), |k: int| k as u32)
                &&& m.scale == ONE_BITS
                &&& m.translate == spec_identity4()
                &&& m.rotate == spec_identity4()
            },
    {
        // First pass: every face index must have a position triple.
        let mut j: usize = 0;
        while j < models.len()
            invariant
                j <= models@.len(),
                forall|jj: int| 0 <= jj < j ==> model_indices_valid(models@[jj]),
            decreases models@.len() - j,
        {
            let mut k: usize = 0;
            while k < models[j].face_indices.len()
                invariant
                    j < models@.len(),
                    k <= models@[j as int].face_indices@.len(),
                    forall|kk: int|
                        0 <= kk < k ==> 3 * (models@[j as int].face_indices@[kk] as int) + 3
                            <= models@[j as int].positions@.len(),
                decreases models@[j as int].face_indices@.len() - k,
            {
                let fi = models[j].face_indices[k];
                if (fi as u64) * 3 + 3 > models[j].positions.len() as u64 {
                    proof {
                        assert(!model_indices_valid(models@[j as int]));
                    }
                    return Err(LoadError::FaceIndexOutOfRange);
                }
                k = k + 1;
            }
            j = j + 1;
        }
        assert(models_valid(models@));
        // Second pass: the emitted vertices must be numberable by an
        // index entry.
        let mut total: u32 = 0;
        j = 0;
        while j < models.len()
            invariant
                j <= models@.len(),
                total as int == total_face_vertices(models@.take(j as int)),
            decreases models@.len() - j,
        {
            let flen = models[j].face_indices.len();
            proof {
                assert(models@.take(j + 1).drop_last() =~= models@.take(j as int));
                assert(models@.take(j + 1).last() == models@[j as int]);
            }
            if flen > (u32::MAX - total) as usize {
                proof {
                    lemma_total_take_le(models@, j + 1);
                }
                return Err(LoadError::TooManyFaceVertices);
            }
            total = total + flen as u32;
            j = j + 1;
        }
        proof {
            assert(models@.take(models@.len() as int) =~= models@);
        }
        assert(total as int == total_face_vertices(models@));
        // Third pass: gather one vertex per face index.
        let mut mesh = Mesh::new();
        j = 0;
        while j < models.len()
            invariant
                j <= models@.len(),
                mesh.vertices@ == expand_models(models@.take(j as int)),
                mesh.indices@ == Seq::new(mesh.vertices@.len(), |k: int| k as u32),
                mesh.scale == ONE_BITS,
                mesh.translate == spec_identity4(),
                mesh.rotate == spec_identity4(),
            decreases models@.len() - j,
        {
            proof {
                lemma_expand_models_len(models@.take(j as int));
                lemma_total_take_le(models@, j as int);
            }
            let mut k: usize = 0;
            while k < models[j].face_indices.len()
                invariant
                    j < models@.len(),
                    k <= models@[j as int].face_indices@.len(),
                    mesh.vertices@ == expand_models(models@.take(j as int)) + expand_model(
                        models@[j as int],
                    ).take(k as int),
                    mesh.indices@ == Seq::new(mesh.vertices@.len(), |k: int| k as u32),
                    mesh.scale == ONE_BITS,
                    mesh.translate == spec_identity4(),
                    mesh.rotate == spec_identity4(),
                decreases models@[j as int].face_indices@.len() - k,
            {
                proof {
                    lemma_expand_models_len(models@.take(j as int));
                    lemma_total_take_le(models@, j as int);
                    assert(models@.take(j + 1).drop_last() =~= models@.take(j as int));
                    assert(models@.take(j + 1).last() == models@[j as int]);
                    assert(total_face_vertices(models@.take(j + 1)) == total_face_vertices(
                        models@.take(j as int),
                    ) + models@[j as int].face_indices@.len());
                    lemma_total_take_le(models@, j + 1);
                }
                let fi = models[j].face_indices[k];
                proof {
                    assert(model_indices_valid(models@[j as int]));
                    assert(models@[j as int].positions.len()
                        == models@[j as int].positions@.len());
                    assert(3 * (models@[j as int].face_indices@[k as int] as int) + 3
                        <= models@[j as int].positions@.len());
                }
                let i = fi as usize;
                let px = models[j].positions[3 * i];
                let py = models[j].positions[3 * i + 1];
                let pz = models[j].positions[3 * i + 2];
                let has_normal = (fi as u64) * 3 + 3 <= models[j].normals.len() as u64;
                let nx = if has_normal { models[j].normals[3 * i] } else { ZERO_BITS };
                let ny = if has_normal { models[j].normals[3 * i + 1] } else { ZERO_BITS };
                let nz = if has_normal { models[j].normals[3 * i + 2] } else { ZERO_BITS };
                let has_tex = (fi as u64) * 2 + 2 <= models[j].texcoords.len() as u64;
                let tu = if has_tex { models[j].texcoords[2 * i] } else { ZERO_BITS };
                let tv = if has_tex { models[j].texcoords[2 * i + 1] } else { ZERO_BITS };
                let vertex = Vertex { px, py, pz, nx, ny, nz, tu, tv };
                proof {
                    assert(vertex == vertex_from(models@[j as int], fi as int));
                    assert(expand_model(models@[j as int])[k as int] == vertex_from(
                        models@[j as int],
                        models@[j as int].face_indices@[k as int] as int,
                    ));
                }
                let next_index = mesh.vertices.len() as u32;
                mesh.vertices.push(vertex);
                mesh.indices.push(next_index);
                k = k + 1;
                proof {
                    assert(expand_model(models@[j as int]).take(k as int) =~= expand_model(
                        models@[j as int],
                    ).take(k - 1).push(vertex));
                    assert(mesh.vertices@ =~= expand_models(models@.take(j as int))
                        + expand_model(models@[j as int]).take(k as int));
                    assert(mesh.indices@ =~= Seq::new(
                        mesh.vertices@.len(),
                        |k: int| k as u32,
                    ));
                }
            }
            j = j + 1;
            proof {
                assert(models@.take(j as int).drop_last() =~= models@.take(j - 1));
                assert(models@.take(j as int).last() == models@[j - 1]);
                assert(expand_model(models@[j - 1]).take(
                    models@[j - 1].face_indices@.len() as int,
                ) =~= expand_model(models@[j - 1]));
                assert(mesh.vertices@ =~= expand_models(models@.take(j as int)));
            }
        }
        proof {
            assert(models@.take(models@.len() as int) =~= models@);
        }
        Ok(mesh)
    }

    /// How many vertices have a zero normal: the loading diagnostic
    /// printed beside the vertex count.
    pub fn zero_normal_count(&self) -> (n: usize)
        ensures
            n == zero_normal_count_of(self.vertices@),
    {
        let mut n: usize = 0;
        let mut i: usize = 0;
        while i < self.vertices.len()
            invariant
                i <= self.vertices@.len(),
                n == zero_normal_count_of(self.vertices@.take(i as int)),
                n <= i,
            decreases self.vertices@.len() - i,
        {
            let v = self.vertices[i];
            if crate::bits::scalar_is_zero(v.nx) && crate::bits::scalar_is_zero(v.ny)
                && crate::bits::scalar_is_zero(v.nz) {
                n = n + 1;
            }
            i = i + 1;
            proof {
                assert(self.vertices@.take(i as int).drop_last() =~= self.vertices@.take(i - 1));
                assert(self.vertices@.take(i as int).last() == self.vertices@[i - 1]);
            }
        }
        proof {
            assert(self.vertices@.take(self.vertices@.len() as int) =~= self.vertices@);
        }
        n
    }

    /// True when every vertex normal is zero, the condition under which
    /// flat per-triangle normals are recovered.
    pub fn needs_flat_normals(&self) -> (r: bool)
        ensures
            r == all_normals_zero(self.vertices@),
    {
        let mut i: usize = 0;
        while i < self.vertices.len()
            invariant
                i <= self.vertices@.len(),
                forall|ii: int| 0 <= ii < i ==> self.vertices@[ii].has_zero_normal(),
            decreases self.vertices@.len() - i,
        {
            let v = self.vertices[i];
            if !(crate::bits::scalar_is_zero(v.nx) && crate::bits::scalar_is_zero(v.ny)
                && crate::bits::scalar_is_zero(v.nz)) {
                proof {
                    assert(!self.vertices@[i as int].has_zero_normal());
                }
                return false;
            }
            i = i + 1;
        }
        true
    }

    /// The corner positions of each complete triangle, in triangle
    /// order: the inputs from which flat normals are computed. A trailing
    /// partial triangle, if any, is not listed.
    pub fn triangle_positions(&self) -> (r: Vec<(Vec3, Vec3, Vec3)>)
        ensures
            r@.len() == self.vertices@.len() / 3,
            forall|t: int|
                0 <= t < r@.len() ==> r@[t] == (
                    position_of(self.vertices@[3 * t]),
                    position_of(self.vertices@[3 * t + 1]),
                    position_of(self.vertices@[3 * t + 2]),
                ),
    {
        let count = self.vertices.len() / 3;
        let mut out: Vec<(Vec3, Vec3, Vec3)> = Vec::new();
        let mut t: usize = 0;
        while t < count
            invariant
                t <= count,
                count == self.vertices@.len() / 3,
                out@.len() == t,
                forall|tt: int|
                    0 <= tt < t ==> out@[tt] == (
                        position_of(self.vertices@[3 * tt]),
                        position_of(self.vertices@[3 * tt + 1]),
                        position_of(self.vertices@[3 * tt + 2]),
                    ),
            decreases count - t,
        {
            proof {
                assert(self.vertices.len() == self.vertices@.len());
                assert(3 * (count as int) <= self.vertices@.len());
                assert(3 * (t as int) + 2 < self.vertices@.len());
            }
            let a = self.vertices[3 * t];
            let b = self.vertices[3 * t + 1];
            let c = self.vertices[3 * t + 2];
            out.push(
                (
                    Vec3 { x: a.px, y: a.py, z: a.pz },
                    Vec3 { x: b.px, y: b.py, z: b.pz },
                    Vec3 { x: c.px, y: c.py, z: c.pz },
                ),
            );
            t = t + 1;
        }
        out
    }

    /// Replaces the normal of every vertex of each complete triangle by
    /// that triangle's entry of `normals`; positions, texture
    /// coordinates, indices and the transform are untouched.
    pub fn apply_flat_normals(&mut self, normals: &Vec<Vec3>)
        requires
            normals@.len() == old(self).vertices@.len() / 3,
        ensures
            final(self).vertices@.len() == old(self).vertices@.len(),
            forall|i: int|
                0 <= i < 3 * normals@.len() ==> final(self).vertices@[i] == with_normal(
                    old(self).vertices@[i],
                    normals@[i / 3],
                ),
            forall|i: int|
                3 * normals@.len() <= i < old(self).vertices@.len() ==> final(self).vertices@[i]
                    == old(self).vertices@[i],
            final(self).indices@ == old(self).indices@,
            final(self).scale == old(self).scale,
            final(self).translate == old(self).translate,
            final(self).rotate == old(self).rotate,
    {
        let n = self.vertices.len();
        let mut out: Vec<Vertex> = Vec::new();
        let mut i: usize = 0;
        while i < n
            invariant
                i <= n,
                n == self.vertices@.len(),
                normals@.len() == n / 3,
                out@.len() == i,
                forall|ii: int|
                    0 <= ii < i && ii < 3 * normals@.len() ==> out@[ii] == with_normal(
                        self.vertices@[ii],
                        normals@[ii / 3],
                    ),
                forall|ii: int|
                    3 * normals@.len() <= ii < i ==> out@[ii] == self.vertices@[ii],
            decreases n - i,
        {
            let v = self.vertices[i];
            let t = i / 3;
            if t < normals.len() {
                let nm = normals[t];
                out.push(Vertex { nx: nm.x, ny: nm.y, nz: nm.z, ..v });
            } else {
                out.push(v);
            }
            i = i + 1;
        }
        self.vertices = out;
    }

    /// Recovers flat normals exactly when every source normal is zero:
    /// if so, each complete triangle's three vertices all take that
    /// triangle's entry of `normals`; if even one source normal is
    /// non-zero, nothing changes. Recovery is all or nothing.
    pub fn apply_flat_normals_if_needed(&mut self, normals: &Vec<Vec3>) -> (applied: bool)
        requires
            normals@.len() == old(self).vertices@.len() / 3,
        ensures
            applied == all_normals_zero(old(self).vertices@),
            applied ==> {
                &&& final(self).vertices@.len() == old(self).vertices@.len()
                &&& forall|i: int|
                    0 <= i < 3 * normals@.len() ==> final(self).vertices@[i] == with_normal(
                        old(self).vertices@[i],
                        normals@[i / 3],
                    )
                &&& forall|i: int|
                    3 * normals@.len() <= i < old(self).vertices@.len()
                        ==> final(self).vertices@[i] == old(self).vertices@[i]
                &&& final(self).indices@ == old(self).indices@
                &&& final(self).scale == old(self).scale
                &&& final(self).translate == old(self).translate
                &&& final(self).rotate == old(self).rotate
            },
            !applied ==> *final(self) == *old(self),
    {
        if self.needs_flat_normals() {
            self.apply_flat_normals(normals);
            true
        } else {
            false
        }
    }
}

} // verus!
