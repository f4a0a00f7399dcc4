//! Mesh data: vertices, faces, materials, and the assembly of a model from
//! already-parsed attribute arrays.
//!
//! Assembly builds one vertex per position/normal/UV triple, then walks the
//! faces: each face gets a normal and a tangent basis from its corner
//! positions and UVs, and writes that tangent basis onto its three vertices
//! (last writer wins across shared vertices — a deliberate approximation of
//! the source data's tangent accumulation).

use vstd::prelude::*;

use crate::fixed::{fx_div, fx_mul, fx_sub, SCALE};
use crate::fixed::{fx_div_s, fx_mul_s, fx_sub_s};
use crate::texture::{tex_wf, TexV, Texture};
use crate::vecmath::{Fx2, Fx3, V2, V3};
use crate::vecmath::{v2_sub_s, v3_cross_s, v3_normalize_s, v3_scale_s, v3_sub_s};

verus! {

/// Up to three textures; absent ones default to neutral 1x1 textures.
pub struct Material {
    pub albedo_texture: Texture,
    pub normal_texture: Texture,
    pub specular_texture: Texture,
}

/// Mathematical view of a `Material`.
pub ghost struct MatV {
    pub albedo: TexV,
    pub normal: TexV,
    pub specular: TexV,
}

impl View for Material {
    type V = MatV;

    open spec fn view(&self) -> MatV {
        MatV {
            albedo: self.albedo_texture@,
            normal: self.normal_texture@,
            specular: self.specular_texture@,
        }
    }
}

/// All three textures are structurally valid.
pub open spec fn mat_wf(m: MatV) -> bool {
    tex_wf(m.albedo) && tex_wf(m.normal) && tex_wf(m.specular)
}

/// One mesh vertex: model-space position, UV, and a local frame.
#[derive(Clone, Copy, PartialEq, Debug)]
pub struct Vertex {
    pub position: Fx3,
    pub uv: Fx2,
    pub normal: Fx3,
    pub tangent: Fx3,
    pub bitangent: Fx3,
}

/// Mathematical view of a `Vertex`.
pub ghost struct VertexV {
    pub position: V3,
    pub uv: V2,
    pub normal: V3,
    pub tangent: V3,
    pub bitangent: V3,
}

impl View for Vertex {
    type V = VertexV;

    open spec fn view(&self) -> VertexV {
        VertexV {
            position: self.position@,
            uv: self.uv@,
            normal: self.normal@,
            tangent: self.tangent@,
            bitangent: self.bitangent@,
        }
    }
}

/// One triangle: three vertex indices and the face's own frame.
#[derive(Clone, Copy, PartialEq, Debug)]
pub struct Face {
    pub vertices: [usize; 3],
    pub normal: Fx3,
    pub tangent: Fx3,
    pub bitangent: Fx3,
}

/// Mathematical view of a `Face`.
pub ghost struct FaceV {
    pub v0: int,
    pub v1: int,
    pub v2: int,
    pub normal: V3,
    pub tangent: V3,
    pub bitangent: V3,
}

impl View for Face {
    type V = FaceV;

    open spec fn view(&self) -> FaceV {
        FaceV {
            v0: self.vertices[0] as int,
            v1: self.vertices[1] as int,
            v2: self.vertices[2] as int,
            normal: self.normal@,
            tangent: self.tangent@,
            bitangent: self.bitangent@,
        }
    }
}

/// A named mesh with its material.
pub struct Model {
    pub name: String,
    pub vertices: Vec<Vertex>,
    pub faces: Vec<Face>,
    pub material: Material,
}

/// Mathematical view of a `Model`.
pub ghost struct ModelV {
    pub name: Seq<char>,
    pub vertices: Seq<VertexV>,
    pub faces: Seq<FaceV>,
    pub material: MatV,
}

impl View for Model {
    type V = ModelV;

    open spec fn view(&self) -> ModelV {
        ModelV {
            name: self.name@,
            vertices: self.vertices@.map_values(|v: Vertex| v@),
            faces: self.faces@.map_values(|f: Face| f@),
            material: self.material@,
        }
    }
}

/// A structurally valid model: every face index points at a vertex, and the
/// material's textures are valid.
pub open spec fn model_wf(m: ModelV) -> bool {
    &&& mat_wf(m.material)
    &&& forall|i: int|
        0 <= i < m.faces.len() ==> {
            &&& 0 <= #[trigger] m.faces[i].v0 < m.vertices.len()
            &&& 0 <= m.faces[i].v1 < m.vertices.len()
            &&& 0 <= m.faces[i].v2 < m.vertices.len()
        }
}

/// The attribute arrays describe a whole number of vertices and faces, one
/// normal per position, one UV pair per vertex, and in-range face indices.
pub open spec fn mesh_input_wf(
    p: Seq<i64>,
    n: Seq<i64>,
    t: Seq<i64>,
    idx: Seq<usize>,
) -> bool {
    &&& p.len() % 3 == 0
    &&& n.len() == p.len()
    &&& t.len() == (p.len() / 3) * 2
    &&& idx.len() % 3 == 0
    &&& forall|k: int| 0 <= k < idx.len() ==> (#[trigger] idx[k]) < p.len() / 3
}

/// The vertex a position/normal/UV triple yields, before tangents are filled.
pub open spec fn init_vertex_s(p: Seq<i64>, n: Seq<i64>, t: Seq<i64>, i: int) -> VertexV {
    VertexV {
        position: V3 { x: p[3 * i] as int, y: p[3 * i + 1] as int, z: p[3 * i + 2] as int },
        uv: V2 { x: t[2 * i] as int, y: t[2 * i + 1] as int },
        normal: V3 { x: n[3 * i] as int, y: n[3 * i + 1] as int, z: n[3 * i + 2] as int },
        tangent: V3 { x: 0, y: 0, z: 0 },
        bitangent: V3 { x: 0, y: 0, z: 0 },
    }
}

/// All vertices a set of attribute arrays yields.
pub open spec fn init_verts_s(p: Seq<i64>, n: Seq<i64>, t: Seq<i64>) -> Seq<VertexV> {
    Seq::new((p.len() / 3) as nat, |i: int| init_vertex_s(p, n, t, i))
}

/// The face built on three vertices: its normal is the normalized cross
/// product of two edges, and its tangent basis follows from the edge
/// positions and UV deltas (a zero UV-area denominator saturates under the
/// division-by-zero policy).
pub open spec fn face_from_s(verts: Seq<VertexV>, ia: int, ib: int, ic: int) -> FaceV {
    let pa = verts[ia].position;
    let pb = verts[ib].position;
    let pc = verts[ic].position;
    let normal = v3_normalize_s(v3_cross_s(v3_sub_s(pc, pa), v3_sub_s(pb, pa)));
    let dp1 = v3_sub_s(pb, pa);
    let dp2 = v3_sub_s(pc, pb);
    let du1 = v2_sub_s(verts[ib].uv, verts[ia].uv);
    let du2 = v2_sub_s(verts[ic].uv, verts[ib].uv);
    let denom = fx_sub_s(fx_mul_s(du1.x, du2.y), fx_mul_s(du1.y, du2.x));
    let r = fx_div_s(65536, denom);
    let tangent = v3_scale_s(v3_sub_s(v3_scale_s(dp1, du2.y), v3_scale_s(dp2, du1.y)), r);
    let bitangent = v3_scale_s(v3_sub_s(v3_scale_s(dp2, du1.x), v3_scale_s(dp1, du2.x)), r);
    FaceV { v0: ia, v1: ib, v2: ic, normal, tangent, bitangent }
}

/// A vertex with its tangent basis overwritten.
pub open spec fn set_tb_s(v: VertexV, t: V3, b: V3) -> VertexV {
    VertexV { tangent: t, bitangent: b, ..v }
}

/// The vertex and face sequences after the first `j` faces are processed:
/// each face is built on the current vertices and then writes its tangent
/// basis onto its three corners, in order.
pub open spec fn build_upto_s(
    v0: Seq<VertexV>,
    idx: Seq<usize>,
    j: int,
) -> (Seq<VertexV>, Seq<FaceV>)
    decreases j,
{
    if j <= 0 {
        (v0, Seq::empty())
    } else {
        let prev = build_upto_s(v0, idx, j - 1);
        let ia = idx[3 * (j - 1)] as int;
        let ib = idx[3 * (j - 1) + 1] as int;
        let ic = idx[3 * (j - 1) + 2] as int;
        let f = face_from_s(prev.0, ia, ib, ic);
        let s1 = prev.0.update(ia, set_tb_s(prev.0[ia], f.tangent, f.bitangent));
        let s2 = s1.update(ib, set_tb_s(s1[ib], f.tangent, f.bitangent));
        let s3 = s2.update(ic, set_tb_s(s2[ic], f.tangent, f.bitangent));
        (s3, prev.1.push(f))
    }
}

/// The model a set of valid attribute arrays yields.
pub open spec fn model_from_s(
    name: Seq<char>,
    p: Seq<i64>,
    n: Seq<i64>,
    t: Seq<i64>,
    idx: Seq<usize>,
    material: MatV,
) -> ModelV {
    let built = build_upto_s(init_verts_s(p, n, t), idx, (idx.len() / 3) as int);
    ModelV { name, vertices: built.0, faces: built.1, material }
}

/// Processing faces keeps the vertex count and yields in-range face indices.
proof fn lemma_build_upto_wf(v0: Seq<VertexV>, idx: Seq<usize>, j: int)
    requires
        0 <= j,
        3 * j <= idx.len(),
        forall|k: int| 0 <= k < idx.len() ==> (#[trigger] idx[k]) < v0.len(),
    ensures
        build_upto_s(v0, idx, j).0.len() == v0.len(),
        build_upto_s(v0, idx, j).1.len() == j,
        forall|i: int|
            0 <= i < j ==> {
                &&& 0 <= #[trigger] build_upto_s(v0, idx, j).1[i].v0 < v0.len()
                &&& 0 <= build_upto_s(v0, idx, j).1[i].v1 < v0.len()
                &&& 0 <= build_upto_s(v0, idx, j).1[i].v2 < v0.len()
            },
    decreases j,
{
    if j > 0 {
        lemma_build_upto_wf(v0, idx, j - 1);
        let prev = build_upto_s(v0, idx, j - 1);
        assert(forall|i: int|
            0 <= i < j - 1 ==> build_upto_s(v0, idx, j).1[i] == prev.1[i]);
    }
}

/// Viewing a sequence of vertices commutes with updating one entry.
proof fn lemma_map_values_update(s: Seq<Vertex>, i: int, v: Vertex)
    requires
        0 <= i < s.len(),
    ensures
        s.update(i, v).map_values(|x: Vertex| x@) == s.map_values(|x: Vertex| x@).update(i, v@),
{
    assert(s.update(i, v).map_values(|x: Vertex| x@) =~= s.map_values(|x: Vertex| x@).update(
        i,
        v@,
    ));
}

/// Viewing a sequence of faces commutes with appending one face.
proof fn lemma_map_values_push(s: Seq<Face>, f: Face)
    ensures
        s.push(f).map_values(|x: Face| x@) == s.map_values(|x: Face| x@).push(f@),
{
    assert(s.push(f).map_values(|x: Face| x@) =~= s.map_values(|x: Face| x@).push(f@));
}

impl Model {
    /// A model assembled from already-parsed attribute arrays (positions,
    /// normals and texture coordinates as raw fixed-point scalars, three
    /// indices per face) and a material. `None` exactly when the arrays do
    /// not describe a structurally valid mesh.
    #[verifier::rlimit(60)]
    pub fn build(
        name: String,
        positions: Vec<i64>,
        normals: Vec<i64>,
        texcoords: Vec<i64>,
        indices: Vec<usize>,
        material: Material,
    ) -> (r: Option<Model>)
        requires
            mat_wf(material@),
        ensures
            match r {
                Some(m) => {
                    &&& mesh_input_wf(positions@, normals@, texcoords@, indices@)
                    &&& m@ == model_from_s(
                        name@,
                        positions@,
                        normals@,
                        texcoords@,
                        indices@,
                        material@,
                    )
                    &&& model_wf(m@)
                },
                None => !mesh_input_wf(positions@, normals@, texcoords@, indices@),
            },
    {
        let plen: usize = positions.len();
        let tlen: usize = texcoords.len();
        let ilen: usize = indices.len();
        let nverts: usize = plen / 3;
        if !(plen % 3 == 0 && normals.len() == plen && tlen == nverts * 2 && ilen % 3 == 0) {
            return None;
        }
        let mut k: usize = 0;
        while k < indices.len()
            invariant
                k <= indices@.len(),
                forall|j: int| 0 <= j < k ==> (#[trigger] indices@[j]) < nverts,
                nverts == positions@.len() / 3,
            decreases indices@.len() - k,
        {
            if indices[k] >= nverts {
                return None;
            }
            k = k + 1;
        }

        let mut vertices: Vec<Vertex> = Vec::new();
        let mut i: usize = 0;
        while i < nverts
            invariant
                i <= nverts,
                positions@.len() == plen,
                texcoords@.len() == tlen,
                nverts == positions@.len() / 3,
                positions@.len() % 3 == 0,
                normals@.len() == positions@.len(),
                texcoords@.len() == nverts * 2,
                vertices@.len() == i,
                forall|q: int|
                    0 <= q < i ==> (#[trigger] vertices@[q])@ == init_vertex_s(
                        positions@,
                        normals@,
                        texcoords@,
                        q,
                    ),
            decreases nverts - i,
        {
            proof {
                assert(3 * (i as int) + 2 < positions@.len()) by (nonlinear_arith)
                    requires
                        (i as int) < positions@.len() / 3,
                        positions@.len() % 3 == 0,
                ;
                assert(2 * (i as int) + 1 < texcoords@.len()) by (nonlinear_arith)
                    requires
                        (i as int) < nverts as int,
                        texcoords@.len() == (nverts as int) * 2,
                ;
            }
            let v = Vertex {
                position: Fx3::new(positions[3 * i], positions[3 * i + 1], positions[3 * i + 2]),
                uv: Fx2::new(texcoords[2 * i], texcoords[2 * i + 1]),
                normal: Fx3::new(normals[3 * i], normals[3 * i + 1], normals[3 * i + 2]),
                tangent: Fx3::zero(),
                bitangent: Fx3::zero(),
            };
            vertices.push(v);
            i = i + 1;
        }
        proof {
            assert(vertices@.map_values(|v: Vertex| v@) =~= init_verts_s(
                positions@,
                normals@,
                texcoords@,
            ));
        }

        let ghost iv = init_verts_s(positions@, normals@, texcoords@);
        let nfaces: usize = ilen / 3;
        let mut faces: Vec<Face> = Vec::new();
        let mut j: usize = 0;
        while j < nfaces
            invariant
                j <= nfaces,
                indices@.len() == ilen,
                nfaces == indices@.len() / 3,
                indices@.len() % 3 == 0,
                forall|q: int| 0 <= q < indices@.len() ==> (#[trigger] indices@[q]) < iv.len(),
                iv.len() == nverts,
                vertices@.len() == nverts,
                vertices@.map_values(|v: Vertex| v@) == build_upto_s(iv, indices@, j as int).0,
                faces@.map_values(|f: Face| f@) == build_upto_s(iv, indices@, j as int).1,
            decreases nfaces - j,
        {
            proof {
                assert(3 * (j as int) + 2 < indices@.len()) by (nonlinear_arith)
                    requires
                        (j as int) < indices@.len() / 3,
                        indices@.len() % 3 == 0,
                ;
                lemma_build_upto_wf(iv, indices@, j as int);
            }
            let ghost vs0 = vertices@;
            let ghost fs0 = faces@;
            let ia = indices[3 * j];
            let ib = indices[3 * j + 1];
            let ic = indices[3 * j + 2];
            let pa = vertices[ia].position;
            let pb = vertices[ib].position;
            let pc = vertices[ic].position;
            let normal = pc.sub(pa).cross(pb.sub(pa)).normalized();
            let dp1 = pb.sub(pa);
            let dp2 = pc.sub(pb);
            let du1 = vertices[ib].uv.sub(vertices[ia].uv);
            let du2 = vertices[ic].uv.sub(vertices[ib].uv);
            let denom = fx_sub(fx_mul(du1.x, du2.y), fx_mul(du1.y, du2.x));
            let r = fx_div(SCALE, denom);
            let tangent = dp1.scale(du2.y).sub(dp2.scale(du1.y)).scale(r);
            let bitangent = dp2.scale(du1.x).sub(dp1.scale(du2.x)).scale(r);

            let mut va = vertices[ia];
            va.tangent = tangent;
            va.bitangent = bitangent;
            vertices[ia] = va;
            let mut vb = vertices[ib];
            vb.tangent = tangent;
            vb.bitangent = bitangent;
            vertices[ib] = vb;
            let mut vc = vertices[ic];
            vc.tangent = tangent;
            vc.bitangent = bitangent;
            vertices[ic] = vc;

            let face = Face { vertices: [ia, ib, ic], normal, tangent, bitangent };
            faces.push(face);
            proof {
                let prev = build_upto_s(iv, indices@, j as int);
                let pv = prev.0;
                let f = face_from_s(pv, ia as int, ib as int, ic as int);
                assert(pv == vs0.map_values(|x: Vertex| x@));
                assert(pv[ia as int] == vs0[ia as int]@);
                assert(pv[ib as int] == vs0[ib as int]@);
                assert(pv[ic as int] == vs0[ic as int]@);
                assert(face@ == f);
                assert(va@ == set_tb_s(pv[ia as int], f.tangent, f.bitangent));
                let s1 = pv.update(ia as int, set_tb_s(pv[ia as int], f.tangent, f.bitangent));
                lemma_map_values_update(vs0, ia as int, va);
                assert(vs0.update(ia as int, va).map_values(|x: Vertex| x@) == s1);
                assert(s1[ib as int] == vs0.update(ia as int, va)[ib as int]@);
                assert(vb@ == set_tb_s(s1[ib as int], f.tangent, f.bitangent));
                let s2 = s1.update(ib as int, set_tb_s(s1[ib as int], f.tangent, f.bitangent));
                lemma_map_values_update(vs0.update(ia as int, va), ib as int, vb);
                assert(vs0.update(ia as int, va).update(ib as int, vb).map_values(
                    |x: Vertex| x@,
                ) == s2);
                assert(s2[ic as int] == vs0.update(ia as int, va).update(ib as int, vb)[
                    ic as int]@);
                assert(vc@ == set_tb_s(s2[ic as int], f.tangent, f.bitangent));
                let s3 = s2.update(ic as int, set_tb_s(s2[ic as int], f.tangent, f.bitangent));
                lemma_map_values_update(
                    vs0.update(ia as int, va).update(ib as int, vb),
                    ic as int,
                    vc,
                );
                assert(vertices@ == vs0.update(ia as int, va).update(ib as int, vb).update(
                    ic as int,
                    vc,
                ));
                assert(vertices@.map_values(|x: Vertex| x@) == s3);
                lemma_map_values_push(fs0, face);
                assert(faces@.map_values(|x: Face| x@) == prev.1.push(f));
                assert(build_upto_s(iv, indices@, j as int + 1).0 == s3);
                assert(build_upto_s(iv, indices@, j as int + 1).1 == prev.1.push(f));
            }
            j = j + 1;
        }

        let m = Model { name, vertices, faces, material };
        proof {
            lemma_build_upto_wf(iv, indices@, nfaces as int);
            assert(m@.vertices == build_upto_s(iv, indices@, (indices@.len() / 3) as int).0);
            assert(m@.faces == build_upto_s(iv, indices@, (indices@.len() / 3) as int).1);
        }
        Some(m)
    }
}

} // verus!
