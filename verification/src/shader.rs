//! The shading stage: lights, per-draw inputs and outputs of the vertex
//! stage, and the three shading policies (lit, unlit, debug).
//!
//! A shader is anything implementing [`Shader`]: a vertex operation taking
//! a mesh vertex to screen space, and a fragment operation computing a
//! color for an interpolated fragment. Both carry specification twins, so
//! the rasterizer's own contract can name the exact color every pixel
//! receives.

use vstd::prelude::*;

use crate::camera::{CamV, Camera};
use crate::draw::interpolate_bc;
use crate::fixed::{fx_div, fx_max, fx_mul, fx_powi, fx_trunc_u32, SCALE};
use crate::fixed::{fx_div_s, fx_max_s, fx_mul_s, fx_powi_s, fx_trunc_s, sat_s};
use crate::model::{MatV, Material, Vertex, VertexV, mat_wf};
use crate::texture::tex_color_uv_s;
use crate::vecmath::{Fx2, Fx3, Fx4, Mat3, M3V, Mat4, M4V, V2, V3, V4};
use crate::vecmath::{
    m3_mul_v3_s, m4_mul_v4_s, v2w_s, v3_add_s, v3_cmul_s, v3_dot_s, v3_length_s, v3_neg_s,
    v3_normalize_s, v3_scale_s, v3_sub_s, v3w_s, v4_length_s, v4_xyz_s,
};

verus! {

/// A point light: position, color, and intensity.
#[derive(Clone, Copy, PartialEq, Eq, Structural, Debug)]
pub struct Light {
    pub position: Fx3,
    pub color: Fx3,
    pub intensity: i64,
}

/// Mathematical view of a `Light`.
pub ghost struct LightV {
    pub position: V3,
    pub color: V3,
    pub intensity: int,
}

impl View for Light {
    type V = LightV;

    open spec fn view(&self) -> LightV {
        LightV {
            position: self.position@,
            color: self.color@,
            intensity: self.intensity as int,
        }
    }
}

/// Per-frame state handed through every draw call: ambient light, the
/// active lights, the elapsed time and the camera.
pub struct GlobalData {
    pub ambient_light: Fx3,
    pub lights: Vec<Light>,
    pub time: i64,
    pub camera: Camera,
}

/// Mathematical view of a `GlobalData`.
pub ghost struct GlobalV {
    pub ambient_light: V3,
    pub lights: Seq<LightV>,
    pub time: int,
    pub camera: CamV,
}

impl View for GlobalData {
    type V = GlobalV;

    open spec fn view(&self) -> GlobalV {
        GlobalV {
            ambient_light: self.ambient_light@,
            lights: self.lights@.map_values(|l: Light| l@),
            time: self.time as int,
            camera: self.camera@,
        }
    }
}

/// The composed matrices of one draw call and the inverse-transpose of the
/// model matrix, for transforming directions.
#[derive(Clone, Copy, PartialEq, Eq, Structural, Debug)]
pub struct VertInput {
    pub mvpv: Mat4,
    pub mvp: Mat4,
    pub mv: Mat4,
    pub m: Mat4,
    pub mit: Mat4,
}

/// Mathematical view of a `VertInput`.
pub ghost struct VertInV {
    pub mvpv: M4V,
    pub mvp: M4V,
    pub mv: M4V,
    pub m: M4V,
    pub mit: M4V,
}

impl View for VertInput {
    type V = VertInV;

    open spec fn view(&self) -> VertInV {
        VertInV {
            mvpv: self.mvpv@,
            mvp: self.mvp@,
            mv: self.mv@,
            m: self.m@,
            mit: self.mit@,
        }
    }
}

/// The vertex stage's result: screen-space position (z kept for depth),
/// world-space position, UV, and the world-space local frame.
#[derive(Clone, Copy, PartialEq, Eq, Structural, Debug)]
pub struct VertOutput {
    pub position: Fx3,
    pub world_position: Fx3,
    pub uv: Fx2,
    pub normal: Fx3,
    pub tangent: Fx3,
    pub bitangent: Fx3,
}

/// Mathematical view of a `VertOutput`.
pub ghost struct VertOutV {
    pub position: V3,
    pub world_position: V3,
    pub uv: V2,
    pub normal: V3,
    pub tangent: V3,
    pub bitangent: V3,
}

impl View for VertOutput {
    type V = VertOutV;

    open spec fn view(&self) -> VertOutV {
        VertOutV {
            position: self.position@,
            world_position: self.world_position@,
            uv: self.uv@,
            normal: self.normal@,
            tangent: self.tangent@,
            bitangent: self.bitangent@,
        }
    }
}

/// Every attribute interpolated by the same barycentric weights.
pub open spec fn interp_vo_s(a: VertOutV, b: VertOutV, c: VertOutV, w: V3) -> VertOutV {
    VertOutV {
        position: v3w_s(a.position, b.position, c.position, w),
        world_position: v3w_s(a.world_position, b.world_position, c.world_position, w),
        uv: v2w_s(a.uv, b.uv, c.uv, w),
        normal: v3w_s(a.normal, b.normal, c.normal, w),
        tangent: v3w_s(a.tangent, b.tangent, c.tangent, w),
        bitangent: v3w_s(a.bitangent, b.bitangent, c.bitangent, w),
    }
}

/// Interpolate a whole vertex-stage output by barycentric weights.
pub fn interpolate_vertoutput(
    a: &VertOutput,
    b: &VertOutput,
    c: &VertOutput,
    barycentric: &Fx3,
) -> (r: VertOutput)
    ensures
        r@ == interp_vo_s(a@, b@, c@, barycentric@),
{
    VertOutput {
        position: interpolate_bc(a.position, b.position, c.position, barycentric),
        world_position: interpolate_bc(
            a.world_position,
            b.world_position,
            c.world_position,
            barycentric,
        ),
        uv: interpolate_bc(a.uv, b.uv, c.uv, barycentric),
        normal: interpolate_bc(a.normal, b.normal, c.normal, barycentric),
        tangent: interpolate_bc(a.tangent, b.tangent, c.tangent, barycentric),
        bitangent: interpolate_bc(a.bitangent, b.bitangent, c.bitangent, barycentric),
    }
}

/// Mirror of a direction about a normal: `d - 2*n*(n . d)`.
pub open spec fn reflect_s(normal: V3, direction: V3) -> V3 {
    v3_sub_s(direction, v3_scale_s(v3_scale_s(normal, 131072), v3_dot_s(normal, direction)))
}

/// Mirror a direction about a (unit) normal.
pub fn reflect(normal: Fx3, direction: Fx3) -> (r: Fx3)
    ensures
        r@ == reflect_s(normal@, direction@),
{
    direction.sub(normal.scale(2 * SCALE).scale(normal.dot(direction)))
}

/// The shared vertex stage: transform the position through the composed
/// matrix and divide by the homogeneous coordinate; transform the local
/// frame by the inverse-transpose model matrix (directions, so `w = 0`);
/// pass the UV through.
pub open spec fn generic_vertex_s(v: VertexV, i: VertInV) -> VertOutV {
    let om = m4_mul_v4_s(i.mvpv, V4 { x: v.position.x, y: v.position.y, z: v.position.z, w: 65536 });
    let world = m4_mul_v4_s(i.m, V4 { x: v.position.x, y: v.position.y, z: v.position.z, w: 65536 });
    let normal = m4_mul_v4_s(i.mit, V4 { x: v.normal.x, y: v.normal.y, z: v.normal.z, w: 0 });
    let tangent = m4_mul_v4_s(i.mit, V4 { x: v.tangent.x, y: v.tangent.y, z: v.tangent.z, w: 0 });
    let bitangent = m4_mul_v4_s(
        i.mit,
        V4 { x: v.bitangent.x, y: v.bitangent.y, z: v.bitangent.z, w: 0 },
    );
    VertOutV {
        position: V3 {
            x: fx_div_s(om.x, om.w),
            y: fx_div_s(om.y, om.w),
            z: fx_div_s(om.z, om.w),
        },
        world_position: v4_xyz_s(world),
        uv: v.uv,
        normal: v4_xyz_s(normal),
        tangent: v4_xyz_s(tangent),
        bitangent: v4_xyz_s(bitangent),
    }
}

/// The shared vertex stage used by every shading policy.
pub fn generic_vertex(vertex: &Vertex, i: &VertInput) -> (r: VertOutput)
    ensures
        r@ == generic_vertex_s(vertex@, i@),
{
    let om = i.mvpv.mul_v4(Fx4::from_v3(vertex.position, SCALE));
    let world = i.m.mul_v4(Fx4::from_v3(vertex.position, SCALE));
    let normal = i.mit.mul_v4(Fx4::from_v3(vertex.normal, 0));
    let tangent = i.mit.mul_v4(Fx4::from_v3(vertex.tangent, 0));
    let bitangent = i.mit.mul_v4(Fx4::from_v3(vertex.bitangent, 0));
    VertOutput {
        position: Fx3::new(
            fx_div(om.x, om.w),
            fx_div(om.y, om.w),
            fx_div(om.z, om.w),
        ),
        world_position: world.xyz(),
        uv: vertex.uv,
        normal: normal.xyz(),
        tangent: tangent.xyz(),
        bitangent: bitangent.xyz(),
    }
}

/// A shading policy: a vertex operation and a fragment operation, each
/// pinned down exactly by its specification twin.
pub trait Shader {
    /// What the vertex operation returns.
    spec fn vertex_s(&self, v: VertexV, i: VertInV, g: GlobalV) -> VertOutV;

    /// What the fragment operation returns.
    spec fn fragment_s(&self, i: VertOutV, m: MatV, g: GlobalV) -> V4;

    /// Transform one mesh vertex for this draw call.
    fn vertex(&self, vertex: &Vertex, i: &VertInput, globals: &GlobalData) -> (r: VertOutput)
        ensures
            r@ == self.vertex_s(vertex@, i@, globals@),
    ;

    /// Compute the color of one interpolated fragment.
    fn fragment(&self, i: &VertOutput, material: &Material, globals: &GlobalData) -> (r: Fx4)
        requires
            mat_wf(material@),
        ensures
            r@ == self.fragment_s(i@, material@, globals@),
    ;
}

/// The specular exponent: the specular sample's length scaled by 256,
/// truncated to a whole number.
pub open spec fn spec_exp_s(m: MatV, uv: V2) -> int {
    sat_s(
        fx_trunc_s(fx_mul_s(v4_length_s(tex_color_uv_s(m.specular, uv)), (256 * 65536) as int)),
        0,
        u32::MAX as int,
    )
}

/// The diffuse and specular sums over the first `k` lights: each light
/// adds a diffuse term weighted by its intensity over its squared
/// distance, and one intensity-weighted specular term.
pub open spec fn lit_light_acc_s(
    lights: Seq<LightV>,
    k: int,
    normal: V3,
    viewdir: V3,
    world: V3,
    nexp: nat,
) -> (V3, V3)
    decreases k,
{
    if k <= 0 {
        (V3 { x: 0, y: 0, z: 0 }, V3 { x: 0, y: 0, z: 0 })
    } else {
        let prev = lit_light_acc_s(lights, k - 1, normal, viewdir, world, nexp);
        let l = lights[k - 1];
        let dir = v3_sub_s(l.position, world);
        let distance = v3_length_s(dir);
        let light_dir = v3_normalize_s(dir);
        let r = reflect_s(normal, v3_neg_s(light_dir));
        let spec = fx_powi_s(fx_max_s(v3_dot_s(r, viewdir), 0), nexp);
        let sc = v3_add_s(prev.1, v3_scale_s(v3_scale_s(l.color, spec), l.intensity));
        let lc = v3_add_s(
            prev.0,
            v3_scale_s(
                v3_scale_s(l.color, fx_max_s(v3_dot_s(light_dir, normal), 0)),
                fx_div_s(l.intensity, fx_mul_s(distance, distance)),
            ),
        );
        (lc, sc)
    }
}

/// The lit fragment color: a tangent-space normal-map sample rotated into
/// world space by the renormalized TBN basis, Phong-style diffuse and
/// specular sums over all lights, and the albedo modulated by that light
/// plus the ambient term; alpha passes through from the albedo.
pub open spec fn lit_fragment_s(i: VertOutV, m: MatV, g: GlobalV) -> V4 {
    let tbn = M3V {
        c0: v3_normalize_s(i.tangent),
        c1: v3_normalize_s(i.bitangent),
        c2: v3_normalize_s(i.normal),
    };
    let normal_map = tex_color_uv_s(m.normal, i.uv);
    let n0 = v3_normalize_s(
        v3_sub_s(v3_scale_s(v4_xyz_s(normal_map), 131072), V3 { x: 65536, y: 65536, z: 65536 }),
    );
    let normal = v3_normalize_s(m3_mul_v3_s(tbn, n0));
    let albedo = tex_color_uv_s(m.albedo, i.uv);
    let alpha = albedo.w;
    let viewdir = v3_normalize_s(v3_sub_s(g.camera.position, i.world_position));
    let nexp = spec_exp_s(m, i.uv) as nat;
    let acc = lit_light_acc_s(
        g.lights,
        g.lights.len() as int,
        normal,
        viewdir,
        i.world_position,
        nexp,
    );
    let color = v3_add_s(g.ambient_light, v3_cmul_s(v4_xyz_s(albedo), v3_add_s(acc.0, acc.1)));
    V4 { x: color.x, y: color.y, z: color.z, w: alpha }
}

/// Phong-style lighting with tangent-space normal mapping.
pub struct LitShader {}

impl Shader for LitShader {
    open spec fn vertex_s(&self, v: VertexV, i: VertInV, g: GlobalV) -> VertOutV {
        generic_vertex_s(v, i)
    }

    open spec fn fragment_s(&self, i: VertOutV, m: MatV, g: GlobalV) -> V4 {
        lit_fragment_s(i, m, g)
    }

    fn vertex(&self, vertex: &Vertex, i: &VertInput, _globals: &GlobalData) -> (r: VertOutput) {
        generic_vertex(vertex, i)
    }

    fn fragment(&self, i: &VertOutput, material: &Material, globals: &GlobalData) -> (r: Fx4) {
        let tbn = Mat3::from_cols(
            i.tangent.normalized(),
            i.bitangent.normalized(),
            i.normal.normalized(),
        );
        let normal_map = material.normal_texture.get_color_uv(i.uv);
        let n0 = normal_map.xyz().scale(2 * SCALE).sub(Fx3::new(SCALE, SCALE, SCALE)).normalized();
        let normal = tbn.mul_v3(n0).normalized();

        let albedo = material.albedo_texture.get_color_uv(i.uv);
        let alpha = albedo.w;
        let viewdir = globals.camera.position.sub(i.world_position).normalized();

        let specular_power = fx_mul(
            material.specular_texture.get_color_uv(i.uv).length(),
            256 * SCALE,
        );
        let nexp: u32 = fx_trunc_u32(specular_power);

        let mut light_color = Fx3::zero();
        let mut specular_color = Fx3::zero();
        let nlights: usize = globals.lights.len();
        let mut k: usize = 0;
        while k < nlights
            invariant
                k <= nlights,
                nlights == globals.lights@.len(),
                (light_color@, specular_color@) == lit_light_acc_s(
                    globals@.lights,
                    k as int,
                    normal@,
                    viewdir@,
                    i.world_position@,
                    nexp as nat,
                ),
            decreases nlights - k,
        {
            let l = globals.lights[k];
            let dir = l.position.sub(i.world_position);
            let distance = dir.length();
            let light_dir = dir.normalized();

            let r = reflect(normal, light_dir.neg());
            let spec = fx_powi(fx_max(r.dot(viewdir), 0), nexp);
            specular_color = specular_color.add(l.color.scale(spec).scale(l.intensity));
            light_color = light_color.add(
                l.color.scale(fx_max(light_dir.dot(normal), 0)).scale(
                    fx_div(l.intensity, fx_mul(distance, distance)),
                ),
            );
            proof {
                assert(globals@.lights[k as int] == l@);
            }
            k = k + 1;
        }

        let color = globals.ambient_light.add(
            albedo.xyz().cmul(light_color.add(specular_color)),
        );
        Fx4::from_v3(color, alpha)
    }
}

/// The albedo sample, ignoring lights entirely.
pub struct UnlitShader {}

impl Shader for UnlitShader {
    open spec fn vertex_s(&self, v: VertexV, i: VertInV, g: GlobalV) -> VertOutV {
        generic_vertex_s(v, i)
    }

    open spec fn fragment_s(&self, i: VertOutV, m: MatV, g: GlobalV) -> V4 {
        tex_color_uv_s(m.albedo, i.uv)
    }

    fn vertex(&self, vertex: &Vertex, i: &VertInput, _globals: &GlobalData) -> (r: VertOutput) {
        generic_vertex(vertex, i)
    }

    fn fragment(&self, i: &VertOutput, material: &Material, _globals: &GlobalData) -> (r: Fx4) {
        material.albedo_texture.get_color_uv(i.uv)
    }
}

/// Which interpolated channel the debug shader visualizes.
#[derive(Clone, Copy, PartialEq, Eq, Structural, Debug)]
pub enum DebugMode {
    Uv,
    Normal,
    Position,
    Tangent,
    Bitangent,
    AlbedoMap,
    SpecularMap,
    NormalMap,
}

/// One selected channel of the debug shader's input.
pub open spec fn debug_fragment_s(mode: DebugMode, i: VertOutV, m: MatV) -> V4 {
    match mode {
        DebugMode::Uv => V4 { x: i.uv.x, y: i.uv.y, z: 0, w: 65536 },
        DebugMode::Normal => V4 { x: i.normal.x, y: i.normal.y, z: i.normal.z, w: 65536 },
        DebugMode::Position => V4 {
            x: i.world_position.x,
            y: i.world_position.y,
            z: i.world_position.z,
            w: 65536,
        },
        DebugMode::Tangent => V4 { x: i.tangent.x, y: i.tangent.y, z: i.tangent.z, w: 65536 },
        DebugMode::Bitangent => V4 {
            x: i.bitangent.x,
            y: i.bitangent.y,
            z: i.bitangent.z,
            w: 65536,
        },
        DebugMode::AlbedoMap => tex_color_uv_s(m.albedo, i.uv),
        DebugMode::SpecularMap => tex_color_uv_s(m.specular, i.uv),
        DebugMode::NormalMap => tex_color_uv_s(m.normal, i.uv),
    }
}

/// Visualizes one interpolated channel verbatim, for diagnostics.
pub struct DebugShader {
    pub mode: DebugMode,
}

impl Shader for DebugShader {
    open spec fn vertex_s(&self, v: VertexV, i: VertInV, g: GlobalV) -> VertOutV {
        generic_vertex_s(v, i)
    }

    open spec fn fragment_s(&self, i: VertOutV, m: MatV, g: GlobalV) -> V4 {
        debug_fragment_s(self.mode, i, m)
    }

    fn vertex(&self, vertex: &Vertex, i: &VertInput, _globals: &GlobalData) -> (r: VertOutput) {
        generic_vertex(vertex, i)
    }

    fn fragment(&self, i: &VertOutput, material: &Material, _globals: &GlobalData) -> (r: Fx4) {
        match self.mode {
            DebugMode::Uv => Fx4::new(i.uv.x, i.uv.y, 0, SCALE),
            DebugMode::Normal => Fx4::from_v3(i.normal, SCALE),
            DebugMode::Position => Fx4::from_v3(i.world_position, SCALE),
            DebugMode::Tangent => Fx4::from_v3(i.tangent, SCALE),
            DebugMode::Bitangent => Fx4::from_v3(i.bitangent, SCALE),
            DebugMode::AlbedoMap => material.albedo_texture.get_color_uv(i.uv),
            DebugMode::SpecularMap => material.specular_texture.get_color_uv(i.uv),
            DebugMode::NormalMap => material.normal_texture.get_color_uv(i.uv),
        }
    }
}

} // verus!
