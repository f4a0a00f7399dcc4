use emyrenderer::camera::Camera;
use emyrenderer::draw::interpolate_bc;
use emyrenderer::fixed::SCALE;
use emyrenderer::model::{Material, Vertex};
use emyrenderer::shader::{
    generic_vertex, interpolate_vertoutput, reflect, DebugMode, DebugShader, GlobalData, Shader,
    UnlitShader, VertInput, VertOutput,
};
use emyrenderer::texture::Texture;
use emyrenderer::vecmath::{Fx2, Fx3, Fx4, Mat4};

fn neutral_material() -> Material {
    Material {
        albedo_texture: Texture::white(),
        normal_texture: Texture::normal_default(),
        specular_texture: Texture::black(),
    }
}

fn plain_globals() -> GlobalData {
    GlobalData {
        ambient_light: Fx3::zero(),
        lights: Vec::new(),
        time: 0,
        camera: Camera::new(4, 4),
    }
}

fn identity_input() -> VertInput {
    VertInput {
        mvpv: Mat4::identity(),
        mvp: Mat4::identity(),
        mv: Mat4::identity(),
        m: Mat4::identity(),
        mit: Mat4::identity(),
    }
}

#[test]
fn reflect_mirrors_a_straight_on_ray() {
    let n = Fx3::new(0, SCALE, 0);
    let d = Fx3::new(0, -SCALE, 0);
    let r = reflect(n, d);
    assert_eq!(r, Fx3::new(0, SCALE, 0));
}

#[test]
fn reflect_leaves_a_parallel_ray_alone() {
    let n = Fx3::new(0, SCALE, 0);
    let d = Fx3::new(SCALE, 0, 0);
    assert_eq!(reflect(n, d), d);
}

#[test]
fn interpolate_bc_of_equal_scalars_is_near_exact() {
    // Weights summing exactly to one: one half and two quarters.
    let w = Fx3::new(32768, 16384, 16384);
    let a: i64 = 300000;
    assert_eq!(interpolate_bc(a, a, a, &w), a);
    // An odd value loses at most two raw units to truncation.
    let b: i64 = 99999;
    let r = interpolate_bc(b, b, b, &w);
    assert!((r - b).abs() <= 2);
    assert_eq!(r, 99997);
}

#[test]
fn interpolate_vertoutput_blends_every_attribute() {
    let mk = |p: i64| VertOutput {
        position: Fx3::new(p, 0, 0),
        world_position: Fx3::new(0, p, 0),
        uv: Fx2::new(p, p),
        normal: Fx3::new(0, 0, p),
        tangent: Fx3::new(p, p, 0),
        bitangent: Fx3::new(0, p, p),
    };
    let a = mk(2 * SCALE);
    let b = mk(4 * SCALE);
    let c = mk(6 * SCALE);
    let w = Fx3::new(32768, 16384, 16384);
    let r = interpolate_vertoutput(&a, &b, &c, &w);
    // 2*0.5 + 4*0.25 + 6*0.25 = 3.5
    let expect = 229376;
    assert_eq!(r.position.x, expect);
    assert_eq!(r.world_position.y, expect);
    assert_eq!(r.uv.x, expect);
    assert_eq!(r.normal.z, expect);
}

#[test]
fn generic_vertex_with_identity_matrices_passes_positions_through() {
    let v = Vertex {
        position: Fx3::new(3 * SCALE, -2 * SCALE, SCALE / 2),
        uv: Fx2::new(100, 200),
        normal: Fx3::new(0, SCALE, 0),
        tangent: Fx3::new(SCALE, 0, 0),
        bitangent: Fx3::new(0, 0, SCALE),
    };
    let out = generic_vertex(&v, &identity_input());
    assert_eq!(out.position, v.position);
    assert_eq!(out.world_position, v.position);
    assert_eq!(out.uv, v.uv);
    assert_eq!(out.normal, v.normal);
    assert_eq!(out.tangent, v.tangent);
    assert_eq!(out.bitangent, v.bitangent);
}

#[test]
fn unlit_fragment_returns_the_albedo_sample() {
    let shader = UnlitShader {};
    let material = neutral_material();
    let globals = plain_globals();
    let vo = VertOutput {
        position: Fx3::zero(),
        world_position: Fx3::zero(),
        uv: Fx2::new(0, 0),
        normal: Fx3::zero(),
        tangent: Fx3::zero(),
        bitangent: Fx3::zero(),
    };
    let c = shader.fragment(&vo, &material, &globals);
    assert_eq!(c, Fx4::new(SCALE, SCALE, SCALE, SCALE));
}

#[test]
fn lit_fragment_with_no_lights_is_the_ambient_term() {
    let shader = emyrenderer::shader::LitShader {};
    let material = neutral_material();
    let mut globals = plain_globals();
    globals.ambient_light = Fx3::new(SCALE / 2, SCALE / 4, 0);
    let vo = VertOutput {
        position: Fx3::zero(),
        world_position: Fx3::zero(),
        uv: Fx2::new(0, 0),
        normal: Fx3::new(0, 0, SCALE),
        tangent: Fx3::new(SCALE, 0, 0),
        bitangent: Fx3::new(0, SCALE, 0),
    };
    let c = shader.fragment(&vo, &material, &globals);
    // With no lights the light sums are zero, so the color is the ambient
    // term alone; alpha passes through from the opaque white albedo.
    assert_eq!(c, Fx4::new(SCALE / 2, SCALE / 4, 0, SCALE));
}

#[test]
fn lit_fragment_diffuse_light_adds_to_ambient() {
    // One light straight above a fragment whose mapped normal points up
    // the z axis; the diffuse and specular terms follow the exact
    // fixed-point formulas, so the result is ambient plus a positive
    // contribution in every channel the light carries.
    let shader = emyrenderer::shader::LitShader {};
    let material = neutral_material();
    let mut globals = plain_globals();
    globals.ambient_light = Fx3::zero();
    globals.lights.push(emyrenderer::shader::Light {
        position: Fx3::new(0, 0, 2 * SCALE),
        color: Fx3::new(SCALE, SCALE, 0),
        intensity: SCALE,
    });
    let vo = VertOutput {
        position: Fx3::zero(),
        world_position: Fx3::zero(),
        uv: Fx2::new(0, 0),
        normal: Fx3::new(0, 0, SCALE),
        tangent: Fx3::new(SCALE, 0, 0),
        bitangent: Fx3::new(0, SCALE, 0),
    };
    let c = shader.fragment(&vo, &material, &globals);
    // The light is yellow: red and green channels rise, blue stays zero.
    assert!(c.x > 0);
    assert_eq!(c.x, c.y);
    assert_eq!(c.z, 0);
    assert_eq!(c.w, SCALE);
}

#[test]
fn debug_shader_reports_the_selected_channel() {
    let material = neutral_material();
    let globals = plain_globals();
    let vo = VertOutput {
        position: Fx3::zero(),
        world_position: Fx3::new(7, 8, 9),
        uv: Fx2::new(11, 12),
        normal: Fx3::new(1, 2, 3),
        tangent: Fx3::new(4, 5, 6),
        bitangent: Fx3::new(14, 15, 16),
    };
    let uv_shader = DebugShader { mode: DebugMode::Uv };
    assert_eq!(uv_shader.fragment(&vo, &material, &globals), Fx4::new(11, 12, 0, SCALE));
    let n_shader = DebugShader { mode: DebugMode::Normal };
    assert_eq!(n_shader.fragment(&vo, &material, &globals), Fx4::new(1, 2, 3, SCALE));
    let p_shader = DebugShader { mode: DebugMode::Position };
    assert_eq!(p_shader.fragment(&vo, &material, &globals), Fx4::new(7, 8, 9, SCALE));
    let a_shader = DebugShader { mode: DebugMode::AlbedoMap };
    assert_eq!(
        a_shader.fragment(&vo, &material, &globals),
        Fx4::new(SCALE, SCALE, SCALE, SCALE)
    );
}
