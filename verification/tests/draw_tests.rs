use emyrenderer::camera::Camera;
use emyrenderer::draw::{to_barycentric, Canvas};
use emyrenderer::fixed::SCALE;
use emyrenderer::model::{Material, Vertex};
use emyrenderer::shader::{GlobalData, UnlitShader, VertInput};
use emyrenderer::texture::Texture;
use emyrenderer::vecmath::{Fx2, Fx3, Fx4, Mat4};

fn neutral_material() -> Material {
    Material {
        albedo_texture: Texture::white(),
        normal_texture: Texture::normal_default(),
        specular_texture: Texture::black(),
    }
}

fn plain_globals(w: u32, h: u32) -> GlobalData {
    GlobalData {
        ambient_light: Fx3::zero(),
        lights: Vec::new(),
        time: 0,
        camera: Camera::new(w, h),
    }
}

fn identity_input() -> VertInput {
    VertInput {
        mvpv: Mat4::identity(),
        mvp: Mat4::identity(),
        mv: Mat4::identity(),
        m: Mat4::identity(),
        mit: Mat4::identity(),
    }
}

fn screen_vertex(x: i64, y: i64, z: i64) -> Vertex {
    Vertex {
        position: Fx3::new(x, y, z),
        uv: Fx2::new(0, 0),
        normal: Fx3::zero(),
        tangent: Fx3::zero(),
        bitangent: Fx3::zero(),
    }
}

#[test]
fn new_canvas_is_black_and_infinitely_far() {
    let c = Canvas::new(2, 3);
    assert_eq!(c.width, 2);
    assert_eq!(c.height, 3);
    assert_eq!(c.frame, vec![0u8; 24]);
    assert_eq!(c.depth_buffer, vec![i64::MIN; 6]);
}

#[test]
fn clear_frame_resets_to_gray_and_far() {
    let mut c = Canvas::new(2, 2);
    c.set_pixel(0, 0, &Fx4::new(SCALE, SCALE, SCALE, SCALE));
    c.set_pixel_depth(0, 0, 42);
    c.clear_frame();
    assert_eq!(c.frame, vec![128u8; 16]);
    assert_eq!(c.depth_buffer, vec![i64::MIN; 4]);
}

#[test]
fn set_pixel_writes_scaled_bytes_in_bounds_only() {
    let mut c = Canvas::new(2, 2);
    c.set_pixel(1, 0, &Fx4::new(SCALE, SCALE / 2, 0, SCALE));
    assert_eq!(&c.frame[4..8], &[255, 127, 0, 255]);
    let before = c.frame.clone();
    c.set_pixel(2, 0, &Fx4::new(SCALE, SCALE, SCALE, SCALE));
    c.set_pixel(-1, 0, &Fx4::new(SCALE, SCALE, SCALE, SCALE));
    c.set_pixel(0, 5, &Fx4::new(SCALE, SCALE, SCALE, SCALE));
    assert_eq!(c.frame, before);
}

#[test]
fn depth_reads_give_nearest_outside_the_canvas() {
    let mut c = Canvas::new(2, 2);
    assert_eq!(c.get_pixel_depth(0, 0), i64::MIN);
    c.set_pixel_depth(1, 1, 7);
    assert_eq!(c.get_pixel_depth(1, 1), 7);
    assert_eq!(c.get_pixel_depth(-1, 0), i64::MAX);
    assert_eq!(c.get_pixel_depth(2, 0), i64::MAX);
    // An out-of-bounds write is silently dropped.
    c.set_pixel_depth(5, 5, 9);
    assert_eq!(c.get_pixel_depth(1, 1), 7);
}

#[test]
fn draw_line_marks_a_horizontal_run() {
    let mut c = Canvas::new(4, 4);
    c.draw_line(0, 1, 3, 1, &Fx4::new(SCALE, SCALE, SCALE, SCALE));
    // The walk covers columns 0..3 at row 1 (the end column is exclusive).
    for x in 0..3usize {
        let base = (1 * 4 + x) * 4;
        assert_eq!(&c.frame[base..base + 4], &[255, 255, 255, 255]);
    }
    let last = (1 * 4 + 3) * 4;
    assert_eq!(&c.frame[last..last + 4], &[0, 0, 0, 0]);
}

#[test]
fn barycentric_at_the_vertices_is_the_unit_basis() {
    let a = Fx3::new(0, 3 * SCALE, 0);
    let b = Fx3::new(4 * SCALE, 3 * SCALE, 0);
    let c = Fx3::new(2 * SCALE, 0, 0);
    assert_eq!(to_barycentric(a, b, c, a), Fx3::new(SCALE, 0, 0));
    assert_eq!(to_barycentric(a, b, c, b), Fx3::new(0, SCALE, 0));
    assert_eq!(to_barycentric(a, b, c, c), Fx3::new(0, 0, SCALE));
}

#[test]
fn barycentric_rejects_a_degenerate_triangle() {
    let a = Fx3::new(0, 0, 0);
    let b = Fx3::new(SCALE, 0, 0);
    let c = Fx3::new(2 * SCALE, 0, 0);
    let bc = to_barycentric(a, b, c, Fx3::new(SCALE, 0, 0));
    assert_eq!(bc, Fx3::new(-SCALE, SCALE, SCALE));
}

#[test]
fn single_triangle_fill_writes_white_and_its_depth() {
    // A triangle with screen corners (0,3), (4,3), (2,0) at depth 0.5 on a
    // 4x4 canvas, drawn flat white by the unlit shader.
    let mut canvas = Canvas::new(4, 4);
    canvas.clear_frame();
    let half = SCALE / 2;
    let v0 = screen_vertex(0, 3 * SCALE, half);
    let v1 = screen_vertex(4 * SCALE, 3 * SCALE, half);
    let v2 = screen_vertex(2 * SCALE, 0, half);
    let shader = UnlitShader {};
    let material = neutral_material();
    let globals = plain_globals(4, 4);
    let vin = identity_input();
    canvas.draw_triangle(&v0, &v1, &v2, &shader, &material, &vin, &globals, false);

    // The pixels whose barycentric test passes inside the clamped box,
    // the box's max row and column included.
    let covered = [
        (2usize, 0usize),
        (2, 1),
        (1, 2),
        (2, 2),
        (3, 2),
        (0, 3),
        (1, 3),
        (2, 3),
        (3, 3),
    ];
    for (x, y) in covered.iter() {
        let base = (y * 4 + x) * 4;
        assert_eq!(&canvas.frame[base..base + 4], &[255, 255, 255, 255]);
        let d = canvas.depth_buffer[y * 4 + x];
        // Interpolating a constant 0.5 loses at most two raw units.
        assert!(half - 2 <= d && d <= half);
    }
    // The top corner pixel and the bottom edge row keep the exact depth.
    assert_eq!(canvas.depth_buffer[0 * 4 + 2], half);
    for x in 0..4usize {
        assert_eq!(canvas.depth_buffer[3 * 4 + x], half);
    }

    // Every other pixel keeps the cleared gray and the cleared depth.
    for y in 0..4usize {
        for x in 0..4usize {
            if covered.contains(&(x, y)) {
                continue;
            }
            let base = (y * 4 + x) * 4;
            assert_eq!(&canvas.frame[base..base + 4], &[128, 128, 128, 128]);
            assert_eq!(canvas.depth_buffer[y * 4 + x], i64::MIN);
        }
    }
}

#[test]
fn offscreen_triangle_mutates_nothing() {
    let mut canvas = Canvas::new(4, 4);
    canvas.clear_frame();
    let frame_before = canvas.frame.clone();
    let depth_before = canvas.depth_buffer.clone();
    let v0 = screen_vertex(-9 * SCALE, 0, 0);
    let v1 = screen_vertex(-5 * SCALE, 3 * SCALE, 0);
    let v2 = screen_vertex(-2 * SCALE, -4 * SCALE, 0);
    let shader = UnlitShader {};
    let material = neutral_material();
    let globals = plain_globals(4, 4);
    let vin = identity_input();
    canvas.draw_triangle(&v0, &v1, &v2, &shader, &material, &vin, &globals, false);
    assert_eq!(canvas.frame, frame_before);
    assert_eq!(canvas.depth_buffer, depth_before);
}

#[test]
fn drawing_the_same_triangle_twice_changes_nothing() {
    let mut canvas = Canvas::new(4, 4);
    canvas.clear_frame();
    let half = SCALE / 2;
    let v0 = screen_vertex(0, 3 * SCALE, half);
    let v1 = screen_vertex(4 * SCALE, 3 * SCALE, half);
    let v2 = screen_vertex(2 * SCALE, 0, half);
    let shader = UnlitShader {};
    let material = neutral_material();
    let globals = plain_globals(4, 4);
    let vin = identity_input();
    canvas.draw_triangle(&v0, &v1, &v2, &shader, &material, &vin, &globals, false);
    let frame_once = canvas.frame.clone();
    let depth_once = canvas.depth_buffer.clone();
    canvas.draw_triangle(&v0, &v1, &v2, &shader, &material, &vin, &globals, false);
    assert_eq!(canvas.frame, frame_once);
    assert_eq!(canvas.depth_buffer, depth_once);
}

#[test]
fn wireframe_draws_edges_without_touching_depth() {
    let mut canvas = Canvas::new(4, 4);
    canvas.clear_frame();
    let depth_before = canvas.depth_buffer.clone();
    let v0 = screen_vertex(0, 0, 0);
    let v1 = screen_vertex(3 * SCALE, 0, 0);
    let v2 = screen_vertex(0, 3 * SCALE, 0);
    let shader = UnlitShader {};
    let material = neutral_material();
    let globals = plain_globals(4, 4);
    let vin = identity_input();
    canvas.draw_triangle(&v0, &v1, &v2, &shader, &material, &vin, &globals, true);
    // The horizontal edge from (0,0) toward (3,0) marks columns 0..3.
    assert_eq!(&canvas.frame[0..4], &[255, 255, 255, 255]);
    assert_eq!(&canvas.frame[4..8], &[255, 255, 255, 255]);
    assert_eq!(&canvas.frame[8..12], &[255, 255, 255, 255]);
    // The depth buffer is untouched by wireframe drawing.
    assert_eq!(canvas.depth_buffer, depth_before);
}

#[test]
fn draw_model_rasterizes_every_face() {
    // A model already in screen coordinates, drawn through an identity
    // camera: draw_model must produce the same buffers as the direct
    // draw_triangle call.
    let positions = vec![
        0, 3 * SCALE, SCALE / 2, 4 * SCALE, 3 * SCALE, SCALE / 2, 2 * SCALE, 0, SCALE / 2,
    ];
    let normals = vec![0, 0, SCALE, 0, 0, SCALE, 0, 0, SCALE];
    let texcoords = vec![0, 0, 0, 0, 0, 0];
    let indices = vec![0usize, 1, 2];
    let model = emyrenderer::model::Model::build(
        "tri".to_string(),
        positions,
        normals,
        texcoords,
        indices,
        neutral_material(),
    )
    .unwrap();
    let identity_camera = Camera {
        view: Mat4::identity(),
        projection: Mat4::identity(),
        viewport: Mat4::identity(),
        position: Fx3::new(0, 0, SCALE),
    };
    let globals = GlobalData {
        ambient_light: Fx3::zero(),
        lights: Vec::new(),
        time: 0,
        camera: identity_camera,
    };
    let shader = UnlitShader {};
    let mut canvas = Canvas::new(4, 4);
    canvas.clear_frame();
    canvas.draw_model(&model, &shader, &globals, false);

    let mut direct = Canvas::new(4, 4);
    direct.clear_frame();
    let v0 = screen_vertex(0, 3 * SCALE, SCALE / 2);
    let v1 = screen_vertex(4 * SCALE, 3 * SCALE, SCALE / 2);
    let v2 = screen_vertex(2 * SCALE, 0, SCALE / 2);
    let material = neutral_material();
    let vin = identity_input();
    direct.draw_triangle(&v0, &v1, &v2, &shader, &material, &vin, &globals, false);
    assert_eq!(canvas.frame, direct.frame);
    assert_eq!(canvas.depth_buffer, direct.depth_buffer);
    // And something was actually drawn.
    let base = (2 * 4 + 2) * 4;
    assert_eq!(&canvas.frame[base..base + 4], &[255, 255, 255, 255]);
}

#[test]
fn to_screen_space_flips_y() {
    let canvas = Canvas::new(4, 4);
    let p = canvas.to_screen_space(&Fx3::new(0, 0, 12345));
    assert_eq!(p, Fx3::new(2 * SCALE, 2 * SCALE, 12345));
    let q = canvas.to_screen_space(&Fx3::new(-SCALE, SCALE, 7));
    assert_eq!(q, Fx3::new(0, 0, 7));
    let r = canvas.to_screen_space(&Fx3::new(SCALE, -SCALE, 7));
    assert_eq!(r, Fx3::new(4 * SCALE, 4 * SCALE, 7));
}
