use emyrenderer::fixed::SCALE;
use emyrenderer::model::{Material, Model};
use emyrenderer::texture::Texture;
use emyrenderer::vecmath::Fx3;

fn neutral_material() -> Material {
    Material {
        albedo_texture: Texture::white(),
        normal_texture: Texture::normal_default(),
        specular_texture: Texture::black(),
    }
}

fn unit_triangle() -> (Vec<i64>, Vec<i64>, Vec<i64>, Vec<usize>) {
    let positions = vec![0, 0, 0, SCALE, 0, 0, 0, SCALE, 0];
    let normals = vec![0, 0, SCALE, 0, 0, SCALE, 0, 0, SCALE];
    let texcoords = vec![0, 0, SCALE, 0, 0, SCALE];
    let indices = vec![0usize, 1, 2];
    (positions, normals, texcoords, indices)
}

#[test]
fn build_assembles_one_face_with_its_tangent_basis() {
    let (p, n, t, i) = unit_triangle();
    let m = Model::build("tri".to_string(), p, n, t, i, neutral_material()).unwrap();
    assert_eq!(m.name, "tri");
    assert_eq!(m.vertices.len(), 3);
    assert_eq!(m.faces.len(), 1);
    let face = m.faces[0];
    assert_eq!(face.vertices, [0, 1, 2]);
    // normal = normalize(cross(p2 - p0, p1 - p0)) = (0, 0, -1)
    assert_eq!(face.normal, Fx3::new(0, 0, -SCALE));
    // UV deltas (1,0) and (-1,1) give denominator 1, tangent (1,0,0) and
    // bitangent (0,1,0).
    assert_eq!(face.tangent, Fx3::new(SCALE, 0, 0));
    assert_eq!(face.bitangent, Fx3::new(0, SCALE, 0));
    // Every corner vertex receives the face's tangent basis.
    for v in &m.vertices {
        assert_eq!(v.tangent, Fx3::new(SCALE, 0, 0));
        assert_eq!(v.bitangent, Fx3::new(0, SCALE, 0));
    }
    assert_eq!(m.vertices[1].position, Fx3::new(SCALE, 0, 0));
    assert_eq!(m.vertices[2].normal, Fx3::new(0, 0, SCALE));
}

#[test]
fn build_rejects_an_out_of_range_face_index() {
    let (p, n, t, _) = unit_triangle();
    let bad = vec![0usize, 1, 3];
    assert!(Model::build("x".to_string(), p, n, t, bad, neutral_material()).is_none());
}

#[test]
fn build_rejects_mismatched_attribute_lengths() {
    let (p, n, t, i) = unit_triangle();
    let mut short_normals = n.clone();
    short_normals.pop();
    assert!(
        Model::build("x".to_string(), p.clone(), short_normals, t.clone(), i.clone(),
            neutral_material()).is_none()
    );
    let mut short_uvs = t.clone();
    short_uvs.pop();
    assert!(
        Model::build("x".to_string(), p.clone(), n.clone(), short_uvs, i.clone(),
            neutral_material()).is_none()
    );
    let ragged = vec![0usize, 1];
    assert!(
        Model::build("x".to_string(), p, n, t, ragged, neutral_material()).is_none()
    );
}

#[test]
fn later_faces_overwrite_shared_vertex_tangents() {
    // Two faces sharing vertices 1 and 2, with different UV layouts so
    // their tangents differ; the second face's basis wins on the shared
    // vertices.
    let positions = vec![
        0, 0, 0, SCALE, 0, 0, 0, SCALE, 0, SCALE, SCALE, 0,
    ];
    let normals = vec![0, 0, SCALE, 0, 0, SCALE, 0, 0, SCALE, 0, 0, SCALE];
    let texcoords = vec![0, 0, SCALE, 0, 0, SCALE, 2 * SCALE, 2 * SCALE];
    let indices = vec![0usize, 1, 2, 1, 3, 2];
    let m = Model::build("quad".to_string(), positions, normals, texcoords, indices,
        neutral_material()).unwrap();
    assert_eq!(m.faces.len(), 2);
    let f0 = m.faces[0];
    let f1 = m.faces[1];
    assert_ne!(f0.tangent, f1.tangent);
    // Vertex 0 keeps the first face's basis; shared vertices hold the last
    // writer's basis.
    assert_eq!(m.vertices[0].tangent, f0.tangent);
    assert_eq!(m.vertices[1].tangent, f1.tangent);
    assert_eq!(m.vertices[2].tangent, f1.tangent);
    assert_eq!(m.vertices[3].tangent, f1.tangent);
}
