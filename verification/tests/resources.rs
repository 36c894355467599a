use render_core::resources::BindingResource;
use render_core::resources::MaterialSource;
use render_core::resources::SubMesh;
use render_core::resources::describe_model;
use render_core::resources::index_buffer_bytes;
use render_core::resources::material_binding_slots;
use render_core::resources::material_desc;
use render_core::resources::mesh_desc;
use render_core::resources::prepare_sub_mesh;
use render_core::resources::sibling_path;
use render_core::resources::vertex_buffer_bytes;

fn bits(xs: &[f32]) -> Vec<u32> {
    xs.iter().map(|x| x.to_bits()).collect()
}

/// One right-angle triangle with axis-aligned texture coordinates.
fn one_triangle() -> SubMesh {
    SubMesh {
        positions: bits(&[0.0, 0.0, 0.0, 1.0, 0.0, 0.0, 0.0, 1.0, 0.0]),
        texcoords: bits(&[0.0, 0.0, 1.0, 0.0, 0.0, 1.0]),
        normals: bits(&[0.0, 0.0, 1.0, 0.0, 0.0, 1.0, 0.0, 0.0, 1.0]),
        indices: vec![0, 1, 2],
        material_id: None,
    }
}

#[test]
fn sibling_path_replaces_file_name_only() {
    let path = b"models/scene/cube.obj".to_vec();
    let file = b"cube-diffuse.png".to_vec();
    assert_eq!(sibling_path(&path, &file), b"models/scene/cube-diffuse.png".to_vec());
}

#[test]
fn sibling_path_without_directory_is_the_file_name() {
    let path = b"cube.obj".to_vec();
    let file = b"cube.mtl".to_vec();
    assert_eq!(sibling_path(&path, &file), b"cube.mtl".to_vec());
}

#[test]
fn binding_slots_come_in_fixed_order() {
    let slots = material_binding_slots();
    assert_eq!(slots.len(), 4);
    let expected = [
        (0, BindingResource::DiffuseView),
        (1, BindingResource::DiffuseSampler),
        (2, BindingResource::NormalView),
        (3, BindingResource::NormalSampler),
    ];
    for (slot, (binding, resource)) in slots.iter().zip(expected.iter()) {
        assert_eq!(slot.binding, *binding);
        assert_eq!(slot.resource, *resource);
    }
}

#[test]
fn vertices_copy_attributes_and_seed_zero_tangents() {
    let (vs, counters) = prepare_sub_mesh(&one_triangle());
    assert_eq!(vs.len(), 3);
    assert_eq!(vs[1].position, [1.0f32.to_bits(), 0.0f32.to_bits(), 0.0f32.to_bits()]);
    assert_eq!(vs[1].tex_coords, [1.0f32.to_bits(), 0.0f32.to_bits()]);
    assert_eq!(vs[2].normal, [0.0f32.to_bits(), 0.0f32.to_bits(), 1.0f32.to_bits()]);
    for v in &vs {
        assert_eq!(v.tangent, [0, 0, 0]);
        assert_eq!(v.bitangent, [0, 0, 0]);
    }
    // Every counter is seeded with 1 and gains one per incident slot.
    assert_eq!(counters, vec![2, 2, 2]);
}

#[test]
fn shared_vertex_counter_gains_one_per_triangle() {
    // Two triangles sharing the edge (1, 2); four vertices.
    let sub = SubMesh {
        positions: bits(&[
            0.0, 0.0, 0.0, 1.0, 0.0, 0.0, 0.0, 1.0, 0.0, 1.0, 1.0, 0.0,
        ]),
        texcoords: bits(&[0.0, 0.0, 1.0, 0.0, 0.0, 1.0, 1.0, 1.0]),
        normals: bits(&[
            0.0, 0.0, 1.0, 0.0, 0.0, 1.0, 0.0, 0.0, 1.0, 0.0, 0.0, 1.0,
        ]),
        indices: vec![0, 1, 2, 1, 3, 2],
        material_id: Some(0),
    };
    let (vs, counters) = prepare_sub_mesh(&sub);
    assert_eq!(vs.len(), 4);
    // Vertex 1 sits in exactly two triangles: divisor 1 + 2.
    assert_eq!(counters[1], 3);
    // Vertex 0 sits in one triangle: divisor 1 + 1.
    assert_eq!(counters[0], 2);
    assert_eq!(counters, vec![2, 3, 3, 2]);
}

#[test]
fn untouched_vertex_keeps_its_seed() {
    // Four vertices, one triangle: vertex 3 is referenced by no triangle
    // and keeps its seed of 1.
    let sub = SubMesh {
        positions: bits(&[
            0.0, 0.0, 0.0, 1.0, 0.0, 0.0, 0.0, 1.0, 0.0, 5.0, 5.0, 5.0,
        ]),
        texcoords: bits(&[0.0, 0.0, 1.0, 0.0, 0.0, 1.0, 0.5, 0.5]),
        normals: bits(&[
            0.0, 0.0, 1.0, 0.0, 0.0, 1.0, 0.0, 0.0, 1.0, 0.0, 0.0, 1.0,
        ]),
        indices: vec![0, 1, 2],
        material_id: None,
    };
    let (_, counters) = prepare_sub_mesh(&sub);
    assert_eq!(counters[3], 1);
}

#[test]
fn mesh_desc_counts_elements_and_defaults_material() {
    let file = b"cube.obj".to_vec();
    let sub = one_triangle();
    let d = mesh_desc(&file, &sub);
    assert_eq!(d.name, file);
    assert_eq!(d.num_elements, 3);
    assert_eq!(d.material, 0);

    let mut with_material = one_triangle();
    with_material.material_id = Some(2);
    let d2 = mesh_desc(&file, &with_material);
    assert_eq!(d2.material, 2);
}

#[test]
fn material_desc_resolves_textures_next_to_the_asset() {
    let file = b"models/scene/cube.obj".to_vec();
    let source = MaterialSource {
        name: b"stone".to_vec(),
        diffuse_texture: b"cube-diffuse.png".to_vec(),
        normal_texture: b"cube-normal.png".to_vec(),
    };
    let d = material_desc(&file, &source);
    assert_eq!(d.name, b"stone".to_vec());
    assert_eq!(d.diffuse_path, b"models/scene/cube-diffuse.png".to_vec());
    assert_eq!(d.normal_path, b"models/scene/cube-normal.png".to_vec());
}

#[test]
fn one_triangle_model_has_one_mesh_and_one_material() {
    let file = b"cube.obj".to_vec();
    let subs = vec![one_triangle()];
    let mats = vec![MaterialSource {
        name: b"stone".to_vec(),
        diffuse_texture: b"d.png".to_vec(),
        normal_texture: b"n.png".to_vec(),
    }];
    let model = describe_model(&file, &subs, &mats);
    assert_eq!(model.meshes.len(), 1);
    assert_eq!(model.meshes[0].num_elements, 3);
    assert_eq!(model.meshes[0].name, file);
    assert_eq!(model.materials.len(), 1);
    assert_eq!(model.materials[0].diffuse_path, b"d.png".to_vec());
    assert_eq!(model.materials[0].normal_path, b"n.png".to_vec());
}

#[test]
fn every_mesh_carries_the_asset_name() {
    // Two sub-meshes: both descriptors carry the same asset path as their
    // name; names are not de-duplicated per sub-mesh.
    let file = b"scene.obj".to_vec();
    let subs = vec![one_triangle(), one_triangle()];
    let model = describe_model(&file, &subs, &vec![]);
    assert_eq!(model.meshes.len(), 2);
    assert_eq!(model.meshes[0].name, file);
    assert_eq!(model.meshes[1].name, file);
}

#[test]
fn index_buffer_is_little_endian() {
    let indices: Vec<u32> = vec![1, 0x0102_0304];
    let b = index_buffer_bytes(&indices);
    assert_eq!(b, vec![1, 0, 0, 0, 0x04, 0x03, 0x02, 0x01]);
}

#[test]
fn vertex_buffer_packs_fields_in_order() {
    let (vs, _) = prepare_sub_mesh(&one_triangle());
    let b = vertex_buffer_bytes(&vs);
    assert_eq!(b.len(), 3 * 56);
    // Vertex 1 starts at byte 56: position x is 1.0.
    assert_eq!(&b[56..60], &1.0f32.to_bits().to_le_bytes());
    // Its texture coordinates start at byte 56 + 12.
    assert_eq!(&b[68..72], &1.0f32.to_bits().to_le_bytes());
    assert_eq!(&b[72..76], &0.0f32.to_bits().to_le_bytes());
    // Its normal starts at byte 56 + 20; z is 1.0.
    assert_eq!(&b[84..88], &1.0f32.to_bits().to_le_bytes());
    // Tangent and bitangent, bytes 56 + 32 .. 56 + 56, are all zero seeds.
    assert!(b[88..112].iter().all(|&x| x == 0));
}
