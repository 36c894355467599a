//! The model loader's preparation work: texture path resolution, per-vertex
//! attribute assembly, triangle-incidence counting for tangent averaging,
//! descriptors for the meshes and materials of a loaded model, and the
//! packed layouts of the vertex and index buffers.
//!
//! Scalar attributes (positions, texture coordinates, normals, tangents)
//! are IEEE-754 single-precision bit patterns carried as `u32`; this module
//! copies and arranges them but never does arithmetic on them. The tangent
//! and bitangent accumulation itself is floating-point work done by the
//! renderer around this crate; what is verified here is everything the
//! accumulation is wired through: which vertex gets which attribute, and
//! the divisor each vertex's running sums are averaged by.

use vstd::prelude::*;

use crate::layout::{bytes_of_words, words_to_bytes};

verus! {

/// The ASCII path separator.
pub const PATH_SEPARATOR: u8 = 47;

/// One GPU-ready vertex: position, texture coordinates, normal, tangent and
/// bitangent, each component an IEEE-754 single-precision bit pattern.
#[derive(Clone, Copy, Debug)]
pub struct ModelVertex {
    pub position: [u32; 3],
    pub tex_coords: [u32; 2],
    pub normal: [u32; 3],
    pub tangent: [u32; 3],
    pub bitangent: [u32; 3],
}

/// One sub-mesh as the geometry parser delivers it: flat attribute arrays
/// (bit patterns) and a triangulated, single-indexed index list, plus the
/// index of the material the sub-mesh uses, if it names one.
#[derive(Clone, Debug)]
pub struct SubMesh {
    pub positions: Vec<u32>,
    pub texcoords: Vec<u32>,
    pub normals: Vec<u32>,
    pub indices: Vec<u32>,
    pub material_id: Option<usize>,
}

/// One material entry as the material parser delivers it: a name and the
/// file names of the diffuse and normal textures, all UTF-8 bytes.
#[derive(Clone, Debug)]
pub struct MaterialSource {
    pub name: Vec<u8>,
    pub diffuse_texture: Vec<u8>,
    pub normal_texture: Vec<u8>,
}

/// What the renderer needs to know about one finished mesh besides its GPU
/// buffers: its name (the loaded asset's path), how many indices it draws,
/// and which material it binds.
#[derive(Clone, Debug)]
pub struct MeshDesc {
    pub name: Vec<u8>,
    pub num_elements: u32,
    pub material: usize,
}

/// What the renderer needs to know about one material before it decodes
/// textures and builds the bind group: its name and the resolved paths of
/// its two textures.
#[derive(Clone, Debug)]
pub struct MaterialDesc {
    pub name: Vec<u8>,
    pub diffuse_path: Vec<u8>,
    pub normal_path: Vec<u8>,
}

/// The plain description of a loaded model: one entry per sub-mesh and one
/// per material, in source order.
#[derive(Clone, Debug)]
pub struct ModelDesc {
    pub meshes: Vec<MeshDesc>,
    pub materials: Vec<MaterialDesc>,
}

/// The resource bound at each slot of a material's bind group.
#[derive(Clone, Copy, Debug, PartialEq, Eq, Structural)]
pub enum BindingResource {
    DiffuseView,
    DiffuseSampler,
    NormalView,
    NormalSampler,
}

/// One slot of a material's bind group: a binding index and the resource
/// bound there.
#[derive(Clone, Copy, Debug, PartialEq, Eq, Structural)]
pub struct BindingSlot {
    pub binding: u32,
    pub resource: BindingResource,
}

/// The fixed four-slot order of a material's bind group. The bind-group
/// layout the renderer creates must bind the same resources at the same
/// indices, or descriptor validation fails.
pub fn material_binding_slots() -> (slots: Vec<BindingSlot>)
    ensures
        slots@ =~= seq![
            BindingSlot { binding: 0, resource: BindingResource::DiffuseView },
            BindingSlot { binding: 1, resource: BindingResource::DiffuseSampler },
            BindingSlot { binding: 2, resource: BindingResource::NormalView },
            BindingSlot { binding: 3, resource: BindingResource::NormalSampler },
        ],
{
    let mut slots: Vec<BindingSlot> = Vec::new();
    slots.push(BindingSlot { binding: 0, resource: BindingResource::DiffuseView });
    slots.push(BindingSlot { binding: 1, resource: BindingResource::DiffuseSampler });
    slots.push(BindingSlot { binding: 2, resource: BindingResource::NormalView });
    slots.push(BindingSlot { binding: 3, resource: BindingResource::NormalSampler });
    slots
}

/// The length of `p`'s directory prefix: everything up to and including the
/// last path separator, or 0 when `p` holds none.
pub open spec fn dir_prefix_len(p: Seq<u8>) -> int
    decreases p.len(),
{
    if p.len() == 0 {
        0
    } else if p.last() == PATH_SEPARATOR {
        p.len() as int
    } else {
        dir_prefix_len(p.drop_last())
    }
}

/// `file` placed next to `p`: `p`'s file-name component (everything after
/// the last separator) replaced by `file`, the directory kept.
pub open spec fn sibling_path_spec(p: Seq<u8>, file: Seq<u8>) -> Seq<u8> {
    p.take(dir_prefix_len(p)) + file
}

/// Resolves a file named by a loaded asset (a material library, a texture)
/// relative to the asset's own path: the path's file-name component is
/// replaced by `file_name` and the directory is preserved.
pub fn sibling_path(path: &Vec<u8>, file_name: &Vec<u8>) -> (r: Vec<u8>)
    ensures
        r@ == sibling_path_spec(path@, file_name@),
{
    let mut cut: usize = path.len();
    proof {
        assert(path@.take(path@.len() as int) =~= path@);
    }
    while cut > 0 && path[cut - 1] != PATH_SEPARATOR
        invariant
            cut <= path@.len(),
            dir_prefix_len(path@) == dir_prefix_len(path@.take(cut as int)),
        decreases cut,
    {
        proof {
            assert(path@.take(cut as int).drop_last() =~= path@.take(cut as int - 1));
        }
        cut = cut - 1;
    }
    proof {
        if cut == 0 {
            assert(path@.take(0).len() == 0);
            assert(dir_prefix_len(path@) == 0);
        } else {
            assert(path@.take(cut as int).last() == path@[cut as int - 1]);
            assert(dir_prefix_len(path@) == cut as int);
        }
    }
    let mut r: Vec<u8> = Vec::new();
    let mut i: usize = 0;
    while i < cut
        invariant
            i <= cut,
            cut <= path@.len(),
            r@ =~= path@.take(i as int),
        decreases cut - i,
    {
        r.push(path[i]);
        i = i + 1;
    }
    let mut k: usize = 0;
    while k < file_name.len()
        invariant
            k <= file_name@.len(),
            cut <= path@.len(),
            r@ =~= path@.take(cut as int) + file_name@.take(k as int),
        decreases file_name@.len() - k,
    {
        r.push(file_name[k]);
        k = k + 1;
    }
    proof {
        assert(file_name@.take(file_name@.len() as int) =~= file_name@);
        assert(r@ =~= sibling_path_spec(path@, file_name@));
    }
    r
}

/// What a finished mesh descriptor must say about its sub-mesh: it carries
/// the asset's path as its name, draws every index of the sub-mesh, and
/// binds the sub-mesh's material, or material 0 when none is named.
pub open spec fn mesh_described(d: MeshDesc, file_name: Seq<u8>, sub: SubMesh) -> bool {
    &&& d.name@ == file_name
    &&& d.num_elements == sub.indices@.len()
    &&& d.material == (match sub.material_id {
        Some(m) => m as int,
        None => 0,
    })
}

/// What a finished material descriptor must say about its source entry: the
/// name is kept, and each texture file name is resolved next to the asset.
pub open spec fn material_described(d: MaterialDesc, file_name: Seq<u8>, src: MaterialSource) -> bool {
    &&& d.name@ == src.name@
    &&& d.diffuse_path@ == sibling_path_spec(file_name, src.diffuse_texture@)
    &&& d.normal_path@ == sibling_path_spec(file_name, src.normal_texture@)
}

/// Describes one sub-mesh: name, element count and material index.
pub fn mesh_desc(file_name: &Vec<u8>, sub: &SubMesh) -> (d: MeshDesc)
    requires
        sub.indices@.len() <= u32::MAX,
    ensures
        mesh_described(d, file_name@, *sub),
{
    MeshDesc {
        name: file_name.clone(),
        num_elements: sub.indices.len() as u32,
        material: match sub.material_id {
            Some(m) => m,
            None => 0,
        },
    }
}

/// Describes one material: name kept, texture paths resolved next to the
/// asset.
pub fn material_desc(file_name: &Vec<u8>, source: &MaterialSource) -> (d: MaterialDesc)
    ensures
        material_described(d, file_name@, *source),
{
    MaterialDesc {
        name: source.name.clone(),
        diffuse_path: sibling_path(file_name, &source.diffuse_texture),
        normal_path: sibling_path(file_name, &source.normal_texture),
    }
}

/// Describes a whole model: one mesh descriptor per sub-mesh and one
/// material descriptor per material entry, in source order.
pub fn describe_model(
    file_name: &Vec<u8>,
    submeshes: &Vec<SubMesh>,
    materials: &Vec<MaterialSource>,
) -> (d: ModelDesc)
    requires
        forall|i: int| 0 <= i < submeshes@.len() ==> submeshes@[i].indices@.len() <= u32::MAX,
    ensures
        d.meshes@.len() == submeshes@.len(),
        d.materials@.len() == materials@.len(),
        forall|i: int|
            0 <= i < submeshes@.len() ==> mesh_described(d.meshes@[i], file_name@, submeshes@[i]),
        forall|i: int|
            0 <= i < materials@.len() ==> material_described(
                d.materials@[i],
                file_name@,
                materials@[i],
            ),
{
    let mut meshes: Vec<MeshDesc> = Vec::new();
    let mut i: usize = 0;
    while i < submeshes.len()
        invariant
            i <= submeshes@.len(),
            meshes@.len() == i,
            forall|j: int| 0 <= j < submeshes@.len() ==> submeshes@[j].indices@.len() <= u32::MAX,
            forall|j: int| 0 <= j < i ==> mesh_described(meshes@[j], file_name@, submeshes@[j]),
        decreases submeshes@.len() - i,
    {
        let d = mesh_desc(file_name, &submeshes[i]);
        meshes.push(d);
        i = i + 1;
    }
    let mut mats: Vec<MaterialDesc> = Vec::new();
    let mut k: usize = 0;
    while k < materials.len()
        invariant
            k <= materials@.len(),
            mats@.len() == k,
            forall|j: int| 0 <= j < k ==> material_described(mats@[j], file_name@, materials@[j]),
        decreases materials@.len() - k,
    {
        let d = material_desc(file_name, &materials[k]);
        mats.push(d);
        k = k + 1;
    }
    ModelDesc { meshes, materials: mats }
}

/// What one assembled vertex must hold: attribute components copied from
/// the flat arrays at its index, and tangent and bitangent seeded with
/// all-zero bits (the encoding of 0.0), ready for accumulation.
pub open spec fn vertex_built(
    v: ModelVertex,
    positions: Seq<u32>,
    texcoords: Seq<u32>,
    normals: Seq<u32>,
    i: int,
) -> bool {
    &&& v.position[0] == positions[3 * i]
    &&& v.position[1] == positions[3 * i + 1]
    &&& v.position[2] == positions[3 * i + 2]
    &&& v.tex_coords[0] == texcoords[2 * i]
    &&& v.tex_coords[1] == texcoords[2 * i + 1]
    &&& v.normal[0] == normals[3 * i]
    &&& v.normal[1] == normals[3 * i + 1]
    &&& v.normal[2] == normals[3 * i + 2]
    &&& v.tangent[0] == 0 && v.tangent[1] == 0 && v.tangent[2] == 0
    &&& v.bitangent[0] == 0 && v.bitangent[1] == 0 && v.bitangent[2] == 0
}

/// Builds one vertex per position triple: position, texture coordinates and
/// normal are copied from the flat arrays, tangent and bitangent start as
/// zero vectors. The attribute arrays must cover every vertex, as a
/// single-indexed triangulated parse guarantees.
pub fn build_vertices(
    positions: &Vec<u32>,
    texcoords: &Vec<u32>,
    normals: &Vec<u32>,
) -> (vs: Vec<ModelVertex>)
    requires
        texcoords@.len() >= 2 * (positions@.len() / 3),
        normals@.len() >= 3 * (positions@.len() / 3),
    ensures
        vs@.len() == positions@.len() / 3,
        forall|i: int|
            0 <= i < vs@.len() ==> vertex_built(vs@[i], positions@, texcoords@, normals@, i),
{
    let plen: usize = positions.len();
    let count: usize = plen / 3;
    proof {
        vstd::arithmetic::div_mod::lemma_fundamental_div_mod(plen as int, 3);
        vstd::arithmetic::div_mod::lemma_mod_bound(plen as int, 3);
        assert(3 * count <= plen);
    }
    let mut vs: Vec<ModelVertex> = Vec::new();
    let mut i: usize = 0;
    while i < count
        invariant
            i <= count,
            count == positions@.len() / 3,
            plen == positions@.len(),
            3 * count <= plen,
            texcoords@.len() >= 2 * count,
            normals@.len() >= 3 * count,
            vs@.len() == i,
            forall|j: int|
                0 <= j < i ==> vertex_built(vs@[j], positions@, texcoords@, normals@, j),
        decreases count - i,
    {
        let v = ModelVertex {
            position: [positions[i * 3], positions[i * 3 + 1], positions[i * 3 + 2]],
            tex_coords: [texcoords[i * 2], texcoords[i * 2 + 1]],
            normal: [normals[i * 3], normals[i * 3 + 1], normals[i * 3 + 2]],
            tangent: [0, 0, 0],
            bitangent: [0, 0, 0],
        };
        vs.push(v);
        i = i + 1;
    }
    vs
}

/// How often `v` occurs in the index list.
pub open spec fn occurrence_count(indices: Seq<u32>, v: int) -> nat
    decreases indices.len(),
{
    if indices.len() == 0 {
        0
    } else {
        occurrence_count(indices.drop_last(), v) + (if indices.last() == v {
            1nat
        } else {
            0nat
        })
    }
}

/// A value occurs at most as often as the list is long.
pub proof fn lemma_occurrence_count_le(indices: Seq<u32>, v: int)
    ensures
        occurrence_count(indices, v) <= indices.len(),
    decreases indices.len(),
{
    if indices.len() > 0 {
        lemma_occurrence_count_le(indices.drop_last(), v);
    }
}

/// The divisor the averaging step applies to vertex `v`'s accumulated
/// tangent and bitangent: every counter starts at 1, and every
/// triangle-corner slot that references the vertex adds one.
pub open spec fn seeded_divisor(v: int, indices: Seq<u32>) -> int {
    1 + occurrence_count(indices, v) as int
}

/// Builds the per-vertex averaging counters for a triangulated index list:
/// every entry starts at 1 and gains one for every occurrence of its vertex
/// among the indices. Every index must name a vertex, and the counters must
/// fit the machine word.
pub fn incidence_counters(vertex_count: usize, indices: &Vec<u32>) -> (counters: Vec<usize>)
    requires
        indices@.len() % 3 == 0,
        forall|j: int| 0 <= j < indices@.len() ==> (indices@[j] as int) < vertex_count,
        indices@.len() < usize::MAX,
    ensures
        counters@.len() == vertex_count,
        forall|v: int| 0 <= v < vertex_count ==> counters@[v] == seeded_divisor(v, indices@),
{
    let mut counters: Vec<usize> = Vec::new();
    let mut i: usize = 0;
    while i < vertex_count
        invariant
            i <= vertex_count,
            counters@.len() == i,
            forall|v: int| 0 <= v < i ==> counters@[v] == 1,
        decreases vertex_count - i,
    {
        counters.push(1);
        i = i + 1;
    }
    let mut j: usize = 0;
    while j < indices.len()
        invariant
            j <= indices@.len(),
            counters@.len() == vertex_count,
            forall|jj: int| 0 <= jj < indices@.len() ==> (indices@[jj] as int) < vertex_count,
            indices@.len() < usize::MAX,
            forall|v: int|
                0 <= v < vertex_count ==> counters@[v] == 1 + occurrence_count(
                    indices@.take(j as int),
                    v,
                ),
        decreases indices@.len() - j,
    {
        let vi = indices[j] as usize;
        proof {
            lemma_occurrence_count_le(indices@.take(j as int), vi as int);
        }
        let c = counters[vi];
        counters[vi] = c + 1;
        proof {
            let pre = indices@.take(j as int);
            let post = indices@.take(j as int + 1);
            assert(post.drop_last() =~= pre);
            assert(post.last() == indices@[j as int]);
            assert(forall|v: int|
                0 <= v < vertex_count && v != vi ==> occurrence_count(post, v) == occurrence_count(
                    pre,
                    v,
                ));
            assert(occurrence_count(post, vi as int) == occurrence_count(pre, vi as int) + 1);
        }
        j = j + 1;
    }
    proof {
        assert(indices@.take(indices@.len() as int) =~= indices@);
    }
    counters
}

/// Law: a vertex referenced by exactly two triangles, once each, is
/// averaged by its seeded counter's final value, 1 + 2 = 3.
pub proof fn lemma_divisor_of_shared_vertex(indices: Seq<u32>, v: int)
    requires
        occurrence_count(indices, v) == 2,
    ensures
        seeded_divisor(v, indices) == 3,
{
}

/// Law: a vertex no triangle references keeps its seed: the averaging
/// divisor stays 1, so the averaging step leaves its (zero) sums as they
/// are before normalization.
pub proof fn lemma_divisor_of_untouched_vertex(indices: Seq<u32>, v: int)
    requires
        forall|j: int| 0 <= j < indices.len() ==> indices[j] != v,
    ensures
        seeded_divisor(v, indices) == 1,
    decreases indices.len(),
{
    if indices.len() > 0 {
        assert(indices.last() == indices[indices.len() - 1]);
        assert(forall|j: int|
            0 <= j < indices.drop_last().len() ==> indices.drop_last()[j] == indices[j]);
        lemma_divisor_of_untouched_vertex(indices.drop_last(), v);
    }
}

/// The 14 words of one packed vertex, in field order: position, texture
/// coordinates, normal, tangent, bitangent.
pub open spec fn vertex_words(v: ModelVertex) -> Seq<u32> {
    seq![
        v.position[0],
        v.position[1],
        v.position[2],
        v.tex_coords[0],
        v.tex_coords[1],
        v.normal[0],
        v.normal[1],
        v.normal[2],
        v.tangent[0],
        v.tangent[1],
        v.tangent[2],
        v.bitangent[0],
        v.bitangent[1],
        v.bitangent[2],
    ]
}

/// The words of a whole vertex list, vertex after vertex.
pub open spec fn vertices_words(vs: Seq<ModelVertex>) -> Seq<u32>
    decreases vs.len(),
{
    if vs.len() == 0 {
        Seq::<u32>::empty()
    } else {
        vertices_words(vs.drop_last()) + vertex_words(vs.last())
    }
}

/// Each vertex contributes exactly 14 words.
pub proof fn lemma_vertices_words_len(vs: Seq<ModelVertex>)
    ensures
        vertices_words(vs).len() == 14 * vs.len(),
    decreases vs.len(),
{
    if vs.len() > 0 {
        lemma_vertices_words_len(vs.drop_last());
    }
}

/// Prepares one sub-mesh for tangent accumulation: the assembled vertices
/// (tangent and bitangent zeroed) and the per-vertex averaging counters.
/// The caller runs the floating-point accumulation over the triangles,
/// divides each vertex's sums by its counter, normalizes, and uploads.
///
/// The index list must be triangulated (a multiple of three) and every
/// index must name a vertex, as a triangulated single-indexed parse
/// guarantees.
pub fn prepare_sub_mesh(sub: &SubMesh) -> (r: (Vec<ModelVertex>, Vec<usize>))
    requires
        sub.texcoords@.len() >= 2 * (sub.positions@.len() / 3),
        sub.normals@.len() >= 3 * (sub.positions@.len() / 3),
        sub.indices@.len() % 3 == 0,
        forall|j: int|
            0 <= j < sub.indices@.len() ==> (sub.indices@[j] as int) < sub.positions@.len() / 3,
        sub.indices@.len() < usize::MAX,
    ensures
        r.0@.len() == sub.positions@.len() / 3,
        forall|i: int|
            0 <= i < r.0@.len() ==> vertex_built(
                r.0@[i],
                sub.positions@,
                sub.texcoords@,
                sub.normals@,
                i,
            ),
        r.1@.len() == r.0@.len(),
        forall|v: int| 0 <= v < r.1@.len() ==> r.1@[v] == seeded_divisor(v, sub.indices@),
{
    let vertices = build_vertices(&sub.positions, &sub.texcoords, &sub.normals);
    let counters = incidence_counters(vertices.len(), &sub.indices);
    (vertices, counters)
}

/// Where each vertex's words land: word `j` of vertex `i` sits at offset
/// `14 * i + j` of the flattened word list.
pub proof fn lemma_vertices_words_index(vs: Seq<ModelVertex>, i: int, j: int)
    requires
        0 <= i < vs.len(),
        0 <= j < 14,
    ensures
        vertices_words(vs)[14 * i + j] == vertex_words(vs[i])[j],
    decreases vs.len(),
{
    lemma_vertices_words_len(vs.drop_last());
    if i == vs.len() - 1 {
        assert(14 * i + j - 14 * (vs.len() - 1) == j);
    } else {
        lemma_vertices_words_index(vs.drop_last(), i, j);
        assert(vs.drop_last()[i] == vs[i]);
    }
}

/// Packs a vertex list into the tightly packed vertex-buffer contents: 56
/// bytes per vertex, fields in declaration order, each word little-endian:
/// byte `n` belongs to vertex `n / 56` and is byte `n % 4` of its word
/// `(n % 56) / 4`.
pub fn vertex_buffer_bytes(vs: &Vec<ModelVertex>) -> (b: Vec<u8>)
    ensures
        b@ == bytes_of_words(vertices_words(vs@)),
        b@.len() == 56 * vs@.len(),
        forall|n: int|
            0 <= n < b@.len() ==> #[trigger] b@[n] == crate::layout::le_bytes(
                vertex_words(vs@[n / 56])[(n % 56) / 4],
            )[n % 4],
{
    let mut ws: Vec<u32> = Vec::new();
    let mut i: usize = 0;
    while i < vs.len()
        invariant
            i <= vs@.len(),
            ws@ == vertices_words(vs@.take(i as int)),
        decreases vs@.len() - i,
    {
        let v = &vs[i];
        ws.push(v.position[0]);
        ws.push(v.position[1]);
        ws.push(v.position[2]);
        ws.push(v.tex_coords[0]);
        ws.push(v.tex_coords[1]);
        ws.push(v.normal[0]);
        ws.push(v.normal[1]);
        ws.push(v.normal[2]);
        ws.push(v.tangent[0]);
        ws.push(v.tangent[1]);
        ws.push(v.tangent[2]);
        ws.push(v.bitangent[0]);
        ws.push(v.bitangent[1]);
        ws.push(v.bitangent[2]);
        proof {
            let pre = vs@.take(i as int);
            let post = vs@.take(i as int + 1);
            assert(post.drop_last() =~= pre);
            assert(post.last() == vs@[i as int]);
            assert(ws@ =~= vertices_words(pre) + vertex_words(vs@[i as int]));
        }
        i = i + 1;
    }
    proof {
        assert(vs@.take(vs@.len() as int) =~= vs@);
        lemma_vertices_words_len(vs@);
        crate::layout::lemma_bytes_of_words_len(vertices_words(vs@));
    }
    let b = words_to_bytes(&ws);
    proof {
        assert forall|n: int| 0 <= n < b@.len() implies b@[n] == crate::layout::le_bytes(
            vertex_words(vs@[n / 56])[(n % 56) / 4],
        )[n % 4] by {
            let i = n / 56;
            let m = n % 56;
            vstd::arithmetic::div_mod::lemma_fundamental_div_mod(n, 56);
            vstd::arithmetic::div_mod::lemma_mod_bound(n, 56);
            let j = m / 4;
            let k = m % 4;
            vstd::arithmetic::div_mod::lemma_fundamental_div_mod(m, 4);
            vstd::arithmetic::div_mod::lemma_mod_bound(m, 4);
            assert(n == (14 * i + j) * 4 + k);
            vstd::arithmetic::div_mod::lemma_fundamental_div_mod_converse(n, 4, 14 * i + j, k);
            crate::layout::lemma_bytes_of_words_index(ws@, 14 * i + j, k);
            lemma_vertices_words_index(vs@, i, j);
        }
    }
    b
}

/// Packs an index list into the index-buffer contents: each 32-bit index in
/// order, little-endian: byte `n` is byte `n % 4` of index `n / 4`.
pub fn index_buffer_bytes(indices: &Vec<u32>) -> (b: Vec<u8>)
    ensures
        b@ == bytes_of_words(indices@),
        b@.len() == 4 * indices@.len(),
        forall|n: int|
            0 <= n < b@.len() ==> #[trigger] b@[n] == crate::layout::le_bytes(
                indices@[n / 4],
            )[n % 4],
{
    let b = words_to_bytes(indices);
    proof {
        assert forall|n: int| 0 <= n < b@.len() implies b@[n] == crate::layout::le_bytes(
            indices@[n / 4],
        )[n % 4] by {
            vstd::arithmetic::div_mod::lemma_fundamental_div_mod(n, 4);
            vstd::arithmetic::div_mod::lemma_mod_bound(n, 4);
            crate::layout::lemma_bytes_of_words_index(indices@, n / 4, n % 4);
        }
    }
    b
}

} // verus!
