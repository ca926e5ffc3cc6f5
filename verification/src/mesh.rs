//! Generated geometry and its application to a renderable mesh.
//!
//! The geometry container is bevy's [`Mesh`]. Verus does not look inside it:
//! what a mesh holds is named by the spec functions below, and the private
//! wrappers state what bevy's constructor and setters do to those names.
//! Everything else in this module is proved from those statements.

use bevy::math::{Vec2, Vec3};
use bevy::render::mesh::{Indices, Mesh};
use bevy::render::render_resource::PrimitiveTopology;
use vstd::prelude::*;

verus! {

/// bevy's mesh, carried as an opaque value.
#[verifier::external_type_specification]
#[verifier::external_body]
pub struct ExMesh(Mesh);

/// A triple of single-precision coordinates, carried as an opaque value.
#[verifier::external_type_specification]
#[verifier::external_body]
pub struct ExVec3(Vec3);

/// A pair of single-precision coordinates, carried as an opaque value.
#[verifier::external_type_specification]
#[verifier::external_body]
pub struct ExVec2(Vec2);

/// The values that a mesh stores under one vertex attribute.
pub enum AttributeValues {
    /// One float triple per vertex.
    Float3(Seq<Vec3>),
    /// One float pair per vertex.
    Float2(Seq<Vec2>),
    /// Values in any other format. This library neither reads nor writes
    /// them.
    Other,
}

/// The id under which a mesh stores `Mesh::ATTRIBUTE_POSITION`.
pub open spec fn position_id() -> int {
    0
}

/// The id under which a mesh stores `Mesh::ATTRIBUTE_NORMAL`.
pub open spec fn normal_id() -> int {
    1
}

/// The id under which a mesh stores `Mesh::ATTRIBUTE_UV_0`.
pub open spec fn uv_id() -> int {
    2
}

/// The attributes of a mesh that holds none.
pub open spec fn no_attributes() -> Map<int, AttributeValues> {
    Map::empty()
}

/// The vertex attributes of `mesh`: for each attribute id that the mesh
/// holds, the values stored under it.
pub uninterp spec fn mesh_attributes(mesh: Mesh) -> Map<int, AttributeValues>;

/// The index list of `mesh`, each index as a 32-bit number; `None` when the
/// mesh has no indices.
pub uninterp spec fn mesh_indices(mesh: Mesh) -> Option<Seq<u32>>;

/// Whether the primitive topology of `mesh` is the triangle list.
pub uninterp spec fn mesh_is_triangle_list(mesh: Mesh) -> bool;

/// `Mesh::new` with `PrimitiveTopology::TriangleList`: the mesh it returns
/// has that topology, no vertex attribute and no indices.
#[verifier::external_body]
fn new_triangle_list() -> (mesh: Mesh)
    ensures
        mesh_attributes(mesh) == no_attributes(),
        mesh_indices(mesh) == None::<Seq<u32>>,
        mesh_is_triangle_list(mesh),
{
    Mesh::new(PrimitiveTopology::TriangleList)
}

/// `Mesh::insert_attribute` with `Mesh::ATTRIBUTE_POSITION`: the values are
/// stored under that attribute's id, in place of what was there; the other
/// attributes, the indices and the topology stay as they were. bevy turns a
/// `Vec<Vec3>` into float triples, the format this attribute asks for, so the
/// call does not panic.
#[verifier::external_body]
fn insert_positions(mesh: &mut Mesh, values: Vec<Vec3>)
    ensures
        mesh_attributes(*final(mesh)) == mesh_attributes(*old(mesh)).insert(
            position_id(),
            AttributeValues::Float3(values@),
        ),
        mesh_indices(*final(mesh)) == mesh_indices(*old(mesh)),
        mesh_is_triangle_list(*final(mesh)) == mesh_is_triangle_list(*old(mesh)),
{
    mesh.insert_attribute(Mesh::ATTRIBUTE_POSITION, values);
}

/// `Mesh::insert_attribute` with `Mesh::ATTRIBUTE_NORMAL`: the values are
/// stored under that attribute's id, in place of what was there; the other
/// attributes, the indices and the topology stay as they were. The attribute
/// asks for float triples, so the call does not panic.
#[verifier::external_body]
fn insert_normals(mesh: &mut Mesh, values: Vec<Vec3>)
    ensures
        mesh_attributes(*final(mesh)) == mesh_attributes(*old(mesh)).insert(
            normal_id(),
            AttributeValues::Float3(values@),
        ),
        mesh_indices(*final(mesh)) == mesh_indices(*old(mesh)),
        mesh_is_triangle_list(*final(mesh)) == mesh_is_triangle_list(*old(mesh)),
{
    mesh.insert_attribute(Mesh::ATTRIBUTE_NORMAL, values);
}

/// `Mesh::insert_attribute` with `Mesh::ATTRIBUTE_UV_0`: the values are
/// stored under that attribute's id, in place of what was there; the other
/// attributes, the indices and the topology stay as they were. bevy turns a
/// `Vec<Vec2>` into float pairs, the format this attribute asks for, so the
/// call does not panic.
#[verifier::external_body]
fn insert_uvs(mesh: &mut Mesh, values: Vec<Vec2>)
    ensures
        mesh_attributes(*final(mesh)) == mesh_attributes(*old(mesh)).insert(
            uv_id(),
            AttributeValues::Float2(values@),
        ),
        mesh_indices(*final(mesh)) == mesh_indices(*old(mesh)),
        mesh_is_triangle_list(*final(mesh)) == mesh_is_triangle_list(*old(mesh)),
{
    mesh.insert_attribute(Mesh::ATTRIBUTE_UV_0, values);
}

/// `Mesh::set_indices` with `Indices::U32`: the list replaces the indices of
/// the mesh, and the vertex attributes and the topology stay as they were.
#[verifier::external_body]
fn set_indices(mesh: &mut Mesh, indices: Vec<u32>)
    ensures
        mesh_indices(*final(mesh)) == Some(indices@),
        mesh_attributes(*final(mesh)) == mesh_attributes(*old(mesh)),
        mesh_is_triangle_list(*final(mesh)) == mesh_is_triangle_list(*old(mesh)),
{
    mesh.set_indices(Some(Indices::U32(indices)));
}

/// The four buffers of a piece of geometry, as sequences.
pub struct Geometry {
    pub vertices: Seq<Vec3>,
    pub normals: Seq<Vec3>,
    pub uvs: Seq<Vec2>,
    pub indices: Seq<u32>,
}

/// The attributes of a mesh once the three vertex buffers of `geometry` were
/// written over `before`.
pub open spec fn with_geometry(
    before: Map<int, AttributeValues>,
    geometry: Geometry,
) -> Map<int, AttributeValues> {
    before.insert(position_id(), AttributeValues::Float3(geometry.vertices)).insert(
        normal_id(),
        AttributeValues::Float3(geometry.normals),
    ).insert(uv_id(), AttributeValues::Float2(geometry.uvs))
}

/// Whether the four buffers of `mesh` are exactly those of `geometry`.
pub open spec fn mesh_holds(mesh: Mesh, geometry: Geometry) -> bool {
    &&& mesh_attributes(mesh).contains_pair(
        position_id(),
        AttributeValues::Float3(geometry.vertices),
    )
    &&& mesh_attributes(mesh).contains_pair(
        normal_id(),
        AttributeValues::Float3(geometry.normals),
    )
    &&& mesh_attributes(mesh).contains_pair(uv_id(), AttributeValues::Float2(geometry.uvs))
    &&& mesh_indices(mesh) == Some(geometry.indices)
}

/// Whether `after` is `before` with its four buffers overwritten by those of
/// `geometry`, and nothing else changed.
pub open spec fn overwritten(before: Mesh, after: Mesh, geometry: Geometry) -> bool {
    &&& mesh_attributes(after) == with_geometry(mesh_attributes(before), geometry)
    &&& mesh_indices(after) == Some(geometry.indices)
    &&& mesh_is_triangle_list(after) == mesh_is_triangle_list(before)
}

/// Whether `mesh` is a triangle list that holds the four buffers of
/// `geometry` and nothing else.
pub open spec fn built_from(mesh: Mesh, geometry: Geometry) -> bool {
    &&& mesh_attributes(mesh) == with_geometry(no_attributes(), geometry)
    &&& mesh_indices(mesh) == Some(geometry.indices)
    &&& mesh_is_triangle_list(mesh)
}

/// Geometry as the generator hands it over: vertex positions, normals,
/// texture coordinates and a triangle index list.
#[derive(Debug)]
pub struct MeshData {
    pub vertices: Vec<Vec3>,
    pub normals: Vec<Vec3>,
    pub uvs: Vec<Vec2>,
    pub indices: Vec<u32>,
}

impl View for MeshData {
    type V = Geometry;

    open spec fn view(&self) -> Geometry {
        Geometry {
            vertices: self.vertices@,
            normals: self.normals@,
            uvs: self.uvs@,
            indices: self.indices@,
        }
    }
}

/// Overwrites the four buffers of `mesh` with `mesh_data`. The mesh stays the
/// same container: nothing is allocated, and its topology and whatever else
/// it holds are kept.
pub fn apply_mesh(mesh_data: MeshData, mesh: &mut Mesh)
    ensures
        overwritten(*old(mesh), *final(mesh), mesh_data@),
        mesh_holds(*final(mesh), mesh_data@),
{
    insert_positions(mesh, mesh_data.vertices);
    insert_normals(mesh, mesh_data.normals);
    insert_uvs(mesh, mesh_data.uvs);
    set_indices(mesh, mesh_data.indices);
}

/// Builds a new triangle-list mesh that holds `mesh_data` and nothing else.
pub fn build_mesh(mesh_data: MeshData) -> (mesh: Mesh)
    ensures
        built_from(mesh, mesh_data@),
        mesh_holds(mesh, mesh_data@),
{
    let mut mesh = new_triangle_list();
    apply_mesh(mesh_data, &mut mesh);
    mesh
}

} // verus!
