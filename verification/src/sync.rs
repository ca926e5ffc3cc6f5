//! The synchronizer: one step of it, for one text object.
//!
//! The caller owns the loop over the objects, the font store, the geometry
//! generator and the stores that hold meshes and materials. For an object
//! that [needs a pass](crate::object::TextObject::needs_sync) it looks the
//! font up, generates the geometry where the font resolved, and hands the
//! outcome to [`text_mesh`], which decides and does the rest.

use crate::mesh::{
    apply_mesh, build_mesh, built_from, mesh_holds, overwritten, Geometry, MeshData,
};
use crate::object::TextObject;
use bevy::render::color::Color;
use bevy::render::mesh::Mesh;
use vstd::prelude::*;

verus! {

/// bevy's color, carried as an opaque value.
#[verifier::external_type_specification]
#[verifier::external_body]
pub struct ExColor(Color);

/// The material that a text object gets when it has none of its own.
#[derive(Debug, Clone, Copy)]
pub struct TextMaterial {
    pub base_color: Color,
    pub unlit: bool,
    pub alpha_blend: bool,
}

/// What to do about the material of an object that gets its first mesh.
#[derive(Debug, Clone, Copy)]
pub enum MaterialPlan {
    /// The object has a material: attach the mesh beside it.
    Keep,
    /// The object has none: allocate this one.
    Create(TextMaterial),
}

/// The material plan for an object: an attached material is kept, and an
/// object without one gets an unlit, alpha-blended material of the base color
/// of its style.
pub open spec fn material_plan(has_material: bool, base_color: Color) -> MaterialPlan {
    if has_material {
        MaterialPlan::Keep
    } else {
        MaterialPlan::Create(TextMaterial { base_color, unlit: true, alpha_blend: true })
    }
}

/// What a step did, and what is left for the caller to do.
#[derive(Debug)]
pub enum SyncAction {
    /// The object had not changed: nothing was done.
    Idle,
    /// The font is not available: nothing was generated. `warn` asks the
    /// caller to emit the diagnostic, which happens once in an object's life.
    Skip { warn: bool },
    /// The geometry of the attached mesh was overwritten in place.
    Updated,
    /// The object had no mesh: this one was built for it. The caller
    /// allocates it and attaches it with the material that the plan names,
    /// leaving transform and visibility as they are.
    Attach { mesh: Mesh, material: MaterialPlan },
}

/// Whether `action` hands over a new triangle-list mesh that holds
/// `geometry` and nothing else, with the material plan of the object.
pub open spec fn attaches(
    action: SyncAction,
    geometry: Geometry,
    has_material: bool,
    base_color: Color,
) -> bool {
    &&& action matches SyncAction::Attach { mesh, material }
    &&& built_from(mesh, geometry)
    &&& mesh_holds(mesh, geometry)
    &&& material == material_plan(has_material, base_color)
}

/// Whether a step that was handed the attached mesh as `before` left it as
/// `after`: overwritten with the generated geometry where the object had
/// changed and its font resolved, and untouched otherwise.
pub open spec fn attached_mesh_after(
    before: Mesh,
    after: Mesh,
    changed: bool,
    generated: Option<MeshData>,
) -> bool {
    if changed && generated is Some {
        overwritten(before, after, generated->0@) && mesh_holds(after, generated->0@)
    } else {
        after == before
    }
}

/// One synchronizer step for one object.
///
/// `generated` is what the font lookup and the generator produced in this
/// pass: `None` where the font did not resolve. `mesh` is the mesh attached
/// to the object, `has_material` tells whether a material is attached, and
/// `base_color` is the base color of the object's style.
///
/// An object that has not changed is left alone. For one that has, its
/// changes are consumed, and then:
/// * where the font did not resolve, the skipped attempt is counted and
///   nothing is rendered;
/// * where the object has a mesh, the geometry of that mesh is overwritten
///   in place, and its material is not touched;
/// * where it has none, a mesh is built and handed over for attachment.
pub fn text_mesh(
    object: &mut TextObject,
    generated: Option<MeshData>,
    mesh: Option<&mut Mesh>,
    has_material: bool,
    base_color: Color,
) -> (action: SyncAction)
    requires
        old(object)@.needs_sync() && generated is None
            ==> old(object)@.state.warning_trigger_count < usize::MAX,
    ensures
        final(object)@ == old(object)@.after_pass(generated is Some),
        !old(object)@.needs_sync() ==> action is Idle,
        old(object)@.needs_sync() && generated is None ==> action == (SyncAction::Skip {
            warn: old(object)@.state.warns_when_missing(),
        }),
        old(object)@.needs_sync() && generated is Some && mesh is Some ==> action is Updated,
        old(object)@.needs_sync() && generated is Some && mesh is None ==> attaches(
            action,
            generated->0@,
            has_material,
            base_color,
        ),
        mesh matches Some(m) ==> attached_mesh_after(
            *m,
            *final(m),
            old(object)@.needs_sync(),
            generated,
        ),
{
    if !object.take_changes() {
        return SyncAction::Idle;
    }
    match generated {
        None => {
            let warn = object.record_missing_font();
            SyncAction::Skip { warn }
        },
        Some(mesh_data) => match mesh {
            Some(attached) => {
                apply_mesh(mesh_data, attached);
                SyncAction::Updated
            },
            None => {
                let material = if has_material {
                    MaterialPlan::Keep
                } else {
                    MaterialPlan::Create(
                        TextMaterial { base_color, unlit: true, alpha_blend: true },
                    )
                };
                SyncAction::Attach { mesh: build_mesh(mesh_data), material }
            },
        },
    }
}

} // verus!
