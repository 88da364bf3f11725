//! The part of a scene that the renderer reads: which entities have a mesh,
//! a transform, a camera.

use vstd::prelude::*;
use crate::geometry::GeometryData;

verus! {

/// Names a transform. Its position, rotation and scale are numbers that the
/// embedding program keeps; the renderer only passes the name on.
#[derive(Clone, Copy, Debug, PartialEq, Eq, Hash, Structural)]
pub struct TransformId(pub u64);

/// Names a camera, whose view and projection the embedding program keeps.
#[derive(Clone, Copy, Debug, PartialEq, Eq, Hash, Structural)]
pub struct CameraId(pub u64);

/// What is wrong with a scene.
#[derive(Clone, Copy, Debug, PartialEq, Eq, Structural)]
pub enum SceneError {
    /// More than one entity carries a camera.
    MultipleCameras,
}

/// One entity, as far as the renderer looks at it.
#[derive(Clone, Copy, Debug)]
pub struct SceneEntity<'a> {
    pub geometry: Option<&'a GeometryData>,
    pub transform: Option<TransformId>,
    pub camera: Option<CameraId>,
}

impl<'a> SceneEntity<'a> {
    /// Whether the entity is drawn: it has a transform and a mesh, and the
    /// mesh is initialized and has both its buffers.
    pub open spec fn drawable(self) -> bool {
        &&& self.transform is Some
        &&& self.geometry matches Some(geometry)
        &&& geometry@.initialized
        &&& geometry@.vertex_buffer is Some
        &&& geometry@.index_buffer is Some
    }

    /// Whether the entity is drawn.
    pub fn is_drawable(&self) -> (drawable: bool)
        ensures
            drawable == self.drawable(),
    {
        match self.geometry {
            Some(geometry) => self.transform.is_some() && geometry.initialized
                && geometry.vertex_buffer.is_some() && geometry.index_buffer.is_some(),
            None => false,
        }
    }
}

/// The cameras of the first `n` entities, in the order of the entities.
pub open spec fn cameras(entities: Seq<SceneEntity>, n: int) -> Seq<CameraId>
    decreases n,
{
    if n <= 0 {
        Seq::empty()
    } else {
        match entities[n - 1].camera {
            Some(camera) => cameras(entities, n - 1).push(camera),
            None => cameras(entities, n - 1),
        }
    }
}

/// The camera of a scene: none if no entity carries one, the one if exactly
/// one entity does, an error if more than one does.
pub open spec fn camera_of(entities: Seq<SceneEntity>) -> Result<Option<CameraId>, SceneError> {
    let found = cameras(entities, entities.len() as int);
    if found.len() == 0 {
        Ok(None)
    } else if found.len() == 1 {
        Ok(Some(found[0]))
    } else {
        Err(SceneError::MultipleCameras)
    }
}

/// Finds the camera of a scene.
pub fn active_camera(entities: &Vec<SceneEntity>) -> (result: Result<Option<CameraId>, SceneError>)
    ensures
        result == camera_of(entities@),
{
    let mut found: Option<CameraId> = None;
    let mut i: usize = 0;
    while i < entities.len()
        invariant
            i <= entities@.len(),
            cameras(entities@, i as int).len() <= 1,
            found is None <==> cameras(entities@, i as int).len() == 0,
            found matches Some(camera) ==> cameras(entities@, i as int)[0] == camera,
        decreases entities@.len() - i,
    {
        match entities[i].camera {
            Some(camera) => {
                if found.is_some() {
                    proof {
                        lemma_cameras_grow(entities@, i as int + 1, entities@.len() as int);
                    }
                    return Err(SceneError::MultipleCameras);
                }
                found = Some(camera);
            },
            None => {},
        }
        i += 1;
    }
    Ok(found)
}

/// A longer stretch of a scene has at least the cameras of a shorter one.
pub proof fn lemma_cameras_grow(entities: Seq<SceneEntity>, m: int, n: int)
    requires
        m <= n,
    ensures
        cameras(entities, m).len() <= cameras(entities, n).len(),
    decreases n - m,
{
    if m < n {
        lemma_cameras_grow(entities, m, n - 1);
    }
}

} // verus!
