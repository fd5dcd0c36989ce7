//! Points the camera at the entity it is to follow.

use vstd::prelude::*;
use crate::components::{transforms_wf, CameraTarget, Transform};
use crate::engine::camera::Camera;
use crate::engine::storage::{Entity, Storage};

verus! {

/// Sets the camera's target to the position of the followed entity.
pub struct CameraSystem;

impl CameraSystem {
    /// Whether the camera may follow entity `e`: it is marked as a camera
    /// target and has a transform.
    pub open spec fn followed(
        transforms: Map<int, Transform>,
        camera_targets: Map<int, CameraTarget>,
        e: int,
    ) -> bool {
        transforms.contains_key(e) && camera_targets.contains_key(e)
    }

    /// Whether `e` is the last followed entity: of several, the last one wins.
    pub open spec fn wins(
        transforms: Map<int, Transform>,
        camera_targets: Map<int, CameraTarget>,
        e: int,
    ) -> bool {
        &&& Self::followed(transforms, camera_targets, e)
        &&& forall|later: int|
            later > e ==> !#[trigger] Self::followed(transforms, camera_targets, later)
    }

    /// Points the camera at the last entity that is marked as a camera target
    /// and has a transform. With no such entity the camera stays as it is.
    pub fn run(
        &mut self,
        transforms: &Storage<Transform>,
        camera: &mut Camera,
        camera_targets: &Storage<CameraTarget>,
    )
        ensures
            forall|e: int|
                Self::wins(transforms@, camera_targets@, e) ==> *final(camera) == (Camera {
                    target_position: (#[trigger] transforms@[e]).position,
                    ..*old(camera)
                }),
            (forall|e: int| !#[trigger] Self::followed(transforms@, camera_targets@, e)) ==> *final(camera)
                == *old(camera),
            old(camera).wf() && transforms_wf(transforms@) ==> final(camera).wf(),
    {
        let n = transforms.len();
        let mut i: usize = 0;
        let ghost mut last: Option<int> = None;
        while i < n
            invariant
                i <= n,
                n == transforms.spec_len(),
                old(camera).wf() && transforms_wf(transforms@) ==> camera.wf(),
                forall|e: int|
                    0 <= e < i && last.is_none() ==> !#[trigger] Self::followed(
                        transforms@,
                        camera_targets@,
                        e,
                    ),
                last.is_none() ==> *camera == *old(camera),
                last matches Some(w) ==> {
                    &&& 0 <= w < i
                    &&& Self::followed(transforms@, camera_targets@, w)
                    &&& forall|later: int|
                        w < later < i ==> !#[trigger] Self::followed(
                            transforms@,
                            camera_targets@,
                            later,
                        )
                    &&& *camera == (Camera {
                        target_position: transforms@[w].position,
                        ..*old(camera)
                    })
                },
            decreases n - i,
        {
            let entity = Entity { id: i };
            if let (Some(transform), Some(_)) = (
                transforms.get(entity),
                camera_targets.get(entity),
            ) {
                camera.set_target(&transform.position);
                proof {
                    last = Some(i as int);
                }
            }
            i += 1;
        }
        proof {
            assert forall|e: int| Self::wins(transforms@, camera_targets@, e) implies *camera == (
            Camera { target_position: (#[trigger] transforms@[e]).position, ..*old(camera) }) by {
                transforms.lemma_below_len(e);
                match last {
                    Some(w) => {
                        if e < w {
                            assert(Self::followed(transforms@, camera_targets@, w));
                        } else if e > w {
                            assert(!Self::followed(transforms@, camera_targets@, e));
                        }
                    },
                    None => {
                        assert(!Self::followed(transforms@, camera_targets@, e));
                    },
                }
            }
            if last.is_some() {
                assert(Self::followed(transforms@, camera_targets@, last.unwrap()));
            }
        }
    }
}

} // verus!
