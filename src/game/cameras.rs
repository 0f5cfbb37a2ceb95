use vstd::prelude::*;

use crate::config::windows::{AspectRatio, EditResolution};

verus! {

/// The three cameras of the rig: the 3D world behind, the 2D stage, and the
/// user interface on top.
#[derive(Clone, Copy, Debug, PartialEq, Eq, Hash, Structural)]
pub enum CameraRole {
    World,
    Stage,
    Ui,
}

/// A camera's projection. Perspective cameras sit `depth_milli` thousandths
/// of a unit from the stage plane; orthographic ones show a fixed
/// `width` x `height` area, magnified by `scale_quarters` quarters.
#[derive(Clone, Copy, Debug, PartialEq, Eq, Hash, Structural)]
pub enum CameraProjection {
    Perspective { depth_milli: u32 },
    Orthographic { width: u32, height: u32, scale_quarters: u32 },
}

/// A camera of the rig: its role, the order in which it renders, the render
/// layer it shows, and its projection.
#[derive(Clone, Copy, Debug, PartialEq, Eq, Hash, Structural)]
pub struct RigCamera {
    pub role: CameraRole,
    pub order: u32,
    pub render_layer: u32,
    pub projection: CameraProjection,
}

/// The orthographic area and perspective depth that fit one aspect ratio.
/// The depth puts the stage's `height` exactly in view of a 45-degree
/// perspective camera: `(height / 2) / tan(22.5 degrees)`.
#[derive(Clone, Copy, Debug, PartialEq, Eq, Hash, Structural)]
pub struct CameraFraming {
    pub width: u32,
    pub height: u32,
    pub depth_milli: u32,
}

pub open spec fn spec_framing_for(aspect_ratio: AspectRatio) -> CameraFraming {
    match aspect_ratio {
        AspectRatio::_4_3 => CameraFraming { width: 256, height: 192, depth_milli: 231765 },
        AspectRatio::_5_4 => CameraFraming { width: 240, height: 192, depth_milli: 231765 },
        AspectRatio::_8_5 => CameraFraming { width: 256, height: 160, depth_milli: 193137 },
        AspectRatio::_16_9 => CameraFraming { width: 256, height: 144, depth_milli: 173823 },
        AspectRatio::_21_9 => CameraFraming { width: 336, height: 144, depth_milli: 173823 },
    }
}

/// The framing for an aspect ratio.
#[verifier::when_used_as_spec(spec_framing_for)]
pub fn framing_for(aspect_ratio: AspectRatio) -> (r: CameraFraming)
    ensures
        r == spec_framing_for(aspect_ratio),
{
    match aspect_ratio {
        AspectRatio::_4_3 => CameraFraming { width: 256, height: 192, depth_milli: 231765 },
        AspectRatio::_5_4 => CameraFraming { width: 240, height: 192, depth_milli: 231765 },
        AspectRatio::_8_5 => CameraFraming { width: 256, height: 160, depth_milli: 193137 },
        AspectRatio::_16_9 => CameraFraming { width: 256, height: 144, depth_milli: 173823 },
        AspectRatio::_21_9 => CameraFraming { width: 336, height: 144, depth_milli: 173823 },
    }
}

/// The depth at which the world camera starts.
pub const START_DEPTH_MILLI: u32 = 173820;

/// The rig as it is spawned, framed for 16:9.
pub open spec fn start_rig() -> Seq<RigCamera> {
    seq![
        RigCamera {
            role: CameraRole::World,
            order: 0,
            render_layer: 1,
            projection: CameraProjection::Perspective { depth_milli: START_DEPTH_MILLI },
        },
        RigCamera {
            role: CameraRole::Stage,
            order: 1,
            render_layer: 0,
            projection: CameraProjection::Orthographic { width: 256, height: 144, scale_quarters: 4 },
        },
        RigCamera {
            role: CameraRole::Ui,
            order: 2,
            render_layer: 2,
            projection: CameraProjection::Orthographic { width: 256, height: 144, scale_quarters: 4 },
        },
    ]
}

/// The cameras to spawn at start-up, in render order.
pub fn spawn_cameras() -> (r: Vec<RigCamera>)
    ensures
        r@ == start_rig(),
{
    let r = vec![
        RigCamera {
            role: CameraRole::World,
            order: 0,
            render_layer: 1,
            projection: CameraProjection::Perspective { depth_milli: START_DEPTH_MILLI },
        },
        RigCamera {
            role: CameraRole::Stage,
            order: 1,
            render_layer: 0,
            projection: CameraProjection::Orthographic { width: 256, height: 144, scale_quarters: 4 },
        },
        RigCamera {
            role: CameraRole::Ui,
            order: 2,
            render_layer: 2,
            projection: CameraProjection::Orthographic { width: 256, height: 144, scale_quarters: 4 },
        },
    ];
    assert(r@ =~= start_rig());
    r
}

/// A camera framed for `aspect_ratio`: orthographic cameras take its area,
/// perspective cameras its depth; everything else stays.
pub open spec fn reframed_camera(camera: RigCamera, aspect_ratio: AspectRatio) -> RigCamera {
    let framing = spec_framing_for(aspect_ratio);
    RigCamera {
        projection: match camera.projection {
            CameraProjection::Perspective { .. } => CameraProjection::Perspective {
                depth_milli: framing.depth_milli,
            },
            CameraProjection::Orthographic { scale_quarters, .. } => CameraProjection::Orthographic {
                width: framing.width,
                height: framing.height,
                scale_quarters,
            },
        },
        ..camera
    }
}

pub open spec fn reframed(cameras: Seq<RigCamera>, aspect_ratio: AspectRatio) -> Seq<RigCamera> {
    cameras.map_values(|camera: RigCamera| reframed_camera(camera, aspect_ratio))
}

fn reframe_camera(camera: RigCamera, aspect_ratio: AspectRatio) -> (r: RigCamera)
    ensures
        r == reframed_camera(camera, aspect_ratio),
{
    let framing = framing_for(aspect_ratio);
    let projection = match camera.projection {
        CameraProjection::Perspective { .. } => CameraProjection::Perspective {
            depth_milli: framing.depth_milli,
        },
        CameraProjection::Orthographic { scale_quarters, .. } => CameraProjection::Orthographic {
            width: framing.width,
            height: framing.height,
            scale_quarters,
        },
    };
    RigCamera { role: camera.role, order: camera.order, render_layer: camera.render_layer, projection }
}

/// Reframing for one aspect ratio and then another is reframing for the
/// second alone.
proof fn lemma_reframed_overwrites(cameras: Seq<RigCamera>, first: AspectRatio, second: AspectRatio)
    ensures
        reframed(reframed(cameras, first), second) == reframed(cameras, second),
{
    assert(reframed(reframed(cameras, first), second) =~= reframed(cameras, second));
}

/// Reframing the cameras for the aspect ratio they are already framed for
/// changes nothing: the same width, height and depth come out again.
pub proof fn lemma_reframing_idempotent(cameras: Seq<RigCamera>, aspect_ratio: AspectRatio)
    ensures
        reframed(reframed(cameras, aspect_ratio), aspect_ratio) == reframed(cameras, aspect_ratio),
{
    lemma_reframed_overwrites(cameras, aspect_ratio, aspect_ratio);
}

/// Frames every camera for the aspect ratio of each resize request in turn.
pub fn handle_edit_resolution(cameras: &mut Vec<RigCamera>, edits: &Vec<EditResolution>)
    ensures
        final(cameras)@ == (if edits@.len() > 0 {
            reframed(old(cameras)@, edits@.last().aspect_ratio)
        } else {
            old(cameras)@
        }),
{
    let mut i: usize = 0;
    while i < edits.len()
        invariant
            i <= edits@.len(),
            cameras@ == (if i > 0 {
                reframed(old(cameras)@, edits@[i - 1].aspect_ratio)
            } else {
                old(cameras)@
            }),
        decreases edits.len() - i,
    {
        let aspect_ratio = edits[i].aspect_ratio;
        let ghost before = cameras@;
        let mut k: usize = 0;
        while k < cameras.len()
            invariant
                k <= cameras@.len(),
                cameras@.len() == before.len(),
                forall|j: int| 0 <= j < k ==> cameras@[j] == reframed_camera(before[j], aspect_ratio),
                forall|j: int| k <= j < cameras@.len() ==> cameras@[j] == before[j],
            decreases cameras.len() - k,
        {
            let camera = cameras[k];
            cameras.set(k, reframe_camera(camera, aspect_ratio));
            k = k + 1;
        }
        assert(cameras@ =~= reframed(before, aspect_ratio));
        proof {
            if i > 0 {
                lemma_reframed_overwrites(old(cameras)@, edits@[i - 1].aspect_ratio, aspect_ratio);
            }
        }
        i = i + 1;
    }
}

/// Zoom scale bounds and step, in quarters.
pub const MIN_SCALE_QUARTERS: u32 = 1;

pub const MAX_SCALE_QUARTERS: u32 = 20;

/// A request to zoom the stage in or out by one step.
#[derive(Clone, Copy, Debug, PartialEq, Eq, Hash, Structural)]
pub struct CameraZoom {
    pub is_directed_in: bool,
}

/// The scale after one zoom step, kept within its bounds.
pub open spec fn zoomed_scale(scale_quarters: u32, is_directed_in: bool) -> u32 {
    let stepped: int = if is_directed_in {
        scale_quarters + 1
    } else {
        scale_quarters - 1
    };
    if stepped < MIN_SCALE_QUARTERS {
        MIN_SCALE_QUARTERS
    } else if stepped > MAX_SCALE_QUARTERS {
        MAX_SCALE_QUARTERS
    } else {
        stepped as u32
    }
}

pub fn zoom_scale(scale_quarters: u32, is_directed_in: bool) -> (r: u32)
    ensures
        r == zoomed_scale(scale_quarters, is_directed_in),
        MIN_SCALE_QUARTERS <= r <= MAX_SCALE_QUARTERS,
{
    if is_directed_in {
        if scale_quarters >= MAX_SCALE_QUARTERS {
            MAX_SCALE_QUARTERS
        } else {
            scale_quarters + 1
        }
    } else {
        if scale_quarters <= MIN_SCALE_QUARTERS + 1 {
            MIN_SCALE_QUARTERS
        } else if scale_quarters - 1 > MAX_SCALE_QUARTERS {
            MAX_SCALE_QUARTERS
        } else {
            scale_quarters - 1
        }
    }
}

/// Whether zooming reaches a camera: the orthographic cameras other than
/// the user interface's.
pub open spec fn zooms(camera: RigCamera) -> bool {
    camera.role != CameraRole::Ui && camera.projection is Orthographic
}

pub open spec fn zoomed_camera(camera: RigCamera, is_directed_in: bool) -> RigCamera {
    match camera.projection {
        CameraProjection::Orthographic { width, height, scale_quarters } => if zooms(camera) {
            RigCamera {
                projection: CameraProjection::Orthographic {
                    width,
                    height,
                    scale_quarters: zoomed_scale(scale_quarters, is_directed_in),
                },
                ..camera
            }
        } else {
            camera
        },
        _ => camera,
    }
}

/// The cameras after one zoom step.
pub open spec fn zoomed(cameras: Seq<RigCamera>, is_directed_in: bool) -> Seq<RigCamera> {
    cameras.map_values(|camera: RigCamera| zoomed_camera(camera, is_directed_in))
}

/// The cameras after the zoom steps of `zooms` in turn.
pub open spec fn zoomed_all(cameras: Seq<RigCamera>, zooms: Seq<CameraZoom>) -> Seq<RigCamera>
    decreases zooms.len(),
{
    if zooms.len() == 0 {
        cameras
    } else {
        zoomed(zoomed_all(cameras, zooms.drop_last()), zooms.last().is_directed_in)
    }
}

/// The stage height and zoom scale that the perspective cameras' field of
/// view follows; zero when no camera zooms.
#[derive(Clone, Copy, Debug, PartialEq, Eq, Hash, Structural)]
pub struct ZoomView {
    pub height: u32,
    pub scale_quarters: u32,
}

/// The view of the last camera that zooms.
pub open spec fn zoom_view(cameras: Seq<RigCamera>) -> ZoomView
    decreases cameras.len(),
{
    if cameras.len() == 0 {
        ZoomView { height: 0, scale_quarters: 0 }
    } else {
        let camera = cameras.last();
        match camera.projection {
            CameraProjection::Orthographic { height, scale_quarters, .. } => if zooms(camera) {
                ZoomView { height, scale_quarters }
            } else {
                zoom_view(cameras.drop_last())
            },
            _ => zoom_view(cameras.drop_last()),
        }
    }
}

fn zoom_step(cameras: &mut Vec<RigCamera>, is_directed_in: bool) -> (r: ZoomView)
    ensures
        final(cameras)@ == zoomed(old(cameras)@, is_directed_in),
        r == zoom_view(final(cameras)@),
{
    let ghost before = cameras@;
    let mut view = ZoomView { height: 0, scale_quarters: 0 };
    let mut k: usize = 0;
    while k < cameras.len()
        invariant
            k <= cameras@.len(),
            cameras@.len() == before.len(),
            forall|j: int| 0 <= j < k ==> cameras@[j] == zoomed_camera(before[j], is_directed_in),
            forall|j: int| k <= j < cameras@.len() ==> cameras@[j] == before[j],
            view == zoom_view(cameras@.subrange(0, k as int)),
        decreases cameras.len() - k,
    {
        let camera = cameras[k];
        assert(cameras@.subrange(0, k + 1).drop_last() =~= cameras@.subrange(0, k as int));
        match camera.projection {
            CameraProjection::Orthographic { width, height, scale_quarters } => {
                if camera.role != CameraRole::Ui {
                    let scale = zoom_scale(scale_quarters, is_directed_in);
                    let next = RigCamera {
                        role: camera.role,
                        order: camera.order,
                        render_layer: camera.render_layer,
                        projection: CameraProjection::Orthographic {
                            width,
                            height,
                            scale_quarters: scale,
                        },
                    };
                    cameras.set(k, next);
                    view = ZoomView { height, scale_quarters: scale };
                }
            },
            _ => {},
        }
        assert(cameras@.subrange(0, k + 1).drop_last() =~= cameras@.subrange(0, k as int));
        k = k + 1;
    }
    assert(cameras@ =~= zoomed(before, is_directed_in));
    assert(cameras@.subrange(0, cameras@.len() as int) =~= cameras@);
    view
}

/// Zooms the stage once per request. Returns what the perspective cameras'
/// field of view must follow after the last request, or nothing when there
/// was none.
pub fn handle_zoom_camera(cameras: &mut Vec<RigCamera>, zooms: &Vec<CameraZoom>) -> (r: Option<
    ZoomView,
>)
    ensures
        final(cameras)@ == zoomed_all(old(cameras)@, zooms@),
        r == (if zooms@.len() > 0 {
            Some(zoom_view(final(cameras)@))
        } else {
            None
        }),
{
    let mut view: Option<ZoomView> = None;
    let mut i: usize = 0;
    while i < zooms.len()
        invariant
            i <= zooms@.len(),
            cameras@ == zoomed_all(old(cameras)@, zooms@.subrange(0, i as int)),
            view == (if i > 0 {
                Some(zoom_view(cameras@))
            } else {
                None
            }),
        decreases zooms.len() - i,
    {
        assert(zooms@.subrange(0, i + 1).drop_last() =~= zooms@.subrange(0, i as int));
        view = Some(zoom_step(cameras, zooms[i].is_directed_in));
        i = i + 1;
    }
    assert(zooms@.subrange(0, zooms@.len() as int) =~= zooms@);
    view
}

} // verus!
