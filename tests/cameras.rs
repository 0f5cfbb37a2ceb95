use make_like::config::windows::{AspectRatio, EditResolution, Resolution};
use make_like::game::cameras::{
    framing_for, handle_edit_resolution, handle_zoom_camera, spawn_cameras, zoom_scale,
    CameraFraming, CameraProjection, CameraRole, CameraZoom, ZoomView,
};

fn edit(aspect_ratio: AspectRatio) -> EditResolution {
    EditResolution { resolution: Resolution { width: 1, height: 1 }, aspect_ratio }
}

#[test]
fn rig_spawns_in_render_order() {
    let rig = spawn_cameras();
    assert_eq!(rig.len(), 3);
    assert_eq!(rig[0].role, CameraRole::World);
    assert_eq!((rig[0].order, rig[0].render_layer), (0, 1));
    assert_eq!(rig[0].projection, CameraProjection::Perspective { depth_milli: 173820 });
    assert_eq!(rig[1].role, CameraRole::Stage);
    assert_eq!((rig[1].order, rig[1].render_layer), (1, 0));
    assert_eq!(rig[2].role, CameraRole::Ui);
    assert_eq!((rig[2].order, rig[2].render_layer), (2, 2));
    assert_eq!(
        rig[2].projection,
        CameraProjection::Orthographic { width: 256, height: 144, scale_quarters: 4 }
    );
}

#[test]
fn framing_table() {
    assert_eq!(
        framing_for(AspectRatio::_4_3),
        CameraFraming { width: 256, height: 192, depth_milli: 231765 }
    );
    assert_eq!(
        framing_for(AspectRatio::_5_4),
        CameraFraming { width: 240, height: 192, depth_milli: 231765 }
    );
    assert_eq!(
        framing_for(AspectRatio::_8_5),
        CameraFraming { width: 256, height: 160, depth_milli: 193137 }
    );
    assert_eq!(
        framing_for(AspectRatio::_16_9),
        CameraFraming { width: 256, height: 144, depth_milli: 173823 }
    );
    assert_eq!(
        framing_for(AspectRatio::_21_9),
        CameraFraming { width: 336, height: 144, depth_milli: 173823 }
    );
}

#[test]
fn resize_reframes_every_camera() {
    let mut rig = spawn_cameras();
    handle_edit_resolution(&mut rig, &vec![edit(AspectRatio::_4_3)]);
    assert_eq!(rig[0].projection, CameraProjection::Perspective { depth_milli: 231765 });
    assert_eq!(
        rig[1].projection,
        CameraProjection::Orthographic { width: 256, height: 192, scale_quarters: 4 }
    );
    assert_eq!(rig[2].projection, rig[1].projection);
    assert_eq!(rig[0].order, 0);
}

#[test]
fn reframing_twice_is_reframing_once() {
    let mut once = spawn_cameras();
    handle_edit_resolution(&mut once, &vec![edit(AspectRatio::_21_9)]);
    let mut twice = once.clone();
    handle_edit_resolution(&mut twice, &vec![edit(AspectRatio::_21_9)]);
    assert_eq!(once, twice);
    let mut rig = spawn_cameras();
    handle_edit_resolution(&mut rig, &vec![edit(AspectRatio::_8_5), edit(AspectRatio::_21_9)]);
    assert_eq!(rig, once);
}

#[test]
fn zoom_is_clamped() {
    assert_eq!(zoom_scale(4, true), 5);
    assert_eq!(zoom_scale(4, false), 3);
    assert_eq!(zoom_scale(20, true), 20);
    assert_eq!(zoom_scale(1, false), 1);
    assert_eq!(zoom_scale(0, true), 1);
    assert_eq!(zoom_scale(30, false), 20);
}

#[test]
fn zoom_reaches_stage_not_ui() {
    let mut rig = spawn_cameras();
    let view = handle_zoom_camera(
        &mut rig,
        &vec![CameraZoom { is_directed_in: true }, CameraZoom { is_directed_in: true }],
    );
    assert_eq!(view, Some(ZoomView { height: 144, scale_quarters: 6 }));
    assert_eq!(
        rig[1].projection,
        CameraProjection::Orthographic { width: 256, height: 144, scale_quarters: 6 }
    );
    assert_eq!(
        rig[2].projection,
        CameraProjection::Orthographic { width: 256, height: 144, scale_quarters: 4 }
    );
    assert_eq!(handle_zoom_camera(&mut rig, &vec![]), None);
}
