use maze_render::frame::{FrameAction, FrameEvent, FrameScheduler, FrameStage};
use maze_render::render_graph::{composition_pass_desc, primary_pass_desc, Extent, Format};
use maze_render::resource::Rendering;
use maze_render::resources::{choose_extent, cursor_viewport, ResourceSet};
use maze_render::system::{
    ComposeCommand, DrawCommand, DrawSystem, DynamicDraw, DynamicEraser, StaticDraw,
};

#[test]
fn pass_descriptions_are_wired_as_designed() {
    let primary = primary_pass_desc();
    assert_eq!(
        primary.attachment_formats,
        vec![Format::R8G8B8A8Uint, Format::R8Uint, Format::D16Unorm]
    );
    assert_eq!(primary.subpasses, 2);
    let composition = composition_pass_desc();
    assert_eq!(composition.attachment_formats, vec![Format::B8G8R8A8Srgb]);
    assert_eq!(composition.subpasses, 1);
}

#[test]
fn extent_falls_back_when_the_surface_reports_none() {
    assert_eq!(
        choose_extent(None),
        Extent { width: 1280, height: 1024 }
    );
    assert_eq!(
        choose_extent(Some(Extent { width: 640, height: 480 })),
        Extent { width: 640, height: 480 }
    );
}

#[test]
fn cursor_viewport_is_centered_at_twice_texture_size() {
    let v = cursor_viewport(
        Extent { width: 800, height: 600 },
        Extent { width: 32, height: 16 },
    );
    assert_eq!(v.origin_x2, 800 - 64);
    assert_eq!(v.origin_y2, 600 - 32);
    assert_eq!(v.width, 64);
    // Both viewport dimensions come from the texture's width.
    assert_eq!(v.height, 64);
}

#[test]
fn resize_rebuilds_every_extent_dependent_resource() {
    let mut r = ResourceSet::initialize(
        Some(Extent { width: 800, height: 600 }),
        3,
        Extent { width: 16, height: 16 },
    );
    assert_eq!(r.extent, Extent { width: 800, height: 600 });
    let new_extent = Extent { width: 1920, height: 1080 };
    r.resize(new_extent);
    assert_eq!(r.extent, new_extent);
    assert_eq!(r.framebuffer_extent, new_extent);
    assert_eq!(r.depth_attachment.extent, new_extent);
    assert_eq!(r.depth_attachment.format, Format::D16Unorm);
    assert_eq!(r.tmp_image_attachment.extent, new_extent);
    assert_eq!(r.tmp_image_attachment.format, Format::R8G8B8A8Uint);
    assert_eq!(r.tmp_erase_image_attachment.extent, new_extent);
    assert_eq!(r.tmp_erase_image_attachment.format, Format::R8Uint);
    assert_eq!(r.second_framebuffer_extents.len(), 3);
    let mut i: usize = 0;
    while i < r.second_framebuffer_extents.len() {
        assert_eq!(r.second_framebuffer_extents[i], new_extent);
        i += 1;
    }
    assert_eq!(r.draw1_viewport, new_extent);
    assert_eq!(r.draw1_eraser_viewport, new_extent);
    assert_eq!(r.draw2_viewport, new_extent);
    assert_eq!(r.overlay_viewport, new_extent);
    assert_eq!(r.cursor_viewport.width, 32);
    assert_eq!(r.cursor_viewport.origin_x2, 1920 - 32);

    // A subsequent frame records against the new extent, not the old one.
    let ds = DrawSystem;
    let cmds = ds.record_primary(&Vec::new(), &Vec::new(), &Vec::new(), r.extent.width, r.extent.height, 100);
    assert!(cmds.contains(&DrawCommand::DispatchCollect { x: 1920 / 64, y: 1080 / 64 }));

    // The persistent decay buffer survives the rebuild.
    assert_eq!(r.buffers.decay_of(1), maze_render::eraser::DECAY_ONE);
}

#[test]
fn recorded_primary_commands_follow_the_pass_order() {
    let ds = DrawSystem;
    let statics = vec![StaticDraw { primitive: 2, group: 300, color: 7 }];
    let dynamics = vec![DynamicDraw { primitives: vec![(0, 5), (1, 6)], color: 9 }];
    let erasers = vec![DynamicEraser { primitive: 3, group: 8 }];
    let cmds = ds.record_primary(&statics, &dynamics, &erasers, 1280, 1024, 60000);
    let expected = vec![
        DrawCommand::Draw { primitive: 2, group_hb: 1, group_lb: 44, color: 7 },
        DrawCommand::Draw { primitive: 0, group_hb: 0, group_lb: 5, color: 9 },
        DrawCommand::Draw { primitive: 1, group_hb: 0, group_lb: 6, color: 9 },
        DrawCommand::NextSubpass,
        DrawCommand::EraseDraw { primitive: 3 },
        DrawCommand::EndPass,
        DrawCommand::FillTouch,
        DrawCommand::DispatchCollect { x: 20, y: 16 },
        DrawCommand::DispatchMerge { x: 1024, step: 60000 },
    ];
    assert_eq!(cmds, expected);
}

#[test]
fn recorded_composition_commands_follow_the_pass_order() {
    let ds = DrawSystem;
    let cmds = ds.record_composition(2);
    assert_eq!(
        cmds,
        vec![
            ComposeCommand::Fullscreen,
            ComposeCommand::Cursor,
            ComposeCommand::Overlay,
            ComposeCommand::Overlay,
        ]
    );
}

#[test]
fn run_consumes_the_hand_off_and_leaves_both_buffers() {
    let r = ResourceSet::initialize(None, 2, Extent { width: 8, height: 8 });
    let ds = DrawSystem;
    let mut rendering = Rendering::new();
    rendering.image_num = Some(1);
    rendering.size_points = Some((1280, 1024));
    rendering.size_pixels = Some((1280, 1024));
    ds.run(&mut rendering, &r, &Vec::new(), &Vec::new(), &Vec::new(), 100, 1);
    assert!(rendering.image_num.is_none());
    assert!(rendering.size_points.is_none());
    assert!(rendering.size_pixels.is_none());
    let primary = rendering.command_buffer.unwrap();
    assert_eq!(primary[primary.len() - 2], DrawCommand::DispatchCollect { x: 20, y: 16 });
    let composition = rendering.second_command_buffer.unwrap();
    assert_eq!(
        composition,
        vec![ComposeCommand::Fullscreen, ComposeCommand::Cursor, ComposeCommand::Overlay]
    );
}

#[test]
fn scheduler_walks_the_happy_path() {
    let mut s = FrameScheduler::new();
    assert_eq!(s.stage, FrameStage::Idle);
    assert_eq!(s.step(FrameEvent::Start), FrameAction::Acquire);
    assert_eq!(s.stage, FrameStage::Acquiring);
    assert_eq!(s.step(FrameEvent::ImageAcquired(2)), FrameAction::Record(2));
    assert_eq!(s.stage, FrameStage::Recording);
    assert_eq!(s.step(FrameEvent::Recorded), FrameAction::Dispatch);
    assert_eq!(s.stage, FrameStage::Dispatching);
    assert_eq!(s.step(FrameEvent::Dispatched), FrameAction::Submit);
    assert_eq!(s.stage, FrameStage::Submitted);
    assert_eq!(s.step(FrameEvent::SubmitOk), FrameAction::Present);
    assert_eq!(s.stage, FrameStage::Presented);
    assert_eq!(s.step(FrameEvent::PresentOk), FrameAction::Finish);
    assert_eq!(s.stage, FrameStage::Idle);
    assert!(!s.fatal);
}

#[test]
fn scheduler_resizes_and_retries_on_out_of_date_surfaces() {
    let mut s = FrameScheduler::new();
    s.step(FrameEvent::Start);
    assert_eq!(s.step(FrameEvent::AcquireOutOfDate), FrameAction::Resize);
    assert_eq!(s.step(FrameEvent::ResizeDone), FrameAction::Acquire);
    assert_eq!(s.stage, FrameStage::Acquiring);
    // An out-of-date present also resizes and restarts the frame.
    s.step(FrameEvent::ImageAcquired(0));
    s.step(FrameEvent::Recorded);
    s.step(FrameEvent::Dispatched);
    s.step(FrameEvent::SubmitOk);
    assert_eq!(s.step(FrameEvent::PresentOutOfDate), FrameAction::Resize);
    assert_eq!(s.stage, FrameStage::Acquiring);
    assert!(!s.fatal);
}

#[test]
fn second_consecutive_resize_failure_is_fatal() {
    let mut s = FrameScheduler::new();
    s.step(FrameEvent::Start);
    s.step(FrameEvent::AcquireOutOfDate);
    assert_eq!(s.step(FrameEvent::ResizeFailed), FrameAction::Resize);
    assert!(!s.fatal);
    assert_eq!(s.step(FrameEvent::ResizeFailed), FrameAction::Abort);
    assert!(s.fatal);
}

#[test]
fn a_completed_resize_clears_the_failure_history() {
    let mut s = FrameScheduler::new();
    s.step(FrameEvent::Start);
    s.step(FrameEvent::AcquireOutOfDate);
    assert_eq!(s.step(FrameEvent::ResizeFailed), FrameAction::Resize);
    assert_eq!(s.step(FrameEvent::ResizeDone), FrameAction::Acquire);
    assert_eq!(s.resize_failures, 0);
    // A later failure is the first of its run again.
    s.step(FrameEvent::AcquireOutOfDate);
    assert_eq!(s.step(FrameEvent::ResizeFailed), FrameAction::Resize);
    assert!(!s.fatal);
}

#[test]
fn submission_and_recording_errors_are_fatal() {
    let mut s = FrameScheduler::new();
    s.step(FrameEvent::Start);
    s.step(FrameEvent::ImageAcquired(0));
    assert_eq!(s.step(FrameEvent::RecordFailed), FrameAction::Abort);
    assert!(s.fatal);

    let mut t = FrameScheduler::new();
    t.step(FrameEvent::Start);
    t.step(FrameEvent::ImageAcquired(0));
    t.step(FrameEvent::Recorded);
    t.step(FrameEvent::Dispatched);
    assert_eq!(t.step(FrameEvent::SubmitFailed), FrameAction::Abort);
    assert!(t.fatal);
}
