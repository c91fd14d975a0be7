use waypaper_engine::surface::{
    RenderContext, Session, SurfaceAction, SurfaceController, SurfaceError, SurfaceEvent,
    SurfaceState, DEFAULT_HEIGHT, DEFAULT_WIDTH,
};
use waypaper_engine::wallpaper::{ProjectDescriptor, Wallpaper, WallpaperKind};

fn preset() -> Wallpaper {
    let d = ProjectDescriptor { id: 7, kind: WallpaperKind::Preset, file: None };
    Wallpaper::new(String::from("/w/7"), Some(d), false, None).unwrap()
}

fn active(session: &mut Session, id: u64, w: u32, h: u32) {
    assert_eq!(session.add_output(id, w, h), SurfaceAction::CreateSurface { width: w, height: h });
    assert_eq!(session.assign_wallpaper(id, preset()), SurfaceAction::Nothing);
    assert_eq!(
        session.handle(id, SurfaceEvent::Configure { width: 0, height: 0 }),
        SurfaceAction::Draw { width: w, height: h }
    );
    assert_eq!(session.controller(id).unwrap().state, SurfaceState::Active);
}

#[test]
fn lifecycle_of_one_controller() {
    let mut c = SurfaceController::new(3, 800, 600);
    assert_eq!(c.state, SurfaceState::Created);
    assert_eq!(c.request_surface(), SurfaceAction::CreateSurface { width: 800, height: 600 });
    assert_eq!(c.state, SurfaceState::AwaitingFirstConfigure);
    assert_eq!(c.request_surface(), SurfaceAction::Nothing);
    assert_eq!(c.assign_wallpaper(preset()), SurfaceAction::Nothing);
    assert_eq!(c.handle(SurfaceEvent::FrameAvailable), SurfaceAction::Nothing);
    assert_eq!(
        c.handle(SurfaceEvent::Configure { width: 1024, height: 0 }),
        SurfaceAction::Draw { width: 1024, height: 600 }
    );
    assert_eq!(c.state, SurfaceState::Active);
    assert_eq!(c.frames, 1);
    assert_eq!(c.handle(SurfaceEvent::FrameAvailable), SurfaceAction::Draw { width: 1024, height: 600 });
    assert_eq!(c.frames, 2);
    assert_eq!(c.handle(SurfaceEvent::Configure { width: 640, height: 480 }), SurfaceAction::Nothing);
    assert_eq!((c.width, c.height), (640, 480));
    assert_eq!(c.frames, 2);
    assert_eq!(c.handle(SurfaceEvent::Closed), SurfaceAction::Release);
    assert_eq!(c.state, SurfaceState::Closed);
    assert_eq!(c.handle(SurfaceEvent::OutputRemoved), SurfaceAction::Nothing);
    assert_eq!(c.handle(SurfaceEvent::FrameAvailable), SurfaceAction::Nothing);
}

#[test]
fn zero_size_output_gets_default() {
    let c = SurfaceController::new(1, 0, 0);
    assert_eq!((c.width, c.height), (DEFAULT_WIDTH, DEFAULT_HEIGHT));
}

#[test]
fn configure_zero_keeps_previous_size() {
    let mut s = Session::new();
    active(&mut s, 1, 1920, 1080);
    assert_eq!(s.handle(1, SurfaceEvent::Configure { width: 0, height: 0 }), SurfaceAction::Nothing);
    let c = s.controller(1).unwrap();
    assert_eq!((c.width, c.height), (1920, 1080));
    assert_eq!(s.handle(1, SurfaceEvent::FrameAvailable), SurfaceAction::Draw { width: 1920, height: 1080 });
}

#[test]
fn no_wallpaper_no_draw() {
    let mut s = Session::new();
    s.add_output(5, 100, 100);
    assert_eq!(s.handle(5, SurfaceEvent::Configure { width: 0, height: 0 }), SurfaceAction::Nothing);
    assert_eq!(s.handle(5, SurfaceEvent::FrameAvailable), SurfaceAction::Nothing);
    assert_eq!(s.controller(5).unwrap().frames, 0);
    assert_eq!(s.assign_wallpaper(5, preset()), SurfaceAction::Draw { width: 100, height: 100 });
    assert_eq!(s.controller(5).unwrap().frames, 1);
}

#[test]
fn output_removed_closes_and_releases_once() {
    let mut s = Session::new();
    active(&mut s, 1, 1920, 1080);
    active(&mut s, 2, 1280, 1024);
    assert_eq!(s.handle(1, SurfaceEvent::OutputRemoved), SurfaceAction::Release);
    assert!(s.controller(1).is_none());
    assert_eq!(s.handle(1, SurfaceEvent::OutputRemoved), SurfaceAction::Nothing);
    assert_eq!(s.handle(1, SurfaceEvent::Closed), SurfaceAction::Nothing);
    assert!(!s.is_finished());
    assert_eq!(s.handle(2, SurfaceEvent::FrameAvailable), SurfaceAction::Draw { width: 1280, height: 1024 });
    assert_eq!(s.controller(2).unwrap().state, SurfaceState::Active);
}

#[test]
fn frame_reaches_only_its_output() {
    let mut s = Session::new();
    active(&mut s, 10, 1920, 1080);
    active(&mut s, 20, 2560, 1440);
    let b_frames = s.controller(20).unwrap().frames;
    let a_frames = s.controller(10).unwrap().frames;
    assert_eq!(s.handle(10, SurfaceEvent::FrameAvailable), SurfaceAction::Draw { width: 1920, height: 1080 });
    assert_eq!(s.controller(10).unwrap().frames, a_frames + 1);
    assert_eq!(s.controller(20).unwrap().frames, b_frames);
}

#[test]
fn session_ends_when_all_closed() {
    let mut s = Session::new();
    assert!(s.is_finished());
    active(&mut s, 1, 10, 10);
    active(&mut s, 2, 10, 10);
    assert_eq!(s.handle(2, SurfaceEvent::Closed), SurfaceAction::Release);
    assert!(!s.is_finished());
    assert_eq!(s.handle(1, SurfaceEvent::DrawFailed(SurfaceError::Swap)), SurfaceAction::Release);
    assert!(s.is_finished());
}

#[test]
fn duplicate_output_is_ignored() {
    let mut s = Session::new();
    s.add_output(4, 10, 20);
    assert_eq!(s.add_output(4, 30, 40), SurfaceAction::Nothing);
    assert_eq!(s.controllers.len(), 1);
    assert_eq!(s.controller(4).unwrap().width, 10);
}

#[test]
fn closed_before_configure_releases() {
    let mut s = Session::new();
    s.add_output(8, 10, 20);
    assert_eq!(s.handle(8, SurfaceEvent::DrawFailed(SurfaceError::ContextBind)), SurfaceAction::Release);
    assert!(s.is_finished());
    let mut c = SurfaceController::new(9, 1, 1);
    assert_eq!(c.handle(SurfaceEvent::Closed), SurfaceAction::Nothing);
    assert_eq!(c.state, SurfaceState::Closed);
    assert_eq!(c.assign_wallpaper(preset()), SurfaceAction::Nothing);
    assert!(c.wallpaper.is_none());
}

#[test]
fn event_for_unknown_output_does_nothing() {
    let mut s = Session::new();
    active(&mut s, 1, 10, 10);
    assert_eq!(s.handle(99, SurfaceEvent::FrameAvailable), SurfaceAction::Nothing);
    assert_eq!(s.assign_wallpaper(99, preset()), SurfaceAction::Nothing);
    assert_eq!(s.controller(1).unwrap().frames, 1);
}

#[test]
fn render_context_binds_one_surface() {
    let mut ctx = RenderContext::new();
    assert!(!ctx.is_bound());
    ctx.bind(3);
    assert_eq!(ctx.bound, Some(3));
    ctx.unbind();
    assert!(!ctx.is_bound());
    ctx.bind(4);
    assert_eq!(ctx.bound, Some(4));
}

#[test]
fn with_bound_unbinds_after_the_call() {
    let mut ctx = RenderContext::new();
    let r: Result<u32, SurfaceError> = ctx.with_bound(5, |_| Err(SurfaceError::Swap));
    assert_eq!(r, Err(SurfaceError::Swap));
    assert!(!ctx.is_bound());
    assert_eq!(ctx.with_bound(6, |_| 42), 42);
    assert_eq!(ctx.with_bound(7, |bound| bound.bound), Some(7));
    assert!(!ctx.is_bound());
    assert_eq!(ctx.bound, None);
}

#[test]
fn other_controllers_keep_their_wallpapers() {
    let mut s = Session::new();
    active(&mut s, 1, 10, 10);
    active(&mut s, 2, 20, 20);
    let before = s.controller(2).unwrap().frames;
    assert_eq!(s.handle(1, SurfaceEvent::Configure { width: 30, height: 0 }), SurfaceAction::Nothing);
    assert_eq!(s.handle(1, SurfaceEvent::FrameAvailable), SurfaceAction::Draw { width: 30, height: 10 });
    assert_eq!(s.handle(1, SurfaceEvent::Closed), SurfaceAction::Release);
    let c = s.controller(2).unwrap();
    assert_eq!(c.frames, before);
    assert_eq!((c.width, c.height), (20, 20));
    assert_eq!(c.wallpaper.as_ref().map(|w| w.get_wp_type()), Some(WallpaperKind::Preset));
    assert_eq!(s.controllers.len(), 1);
}
