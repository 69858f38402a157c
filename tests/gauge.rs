use msfs::gauge::{
    service_event_of, PANEL_SERVICE_POST_DRAW, PANEL_SERVICE_POST_INSTALL, PANEL_SERVICE_POST_KILL,
    PANEL_SERVICE_PRE_DRAW, PANEL_SERVICE_PRE_INSTALL, PANEL_SERVICE_PRE_KILL,
};
use msfs::{
    ExecutorError, FsContext, GaugeDrawData, GaugeExecutor, GaugeStep, MSFSEvent, PanelServiceID, PollOutcome,
    StandaloneModuleExecutor, TaskState,
};

fn draw() -> GaugeDrawData {
    GaugeDrawData {
        mx: 3,
        my: 4,
        t: 1.5f64.to_bits(),
        dt: 0.016f64.to_bits(),
        win_width: 800,
        win_height: 600,
        fb_width: 800,
        fb_height: 600,
    }
}

#[test]
fn lifecycle_codes_map_to_phases() {
    assert_eq!(service_event_of(3, None), Some(PanelServiceID::PostInstall));
    assert_eq!(service_event_of(4, None), Some(PanelServiceID::PreInitialize));
    assert_eq!(service_event_of(5, None), Some(PanelServiceID::PostInitialize));
    assert_eq!(service_event_of(6, None), Some(PanelServiceID::PreUpdate));
    assert_eq!(service_event_of(7, None), Some(PanelServiceID::PostUpdate));
    assert_eq!(service_event_of(10, Some(draw())), Some(PanelServiceID::PreDraw(draw())));
    assert_eq!(service_event_of(11, Some(draw())), Some(PanelServiceID::PostDraw(draw())));
    assert_eq!(service_event_of(12, None), Some(PanelServiceID::PreKill));
    assert_eq!(service_event_of(PANEL_SERVICE_PRE_DRAW, None), None);
    assert_eq!(service_event_of(0, None), None);
    assert_eq!(service_event_of(8, None), None);
    assert_eq!(service_event_of(-1, None), None);
}

#[test]
fn gauge_lifecycle() {
    let mut g = GaugeExecutor::new();
    let mut rx = match g.handle_gauge(FsContext(9), PANEL_SERVICE_PRE_INSTALL, None) {
        GaugeStep::Start(rx) => rx,
        _ => panic!("expected a start"),
    };
    assert_eq!(g.fs_ctx, Some(FsContext(9)));
    assert!(matches!(g.handle_gauge(FsContext(9), PANEL_SERVICE_PRE_INSTALL, None), GaugeStep::AlreadyStarted));
    assert!(matches!(g.handle_gauge(FsContext(9), PANEL_SERVICE_POST_INSTALL, None), GaugeStep::Poll));
    assert!(matches!(rx.try_recv(), Ok(MSFSEvent::PanelServiceID(PanelServiceID::PostInstall))));
    assert!(matches!(
        g.handle_gauge(FsContext(9), PANEL_SERVICE_POST_DRAW, Some(draw())),
        GaugeStep::Failed(ExecutorError::PollOwed)
    ));
    assert_eq!(g.executor.record_poll(PollOutcome::Pending), Ok(true));
    assert!(matches!(g.handle_gauge(FsContext(9), 0, None), GaugeStep::Skip));
    assert!(matches!(g.handle_gauge(FsContext(9), PANEL_SERVICE_PRE_DRAW, None), GaugeStep::Skip));
    assert!(matches!(g.handle_gauge(FsContext(9), PANEL_SERVICE_PRE_KILL, None), GaugeStep::Poll));
    assert!(matches!(rx.try_recv(), Ok(MSFSEvent::PanelServiceID(PanelServiceID::PreKill))));
    assert_eq!(g.executor.record_poll(PollOutcome::Pending), Ok(true));
    assert_eq!(g.handle_mouse(1.0f32.to_bits(), 2.0f32.to_bits(), 1), Ok(()));
    match rx.try_recv() {
        Ok(MSFSEvent::Mouse { x, y, flags }) => {
            assert_eq!((f32::from_bits(x), f32::from_bits(y), flags), (1.0, 2.0, 1));
        }
        other => panic!("unexpected event {:?}", other.ok()),
    }
    assert_eq!(g.executor.record_poll(PollOutcome::Pending), Ok(true));
    assert!(matches!(g.handle_gauge(FsContext(9), PANEL_SERVICE_POST_KILL, None), GaugeStep::Poll));
    assert!(rx.try_recv().is_err());
    assert_eq!(g.executor.record_poll(PollOutcome::Ready { succeeded: true }), Ok(true));
    assert_eq!(g.executor.state(), TaskState::Finished { succeeded: true });
}

#[test]
fn post_kill_before_start_fails() {
    let mut g = GaugeExecutor::new();
    assert!(matches!(
        g.handle_gauge(FsContext(1), PANEL_SERVICE_POST_KILL, None),
        GaugeStep::Failed(ExecutorError::NotRunning)
    ));
}

#[test]
fn standalone_module_lifecycle() {
    let mut m = StandaloneModuleExecutor::new();
    assert!(m.handle_init().is_some());
    assert!(m.handle_init().is_none());
    assert_eq!(m.handle_deinit(), Ok(()));
    assert_eq!(m.executor.record_poll(PollOutcome::Ready { succeeded: true }), Ok(true));
    assert_eq!(m.handle_deinit(), Err(ExecutorError::NotRunning));
}
