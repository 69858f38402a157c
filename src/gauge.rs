use vstd::prelude::*;

use futures::channel::mpsc::Receiver;

use crate::executor::{send_spec, start_spec, Executor, ExecutorError};
use crate::recv::SimConnectRecv;

verus! {

/// Lifecycle codes the host passes to a gauge callback.
pub const PANEL_SERVICE_PRE_INSTALL: i32 = 2;
pub const PANEL_SERVICE_POST_INSTALL: i32 = 3;
pub const PANEL_SERVICE_PRE_INITIALIZE: i32 = 4;
pub const PANEL_SERVICE_POST_INITIALIZE: i32 = 5;
pub const PANEL_SERVICE_PRE_UPDATE: i32 = 6;
pub const PANEL_SERVICE_POST_UPDATE: i32 = 7;
pub const PANEL_SERVICE_PRE_DRAW: i32 = 10;
pub const PANEL_SERVICE_POST_DRAW: i32 = 11;
pub const PANEL_SERVICE_PRE_KILL: i32 = 12;
pub const PANEL_SERVICE_POST_KILL: i32 = 13;

/// The host's context handle for a gauge.
#[derive(Debug, Clone, Copy, PartialEq, Eq, Hash, Structural)]
pub struct FsContext(pub u64);

/// What the host passes with a draw call: the mouse position, the time and
/// the time since the last frame (bits of 64-bit floats), and the window and
/// framebuffer sizes.
#[derive(Debug, Clone, Copy, PartialEq, Eq, Structural)]
pub struct GaugeDrawData {
    pub mx: i32,
    pub my: i32,
    pub t: u64,
    pub dt: u64,
    pub win_width: i32,
    pub win_height: i32,
    pub fb_width: i32,
    pub fb_height: i32,
}

/// A lifecycle phase of a gauge, as its task sees it.
#[derive(Debug, Clone, Copy, PartialEq, Eq, Structural)]
pub enum PanelServiceID {
    PostInstall,
    PreInitialize,
    PostInitialize,
    PreUpdate,
    PostUpdate,
    PreDraw(GaugeDrawData),
    PostDraw(GaugeDrawData),
    PreKill,
}

/// Everything a gauge's task can be handed.
#[derive(Debug, Clone)]
pub enum MSFSEvent {
    PanelServiceID(PanelServiceID),
    /// A mouse event; the coordinates are the bits of 32-bit floats.
    Mouse { x: u32, y: u32, flags: u32 },
    SimConnect(SimConnectRecv),
}

/// The phase a lifecycle code stands for, if the task is told of it. Draw
/// phases need their draw data.
pub open spec fn service_event(code: i32, draw: Option<GaugeDrawData>) -> Option<PanelServiceID> {
    if code == PANEL_SERVICE_POST_INSTALL {
        Some(PanelServiceID::PostInstall)
    } else if code == PANEL_SERVICE_PRE_INITIALIZE {
        Some(PanelServiceID::PreInitialize)
    } else if code == PANEL_SERVICE_POST_INITIALIZE {
        Some(PanelServiceID::PostInitialize)
    } else if code == PANEL_SERVICE_PRE_UPDATE {
        Some(PanelServiceID::PreUpdate)
    } else if code == PANEL_SERVICE_POST_UPDATE {
        Some(PanelServiceID::PostUpdate)
    } else if code == PANEL_SERVICE_PRE_DRAW {
        match draw {
            Some(d) => Some(PanelServiceID::PreDraw(d)),
            None => None,
        }
    } else if code == PANEL_SERVICE_POST_DRAW {
        match draw {
            Some(d) => Some(PanelServiceID::PostDraw(d)),
            None => None,
        }
    } else if code == PANEL_SERVICE_PRE_KILL {
        Some(PanelServiceID::PreKill)
    } else {
        None
    }
}

/// The phase a lifecycle code stands for, if the task is told of it.
pub fn service_event_of(code: i32, draw: Option<GaugeDrawData>) -> (r: Option<PanelServiceID>)
    ensures
        r == service_event(code, draw),
{
    if code == PANEL_SERVICE_POST_INSTALL {
        Some(PanelServiceID::PostInstall)
    } else if code == PANEL_SERVICE_PRE_INITIALIZE {
        Some(PanelServiceID::PreInitialize)
    } else if code == PANEL_SERVICE_POST_INITIALIZE {
        Some(PanelServiceID::PostInitialize)
    } else if code == PANEL_SERVICE_PRE_UPDATE {
        Some(PanelServiceID::PreUpdate)
    } else if code == PANEL_SERVICE_POST_UPDATE {
        Some(PanelServiceID::PostUpdate)
    } else if code == PANEL_SERVICE_PRE_DRAW {
        match draw {
            Some(d) => Some(PanelServiceID::PreDraw(d)),
            None => None,
        }
    } else if code == PANEL_SERVICE_POST_DRAW {
        match draw {
            Some(d) => Some(PanelServiceID::PostDraw(d)),
            None => None,
        }
    } else if code == PANEL_SERVICE_PRE_KILL {
        Some(PanelServiceID::PreKill)
    } else {
        None
    }
}

/// What the caller does after a gauge callback.
pub enum GaugeStep {
    /// Build the gauge's task around this receiver and store it.
    Start(Receiver<MSFSEvent>),
    /// The task was already started and was left alone.
    AlreadyStarted,
    /// An event or the close signal went to the task: poll it once and record
    /// the outcome.
    Poll,
    /// Nothing for the task in this call.
    Skip,
    /// The executor refused the call.
    Failed(ExecutorError),
}

/// The executor of one gauge, with the context the host gave it.
pub struct GaugeExecutor {
    pub fs_ctx: Option<FsContext>,
    pub executor: Executor<MSFSEvent>,
}

/// The result of the send a `Poll` or `Failed` step stands for.
pub open spec fn step_result(step: GaugeStep) -> Result<(), ExecutorError> {
    match step {
        GaugeStep::Failed(e) => Err(e),
        _ => Ok(()),
    }
}

impl GaugeExecutor {
    pub fn new() -> (r: Self)
        ensures
            r.executor.wf(),
            r.fs_ctx is None,
            r.executor@.state == crate::executor::TaskState::Uninitialized,
            !r.executor@.poll_owed,
    {
        GaugeExecutor { fs_ctx: None, executor: Executor::new() }
    }

    /// Handles one call of the gauge callback: the pre-install call starts the
    /// task, the post-kill call closes its channel, and each phase the task is
    /// told of is handed to it.
    pub fn handle_gauge(&mut self, ctx: FsContext, service_id: i32, draw: Option<GaugeDrawData>) -> (r:
        GaugeStep)
        requires
            old(self).executor.wf(),
        ensures
            final(self).executor.wf(),
            service_id == PANEL_SERVICE_PRE_INSTALL ==> {
                &&& final(self).fs_ctx == Some(ctx)
                &&& start_spec(old(self).executor@, final(self).executor@, r is Start)
                &&& (r is Start || r is AlreadyStarted)
            },
            service_id == PANEL_SERVICE_POST_KILL ==> {
                &&& final(self).fs_ctx == old(self).fs_ctx
                &&& (r is Poll || r is Failed)
                &&& send_spec(old(self).executor@, None, final(self).executor@, step_result(r))
            },
            service_id != PANEL_SERVICE_PRE_INSTALL && service_id != PANEL_SERVICE_POST_KILL ==> {
                &&& final(self).fs_ctx == old(self).fs_ctx
                &&& match service_event(service_id, draw) {
                    Some(ev) => (r is Poll || r is Failed) && send_spec(
                        old(self).executor@,
                        Some(MSFSEvent::PanelServiceID(ev)),
                        final(self).executor@,
                        step_result(r),
                    ),
                    None => r is Skip && final(self).executor@ == old(self).executor@,
                }
            },
    {
        if service_id == PANEL_SERVICE_PRE_INSTALL {
            self.fs_ctx = Some(ctx);
            match self.executor.start() {
                Some(rx) => GaugeStep::Start(rx),
                None => GaugeStep::AlreadyStarted,
            }
        } else if service_id == PANEL_SERVICE_POST_KILL {
            match self.executor.send(None) {
                Ok(()) => GaugeStep::Poll,
                Err(e) => GaugeStep::Failed(e),
            }
        } else {
            match service_event_of(service_id, draw) {
                Some(ev) => match self.executor.send(Some(MSFSEvent::PanelServiceID(ev))) {
                    Ok(()) => GaugeStep::Poll,
                    Err(e) => GaugeStep::Failed(e),
                },
                None => GaugeStep::Skip,
            }
        }
    }

    /// Hands the task a mouse event; on success one poll is owed.
    pub fn handle_mouse(&mut self, x: u32, y: u32, flags: u32) -> (r: Result<(), ExecutorError>)
        requires
            old(self).executor.wf(),
        ensures
            final(self).executor.wf(),
            final(self).fs_ctx == old(self).fs_ctx,
            send_spec(old(self).executor@, Some(MSFSEvent::Mouse { x, y, flags }), final(self).executor@, r),
    {
        self.executor.send(Some(MSFSEvent::Mouse { x, y, flags }))
    }
}

/// The executor of a standalone module, whose task is handed the session's
/// messages.
pub struct StandaloneModuleExecutor {
    pub executor: Executor<SimConnectRecv>,
}

impl StandaloneModuleExecutor {
    pub fn new() -> (r: Self)
        ensures
            r.executor.wf(),
            r.executor@.state == crate::executor::TaskState::Uninitialized,
            !r.executor@.poll_owed,
    {
        StandaloneModuleExecutor { executor: Executor::new() }
    }

    /// Handles the module's init call: starts the task, handing back the
    /// receiver to build it around, unless it was started before.
    pub fn handle_init(&mut self) -> (r: Option<Receiver<SimConnectRecv>>)
        requires
            old(self).executor.wf(),
        ensures
            final(self).executor.wf(),
            start_spec(old(self).executor@, final(self).executor@, r is Some),
    {
        self.executor.start()
    }

    /// Handles the module's deinit call: closes the task's channel; on success
    /// one poll is owed, which must finish the task.
    pub fn handle_deinit(&mut self) -> (r: Result<(), ExecutorError>)
        requires
            old(self).executor.wf(),
        ensures
            final(self).executor.wf(),
            send_spec(old(self).executor@, None, final(self).executor@, r),
    {
        self.executor.send(None)
    }
}

} // verus!
