use vstd::prelude::*;

use crate::events::{handle_of, Message};
use crate::egl::EGL;
use crate::geometry::Geometry;
use crate::program::Program;
use crate::swap_chain::{eye_target_of, EyeTarget, SwapChain, SwapChainModel};

verus! {

/// `VRAPI_MODE_FLAG_ALLOW_POWER_SAVE`.
pub const MODE_FLAG_ALLOW_POWER_SAVE: u32 = 0x0000_00FF;

/// `VRAPI_MODE_FLAG_RESET_WINDOW_FULLSCREEN`.
pub const MODE_FLAG_RESET_WINDOW_FULLSCREEN: u32 = 0x0000_FF00;

/// `VRAPI_MODE_FLAG_NATIVE_WINDOW`: the window surface is a native window.
pub const MODE_FLAG_NATIVE_WINDOW: u32 = 0x0001_0000;

/// `ovrControllerType_TrackedRemote`.
pub const CONTROLLER_TYPE_TRACKED_REMOTE: u32 = 0x0000_0004;

/// `ovrControllerCaps_RightHand`.
pub const CONTROLLER_CAPS_RIGHT_HAND: u32 = 0x0000_0008;

/// The swap interval of every submitted frame: one display refresh per frame.
pub const SWAP_INTERVAL: u32 = 1;

/// The parameters that VR mode is entered with.
#[derive(Clone, Copy, Debug, PartialEq, Eq, Structural)]
pub struct ModeParms {
    pub flags: u32,
    pub display: u64,
    pub window_surface: u64,
    pub share_context: u64,
}

pub open spec fn default_mode_flags() -> u32 {
    MODE_FLAG_ALLOW_POWER_SAVE | MODE_FLAG_RESET_WINDOW_FULLSCREEN
}

/// The flags of the runtime's defaults, less the fullscreen reset, plus the use of
/// a native window.
pub open spec fn window_mode_flags() -> u32 {
    (default_mode_flags() & !MODE_FLAG_RESET_WINDOW_FULLSCREEN) | MODE_FLAG_NATIVE_WINDOW
}

pub open spec fn mode_parms_for(display: u64, window: u64, context: u64) -> ModeParms {
    ModeParms {
        flags: window_mode_flags(),
        display,
        window_surface: window,
        share_context: context,
    }
}

/// The runtime's default mode parameters: power saving allowed, the window reset to
/// fullscreen, and no display, window or context yet.
#[allow(non_snake_case)]
pub fn vrapi_DefaultModeParms() -> (r: ModeParms)
    ensures
        r == (ModeParms {
            flags: default_mode_flags(),
            display: 0,
            window_surface: 0,
            share_context: 0,
        }),
{
    ModeParms {
        flags: MODE_FLAG_ALLOW_POWER_SAVE | MODE_FLAG_RESET_WINDOW_FULLSCREEN,
        display: 0,
        window_surface: 0,
        share_context: 0,
    }
}

impl ModeParms {
    /// The parameters for entering VR mode on `window`, sharing `context` of `display`.
    pub fn for_window(display: u64, window: u64, context: u64) -> (r: ModeParms)
        ensures
            r == mode_parms_for(display, window, context),
            r.flags & MODE_FLAG_NATIVE_WINDOW == MODE_FLAG_NATIVE_WINDOW,
            r.flags & MODE_FLAG_RESET_WINDOW_FULLSCREEN == 0,
            r.flags & MODE_FLAG_ALLOW_POWER_SAVE == MODE_FLAG_ALLOW_POWER_SAVE,
    {
        let defaults = vrapi_DefaultModeParms();
        let flags = (defaults.flags & !MODE_FLAG_RESET_WINDOW_FULLSCREEN) | MODE_FLAG_NATIVE_WINDOW;
        assert(flags & MODE_FLAG_NATIVE_WINDOW == MODE_FLAG_NATIVE_WINDOW
            && flags & MODE_FLAG_RESET_WINDOW_FULLSCREEN == 0
            && flags & MODE_FLAG_ALLOW_POWER_SAVE == MODE_FLAG_ALLOW_POWER_SAVE) by (bit_vector)
            requires
                flags == (((0x0000_00FFu32 | 0x0000_FF00u32) & !0x0000_FF00u32) | 0x0001_0000u32),
        ;
        ModeParms { flags, display, window_surface: window, share_context: context }
    }
}

/// What the compositor has to be asked after a change of the session's state.
#[derive(Clone, Copy, Debug, PartialEq, Eq, Structural)]
pub enum ModeAction {
    /// Nothing: the session already is in the mode its state asks for.
    Stay,
    /// Enter VR mode with these parameters, then hand the result to `vr_mode_entered`.
    Enter(ModeParms),
    /// Leave VR mode on this handle; the session has already dropped it.
    Leave(u64),
}

/// Why the result of entering VR mode was refused.
#[derive(Clone, Copy, Debug, PartialEq, Eq, Structural)]
pub enum SessionError {
    /// The session was not waiting for VR mode to be entered.
    NotEntering,
}

/// The session as its contracts see it: whether the activity is resumed, the
/// attached window (never a null handle), the VR-mode handle, the frame counter,
/// and each eye's swap chain.
pub struct SessionModel {
    pub resumed: bool,
    pub window: Option<u64>,
    pub vr: Option<u64>,
    pub frame_index: nat,
    pub left: SwapChainModel,
    pub right: SwapChainModel,
}

/// The session belongs in VR mode exactly when it is resumed and has a window.
pub open spec fn wants_vr(m: SessionModel) -> bool {
    m.resumed && m.window is Some
}

/// VR mode is held exactly when the session belongs in it.
pub open spec fn settled(m: SessionModel) -> bool {
    (m.vr is Some) == wants_vr(m)
}

/// The compositor call that brings `m` to the mode it belongs in.
pub open spec fn mode_action_of(m: SessionModel, display: u64, context: u64) -> ModeAction {
    if wants_vr(m) {
        if m.vr is None {
            ModeAction::Enter(mode_parms_for(display, m.window->0, context))
        } else {
            ModeAction::Stay
        }
    } else {
        match m.vr {
            Some(h) => ModeAction::Leave(h),
            None => ModeAction::Stay,
        }
    }
}

/// The state once the decision is taken: a handle that is left is dropped at once;
/// one that is entered is recorded by `vr_mode_entered`.
pub open spec fn after_decision(m: SessionModel) -> SessionModel {
    if !wants_vr(m) && m.vr is Some {
        SessionModel { vr: None, ..m }
    } else {
        m
    }
}

/// The state once the compositor has performed `a`, having returned `handle` where
/// `a` enters VR mode.
pub open spec fn after_action(m: SessionModel, a: ModeAction, handle: u64) -> SessionModel {
    match a {
        ModeAction::Enter(_) => SessionModel { vr: Some(handle), ..m },
        _ => m,
    }
}

/// The state change that a command makes before VR mode is brought in line.
pub open spec fn event_update(m: SessionModel, message: Message) -> SessionModel {
    match message {
        Message::Resume => SessionModel { resumed: true, ..m },
        Message::Pause => SessionModel { resumed: false, ..m },
        Message::SurfaceCreated(w) => SessionModel { window: handle_of(w), ..m },
        Message::SurfaceDestroyed => SessionModel { window: None, ..m },
        _ => m,
    }
}

/// Whether the command changes the state that VR mode depends on.
pub open spec fn is_mode_event(message: Message) -> bool {
    match message {
        Message::Resume | Message::Pause | Message::SurfaceCreated(_)
        | Message::SurfaceDestroyed => true,
        _ => false,
    }
}

/// The state once a command has been applied and the mode action it asked for has
/// been performed, the compositor answering `handle` where VR mode is entered.
pub open spec fn settle_event(
    m: SessionModel,
    message: Message,
    display: u64,
    context: u64,
    handle: u64,
) -> SessionModel {
    if is_mode_event(message) {
        let u = event_update(m, message);
        after_action(after_decision(u), mode_action_of(u, display, context), handle)
    } else {
        m
    }
}

/// The state after each command of `messages` in turn, the compositor answering
/// `handles[i]` to the `i`-th.
pub open spec fn settle_events(
    m: SessionModel,
    messages: Seq<Message>,
    display: u64,
    context: u64,
    handles: Seq<u64>,
) -> SessionModel
    decreases messages.len(),
{
    if messages.len() == 0 {
        m
    } else {
        let last = messages.len() - 1;
        settle_event(
            settle_events(m, messages.drop_last(), display, context, handles),
            messages[last],
            display,
            context,
            handles[last],
        )
    }
}

/// Mode invariant, one command: starting from a state that holds VR mode exactly
/// when it is resumed with a window, a command applied with its mode action
/// performed (VR mode entered with a non-null handle) leaves a state that does too.
pub proof fn lemma_mode_invariant_step(
    m: SessionModel,
    message: Message,
    display: u64,
    context: u64,
    handle: u64,
)
    requires
        settled(m),
        handle != 0,
    ensures
        settled(settle_event(m, message, display, context, handle)),
{
}

/// Mode invariant: after every command of any sequence of resume, pause, window
/// attach and detach commands (and any others), each applied with its mode action
/// performed, VR mode is held exactly when the session is resumed with a window.
pub proof fn lemma_mode_invariant(
    m: SessionModel,
    messages: Seq<Message>,
    display: u64,
    context: u64,
    handles: Seq<u64>,
)
    requires
        settled(m),
        handles.len() >= messages.len(),
        forall|i: int| 0 <= i < handles.len() ==> handles[i] != 0,
    ensures
        settled(settle_events(m, messages, display, context, handles)),
    decreases messages.len(),
{
    if messages.len() > 0 {
        let last = messages.len() - 1;
        lemma_mode_invariant(m, messages.drop_last(), display, context, handles);
        lemma_mode_invariant_step(
            settle_events(m, messages.drop_last(), display, context, handles),
            messages[last],
            display,
            context,
            handles[last],
        );
    }
}

/// The transition is idempotent: once the action of a first call is performed, a
/// second call on the unchanged state asks the compositor for nothing.
pub proof fn lemma_update_vr_mode_idempotent(
    m: SessionModel,
    display: u64,
    context: u64,
    handle: u64,
)
    requires
        handle != 0,
    ensures
        ({
            let first = mode_action_of(m, display, context);
            let m1 = after_action(after_decision(m), first, handle);
            mode_action_of(m1, display, context) == ModeAction::Stay
        }),
{
}

/// The rendering work of one frame, for a session in VR mode.
#[derive(Clone, Debug, PartialEq, Eq)]
pub struct FramePlan {
    /// The VR-mode handle that the frame's queries and submission go to.
    pub vr: u64,
    /// The counter of this frame, for the display-time query and the submission.
    pub frame_index: u64,
    pub swap_interval: u32,
    /// Where each eye renders, left then right, and which image the layer shows.
    pub eyes: Vec<EyeTarget>,
}

/// One input device as enumerated by the runtime. `capabilities` is only read for
/// tracked remotes.
#[derive(Clone, Copy, Debug, PartialEq, Eq, Structural)]
pub struct InputDevice {
    pub device_type: u32,
    pub device_id: u32,
    pub capabilities: u32,
}

pub open spec fn is_right_controller(d: InputDevice) -> bool {
    d.device_type == CONTROLLER_TYPE_TRACKED_REMOTE && d.capabilities & CONTROLLER_CAPS_RIGHT_HAND
        != 0
}

/// Whether the capabilities of a device of this type are to be queried.
pub fn is_tracked_remote(device_type: u32) -> (r: bool)
    ensures
        r == (device_type == CONTROLLER_TYPE_TRACKED_REMOTE),
{
    device_type == CONTROLLER_TYPE_TRACKED_REMOTE
}

/// What the worker does after a command.
#[derive(Clone, Copy, Debug, PartialEq, Eq, Structural)]
pub enum Step {
    /// Perform the mode action, then render a frame and poll again.
    Continue(ModeAction),
    /// Stop rendering and tear the session down.
    Exit,
}

/// One release of the session's teardown, in the order they are to be performed.
#[derive(Clone, Debug, PartialEq, Eq)]
pub enum Teardown {
    LeaveVrMode(u64),
    DeleteVertexArray(u32),
    DeleteIndexBuffer(u32),
    DeleteVertexBuffer(u32),
    DeleteProgram(u32),
    DeleteShader(u32),
    DeleteFramebuffers(Vec<u32>),
    DeleteRenderbuffers(Vec<u32>),
    DestroySwapChain(u64),
    /// Make no context current on the display.
    ReleaseCurrent(u64),
    DestroySurface { display: u64, surface: u64 },
    DestroyContext { display: u64, context: u64 },
    Terminate(u64),
    ShutdownVrApi,
}

/// A teardown step, with buffer lists as sequences.
pub enum TeardownView {
    LeaveVrMode(u64),
    DeleteVertexArray(u32),
    DeleteIndexBuffer(u32),
    DeleteVertexBuffer(u32),
    DeleteProgram(u32),
    DeleteShader(u32),
    DeleteFramebuffers(Seq<u32>),
    DeleteRenderbuffers(Seq<u32>),
    DestroySwapChain(u64),
    ReleaseCurrent(u64),
    DestroySurface { display: u64, surface: u64 },
    DestroyContext { display: u64, context: u64 },
    Terminate(u64),
    ShutdownVrApi,
}

impl View for Teardown {
    type V = TeardownView;

    open spec fn view(&self) -> TeardownView {
        match self {
            Teardown::LeaveVrMode(h) => TeardownView::LeaveVrMode(*h),
            Teardown::DeleteVertexArray(h) => TeardownView::DeleteVertexArray(*h),
            Teardown::DeleteIndexBuffer(h) => TeardownView::DeleteIndexBuffer(*h),
            Teardown::DeleteVertexBuffer(h) => TeardownView::DeleteVertexBuffer(*h),
            Teardown::DeleteProgram(h) => TeardownView::DeleteProgram(*h),
            Teardown::DeleteShader(h) => TeardownView::DeleteShader(*h),
            Teardown::DeleteFramebuffers(v) => TeardownView::DeleteFramebuffers(v@),
            Teardown::DeleteRenderbuffers(v) => TeardownView::DeleteRenderbuffers(v@),
            Teardown::DestroySwapChain(h) => TeardownView::DestroySwapChain(*h),
            Teardown::ReleaseCurrent(d) => TeardownView::ReleaseCurrent(*d),
            Teardown::DestroySurface { display, surface } => TeardownView::DestroySurface {
                display: *display,
                surface: *surface,
            },
            Teardown::DestroyContext { display, context } => TeardownView::DestroyContext {
                display: *display,
                context: *context,
            },
            Teardown::Terminate(d) => TeardownView::Terminate(*d),
            Teardown::ShutdownVrApi => TeardownView::ShutdownVrApi,
        }
    }
}

/// A swap chain goes framebuffers first, then depth buffers, then the compositor's
/// images that the framebuffers referred to.
pub open spec fn swap_chain_teardown(s: SwapChainModel) -> Seq<TeardownView> {
    seq![
        TeardownView::DeleteFramebuffers(s.frame_buffers),
        TeardownView::DeleteRenderbuffers(s.depth_buffers),
        TeardownView::DestroySwapChain(s.color_swap_chain),
    ]
}

/// The VR session: the graphics context, one swap chain per eye, the shader program
/// and the geometry, with the state that decides VR mode and the frame counter.
pub struct App {
    egl: EGL,
    left: SwapChain,
    right: SwapChain,
    program: Program,
    geometry: Geometry,
    resumed: bool,
    window: Option<u64>,
    vr: Option<u64>,
    frame_index: u64,
}

impl View for App {
    type V = SessionModel;

    closed spec fn view(&self) -> SessionModel {
        SessionModel {
            resumed: self.resumed,
            window: self.window,
            vr: self.vr,
            frame_index: self.frame_index as nat,
            left: self.left@,
            right: self.right@,
        }
    }
}

impl App {
    pub closed spec fn spec_egl(&self) -> EGL {
        self.egl
    }

    pub closed spec fn spec_program(&self) -> &Program {
        &self.program
    }

    pub closed spec fn spec_geometry(&self) -> Geometry {
        self.geometry
    }

    /// The components are well formed and no window handle is null.
    pub closed spec fn parts_wf(&self) -> bool {
        &&& self.left.wf()
        &&& self.right.wf()
        &&& self.program.wf()
        &&& self.window != Some(0u64)
    }

    /// Beyond its parts, VR mode is only ever held while the session belongs in it.
    pub open spec fn wf(&self) -> bool {
        &&& self.parts_wf()
        &&& self@.vr is Some ==> wants_vr(self@)
    }

    /// The next compositor call, for the current state.
    pub open spec fn next_action(&self) -> ModeAction {
        mode_action_of(self@, self.spec_egl().spec_display(), self.spec_egl().spec_context())
    }

    /// The teardown of the whole session, in reverse order of construction.
    pub open spec fn teardown_spec(&self) -> Seq<TeardownView> {
        let egl = self.spec_egl();
        let program = self.spec_program();
        let geometry = self.spec_geometry();
        let leave = match self@.vr {
            Some(h) => seq![TeardownView::LeaveVrMode(h)],
            None => seq![],
        };
        leave + seq![
            TeardownView::DeleteVertexArray(geometry.spec_vertex_array()),
            TeardownView::DeleteIndexBuffer(geometry.spec_index_buffer()),
            TeardownView::DeleteVertexBuffer(geometry.spec_vertex_buffer()),
            TeardownView::DeleteProgram(program.spec_program()),
            TeardownView::DeleteShader(program.spec_fragment_shader()),
            TeardownView::DeleteShader(program.spec_vertex_shader()),
        ] + swap_chain_teardown(self@.right) + swap_chain_teardown(self@.left) + seq![
            TeardownView::ReleaseCurrent(egl.spec_display()),
            TeardownView::DestroySurface {
                display: egl.spec_display(),
                surface: egl.spec_surface(),
            },
            TeardownView::DestroyContext {
                display: egl.spec_display(),
                context: egl.spec_context(),
            },
            TeardownView::Terminate(egl.spec_display()),
            TeardownView::ShutdownVrApi,
        ]
    }

    /// A session over freshly made resources: paused, with no window, out of VR
    /// mode, at frame zero.
    pub fn new(
        egl: EGL,
        left: SwapChain,
        right: SwapChain,
        program: Program,
        geometry: Geometry,
    ) -> (r: App)
        requires
            left.wf(),
            right.wf(),
            program.wf(),
        ensures
            r.wf(),
            r@ == (SessionModel {
                resumed: false,
                window: None,
                vr: None,
                frame_index: 0,
                left: left@,
                right: right@,
            }),
            r.spec_egl() == egl,
            r.spec_program() == &program,
            r.spec_geometry() == geometry,
    {
        App {
            egl,
            left,
            right,
            program,
            geometry,
            resumed: false,
            window: None,
            vr: None,
            frame_index: 0,
        }
    }

    pub fn resumed(&self) -> (r: bool)
        ensures
            r == self@.resumed,
    {
        self.resumed
    }

    pub fn window(&self) -> (r: Option<u64>)
        ensures
            r == self@.window,
    {
        self.window
    }

    /// The VR-mode handle, held while the session is in VR mode.
    pub fn vr(&self) -> (r: Option<u64>)
        ensures
            r == self@.vr,
    {
        self.vr
    }

    pub fn is_in_vr(&self) -> (r: bool)
        ensures
            r == (self@.vr is Some),
    {
        self.vr.is_some()
    }

    pub fn frame_index(&self) -> (r: u64)
        ensures
            r == self@.frame_index,
    {
        self.frame_index
    }

    pub fn egl(&self) -> (r: &EGL)
        ensures
            *r == self.spec_egl(),
    {
        &self.egl
    }

    pub fn program(&self) -> (r: &Program)
        ensures
            r == self.spec_program(),
    {
        &self.program
    }

    pub fn geometry(&self) -> (r: &Geometry)
        ensures
            *r == self.spec_geometry(),
    {
        &self.geometry
    }

    /// The device whose pose the rendered object follows: the last right-hand tracked
    /// remote of the enumeration. With none, the previous pose stays.
    pub fn handle_input(devices: &Vec<InputDevice>) -> (r: Option<usize>)
        ensures
            r matches Some(i) ==> i < devices@.len() && is_right_controller(devices@[i as int])
                && forall|j: int| i < j < devices@.len() ==> !is_right_controller(
                    #[trigger] devices@[j],
                ),
            r is None ==> forall|j: int| 0 <= j < devices@.len() ==> !is_right_controller(
                #[trigger] devices@[j],
            ),
    {
        let mut found: Option<usize> = None;
        let mut i: usize = 0;
        while i < devices.len()
            invariant
                0 <= i <= devices@.len(),
                found matches Some(k) ==> k < i && is_right_controller(devices@[k as int]) && forall|
                    j: int,
                | k < j < i ==> !is_right_controller(#[trigger] devices@[j]),
                found is None ==> forall|j: int| 0 <= j < i ==> !is_right_controller(
                    #[trigger] devices@[j],
                ),
            decreases devices@.len() - i,
        {
            let d = devices[i];
            if d.device_type == CONTROLLER_TYPE_TRACKED_REMOTE && d.capabilities
                & CONTROLLER_CAPS_RIGHT_HAND != 0 {
                found = Some(i);
            }
            i = i + 1;
        }
        found
    }

    /// Brings VR mode in line with the state: asks to enter it when the session is
    /// resumed with a window and not in VR mode, drops the handle and asks to leave
    /// when it is in VR mode and not both resumed and with a window, and otherwise
    /// asks nothing.
    pub fn update_vr_mode(&mut self) -> (r: ModeAction)
        requires
            old(self).parts_wf(),
        ensures
            final(self).wf(),
            r == old(self).next_action(),
            final(self)@ == after_decision(old(self)@),
            final(self).spec_egl() == old(self).spec_egl(),
            final(self).spec_program() == old(self).spec_program(),
            final(self).spec_geometry() == old(self).spec_geometry(),
    {
        if self.resumed && self.window.is_some() {
            if self.vr.is_none() {
                let window = match self.window {
                    Some(w) => w,
                    None => 0,
                };
                ModeAction::Enter(
                    ModeParms::for_window(self.egl.display(), window, self.egl.context()),
                )
            } else {
                ModeAction::Stay
            }
        } else {
            match self.vr {
                Some(h) => {
                    self.vr = None;
                    ModeAction::Leave(h)
                },
                None => ModeAction::Stay,
            }
        }
    }

    /// Records whether the activity is resumed, then brings VR mode in line.
    pub fn set_resumed(&mut self, resumed: bool) -> (r: ModeAction)
        requires
            old(self).wf(),
        ensures
            final(self).wf(),
            r == mode_action_of(
                SessionModel { resumed, ..old(self)@ },
                old(self).spec_egl().spec_display(),
                old(self).spec_egl().spec_context(),
            ),
            final(self)@ == after_decision(SessionModel { resumed, ..old(self)@ }),
            final(self).spec_egl() == old(self).spec_egl(),
            final(self).spec_program() == old(self).spec_program(),
            final(self).spec_geometry() == old(self).spec_geometry(),
    {
        self.resumed = resumed;
        self.update_vr_mode()
    }

    /// Records the attached window (`0` for none), then brings VR mode in line.
    pub fn set_window(&mut self, window: u64) -> (r: ModeAction)
        requires
            old(self).wf(),
        ensures
            final(self).wf(),
            r == mode_action_of(
                SessionModel { window: handle_of(window), ..old(self)@ },
                old(self).spec_egl().spec_display(),
                old(self).spec_egl().spec_context(),
            ),
            final(self)@ == after_decision(SessionModel { window: handle_of(window), ..old(self)@ }),
            final(self).spec_egl() == old(self).spec_egl(),
            final(self).spec_program() == old(self).spec_program(),
            final(self).spec_geometry() == old(self).spec_geometry(),
    {
        self.window = if window == 0 {
            None
        } else {
            Some(window)
        };
        self.update_vr_mode()
    }

    /// Takes the compositor's answer to an `Enter` action: the VR-mode handle. A
    /// failure to enter VR mode (a null handle) is fatal, so it is not admitted.
    pub fn vr_mode_entered(&mut self, handle: u64) -> (r: Result<(), SessionError>)
        requires
            old(self).wf(),
            handle != 0,
        ensures
            final(self).wf(),
            !(wants_vr(old(self)@) && old(self)@.vr is None) ==> r == Err::<(), _>(
                SessionError::NotEntering,
            ),
            r is Ok <==> wants_vr(old(self)@) && old(self)@.vr is None,
            r is Ok ==> final(self)@ == (SessionModel { vr: Some(handle), ..old(self)@ }),
            r is Err ==> final(self)@ == old(self)@,
            r is Ok ==> settled(final(self)@),
            final(self).spec_egl() == old(self).spec_egl(),
            final(self).spec_program() == old(self).spec_program(),
            final(self).spec_geometry() == old(self).spec_geometry(),
    {
        if !(self.resumed && self.window.is_some() && self.vr.is_none()) {
            return Err(SessionError::NotEntering);
        }
        self.vr = Some(handle);
        Ok(())
    }

    /// The render thread's step for one command: resume and pause set whether the
    /// activity is resumed, a created surface attaches its window and a destroyed
    /// one detaches it, each then bringing VR mode in line; start and stop change
    /// nothing; destroy ends the loop. From a settled session the step leaves a
    /// settled one, or one that waits for `vr_mode_entered` after an `Enter`.
    pub fn apply(&mut self, message: Message) -> (r: Step)
        requires
            old(self).wf(),
        ensures
            final(self).wf(),
            final(self).spec_egl() == old(self).spec_egl(),
            final(self).spec_program() == old(self).spec_program(),
            final(self).spec_geometry() == old(self).spec_geometry(),
            is_mode_event(message) ==> r == Step::Continue(
                mode_action_of(
                    event_update(old(self)@, message),
                    old(self).spec_egl().spec_display(),
                    old(self).spec_egl().spec_context(),
                ),
            ) && final(self)@ == after_decision(event_update(old(self)@, message)),
            message == Message::Destroy ==> r == Step::Exit && final(self)@ == old(self)@,
            settled(old(self)@) && !(r matches Step::Continue(ModeAction::Enter(_))) ==> settled(
                final(self)@,
            ),
            settled(old(self)@) && (r matches Step::Continue(ModeAction::Enter(_))) ==> wants_vr(
                final(self)@,
            ) && final(self)@.vr is None,
            (message == Message::Start || message == Message::Stop) ==> r == Step::Continue(
                ModeAction::Stay,
            ) && final(self)@ == old(self)@,
    {
        match message {
            Message::Resume => Step::Continue(self.set_resumed(true)),
            Message::Pause => Step::Continue(self.set_resumed(false)),
            Message::SurfaceCreated(w) => Step::Continue(self.set_window(w)),
            Message::SurfaceDestroyed => Step::Continue(self.set_window(0)),
            Message::Destroy => Step::Exit,
            Message::Start => Step::Continue(ModeAction::Stay),
            Message::Stop => Step::Continue(ModeAction::Stay),
        }
    }

    /// Starts the next frame. Out of VR mode nothing is rendered and nothing
    /// changes. In VR mode the frame counter goes up by one, each eye's target is
    /// taken from under its cursor, left then right, and both cursors advance.
    pub fn render_frame(&mut self) -> (r: Option<FramePlan>)
        requires
            old(self).wf(),
            old(self)@.vr is Some ==> old(self)@.frame_index < u64::MAX,
        ensures
            final(self).wf(),
            final(self).spec_egl() == old(self).spec_egl(),
            final(self).spec_program() == old(self).spec_program(),
            final(self).spec_geometry() == old(self).spec_geometry(),
            old(self)@.vr is None ==> r is None && final(self)@ == old(self)@,
            old(self)@.vr matches Some(h) ==> {
                let l = old(self)@.left;
                let rt = old(self)@.right;
                &&& r matches Some(p) && p.vr == h && p.frame_index == old(self)@.frame_index + 1
                    && p.swap_interval == SWAP_INTERVAL && p.eyes@ == seq![
                    eye_target_of(l),
                    eye_target_of(rt),
                ]
                &&& final(self)@ == (SessionModel {
                    frame_index: old(self)@.frame_index + 1,
                    left: SwapChainModel {
                        index: (l.index + 1) % l.length(),
                        advances: l.advances + 1,
                        ..l
                    },
                    right: SwapChainModel {
                        index: (rt.index + 1) % rt.length(),
                        advances: rt.advances + 1,
                        ..rt
                    },
                    ..old(self)@
                })
            },
    {
        let vr = match self.vr {
            Some(h) => h,
            None => {
                return None;
            },
        };
        self.frame_index = self.frame_index + 1;
        let left = self.left.target();
        self.left.advance();
        let right = self.right.target();
        self.right.advance();
        let eyes = vec![left, right];
        Some(FramePlan { vr, frame_index: self.frame_index, swap_interval: SWAP_INTERVAL, eyes })
    }

    /// Ends the session and lists what it held, in the order to release it: VR
    /// mode if still entered, the geometry, the program, the right then the left
    /// swap chain, the graphics context, and last the runtime itself.
    pub fn teardown(self) -> (r: Vec<Teardown>)
        requires
            self.wf(),
        ensures
            r@.map_values(|t: Teardown| t@) == self.teardown_spec(),
    {
        let ghost expected = self.teardown_spec();
        let App { egl, left, right, program, geometry, vr, .. } = self;
        let mut r: Vec<Teardown> = Vec::new();
        match vr {
            Some(h) => r.push(Teardown::LeaveVrMode(h)),
            None => {},
        }
        r.push(Teardown::DeleteVertexArray(geometry.vertex_array()));
        r.push(Teardown::DeleteIndexBuffer(geometry.index_buffer()));
        r.push(Teardown::DeleteVertexBuffer(geometry.vertex_buffer()));
        r.push(Teardown::DeleteProgram(program.program()));
        r.push(Teardown::DeleteShader(program.fragment_shader()));
        r.push(Teardown::DeleteShader(program.vertex_shader()));
        let (frame_buffers, depth_buffers, color_swap_chain) = right.into_buffers();
        r.push(Teardown::DeleteFramebuffers(frame_buffers));
        r.push(Teardown::DeleteRenderbuffers(depth_buffers));
        r.push(Teardown::DestroySwapChain(color_swap_chain));
        let (frame_buffers, depth_buffers, color_swap_chain) = left.into_buffers();
        r.push(Teardown::DeleteFramebuffers(frame_buffers));
        r.push(Teardown::DeleteRenderbuffers(depth_buffers));
        r.push(Teardown::DestroySwapChain(color_swap_chain));
        r.push(Teardown::ReleaseCurrent(egl.display()));
        r.push(Teardown::DestroySurface { display: egl.display(), surface: egl.surface() });
        r.push(Teardown::DestroyContext { display: egl.display(), context: egl.context() });
        r.push(Teardown::Terminate(egl.display()));
        r.push(Teardown::ShutdownVrApi);
        assert(r@.map_values(|t: Teardown| t@) =~= expected);
        r
    }
}

/// Destroying the session ends with its teardown: VR mode is left first where it is
/// still held and nowhere else, and shutting the runtime down is the last step, so
/// no compositor call follows it. (The worker's step on `Destroy` is `Exit`; see
/// `App::apply`.)
pub proof fn lemma_teardown_order(app: &App)
    requires
        app.wf(),
    ensures
        app.teardown_spec().len() > 0,
        app.teardown_spec().last() == TeardownView::ShutdownVrApi,
        forall|i: int|
            0 < i < app.teardown_spec().len() ==> !(#[trigger] app.teardown_spec()[i] is LeaveVrMode),
        (app.teardown_spec()[0] is LeaveVrMode) <==> app@.vr is Some,
        app@.vr matches Some(h) ==> app.teardown_spec()[0] == TeardownView::LeaveVrMode(h),
{
}

} // verus!
