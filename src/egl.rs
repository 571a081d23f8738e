use vstd::prelude::*;

verus! {

/// `EGL_OPENGL_ES3_BIT_KHR`, in a config's `EGL_RENDERABLE_TYPE`.
pub const OPENGL_ES3_BIT: i32 = 0x0040;

/// `EGL_PBUFFER_BIT`, in a config's `EGL_SURFACE_TYPE`.
pub const PBUFFER_BIT: i32 = 0x0001;

/// `EGL_WINDOW_BIT`, in a config's `EGL_SURFACE_TYPE`.
pub const WINDOW_BIT: i32 = 0x0004;

/// `EGL_CONTEXT_CLIENT_VERSION`.
pub const CONTEXT_CLIENT_VERSION: i32 = 0x3098;

/// `EGL_NONE`, which ends an attribute list.
pub const NONE: i32 = 0x3038;

/// `EGL_WIDTH`.
pub const WIDTH: i32 = 0x3057;

/// `EGL_HEIGHT`.
pub const HEIGHT: i32 = 0x3056;

/// The client API version that the rendering context is created for.
pub const CLIENT_VERSION: i32 = 3;

/// The side, in pixels, of the off-screen surface that keeps the context current
/// while no window is attached.
pub const PBUFFER_SIZE: i32 = 16;

/// The attributes of one frame-buffer configuration that the choice looks at.
#[derive(Clone, Copy, Debug, PartialEq, Eq, Structural)]
pub struct ConfigAttribs {
    pub renderable_type: i32,
    pub surface_type: i32,
    pub red_size: i32,
    pub green_size: i32,
    pub blue_size: i32,
    pub alpha_size: i32,
    pub depth_size: i32,
    pub stencil_size: i32,
    pub samples: i32,
}

/// A configuration is usable when it renders with the required client API, to
/// windows as well as to off-screen surfaces, with 8 bits per color channel and
/// no depth, stencil or multisample buffer of its own.
pub open spec fn config_suitable(c: ConfigAttribs) -> bool {
    &&& c.renderable_type & OPENGL_ES3_BIT != 0
    &&& c.surface_type & WINDOW_BIT != 0
    &&& c.surface_type & PBUFFER_BIT != 0
    &&& c.red_size == 8
    &&& c.green_size == 8
    &&& c.blue_size == 8
    &&& c.alpha_size == 8
    &&& c.depth_size == 0
    &&& c.stencil_size == 0
    &&& c.samples == 0
}

pub fn is_config_suitable(c: &ConfigAttribs) -> (r: bool)
    ensures
        r == config_suitable(*c),
{
    c.renderable_type & OPENGL_ES3_BIT != 0 && c.surface_type & WINDOW_BIT != 0
        && c.surface_type & PBUFFER_BIT != 0 && c.red_size == 8 && c.green_size == 8
        && c.blue_size == 8 && c.alpha_size == 8 && c.depth_size == 0 && c.stencil_size == 0
        && c.samples == 0
}

/// The position of the first suitable configuration, in the order the display
/// enumerated them, or `None` where none is suitable.
pub fn choose_config(configs: &Vec<ConfigAttribs>) -> (r: Option<usize>)
    ensures
        r matches Some(i) ==> first_suitable(configs@, i as int),
        r is None ==> forall|j: int| 0 <= j < configs@.len() ==> !config_suitable(
            #[trigger] configs@[j],
        ),
{
    let mut i: usize = 0;
    while i < configs.len()
        invariant
            0 <= i <= configs@.len(),
            forall|j: int| 0 <= j < i ==> !config_suitable(#[trigger] configs@[j]),
        decreases configs@.len() - i,
    {
        if is_config_suitable(&configs[i]) {
            return Some(i);
        }
        i = i + 1;
    }
    None
}

/// The attribute list that the rendering context is created with.
pub fn context_attribs() -> (r: Vec<i32>)
    ensures
        r@ == context_attribs_spec(),
{
    let r = vec![CONTEXT_CLIENT_VERSION, CLIENT_VERSION, NONE];
    assert(r@ =~= seq![CONTEXT_CLIENT_VERSION, CLIENT_VERSION, NONE]);
    r
}

/// The attribute list of the small off-screen surface.
pub fn pbuffer_attribs() -> (r: Vec<i32>)
    ensures
        r@ == pbuffer_attribs_spec(),
{
    let r = vec![WIDTH, PBUFFER_SIZE, HEIGHT, PBUFFER_SIZE, NONE];
    assert(r@ =~= seq![WIDTH, PBUFFER_SIZE, HEIGHT, PBUFFER_SIZE, NONE]);
    r
}

/// An error code of the EGL error domain, as `eglGetError` reports it.
#[derive(Clone, Copy, Debug, PartialEq, Eq, Structural)]
pub enum EglError {
    NotInitialized,
    BadAccess,
    BadAlloc,
    BadAttribute,
    BadContext,
    BadConfig,
    BadCurrentSurface,
    BadDisplay,
    BadSurface,
    BadMatch,
    BadParameter,
    BadNativePixmap,
    BadNativeWindow,
    ContextLost,
    Unknown(i32),
}

pub open spec fn egl_error_of(code: i32) -> EglError {
    if code == 0x3001 {
        EglError::NotInitialized
    } else if code == 0x3002 {
        EglError::BadAccess
    } else if code == 0x3003 {
        EglError::BadAlloc
    } else if code == 0x3004 {
        EglError::BadAttribute
    } else if code == 0x3005 {
        EglError::BadConfig
    } else if code == 0x3006 {
        EglError::BadContext
    } else if code == 0x3007 {
        EglError::BadCurrentSurface
    } else if code == 0x3008 {
        EglError::BadDisplay
    } else if code == 0x3009 {
        EglError::BadMatch
    } else if code == 0x300A {
        EglError::BadNativePixmap
    } else if code == 0x300B {
        EglError::BadNativeWindow
    } else if code == 0x300C {
        EglError::BadParameter
    } else if code == 0x300D {
        EglError::BadSurface
    } else if code == 0x300E {
        EglError::ContextLost
    } else {
        EglError::Unknown(code)
    }
}

pub open spec fn egl_error_name(e: EglError) -> Seq<char> {
    match e {
        EglError::NotInitialized => "EGL_NOT_INITIALIZED"@,
        EglError::BadAccess => "EGL_BAD_ACCESS"@,
        EglError::BadAlloc => "EGL_BAD_ALLOC"@,
        EglError::BadAttribute => "EGL_BAD_ATTRIBUTE"@,
        EglError::BadContext => "EGL_BAD_CONTEXT"@,
        EglError::BadConfig => "EGL_BAD_CONFIG"@,
        EglError::BadCurrentSurface => "EGL_BAD_CURRENT_SURFACE"@,
        EglError::BadDisplay => "EGL_BAD_DISPLAY"@,
        EglError::BadSurface => "EGL_BAD_SURFACE"@,
        EglError::BadMatch => "EGL_BAD_MATCH"@,
        EglError::BadParameter => "EGL_BAD_PARAMETER"@,
        EglError::BadNativePixmap => "EGL_BAD_NATIVE_PIXMAP"@,
        EglError::BadNativeWindow => "EGL_BAD_NATIVE_WINDOW"@,
        EglError::ContextLost => "EGL_CONTEXT_LOST"@,
        EglError::Unknown(_) => "unknown EGL error"@,
    }
}

impl EglError {
    pub fn from_code(code: i32) -> (r: EglError)
        ensures
            r == egl_error_of(code),
    {
        match code {
            0x3001 => EglError::NotInitialized,
            0x3002 => EglError::BadAccess,
            0x3003 => EglError::BadAlloc,
            0x3004 => EglError::BadAttribute,
            0x3005 => EglError::BadConfig,
            0x3006 => EglError::BadContext,
            0x3007 => EglError::BadCurrentSurface,
            0x3008 => EglError::BadDisplay,
            0x3009 => EglError::BadMatch,
            0x300A => EglError::BadNativePixmap,
            0x300B => EglError::BadNativeWindow,
            0x300C => EglError::BadParameter,
            0x300D => EglError::BadSurface,
            0x300E => EglError::ContextLost,
            _ => EglError::Unknown(code),
        }
    }

    /// The symbolic name of the error, for diagnostics.
    pub fn name(&self) -> (r: &'static str)
        ensures
            r@ == egl_error_name(*self),
    {
        match self {
            EglError::NotInitialized => "EGL_NOT_INITIALIZED",
            EglError::BadAccess => "EGL_BAD_ACCESS",
            EglError::BadAlloc => "EGL_BAD_ALLOC",
            EglError::BadAttribute => "EGL_BAD_ATTRIBUTE",
            EglError::BadContext => "EGL_BAD_CONTEXT",
            EglError::BadConfig => "EGL_BAD_CONFIG",
            EglError::BadCurrentSurface => "EGL_BAD_CURRENT_SURFACE",
            EglError::BadDisplay => "EGL_BAD_DISPLAY",
            EglError::BadSurface => "EGL_BAD_SURFACE",
            EglError::BadMatch => "EGL_BAD_MATCH",
            EglError::BadParameter => "EGL_BAD_PARAMETER",
            EglError::BadNativePixmap => "EGL_BAD_NATIVE_PIXMAP",
            EglError::BadNativeWindow => "EGL_BAD_NATIVE_WINDOW",
            EglError::ContextLost => "EGL_CONTEXT_LOST",
            EglError::Unknown(_) => "unknown EGL error",
        }
    }
}

/// `i` is the first suitable configuration of `configs`, in enumeration order.
pub open spec fn first_suitable(configs: Seq<ConfigAttribs>, i: int) -> bool {
    &&& 0 <= i < configs.len()
    &&& config_suitable(configs[i])
    &&& forall|j: int| 0 <= j < i ==> !config_suitable(#[trigger] configs[j])
}

pub open spec fn context_attribs_spec() -> Seq<i32> {
    seq![CONTEXT_CLIENT_VERSION, CLIENT_VERSION, NONE]
}

pub open spec fn pbuffer_attribs_spec() -> Seq<i32> {
    seq![WIDTH, PBUFFER_SIZE, HEIGHT, PBUFFER_SIZE, NONE]
}

/// Whether two attribute lists are the same.
pub fn same_attribs(a: &Vec<i32>, b: &Vec<i32>) -> (r: bool)
    ensures
        r == (a@ == b@),
{
    if a.len() != b.len() {
        return false;
    }
    let mut i: usize = 0;
    while i < a.len()
        invariant
            a@.len() == b@.len(),
            0 <= i <= a@.len(),
            forall|j: int| 0 <= j < i ==> a@[j] == b@[j],
        decreases a@.len() - i,
    {
        if a[i] != b[i] {
            return false;
        }
        i = i + 1;
    }
    assert(a@ =~= b@);
    true
}

/// Why a display, context and surface do not form the graphics context.
#[derive(Clone, Copy, Debug, PartialEq, Eq, Structural)]
pub enum EglSetupError {
    /// The display, the context or the surface is null.
    NullHandle,
    /// The context was not made on the first suitable configuration.
    ConfigNotChosen,
    /// The context was not created for client version 3.
    ContextAttribs,
    /// The off-screen surface is not the 16 by 16 one.
    SurfaceAttribs,
}

/// The display connection, rendering context and off-screen surface that the
/// rest of the session binds against, with the configuration the context was
/// made on. Each handle is non-zero.
#[derive(Clone, Copy, Debug, PartialEq, Eq, Structural)]
pub struct EGL {
    display: u64,
    context: u64,
    surface: u64,
    config: ConfigAttribs,
    config_index: usize,
}

impl EGL {
    pub closed spec fn spec_display(&self) -> u64 {
        self.display
    }

    pub closed spec fn spec_context(&self) -> u64 {
        self.context
    }

    pub closed spec fn spec_surface(&self) -> u64 {
        self.surface
    }

    pub closed spec fn spec_config(&self) -> ConfigAttribs {
        self.config
    }

    pub closed spec fn spec_config_index(&self) -> usize {
        self.config_index
    }

    /// Holds an initialized display, the context created on configuration `config`
    /// of the display's enumeration `configs` with attribute list
    /// `context_attribs`, and the off-screen surface made with `surface_attribs`
    /// on which that context was made current. A display without any suitable
    /// configuration is fatal at setup, so it is not admitted. The rest is accepted
    /// only where the handles are present, `config` is the first suitable
    /// configuration, the context is for client version 3 and the surface is 16 by
    /// 16 pixels.
    pub fn new(
        display: u64,
        context: u64,
        surface: u64,
        configs: &Vec<ConfigAttribs>,
        config: usize,
        context_attribs: &Vec<i32>,
        surface_attribs: &Vec<i32>,
    ) -> (r: Result<EGL, EglSetupError>)
        requires
            exists|i: int| 0 <= i < configs@.len() && config_suitable(#[trigger] configs@[i]),
        ensures
            display == 0 || context == 0 || surface == 0 ==> r == Err::<EGL, _>(
                EglSetupError::NullHandle,
            ),
            display != 0 && context != 0 && surface != 0 && !first_suitable(configs@, config as int)
                ==> r == Err::<EGL, _>(EglSetupError::ConfigNotChosen),
            display != 0 && context != 0 && surface != 0 && first_suitable(configs@, config as int)
                && context_attribs@ != context_attribs_spec() ==> r == Err::<EGL, _>(
                EglSetupError::ContextAttribs,
            ),
            display != 0 && context != 0 && surface != 0 && first_suitable(configs@, config as int)
                && context_attribs@ == context_attribs_spec() && surface_attribs@
                != pbuffer_attribs_spec() ==> r == Err::<EGL, _>(EglSetupError::SurfaceAttribs),
            r is Ok <==> display != 0 && context != 0 && surface != 0 && first_suitable(
                configs@,
                config as int,
            ) && context_attribs@ == context_attribs_spec() && surface_attribs@
                == pbuffer_attribs_spec(),
            r matches Ok(e) ==> e.spec_display() == display && e.spec_context() == context
                && e.spec_surface() == surface && e.spec_config_index() == config
                && e.spec_config() == configs@[config as int] && config_suitable(e.spec_config()),
    {
        if display == 0 || context == 0 || surface == 0 {
            return Err(EglSetupError::NullHandle);
        }
        match choose_config(configs) {
            Some(i) => {
                if i != config {
                    return Err(EglSetupError::ConfigNotChosen);
                }
            },
            None => {
                return Err(EglSetupError::ConfigNotChosen);
            },
        }
        if !same_attribs(context_attribs, &self::context_attribs()) {
            return Err(EglSetupError::ContextAttribs);
        }
        if !same_attribs(surface_attribs, &pbuffer_attribs()) {
            return Err(EglSetupError::SurfaceAttribs);
        }
        Ok(EGL { display, context, surface, config: configs[config], config_index: config })
    }

    /// The configuration the context was made on.
    pub fn config(&self) -> (r: ConfigAttribs)
        ensures
            r == self.spec_config(),
    {
        self.config
    }

    /// Its position in the display's enumeration.
    pub fn config_index(&self) -> (r: usize)
        ensures
            r == self.spec_config_index(),
    {
        self.config_index
    }

    pub fn display(&self) -> (r: u64)
        ensures
            r == self.spec_display(),
    {
        self.display
    }

    pub fn context(&self) -> (r: u64)
        ensures
            r == self.spec_context(),
    {
        self.context
    }

    pub fn surface(&self) -> (r: u64)
        ensures
            r == self.spec_surface(),
    {
        self.surface
    }
}

} // verus!
