use vstd::arithmetic::div_mod::{lemma_fundamental_div_mod, lemma_fundamental_div_mod_converse};
use vstd::prelude::*;

verus! {

/// `GL_FRAMEBUFFER_COMPLETE`.
pub const FRAMEBUFFER_COMPLETE: u32 = 0x8CD5;

/// `GL_FRAMEBUFFER_UNDEFINED`.
pub const FRAMEBUFFER_UNDEFINED: u32 = 0x8219;

/// `GL_FRAMEBUFFER_INCOMPLETE_ATTACHMENT`.
pub const FRAMEBUFFER_INCOMPLETE_ATTACHMENT: u32 = 0x8CD6;

/// `GL_FRAMEBUFFER_INCOMPLETE_MISSING_ATTACHMENT`.
pub const FRAMEBUFFER_INCOMPLETE_MISSING_ATTACHMENT: u32 = 0x8CD7;

/// `GL_FRAMEBUFFER_UNSUPPORTED`.
pub const FRAMEBUFFER_UNSUPPORTED: u32 = 0x8CDD;

/// `GL_FRAMEBUFFER_INCOMPLETE_MULTISAMPLE`.
pub const FRAMEBUFFER_INCOMPLETE_MULTISAMPLE: u32 = 0x8D56;

/// A framebuffer completeness code, as reported by `glCheckFramebufferStatus`.
#[derive(Clone, Copy, Debug, PartialEq, Eq, Structural)]
pub enum FramebufferStatus {
    Complete,
    Undefined,
    IncompleteAttachment,
    IncompleteMissingAttachment,
    Unsupported,
    IncompleteMultisample,
    Unknown(u32),
}

pub open spec fn framebuffer_status_of(code: u32) -> FramebufferStatus {
    if code == FRAMEBUFFER_COMPLETE {
        FramebufferStatus::Complete
    } else if code == FRAMEBUFFER_UNDEFINED {
        FramebufferStatus::Undefined
    } else if code == FRAMEBUFFER_INCOMPLETE_ATTACHMENT {
        FramebufferStatus::IncompleteAttachment
    } else if code == FRAMEBUFFER_INCOMPLETE_MISSING_ATTACHMENT {
        FramebufferStatus::IncompleteMissingAttachment
    } else if code == FRAMEBUFFER_UNSUPPORTED {
        FramebufferStatus::Unsupported
    } else if code == FRAMEBUFFER_INCOMPLETE_MULTISAMPLE {
        FramebufferStatus::IncompleteMultisample
    } else {
        FramebufferStatus::Unknown(code)
    }
}

pub open spec fn framebuffer_status_name(s: FramebufferStatus) -> Seq<char> {
    match s {
        FramebufferStatus::Complete => "GL_FRAMEBUFFER_COMPLETE"@,
        FramebufferStatus::Undefined => "GL_FRAMEBUFFER_UNDEFINED"@,
        FramebufferStatus::IncompleteAttachment => "GL_FRAMEBUFFER_INCOMPLETE_ATTACHMENT"@,
        FramebufferStatus::IncompleteMissingAttachment =>
            "GL_FRAMEBUFFER_INCOMPLETE_MISSING_ATTACHMENT"@,
        FramebufferStatus::Unsupported => "GL_FRAMEBUFFER_UNSUPPORTED"@,
        FramebufferStatus::IncompleteMultisample => "GL_FRAMEBUFFER_INCOMPLETE_MULTISAMPLE"@,
        FramebufferStatus::Unknown(_) => "unknown framebuffer status"@,
    }
}

impl FramebufferStatus {
    pub fn from_code(code: u32) -> (r: FramebufferStatus)
        ensures
            r == framebuffer_status_of(code),
    {
        if code == FRAMEBUFFER_COMPLETE {
            FramebufferStatus::Complete
        } else if code == FRAMEBUFFER_UNDEFINED {
            FramebufferStatus::Undefined
        } else if code == FRAMEBUFFER_INCOMPLETE_ATTACHMENT {
            FramebufferStatus::IncompleteAttachment
        } else if code == FRAMEBUFFER_INCOMPLETE_MISSING_ATTACHMENT {
            FramebufferStatus::IncompleteMissingAttachment
        } else if code == FRAMEBUFFER_UNSUPPORTED {
            FramebufferStatus::Unsupported
        } else if code == FRAMEBUFFER_INCOMPLETE_MULTISAMPLE {
            FramebufferStatus::IncompleteMultisample
        } else {
            FramebufferStatus::Unknown(code)
        }
    }

    /// The symbolic name of the status, for diagnostics.
    pub fn name(&self) -> (r: &'static str)
        ensures
            r@ == framebuffer_status_name(*self),
    {
        match self {
            FramebufferStatus::Complete => "GL_FRAMEBUFFER_COMPLETE",
            FramebufferStatus::Undefined => "GL_FRAMEBUFFER_UNDEFINED",
            FramebufferStatus::IncompleteAttachment => "GL_FRAMEBUFFER_INCOMPLETE_ATTACHMENT",
            FramebufferStatus::IncompleteMissingAttachment =>
                "GL_FRAMEBUFFER_INCOMPLETE_MISSING_ATTACHMENT",
            FramebufferStatus::Unsupported => "GL_FRAMEBUFFER_UNSUPPORTED",
            FramebufferStatus::IncompleteMultisample => "GL_FRAMEBUFFER_INCOMPLETE_MULTISAMPLE",
            FramebufferStatus::Unknown(_) => "unknown framebuffer status",
        }
    }
}


/// An axis-aligned rectangle in framebuffer pixels, as handed to `glScissor` or `glViewport`.
#[derive(Clone, Copy, Debug, PartialEq, Eq, Structural)]
pub struct Rect {
    pub x: i32,
    pub y: i32,
    pub width: i32,
    pub height: i32,
}

/// Why a set of per-eye buffers cannot form a swap chain.
#[derive(Clone, Copy, Debug, PartialEq, Eq, Structural)]
pub enum SwapChainError {
    /// The requested size is not positive in both directions.
    BadSize,
    /// The compositor's swap chain holds no image.
    Empty,
    /// The depth buffers, framebuffers and statuses do not pair up one for one.
    LengthMismatch,
}

/// What a swap chain is: its buffers, its size, and where its cursor stands.
pub struct SwapChainModel {
    pub width: int,
    pub height: int,
    pub color_swap_chain: u64,
    pub depth_buffers: Seq<u32>,
    pub frame_buffers: Seq<u32>,
    pub index: int,
    /// How many times the cursor has been advanced since construction.
    pub advances: nat,
}

impl SwapChainModel {
    pub open spec fn length(self) -> int {
        self.frame_buffers.len() as int
    }
}

/// One eye's ring of compositor-owned color images, with an app-owned depth buffer
/// and framebuffer for each, and the cursor of the image to render next.
pub struct SwapChain {
    length: i32,
    width: i32,
    height: i32,
    color_swap_chain: u64,
    depth_buffers: Vec<u32>,
    frame_buffers: Vec<u32>,
    index: i32,
    advances: Ghost<nat>,
}

/// Where the rendering of one eye goes this frame.
#[derive(Clone, Copy, Debug, PartialEq, Eq, Structural)]
pub struct EyeTarget {
    /// The framebuffer to bind for drawing.
    pub frame_buffer: u32,
    /// The compositor swap chain that the layer refers to.
    pub color_swap_chain: u64,
    /// The image of that swap chain that the layer refers to.
    pub swap_chain_index: i32,
    /// The whole image, as viewport and as scissor for the scene.
    pub viewport: Rect,
}

pub open spec fn full_rect(width: int, height: int) -> Rect {
    Rect { x: 0, y: 0, width: width as i32, height: height as i32 }
}

/// The four one-pixel border strips of a `width` by `height` image: left column,
/// right column, bottom row, top row.
pub open spec fn guard_band_of(width: int, height: int) -> Seq<Rect> {
    seq![
        Rect { x: 0, y: 0, width: 1, height: height as i32 },
        Rect { x: (width - 1) as i32, y: 0, width: 1, height: height as i32 },
        Rect { x: 0, y: 0, width: width as i32, height: 1 },
        Rect { x: 0, y: (height - 1) as i32, width: width as i32, height: 1 },
    ]
}

/// The target under the cursor of a swap chain.
pub open spec fn eye_target_of(m: SwapChainModel) -> EyeTarget {
    EyeTarget {
        frame_buffer: m.frame_buffers[m.index],
        color_swap_chain: m.color_swap_chain,
        swap_chain_index: m.index as i32,
        viewport: full_rect(m.width, m.height),
    }
}

/// The one-pixel border strips of a `width` by `height` image, to be cleared to
/// black so that the compositor's filtering does not bleed the edge.
pub fn guard_band(width: i32, height: i32) -> (r: Vec<Rect>)
    requires
        width > 0,
        height > 0,
    ensures
        r@ == guard_band_of(width as int, height as int),
{
    let r = vec![
        Rect { x: 0, y: 0, width: 1, height },
        Rect { x: width - 1, y: 0, width: 1, height },
        Rect { x: 0, y: 0, width, height: 1 },
        Rect { x: 0, y: height - 1, width, height: 1 },
    ];
    assert(r@ =~= guard_band_of(width as int, height as int));
    r
}

impl View for SwapChain {
    type V = SwapChainModel;

    closed spec fn view(&self) -> SwapChainModel {
        SwapChainModel {
            width: self.width as int,
            height: self.height as int,
            color_swap_chain: self.color_swap_chain,
            depth_buffers: self.depth_buffers@,
            frame_buffers: self.frame_buffers@,
            index: self.index as int,
            advances: self.advances@,
        }
    }
}

impl SwapChain {
    /// The cursor stays in the ring, and stands where as many advances from the
    /// first image lead.
    pub closed spec fn wf(&self) -> bool {
        &&& self.length as int == self.frame_buffers@.len()
        &&& self.depth_buffers@.len() == self.frame_buffers@.len()
        &&& self.length > 0
        &&& self.width > 0
        &&& self.height > 0
        &&& self.color_swap_chain != 0
        &&& 0 <= self.index < self.length
        &&& self.index as int == (self.advances@ as int) % (self.length as int)
    }

    /// Assembles a swap chain from the compositor's color swap chain, the depth
    /// buffers and framebuffers made for its images, and the completeness status
    /// reported for each framebuffer. A missing color swap chain or an incomplete
    /// framebuffer is fatal at setup, so neither is admitted here.
    pub fn new(
        width: i32,
        height: i32,
        color_swap_chain: u64,
        depth_buffers: Vec<u32>,
        frame_buffers: Vec<u32>,
        statuses: &Vec<u32>,
    ) -> (r: Result<SwapChain, SwapChainError>)
        requires
            color_swap_chain != 0,
            forall|i: int| 0 <= i < statuses@.len() ==> statuses@[i] == FRAMEBUFFER_COMPLETE,
        ensures
            width <= 0 || height <= 0 ==> r == Err::<SwapChain, _>(SwapChainError::BadSize),
            width > 0 && height > 0 && frame_buffers@.len() == 0 ==> r == Err::<SwapChain, _>(
                SwapChainError::Empty,
            ),
            width > 0 && height > 0 && frame_buffers@.len() > 0 && (depth_buffers@.len()
                != frame_buffers@.len() || statuses@.len() != frame_buffers@.len()
                || frame_buffers@.len() > i32::MAX) ==> r == Err::<SwapChain, _>(
                SwapChainError::LengthMismatch,
            ),
            r is Ok <==> {
                &&& width > 0
                &&& height > 0
                &&& 0 < frame_buffers@.len() <= i32::MAX
                &&& depth_buffers@.len() == frame_buffers@.len()
                &&& statuses@.len() == frame_buffers@.len()
            },
            r matches Ok(sc) ==> sc.wf() && sc@ == (SwapChainModel {
                width: width as int,
                height: height as int,
                color_swap_chain,
                depth_buffers: depth_buffers@,
                frame_buffers: frame_buffers@,
                index: 0,
                advances: 0,
            }),
    {
        if width <= 0 || height <= 0 {
            return Err(SwapChainError::BadSize);
        }
        if frame_buffers.len() == 0 {
            return Err(SwapChainError::Empty);
        }
        if depth_buffers.len() != frame_buffers.len() || statuses.len() != frame_buffers.len()
            || frame_buffers.len() > i32::MAX as usize {
            return Err(SwapChainError::LengthMismatch);
        }
        let length = frame_buffers.len() as i32;
        proof {
            lemma_fundamental_div_mod_converse(0, length as int, 0, 0);
        }
        Ok(
            SwapChain {
                length,
                width,
                height,
                color_swap_chain,
                depth_buffers,
                frame_buffers,
                index: 0,
                advances: Ghost(0),
            },
        )
    }

    pub fn width(&self) -> (r: i32)
        ensures
            r == self@.width,
    {
        self.width
    }

    pub fn height(&self) -> (r: i32)
        ensures
            r == self@.height,
    {
        self.height
    }

    pub fn color_swap_chain(&self) -> (r: u64)
        ensures
            r == self@.color_swap_chain,
    {
        self.color_swap_chain
    }

    /// The number of images in the ring, as the compositor chose it.
    pub fn length(&self) -> (r: i32)
        requires
            self.wf(),
        ensures
            r == self@.length(),
    {
        self.length
    }

    pub fn frame_buffer(&self, index: usize) -> (r: u32)
        requires
            self.wf(),
            index < self@.length(),
        ensures
            r == self@.frame_buffers[index as int],
    {
        self.frame_buffers[index]
    }

    /// The depth buffers, in image order.
    pub fn depth_buffers(&self) -> (r: &Vec<u32>)
        ensures
            r@ == self@.depth_buffers,
    {
        &self.depth_buffers
    }

    /// The framebuffers, in image order.
    pub fn frame_buffers(&self) -> (r: &Vec<u32>)
        ensures
            r@ == self@.frame_buffers,
    {
        &self.frame_buffers
    }

    pub fn index(&self) -> (r: i32)
        requires
            self.wf(),
        ensures
            r == self@.index,
            0 <= r < self@.length(),
            r == (self@.advances as int) % self@.length(),
    {
        self.index
    }

    /// Moves the cursor to the next image of the ring, wrapping after the last.
    pub fn advance(&mut self)
        requires
            old(self).wf(),
        ensures
            final(self).wf(),
            final(self)@ == (SwapChainModel {
                index: (old(self)@.index + 1) % old(self)@.length(),
                advances: old(self)@.advances + 1,
                ..old(self)@
            }),
    {
        proof {
            let n = self.length as int;
            let a = self.advances@ as int;
            let q = a / n;
            lemma_fundamental_div_mod(a, n);
            if self.index + 1 < self.length {
                assert(a + 1 == q * n + (self.index + 1)) by (nonlinear_arith)
                    requires
                        a == n * q + self.index,
                ;
                lemma_fundamental_div_mod_converse(a + 1, n, q, self.index + 1);
                lemma_fundamental_div_mod_converse(self.index + 1, n, 0, self.index + 1);
            } else {
                assert(a + 1 == (q + 1) * n + 0) by (nonlinear_arith)
                    requires
                        a == n * q + self.index,
                        self.index + 1 == n,
                ;
                lemma_fundamental_div_mod_converse(a + 1, n, q + 1, 0);
                lemma_fundamental_div_mod_converse(n, n, 1, 0);
            }
        }
        self.index = if self.index + 1 == self.length {
            0
        } else {
            self.index + 1
        };
        self.advances = Ghost(self.advances@ + 1);
    }

    /// Gives up the buffers for release: framebuffers, depth buffers, and the
    /// compositor's swap chain.
    pub fn into_buffers(self) -> (r: (Vec<u32>, Vec<u32>, u64))
        ensures
            r.0@ == self@.frame_buffers,
            r.1@ == self@.depth_buffers,
            r.2 == self@.color_swap_chain,
    {
        (self.frame_buffers, self.depth_buffers, self.color_swap_chain)
    }

    /// The whole image, for the viewport and the scene's scissor.
    pub fn viewport(&self) -> (r: Rect)
        ensures
            r == full_rect(self@.width, self@.height),
    {
        Rect { x: 0, y: 0, width: self.width, height: self.height }
    }

    /// The one-pixel border strips that are cleared to black around each eye's image.
    pub fn guard_band(&self) -> (r: Vec<Rect>)
        requires
            self.wf(),
        ensures
            r@ == guard_band_of(self@.width, self@.height),
    {
        guard_band(self.width, self.height)
    }

    /// Where this eye renders this frame: the framebuffer and image under the cursor.
    pub fn target(&self) -> (r: EyeTarget)
        requires
            self.wf(),
        ensures
            r == eye_target_of(self@),
    {
        EyeTarget {
            frame_buffer: self.frame_buffers[self.index as usize],
            color_swap_chain: self.color_swap_chain,
            swap_chain_index: self.index,
            viewport: self.viewport(),
        }
    }
}

/// Swap-chain cursor: after `k` calls of `advance` since construction, the cursor
/// of a ring of `N` images stands at `k mod N`, and so always within `[0, N)`.
pub proof fn lemma_cursor_position(sc: &SwapChain)
    requires
        sc.wf(),
    ensures
        sc@.index == (sc@.advances as int) % sc@.length(),
        0 <= sc@.index < sc@.length(),
{
}

} // verus!
