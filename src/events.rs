use vstd::prelude::*;

verus! {

/// A lifecycle or surface command, sent from the platform's thread to the worker
/// in the order the platform called. Window handles are raw, `0` for none.
#[derive(Clone, Copy, Debug, PartialEq, Eq, Structural)]
pub enum Message {
    Start,
    Resume,
    Pause,
    Stop,
    Destroy,
    SurfaceCreated(u64),
    SurfaceDestroyed,
}


/// A window handle as the platform gives it, with `0` for none.
pub open spec fn handle_of(w: u64) -> Option<u64> {
    if w == 0 {
        None
    } else {
        Some(w)
    }
}

/// What a surface call asks of the platform side: the window reference to release,
/// then the commands to send, in order.
#[derive(Clone, Debug, PartialEq, Eq)]
pub struct SurfaceChange {
    pub release: Option<u64>,
    pub messages: Vec<Message>,
}

/// The outcome of `surface_changed` on the attached window `current` with the newly
/// resolved window `window`: the window then attached, the reference to release, and
/// the commands to send. A window equal to the attached one only has its extra
/// reference released; another one detaches the old window, then attaches the new.
pub open spec fn surface_changed_spec(current: u64, window: u64) -> (u64, Option<u64>, Seq<
    Message,
>) {
    if window != current {
        let detach: Seq<Message> = if current != 0 {
            seq![Message::SurfaceDestroyed]
        } else {
            seq![]
        };
        let attach: Seq<Message> = if window != 0 {
            seq![Message::SurfaceCreated(window)]
        } else {
            seq![]
        };
        (window, handle_of(current), detach + attach)
    } else {
        (current, handle_of(window), seq![])
    }
}

/// The platform side of the command queue: it keeps the window that the render
/// thread was last told of, and turns each platform call into the commands to
/// send.
#[derive(Clone, Copy, Debug, PartialEq, Eq, Structural)]
pub struct EventSource {
    window: u64,
}

impl EventSource {
    /// The attached window, `0` for none.
    pub closed spec fn spec_window(&self) -> u64 {
        self.window
    }

    /// No window attached yet.
    pub fn new() -> (r: EventSource)
        ensures
            r.spec_window() == 0,
    {
        EventSource { window: 0 }
    }

    pub fn window(&self) -> (r: u64)
        ensures
            r == self.spec_window(),
    {
        self.window
    }

    pub fn on_start(&self) -> (r: Message)
        ensures
            r == Message::Start,
    {
        Message::Start
    }

    pub fn on_resume(&self) -> (r: Message)
        ensures
            r == Message::Resume,
    {
        Message::Resume
    }

    pub fn on_pause(&self) -> (r: Message)
        ensures
            r == Message::Pause,
    {
        Message::Pause
    }

    pub fn on_stop(&self) -> (r: Message)
        ensures
            r == Message::Stop,
    {
        Message::Stop
    }

    pub fn on_destroy(&self) -> (r: Message)
        ensures
            r == Message::Destroy,
    {
        Message::Destroy
    }

    /// A surface was created with this window: it is attached.
    pub fn surface_created(&mut self, window: u64) -> (r: Message)
        ensures
            final(self).spec_window() == window,
            r == Message::SurfaceCreated(window),
    {
        self.window = window;
        Message::SurfaceCreated(window)
    }

    /// A surface changed and now resolves to `window`. Attach and detach commands
    /// are only sent where the window differs from the attached one.
    pub fn surface_changed(&mut self, window: u64) -> (r: SurfaceChange)
        ensures
            ({
                let (attached, release, messages) = surface_changed_spec(
                    old(self).spec_window(),
                    window,
                );
                &&& final(self).spec_window() == attached
                &&& r.release == release
                &&& r.messages@ == messages
            }),
    {
        let mut messages: Vec<Message> = Vec::new();
        if window != self.window {
            let mut release: Option<u64> = None;
            if self.window != 0 {
                release = Some(self.window);
                self.window = 0;
                messages.push(Message::SurfaceDestroyed);
            }
            if window != 0 {
                self.window = window;
                messages.push(Message::SurfaceCreated(window));
            }
            proof {
                let (_, _, expected) = surface_changed_spec(old(self).spec_window(), window);
                assert(messages@ =~= expected);
            }
            SurfaceChange { release, messages }
        } else {
            let release = if window != 0 {
                Some(window)
            } else {
                None
            };
            SurfaceChange { release, messages }
        }
    }

    /// The surface was destroyed: the attached window is released and detached.
    pub fn surface_destroyed(&mut self) -> (r: SurfaceChange)
        ensures
            final(self).spec_window() == 0,
            r.release == handle_of(old(self).spec_window()),
            r.messages@ == seq![Message::SurfaceDestroyed],
    {
        let release = if self.window != 0 {
            Some(self.window)
        } else {
            None
        };
        self.window = 0;
        let messages = vec![Message::SurfaceDestroyed];
        assert(messages@ =~= seq![Message::SurfaceDestroyed]);
        SurfaceChange { release, messages }
    }
}

/// Once `surface_changed` has attached a window, a second call that resolves to the
/// same window sends no command.
pub proof fn lemma_surface_changed_dedup(current: u64, window: u64)
    ensures
        ({
            let (attached, _, _) = surface_changed_spec(current, window);
            let (again, _, messages) = surface_changed_spec(attached, window);
            &&& again == attached
            &&& messages == Seq::<Message>::empty()
        }),
{
}

} // verus!
