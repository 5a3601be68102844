use vstd::prelude::*;

use crate::geometry::{DisplaySize, LogicalPoint};
use crate::window::WindowKind;

verus! {

/// Where a named window stands. A window is never destroyed: once created it
/// only moves between hidden and visible.
#[derive(Clone, Copy, Debug, PartialEq, Eq, Structural)]
pub enum WindowState {
    Absent,
    Hidden,
    Visible,
}

/// What the host must do to show a window: create it first or not, then
/// move it to `position` when one is given, then show and focus it.
#[derive(Clone, Copy, Debug)]
pub struct ShowPlan {
    pub create: bool,
    pub position: Option<LogicalPoint>,
}

/// Why a window could not be shown or hidden.
#[derive(Debug)]
pub enum WindowError {
    /// The window must already exist and does not.
    NotFound(WindowKind),
    /// A call into the host's windowing surface failed, with its message.
    Host(String),
}

impl WindowError {
    pub open spec fn spec_message(&self) -> Seq<char> {
        match self {
            WindowError::NotFound(WindowKind::Floating) => "floating window not found"@,
            WindowError::NotFound(WindowKind::VoicePopup) => "voice-popup window not found"@,
            WindowError::Host(m) => m@,
        }
    }

    /// The message handed back to the caller of a window operation.
    pub fn message(&self) -> (r: String)
        ensures
            r@ == self.spec_message(),
    {
        match self {
            WindowError::NotFound(WindowKind::Floating) => "floating window not found".to_owned(),
            WindowError::NotFound(WindowKind::VoicePopup) => "voice-popup window not found".to_owned(),
            WindowError::Host(m) => m.clone(),
        }
    }
}

/// One request from the front end.
#[derive(Clone, Copy, Debug, PartialEq, Eq, Structural)]
pub enum Request {
    Show(WindowKind),
    Hide(WindowKind),
}

/// One entry per window name, so that each name has at most one window, and
/// the window that holds input focus.
#[derive(Clone, Copy, Debug)]
pub struct WindowRegistry {
    pub floating: WindowState,
    pub voice_popup: WindowState,
    pub focused: Option<WindowKind>,
}

impl WindowRegistry {
    pub open spec fn spec_state(self, k: WindowKind) -> WindowState {
        match k {
            WindowKind::Floating => self.floating,
            WindowKind::VoicePopup => self.voice_popup,
        }
    }

    pub open spec fn with_state(self, k: WindowKind, s: WindowState) -> WindowRegistry {
        match k {
            WindowKind::Floating => WindowRegistry { floating: s, ..self },
            WindowKind::VoicePopup => WindowRegistry { voice_popup: s, ..self },
        }
    }

    /// A window can be shown when it exists or can be created.
    pub open spec fn can_show(self, k: WindowKind) -> bool {
        self.spec_state(k) !is Absent || k.spec_created_on_demand()
    }

    /// The answer to a request to show `k`, the display being of size
    /// `display` when the host could report it.
    pub open spec fn show_outcome(self, k: WindowKind, display: Option<DisplaySize>) -> Result<
        ShowPlan,
        WindowError,
    > {
        if self.can_show(k) {
            Ok(
                ShowPlan {
                    create: self.spec_state(k) is Absent,
                    position: k.spec_placement(display),
                },
            )
        } else {
            Err(WindowError::NotFound(k))
        }
    }

    /// The registry once the host has created `k`.
    pub open spec fn after_create(self, k: WindowKind) -> WindowRegistry {
        if self.spec_state(k) is Absent {
            self.with_state(k, WindowState::Hidden)
        } else {
            self
        }
    }

    /// The registry once the host has shown and focused `k`.
    pub open spec fn after_show(self, k: WindowKind) -> WindowRegistry {
        WindowRegistry { focused: Some(k), ..self.with_state(k, WindowState::Visible) }
    }

    /// The registry once `k` is hidden; a window that does not exist stays so.
    pub open spec fn after_hide(self, k: WindowKind) -> WindowRegistry {
        if self.spec_state(k) is Absent {
            self
        } else {
            WindowRegistry {
                focused: if self.focused == Some(k) {
                    None
                } else {
                    self.focused
                },
                ..self.with_state(k, WindowState::Hidden)
            }
        }
    }

    /// The effect of one request when the host carries out every call.
    pub open spec fn step(self, r: Request) -> WindowRegistry {
        match r {
            Request::Show(k) => if self.can_show(k) {
                self.after_show(k)
            } else {
                self
            },
            Request::Hide(k) => self.after_hide(k),
        }
    }

    /// How many of the requests `rs` are shows of `k` whose plan creates the
    /// window.
    pub open spec fn creations(self, k: WindowKind, rs: Seq<Request>) -> nat
        decreases rs.len(),
    {
        if rs.len() == 0 {
            0
        } else {
            let c: nat = if rs[0] == Request::Show(k) && (self.show_outcome(k, None) matches Ok(
                p,
            ) && p.create) {
                1
            } else {
                0
            };
            c + self.step(rs[0]).creations(k, rs.drop_first())
        }
    }

    /// A registry at start-up: the floating widget exists, hidden, when the
    /// host declared it; the voice popup does not exist; nothing has focus.
    pub fn new(floating_declared: bool) -> (r: WindowRegistry)
        ensures
            r.floating == (if floating_declared {
                WindowState::Hidden
            } else {
                WindowState::Absent
            }),
            r.voice_popup is Absent,
            r.focused is None,
    {
        WindowRegistry {
            floating: if floating_declared {
                WindowState::Hidden
            } else {
                WindowState::Absent
            },
            voice_popup: WindowState::Absent,
            focused: None,
        }
    }

    pub fn state(&self, k: WindowKind) -> (r: WindowState)
        ensures
            r == self.spec_state(k),
    {
        match k {
            WindowKind::Floating => self.floating,
            WindowKind::VoicePopup => self.voice_popup,
        }
    }

    /// Decides how to show `k`: a floating widget that does not exist is not
    /// found; otherwise the window is created when missing and placed on the
    /// display when its size is known.
    pub fn plan_show(&self, k: WindowKind, display: Option<DisplaySize>) -> (r: Result<
        ShowPlan,
        WindowError,
    >)
        ensures
            r == self.show_outcome(k, display),
            r is Err <==> (k is Floating && self.floating is Absent),
    {
        let s = self.state(k);
        if matches!(s, WindowState::Absent) && !k.created_on_demand() {
            Err(WindowError::NotFound(k))
        } else {
            Ok(ShowPlan { create: matches!(s, WindowState::Absent), position: k.position(display) })
        }
    }

    /// Records that the host created `k`.
    pub fn record_created(&mut self, k: WindowKind)
        ensures
            *final(self) == old(self).after_create(k),
    {
        match k {
            WindowKind::Floating => if matches!(self.floating, WindowState::Absent) {
                self.floating = WindowState::Hidden;
            },
            WindowKind::VoicePopup => if matches!(self.voice_popup, WindowState::Absent) {
                self.voice_popup = WindowState::Hidden;
            },
        }
    }

    /// Records that the host showed and focused `k`.
    pub fn record_shown(&mut self, k: WindowKind)
        requires
            old(self).can_show(k),
        ensures
            *final(self) == old(self).after_show(k),
    {
        match k {
            WindowKind::Floating => self.floating = WindowState::Visible,
            WindowKind::VoicePopup => self.voice_popup = WindowState::Visible,
        }
        self.focused = Some(k);
    }

    /// Whether hiding `k` needs a call into the host: only an existing window
    /// is hidden; hiding one that does not exist succeeds with nothing to do.
    pub fn plan_hide(&self, k: WindowKind) -> (r: bool)
        ensures
            r == (self.spec_state(k) !is Absent),
    {
        !matches!(self.state(k), WindowState::Absent)
    }

    /// Records that the host hid `k`.
    pub fn record_hidden(&mut self, k: WindowKind)
        ensures
            *final(self) == old(self).after_hide(k),
    {
        if !matches!(self.state(k), WindowState::Absent) {
            match k {
                WindowKind::Floating => self.floating = WindowState::Hidden,
                WindowKind::VoicePopup => self.voice_popup = WindowState::Hidden,
            }
            if self.focused == Some(k) {
                self.focused = None;
            }
        }
    }
}

/// Showing a window, hiding it and showing it again leaves the registry as
/// the first show left it; where the window can be shown, it ends visible and
/// focused.
pub proof fn lemma_show_hide_show(reg: WindowRegistry, k: WindowKind)
    ensures
        reg.step(Request::Show(k)).step(Request::Hide(k)).step(Request::Show(k)) == reg.step(
            Request::Show(k),
        ),
        reg.can_show(k) ==> {
            let end = reg.step(Request::Show(k)).step(Request::Hide(k)).step(Request::Show(k));
            end.spec_state(k) is Visible && end.focused == Some(k)
        },
{
}

/// Hiding a window that does not exist makes no host call and changes
/// nothing.
pub proof fn lemma_hide_absent_is_noop(reg: WindowRegistry, k: WindowKind)
    requires
        reg.spec_state(k) is Absent,
    ensures
        reg.after_hide(k) == reg,
        reg.step(Request::Hide(k)) == reg,
{
}

/// A window that exists is never absent again, whatever is requested.
proof fn lemma_step_keeps_existing(reg: WindowRegistry, r: Request, k: WindowKind)
    requires
        reg.spec_state(k) !is Absent,
    ensures
        reg.step(r).spec_state(k) !is Absent,
{
}

/// Over any run of requests, a window of a given name is created at most
/// once, and never once it exists: repeated shows reuse it.
pub proof fn lemma_at_most_one_creation(reg: WindowRegistry, k: WindowKind, rs: Seq<Request>)
    ensures
        reg.creations(k, rs) <= 1,
        reg.spec_state(k) !is Absent ==> reg.creations(k, rs) == 0,
    decreases rs.len(),
{
    if rs.len() > 0 {
        let next = reg.step(rs[0]);
        lemma_at_most_one_creation(next, k, rs.drop_first());
        if reg.spec_state(k) !is Absent {
            lemma_step_keeps_existing(reg, rs[0], k);
        } else if rs[0] == Request::Show(k) && k.spec_created_on_demand() {
            assert(next.spec_state(k) is Visible);
        }
    }
}

} // verus!
