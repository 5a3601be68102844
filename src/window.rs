use vstd::prelude::*;

use crate::geometry::{
    DisplaySize, LogicalPoint, floating_position, spec_floating_position,
    spec_voice_popup_position, voice_popup_position,
};

verus! {

/// The named windows that the controller manages.
#[derive(Clone, Copy, Debug, PartialEq, Eq, Structural)]
pub enum WindowKind {
    /// The floating widget, declared by the host at startup.
    Floating,
    /// The voice popup, created the first time it is shown.
    VoicePopup,
}

/// The kind whose label is `s`, if any.
pub open spec fn kind_of_label(s: Seq<char>) -> Option<WindowKind> {
    if s == "floating"@ {
        Some(WindowKind::Floating)
    } else if s == "voice-popup"@ {
        Some(WindowKind::VoicePopup)
    } else {
        None
    }
}

/// Fixed description of a window that the controller creates on demand.
#[derive(Clone, Copy, Debug)]
pub struct WindowDescriptor {
    pub label: &'static str,
    pub title: &'static str,
    pub route: &'static str,
    pub width: u32,
    pub height: u32,
    pub decorations: bool,
    pub transparent: bool,
    pub always_on_top: bool,
    pub resizable: bool,
    pub skip_taskbar: bool,
}

impl WindowKind {
    pub open spec fn spec_label(self) -> Seq<char> {
        match self {
            WindowKind::Floating => "floating"@,
            WindowKind::VoicePopup => "voice-popup"@,
        }
    }

    /// Whether a missing window of this kind is created when shown.
    pub open spec fn spec_created_on_demand(self) -> bool {
        self is VoicePopup
    }

    /// Where a window of this kind goes when the display size is known.
    pub open spec fn spec_position(self, d: DisplaySize) -> LogicalPoint {
        match self {
            WindowKind::Floating => spec_floating_position(d),
            WindowKind::VoicePopup => spec_voice_popup_position(d),
        }
    }

    /// Where a window of this kind goes, given what the host reported of the
    /// display.
    pub open spec fn spec_placement(self, display: Option<DisplaySize>) -> Option<LogicalPoint> {
        match display {
            None => None,
            Some(d) => Some(self.spec_position(d)),
        }
    }

    /// The host's name for a window of this kind.
    pub fn label(&self) -> (r: &'static str)
        ensures
            r@ == self.spec_label(),
    {
        match self {
            WindowKind::Floating => "floating",
            WindowKind::VoicePopup => "voice-popup",
        }
    }

    /// The kind named `label`; `None` for a name the controller does not manage.
    pub fn from_label(label: &str) -> (r: Option<WindowKind>)
        ensures
            r == kind_of_label(label@),
            r matches Some(k) ==> k.spec_label() == label@,
    {
        let s = label.to_owned();
        if s == "floating".to_owned() {
            Some(WindowKind::Floating)
        } else if s == "voice-popup".to_owned() {
            Some(WindowKind::VoicePopup)
        } else {
            None
        }
    }

    pub fn created_on_demand(&self) -> (r: bool)
        ensures
            r == self.spec_created_on_demand(),
    {
        match self {
            WindowKind::Floating => false,
            WindowKind::VoicePopup => true,
        }
    }

    /// Where a window of this kind goes; with no display size there is no
    /// repositioning and the window keeps its last place.
    pub fn position(&self, display: Option<DisplaySize>) -> (r: Option<LogicalPoint>)
        ensures
            r == self.spec_placement(display),
    {
        match display {
            None => None,
            Some(d) => match self {
                WindowKind::Floating => Some(floating_position(d)),
                WindowKind::VoicePopup => Some(voice_popup_position(d)),
            },
        }
    }

    /// How to build a window of this kind; `None` for a kind that must
    /// already exist.
    pub fn descriptor(&self) -> (r: Option<WindowDescriptor>)
        ensures
            r is Some <==> self.spec_created_on_demand(),
            r matches Some(w) ==> {
                &&& w.label@ == self.spec_label()
                &&& w.route@ == "/voice-popup"@
                &&& w.title@ == "Sweesh Voice Widget"@
                &&& w.width == 190 && w.height == 64
                &&& !w.decorations && w.transparent && w.always_on_top
                &&& !w.resizable && w.skip_taskbar
            },
    {
        match self {
            WindowKind::Floating => None,
            WindowKind::VoicePopup => Some(
                WindowDescriptor {
                    label: "voice-popup",
                    title: "Sweesh Voice Widget",
                    route: "/voice-popup",
                    width: 190,
                    height: 64,
                    decorations: false,
                    transparent: true,
                    always_on_top: true,
                    resizable: false,
                    skip_taskbar: true,
                },
            ),
        }
    }
}

} // verus!
