//! The values this library hands to the transport: geometry, configuration
//! and attribute payloads, property values and whole requests, each with a
//! mathematical view that contracts speak of.
use vstd::prelude::*;

verus! {

/// Identifier of a server-side window.
pub type WinId = u32;

/// An axis-aligned rectangle in root-window coordinates.
#[derive(Clone, Copy, Debug, PartialEq, Eq, Structural)]
pub struct Region {
    pub x: u32,
    pub y: u32,
    pub w: u32,
    pub h: u32,
}

impl Region {
    /// A region from its corner and its size.
    pub fn new(x: u32, y: u32, w: u32, h: u32) -> (r: Region)
        ensures
            r == (Region { x, y, w, h }),
    {
        Region { x, y, w, h }
    }

    /// The corner and size as a tuple `(x, y, w, h)`.
    pub fn values(&self) -> (r: (u32, u32, u32, u32))
        ensures
            r == (self.x, self.y, self.w, self.h),
    {
        (self.x, self.y, self.w, self.h)
    }
}

/// One output: its full area and the part left usable by bars and panels.
#[derive(Clone, Copy, Debug, PartialEq, Eq, Structural)]
pub struct Screen {
    pub true_region: Region,
    pub effective_region: Region,
}

impl Screen {
    /// A screen with the given full and usable areas.
    pub fn new(true_region: Region, effective_region: Region) -> (r: Screen)
        ensures
            r == (Screen { true_region, effective_region }),
    {
        Screen { true_region, effective_region }
    }

    /// The usable area when `effective` is set, else the full area.
    pub fn region(&self, effective: bool) -> (r: Region)
        ensures
            r == (if effective { self.effective_region } else { self.true_region }),
    {
        if effective {
            self.effective_region
        } else {
            self.true_region
        }
    }
}

/// A key to grab: its modifier mask and key code.
#[derive(Clone, Copy, Debug, PartialEq, Eq, Structural)]
pub struct KeyCode {
    pub mask: u16,
    pub code: u8,
}

/// A mouse button to grab together with its modifier mask.
#[derive(Clone, Copy, Debug, PartialEq, Eq, Structural)]
pub struct MouseState {
    pub button: u8,
    pub mask: u16,
}

/// One item of a window configuration request.
#[derive(Clone, Copy, Debug, PartialEq, Eq, Structural)]
pub enum WinConfig {
    /// Absolute position and size.
    Position(Region),
    /// Border width in pixels.
    BorderPx(u32),
    /// Place the window above all of its siblings.
    StackAbove,
}

/// One item of a window attribute request.
#[derive(Clone, Copy, Debug, PartialEq, Eq, Structural)]
pub enum WinAttr {
    /// Border colour as a packed RGB value.
    BorderColor(u32),
    /// Subscribe to the events the window manager needs from a client.
    ClientEventMask,
    /// Subscribe to the structural events the window manager needs from the root.
    RootEventMask,
}

/// A property value in one of the wire types this library writes.
#[derive(Clone, Debug, PartialEq, Eq)]
pub enum PropVal {
    Atoms(Vec<u32>),
    Windows(Vec<WinId>),
    Cardinals(Vec<u32>),
    Text(String),
}

/// The mathematical value of a [`PropVal`].
pub enum PropView {
    Atoms(Seq<u32>),
    Windows(Seq<WinId>),
    Cardinals(Seq<u32>),
    Text(Seq<char>),
}

impl View for PropVal {
    type V = PropView;

    open spec fn view(&self) -> PropView {
        match self {
            PropVal::Atoms(v) => PropView::Atoms(v@),
            PropVal::Windows(v) => PropView::Windows(v@),
            PropVal::Cardinals(v) => PropView::Cardinals(v@),
            PropVal::Text(s) => PropView::Text(s@),
        }
    }
}

/// One request for the transport to perform.
#[derive(Clone, Debug, PartialEq, Eq)]
pub enum Request {
    /// Create a hidden input-only window of the given size.
    CreateCheckWindow(WinId, Region),
    /// Ask to be told when the output layout changes.
    SetRandrNotifyMask,
    /// Overwrite a property of a window.
    ReplaceProp(WinId, u32, PropVal),
    /// Remove a property from a window.
    DeleteProp(WinId, u32),
    /// Apply one batch of configuration items to a window.
    Configure(WinId, Vec<WinConfig>),
    /// Change attributes of a window.
    SetAttributes(WinId, Vec<WinAttr>),
    MapWindow(WinId),
    UnmapWindow(WinId),
    DestroyWindow(WinId),
    /// Give the input focus to a window.
    Focus(WinId),
    /// Send a client message naming a protocol atom to a window.
    ClientEvent(WinId, String),
    /// Move the pointer to a point relative to a window.
    WarpPointer(WinId, u64, u64),
    GrabKeys(Vec<KeyCode>),
    GrabButtons(Vec<MouseState>),
    UngrabKeys,
    UngrabButtons,
    /// Force the requests issued so far out to the server.
    Flush,
}

/// The mathematical value of a [`Request`].
pub enum RequestView {
    CreateCheckWindow(WinId, Region),
    SetRandrNotifyMask,
    ReplaceProp(WinId, u32, PropView),
    DeleteProp(WinId, u32),
    Configure(WinId, Seq<WinConfig>),
    SetAttributes(WinId, Seq<WinAttr>),
    MapWindow(WinId),
    UnmapWindow(WinId),
    DestroyWindow(WinId),
    Focus(WinId),
    ClientEvent(WinId, Seq<char>),
    WarpPointer(WinId, u64, u64),
    GrabKeys(Seq<KeyCode>),
    GrabButtons(Seq<MouseState>),
    UngrabKeys,
    UngrabButtons,
    Flush,
}

impl View for Request {
    type V = RequestView;

    open spec fn view(&self) -> RequestView {
        match self {
            Request::CreateCheckWindow(w, r) => RequestView::CreateCheckWindow(*w, *r),
            Request::SetRandrNotifyMask => RequestView::SetRandrNotifyMask,
            Request::ReplaceProp(w, p, v) => RequestView::ReplaceProp(*w, *p, v@),
            Request::DeleteProp(w, p) => RequestView::DeleteProp(*w, *p),
            Request::Configure(w, d) => RequestView::Configure(*w, d@),
            Request::SetAttributes(w, d) => RequestView::SetAttributes(*w, d@),
            Request::MapWindow(w) => RequestView::MapWindow(*w),
            Request::UnmapWindow(w) => RequestView::UnmapWindow(*w),
            Request::DestroyWindow(w) => RequestView::DestroyWindow(*w),
            Request::Focus(w) => RequestView::Focus(*w),
            Request::ClientEvent(w, s) => RequestView::ClientEvent(*w, s@),
            Request::WarpPointer(w, x, y) => RequestView::WarpPointer(*w, *x, *y),
            Request::GrabKeys(k) => RequestView::GrabKeys(k@),
            Request::GrabButtons(b) => RequestView::GrabButtons(b@),
            Request::UngrabKeys => RequestView::UngrabKeys,
            Request::UngrabButtons => RequestView::UngrabButtons,
            Request::Flush => RequestView::Flush,
        }
    }
}

/// The value of property `prop` on window `win` once the requests of `log`
/// have been applied in order: the last write wins, a deletion leaves
/// nothing, and `None` also stands for a property that `log` never wrote.
pub open spec fn prop_value(log: Seq<RequestView>, win: WinId, prop: u32) -> Option<PropView>
    decreases log.len(),
{
    if log.len() == 0 {
        None
    } else {
        match log.last() {
            RequestView::ReplaceProp(w, p, v) if w == win && p == prop => Some(v),
            RequestView::DeleteProp(w, p) if w == win && p == prop => None,
            _ => prop_value(log.drop_last(), win, prop),
        }
    }
}

} // verus!
