//! Symbolic atoms and the per-connection registry that maps them to the
//! integer identifiers interned by the server.
use vstd::prelude::*;

verus! {

/// The number of symbolic atoms this library knows of.
pub const ATOM_COUNT: usize = 28;

/// The well-known protocol atoms the window manager needs.
#[derive(Clone, Copy, Debug, PartialEq, Eq, Structural)]
pub enum Atom {
    WmClass,
    WmName,
    WmProtocols,
    WmDeleteWindow,
    WmTakeFocus,
    Utf8String,
    NetActiveWindow,
    NetClientList,
    NetClientListStacking,
    NetCurrentDesktop,
    NetDesktopNames,
    NetNumberOfDesktops,
    NetSupported,
    NetSupportingWmCheck,
    NetWmDesktop,
    NetWmName,
    NetWmState,
    NetWmStateFullscreen,
    NetWmWindowType,
    NetWindowTypeDesktop,
    NetWindowTypeDialog,
    NetWindowTypeDock,
    NetWindowTypeMenu,
    NetWindowTypeNotification,
    NetWindowTypePopupMenu,
    NetWindowTypeSplash,
    NetWindowTypeToolbar,
    NetWindowTypeUtility,
}

/// Position of an atom in the registry's table.
pub open spec fn atom_index(a: Atom) -> nat {
    match a {
        Atom::WmClass => 0,
        Atom::WmName => 1,
        Atom::WmProtocols => 2,
        Atom::WmDeleteWindow => 3,
        Atom::WmTakeFocus => 4,
        Atom::Utf8String => 5,
        Atom::NetActiveWindow => 6,
        Atom::NetClientList => 7,
        Atom::NetClientListStacking => 8,
        Atom::NetCurrentDesktop => 9,
        Atom::NetDesktopNames => 10,
        Atom::NetNumberOfDesktops => 11,
        Atom::NetSupported => 12,
        Atom::NetSupportingWmCheck => 13,
        Atom::NetWmDesktop => 14,
        Atom::NetWmName => 15,
        Atom::NetWmState => 16,
        Atom::NetWmStateFullscreen => 17,
        Atom::NetWmWindowType => 18,
        Atom::NetWindowTypeDesktop => 19,
        Atom::NetWindowTypeDialog => 20,
        Atom::NetWindowTypeDock => 21,
        Atom::NetWindowTypeMenu => 22,
        Atom::NetWindowTypeNotification => 23,
        Atom::NetWindowTypePopupMenu => 24,
        Atom::NetWindowTypeSplash => 25,
        Atom::NetWindowTypeToolbar => 26,
        Atom::NetWindowTypeUtility => 27,
    }
}

/// The atom at a table position, if any.
pub open spec fn atom_at(i: nat) -> Option<Atom> {
    if i == 0 { Some(Atom::WmClass) }
    else if i == 1 { Some(Atom::WmName) }
    else if i == 2 { Some(Atom::WmProtocols) }
    else if i == 3 { Some(Atom::WmDeleteWindow) }
    else if i == 4 { Some(Atom::WmTakeFocus) }
    else if i == 5 { Some(Atom::Utf8String) }
    else if i == 6 { Some(Atom::NetActiveWindow) }
    else if i == 7 { Some(Atom::NetClientList) }
    else if i == 8 { Some(Atom::NetClientListStacking) }
    else if i == 9 { Some(Atom::NetCurrentDesktop) }
    else if i == 10 { Some(Atom::NetDesktopNames) }
    else if i == 11 { Some(Atom::NetNumberOfDesktops) }
    else if i == 12 { Some(Atom::NetSupported) }
    else if i == 13 { Some(Atom::NetSupportingWmCheck) }
    else if i == 14 { Some(Atom::NetWmDesktop) }
    else if i == 15 { Some(Atom::NetWmName) }
    else if i == 16 { Some(Atom::NetWmState) }
    else if i == 17 { Some(Atom::NetWmStateFullscreen) }
    else if i == 18 { Some(Atom::NetWmWindowType) }
    else if i == 19 { Some(Atom::NetWindowTypeDesktop) }
    else if i == 20 { Some(Atom::NetWindowTypeDialog) }
    else if i == 21 { Some(Atom::NetWindowTypeDock) }
    else if i == 22 { Some(Atom::NetWindowTypeMenu) }
    else if i == 23 { Some(Atom::NetWindowTypeNotification) }
    else if i == 24 { Some(Atom::NetWindowTypePopupMenu) }
    else if i == 25 { Some(Atom::NetWindowTypeSplash) }
    else if i == 26 { Some(Atom::NetWindowTypeToolbar) }
    else if i == 27 { Some(Atom::NetWindowTypeUtility) }
    else { None }
}

/// Every atom has its own table position, inside the table.
pub proof fn lemma_atom_index(a: Atom)
    ensures
        atom_index(a) < ATOM_COUNT,
        atom_at(atom_index(a)) == Some(a),
{
}

/// Two atoms share a table position only if they are the same atom.
pub proof fn lemma_atom_index_injective(a: Atom, b: Atom)
    ensures
        atom_index(a) == atom_index(b) ==> a == b,
{
    lemma_atom_index(a);
    lemma_atom_index(b);
}

/// The name under which the server interns `a`.
pub open spec fn atom_name(a: Atom) -> Seq<char> {
    match a {
        Atom::WmClass => "WM_CLASS"@,
        Atom::WmName => "WM_NAME"@,
        Atom::WmProtocols => "WM_PROTOCOLS"@,
        Atom::WmDeleteWindow => "WM_DELETE_WINDOW"@,
        Atom::WmTakeFocus => "WM_TAKE_FOCUS"@,
        Atom::Utf8String => "UTF8_STRING"@,
        Atom::NetActiveWindow => "_NET_ACTIVE_WINDOW"@,
        Atom::NetClientList => "_NET_CLIENT_LIST"@,
        Atom::NetClientListStacking => "_NET_CLIENT_LIST_STACKING"@,
        Atom::NetCurrentDesktop => "_NET_CURRENT_DESKTOP"@,
        Atom::NetDesktopNames => "_NET_DESKTOP_NAMES"@,
        Atom::NetNumberOfDesktops => "_NET_NUMBER_OF_DESKTOPS"@,
        Atom::NetSupported => "_NET_SUPPORTED"@,
        Atom::NetSupportingWmCheck => "_NET_SUPPORTING_WM_CHECK"@,
        Atom::NetWmDesktop => "_NET_WM_DESKTOP"@,
        Atom::NetWmName => "_NET_WM_NAME"@,
        Atom::NetWmState => "_NET_WM_STATE"@,
        Atom::NetWmStateFullscreen => "_NET_WM_STATE_FULLSCREEN"@,
        Atom::NetWmWindowType => "_NET_WM_WINDOW_TYPE"@,
        Atom::NetWindowTypeDesktop => "_NET_WM_WINDOW_TYPE_DESKTOP"@,
        Atom::NetWindowTypeDialog => "_NET_WM_WINDOW_TYPE_DIALOG"@,
        Atom::NetWindowTypeDock => "_NET_WM_WINDOW_TYPE_DOCK"@,
        Atom::NetWindowTypeMenu => "_NET_WM_WINDOW_TYPE_MENU"@,
        Atom::NetWindowTypeNotification => "_NET_WM_WINDOW_TYPE_NOTIFICATION"@,
        Atom::NetWindowTypePopupMenu => "_NET_WM_WINDOW_TYPE_POPUP_MENU"@,
        Atom::NetWindowTypeSplash => "_NET_WM_WINDOW_TYPE_SPLASH"@,
        Atom::NetWindowTypeToolbar => "_NET_WM_WINDOW_TYPE_TOOLBAR"@,
        Atom::NetWindowTypeUtility => "_NET_WM_WINDOW_TYPE_UTILITY"@,
    }
}

impl Atom {
    /// Position of this atom in the registry's table.
    pub fn index(&self) -> (r: usize)
        ensures
            r == atom_index(*self),
            r < ATOM_COUNT,
    {
        match self {
            Atom::WmClass => 0,
            Atom::WmName => 1,
            Atom::WmProtocols => 2,
            Atom::WmDeleteWindow => 3,
            Atom::WmTakeFocus => 4,
            Atom::Utf8String => 5,
            Atom::NetActiveWindow => 6,
            Atom::NetClientList => 7,
            Atom::NetClientListStacking => 8,
            Atom::NetCurrentDesktop => 9,
            Atom::NetDesktopNames => 10,
            Atom::NetNumberOfDesktops => 11,
            Atom::NetSupported => 12,
            Atom::NetSupportingWmCheck => 13,
            Atom::NetWmDesktop => 14,
            Atom::NetWmName => 15,
            Atom::NetWmState => 16,
            Atom::NetWmStateFullscreen => 17,
            Atom::NetWmWindowType => 18,
            Atom::NetWindowTypeDesktop => 19,
            Atom::NetWindowTypeDialog => 20,
            Atom::NetWindowTypeDock => 21,
            Atom::NetWindowTypeMenu => 22,
            Atom::NetWindowTypeNotification => 23,
            Atom::NetWindowTypePopupMenu => 24,
            Atom::NetWindowTypeSplash => 25,
            Atom::NetWindowTypeToolbar => 26,
            Atom::NetWindowTypeUtility => 27,
        }
    }

    /// The name under which the server interns this atom.
    pub fn name(&self) -> (r: &'static str)
        ensures
            r@ == atom_name(*self),
    {
        match self {
            Atom::WmClass => "WM_CLASS",
            Atom::WmName => "WM_NAME",
            Atom::WmProtocols => "WM_PROTOCOLS",
            Atom::WmDeleteWindow => "WM_DELETE_WINDOW",
            Atom::WmTakeFocus => "WM_TAKE_FOCUS",
            Atom::Utf8String => "UTF8_STRING",
            Atom::NetActiveWindow => "_NET_ACTIVE_WINDOW",
            Atom::NetClientList => "_NET_CLIENT_LIST",
            Atom::NetClientListStacking => "_NET_CLIENT_LIST_STACKING",
            Atom::NetCurrentDesktop => "_NET_CURRENT_DESKTOP",
            Atom::NetDesktopNames => "_NET_DESKTOP_NAMES",
            Atom::NetNumberOfDesktops => "_NET_NUMBER_OF_DESKTOPS",
            Atom::NetSupported => "_NET_SUPPORTED",
            Atom::NetSupportingWmCheck => "_NET_SUPPORTING_WM_CHECK",
            Atom::NetWmDesktop => "_NET_WM_DESKTOP",
            Atom::NetWmName => "_NET_WM_NAME",
            Atom::NetWmState => "_NET_WM_STATE",
            Atom::NetWmStateFullscreen => "_NET_WM_STATE_FULLSCREEN",
            Atom::NetWmWindowType => "_NET_WM_WINDOW_TYPE",
            Atom::NetWindowTypeDesktop => "_NET_WM_WINDOW_TYPE_DESKTOP",
            Atom::NetWindowTypeDialog => "_NET_WM_WINDOW_TYPE_DIALOG",
            Atom::NetWindowTypeDock => "_NET_WM_WINDOW_TYPE_DOCK",
            Atom::NetWindowTypeMenu => "_NET_WM_WINDOW_TYPE_MENU",
            Atom::NetWindowTypeNotification => "_NET_WM_WINDOW_TYPE_NOTIFICATION",
            Atom::NetWindowTypePopupMenu => "_NET_WM_WINDOW_TYPE_POPUP_MENU",
            Atom::NetWindowTypeSplash => "_NET_WM_WINDOW_TYPE_SPLASH",
            Atom::NetWindowTypeToolbar => "_NET_WM_WINDOW_TYPE_TOOLBAR",
            Atom::NetWindowTypeUtility => "_NET_WM_WINDOW_TYPE_UTILITY",
        }
    }
}

/// Window types that make a new window float.
pub open spec fn auto_float_spec() -> Seq<Atom> {
    seq![
        Atom::NetWindowTypeDesktop,
        Atom::NetWindowTypeDialog,
        Atom::NetWindowTypeDock,
        Atom::NetWindowTypeMenu,
        Atom::NetWindowTypeNotification,
        Atom::NetWindowTypePopupMenu,
        Atom::NetWindowTypeSplash,
        Atom::NetWindowTypeToolbar,
        Atom::NetWindowTypeUtility,
    ]
}

/// Window types that the window manager leaves alone.
pub open spec fn unmanaged_spec() -> Seq<Atom> {
    seq![
        Atom::NetWindowTypeDock,
        Atom::NetWindowTypeNotification,
        Atom::NetWindowTypeToolbar,
    ]
}

/// The EWMH atoms announced as supported on the root window.
pub open spec fn supported_spec() -> Seq<Atom> {
    seq![
        Atom::NetActiveWindow,
        Atom::NetClientList,
        Atom::NetClientListStacking,
        Atom::NetCurrentDesktop,
        Atom::NetDesktopNames,
        Atom::NetNumberOfDesktops,
        Atom::NetSupported,
        Atom::NetSupportingWmCheck,
        Atom::NetWmDesktop,
        Atom::NetWmName,
        Atom::NetWmState,
        Atom::NetWmStateFullscreen,
        Atom::NetWmWindowType,
    ]
}

/// Window types that make a new window float.
pub fn auto_float_window_types() -> (r: Vec<Atom>)
    ensures
        r@ == auto_float_spec(),
{
    let r = vec![
        Atom::NetWindowTypeDesktop,
        Atom::NetWindowTypeDialog,
        Atom::NetWindowTypeDock,
        Atom::NetWindowTypeMenu,
        Atom::NetWindowTypeNotification,
        Atom::NetWindowTypePopupMenu,
        Atom::NetWindowTypeSplash,
        Atom::NetWindowTypeToolbar,
        Atom::NetWindowTypeUtility,
    ];
    assert(r@ =~= auto_float_spec());
    r
}

/// Window types that the window manager leaves alone.
pub fn unmanaged_window_types() -> (r: Vec<Atom>)
    ensures
        r@ == unmanaged_spec(),
{
    let r = vec![
        Atom::NetWindowTypeDock,
        Atom::NetWindowTypeNotification,
        Atom::NetWindowTypeToolbar,
    ];
    assert(r@ =~= unmanaged_spec());
    r
}

/// The EWMH atoms announced as supported on the root window.
pub fn ewmh_supported_atoms() -> (r: Vec<Atom>)
    ensures
        r@ == supported_spec(),
{
    let r = vec![
        Atom::NetActiveWindow,
        Atom::NetClientList,
        Atom::NetClientListStacking,
        Atom::NetCurrentDesktop,
        Atom::NetDesktopNames,
        Atom::NetNumberOfDesktops,
        Atom::NetSupported,
        Atom::NetSupportingWmCheck,
        Atom::NetWmDesktop,
        Atom::NetWmName,
        Atom::NetWmState,
        Atom::NetWmStateFullscreen,
        Atom::NetWmWindowType,
    ];
    assert(r@ =~= supported_spec());
    r
}

/// What a registry with contents `m` holds, and what it answers, after the
/// server's identifier `id` for atom `a` is offered to it: an atom already
/// resolved keeps its identifier, a new one takes `id`.
pub open spec fn after_record(m: Map<Atom, u32>, a: Atom, id: u32) -> (Map<Atom, u32>, u32) {
    if m.contains_key(a) {
        (m, m[a])
    } else {
        (m.insert(a, id), id)
    }
}

/// The cache from symbolic atoms to the identifiers the server interned for
/// them on one connection. An entry, once made, is never changed or removed.
pub struct AtomCache {
    ids: Vec<Option<u32>>,
}

impl AtomCache {
    /// The table has one slot per symbolic atom.
    pub closed spec fn wf(&self) -> bool {
        self.ids@.len() == ATOM_COUNT
    }

    /// The atoms resolved so far, with their identifiers.
    pub closed spec fn view(&self) -> Map<Atom, u32> {
        Map::new(
            |a: Atom| self.ids@[atom_index(a) as int] is Some,
            |a: Atom| self.ids@[atom_index(a) as int]->Some_0,
        )
    }

    /// Every symbolic atom has been resolved.
    pub open spec fn is_complete(&self) -> bool {
        forall|a: Atom| #[trigger] self@.contains_key(a)
    }

    /// An empty registry: nothing resolved yet.
    pub fn new() -> (r: Self)
        ensures
            r.wf(),
            r@ == Map::<Atom, u32>::empty(),
    {
        let mut ids: Vec<Option<u32>> = Vec::new();
        let mut i: usize = 0;
        while i < ATOM_COUNT
            invariant
                i <= ATOM_COUNT,
                ids@.len() == i,
                forall|j: int| 0 <= j < i ==> ids@[j] is None,
            decreases ATOM_COUNT - i,
        {
            ids.push(None);
            i = i + 1;
        }
        let r = AtomCache { ids };
        assert(r@ =~= Map::<Atom, u32>::empty());
        r
    }

    /// The identifier of `a`, if it has been resolved.
    pub fn lookup(&self, a: Atom) -> (r: Option<u32>)
        requires
            self.wf(),
        ensures
            r == (if self@.contains_key(a) { Some(self@[a]) } else { None::<u32> }),
    {
        self.ids[a.index()]
    }

    /// Whether the server still has to be asked for `a`.
    pub fn needs_interning(&self, a: Atom) -> (r: bool)
        requires
            self.wf(),
        ensures
            r == !self@.contains_key(a),
    {
        self.ids[a.index()].is_none()
    }

    /// Offers the identifier the server interned for `a`. An atom already
    /// resolved keeps its first identifier; the one in force is returned.
    pub fn record(&mut self, a: Atom, id: u32) -> (r: u32)
        requires
            old(self).wf(),
        ensures
            final(self).wf(),
            (final(self)@, r) == after_record(old(self)@, a, id),
    {
        let i = a.index();
        match self.ids[i] {
            Some(known) => known,
            None => {
                self.ids.set(i, Some(id));
                proof {
                    assert forall|b: Atom| #[trigger] atom_index(b) == i implies b == a by {
                        lemma_atom_index_injective(a, b);
                    }
                }
                assert(self@ =~= old(self)@.insert(a, id));
                id
            }
        }
    }

    /// Whether the table is well formed and every symbolic atom resolved.
    pub fn is_ready(&self) -> (r: bool)
        ensures
            r == (self.wf() && self.is_complete()),
    {
        if self.ids.len() != ATOM_COUNT {
            return false;
        }
        self.complete()
    }

    /// Whether every symbolic atom has been resolved.
    pub fn complete(&self) -> (r: bool)
        requires
            self.wf(),
        ensures
            r == self.is_complete(),
    {
        let mut i: usize = 0;
        while i < ATOM_COUNT
            invariant
                self.wf(),
                i <= ATOM_COUNT,
                forall|j: int| 0 <= j < i ==> self.ids@[j] is Some,
            decreases ATOM_COUNT - i,
        {
            if self.ids[i].is_none() {
                proof {
                    let a = atom_at(i as nat)->Some_0;
                    lemma_atom_index(a);
                    assert(atom_index(a) == i) by {
                        lemma_atom_at(i as nat);
                    }
                    assert(!self@.contains_key(a));
                }
                return false;
            }
            i = i + 1;
        }
        proof {
            assert forall|a: Atom| #[trigger] self@.contains_key(a) by {
                lemma_atom_index(a);
            }
        }
        true
    }
}

/// Each table position names an atom that sits there.
pub proof fn lemma_atom_at(i: nat)
    requires
        i < ATOM_COUNT,
    ensures
        atom_at(i) is Some,
        atom_index(atom_at(i)->Some_0) == i,
{
}

/// Every symbolic atom, in table order.
pub fn all_atoms() -> (r: Vec<Atom>)
    ensures
        r@.len() == ATOM_COUNT,
        forall|i: int| 0 <= i < ATOM_COUNT ==> atom_at(i as nat) == Some(#[trigger] r@[i]),
{
    let r = vec![
        Atom::WmClass, Atom::WmName, Atom::WmProtocols, Atom::WmDeleteWindow,
        Atom::WmTakeFocus, Atom::Utf8String, Atom::NetActiveWindow, Atom::NetClientList,
        Atom::NetClientListStacking, Atom::NetCurrentDesktop, Atom::NetDesktopNames,
        Atom::NetNumberOfDesktops, Atom::NetSupported, Atom::NetSupportingWmCheck,
        Atom::NetWmDesktop, Atom::NetWmName, Atom::NetWmState, Atom::NetWmStateFullscreen,
        Atom::NetWmWindowType, Atom::NetWindowTypeDesktop, Atom::NetWindowTypeDialog,
        Atom::NetWindowTypeDock, Atom::NetWindowTypeMenu, Atom::NetWindowTypeNotification,
        Atom::NetWindowTypePopupMenu, Atom::NetWindowTypeSplash, Atom::NetWindowTypeToolbar,
        Atom::NetWindowTypeUtility,
    ];
    r
}

} // verus!
