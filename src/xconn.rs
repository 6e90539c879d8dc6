//! The connection to one X server: EWMH publishing, window classification,
//! configuration, pointer warps and the connection's lifecycle.
use vstd::prelude::*;
use crate::api::Api;
use crate::atoms::{
    auto_float_spec, auto_float_window_types, ewmh_supported_atoms, supported_spec,
    unmanaged_spec, unmanaged_window_types, Atom, AtomCache,
};
use crate::classify::{class_in, floats, has_type_in, names_of, opt_text, type_in};
use crate::text::{join_nul, join_with_nul};
use crate::wire::{
    KeyCode, MouseState, PropVal, PropView, Region, Request, RequestView, Screen, WinAttr,
    WinConfig, WinId,
};

verus! {

/// The name under which the window manager identifies itself.
pub const WM_NAME: &'static str = "penrose";

/// Why a connection could not be set up.
#[derive(Clone, Copy, Debug, PartialEq, Eq, Structural)]
pub enum XError {
    /// Some symbolic atom has no identifier from the server.
    MissingAtoms,
}

/// The identifiers `m` holds for `atoms`, in order.
pub open spec fn ids_of(m: Map<Atom, u32>, atoms: Seq<Atom>) -> Seq<u32> {
    atoms.map_values(|a: Atom| m[a])
}

/// The requests that make the window manager known on the check window and
/// the root window.
pub open spec fn identity_reqs(check: WinId, root: WinId, wm_check: u32, name: u32) -> Seq<RequestView> {
    seq![
        RequestView::ReplaceProp(check, wm_check, PropView::Windows(seq![check])),
        RequestView::ReplaceProp(check, name, PropView::Text(WM_NAME@)),
        RequestView::ReplaceProp(root, wm_check, PropView::Windows(seq![check])),
        RequestView::ReplaceProp(root, name, PropView::Text(WM_NAME@)),
    ]
}

/// The requests that publish the desktop names `names` on `root`.
pub open spec fn desktops_reqs(root: WinId, count: u32, names_prop: u32, names: Seq<Seq<char>>) -> Seq<RequestView> {
    seq![
        RequestView::ReplaceProp(root, count, PropView::Cardinals(seq![names.len() as u32])),
        RequestView::ReplaceProp(root, names_prop, PropView::Text(join_nul(names))),
    ]
}

/// The state a window's fullscreen request leaves: the fullscreen atom alone,
/// or nothing.
pub open spec fn fullscreen_value(fullscreen_atom: u32, is_fullscreen: bool) -> Seq<u32> {
    if is_fullscreen { seq![fullscreen_atom] } else { Seq::empty() }
}

/// The configuration batch that places a window.
pub open spec fn position_batch(reg: Region, border: u32, stack_above: bool) -> Seq<WinConfig> {
    if stack_above {
        seq![WinConfig::Position(reg), WinConfig::BorderPx(border), WinConfig::StackAbove]
    } else {
        seq![WinConfig::Position(reg), WinConfig::BorderPx(border)]
    }
}

/// Where the pointer goes: `None` when a target window was named and its
/// geometry could not be read; else the window and the point within it.
pub open spec fn warp_target(root: WinId, target: Option<WinId>, geometry: Option<Region>, screen: Screen) -> Option<(WinId, u64, u64)> {
    match target {
        Some(id) => match geometry {
            Some(g) => Some((id, (g.w / 2) as u64, (g.h / 2) as u64)),
            None => None,
        },
        None => {
            let r = screen.effective_region;
            Some((root, (r.x + r.w / 2) as u64, (r.y + r.h / 2) as u64))
        },
    }
}

/// The windows of `clients` whose type is not in `unmanaged`, in order.
pub open spec fn managed_of(clients: Seq<(WinId, Option<u32>)>, unmanaged: Seq<u32>) -> Seq<WinId>
    decreases clients.len(),
{
    if clients.len() == 0 {
        Seq::empty()
    } else {
        let rest = managed_of(clients.drop_last(), unmanaged);
        if type_in(clients.last().1, unmanaged) {
            rest
        } else {
            rest.push(clients.last().0)
        }
    }
}

/// The requests that release the window manager's hold on the display.
pub open spec fn cleanup_reqs(check: WinId, root: WinId, active: u32) -> Seq<RequestView> {
    seq![
        RequestView::UngrabKeys,
        RequestView::UngrabButtons,
        RequestView::DestroyWindow(check),
        RequestView::DeleteProp(root, active),
    ]
}

/// A connection to an X server, from its setup to its cleanup.
pub struct XcbConnection {
    api: Api,
    check_win: WinId,
    auto_float_types: Vec<u32>,
    dont_manage_types: Vec<u32>,
    cleaned: bool,
}

impl XcbConnection {
    /// The atom identifiers are resolved and the derived type sets match them.
    pub closed spec fn wf(&self) -> bool {
        &&& self.api.wf()
        &&& self.auto_float_types@ == ids_of(self.api.atom_map(), auto_float_spec())
        &&& self.dont_manage_types@ == ids_of(self.api.atom_map(), unmanaged_spec())
    }

    /// The request queue.
    pub closed spec fn api_view(&self) -> Api {
        self.api
    }

    /// The requests issued and not yet taken by the transport.
    pub open spec fn log(&self) -> Seq<RequestView> {
        self.api_view().log()
    }

    /// The root window.
    pub open spec fn root_id(&self) -> WinId {
        self.api_view().root_id()
    }

    /// The identifier the server interned for `a`.
    pub open spec fn atom_id(&self, a: Atom) -> u32 {
        self.api_view().atom_id(a)
    }

    /// The resolved atoms.
    pub open spec fn atom_map(&self) -> Map<Atom, u32> {
        self.api_view().atom_map()
    }

    /// The hidden window that marks a running EWMH window manager.
    pub closed spec fn check_id(&self) -> WinId {
        self.check_win
    }

    /// Whether the connection has been cleaned up.
    pub closed spec fn is_cleaned(&self) -> bool {
        self.cleaned
    }

    /// Window types that make a window float.
    pub open spec fn float_types(&self) -> Seq<u32> {
        ids_of(self.atom_map(), auto_float_spec())
    }

    /// Window types that are left unmanaged.
    pub open spec fn unmanaged_types(&self) -> Seq<u32> {
        ids_of(self.atom_map(), unmanaged_spec())
    }

    /// Everything but the request queue is the same in `self` and `other`.
    pub open spec fn same_setup(&self, other: &XcbConnection) -> bool {
        &&& self.wf() == other.wf()
        &&& self.root_id() == other.root_id()
        &&& self.atom_map() == other.atom_map()
        &&& self.check_id() == other.check_id()
        &&& self.is_cleaned() == other.is_cleaned()
    }

    /// Sets up the connection for the display with root window `root`, given
    /// the atoms the server interned and the identifier the transport
    /// allocated for the check window. Queues the request for layout-change
    /// notifications and the creation of the 1x1 check window.
    pub fn new(root: WinId, check_win: WinId, atoms: AtomCache) -> (r: Result<Self, XError>)
        ensures
            r is Err <==> !(atoms.wf() && atoms.is_complete()),
            r is Err ==> r->Err_0 == XError::MissingAtoms,
            r matches Ok(c) ==> {
                &&& c.wf()
                &&& c.root_id() == root
                &&& c.check_id() == check_win
                &&& c.atom_map() == atoms@
                &&& !c.is_cleaned()
                &&& c.log() == seq![
                    RequestView::SetRandrNotifyMask,
                    RequestView::CreateCheckWindow(check_win, Region { x: 0, y: 0, w: 1, h: 1 }),
                ]
            },
    {
        if !atoms.is_ready() {
            return Err(XError::MissingAtoms);
        }
        let mut api = Api::new(root, atoms);
        let auto_float_types = resolve_all(&api, auto_float_window_types());
        let dont_manage_types = resolve_all(&api, unmanaged_window_types());
        api.send(Request::SetRandrNotifyMask);
        api.send(Request::CreateCheckWindow(check_win, Region::new(0, 0, 1, 1)));
        let c = XcbConnection { api, check_win, auto_float_types, dont_manage_types, cleaned: false };
        assert(c.log() =~= seq![
            RequestView::SetRandrNotifyMask,
            RequestView::CreateCheckWindow(check_win, Region { x: 0, y: 0, w: 1, h: 1 }),
        ]);
        Ok(c)
    }

    /// The request queue.
    pub fn api(&self) -> (r: &Api)
        ensures
            *r == self.api_view(),
    {
        &self.api
    }

    /// The request queue, to issue requests of its own through it.
    pub fn api_mut(&mut self) -> (r: &mut Api)
        ensures
            *r == old(self).api_view(),
            final(self).api_view() == *final(r),
            final(self).check_id() == old(self).check_id(),
            final(self).is_cleaned() == old(self).is_cleaned(),
    {
        &mut self.api
    }

    /// The atoms the server interned for this connection.
    pub fn known_atoms(&self) -> (r: &AtomCache)
        requires
            self.wf(),
        ensures
            r@ == self.atom_map(),
            r.wf(),
            r.is_complete(),
    {
        self.api.known_atoms()
    }

    /// The hidden check window.
    pub fn check_window(&self) -> (r: WinId)
        ensures
            r == self.check_id(),
    {
        self.check_win
    }

    /// Whether the connection has been cleaned up.
    pub fn cleaned(&self) -> (r: bool)
        ensures
            r == self.is_cleaned(),
    {
        self.cleaned
    }

    /// Hands the queued requests to the transport, oldest first.
    pub fn take_requests(&mut self) -> (r: Vec<Request>)
        ensures
            crate::api::log_of(r@) == old(self).log(),
            final(self).log() == Seq::<RequestView>::empty(),
            final(self).same_setup(old(self)),
    {
        self.api.take_requests()
    }

    /// Whether the primary window type `type_prop`, as read from a window,
    /// is one of `win_types`; a failed read is in no set.
    pub fn window_has_type_in(&self, type_prop: Option<u32>, win_types: &Vec<u32>) -> (r: bool)
        ensures
            r == type_in(type_prop, win_types@),
    {
        has_type_in(type_prop, win_types)
    }
}

/// The identifiers `api` holds for `atoms`, in order.
fn resolve_all(api: &Api, atoms: Vec<Atom>) -> (r: Vec<u32>)
    requires
        api.wf(),
    ensures
        r@ == ids_of(api.atom_map(), atoms@),
{
    let mut r: Vec<u32> = Vec::new();
    let mut i: usize = 0;
    while i < atoms.len()
        invariant
            api.wf(),
            i <= atoms@.len(),
            r@ == ids_of(api.atom_map(), atoms@.subrange(0, i as int)),
        decreases atoms@.len() - i,
    {
        r.push(api.known_atom(atoms[i]));
        assert(ids_of(api.atom_map(), atoms@.subrange(0, i + 1)) =~= ids_of(api.atom_map(), atoms@.subrange(0, i as int)).push(api.atom_id(atoms@[i as int])));
        i = i + 1;
    }
    assert(atoms@.subrange(0, atoms@.len() as int) =~= atoms@);
    r
}

impl XcbConnection {
    /// Forces the queued requests out to the server.
    pub fn flush(&mut self)
        ensures
            final(self).log() == old(self).log().push(RequestView::Flush),
            final(self).same_setup(old(self)),
    {
        self.api.send(Request::Flush);
    }

    /// Positions and sizes `id` and sets its border, placing it above its
    /// siblings when `stack_above` is set, all in one configuration batch.
    pub fn position_window(&mut self, id: WinId, reg: Region, border: u32, stack_above: bool)
        ensures
            final(self).log() == old(self).log().push(
                RequestView::Configure(id, position_batch(reg, border, stack_above)),
            ),
            final(self).same_setup(old(self)),
    {
        let mut data: Vec<WinConfig> = vec![WinConfig::Position(reg), WinConfig::BorderPx(border)];
        if stack_above {
            data.push(WinConfig::StackAbove);
        }
        assert(data@ =~= position_batch(reg, border, stack_above));
        self.api.configure_window(id, data);
    }

    /// Places `id` above all of its siblings.
    pub fn raise_window(&mut self, id: WinId)
        ensures
            final(self).log() == old(self).log().push(
                RequestView::Configure(id, seq![WinConfig::StackAbove]),
            ),
            final(self).same_setup(old(self)),
    {
        let data: Vec<WinConfig> = vec![WinConfig::StackAbove];
        assert(data@ =~= seq![WinConfig::StackAbove]);
        self.api.configure_window(id, data);
    }

    /// Subscribes to the events the window manager needs from a new client.
    pub fn mark_new_window(&mut self, id: WinId)
        ensures
            final(self).log() == old(self).log().push(
                RequestView::SetAttributes(id, seq![WinAttr::ClientEventMask]),
            ),
            final(self).same_setup(old(self)),
    {
        let data: Vec<WinAttr> = vec![WinAttr::ClientEventMask];
        assert(data@ =~= seq![WinAttr::ClientEventMask]);
        self.api.set_window_attributes(id, data);
    }

    /// Sets the border colour of `id`.
    pub fn set_client_border_color(&mut self, id: WinId, color: u32)
        ensures
            final(self).log() == old(self).log().push(
                RequestView::SetAttributes(id, seq![WinAttr::BorderColor(color)]),
            ),
            final(self).same_setup(old(self)),
    {
        let data: Vec<WinAttr> = vec![WinAttr::BorderColor(color)];
        assert(data@ =~= seq![WinAttr::BorderColor(color)]);
        self.api.set_window_attributes(id, data);
    }

    /// Makes `id` visible.
    pub fn map_window(&mut self, id: WinId)
        ensures
            final(self).log() == old(self).log().push(RequestView::MapWindow(id)),
            final(self).same_setup(old(self)),
    {
        self.api.send(Request::MapWindow(id));
    }

    /// Hides `id`.
    pub fn unmap_window(&mut self, id: WinId)
        ensures
            final(self).log() == old(self).log().push(RequestView::UnmapWindow(id)),
            final(self).same_setup(old(self)),
    {
        self.api.send(Request::UnmapWindow(id));
    }

    /// Gives the input focus to `id`.
    pub fn focus_client(&mut self, id: WinId)
        ensures
            final(self).log() == old(self).log().push(RequestView::Focus(id)),
            final(self).same_setup(old(self)),
    {
        self.api.send(Request::Focus(id));
    }

    /// Sends `id` a client message naming the protocol atom `atom_name`.
    pub fn send_client_event(&mut self, id: WinId, atom_name: &str)
        ensures
            final(self).log() == old(self).log().push(RequestView::ClientEvent(id, atom_name@)),
            final(self).same_setup(old(self)),
    {
        self.api.send(Request::ClientEvent(id, String::from_str(atom_name)));
    }

    /// Writes the state property of `id`: the fullscreen atom alone when
    /// `is_fullscreen`, else nothing. Other state flags are not kept.
    pub fn set_fullscreen_state(&mut self, id: WinId, is_fullscreen: bool)
        requires
            old(self).wf(),
        ensures
            final(self).log() == old(self).log().push(RequestView::ReplaceProp(
                id,
                old(self).atom_id(Atom::NetWmState),
                PropView::Atoms(fullscreen_value(old(self).atom_id(Atom::NetWmStateFullscreen), is_fullscreen)),
            )),
            final(self).same_setup(old(self)),
    {
        let data: Vec<u32> = if is_fullscreen {
            vec![self.api.known_atom(Atom::NetWmStateFullscreen)]
        } else {
            Vec::new()
        };
        assert(data@ =~= fullscreen_value(self.atom_id(Atom::NetWmStateFullscreen), is_fullscreen));
        self.api.replace_prop(id, Atom::NetWmState, PropVal::Atoms(data));
    }

    /// Flips the fullscreen state of `id`, which is fullscreen now exactly
    /// when `client_is_fullscreen`.
    pub fn toggle_client_fullscreen(&mut self, id: WinId, client_is_fullscreen: bool)
        requires
            old(self).wf(),
        ensures
            final(self).log() == old(self).log().push(RequestView::ReplaceProp(
                id,
                old(self).atom_id(Atom::NetWmState),
                PropView::Atoms(fullscreen_value(old(self).atom_id(Atom::NetWmStateFullscreen), !client_is_fullscreen)),
            )),
            final(self).same_setup(old(self)),
    {
        self.set_fullscreen_state(id, !client_is_fullscreen);
    }

    /// Grabs every key of `keys` and every button of `mouse` on the root
    /// window, subscribes the root to structural events, and flushes.
    pub fn grab_keys(&mut self, keys: Vec<KeyCode>, mouse: Vec<MouseState>)
        ensures
            final(self).log() == old(self).log() + seq![
                RequestView::GrabKeys(keys@),
                RequestView::GrabButtons(mouse@),
                RequestView::SetAttributes(old(self).root_id(), seq![WinAttr::RootEventMask]),
                RequestView::Flush,
            ],
            final(self).same_setup(old(self)),
    {
        let root = self.api.root();
        self.api.send(Request::GrabKeys(keys));
        self.api.send(Request::GrabButtons(mouse));
        let data: Vec<WinAttr> = vec![WinAttr::RootEventMask];
        assert(data@ =~= seq![WinAttr::RootEventMask]);
        self.api.set_window_attributes(root, data);
        self.api.send(Request::Flush);
        assert(final(self).log() =~= old(self).log() + seq![
            RequestView::GrabKeys(keys@),
            RequestView::GrabButtons(mouse@),
            RequestView::SetAttributes(old(self).root_id(), seq![WinAttr::RootEventMask]),
            RequestView::Flush,
        ]);
    }

    /// Publishes the desktop count and the NUL-joined desktop names on the
    /// root window.
    pub fn update_desktops(&mut self, workspaces: &Vec<String>)
        requires
            old(self).wf(),
            workspaces@.len() <= u32::MAX,
        ensures
            final(self).log() == old(self).log() + desktops_reqs(
                old(self).root_id(),
                old(self).atom_id(Atom::NetNumberOfDesktops),
                old(self).atom_id(Atom::NetDesktopNames),
                names_of(workspaces@),
            ),
            final(self).same_setup(old(self)),
    {
        let root = self.api.root();
        let count: Vec<u32> = vec![workspaces.len() as u32];
        assert(count@ =~= seq![names_of(workspaces@).len() as u32]);
        self.api.replace_prop(root, Atom::NetNumberOfDesktops, PropVal::Cardinals(count));
        let names = join_with_nul(workspaces);
        self.api.replace_prop(root, Atom::NetDesktopNames, PropVal::Text(names));
        assert(final(self).log() =~= old(self).log() + desktops_reqs(
            old(self).root_id(),
            old(self).atom_id(Atom::NetNumberOfDesktops),
            old(self).atom_id(Atom::NetDesktopNames),
            names_of(workspaces@),
        ));
    }

    /// Announces the window manager: identity on the check window and the
    /// root, the supported EWMH atoms, the desktops, and the removal of a
    /// client list left by an earlier session.
    pub fn set_wm_properties(&mut self, workspaces: &Vec<String>)
        requires
            old(self).wf(),
            workspaces@.len() <= u32::MAX,
        ensures
            final(self).log() == old(self).log()
                + identity_reqs(
                    old(self).check_id(),
                    old(self).root_id(),
                    old(self).atom_id(Atom::NetSupportingWmCheck),
                    old(self).atom_id(Atom::WmName),
                )
                + seq![RequestView::ReplaceProp(
                    old(self).root_id(),
                    old(self).atom_id(Atom::NetSupported),
                    PropView::Atoms(ids_of(old(self).atom_map(), supported_spec())),
                )]
                + desktops_reqs(
                    old(self).root_id(),
                    old(self).atom_id(Atom::NetNumberOfDesktops),
                    old(self).atom_id(Atom::NetDesktopNames),
                    names_of(workspaces@),
                )
                + seq![RequestView::DeleteProp(old(self).root_id(), old(self).atom_id(Atom::NetClientList))],
            final(self).same_setup(old(self)),
    {
        let root = self.api.root();
        let check = self.check_win;
        let ghost l0 = self.log();
        self.api.replace_prop(check, Atom::NetSupportingWmCheck, PropVal::Windows(one(check)));
        self.api.replace_prop(check, Atom::WmName, PropVal::Text(String::from_str(WM_NAME)));
        self.api.replace_prop(root, Atom::NetSupportingWmCheck, PropVal::Windows(one(check)));
        self.api.replace_prop(root, Atom::WmName, PropVal::Text(String::from_str(WM_NAME)));
        let ghost l1 = self.log();
        assert(l1 =~= l0 + identity_reqs(check, root, self.atom_id(Atom::NetSupportingWmCheck), self.atom_id(Atom::WmName)));
        let supported = resolve_all(&self.api, ewmh_supported_atoms());
        self.api.replace_prop(root, Atom::NetSupported, PropVal::Atoms(supported));
        self.update_desktops(workspaces);
        self.api.delete_prop(root, Atom::NetClientList);
        assert(final(self).log() =~= old(self).log()
                + identity_reqs(
                    old(self).check_id(),
                    old(self).root_id(),
                    old(self).atom_id(Atom::NetSupportingWmCheck),
                    old(self).atom_id(Atom::WmName),
                )
                + seq![RequestView::ReplaceProp(
                    old(self).root_id(),
                    old(self).atom_id(Atom::NetSupported),
                    PropView::Atoms(ids_of(old(self).atom_map(), supported_spec())),
                )]
                + desktops_reqs(
                    old(self).root_id(),
                    old(self).atom_id(Atom::NetNumberOfDesktops),
                    old(self).atom_id(Atom::NetDesktopNames),
                    names_of(workspaces@),
                )
                + seq![RequestView::DeleteProp(old(self).root_id(), old(self).atom_id(Atom::NetClientList))]);
    }

    /// Publishes `clients` as both the client list and the stacking-order
    /// client list of the root window.
    pub fn update_known_clients(&mut self, clients: &Vec<WinId>)
        requires
            old(self).wf(),
        ensures
            final(self).log() == old(self).log() + seq![
                RequestView::ReplaceProp(old(self).root_id(), old(self).atom_id(Atom::NetClientList), PropView::Windows(clients@)),
                RequestView::ReplaceProp(old(self).root_id(), old(self).atom_id(Atom::NetClientListStacking), PropView::Windows(clients@)),
            ],
            final(self).same_setup(old(self)),
    {
        let root = self.api.root();
        self.api.replace_prop(root, Atom::NetClientList, PropVal::Windows(copy_ids(clients)));
        self.api.replace_prop(root, Atom::NetClientListStacking, PropVal::Windows(copy_ids(clients)));
        assert(final(self).log() =~= old(self).log() + seq![
            RequestView::ReplaceProp(old(self).root_id(), old(self).atom_id(Atom::NetClientList), PropView::Windows(clients@)),
            RequestView::ReplaceProp(old(self).root_id(), old(self).atom_id(Atom::NetClientListStacking), PropView::Windows(clients@)),
        ]);
    }

    /// Publishes `wix` as the current desktop.
    pub fn set_current_workspace(&mut self, wix: usize)
        requires
            old(self).wf(),
            wix <= u32::MAX,
        ensures
            final(self).log() == old(self).log().push(RequestView::ReplaceProp(
                old(self).root_id(),
                old(self).atom_id(Atom::NetCurrentDesktop),
                PropView::Cardinals(seq![wix as u32]),
            )),
            final(self).same_setup(old(self)),
    {
        let root = self.api.root();
        let data: Vec<u32> = vec![wix as u32];
        assert(data@ =~= seq![wix as u32]);
        self.api.replace_prop(root, Atom::NetCurrentDesktop, PropVal::Cardinals(data));
    }

    /// Publishes `workspace` as the desktop of the client `id`.
    pub fn set_client_workspace(&mut self, id: WinId, workspace: usize)
        requires
            old(self).wf(),
            workspace <= u32::MAX,
        ensures
            final(self).log() == old(self).log().push(RequestView::ReplaceProp(
                id,
                old(self).atom_id(Atom::NetWmDesktop),
                PropView::Cardinals(seq![workspace as u32]),
            )),
            final(self).same_setup(old(self)),
    {
        let data: Vec<u32> = vec![workspace as u32];
        assert(data@ =~= seq![workspace as u32]);
        self.api.replace_prop(id, Atom::NetWmDesktop, PropVal::Cardinals(data));
    }

    /// Overwrites the name of the root window with `root_name`.
    pub fn set_root_window_name(&mut self, root_name: &str)
        requires
            old(self).wf(),
        ensures
            final(self).log() == old(self).log().push(RequestView::ReplaceProp(
                old(self).root_id(),
                old(self).atom_id(Atom::WmName),
                PropView::Text(root_name@),
            )),
            final(self).same_setup(old(self)),
    {
        let root = self.api.root();
        self.api.replace_prop(root, Atom::WmName, PropVal::Text(String::from_str(root_name)));
    }
}

/// A one-element list.
fn one(id: WinId) -> (r: Vec<WinId>)
    ensures
        r@ == seq![id],
{
    let r: Vec<WinId> = vec![id];
    assert(r@ =~= seq![id]);
    r
}

/// A copy of `v`.
fn copy_ids(v: &Vec<WinId>) -> (r: Vec<WinId>)
    ensures
        r@ == v@,
{
    let mut r: Vec<WinId> = Vec::new();
    let mut i: usize = 0;
    while i < v.len()
        invariant
            i <= v@.len(),
            r@ == v@.subrange(0, i as int),
        decreases v@.len() - i,
    {
        r.push(v[i]);
        assert(r@ =~= v@.subrange(0, i + 1));
        i = i + 1;
    }
    assert(r@ =~= v@);
    r
}

impl XcbConnection {
    /// Whether a window should float: some component of its class-name
    /// property `class_prop` is one of `floating_classes`, or else its
    /// primary window type `type_prop` is an auto-float type. A property
    /// that could not be read (`None`) matches nothing.
    pub fn window_should_float(
        &self,
        class_prop: &Option<String>,
        type_prop: Option<u32>,
        floating_classes: &Vec<String>,
    ) -> (r: bool)
        requires
            self.wf(),
        ensures
            r == floats(opt_text(*class_prop), type_prop, names_of(floating_classes@), self.float_types()),
    {
        if let Some(s) = class_prop {
            if class_in(s.as_str(), floating_classes) {
                return true;
            }
        }
        has_type_in(type_prop, &self.auto_float_types)
    }

    /// Whether a window with primary window type `type_prop` is managed:
    /// every window is, but those of an unmanaged type.
    pub fn is_managed_window(&self, type_prop: Option<u32>) -> (r: bool)
        requires
            self.wf(),
        ensures
            r == !type_in(type_prop, self.unmanaged_types()),
    {
        !has_type_in(type_prop, &self.dont_manage_types)
    }

    /// The managed windows among `clients`, the windows the server reported
    /// with the primary type read from each; no windows when the server
    /// could not report them (`None`).
    pub fn query_for_active_windows(&self, clients: Option<Vec<(WinId, Option<u32>)>>) -> (r: Vec<WinId>)
        requires
            self.wf(),
        ensures
            r@ == (match clients {
                Some(cs) => managed_of(cs@, self.unmanaged_types()),
                None => Seq::<WinId>::empty(),
            }),
    {
        match clients {
            None => {
                let r: Vec<WinId> = Vec::new();
                assert(r@ =~= Seq::<WinId>::empty());
                r
            },
            Some(cs) => {
                let mut r: Vec<WinId> = Vec::new();
                let mut i: usize = 0;
                while i < cs.len()
                    invariant
                        self.wf(),
                        i <= cs@.len(),
                        r@ == managed_of(cs@.subrange(0, i as int), self.unmanaged_types()),
                    decreases cs@.len() - i,
                {
                    let (id, t) = cs[i];
                    let keep = !has_type_in(t, &self.dont_manage_types);
                    proof {
                        let next = cs@.subrange(0, i + 1);
                        assert(next.drop_last() =~= cs@.subrange(0, i as int));
                        assert(next.last() == cs@[i as int]);
                    }
                    if keep {
                        r.push(id);
                    }
                    i = i + 1;
                }
                assert(cs@.subrange(0, cs@.len() as int) =~= cs@);
                r
            },
        }
    }

    /// Moves the pointer. With a target window, to the middle of the window
    /// in its own coordinates, given its `geometry` as read from the server;
    /// when that read failed (`None`) nothing is issued. Without a target, to
    /// the middle of the usable region of `screen`, on the root window.
    pub fn warp_cursor(&mut self, win_id: Option<WinId>, geometry: Option<Region>, screen: &Screen)
        ensures
            final(self).log() == (match warp_target(old(self).root_id(), win_id, geometry, *screen) {
                Some((w, x, y)) => old(self).log().push(RequestView::WarpPointer(w, x, y)),
                None => old(self).log(),
            }),
            final(self).same_setup(old(self)),
    {
        let (x, y, id) = match win_id {
            Some(id) => match geometry {
                Some(g) => ((g.w / 2) as u64, (g.h / 2) as u64, id),
                None => return,
            },
            None => {
                let (x, y, w, h) = screen.region(true).values();
                (x as u64 + (w / 2) as u64, y as u64 + (h / 2) as u64, self.api.root())
            },
        };
        self.api.send(Request::WarpPointer(id, x, y));
    }

    /// Releases the key and button grabs, destroys the check window and
    /// removes the active-window property from the root. Safe to repeat:
    /// each call issues the same requests again, and whatever the server
    /// answers to them is the transport's to report.
    pub fn cleanup(&mut self)
        requires
            old(self).wf(),
        ensures
            final(self).log() == old(self).log() + cleanup_reqs(
                old(self).check_id(),
                old(self).root_id(),
                old(self).atom_id(Atom::NetActiveWindow),
            ),
            final(self).is_cleaned(),
            final(self).wf(),
            final(self).root_id() == old(self).root_id(),
            final(self).atom_map() == old(self).atom_map(),
            final(self).check_id() == old(self).check_id(),
    {
        let root = self.api.root();
        self.api.send(Request::UngrabKeys);
        self.api.send(Request::UngrabButtons);
        self.api.send(Request::DestroyWindow(self.check_win));
        self.api.delete_prop(root, Atom::NetActiveWindow);
        self.cleaned = true;
        assert(final(self).log() =~= old(self).log() + cleanup_reqs(
            old(self).check_id(),
            old(self).root_id(),
            old(self).atom_id(Atom::NetActiveWindow),
        ));
    }
}

/// A window manager driving one connection.
pub struct WindowManager {
    conn: XcbConnection,
}

impl WindowManager {
    /// A window manager over `conn`.
    pub fn new(conn: XcbConnection) -> (r: WindowManager)
        ensures
            r.conn_view() == conn,
    {
        WindowManager { conn }
    }

    /// The connection.
    pub closed spec fn conn_view(&self) -> XcbConnection {
        self.conn
    }

    /// The connection.
    pub fn conn(&self) -> (r: &XcbConnection)
        ensures
            *r == self.conn_view(),
    {
        &self.conn
    }

    /// The connection, to issue requests through it.
    pub fn conn_mut(&mut self) -> (r: &mut XcbConnection)
        ensures
            *r == old(self).conn_view(),
            final(self).conn_view() == *final(r),
    {
        &mut self.conn
    }

    /// The atoms the server interned for the connection.
    pub fn known_atoms(&self) -> (r: &AtomCache)
        requires
            self.conn_view().wf(),
        ensures
            r@ == self.conn_view().atom_map(),
            r.wf(),
            r.is_complete(),
    {
        self.conn.known_atoms()
    }
}

} // verus!
