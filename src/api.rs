//! The request queue of one connection: the root window, the resolved atoms,
//! and the requests issued and not yet handed to the transport.
use vstd::prelude::*;
use crate::atoms::{Atom, AtomCache};
use crate::wire::{KeyCode, MouseState, PropVal, Region, Request, RequestView, WinAttr, WinConfig, WinId};

verus! {

/// The views of a sequence of requests.
pub open spec fn log_of(reqs: Seq<Request>) -> Seq<RequestView> {
    reqs.map_values(|r: Request| r@)
}

/// Requests against one display, queued in the order they are issued.
pub struct Api {
    root: WinId,
    atoms: AtomCache,
    pending: Vec<Request>,
}

impl Api {
    /// Every symbolic atom is resolved.
    pub closed spec fn wf(&self) -> bool {
        self.atoms.wf() && self.atoms.is_complete()
    }

    /// The root window of the display.
    pub closed spec fn root_id(&self) -> WinId {
        self.root
    }

    /// The identifier the server interned for `a`.
    pub open spec fn atom_id(&self, a: Atom) -> u32 {
        self.atom_map()[a]
    }

    /// The resolved atoms.
    pub closed spec fn atom_map(&self) -> Map<Atom, u32> {
        self.atoms@
    }

    /// The requests issued and not yet taken by the transport.
    pub closed spec fn log(&self) -> Seq<RequestView> {
        log_of(self.pending@)
    }

    /// Everything but the queue is the same in `self` and `other`.
    pub open spec fn same_display(&self, other: &Api) -> bool {
        &&& self.wf() == other.wf()
        &&& self.root_id() == other.root_id()
        &&& self.atom_map() == other.atom_map()
    }

    /// A queue for the display with root window `root`, whose atoms are all
    /// resolved in `atoms`.
    pub fn new(root: WinId, atoms: AtomCache) -> (r: Api)
        requires
            atoms.wf(),
            atoms.is_complete(),
        ensures
            r.wf(),
            r.root_id() == root,
            r.atom_map() == atoms@,
            r.log() == Seq::<RequestView>::empty(),
    {
        let r = Api { root, atoms, pending: Vec::new() };
        assert(r.log() =~= Seq::<RequestView>::empty());
        r
    }

    /// The root window of the display.
    pub fn root(&self) -> (r: WinId)
        ensures
            r == self.root_id(),
    {
        self.root
    }

    /// The identifier the server interned for `a`.
    pub fn known_atom(&self, a: Atom) -> (r: u32)
        requires
            self.wf(),
        ensures
            r == self.atom_id(a),
    {
        match self.atoms.lookup(a) {
            Some(id) => id,
            None => {
                assert(self.atoms@.contains_key(a));
                0
            }
        }
    }

    /// The resolved atoms.
    pub fn known_atoms(&self) -> (r: &AtomCache)
        ensures
            r@ == self.atom_map(),
            self.wf() ==> r.wf() && r.is_complete(),
    {
        &self.atoms
    }

    /// The requests issued and not yet taken by the transport.
    pub fn pending(&self) -> (r: &Vec<Request>)
        ensures
            log_of(r@) == self.log(),
    {
        &self.pending
    }

    /// Hands the queued requests over, oldest first, and empties the queue.
    pub fn take_requests(&mut self) -> (r: Vec<Request>)
        ensures
            log_of(r@) == old(self).log(),
            final(self).log() == Seq::<RequestView>::empty(),
            final(self).same_display(old(self)),
    {
        let mut r: Vec<Request> = Vec::new();
        std::mem::swap(&mut r, &mut self.pending);
        assert(final(self).log() =~= Seq::<RequestView>::empty());
        r
    }

    fn issue(&mut self, req: Request)
        ensures
            final(self).log() == old(self).log().push(req@),
            final(self).same_display(old(self)),
    {
        self.pending.push(req);
        assert(final(self).log() =~= old(self).log().push(req@));
    }

    /// Overwrites property `a` of `win` with `val`.
    pub fn replace_prop(&mut self, win: WinId, a: Atom, val: PropVal)
        requires
            old(self).wf(),
        ensures
            final(self).log() == old(self).log().push(
                RequestView::ReplaceProp(win, old(self).atom_id(a), val@),
            ),
            final(self).same_display(old(self)),
    {
        let p = self.known_atom(a);
        self.issue(Request::ReplaceProp(win, p, val));
    }

    /// Removes property `a` from `win`.
    pub fn delete_prop(&mut self, win: WinId, a: Atom)
        requires
            old(self).wf(),
        ensures
            final(self).log() == old(self).log().push(
                RequestView::DeleteProp(win, old(self).atom_id(a)),
            ),
            final(self).same_display(old(self)),
    {
        let p = self.known_atom(a);
        self.issue(Request::DeleteProp(win, p));
    }

    /// Applies `data` to `win` as one configuration batch.
    pub fn configure_window(&mut self, win: WinId, data: Vec<WinConfig>)
        ensures
            final(self).log() == old(self).log().push(RequestView::Configure(win, data@)),
            final(self).same_display(old(self)),
    {
        self.issue(Request::Configure(win, data));
    }

    /// Changes the attributes `data` of `win`.
    pub fn set_window_attributes(&mut self, win: WinId, data: Vec<WinAttr>)
        ensures
            final(self).log() == old(self).log().push(RequestView::SetAttributes(win, data@)),
            final(self).same_display(old(self)),
    {
        self.issue(Request::SetAttributes(win, data));
    }

    /// Queues any request that carries no atom to resolve.
    pub fn send(&mut self, req: Request)
        ensures
            final(self).log() == old(self).log().push(req@),
            final(self).same_display(old(self)),
    {
        self.issue(req);
    }
}

} // verus!
