//! Laws relating the operations of the library, proved over the models that
//! their contracts use.
use vstd::prelude::*;
use crate::atoms::{after_record, Atom};
use crate::classify::{class_matches, floats, type_in};
use crate::text::join_nul;
use crate::wire::{prop_value, PropView, Region, RequestView, Screen, WinId};
use crate::xconn::{desktops_reqs, fullscreen_value, warp_target};

verus! {

/// Resolving an atom twice gives the same identifier both times: once an
/// atom is recorded, the registry no longer asks for it, and a later offer
/// changes neither the answer nor the registry.
pub proof fn lemma_atom_resolved_once(m: Map<Atom, u32>, a: Atom, first: u32, second: u32)
    ensures
        after_record(m, a, first).0.contains_key(a),
        after_record(after_record(m, a, first).0, a, second).1 == after_record(m, a, first).1,
        after_record(after_record(m, a, first).0, a, second).0 == after_record(m, a, first).0,
{
}

/// A window whose type could not be read belongs to no candidate set: it
/// floats only by its class name.
pub proof fn lemma_unreadable_type_in_no_set(candidates: Seq<u32>, class_prop: Option<Seq<char>>, names: Seq<Seq<char>>)
    ensures
        !type_in(None, candidates),
        floats(class_prop, None, names, candidates) == floats(class_prop, None, names, Seq::empty()),
{
}

/// A class-name match makes a window float whatever its type.
pub proof fn lemma_class_name_precedes_type(class_prop: Seq<char>, names: Seq<Seq<char>>, type_prop: Option<u32>, float_types: Seq<u32>)
    requires
        class_matches(class_prop, names),
    ensures
        floats(Some(class_prop), type_prop, names, float_types),
{
}

/// Writing the fullscreen state replaces what was there: whatever came
/// before, the state property then holds exactly the value of the last
/// write, so setting and then clearing fullscreen leaves it empty.
pub proof fn lemma_fullscreen_replaces(log: Seq<RequestView>, w: WinId, state: u32, fullscreen: u32, first: bool, second: bool)
    ensures
        prop_value(log.push(RequestView::ReplaceProp(w, state, PropView::Atoms(fullscreen_value(fullscreen, first)))), w, state)
            == Some(PropView::Atoms(fullscreen_value(fullscreen, first))),
        prop_value(
            log.push(RequestView::ReplaceProp(w, state, PropView::Atoms(fullscreen_value(fullscreen, first))))
                .push(RequestView::ReplaceProp(w, state, PropView::Atoms(fullscreen_value(fullscreen, second)))),
            w,
            state,
        ) == Some(PropView::Atoms(fullscreen_value(fullscreen, second))),
        fullscreen_value(fullscreen, false) == Seq::<u32>::empty(),
{
}

/// After the desktops are published, the desktop count reads back as the
/// number of names and the desktop names as the names joined by NUL.
pub proof fn lemma_desktops_read_back(log: Seq<RequestView>, root: WinId, count: u32, names_prop: u32, names: Seq<Seq<char>>)
    requires
        count != names_prop,
        names.len() <= u32::MAX,
    ensures
        prop_value(log + desktops_reqs(root, count, names_prop, names), root, count)
            == Some(PropView::Cardinals(seq![names.len() as u32])),
        prop_value(log + desktops_reqs(root, count, names_prop, names), root, names_prop)
            == Some(PropView::Text(join_nul(names))),
{
    let reqs = desktops_reqs(root, count, names_prop, names);
    let full = log + reqs;
    let head = log.push(reqs[0]);
    assert(full.drop_last() =~= head);
    assert(full.last() == reqs[1]);
    assert(head.last() == reqs[0]);
    assert(prop_value(full, root, count) == prop_value(head, root, count));
}

/// Without a target window the pointer goes to the middle of the usable
/// region, on the root window.
pub proof fn lemma_warp_without_target(root: WinId, geometry: Option<Region>, screen: Screen)
    ensures
        warp_target(root, None, geometry, screen) == Some((
            root,
            (screen.effective_region.x + screen.effective_region.w / 2) as u64,
            (screen.effective_region.y + screen.effective_region.h / 2) as u64,
        )),
{
}

/// When the target window's geometry could not be read, the pointer is not
/// moved at all.
pub proof fn lemma_warp_unreadable_target(root: WinId, target: WinId, screen: Screen)
    ensures
        warp_target(root, Some(target), None, screen) is None,
{
}

} // verus!
