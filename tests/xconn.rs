use xconn::atoms::{all_atoms, Atom, AtomCache};
use xconn::classify::{class_in, has_type_in};
use xconn::text::join_with_nul;
use xconn::wire::{KeyCode, MouseState, PropVal, Region, Request, Screen, WinAttr, WinConfig};
use xconn::xconn::{WindowManager, XError, XcbConnection};

const ROOT: u32 = 1;
const CHECK: u32 = 2;

fn id_of(a: Atom) -> u32 {
    100 + a.index() as u32
}

fn full_cache() -> AtomCache {
    let mut c = AtomCache::new();
    for a in all_atoms() {
        c.record(a, id_of(a));
    }
    c
}

fn connected() -> XcbConnection {
    let mut c = XcbConnection::new(ROOT, CHECK, full_cache()).unwrap();
    c.take_requests();
    c
}

fn names(v: &[&str]) -> Vec<String> {
    v.iter().map(|s| s.to_string()).collect()
}

#[test]
fn atom_resolved_once_keeps_first_id() {
    let mut c = AtomCache::new();
    assert!(c.needs_interning(Atom::NetWmState));
    assert_eq!(c.record(Atom::NetWmState, 7), 7);
    assert!(!c.needs_interning(Atom::NetWmState));
    assert_eq!(c.record(Atom::NetWmState, 9), 7);
    assert_eq!(c.lookup(Atom::NetWmState), Some(7));
    assert_eq!(c.lookup(Atom::NetWmState), Some(7));
    assert_eq!(c.lookup(Atom::WmName), None);
}

#[test]
fn atom_names_follow_ewmh() {
    assert_eq!(Atom::NetWmState.name(), "_NET_WM_STATE");
    assert_eq!(Atom::WmClass.name(), "WM_CLASS");
    assert_eq!(all_atoms().len(), 28);
}

#[test]
fn new_without_all_atoms_fails() {
    let mut c = AtomCache::new();
    c.record(Atom::WmName, 5);
    assert_eq!(XcbConnection::new(ROOT, CHECK, c).err(), Some(XError::MissingAtoms));
}

#[test]
fn new_queues_notify_mask_and_check_window() {
    let mut c = XcbConnection::new(ROOT, CHECK, full_cache()).unwrap();
    assert_eq!(c.check_window(), CHECK);
    assert!(!c.cleaned());
    assert_eq!(
        c.take_requests(),
        vec![
            Request::SetRandrNotifyMask,
            Request::CreateCheckWindow(CHECK, Region::new(0, 0, 1, 1)),
        ]
    );
    assert!(c.take_requests().is_empty());
    assert_eq!(c.known_atoms().lookup(Atom::NetSupported), Some(id_of(Atom::NetSupported)));
}

#[test]
fn unreadable_type_is_in_no_set() {
    assert!(!has_type_in(None, &vec![1, 2, 3]));
    assert!(!has_type_in(None, &vec![]));
    let c = connected();
    assert!(c.is_managed_window(None));
    assert!(!c.window_should_float(&None, None, &names(&["Termite"])));
}

#[test]
fn type_membership() {
    assert!(has_type_in(Some(2), &vec![1, 2, 3]));
    assert!(!has_type_in(Some(4), &vec![1, 2, 3]));
    let c = connected();
    assert!(c.window_has_type_in(Some(3), &vec![3]));
}

#[test]
fn class_name_precedes_window_type() {
    let c = connected();
    let class = Some("termite\0Termite".to_string());
    let floating = names(&["Termite"]);
    assert!(c.window_should_float(&class, None, &floating));
    assert!(c.window_should_float(&class, Some(id_of(Atom::NetWmName)), &floating));
    assert!(c.window_should_float(&class, Some(id_of(Atom::NetWindowTypeDialog)), &floating));
}

#[test]
fn class_name_matches_whole_components_only() {
    assert!(!class_in("termite\0Termite", &names(&["Term"])));
    assert!(!class_in("termite\0Termite", &names(&["termite\0Termite"])));
    assert!(class_in("termite\0Termite", &names(&["x", "termite"])));
    assert!(class_in("", &names(&[""])));
    assert!(!class_in("abc", &names(&[])));
}

#[test]
fn float_by_window_type() {
    let c = connected();
    let none = names(&[]);
    assert!(c.window_should_float(&Some("a\0b".to_string()), Some(id_of(Atom::NetWindowTypeDialog)), &none));
    assert!(!c.window_should_float(&None, Some(id_of(Atom::NetWmState)), &none));
}

#[test]
fn managed_unless_unmanaged_type() {
    let c = connected();
    assert!(!c.is_managed_window(Some(id_of(Atom::NetWindowTypeDock))));
    assert!(c.is_managed_window(Some(id_of(Atom::NetWindowTypeDialog))));
}

#[test]
fn active_windows_drop_unmanaged() {
    let c = connected();
    let clients = vec![
        (10, None),
        (11, Some(id_of(Atom::NetWindowTypeDock))),
        (12, Some(id_of(Atom::NetWindowTypeDialog))),
        (13, Some(id_of(Atom::NetWindowTypeToolbar))),
    ];
    assert_eq!(c.query_for_active_windows(Some(clients)), vec![10, 12]);
    assert!(c.query_for_active_windows(None).is_empty());
}

#[test]
fn fullscreen_state_is_replaced_not_merged() {
    let mut c = connected();
    c.set_fullscreen_state(5, true);
    c.set_fullscreen_state(5, false);
    let state = id_of(Atom::NetWmState);
    assert_eq!(
        c.take_requests(),
        vec![
            Request::ReplaceProp(5, state, PropVal::Atoms(vec![id_of(Atom::NetWmStateFullscreen)])),
            Request::ReplaceProp(5, state, PropVal::Atoms(vec![])),
        ]
    );
}

#[test]
fn toggle_fullscreen_flips_state() {
    let mut c = connected();
    c.toggle_client_fullscreen(5, false);
    c.toggle_client_fullscreen(5, true);
    let state = id_of(Atom::NetWmState);
    assert_eq!(
        c.take_requests(),
        vec![
            Request::ReplaceProp(5, state, PropVal::Atoms(vec![id_of(Atom::NetWmStateFullscreen)])),
            Request::ReplaceProp(5, state, PropVal::Atoms(vec![])),
        ]
    );
}

#[test]
fn desktops_publish_count_and_names() {
    let mut c = connected();
    c.update_desktops(&names(&["1", "2", "3"]));
    assert_eq!(
        c.take_requests(),
        vec![
            Request::ReplaceProp(ROOT, id_of(Atom::NetNumberOfDesktops), PropVal::Cardinals(vec![3])),
            Request::ReplaceProp(ROOT, id_of(Atom::NetDesktopNames), PropVal::Text("1\u{0}2\u{0}3".to_string())),
        ]
    );
}

#[test]
fn join_with_nul_edges() {
    assert_eq!(join_with_nul(&names(&[])), "");
    assert_eq!(join_with_nul(&names(&["main"])), "main");
    assert_eq!(join_with_nul(&names(&["a", "", "b"])), "a\u{0}\u{0}b");
}

#[test]
fn wm_properties_announce_identity() {
    let mut c = connected();
    c.set_wm_properties(&names(&["1", "2"]));
    let r = c.take_requests();
    assert_eq!(r.len(), 8);
    let wm_check = id_of(Atom::NetSupportingWmCheck);
    let wm_name = id_of(Atom::WmName);
    assert_eq!(r[0], Request::ReplaceProp(CHECK, wm_check, PropVal::Windows(vec![CHECK])));
    assert_eq!(r[1], Request::ReplaceProp(CHECK, wm_name, PropVal::Text("penrose".to_string())));
    assert_eq!(r[2], Request::ReplaceProp(ROOT, wm_check, PropVal::Windows(vec![CHECK])));
    assert_eq!(r[3], Request::ReplaceProp(ROOT, wm_name, PropVal::Text("penrose".to_string())));
    match &r[4] {
        Request::ReplaceProp(w, p, PropVal::Atoms(v)) => {
            assert_eq!((*w, *p), (ROOT, id_of(Atom::NetSupported)));
            assert_eq!(v.len(), 13);
            assert_eq!(v[0], id_of(Atom::NetActiveWindow));
        }
        other => panic!("unexpected request {:?}", other),
    }
    assert_eq!(r[5], Request::ReplaceProp(ROOT, id_of(Atom::NetNumberOfDesktops), PropVal::Cardinals(vec![2])));
    assert_eq!(r[6], Request::ReplaceProp(ROOT, id_of(Atom::NetDesktopNames), PropVal::Text("1\u{0}2".to_string())));
    assert_eq!(r[7], Request::DeleteProp(ROOT, id_of(Atom::NetClientList)));
}

#[test]
fn known_clients_mirror_both_lists() {
    let mut c = connected();
    c.update_known_clients(&vec![4, 9]);
    assert_eq!(
        c.take_requests(),
        vec![
            Request::ReplaceProp(ROOT, id_of(Atom::NetClientList), PropVal::Windows(vec![4, 9])),
            Request::ReplaceProp(ROOT, id_of(Atom::NetClientListStacking), PropVal::Windows(vec![4, 9])),
        ]
    );
}

#[test]
fn workspace_cardinals() {
    let mut c = connected();
    c.set_current_workspace(2);
    c.set_client_workspace(7, 4);
    c.set_root_window_name("status");
    assert_eq!(
        c.take_requests(),
        vec![
            Request::ReplaceProp(ROOT, id_of(Atom::NetCurrentDesktop), PropVal::Cardinals(vec![2])),
            Request::ReplaceProp(7, id_of(Atom::NetWmDesktop), PropVal::Cardinals(vec![4])),
            Request::ReplaceProp(ROOT, id_of(Atom::WmName), PropVal::Text("status".to_string())),
        ]
    );
}

#[test]
fn position_is_one_batch() {
    let mut c = connected();
    let reg = Region::new(10, 20, 300, 400);
    c.position_window(3, reg, 2, true);
    c.position_window(3, reg, 2, false);
    c.raise_window(3);
    assert_eq!(
        c.take_requests(),
        vec![
            Request::Configure(3, vec![WinConfig::Position(reg), WinConfig::BorderPx(2), WinConfig::StackAbove]),
            Request::Configure(3, vec![WinConfig::Position(reg), WinConfig::BorderPx(2)]),
            Request::Configure(3, vec![WinConfig::StackAbove]),
        ]
    );
}

#[test]
fn simple_commands() {
    let mut c = connected();
    c.map_window(3);
    c.unmap_window(3);
    c.focus_client(3);
    c.mark_new_window(3);
    c.set_client_border_color(3, 0xff0000);
    c.send_client_event(3, "WM_DELETE_WINDOW");
    c.flush();
    assert_eq!(
        c.take_requests(),
        vec![
            Request::MapWindow(3),
            Request::UnmapWindow(3),
            Request::Focus(3),
            Request::SetAttributes(3, vec![WinAttr::ClientEventMask]),
            Request::SetAttributes(3, vec![WinAttr::BorderColor(0xff0000)]),
            Request::ClientEvent(3, "WM_DELETE_WINDOW".to_string()),
            Request::Flush,
        ]
    );
}

#[test]
fn grab_keys_then_root_mask_then_flush() {
    let mut c = connected();
    let keys = vec![KeyCode { mask: 64, code: 36 }];
    let mouse = vec![MouseState { button: 1, mask: 64 }];
    c.grab_keys(keys.clone(), mouse.clone());
    assert_eq!(
        c.take_requests(),
        vec![
            Request::GrabKeys(keys),
            Request::GrabButtons(mouse),
            Request::SetAttributes(ROOT, vec![WinAttr::RootEventMask]),
            Request::Flush,
        ]
    );
}

#[test]
fn warp_without_target_goes_to_screen_centre() {
    let mut c = connected();
    let region = Region::new(0, 0, 1920, 1080);
    c.warp_cursor(None, None, &Screen::new(region, region));
    assert_eq!(c.take_requests(), vec![Request::WarpPointer(ROOT, 960, 540)]);
}

#[test]
fn warp_uses_usable_region_offset() {
    let mut c = connected();
    let full = Region::new(1920, 0, 1920, 1080);
    let usable = Region::new(1920, 20, 1920, 1060);
    c.warp_cursor(None, None, &Screen::new(full, usable));
    assert_eq!(c.take_requests(), vec![Request::WarpPointer(ROOT, 2880, 550)]);
}

#[test]
fn warp_to_window_is_window_relative() {
    let mut c = connected();
    let region = Region::new(0, 0, 1920, 1080);
    c.warp_cursor(Some(8), Some(Region::new(100, 200, 640, 481)), &Screen::new(region, region));
    assert_eq!(c.take_requests(), vec![Request::WarpPointer(8, 320, 240)]);
}

#[test]
fn warp_with_unreadable_target_issues_nothing() {
    let mut c = connected();
    let region = Region::new(0, 0, 1920, 1080);
    c.warp_cursor(Some(8), None, &Screen::new(region, region));
    assert!(c.take_requests().is_empty());
}

#[test]
fn cleanup_twice_repeats_requests() {
    let mut c = connected();
    c.cleanup();
    c.cleanup();
    assert!(c.cleaned());
    let once = vec![
        Request::UngrabKeys,
        Request::UngrabButtons,
        Request::DestroyWindow(CHECK),
        Request::DeleteProp(ROOT, id_of(Atom::NetActiveWindow)),
    ];
    let mut twice = once.clone();
    twice.extend(once);
    assert_eq!(c.take_requests(), twice);
}

#[test]
fn window_manager_exposes_atoms() {
    let mut wm = WindowManager::new(connected());
    assert_eq!(wm.known_atoms().lookup(Atom::WmClass), Some(id_of(Atom::WmClass)));
    wm.conn_mut().map_window(4);
    assert_eq!(wm.conn().api().pending().len(), 1);
    assert_eq!(wm.conn().api().root(), ROOT);
}

#[test]
fn screen_region_selects_area() {
    let full = Region::new(0, 0, 100, 50);
    let usable = Region::new(0, 10, 100, 40);
    let s = Screen::new(full, usable);
    assert_eq!(s.region(false), full);
    assert_eq!(s.region(true).values(), (0, 10, 100, 40));
}
