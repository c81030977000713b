use nanoshell::error::PlatformError;
use nanoshell::handle::{EngineHandle, MenuHandle};
use nanoshell::menu::{has_unique_ids, update_diff, DiffResult, Menu, MenuItem};
use nanoshell::menu_manager::{MenuAction, MenuManager};

fn item(id: i64, title: &str) -> MenuItem {
    MenuItem {
        id,
        title: title.to_string(),
        enabled: true,
        separator: false,
        checked: false,
        submenu: None,
    }
}

fn separator(id: i64) -> MenuItem {
    MenuItem {
        id,
        title: String::new(),
        enabled: true,
        separator: true,
        checked: false,
        submenu: None,
    }
}

#[test]
fn reorder_removes_separator_and_keeps_items() {
    let prev = vec![item(1, "File"), separator(2), item(3, "Quit")];
    let next = vec![item(3, "Quit"), item(1, "File")];
    let diff = update_diff(&prev, &next);
    assert_eq!(
        diff,
        vec![
            DiffResult::Remove { from: 1 },
            DiffResult::Keep { from: 2, to: 0 },
            DiffResult::Keep { from: 0, to: 1 },
        ]
    );
    assert!(!diff.iter().any(|d| matches!(d, DiffResult::Insert { .. })));
}

#[test]
fn changed_title_is_an_update() {
    let prev = vec![item(1, "File"), item(2, "Edit")];
    let next = vec![item(2, "Edit…"), item(1, "File")];
    let diff = update_diff(&prev, &next);
    assert_eq!(
        diff,
        vec![DiffResult::Update { from: 1, to: 0 }, DiffResult::Keep { from: 0, to: 1 }]
    );
}

#[test]
fn separator_flip_is_remove_and_insert() {
    let prev = vec![item(1, "A"), separator(2)];
    let next = vec![item(1, "A"), item(2, "B")];
    let diff = update_diff(&prev, &next);
    assert_eq!(
        diff,
        vec![
            DiffResult::Remove { from: 1 },
            DiffResult::Keep { from: 0, to: 0 },
            DiffResult::Insert { at: 1 },
        ]
    );
    let back = update_diff(&next, &prev);
    assert_eq!(
        back,
        vec![
            DiffResult::Remove { from: 1 },
            DiffResult::Keep { from: 0, to: 0 },
            DiffResult::Insert { at: 1 },
        ]
    );
}

#[test]
fn empty_menus_diff() {
    let empty: Vec<MenuItem> = Vec::new();
    assert!(update_diff(&empty, &empty).is_empty());
    let next = vec![item(5, "X")];
    assert_eq!(update_diff(&empty, &next), vec![DiffResult::Insert { at: 0 }]);
    assert_eq!(update_diff(&next, &empty), vec![DiffResult::Remove { from: 0 }]);
}

#[test]
fn unique_ids_detected() {
    assert!(has_unique_ids(&vec![item(1, "a"), item(2, "b")]));
    assert!(!has_unique_ids(&vec![item(1, "a"), item(1, "b")]));
    assert!(has_unique_ids(&Vec::new()));
}

#[test]
fn manager_creates_and_reconciles() {
    let mut m = MenuManager::new();
    let engine = EngineHandle(7);
    let menu = Menu { items: vec![item(1, "File"), separator(2), item(3, "Quit")] };
    let (h, diff) = m.create_or_update(None, menu, engine).unwrap();
    assert_eq!(h, MenuHandle(1));
    assert_eq!(diff.len(), 3);
    assert_eq!(m.menus[0].native.len(), 3);
    let serial_quit = m.menus[0].native[2].serial;
    let serial_file = m.menus[0].native[0].serial;

    let update = Menu { items: vec![item(3, "Quit"), item(1, "File")] };
    let (h2, _) = m.create_or_update(Some(h), update, engine).unwrap();
    assert_eq!(h2, h);
    let native = &m.menus[0].native;
    assert_eq!(native.len(), 2);
    assert_eq!(native[0].id, 3);
    assert_eq!(native[0].serial, serial_quit);
    assert_eq!(native[1].id, 1);
    assert_eq!(native[1].serial, serial_file);

    let second = Menu { items: vec![item(9, "Other")] };
    let (h3, _) = m.create_or_update(None, second, engine).unwrap();
    assert_eq!(h3, MenuHandle(2));
}

#[test]
fn manager_fresh_item_gets_new_serial() {
    let mut m = MenuManager::new();
    let engine = EngineHandle(1);
    let (h, _) = m.create_or_update(None, Menu { items: vec![separator(4)] }, engine).unwrap();
    let old_serial = m.menus[0].native[0].serial;
    m.create_or_update(Some(h), Menu { items: vec![item(4, "now regular")] }, engine).unwrap();
    assert_ne!(m.menus[0].native[0].serial, old_serial);
}

#[test]
fn manager_rejects_bad_requests() {
    let mut m = MenuManager::new();
    let engine = EngineHandle(1);
    let dup = Menu { items: vec![item(1, "a"), item(1, "b")] };
    assert_eq!(m.create_or_update(None, dup, engine).err(), Some(PlatformError::InvalidArgument));
    let ok = Menu { items: vec![item(1, "a")] };
    assert_eq!(
        m.create_or_update(Some(MenuHandle(42)), ok, engine).err(),
        Some(PlatformError::NoMenu)
    );
    assert!(m.menus.is_empty());
}

#[test]
fn manager_destroy_and_actions() {
    let mut m = MenuManager::new();
    let engine = EngineHandle(3);
    let mut with_sub = item(5, "Sub");
    with_sub.submenu = Some(MenuHandle(99));
    let menu = Menu { items: vec![item(1, "File"), separator(2), with_sub] };
    let (h, _) = m.create_or_update(None, menu, engine).unwrap();
    assert_eq!(m.on_menu_action(h, 1), Some(MenuAction { engine, handle: h, id: 1 }));
    assert_eq!(m.on_menu_action(h, 2), None);
    assert_eq!(m.on_menu_action(h, 5), None);
    assert_eq!(m.on_menu_action(h, 8), None);
    assert_eq!(m.invoker_for_menu(h), Some(engine));
    assert_eq!(m.move_to_adjacent_menu(h), Some(engine));
    assert!(m.destroy(h));
    assert!(!m.destroy(h));
    assert_eq!(m.on_menu_action(h, 1), None);
    assert_eq!(m.invoker_for_menu(h), None);
}

#[test]
fn applying_diff_gives_new_count() {
    let prev = vec![item(1, "a"), separator(2), item(3, "c"), item(4, "d")];
    let next = vec![item(2, "b"), item(4, "d"), item(5, "e")];
    let diff = update_diff(&prev, &next);
    let removed = diff.iter().filter(|d| matches!(d, DiffResult::Remove { .. })).count();
    let inserted = diff.iter().filter(|d| matches!(d, DiffResult::Insert { .. })).count();
    assert_eq!(removed, 3);
    assert_eq!(inserted, 2);
    assert_eq!(prev.len() - removed + inserted, next.len());
}

#[test]
fn update_predicate_is_separator_equality() {
    assert!(item(1, "a").can_update(&item(2, "b")));
    assert!(separator(1).can_update(&separator(3)));
    assert!(!item(1, "a").can_update(&separator(1)));
}

#[test]
fn counters_after_updates() {
    let mut m = MenuManager::new();
    let engine = EngineHandle(1);
    let (h, _) = m.create_or_update(None, Menu { items: vec![item(1, "a"), item(2, "b")] }, engine).unwrap();
    assert_eq!(m.next_serial, 2);
    assert_eq!(m.next_handle.next, 2);
    m.create_or_update(Some(h), Menu { items: vec![item(3, "c")] }, engine).unwrap();
    assert_eq!(m.next_serial, 3);
    assert_eq!(m.next_handle.next, 2);
    m.destroy(h);
    let (h2, _) = m.create_or_update(None, Menu { items: Vec::new() }, engine).unwrap();
    assert_eq!(h2, MenuHandle(2));
}
