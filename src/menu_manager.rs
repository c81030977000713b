//! The registry of live menus. Each menu keeps the items it was last given
//! and a mirror of its native items; an update reconciles the two by the
//! keyed diff of `menu`.
use vstd::prelude::*;
use crate::error::PlatformError;
use crate::handle::{EngineHandle, HandleAllocator, MenuHandle};
use crate::menu::{
    DiffResult, Menu, MenuItem, has_match, has_unique_ids, ids_unique, match_index,
    menu_diff, update_diff,
};

verus! {

/// A native menu item as the reconciliation left it. `serial` numbers the
/// creation of the native item: an item updated in place keeps it, a fresh
/// item gets a new one.
#[derive(Clone, Copy, Debug, PartialEq, Eq, Structural)]
pub struct NativeItem {
    pub id: i64,
    pub serial: u64,
}

/// One live menu.
pub struct MenuEntry {
    pub handle: MenuHandle,
    pub engine: EngineHandle,
    pub previous_items: Vec<MenuItem>,
    pub native: Vec<NativeItem>,
}

/// Where an action or a menu bar move request is delivered.
#[derive(Clone, Copy, Debug, PartialEq, Eq, Structural)]
pub struct MenuAction {
    pub engine: EngineHandle,
    pub handle: MenuHandle,
    pub id: i64,
}

/// Owns every live menu.
pub struct MenuManager {
    pub menus: Vec<MenuEntry>,
    pub next_handle: HandleAllocator,
    pub next_serial: u64,
}

impl MenuEntry {
    pub open spec fn wf(&self, next_serial: u64) -> bool {
        &&& ids_unique(self.previous_items@)
        &&& self.native@.len() == self.previous_items@.len()
        &&& forall|i: int|
            0 <= i < self.native@.len() ==> (#[trigger] self.native@[i]).id
                == self.previous_items@[i].id && self.native@[i].serial < next_serial
    }
}

/// The position of the menu `h` in `menus`, or -1.
pub open spec fn menu_index(menus: Seq<MenuEntry>, h: MenuHandle) -> int {
    if exists|i: int| 0 <= i < menus.len() && menus[i].handle == h {
        choose|i: int| 0 <= i < menus.len() && menus[i].handle == h
    } else {
        -1
    }
}

/// Activating `item` reports action `id`: a regular item without a submenu.
pub open spec fn fires_action(item: MenuItem, id: i64) -> bool {
    item.id == id && !item.separator && item.submenu.is_none()
}

/// The previous items of menu `h`, or none for a menu not yet registered.
pub open spec fn items_before(m: MenuManager, h: MenuHandle) -> Seq<MenuItem> {
    if m.contains(h) {
        m.entry(h).previous_items@
    } else {
        Seq::empty()
    }
}

/// The native mirror of menu `h`, or none for a menu not yet registered.
pub open spec fn native_before(m: MenuManager, h: MenuHandle) -> Seq<NativeItem> {
    if m.contains(h) {
        m.entry(h).native@
    } else {
        Seq::empty()
    }
}

/// Builds the native mirror for `next` from the mirror `native` of `prev`:
/// an item that can be updated in place keeps its native item; any other
/// item is created afresh, numbered from `first_serial`.
fn reconcile_native(
    prev: &Vec<MenuItem>,
    native: &Vec<NativeItem>,
    next: &Vec<MenuItem>,
    first_serial: u64,
) -> (r: Vec<NativeItem>)
    requires
        ids_unique(prev@),
        native@.len() == prev@.len(),
        first_serial + next@.len() <= u64::MAX,
    ensures
        r@.len() == next@.len(),
        forall|j: int| 0 <= j < next@.len() ==> (#[trigger] r@[j]).id == next@[j].id,
        forall|j: int|
            0 <= j < next@.len() && has_match(prev@, #[trigger] next@[j]) ==> r@[j].serial
                == native@[match_index(prev@, next@[j])].serial,
        forall|j: int|
            0 <= j < next@.len() && !has_match(prev@, #[trigger] next@[j]) ==> r@[j].serial
                == first_serial + j,
{
    let mut r: Vec<NativeItem> = Vec::new();
    let mut j: usize = 0;
    while j < next.len()
        invariant
            j <= next@.len(),
            r@.len() == j,
            ids_unique(prev@),
            native@.len() == prev@.len(),
            first_serial + next@.len() <= u64::MAX,
            forall|i: int| 0 <= i < j ==> (#[trigger] r@[i]).id == next@[i].id,
            forall|i: int|
                0 <= i < j && has_match(prev@, #[trigger] next@[i]) ==> r@[i].serial
                    == native@[match_index(prev@, next@[i])].serial,
            forall|i: int|
                0 <= i < j && !has_match(prev@, #[trigger] next@[i]) ==> r@[i].serial
                    == first_serial + i,
        decreases next@.len() - j,
    {
        let serial = match crate::menu::find_match(prev, &next[j]) {
            Some(k) => native[k].serial,
            None => first_serial + j as u64,
        };
        r.push(NativeItem { id: next[j].id, serial });
        j = j + 1;
    }
    r
}

impl MenuManager {
    pub open spec fn wf(&self) -> bool {
        &&& self.next_handle.wf()
        &&& forall|i: int|
            0 <= i < self.menus@.len() ==> self.next_handle.issued(
                (#[trigger] self.menus@[i]).handle.0,
            )
        &&& forall|i: int, j: int|
            0 <= i < self.menus@.len() && 0 <= j < self.menus@.len() && i != j
                ==> self.menus@[i].handle != self.menus@[j].handle
        &&& forall|i: int| 0 <= i < self.menus@.len() ==> (#[trigger] self.menus@[i]).wf(self.next_serial)
    }

    /// Whether a menu is registered under `h`.
    pub open spec fn contains(&self, h: MenuHandle) -> bool {
        exists|i: int| 0 <= i < self.menus@.len() && self.menus@[i].handle == h
    }

    /// The registered menu `h`; meaningful when `contains(h)`.
    pub open spec fn entry(&self, h: MenuHandle) -> MenuEntry {
        self.menus@[menu_index(self.menus@, h)]
    }

    pub fn new() -> (r: MenuManager)
        ensures
            r.wf(),
            r.menus@.len() == 0,
            r.next_handle.next == 1,
            r.next_serial == 0,
    {
        MenuManager { menus: Vec::new(), next_handle: HandleAllocator::new(), next_serial: 0 }
    }

    /// The position of menu `h`, if it is registered.
    fn find(&self, h: MenuHandle) -> (r: Option<usize>)
        requires
            self.wf(),
        ensures
            r.is_some() == self.contains(h),
            r.is_some() ==> r.unwrap() < self.menus@.len() && r.unwrap() == menu_index(
                self.menus@,
                h,
            ),
    {
        let mut i: usize = 0;
        while i < self.menus.len()
            invariant
                self.wf(),
                i <= self.menus@.len(),
                forall|k: int| 0 <= k < i ==> self.menus@[k].handle != h,
            decreases self.menus@.len() - i,
        {
            if self.menus[i].handle.0 == h.0 {
                proof {
                    let c = menu_index(self.menus@, h);
                    assert(self.menus@[c].handle == h);
                    assert(c == i as int);
                }
                return Some(i);
            }
            i = i + 1;
        }
        None
    }

    /// The engine that owns menu `h`, where its action callbacks go.
    pub fn invoker_for_menu(&self, h: MenuHandle) -> (r: Option<EngineHandle>)
        requires
            self.wf(),
        ensures
            r.is_some() == self.contains(h),
            r.is_some() ==> r.unwrap() == self.entry(h).engine,
    {
        match self.find(h) {
            Some(i) => Some(self.menus[i].engine),
            None => None,
        }
    }

    /// Updates menu `handle` to `menu`, or creates a menu under a fresh handle
    /// when `handle` is `None`, and returns its handle with the
    /// reconciliation steps for the native menu. Fails with `InvalidArgument`
    /// when two items share an id, with `NoMenu` when `handle` names no live
    /// menu, and with `UnknownError` when handles or native serials are used
    /// up.
    pub fn create_or_update(
        &mut self,
        handle: Option<MenuHandle>,
        menu: Menu,
        engine: EngineHandle,
    ) -> (r: Result<(MenuHandle, Vec<DiffResult>), PlatformError>)
        requires
            old(self).wf(),
        ensures
            final(self).wf(),
            !ids_unique(menu.items@) ==> r == Err::<(MenuHandle, Vec<DiffResult>), PlatformError>(
                PlatformError::InvalidArgument,
            ),
            ids_unique(menu.items@) && old(self).next_serial + menu.items@.len() > u64::MAX ==> r
                == Err::<(MenuHandle, Vec<DiffResult>), PlatformError>(PlatformError::UnknownError),
            ids_unique(menu.items@) && old(self).next_serial + menu.items@.len() <= u64::MAX
                && handle.is_some() ==> (r.is_ok() <==> old(self).contains(handle.unwrap())),
            ids_unique(menu.items@) && old(self).next_serial + menu.items@.len() <= u64::MAX
                && handle.is_some() && !old(self).contains(handle.unwrap()) ==> r == Err::<
                (MenuHandle, Vec<DiffResult>),
                PlatformError,
            >(PlatformError::NoMenu),
            ids_unique(menu.items@) && old(self).next_serial + menu.items@.len() <= u64::MAX
                && handle.is_none() ==> (r.is_ok() <==> old(self).next_handle.next < i64::MAX),
            r.is_err() ==> final(self).menus@ == old(self).menus@ && final(self).next_serial == old(self).next_serial && final(self).next_handle == old(self).next_handle,
            r.is_ok() ==> final(self).next_serial == old(self).next_serial + menu.items@.len(),
            r.is_ok() ==> final(self).next_handle.next == old(self).next_handle.next + (if handle.is_none() {
                1int
            } else {
                0int
            }),
            r.is_ok() ==> ({
                let (h, diff) = r.unwrap();
                let prev = items_before(*old(self), h);
                let native = native_before(*old(self), h);
                &&& handle.is_some() ==> h == handle.unwrap()
                &&& handle.is_some() ==> old(self).contains(h)
                &&& handle.is_none() ==> h == MenuHandle(old(self).next_handle.next)
                    && !old(self).contains(h)
                &&& final(self).contains(h)
                &&& final(self).entry(h).previous_items@ == menu.items@
                &&& diff@ == menu_diff(prev, menu.items@)
                &&& final(self).entry(h).native@.len() == menu.items@.len()
                &&& forall|j: int|
                    0 <= j < menu.items@.len() ==> (#[trigger] final(self).entry(h).native@[j]).id
                        == menu.items@[j].id
                &&& forall|j: int|
                    0 <= j < menu.items@.len() && has_match(prev, #[trigger] menu.items@[j])
                        ==> final(self).entry(h).native@[j].serial == native[match_index(
                        prev,
                        menu.items@[j],
                    )].serial
                &&& forall|j: int|
                    0 <= j < menu.items@.len() && !has_match(prev, #[trigger] menu.items@[j])
                        ==> final(self).entry(h).native@[j].serial >= old(self).next_serial
                &&& final(self).contains(h) && old(self).contains(h) ==> final(self).entry(h).engine
                    == old(self).entry(h).engine
                &&& !old(self).contains(h) ==> final(self).entry(h).engine == engine
                &&& forall|g: MenuHandle|
                    g != h ==> (final(self).contains(g) == old(self).contains(g)) && (
                    old(self).contains(g) ==> final(self).entry(g) == old(self).entry(g))
            }),
    {
        if !has_unique_ids(&menu.items) {
            return Err(PlatformError::InvalidArgument);
        }
        if self.next_serial > u64::MAX - menu.items.len() as u64 {
            return Err(PlatformError::UnknownError);
        }
        let ghost old_self = *self;
        let h = match handle {
            Some(h) => {
                if self.find(h).is_none() {
                    return Err(PlatformError::NoMenu);
                }
                h
            },
            None => {
                match self.next_handle.allocate() {
                    Some(v) => {
                        proof {
                            if self.contains(MenuHandle(v)) {
                                let i = menu_index(self.menus@, MenuHandle(v));
                                assert(self.menus@[i].handle == MenuHandle(v));
                            }
                        }
                        MenuHandle(v)
                    },
                    None => {
                        return Err(PlatformError::UnknownError);
                    },
                }
            },
        };
        let first_serial = self.next_serial;
        let items = menu.items;
        match self.find(h) {
            Some(i) => {
                let diff = update_diff(&self.menus[i].previous_items, &items);
                let native = reconcile_native(
                    &self.menus[i].previous_items,
                    &self.menus[i].native,
                    &items,
                    first_serial,
                );
                let engine_before = self.menus[i].engine;
                self.next_serial = first_serial + items.len() as u64;
                self.menus[i] = MenuEntry { handle: h, engine: engine_before, previous_items: items, native };
                proof {
                    assert(menu_index(self.menus@, h) == i as int);
                    assert forall|g: MenuHandle| g != h implies (self.contains(g) == old_self.contains(g)) && (
                        old_self.contains(g) ==> self.entry(g) == old_self.entry(g)) by {
                        if old_self.contains(g) {
                            let c = menu_index(old_self.menus@, g);
                            assert(self.menus@[c].handle == g);
                            let d = menu_index(self.menus@, g);
                            assert(self.menus@[d].handle == g);
                            assert(c == d);
                        }
                        if self.contains(g) {
                            let d = menu_index(self.menus@, g);
                            assert(old_self.menus@[d].handle == g);
                        }
                    }
                    assert forall|k: int| 0 <= k < self.menus@.len() implies (#[trigger] self.menus@[k]).wf(self.next_serial) by {
                        if k != i {
                            assert(old_self.menus@[k].wf(old_self.next_serial));
                        }
                    }
                }
                Ok((h, diff))
            },
            None => {
                let empty: Vec<MenuItem> = Vec::new();
                let no_native: Vec<NativeItem> = Vec::new();
                let diff = update_diff(&empty, &items);
                let native = reconcile_native(&empty, &no_native, &items, first_serial);
                self.next_serial = first_serial + items.len() as u64;
                self.menus.push(MenuEntry { handle: h, engine, previous_items: items, native });
                proof {
                    assert(empty@ =~= items_before(old_self, h));
                    let n = old_self.menus@.len() as int;
                    assert(self.menus@[n].handle == h);
                    assert(menu_index(self.menus@, h) == n);
                    assert forall|g: MenuHandle| g != h implies (self.contains(g) == old_self.contains(g)) && (
                        old_self.contains(g) ==> self.entry(g) == old_self.entry(g)) by {
                        if old_self.contains(g) {
                            let c = menu_index(old_self.menus@, g);
                            assert(self.menus@[c].handle == g);
                            let d = menu_index(self.menus@, g);
                            assert(self.menus@[d].handle == g);
                            assert(c == d);
                        }
                        if self.contains(g) {
                            let d = menu_index(self.menus@, g);
                            assert(old_self.menus@[d].handle == g);
                        }
                    }
                    assert forall|k: int| 0 <= k < self.menus@.len() implies (#[trigger] self.menus@[k]).wf(self.next_serial) by {
                        if k != n {
                            assert(old_self.menus@[k].wf(old_self.next_serial));
                        }
                    }
                }
                Ok((h, diff))
            },
        }
    }

    /// Removes menu `h` from the registry; returns whether it was there.
    pub fn destroy(&mut self, h: MenuHandle) -> (r: bool)
        requires
            old(self).wf(),
        ensures
            final(self).wf(),
            r == old(self).contains(h),
            !final(self).contains(h),
            final(self).next_handle == old(self).next_handle,
            forall|g: MenuHandle|
                g != h ==> (final(self).contains(g) == old(self).contains(g)) && (old(self).contains(g) ==> final(self).entry(g) == old(self).entry(g)),
    {
        let ghost old_self = *self;
        match self.find(h) {
            Some(i) => {
                let _gone = self.menus.remove(i);
                proof {
                    let n = old_self.menus@.len() as int;
                    assert forall|k: int| 0 <= k < self.menus@.len() implies (if k < i {
                        self.menus@[k] == old_self.menus@[k]
                    } else {
                        self.menus@[k] == old_self.menus@[k + 1]
                    }) by {}
                    assert forall|g: MenuHandle| g != h implies (self.contains(g) == old_self.contains(g)) && (
                        old_self.contains(g) ==> self.entry(g) == old_self.entry(g)) by {
                        if old_self.contains(g) {
                            let c = menu_index(old_self.menus@, g);
                            assert(old_self.menus@[c].handle == g);
                            let c2 = if c < i { c } else { c - 1 };
                            assert(self.menus@[c2].handle == g);
                            let d = menu_index(self.menus@, g);
                            assert(self.menus@[d].handle == g);
                            assert(d == c2);
                        }
                        if self.contains(g) {
                            let d = menu_index(self.menus@, g);
                            if d < i {
                                assert(old_self.menus@[d].handle == g);
                            } else {
                                assert(old_self.menus@[d + 1].handle == g);
                            }
                        }
                    }
                    if self.contains(h) {
                        let d = menu_index(self.menus@, h);
                        if d < i {
                            assert(old_self.menus@[d].handle == h);
                        } else {
                            assert(old_self.menus@[d + 1].handle == h);
                        }
                    }
                }
                true
            },
            None => false,
        }
    }

    /// Where activating item `id` of menu `h` is reported: to the menu's
    /// engine, for a live item that is no separator and has no submenu.
    pub fn on_menu_action(&self, h: MenuHandle, id: i64) -> (r: Option<MenuAction>)
        requires
            self.wf(),
        ensures
            r.is_some() <==> self.contains(h) && exists|i: int|
                0 <= i < self.entry(h).previous_items@.len() && fires_action(
                    #[trigger] self.entry(h).previous_items@[i],
                    id,
                ),
            r.is_some() ==> r == Some(MenuAction { engine: self.entry(h).engine, handle: h, id }),
    {
        match self.find(h) {
            Some(m) => {
                let items = &self.menus[m].previous_items;
                let mut i: usize = 0;
                while i < items.len()
                    invariant
                        i <= items@.len(),
                        m < self.menus@.len(),
                        self.contains(h),
                        m == menu_index(self.menus@, h),
                        items@ == self.menus@[m as int].previous_items@,
                        forall|k: int| 0 <= k < i ==> !fires_action(#[trigger] items@[k], id),
                    decreases items@.len() - i,
                {
                    if items[i].id == id && !items[i].separator && items[i].submenu.is_none() {
                        return Some(MenuAction { engine: self.menus[m].engine, handle: h, id });
                    }
                    i = i + 1;
                }
                None
            },
            None => None,
        }
    }

    /// Where a request to move focus to the adjacent top-level menu of a menu
    /// bar goes: to the engine of menu `h`.
    pub fn move_to_adjacent_menu(&self, h: MenuHandle) -> (r: Option<EngineHandle>)
        requires
            self.wf(),
        ensures
            r == (if self.contains(h) { Some(self.entry(h).engine) } else { None::<EngineHandle> }),
    {
        self.invoker_for_menu(h)
    }
}

} // verus!
