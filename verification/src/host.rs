//! The tray host's in-memory state: the item cache keyed by item id and the
//! derived pixmap cache keyed by `(item id, requested size)`.

use vstd::prelude::*;

use crate::error::TraydError;
use crate::keyed::{
    has_key, keyed_map, lemma_keyed_absent, lemma_keyed_at, lemma_keyed_empty, lemma_keyed_len, lemma_keyed_push,
    lemma_keyed_remove, lemma_keyed_same, lemma_keyed_update, unique_keys,
};
use crate::model::{
    IconData, IconDataView, IconPixmap, IconPixmapView, ItemId, PixmapData, PixmapDataView,
    HostEvent, HostEventView, TrayItem, spec_status_from_dbus, TrayItemView, TrayStatus, copy_bytes, pixmap_views,
};
use crate::text::{starts_with_char, str_equal};
use crate::watcher::id_views;

verus! {

// ─── Pixmap selection ────────────────────────────────────────────────────────

/// How far a pixmap's width is from the requested size.
pub open spec fn pixmap_distance(p: IconPixmapView, size: u16) -> int {
    let d = p.width - size;
    if d < 0 {
        -d
    } else {
        d
    }
}

/// How a pixmap ranks for the requested size, lower first: by distance of
/// its width from `size`, and between two equally near widths the one above
/// `size` before the one below it.
pub open spec fn pixmap_rank(p: IconPixmapView, size: u16) -> int {
    2 * pixmap_distance(p, size) + if p.width < size {
        1int
    } else {
        0int
    }
}

/// Index of the pixmap chosen for `size`: the nearest width, an exact match
/// first, then a larger width before an equally near smaller one; the first
/// of pixmaps that rank alike.
pub open spec fn nearest_index(ps: Seq<IconPixmapView>, size: u16) -> int
    decreases ps.len(),
{
    if ps.len() <= 1 {
        0
    } else {
        let b = nearest_index(ps.drop_last(), size);
        if pixmap_rank(ps.last(), size) < pixmap_rank(ps[b], size) {
            ps.len() - 1
        } else {
            b
        }
    }
}

/// `nearest_index` picks a pixmap of lowest rank, the first of those.
proof fn lemma_nearest_rank(ps: Seq<IconPixmapView>, size: u16)
    requires
        ps.len() > 0,
    ensures
        0 <= nearest_index(ps, size) < ps.len(),
        forall|j: int|
            0 <= j < ps.len() ==> pixmap_rank(ps[nearest_index(ps, size)], size) <= pixmap_rank(
                #[trigger] ps[j],
                size,
            ),
        forall|j: int|
            0 <= j < nearest_index(ps, size) ==> pixmap_rank(ps[nearest_index(ps, size)], size)
                < pixmap_rank(#[trigger] ps[j], size),
    decreases ps.len(),
{
    if ps.len() > 1 {
        let init = ps.drop_last();
        lemma_nearest_rank(init, size);
        assert forall|j: int| 0 <= j < init.len() implies init[j] == ps[j] by {}
    }
}

/// `nearest_index` picks a pixmap no farther from `size` than any other; an
/// exact match when there is one; a width at or above `size` when an equally
/// near one is there; and the first of pixmaps equally near on the same side.
pub proof fn lemma_nearest_index(ps: Seq<IconPixmapView>, size: u16)
    requires
        ps.len() > 0,
    ensures
        0 <= nearest_index(ps, size) < ps.len(),
        forall|j: int|
            0 <= j < ps.len() ==> pixmap_distance(ps[nearest_index(ps, size)], size)
                <= pixmap_distance(#[trigger] ps[j], size),
        (exists|j: int| 0 <= j < ps.len() && #[trigger] ps[j].width == size) ==> ps[nearest_index(
            ps,
            size,
        )].width == size,
        forall|j: int|
            0 <= j < ps.len() && pixmap_distance(#[trigger] ps[j], size) == pixmap_distance(
                ps[nearest_index(ps, size)],
                size,
            ) && ps[j].width >= size ==> ps[nearest_index(ps, size)].width >= size,
        forall|j: int|
            0 <= j < nearest_index(ps, size) ==> pixmap_rank(ps[nearest_index(ps, size)], size)
                < pixmap_rank(#[trigger] ps[j], size),
{
    lemma_nearest_rank(ps, size);
    let b = nearest_index(ps, size);
    assert forall|j: int| 0 <= j < ps.len() implies pixmap_distance(ps[b], size) <= pixmap_distance(
        #[trigger] ps[j],
        size,
    ) by {
        assert(pixmap_rank(ps[b], size) <= pixmap_rank(ps[j], size));
    }
    if exists|j: int| 0 <= j < ps.len() && #[trigger] ps[j].width == size {
        let j = choose|j: int| 0 <= j < ps.len() && #[trigger] ps[j].width == size;
        assert(pixmap_rank(ps[b], size) <= pixmap_rank(ps[j], size));
    }
    assert forall|j: int|
        0 <= j < ps.len() && pixmap_distance(#[trigger] ps[j], size) == pixmap_distance(ps[b], size)
            && ps[j].width >= size implies ps[b].width >= size by {
        assert(pixmap_rank(ps[b], size) <= pixmap_rank(ps[j], size));
    }
}

/// The icon whose pixmaps are served: the attention icon while the item needs
/// attention and has attention pixmaps, else the normal icon.
pub open spec fn served_icon(item: TrayItemView) -> IconDataView {
    if item.status == TrayStatus::NeedsAttention && item.attention_icon.pixmaps.len() > 0 {
        item.attention_icon
    } else {
        item.icon
    }
}

/// The pixmap served for `item` at `size`, if its served icon has any.
pub open spec fn spec_pixmap_for(item: TrayItemView, size: u16) -> Option<PixmapDataView> {
    let icon = served_icon(item);
    if icon.pixmaps.len() == 0 {
        None
    } else {
        let p = icon.pixmaps[nearest_index(icon.pixmaps, size)];
        Some(PixmapDataView { width: p.width as u32, height: p.height as u32, data: p.data })
    }
}

/// Rank of a pixmap for `size`, computed without overflow.
fn rank(p: &IconPixmap, size: u16) -> (r: i64)
    ensures
        r == pixmap_rank(p@, size),
{
    let d: i64 = p.width as i64 - size as i64;
    let dist: i64 = if d < 0 {
        -d
    } else {
        d
    };
    if d < 0 {
        2 * dist + 1
    } else {
        2 * dist
    }
}

/// Index of the pixmap of `ps` chosen for `size` (see [`nearest_index`]).
pub fn nearest_pixmap(ps: &Vec<IconPixmap>, size: u16) -> (r: usize)
    requires
        ps@.len() > 0,
    ensures
        r == nearest_index(pixmap_views(ps@), size),
        r < ps@.len(),
{
    let ghost v = pixmap_views(ps@);
    let mut best: usize = 0;
    let mut best_d: i64 = rank(&ps[0], size);
    let mut i: usize = 1;
    assert(v.take(1).len() == 1);
    while i < ps.len()
        invariant
            v == pixmap_views(ps@),
            1 <= i <= ps@.len(),
            best < i,
            best == nearest_index(v.take(i as int), size),
            best_d == pixmap_rank(v[best as int], size),
        decreases ps.len() - i,
    {
        let d = rank(&ps[i], size);
        assert(v.take(i + 1).drop_last() =~= v.take(i as int));
        assert(v.take(i + 1).last() == v[i as int]);
        assert(v.take(i + 1)[best as int] == v[best as int]);
        if d < best_d {
            best = i;
            best_d = d;
        }
        i += 1;
    }
    assert(v.take(ps@.len() as int) =~= v);
    best
}

// ─── Item properties ─────────────────────────────────────────────────────────

/// The icon name chosen from the three available sources.
pub open spec fn spec_resolve_icon_name(icon_name: Seq<char>, well_known_name: Option<Seq<char>>, sni_id: Seq<char>) -> Seq<char> {
    if icon_name.len() != 0 {
        icon_name
    } else if well_known_name matches Some(w) && w.len() != 0 {
        well_known_name->0
    } else {
        sni_id
    }
}

/// Select the best icon name from the three available sources.
///
/// Priority: explicit `IconName` SNI property → well-known bus name of the
/// owning process (e.g. `org.telegram.desktop`) → SNI `Id` as a last resort
/// (e.g. `TelegramDesktop`).
pub fn resolve_icon_name(icon_name: String, well_known_name: Option<&str>, sni_id: String) -> (r: String)
    ensures
        r@ == spec_resolve_icon_name(
            icon_name@,
            match well_known_name {
                Some(w) => Some(w@),
                None => None,
            },
            sni_id@,
        ),
{
    if icon_name.as_str().unicode_len() != 0 {
        icon_name
    } else {
        match well_known_name {
            Some(w) => {
                if w.unicode_len() != 0 {
                    String::from_str(w)
                } else {
                    sni_id
                }
            },
            None => sni_id,
        }
    }
}

/// A unique bus name (`:1.42`) rather than a well-known one.
pub fn is_unique_bus_name(name: &str) -> (r: bool)
    ensures
        r == (name@.len() > 0 && name@[0] == ':'),
{
    starts_with_char(name, ':')
}

/// The properties read from an `org.kde.StatusNotifierItem` object (an
/// unreadable property reads as its default: empty text, no pixmaps).
#[derive(Debug)]
pub struct ItemProperties {
    /// `Title`.
    pub title: String,
    /// `Status`.
    pub status: String,
    /// `IconName`.
    pub icon_name: String,
    /// `Id`.
    pub id: String,
    /// `IconPixmap`.
    pub icon_pixmap: Vec<IconPixmap>,
    /// `AttentionIconName`.
    pub attention_icon_name: String,
    /// `AttentionIconPixmap`.
    pub attention_icon_pixmap: Vec<IconPixmap>,
    /// `Menu`, as a path string.
    pub menu_path: String,
}

/// The model of an optional string.
pub open spec fn opt_view(s: Option<String>) -> Option<Seq<char>> {
    match s {
        Some(s) => Some(s@),
        None => None,
    }
}

/// The cached item built from a registration and the properties read for it.
pub open spec fn spec_item_from_properties(
    service_id: Seq<char>,
    bus_name: Seq<char>,
    object_path: Seq<char>,
    well_known_name: Option<Seq<char>>,
    title: Seq<char>,
    status: Seq<char>,
    icon_name: Seq<char>,
    sni_id: Seq<char>,
    icon_pixmap: Seq<IconPixmapView>,
    attention_icon_name: Seq<char>,
    attention_icon_pixmap: Seq<IconPixmapView>,
    menu_path: Seq<char>,
) -> TrayItemView {
    TrayItemView {
        id: service_id,
        bus_name,
        object_path,
        title,
        status: spec_status_from_dbus(status),
        icon: IconDataView {
            name: spec_resolve_icon_name(icon_name, well_known_name, sni_id),
            pixmaps: icon_pixmap,
        },
        attention_icon: IconDataView { name: attention_icon_name, pixmaps: attention_icon_pixmap },
        menu_path,
    }
}

impl TrayItem {
    /// The item registered as `service_id` at `bus_name` / `object_path`, from
    /// the properties read for it; `well_known_name` is a well-known bus name
    /// owned by the same process, if one was found.
    pub fn from_properties(
        service_id: &str,
        bus_name: &str,
        object_path: &str,
        well_known_name: Option<&str>,
        props: ItemProperties,
    ) -> (r: TrayItem)
        ensures
            r@ == spec_item_from_properties(
                service_id@,
                bus_name@,
                object_path@,
                match well_known_name {
                    Some(w) => Some(w@),
                    None => None,
                },
                props.title@,
                props.status@,
                props.icon_name@,
                props.id@,
                pixmap_views(props.icon_pixmap@),
                props.attention_icon_name@,
                pixmap_views(props.attention_icon_pixmap@),
                props.menu_path@,
            ),
    {
        let status = TrayStatus::from_dbus(props.status.as_str());
        let name = resolve_icon_name(props.icon_name, well_known_name, props.id);
        TrayItem {
            id: ItemId(String::from_str(service_id)),
            bus_name: String::from_str(bus_name),
            object_path: String::from_str(object_path),
            title: props.title,
            status,
            icon: IconData { name, pixmaps: props.icon_pixmap },
            attention_icon: IconData {
                name: props.attention_icon_name,
                pixmaps: props.attention_icon_pixmap,
            },
            menu_path: props.menu_path,
        }
    }
}

/// The icon re-read after a `NewIcon` (or, when `attention`, a
/// `NewAttentionIcon`) signal: the normal icon's name goes through the same
/// fallback as at registration, the attention icon's name is taken as read.
pub fn changed_icon(
    attention: bool,
    icon_name: String,
    well_known_name: Option<&str>,
    sni_id: String,
    pixmaps: Vec<IconPixmap>,
) -> (r: IconData)
    ensures
        r@.pixmaps == pixmap_views(pixmaps@),
        attention ==> r@.name == icon_name@,
        !attention ==> r@.name == spec_resolve_icon_name(
            icon_name@,
            match well_known_name {
                Some(w) => Some(w@),
                None => None,
            },
            sni_id@,
        ),
{
    let name = if attention {
        icon_name
    } else {
        resolve_icon_name(icon_name, well_known_name, sni_id)
    };
    IconData { name, pixmaps }
}

// ─── Keys and values of the two caches ───────────────────────────────────────

/// One memoised pixmap: the item, the requested size and the pixmap served.
#[derive(Debug)]
pub struct CachedPixmap {
    pub id: ItemId,
    pub size: u16,
    pub pixmap: PixmapData,
}

impl Clone for CachedPixmap {
    fn clone(&self) -> (r: Self)
        ensures
            r.id == self.id,
            r.size == self.size,
            r.pixmap@ == self.pixmap@,
    {
        CachedPixmap { id: self.id.clone(), size: self.size, pixmap: self.pixmap.clone() }
    }
}

/// Key of an item entry.
pub open spec fn item_key() -> spec_fn(TrayItem) -> Seq<char> {
    |t: TrayItem| t.id@
}

/// Value of an item entry.
pub open spec fn item_val() -> spec_fn(TrayItem) -> TrayItemView {
    |t: TrayItem| t@
}

/// Key of a pixmap cache entry.
pub open spec fn cache_key() -> spec_fn(CachedPixmap) -> (Seq<char>, u16) {
    |c: CachedPixmap| (c.id@, c.size)
}

/// Value of a pixmap cache entry.
pub open spec fn cache_val() -> spec_fn(CachedPixmap) -> PixmapDataView {
    |c: CachedPixmap| c.pixmap@
}

/// `pixmaps` without the entries of item `id`.
pub open spec fn drop_id(pixmaps: Map<(Seq<char>, u16), PixmapDataView>, id: Seq<char>) -> Map<
    (Seq<char>, u16),
    PixmapDataView,
> {
    Map::new(|k: (Seq<char>, u16)| pixmaps.contains_key(k) && k.0 != id, |k: (Seq<char>, u16)| pixmaps[k])
}

/// Dropping the memoised pixmaps of one item keeps the cache coherent.
pub proof fn lemma_drop_id_coherent(v: HostStateView, id: Seq<char>)
    requires
        cache_coherent(v),
    ensures
        cache_coherent(HostStateView { items: v.items, pixmaps: drop_id(v.pixmaps, id) }),
{
    let w = HostStateView { items: v.items, pixmaps: drop_id(v.pixmaps, id) };
    assert forall|k: (Seq<char>, u16)| #[trigger] w.pixmaps.contains_key(k) implies w.items.contains_key(k.0)
        && spec_pixmap_for(w.items[k.0], k.1) == Some(w.pixmaps[k]) by {
        assert(v.pixmaps.contains_key(k));
        assert(v.pixmaps[k] == w.pixmaps[k]);
    }
}

/// The state after caching `item`: the item replaces any item with its id;
/// the memoised pixmaps are kept.
pub open spec fn spec_insert_item(v: HostStateView, item: TrayItemView) -> HostStateView {
    HostStateView { items: v.items.insert(item.id, item), pixmaps: v.pixmaps }
}

/// The state after removing the item with id `id` and its memoised pixmaps.
pub open spec fn spec_remove_item(v: HostStateView, id: Seq<char>) -> HostStateView {
    HostStateView { items: v.items.remove(id), pixmaps: drop_id(v.pixmaps, id) }
}

/// Caching an item into a coherent state with its pixmaps dropped stays coherent.
pub proof fn lemma_insert_coherent(v: HostStateView, item: TrayItemView)
    requires
        cache_coherent(v),
        forall|k: (Seq<char>, u16)| v.pixmaps.contains_key(k) ==> k.0 != item.id,
    ensures
        cache_coherent(HostStateView { items: v.items.insert(item.id, item), pixmaps: v.pixmaps }),
{
}

/// Removing an item whose pixmaps were dropped keeps the cache coherent.
pub proof fn lemma_remove_coherent(v: HostStateView, id: Seq<char>)
    requires
        cache_coherent(v),
        forall|k: (Seq<char>, u16)| v.pixmaps.contains_key(k) ==> k.0 != id,
    ensures
        cache_coherent(HostStateView { items: v.items.remove(id), pixmaps: v.pixmaps }),
{
}

/// The state and result of a pixmap lookup: the memoised pixmap for
/// `(id, size)` when there is one, else the served pixmap, then memoised, or
/// nothing when the item is unknown or its served icon has no pixmaps.
pub open spec fn spec_get_pixmap(v: HostStateView, id: Seq<char>, size: u16) -> (
    HostStateView,
    Option<PixmapDataView>,
) {
    if v.pixmaps.contains_key((id, size)) {
        (v, Some(v.pixmaps[(id, size)]))
    } else if v.items.contains_key(id) {
        match spec_pixmap_for(v.items[id], size) {
            Some(p) => (HostStateView { items: v.items, pixmaps: v.pixmaps.insert((id, size), p) }, Some(p)),
            None => (v, None),
        }
    } else {
        (v, None)
    }
}

/// The state after item `id` gets the title `title` (unchanged when absent).
pub open spec fn spec_set_title(v: HostStateView, id: Seq<char>, title: Seq<char>) -> HostStateView {
    if v.items.contains_key(id) {
        HostStateView {
            items: v.items.insert(id, TrayItemView { title, ..v.items[id] }),
            pixmaps: v.pixmaps,
        }
    } else {
        v
    }
}

/// The state after item `id` gets the status `status`, its memoised pixmaps
/// dropped (unchanged when absent).
pub open spec fn spec_set_status(v: HostStateView, id: Seq<char>, status: TrayStatus) -> HostStateView {
    if v.items.contains_key(id) {
        HostStateView {
            items: v.items.insert(id, TrayItemView { status, ..v.items[id] }),
            pixmaps: drop_id(v.pixmaps, id),
        }
    } else {
        v
    }
}

/// The state after item `id` gets a new normal or attention icon, its
/// memoised pixmaps dropped (unchanged when absent).
pub open spec fn spec_set_icon(v: HostStateView, id: Seq<char>, attention: bool, icon: IconDataView) -> HostStateView {
    if v.items.contains_key(id) {
        HostStateView {
            items: v.items.insert(
                id,
                if attention {
                    TrayItemView { attention_icon: icon, ..v.items[id] }
                } else {
                    TrayItemView { icon, ..v.items[id] }
                },
            ),
            pixmaps: drop_id(v.pixmaps, id),
        }
    } else {
        v
    }
}

/// A state memoising pixmaps of cached items only memoises none for an item
/// it does not hold.
pub proof fn lemma_drop_absent(v: HostStateView, id: Seq<char>)
    requires
        memo_items_held(v),
        !v.items.contains_key(id),
    ensures
        drop_id(v.pixmaps, id) == v.pixmaps,
{
    assert(drop_id(v.pixmaps, id) =~= v.pixmaps);
}

/// Ids of the items owned by bus name `bus`.
pub open spec fn owned_by(v: HostStateView, bus: Seq<char>) -> Set<Seq<char>> {
    Set::new(|k: Seq<char>| v.items.contains_key(k) && v.items[k].bus_name == bus)
}

/// The state without the items whose ids are in `ids` and their memoised pixmaps.
pub open spec fn spec_remove_keys(v: HostStateView, ids: Set<Seq<char>>) -> HostStateView {
    HostStateView {
        items: v.items.remove_keys(ids),
        pixmaps: Map::new(
            |k: (Seq<char>, u16)| v.pixmaps.contains_key(k) && !ids.contains(k.0),
            |k: (Seq<char>, u16)| v.pixmaps[k],
        ),
    }
}

/// An item has a menu when its menu path is neither empty nor `/`.
pub open spec fn has_menu(item: TrayItemView) -> bool {
    item.menu_path.len() != 0 && item.menu_path != "/"@
}

/// Whether `item` has a menu object.
pub fn item_has_menu(item: &TrayItem) -> (r: bool)
    ensures
        r == has_menu(item@),
{
    item.menu_path.as_str().unicode_len() != 0 && !str_equal(item.menu_path.as_str(), "/")
}

/// The D-Bus call that activates an item.
#[derive(Debug)]
pub enum ActivationTarget {
    /// `StatusNotifierItem.Activate(0, 0)` on the item's object.
    Primary { bus_name: String, object_path: String },
    /// `DBusMenu.Event(menu_item, "clicked", 0, 0)` on the item's menu object.
    MenuClick { bus_name: String, menu_path: String, menu_item: i32 },
}

/// Mathematical model of an [`ActivationTarget`].
pub enum ActivationTargetView {
    Primary { bus_name: Seq<char>, object_path: Seq<char> },
    MenuClick { bus_name: Seq<char>, menu_path: Seq<char>, menu_item: i32 },
}

impl View for ActivationTarget {
    type V = ActivationTargetView;

    open spec fn view(&self) -> ActivationTargetView {
        match self {
            ActivationTarget::Primary { bus_name, object_path } => ActivationTargetView::Primary {
                bus_name: bus_name@,
                object_path: object_path@,
            },
            ActivationTarget::MenuClick { bus_name, menu_path, menu_item } => {
                ActivationTargetView::MenuClick {
                    bus_name: bus_name@,
                    menu_path: menu_path@,
                    menu_item: *menu_item,
                }
            },
        }
    }
}

/// Where a menu layout is read: `GetLayout(parent_id, 1, [])` on the menu object.
#[derive(Debug)]
pub struct MenuTarget {
    pub bus_name: String,
    pub menu_path: String,
    pub parent_id: i32,
}

// ─── HostState ───────────────────────────────────────────────────────────────

/// Item cache and derived pixmap cache of the tray host.
pub struct HostState {
    items: Vec<TrayItem>,
    pixmap_cache: Vec<CachedPixmap>,
}

/// Mathematical model of a [`HostState`]: the items by id, and the memoised
/// pixmaps by `(id, requested size)`.
pub struct HostStateView {
    pub items: Map<Seq<char>, TrayItemView>,
    pub pixmaps: Map<(Seq<char>, u16), PixmapDataView>,
}

impl View for HostState {
    type V = HostStateView;

    closed spec fn view(&self) -> HostStateView {
        HostStateView {
            items: keyed_map(self.items@, item_key(), item_val()),
            pixmaps: keyed_map(self.pixmap_cache@, cache_key(), cache_val()),
        }
    }
}

/// Every memoised pixmap belongs to a cached item.
pub open spec fn memo_items_held(v: HostStateView) -> bool {
    forall|k: (Seq<char>, u16)| #[trigger] v.pixmaps.contains_key(k) ==> v.items.contains_key(k.0)
}

/// Every memoised pixmap is what the item would be served now: the pixmap
/// cache does not change what a lookup returns.
pub open spec fn cache_coherent(v: HostStateView) -> bool {
    forall|k: (Seq<char>, u16)|
        #[trigger] v.pixmaps.contains_key(k) ==> v.items.contains_key(k.0) && spec_pixmap_for(
            v.items[k.0],
            k.1,
        ) == Some(v.pixmaps[k])
}

impl HostState {
    /// Ids are distinct in both caches and every memoised pixmap belongs to a
    /// cached item.
    pub closed spec fn wf(&self) -> bool {
        &&& unique_keys(self.items@, item_key())
        &&& unique_keys(self.pixmap_cache@, cache_key())
        &&& memo_items_held(self@)
    }

    /// A well-formed state memoises pixmaps of cached items only.
    pub proof fn lemma_wf_memo_items_held(&self)
        requires
            self.wf(),
        ensures
            memo_items_held(self@),
    {
    }

    /// An empty host state.
    pub fn new() -> (r: Self)
        ensures
            r.wf(),
            cache_coherent(r@),
            r@.items == Map::<Seq<char>, TrayItemView>::empty(),
            r@.pixmaps == Map::<(Seq<char>, u16), PixmapDataView>::empty(),
    {
        let r = HostState { items: Vec::new(), pixmap_cache: Vec::new() };
        proof {
            lemma_keyed_empty(item_key(), item_val());
            lemma_keyed_empty(cache_key(), cache_val());
            assert(r.items@ =~= Seq::<TrayItem>::empty());
            assert(r.pixmap_cache@ =~= Seq::<CachedPixmap>::empty());
        }
        r
    }

    /// Position of the item with id `id`.
    fn find_item(&self, id: &str) -> (r: Option<usize>)
        ensures
            r matches Some(i) ==> i < self.items@.len() && self.items@[i as int].id@ == id@,
            r is None ==> forall|i: int|
                0 <= i < self.items@.len() ==> self.items@[i].id@ != id@,
    {
        let mut i: usize = 0;
        while i < self.items.len()
            invariant
                i <= self.items@.len(),
                forall|j: int| 0 <= j < i ==> self.items@[j].id@ != id@,
            decreases self.items.len() - i,
        {
            if str_equal(self.items[i].id.as_str(), id) {
                return Some(i);
            }
            i += 1;
        }
        None
    }

    /// Position of the memoised pixmap for `(id, size)`.
    fn find_cached(&self, id: &str, size: u16) -> (r: Option<usize>)
        ensures
            r matches Some(i) ==> i < self.pixmap_cache@.len() && self.pixmap_cache@[i as int].id@
                == id@ && self.pixmap_cache@[i as int].size == size,
            r is None ==> forall|i: int|
                0 <= i < self.pixmap_cache@.len() ==> (self.pixmap_cache@[i].id@,
                self.pixmap_cache@[i].size) != (id@, size),
    {
        let mut i: usize = 0;
        while i < self.pixmap_cache.len()
            invariant
                i <= self.pixmap_cache@.len(),
                forall|j: int|
                    0 <= j < i ==> (self.pixmap_cache@[j].id@, self.pixmap_cache@[j].size) != (id@,
                        size),
            decreases self.pixmap_cache.len() - i,
        {
            if self.pixmap_cache[i].size == size && str_equal(
                self.pixmap_cache[i].id.as_str(),
                id,
            ) {
                return Some(i);
            }
            i += 1;
        }
        None
    }

    /// Number of cached items.
    pub fn len(&self) -> (r: usize)
        requires
            self.wf(),
        ensures
            r == self@.items.len(),
    {
        proof {
            self.lemma_items_len();
        }
        self.items.len()
    }

    /// Remove all pixmap cache entries for `id`.
    pub fn invalidate_pixmap_cache(&mut self, id: &ItemId)
        requires
            old(self).wf(),
        ensures
            final(self).wf(),
            final(self)@.items == old(self)@.items,
            final(self)@.pixmaps == drop_id(old(self)@.pixmaps, id@),
            cache_coherent(old(self)@) ==> cache_coherent(final(self)@),
    {
        let ghost old_cache = self.pixmap_cache@;
        let ghost target = drop_id(old(self)@.pixmaps, id@);
        let mut keep: Vec<CachedPixmap> = Vec::new();
        let mut i: usize = 0;
        proof {
            lemma_keyed_empty(cache_key(), cache_val());
            assert(keep@ =~= Seq::<CachedPixmap>::empty());
        }
        while i < self.pixmap_cache.len()
            invariant
                i <= old_cache.len(),
                self.pixmap_cache@ == old_cache,
                unique_keys(old_cache, cache_key()),
                unique_keys(keep@, cache_key()),
                forall|k: (Seq<char>, u16)|
                    #![trigger keyed_map(keep@, cache_key(), cache_val()).contains_key(k)]
                    keyed_map(keep@, cache_key(), cache_val()).contains_key(k) <==> (has_key(
                        old_cache.take(i as int),
                        cache_key(),
                        k,
                    ) && k.0 != id@),
                forall|k: (Seq<char>, u16)|
                    #![trigger keyed_map(keep@, cache_key(), cache_val())[k]]
                    keyed_map(keep@, cache_key(), cache_val()).contains_key(k) ==> keyed_map(
                        keep@,
                        cache_key(),
                        cache_val(),
                    )[k] == keyed_map(old_cache, cache_key(), cache_val())[k],
            decreases old_cache.len() - i,
        {
            let ghost prefix = old_cache.take(i as int);
            let ghost next = old_cache.take(i + 1);
            assert forall|k: (Seq<char>, u16)|
                has_key(next, cache_key(), k) <==> (has_key(prefix, cache_key(), k) || k
                    == cache_key()(old_cache[i as int])) by {
                if has_key(next, cache_key(), k) {
                    let j = choose|j: int| 0 <= j < next.len() && cache_key()(next[j]) == k;
                    if j < i {
                        assert(prefix[j] == next[j]);
                    }
                }
                if has_key(prefix, cache_key(), k) {
                    let j = choose|j: int| 0 <= j < prefix.len() && cache_key()(prefix[j]) == k;
                    assert(prefix[j] == next[j]);
                }
                if k == cache_key()(old_cache[i as int]) {
                    assert(next[i as int] == old_cache[i as int]);
                }
            }
            if !str_equal(self.pixmap_cache[i].id.as_str(), id.as_str()) {
                let entry = self.pixmap_cache[i].clone();
                let ghost before = keep@;
                proof {
                    let x = old_cache[i as int];
                    if has_key(before, cache_key(), cache_key()(entry)) {
                        let j = choose|j: int|
                            0 <= j < before.len() && cache_key()(before[j]) == cache_key()(entry);
                        lemma_keyed_at(before, cache_key(), cache_val(), j);
                        assert(has_key(prefix, cache_key(), cache_key()(x)));
                        let m = choose|m: int|
                            0 <= m < prefix.len() && cache_key()(prefix[m]) == cache_key()(x);
                        assert(prefix[m] == old_cache[m]);
                    }
                    lemma_keyed_push(before, cache_key(), cache_val(), entry);
                    lemma_keyed_at(old_cache, cache_key(), cache_val(), i as int);
                }
                keep.push(entry);
            }
            i += 1;
        }
        proof {
            assert(old_cache.take(old_cache.len() as int) =~= old_cache);
            assert(keyed_map(keep@, cache_key(), cache_val()) =~= target);
        }
        self.pixmap_cache = keep;
        proof {
            if cache_coherent(old(self)@) {
                lemma_drop_id_coherent(old(self)@, id@);
            }
            assert(unique_keys(self.items@, item_key()));
            assert(unique_keys(self.pixmap_cache@, cache_key()));
        }
    }

    /// Whether an item with id `id` is cached.
    pub fn contains_item(&self, id: &ItemId) -> (r: bool)
        requires
            self.wf(),
        ensures
            r == self@.items.contains_key(id@),
    {
        match self.find_item(id.as_str()) {
            Some(i) => {
                proof {
                    lemma_keyed_at(self.items@, item_key(), item_val(), i as int);
                }
                true
            },
            None => false,
        }
    }

    /// Look up a single item by id.
    pub fn item(&self, id: &ItemId) -> (r: Option<TrayItem>)
        requires
            self.wf(),
        ensures
            r is Some <==> self@.items.contains_key(id@),
            r matches Some(t) ==> t@ == self@.items[id@],
    {
        match self.find_item(id.as_str()) {
            Some(i) => {
                proof {
                    lemma_keyed_at(self.items@, item_key(), item_val(), i as int);
                }
                Some(self.items[i].clone())
            },
            None => None,
        }
    }

    /// Caches `item` under its id, replacing any item with that id (memoised
    /// pixmaps are kept); returns the `ItemAdded` event to broadcast.
    pub fn insert_item(&mut self, item: TrayItem) -> (r: HostEvent)
        requires
            old(self).wf(),
        ensures
            final(self).wf(),
            final(self)@ == spec_insert_item(old(self)@, item@),
            r@ == HostEventView::ItemAdded(item@),
            cache_coherent(old(self)@) && !old(self)@.items.contains_key(item.id@) ==> cache_coherent(
                final(self)@,
            ),
    {
        let event = HostEvent::ItemAdded(item.clone());
        let ghost mid = self@;
        match self.find_item(item.id.as_str()) {
            Some(i) => {
                proof {
                    lemma_keyed_update(self.items@, item_key(), item_val(), i as int, item);
                }
                self.items.set(i, item);
            },
            None => {
                proof {
                    lemma_keyed_push(self.items@, item_key(), item_val(), item);
                }
                self.items.push(item);
            },
        }
        proof {
            assert(self@.items == mid.items.insert(item.id@, item@));
            assert(self@.pixmaps == mid.pixmaps);
            assert forall|k: (Seq<char>, u16)| #[trigger] self@.pixmaps.contains_key(k) implies self@.items.contains_key(k.0) by {
                assert(mid.pixmaps.contains_key(k));
            }
            if cache_coherent(mid) && !mid.items.contains_key(item.id@) {
                lemma_insert_coherent(mid, item@);
            }
        }
        event
    }

    /// Removes the item with id `id` and its memoised pixmaps; returns the
    /// removed item, if there was one.
    pub fn remove_item(&mut self, id: &ItemId) -> (r: Option<TrayItem>)
        requires
            old(self).wf(),
        ensures
            final(self).wf(),
            final(self)@ == spec_remove_item(old(self)@, id@),
            r is Some <==> old(self)@.items.contains_key(id@),
            r matches Some(t) ==> t@ == old(self)@.items[id@],
            cache_coherent(old(self)@) ==> cache_coherent(final(self)@),
    {
        self.invalidate_pixmap_cache(id);
        let ghost mid = self@;
        match self.find_item(id.as_str()) {
            Some(i) => {
                proof {
                    lemma_keyed_at(self.items@, item_key(), item_val(), i as int);
                    lemma_keyed_remove(self.items@, item_key(), item_val(), i as int);
                }
                let t = self.items.remove(i);
                proof {
                    if cache_coherent(mid) {
                        lemma_remove_coherent(mid, id@);
                    }
                }
                Some(t)
            },
            None => {
                proof {
                    lemma_keyed_absent(self.items@, item_key(), item_val(), id@);
                    assert(mid.items.remove(id@) =~= mid.items);
                    if cache_coherent(mid) {
                        lemma_remove_coherent(mid, id@);
                    }
                }
                None
            },
        }
    }

    /// Fetch raw ARGB32 pixmap bytes for an item at approximately `size` pixels.
    ///
    /// The pixmap of the served icon (the attention icon while the item needs
    /// attention and has attention pixmaps) whose width is nearest to `size`:
    /// an exact match first, then a larger width before an equally near
    /// smaller one, the first of equal widths. Results are memoised by `(id, size)`.
    pub fn get_pixmap(&mut self, id: &ItemId, size: u16) -> (r: Result<PixmapData, TraydError>)
        requires
            old(self).wf(),
        ensures
            final(self).wf(),
            r matches Ok(p) ==> spec_get_pixmap(old(self)@, id@, size) == (final(self)@, Some(p@)),
            r is Err ==> spec_get_pixmap(old(self)@, id@, size) == (
                final(self)@,
                None::<PixmapDataView>,
            ),
            r is Err && !old(self)@.items.contains_key(id@) ==> (r matches Err(
                TraydError::NotFound(m),
            ) && m@ == id@),
            r is Err && old(self)@.items.contains_key(id@) ==> (r matches Err(
                TraydError::NotFound(m),
            ) && m@ == "no pixmap for "@ + id@),
            cache_coherent(old(self)@) ==> cache_coherent(final(self)@),
    {
        match self.find_cached(id.as_str(), size) {
            Some(c) => {
                proof {
                    lemma_keyed_at(self.pixmap_cache@, cache_key(), cache_val(), c as int);
                    assert(self@.pixmaps.contains_key((id@, size)));
                }
                return Ok(self.pixmap_cache[c].pixmap.clone());
            },
            None => {},
        }
        let ghost v = self@;
        proof {
            lemma_keyed_absent(self.pixmap_cache@, cache_key(), cache_val(), (id@, size));
        }
        let i = match self.find_item(id.as_str()) {
            Some(i) => i,
            None => {
                proof {
                    lemma_keyed_absent(self.items@, item_key(), item_val(), id@);
                }
                return Err(TraydError::NotFound(id.0.clone()));
            },
        };
        proof {
            lemma_keyed_at(self.items@, item_key(), item_val(), i as int);
        }
        let item = &self.items[i];
        let icon = if item.status == TrayStatus::NeedsAttention && item.attention_icon.pixmaps.len()
            > 0 {
            &item.attention_icon
        } else {
            &item.icon
        };
        if icon.pixmaps.len() == 0 {
            let msg = String::from_str("no pixmap for ").concat(id.as_str());
            return Err(TraydError::NotFound(msg));
        }
        let b = nearest_pixmap(&icon.pixmaps, size);
        let best = &icon.pixmaps[b];
        let result = PixmapData {
            width: best.width as u32,
            height: best.height as u32,
            data: copy_bytes(&best.data),
        };
        let entry = CachedPixmap { id: id.clone(), size, pixmap: result.clone() };
        proof {
            lemma_keyed_push(self.pixmap_cache@, cache_key(), cache_val(), entry);
        }
        self.pixmap_cache.push(entry);
        proof {
            assert(self@.items == v.items);
            assert(self@.pixmaps == v.pixmaps.insert((id@, size), result@));
        }
        Ok(result)
    }

    /// Replaces the cached item at position `i` by `t`, an item with the same
    /// id; the cache stays coherent when `t` is served the memoised pixmaps of
    /// its id.
    fn replace_at(&mut self, i: usize, t: TrayItem)
        requires
            old(self).wf(),
            i < old(self).items@.len(),
            t.id@ == old(self).items@[i as int].id@,
        ensures
            final(self).wf(),
            final(self)@.items == old(self)@.items.insert(t.id@, t@),
            final(self)@.pixmaps == old(self)@.pixmaps,
            cache_coherent(old(self)@) && (forall|k: (Seq<char>, u16)|
                #[trigger] old(self)@.pixmaps.contains_key(k) && k.0 == t.id@ ==> spec_pixmap_for(
                    t@,
                    k.1,
                ) == Some(old(self)@.pixmaps[k])) ==> cache_coherent(final(self)@),
    {
        let ghost v = self@;
        proof {
            lemma_keyed_at(self.items@, item_key(), item_val(), i as int);
            lemma_keyed_update(self.items@, item_key(), item_val(), i as int, t);
        }
        self.items.set(i, t);
        proof {
            if cache_coherent(v) && (forall|k: (Seq<char>, u16)|
                #[trigger] v.pixmaps.contains_key(k) && k.0 == t.id@ ==> spec_pixmap_for(t@, k.1)
                    == Some(v.pixmaps[k])) {
                assert forall|k: (Seq<char>, u16)| #[trigger]
                    self@.pixmaps.contains_key(k) implies self@.items.contains_key(k.0)
                    && spec_pixmap_for(self@.items[k.0], k.1) == Some(self@.pixmaps[k]) by {
                    assert(v.pixmaps.contains_key(k));
                }
            }
        }
    }

    /// Sets the title of item `id`; returns the `ItemChanged` event, or `None`
    /// when no such item is cached (and then changes nothing).
    pub fn set_title(&mut self, id: &ItemId, title: String) -> (r: Option<HostEvent>)
        requires
            old(self).wf(),
        ensures
            final(self).wf(),
            final(self)@ == spec_set_title(old(self)@, id@, title@),
            r is Some <==> old(self)@.items.contains_key(id@),
            r matches Some(e) ==> e@ == HostEventView::ItemChanged(final(self)@.items[id@]),
            cache_coherent(old(self)@) ==> cache_coherent(final(self)@),
    {
        match self.find_item(id.as_str()) {
            None => {
                proof {
                    lemma_keyed_absent(self.items@, item_key(), item_val(), id@);
                }
                None
            },
            Some(i) => {
                proof {
                    lemma_keyed_at(self.items@, item_key(), item_val(), i as int);
                }
                let mut t = self.items[i].clone();
                t.title = title;
                let event = HostEvent::ItemChanged(t.clone());
                self.replace_at(i, t);
                Some(event)
            },
        }
    }

    /// Sets the status of item `id` and drops its memoised pixmaps (the status
    /// decides which icon is served); returns the `ItemChanged` event, or `None`
    /// when no such item is cached (and then changes nothing).
    pub fn set_status(&mut self, id: &ItemId, status: TrayStatus) -> (r: Option<HostEvent>)
        requires
            old(self).wf(),
        ensures
            final(self).wf(),
            final(self)@ == spec_set_status(old(self)@, id@, status),
            r is Some <==> old(self)@.items.contains_key(id@),
            r matches Some(e) ==> e@ == HostEventView::ItemChanged(final(self)@.items[id@]),
            cache_coherent(old(self)@) ==> cache_coherent(final(self)@),
    {
        proof {
            if !old(self)@.items.contains_key(id@) {
                lemma_drop_absent(old(self)@, id@);
            }
        }
        self.invalidate_pixmap_cache(id);
        match self.find_item(id.as_str()) {
            None => {
                proof {
                    lemma_keyed_absent(self.items@, item_key(), item_val(), id@);
                }
                None
            },
            Some(i) => {
                proof {
                    lemma_keyed_at(self.items@, item_key(), item_val(), i as int);
                }
                let mut t = self.items[i].clone();
                t.status = status;
                let event = HostEvent::ItemChanged(t.clone());
                self.replace_at(i, t);
                Some(event)
            },
        }
    }

    /// Sets the normal icon (or, when `attention`, the attention icon) of item
    /// `id` and drops its memoised pixmaps; returns the `ItemChanged` event, or
    /// `None` when no such item is cached (and then changes nothing).
    pub fn set_icon(&mut self, id: &ItemId, attention: bool, icon: IconData) -> (r: Option<HostEvent>)
        requires
            old(self).wf(),
        ensures
            final(self).wf(),
            final(self)@ == spec_set_icon(old(self)@, id@, attention, icon@),
            r is Some <==> old(self)@.items.contains_key(id@),
            r matches Some(e) ==> e@ == HostEventView::ItemChanged(final(self)@.items[id@]),
            cache_coherent(old(self)@) ==> cache_coherent(final(self)@),
    {
        proof {
            if !old(self)@.items.contains_key(id@) {
                lemma_drop_absent(old(self)@, id@);
            }
        }
        self.invalidate_pixmap_cache(id);
        match self.find_item(id.as_str()) {
            None => {
                proof {
                    lemma_keyed_absent(self.items@, item_key(), item_val(), id@);
                }
                None
            },
            Some(i) => {
                proof {
                    lemma_keyed_at(self.items@, item_key(), item_val(), i as int);
                }
                let mut t = self.items[i].clone();
                if attention {
                    t.attention_icon = icon;
                } else {
                    t.icon = icon;
                }
                let event = HostEvent::ItemChanged(t.clone());
                self.replace_at(i, t);
                Some(event)
            },
        }
    }

    /// Snapshot of all cached items: read as a map from id to item, the list
    /// is the item cache (each id once, in no promised order).
    pub fn items(&self) -> (r: Vec<TrayItem>)
        requires
            self.wf(),
        ensures
            unique_keys(r@, item_key()),
            keyed_map(r@, item_key(), item_val()) == self@.items,
            r@.len() == self@.items.len(),
    {
        let mut r: Vec<TrayItem> = Vec::new();
        let mut i: usize = 0;
        while i < self.items.len()
            invariant
                i <= self.items@.len(),
                r@.len() == i,
                forall|j: int| 0 <= j < i ==> (#[trigger] r@[j])@ == self.items@[j]@,
            decreases self.items.len() - i,
        {
            r.push(self.items[i].clone());
            i += 1;
        }
        proof {
            lemma_keyed_same(self.items@, r@, item_key(), item_val());
            lemma_keyed_len(self.items@, item_key(), item_val());
        }
        r
    }

    /// Removes every item owned by bus name `gone` (the name disappeared from
    /// the bus) together with its memoised pixmaps; returns the removed ids,
    /// each once.
    pub fn remove_items_of_bus(&mut self, gone: &str) -> (r: Vec<ItemId>)
        requires
            old(self).wf(),
        ensures
            final(self).wf(),
            final(self)@ == spec_remove_keys(old(self)@, owned_by(old(self)@, gone@)),
            id_views(r@).no_duplicates(),
            id_views(r@).to_set() == owned_by(old(self)@, gone@),
            cache_coherent(old(self)@) ==> cache_coherent(final(self)@),
    {
        let ghost v = self@;
        let ghost owned = owned_by(v, gone@);
        let mut ids: Vec<ItemId> = Vec::new();
        let ghost mut idx: Seq<int> = Seq::empty();
        let mut i: usize = 0;
        while i < self.items.len()
            invariant
                self@ == v,
                self.wf(),
                owned == owned_by(v, gone@),
                i <= self.items@.len(),
                ids@.len() == idx.len(),
                forall|j: int|
                    0 <= j < idx.len() ==> 0 <= #[trigger] idx[j] < i && ids@[j]@ == self.items@[idx[j]].id@
                        && self.items@[idx[j]].bus_name@ == gone@,
                forall|a: int, b: int| 0 <= a < b < idx.len() ==> idx[a] < idx[b],
                forall|m: int|
                    0 <= m < i && self.items@[m].bus_name@ == gone@ ==> exists|j: int|
                        0 <= j < idx.len() && #[trigger] idx[j] == m,
            decreases self.items.len() - i,
        {
            if str_equal(self.items[i].bus_name.as_str(), gone) {
                let ghost before = idx;
                ids.push(self.items[i].id.clone());
                proof {
                    idx = idx.push(i as int);
                    assert forall|m: int|
                        0 <= m < i + 1 && self.items@[m].bus_name@ == gone@ implies exists|j: int|
                        0 <= j < idx.len() && #[trigger] idx[j] == m by {
                        if m < i {
                            let j = choose|j: int| 0 <= j < before.len() && before[j] == m;
                            assert(idx[j] == m);
                        } else {
                            assert(idx[before.len() as int] == m);
                        }
                    }
                }
            } else {
                proof {
                    assert forall|m: int|
                        0 <= m < i + 1 && self.items@[m].bus_name@ == gone@ implies exists|j: int|
                        0 <= j < idx.len() && #[trigger] idx[j] == m by {
                        if m < i {
                        } else {
                            assert(false);
                        }
                    }
                }
            }
            i += 1;
        }
        proof {
            assert(id_views(ids@).no_duplicates()) by {
                assert forall|a: int, b: int|
                    0 <= a < id_views(ids@).len() && 0 <= b < id_views(ids@).len() && a != b implies id_views(ids@)[a]
                    != id_views(ids@)[b] by {
                    if a < b {
                        assert(idx[a] < idx[b]);
                    } else {
                        assert(idx[b] < idx[a]);
                    }
                    assert(self.items@[idx[a]].id@ != self.items@[idx[b]].id@);
                }
            }
            assert forall|k: Seq<char>| id_views(ids@).to_set().contains(k) <==> owned.contains(k) by {
                if id_views(ids@).contains(k) {
                    let j = choose|j: int| 0 <= j < id_views(ids@).len() && id_views(ids@)[j] == k;
                    lemma_keyed_at(self.items@, item_key(), item_val(), idx[j]);
                }
                if owned.contains(k) {
                    let m = choose|m: int| 0 <= m < self.items@.len() && self.items@[m].id@ == k;
                    lemma_keyed_at(self.items@, item_key(), item_val(), m);
                    let j = choose|j: int| 0 <= j < idx.len() && #[trigger] idx[j] == m;
                    assert(id_views(ids@)[j] == k);
                }
            }
            assert(id_views(ids@).to_set() =~= owned);
            assert(spec_remove_keys(v, Set::empty()) =~= v) by {
                assert(spec_remove_keys(v, Set::empty()).items =~= v.items);
                assert(spec_remove_keys(v, Set::empty()).pixmaps =~= v.pixmaps);
            }
            assert(id_views(ids@).take(0).to_set() =~= Set::empty());
        }
        let mut j: usize = 0;
        while j < ids.len()
            invariant
                self.wf(),
                j <= ids@.len(),
                self@ == spec_remove_keys(v, id_views(ids@).take(j as int).to_set()),
                cache_coherent(v) ==> cache_coherent(self@),
            decreases ids.len() - j,
        {
            let ghost removed = id_views(ids@).take(j as int).to_set();
            let _ = self.remove_item(&ids[j]);
            proof {
                assert(id_views(ids@).take(j + 1).to_set() =~= removed.insert(ids@[j as int]@)) by {
                    assert(id_views(ids@).take(j + 1) =~= id_views(ids@).take(j as int).push(
                        ids@[j as int]@,
                    ));
                    id_views(ids@).take(j as int).lemma_push_to_set_commute(ids@[j as int]@);
                }
                let w = spec_remove_keys(v, removed);
                let w2 = spec_remove_keys(v, removed.insert(ids@[j as int]@));
                assert(spec_remove_item(w, ids@[j as int]@).items =~= w2.items);
                assert(spec_remove_item(w, ids@[j as int]@).pixmaps =~= w2.pixmaps);
            }
            j += 1;
        }
        proof {
            assert(id_views(ids@).take(ids@.len() as int) =~= id_views(ids@));
        }
        ids
    }

    /// What `activate(id, item_id)` calls on D-Bus.
    ///
    /// - `item_id == 0` → primary `StatusNotifierItem.Activate(0, 0)` on the item's object.
    /// - `item_id > 0` → `DBusMenu.Event(item_id, "clicked", …)` on the item's menu.
    ///
    /// Errors with `NotFound` when the item is not cached, or, for a menu
    /// event, when the item has no menu.
    pub fn activation_target(&self, id: &ItemId, item_id: u32) -> (r: Result<ActivationTarget, TraydError>)
        requires
            self.wf(),
        ensures
            !self@.items.contains_key(id@) ==> (r matches Err(TraydError::NotFound(m)) && m@ == id@),
            self@.items.contains_key(id@) && item_id == 0 ==> (r matches Ok(t) && t@ == (
            ActivationTargetView::Primary {
                bus_name: self@.items[id@].bus_name,
                object_path: self@.items[id@].object_path,
            })),
            self@.items.contains_key(id@) && item_id != 0 && !has_menu(self@.items[id@]) ==> (r matches Err(
                TraydError::NotFound(m),
            ) && m@ == id@ + " has no menu"@),
            self@.items.contains_key(id@) && item_id != 0 && has_menu(self@.items[id@]) ==> (r matches Ok(t)
                && t@ == (ActivationTargetView::MenuClick {
                bus_name: self@.items[id@].bus_name,
                menu_path: self@.items[id@].menu_path,
                menu_item: item_id as i32,
            })),
    {
        let i = match self.find_item(id.as_str()) {
            Some(i) => i,
            None => {
                proof {
                    lemma_keyed_absent(self.items@, item_key(), item_val(), id@);
                }
                return Err(TraydError::NotFound(id.0.clone()));
            },
        };
        proof {
            lemma_keyed_at(self.items@, item_key(), item_val(), i as int);
        }
        let item = &self.items[i];
        if item_id == 0 {
            Ok(
                ActivationTarget::Primary {
                    bus_name: item.bus_name.clone(),
                    object_path: item.object_path.clone(),
                },
            )
        } else if !item_has_menu(item) {
            Err(TraydError::NotFound(id.0.clone().concat(" has no menu")))
        } else {
            Ok(
                ActivationTarget::MenuClick {
                    bus_name: item.bus_name.clone(),
                    menu_path: item.menu_path.clone(),
                    menu_item: item_id as i32,
                },
            )
        }
    }

    /// Where `get_menu(id, submenu_id)` reads the menu layout: the item's menu
    /// object and the parent node (`0`, the root, when `submenu_id` is `None`).
    ///
    /// Errors with `NotFound` when the item is not cached or has no menu.
    pub fn menu_target(&self, id: &ItemId, submenu_id: Option<u32>) -> (r: Result<MenuTarget, TraydError>)
        requires
            self.wf(),
        ensures
            !self@.items.contains_key(id@) ==> (r matches Err(TraydError::NotFound(m)) && m@ == id@),
            self@.items.contains_key(id@) && !has_menu(self@.items[id@]) ==> (r matches Err(
                TraydError::NotFound(m),
            ) && m@ == id@ + " has no menu"@),
            self@.items.contains_key(id@) && has_menu(self@.items[id@]) ==> (r matches Ok(t) && t.bus_name@
                == self@.items[id@].bus_name && t.menu_path@ == self@.items[id@].menu_path
                && t.parent_id == match submenu_id {
                Some(n) => n as i32,
                None => 0i32,
            }),
    {
        let i = match self.find_item(id.as_str()) {
            Some(i) => i,
            None => {
                proof {
                    lemma_keyed_absent(self.items@, item_key(), item_val(), id@);
                }
                return Err(TraydError::NotFound(id.0.clone()));
            },
        };
        proof {
            lemma_keyed_at(self.items@, item_key(), item_val(), i as int);
        }
        let item = &self.items[i];
        if !item_has_menu(item) {
            return Err(TraydError::NotFound(id.0.clone().concat(" has no menu")));
        }
        let parent_id: i32 = match submenu_id {
            Some(n) => n as i32,
            None => 0,
        };
        Ok(MenuTarget { bus_name: item.bus_name.clone(), menu_path: item.menu_path.clone(), parent_id })
    }

    proof fn lemma_items_len(&self)
        requires
            self.wf(),
        ensures
            self@.items.dom().finite(),
            self@.items.len() == self.items@.len(),
    {
        lemma_keyed_len(self.items@, item_key(), item_val());
    }
}


// ─── Laws ────────────────────────────────────────────────────────────────────

/// Asking for the same pixmap twice gives the same answer, and the second
/// lookup changes nothing.
pub proof fn lemma_get_pixmap_repeat(v: HostStateView, id: Seq<char>, size: u16)
    ensures
        ({
            let (v1, r1) = spec_get_pixmap(v, id, size);
            spec_get_pixmap(v1, id, size) == (v1, r1)
        }),
{
}

/// In a coherent state a pixmap lookup serves exactly what the item's current
/// icons give: the memoised answer is never stale.
pub proof fn lemma_memoised_pixmap_is_current(v: HostStateView, id: Seq<char>, size: u16)
    requires
        cache_coherent(v),
    ensures
        spec_get_pixmap(v, id, size).1 == (if v.items.contains_key(id) {
            spec_pixmap_for(v.items[id], size)
        } else {
            None
        }),
        cache_coherent(spec_get_pixmap(v, id, size).0),
{
}

/// After an item is cached, looking it up gives that item.
pub proof fn lemma_insert_then_lookup(v: HostStateView, item: TrayItemView)
    ensures
        spec_insert_item(v, item).items.contains_key(item.id),
        spec_insert_item(v, item).items[item.id] == item,
{
}

/// A newly registered item is served its own icon: after caching an item
/// whose id was not cached, a pixmap lookup gives the item's pixmap.
pub proof fn lemma_fresh_item_serves_its_icon(v: HostStateView, item: TrayItemView, size: u16)
    requires
        memo_items_held(v),
        !v.items.contains_key(item.id),
    ensures
        !spec_insert_item(v, item).pixmaps.contains_key((item.id, size)),
        spec_get_pixmap(spec_insert_item(v, item), item.id, size).1 == spec_pixmap_for(item, size),
{
}

/// After an item is removed, it is no longer cached and no pixmap of its id is memoised.
pub proof fn lemma_remove_then_absent(v: HostStateView, id: Seq<char>, size: u16)
    ensures
        !spec_remove_item(v, id).items.contains_key(id),
        !spec_remove_item(v, id).pixmaps.contains_key((id, size)),
{
}

/// After an icon or status change, no pixmap of the item is memoised, so the
/// next lookup serves the new icon.
pub proof fn lemma_icon_change_forgets_pixmaps(
    v: HostStateView,
    id: Seq<char>,
    attention: bool,
    icon: IconDataView,
    status: TrayStatus,
    size: u16,
)
    requires
        memo_items_held(v),
    ensures
        !spec_set_icon(v, id, attention, icon).pixmaps.contains_key((id, size)),
        !spec_set_status(v, id, status).pixmaps.contains_key((id, size)),
        v.items.contains_key(id) ==> spec_get_pixmap(spec_set_icon(v, id, attention, icon), id, size).1
            == spec_pixmap_for(spec_set_icon(v, id, attention, icon).items[id], size),
{
    if !v.items.contains_key(id) {
        assert(!v.pixmaps.contains_key((id, size)));
    }
}

/// A title change keeps every memoised pixmap: the served icon does not depend on the title.
pub proof fn lemma_title_change_keeps_pixmaps(v: HostStateView, id: Seq<char>, title: Seq<char>, size: u16)
    requires
        cache_coherent(v),
    ensures
        cache_coherent(spec_set_title(v, id, title)),
        spec_set_title(v, id, title).pixmaps == v.pixmaps,
{
}

/// Once the items of a bus name are removed, no remaining item is owned by
/// it, and every other item is untouched.
pub proof fn lemma_removed_bus_has_no_items(v: HostStateView, bus: Seq<char>)
    ensures
        forall|k: Seq<char>|
            #[trigger] spec_remove_keys(v, owned_by(v, bus)).items.contains_key(k) ==> spec_remove_keys(
                v,
                owned_by(v, bus),
            ).items[k].bus_name != bus,
        forall|k: Seq<char>|
            v.items.contains_key(k) && v.items[k].bus_name != bus ==> #[trigger] spec_remove_keys(
                v,
                owned_by(v, bus),
            ).items.contains_key(k) && spec_remove_keys(v, owned_by(v, bus)).items[k] == v.items[k],
{
}

/// Which icon a lookup serves: for a cached item whose pixmap at `size` is
/// not memoised, the attention icon's nearest pixmap while the item needs
/// attention and that icon has pixmaps, else the normal icon's nearest
/// pixmap. So an item that needs attention is served a pixmap whenever either
/// icon has one, and any other item whenever its normal icon has one.
pub proof fn lemma_served_icon_choice(v: HostStateView, id: Seq<char>, size: u16)
    requires
        v.items.contains_key(id),
        !v.pixmaps.contains_key((id, size)),
    ensures
        ({
            let it = v.items[id];
            let r = spec_get_pixmap(v, id, size).1;
            &&& it.status == TrayStatus::NeedsAttention ==> ((it.icon.pixmaps.len() > 0
                || it.attention_icon.pixmaps.len() > 0) <==> r is Some)
            &&& it.status != TrayStatus::NeedsAttention ==> (it.icon.pixmaps.len() > 0 <==> r is Some)
            &&& (it.status != TrayStatus::NeedsAttention || it.attention_icon.pixmaps.len() == 0)
                && it.icon.pixmaps.len() > 0 ==> ({
                let p = it.icon.pixmaps[nearest_index(it.icon.pixmaps, size)];
                r == Some(PixmapDataView { width: p.width as u32, height: p.height as u32, data: p.data })
            })
            &&& it.status == TrayStatus::NeedsAttention && it.attention_icon.pixmaps.len() > 0 ==> ({
                let p = it.attention_icon.pixmaps[nearest_index(it.attention_icon.pixmaps, size)];
                r == Some(PixmapDataView { width: p.width as u32, height: p.height as u32, data: p.data })
            })
        }),
{
}

/// An icon change replaces exactly the icon it names: the attention icon
/// when `attention`, else the normal icon; the other icon and every other
/// field of the item stay, and other items are untouched. An item that does
/// not need attention goes on being served its normal icon after its
/// attention icon changes.
pub proof fn lemma_set_icon_replaces_the_named_icon(
    v: HostStateView,
    id: Seq<char>,
    attention: bool,
    icon: IconDataView,
    size: u16,
)
    requires
        v.items.contains_key(id),
    ensures
        ({
            let o = v.items[id];
            let w = spec_set_icon(v, id, attention, icon);
            let t = w.items[id];
            &&& w.items.contains_key(id)
            &&& attention ==> t.attention_icon == icon && t.icon == o.icon
            &&& !attention ==> t.icon == icon && t.attention_icon == o.attention_icon
            &&& t.id == o.id && t.bus_name == o.bus_name && t.object_path == o.object_path
            &&& t.title == o.title && t.status == o.status && t.menu_path == o.menu_path
            &&& forall|k: Seq<char>| k != id ==> #[trigger] w.items.contains_key(k) == v.items.contains_key(k)
                && (v.items.contains_key(k) ==> w.items[k] == v.items[k])
            &&& attention && o.status != TrayStatus::NeedsAttention ==> spec_get_pixmap(w, id, size).1
                == spec_pixmap_for(o, size)
        }),
{
}

/// The item built from a registration is keyed by the service id and
/// reached at the registration's bus name and object path, whatever the
/// service id is; caching it puts it among the items of that bus name, so it
/// is dropped when that name leaves the bus.
pub proof fn lemma_item_from_registration(
    v: HostStateView,
    service_id: Seq<char>,
    bus_name: Seq<char>,
    object_path: Seq<char>,
    well_known_name: Option<Seq<char>>,
    title: Seq<char>,
    status: Seq<char>,
    icon_name: Seq<char>,
    sni_id: Seq<char>,
    icon_pixmap: Seq<IconPixmapView>,
    attention_icon_name: Seq<char>,
    attention_icon_pixmap: Seq<IconPixmapView>,
    menu_path: Seq<char>,
)
    ensures
        ({
            let t = spec_item_from_properties(
                service_id,
                bus_name,
                object_path,
                well_known_name,
                title,
                status,
                icon_name,
                sni_id,
                icon_pixmap,
                attention_icon_name,
                attention_icon_pixmap,
                menu_path,
            );
            &&& t.id == service_id
            &&& t.bus_name == bus_name
            &&& t.object_path == object_path
            &&& t.title == title
            &&& t.menu_path == menu_path
            &&& t.icon.pixmaps == icon_pixmap
            &&& t.attention_icon.name == attention_icon_name
            &&& t.attention_icon.pixmaps == attention_icon_pixmap
            &&& owned_by(spec_insert_item(v, t), bus_name).contains(service_id)
            &&& !spec_remove_keys(
                spec_insert_item(v, t),
                owned_by(spec_insert_item(v, t), bus_name),
            ).items.contains_key(service_id)
        }),
{
}

} // verus!
