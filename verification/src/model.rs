//! In-process tray types: item ids, status, icons, menu nodes, items and host events.

use vstd::prelude::*;

use crate::text::str_equal;

verus! {

// ─── ItemId ─────────────────────────────────────────────────────────────────

/// Stable identifier for a tray item.
///
/// On the wire this is either a plain D-Bus name (`com.example.App`) or a
/// combined `busname/object_path` string.
#[derive(Debug, PartialEq, Eq, Hash)]
pub struct ItemId(pub String);

impl View for ItemId {
    type V = Seq<char>;

    open spec fn view(&self) -> Seq<char> {
        self.0@
    }
}

impl Clone for ItemId {
    fn clone(&self) -> (r: Self)
        ensures
            r == *self,
    {
        ItemId(self.0.clone())
    }
}

impl ItemId {
    /// The id as text.
    pub fn as_str(&self) -> (r: &str)
        ensures
            r@ == self@,
    {
        self.0.as_str()
    }

    /// Whether two ids name the same item.
    pub fn same(&self, other: &ItemId) -> (r: bool)
        ensures
            r == (self@ == other@),
    {
        str_equal(self.0.as_str(), other.0.as_str())
    }
}

impl From<String> for ItemId {
    fn from(s: String) -> (r: Self) {
        ItemId(s)
    }
}

impl vstd::std_specs::convert::FromSpecImpl<String> for ItemId {
    open spec fn obeys_from_spec() -> bool {
        true
    }

    open spec fn from_spec(s: String) -> Self {
        ItemId(s)
    }
}

// ─── TrayStatus ──────────────────────────────────────────────────────────────

/// Item visibility and urgency status (maps `org.kde.StatusNotifierItem.Status`).
#[derive(Debug, Clone, Copy, PartialEq, Eq, Structural)]
pub enum TrayStatus {
    /// Item is passive — may be hidden.
    Passive,
    /// Item is active — show normally.
    Active,
    /// Item needs attention — show prominently.
    NeedsAttention,
}

/// The status named by a `Status` property value; any other value means `Passive`.
pub open spec fn spec_status_from_dbus(s: Seq<char>) -> TrayStatus {
    if s == "Active"@ {
        TrayStatus::Active
    } else if s == "NeedsAttention"@ {
        TrayStatus::NeedsAttention
    } else {
        TrayStatus::Passive
    }
}

/// The wire name of a status.
pub open spec fn spec_status_str(s: TrayStatus) -> Seq<char> {
    match s {
        TrayStatus::Passive => "Passive"@,
        TrayStatus::Active => "Active"@,
        TrayStatus::NeedsAttention => "NeedsAttention"@,
    }
}

impl Default for TrayStatus {
    fn default() -> (r: Self)
        ensures
            r == TrayStatus::Passive,
    {
        TrayStatus::Passive
    }
}

impl TrayStatus {
    /// Parse the string value from the `Status` D-Bus property.
    pub fn from_dbus(s: &str) -> (r: Self)
        ensures
            r == spec_status_from_dbus(s@),
    {
        if str_equal(s, "Active") {
            TrayStatus::Active
        } else if str_equal(s, "NeedsAttention") {
            TrayStatus::NeedsAttention
        } else {
            TrayStatus::Passive
        }
    }

    /// Serialize to the string form expected by IPC consumers.
    pub fn as_str(&self) -> (r: &'static str)
        ensures
            r@ == spec_status_str(*self),
    {
        match self {
            TrayStatus::Passive => "Passive",
            TrayStatus::Active => "Active",
            TrayStatus::NeedsAttention => "NeedsAttention",
        }
    }
}

/// Reading back the wire name of a status gives the same status.
pub proof fn lemma_status_round_trip(s: TrayStatus)
    ensures
        spec_status_from_dbus(spec_status_str(s)) == s,
{
    reveal_strlit("Passive");
    reveal_strlit("Active");
    reveal_strlit("NeedsAttention");
    assert("Passive"@ != "Active"@) by {
        assert("Passive"@[0] != "Active"@[0]);
    }
    assert("Passive"@.len() != "NeedsAttention"@.len());
    assert("Active"@.len() != "NeedsAttention"@.len());
}

/// A `Status` value maps to a status whose wire name is that value exactly when
/// it is `Active`, `Passive` or `NeedsAttention`.
pub proof fn lemma_status_names(s: Seq<char>)
    ensures
        spec_status_str(spec_status_from_dbus(s)) == s <==> (s == "Passive"@ || s == "Active"@ || s
            == "NeedsAttention"@),
{
    reveal_strlit("Passive");
    reveal_strlit("Active");
    reveal_strlit("NeedsAttention");
    assert("Passive"@ != "Active"@) by {
        assert("Passive"@[0] != "Active"@[0]);
    }
    assert("Passive"@.len() != "NeedsAttention"@.len());
}


// ─── Icon types ──────────────────────────────────────────────────────────────

/// A single pixmap surface at a given resolution.
///
/// Bytes are ARGB32 in big-endian byte order (as StatusNotifierItem lays them out).
#[derive(Debug)]
pub struct IconPixmap {
    pub width: i32,
    pub height: i32,
    /// Raw ARGB32 bytes.
    pub data: Vec<u8>,
}

/// Mathematical model of an [`IconPixmap`].
pub struct IconPixmapView {
    pub width: i32,
    pub height: i32,
    pub data: Seq<u8>,
}

impl View for IconPixmap {
    type V = IconPixmapView;

    open spec fn view(&self) -> IconPixmapView {
        IconPixmapView { width: self.width, height: self.height, data: self.data@ }
    }
}

/// A byte-for-byte copy of `v`.
pub fn copy_bytes(v: &Vec<u8>) -> (r: Vec<u8>)
    ensures
        r@ == v@,
{
    let r = v.clone();
    assert(r@ =~= v@);
    r
}

impl Clone for IconPixmap {
    fn clone(&self) -> (r: Self)
        ensures
            r@ == self@,
    {
        IconPixmap { width: self.width, height: self.height, data: copy_bytes(&self.data) }
    }
}

/// Raw pixmap data returned by the host's `get_pixmap`.
///
/// Bytes are ARGB32 in big-endian byte order (as StatusNotifierItem lays them out).
#[derive(Debug)]
pub struct PixmapData {
    /// Actual pixel width of the returned pixmap.
    pub width: u32,
    /// Actual pixel height of the returned pixmap.
    pub height: u32,
    /// Raw ARGB32 bytes (`width × height × 4`).
    pub data: Vec<u8>,
}

/// Mathematical model of a [`PixmapData`].
pub struct PixmapDataView {
    pub width: u32,
    pub height: u32,
    pub data: Seq<u8>,
}

impl View for PixmapData {
    type V = PixmapDataView;

    open spec fn view(&self) -> PixmapDataView {
        PixmapDataView { width: self.width, height: self.height, data: self.data@ }
    }
}

impl Clone for PixmapData {
    fn clone(&self) -> (r: Self)
        ensures
            r@ == self@,
    {
        PixmapData { width: self.width, height: self.height, data: copy_bytes(&self.data) }
    }
}

/// The views of a sequence of pixmaps.
pub open spec fn pixmap_views(v: Seq<IconPixmap>) -> Seq<IconPixmapView> {
    v.map_values(|p: IconPixmap| p@)
}

/// A copy of a list of pixmaps.
pub fn copy_pixmaps(v: &Vec<IconPixmap>) -> (r: Vec<IconPixmap>)
    ensures
        pixmap_views(r@) == pixmap_views(v@),
{
    let mut r: Vec<IconPixmap> = Vec::new();
    let mut i: usize = 0;
    while i < v.len()
        invariant
            i <= v.len(),
            pixmap_views(r@) == pixmap_views(v@.take(i as int)),
        decreases v.len() - i,
    {
        r.push(v[i].clone());
        assert(pixmap_views(v@.take(i + 1)) =~= pixmap_views(v@.take(i as int)).push(v@[i as int]@));
        assert(pixmap_views(r@) =~= pixmap_views(v@.take(i + 1)));
        i += 1;
    }
    assert(v@.take(v.len() as int) =~= v@);
    r
}

/// Icon state for a tray item: either a theme icon name, raw pixmaps, or both.
#[derive(Debug)]
pub struct IconData {
    /// XDG icon-theme icon name (`""` when only pixmaps are provided).
    pub name: String,
    /// Raw pixmap surfaces ordered by size (may be empty when `name` is set).
    pub pixmaps: Vec<IconPixmap>,
}

/// Mathematical model of an [`IconData`].
pub struct IconDataView {
    pub name: Seq<char>,
    pub pixmaps: Seq<IconPixmapView>,
}

impl View for IconData {
    type V = IconDataView;

    open spec fn view(&self) -> IconDataView {
        IconDataView { name: self.name@, pixmaps: pixmap_views(self.pixmaps@) }
    }
}

impl Clone for IconData {
    fn clone(&self) -> (r: Self)
        ensures
            r@ == self@,
    {
        IconData { name: self.name.clone(), pixmaps: copy_pixmaps(&self.pixmaps) }
    }
}

impl Default for IconData {
    fn default() -> (r: Self)
        ensures
            r@.name.len() == 0,
            r@.pixmaps.len() == 0,
    {
        IconData { name: String::new(), pixmaps: Vec::new() }
    }
}

impl IconData {
    /// `true` when there is no usable icon data.
    pub fn is_empty(&self) -> (r: bool)
        ensures
            r == (self@.name.len() == 0 && self@.pixmaps.len() == 0),
    {
        self.name.as_str().unicode_len() == 0 && self.pixmaps.len() == 0
    }

    /// Best-effort icon handle for the IPC wire: returns the theme name, or
    /// `None` when the item only has pixmap data (callers must use `get_pixmap`).
    pub fn as_handle(&self) -> (r: Option<String>)
        ensures
            r is None <==> self@.name.len() == 0,
            r matches Some(h) ==> h@ == self@.name,
    {
        if self.name.as_str().unicode_len() == 0 {
            None
        } else {
            Some(self.name.clone())
        }
    }
}


// ─── MenuNode ────────────────────────────────────────────────────────────────

/// One node in a DBusMenu tree (flattened snapshot; children fetched on demand).
#[derive(Debug)]
pub struct MenuNode {
    /// DBusMenu item id.
    pub id: i32,
    /// Display label (empty string for separators).
    pub label: String,
    /// Whether the item can be selected.
    pub enabled: bool,
    /// Whether the item should be displayed.
    pub visible: bool,
    /// Icon name if the item carries one.
    pub icon_name: String,
    /// `true` when this node represents a submenu (children not yet fetched).
    pub is_submenu: bool,
    /// Direct children (populated on demand).
    pub children: Vec<MenuNode>,
}

/// Mathematical model of a [`MenuNode`] tree.
pub struct MenuNodeView {
    pub id: i32,
    pub label: Seq<char>,
    pub enabled: bool,
    pub visible: bool,
    pub icon_name: Seq<char>,
    pub is_submenu: bool,
    pub children: Seq<MenuNodeView>,
}

/// The model of a menu node and, recursively, of its children.
pub open spec fn menu_node_view(n: MenuNode) -> MenuNodeView
    decreases n,
{
    MenuNodeView {
        id: n.id,
        label: n.label@,
        enabled: n.enabled,
        visible: n.visible,
        icon_name: n.icon_name@,
        is_submenu: n.is_submenu,
        children: Seq::new(
            n.children@.len(),
            |i: int|
                if 0 <= i < n.children@.len() {
                    menu_node_view(n.children@[i])
                } else {
                    arbitrary()
                },
        ),
    }
}


impl View for MenuNode {
    type V = MenuNodeView;

    open spec fn view(&self) -> MenuNodeView {
        menu_node_view(*self)
    }
}

// ─── TrayItem ────────────────────────────────────────────────────────────────

/// In-process snapshot of one registered SNI item.
#[derive(Debug)]
pub struct TrayItem {
    /// Stable registration id (used as the IPC `app_id`).
    pub id: ItemId,
    /// D-Bus service (bus) name.
    pub bus_name: String,
    /// D-Bus object path for the `org.kde.StatusNotifierItem` interface.
    pub object_path: String,
    /// Human-readable title.
    pub title: String,
    /// Current visibility / urgency status.
    pub status: TrayStatus,
    /// Normal icon data.
    pub icon: IconData,
    /// Attention icon data — shown when `status == NeedsAttention`.
    pub attention_icon: IconData,
    /// D-Bus object path for the associated DBusMenu object (`""` if absent).
    pub menu_path: String,
}

/// Mathematical model of a [`TrayItem`].
pub struct TrayItemView {
    pub id: Seq<char>,
    pub bus_name: Seq<char>,
    pub object_path: Seq<char>,
    pub title: Seq<char>,
    pub status: TrayStatus,
    pub icon: IconDataView,
    pub attention_icon: IconDataView,
    pub menu_path: Seq<char>,
}

impl View for TrayItem {
    type V = TrayItemView;

    open spec fn view(&self) -> TrayItemView {
        TrayItemView {
            id: self.id@,
            bus_name: self.bus_name@,
            object_path: self.object_path@,
            title: self.title@,
            status: self.status,
            icon: self.icon@,
            attention_icon: self.attention_icon@,
            menu_path: self.menu_path@,
        }
    }
}

impl Clone for TrayItem {
    fn clone(&self) -> (r: Self)
        ensures
            r@ == self@,
    {
        TrayItem {
            id: self.id.clone(),
            bus_name: self.bus_name.clone(),
            object_path: self.object_path.clone(),
            title: self.title.clone(),
            status: self.status,
            icon: self.icon.clone(),
            attention_icon: self.attention_icon.clone(),
            menu_path: self.menu_path.clone(),
        }
    }
}

// ─── HostEvent ───────────────────────────────────────────────────────────────

/// Events broadcast from the tray host to IPC subscribers.
#[derive(Debug)]
pub enum HostEvent {
    /// A new item was registered and its properties fetched.
    ItemAdded(TrayItem),
    /// An item's title, status, or icon was updated.
    ItemChanged(TrayItem),
    /// An item's bus name disappeared (app exited or unregistered).
    ItemRemoved(ItemId),
}

/// Mathematical model of a [`HostEvent`].
pub enum HostEventView {
    ItemAdded(TrayItemView),
    ItemChanged(TrayItemView),
    ItemRemoved(Seq<char>),
}

impl View for HostEvent {
    type V = HostEventView;

    open spec fn view(&self) -> HostEventView {
        match self {
            HostEvent::ItemAdded(i) => HostEventView::ItemAdded(i@),
            HostEvent::ItemChanged(i) => HostEventView::ItemChanged(i@),
            HostEvent::ItemRemoved(id) => HostEventView::ItemRemoved(id@),
        }
    }
}

impl Clone for HostEvent {
    fn clone(&self) -> (r: Self)
        ensures
            r@ == self@,
    {
        match self {
            HostEvent::ItemAdded(i) => HostEvent::ItemAdded(i.clone()),
            HostEvent::ItemChanged(i) => HostEvent::ItemChanged(i.clone()),
            HostEvent::ItemRemoved(id) => HostEvent::ItemRemoved(id.clone()),
        }
    }
}

} // verus!
