//! Registration logic of the `org.kde.StatusNotifierWatcher` service: how a
//! registration string names an item, and which items and hosts are known.

use vstd::prelude::*;

use crate::model::ItemId;
use crate::text::{find_char, str_equal, views, lemma_find_char, spec_find_char, starts_with_char};

verus! {

/// Object path used when a registration names only a bus.
pub open spec fn default_item_path() -> Seq<char> {
    "/StatusNotifierItem"@
}

/// `(bus_name, object_path)` named by a raw SNI registration string.
///
/// | Input                            | bus_name            | object_path              |
/// |----------------------------------|---------------------|--------------------------|
/// | `"com.example.App"`              | `"com.example.App"` | `"/StatusNotifierItem"`  |
/// | `"/StatusNotifierItem"`          | `<sender>`          | `"/StatusNotifierItem"`  |
/// | `"com.example.App/SomePath"`     | `"com.example.App"` | `"/SomePath"`            |
pub open spec fn spec_parse_service(sender: Seq<char>, service: Seq<char>) -> (Seq<char>, Seq<char>) {
    if service.len() > 0 && service[0] == '/' {
        (sender, service)
    } else {
        match spec_find_char(service, '/') {
            Some(i) => (service.take(i), service.skip(i)),
            None => (service, default_item_path()),
        }
    }
}

/// Split a raw SNI service registration string into `(bus_name, object_path)`.
pub fn parse_service(sender: &str, service: &str) -> (r: (String, String))
    ensures
        (r.0@, r.1@) == spec_parse_service(sender@, service@),
{
    if starts_with_char(service, '/') {
        (String::from_str(sender), String::from_str(service))
    } else {
        match find_char(service, '/') {
            Some(slash) => {
                proof {
                    lemma_find_char(service@, '/');
                }
                let n = service.unicode_len();
                let bus = String::from_str(service.substring_char(0, slash));
                let path = String::from_str(service.substring_char(slash, n));
                assert(bus@ =~= service@.take(slash as int));
                assert(path@ =~= service@.skip(slash as int));
                (bus, path)
            },
            None => (String::from_str(service), String::from_str("/StatusNotifierItem")),
        }
    }
}

/// Every parsed registration yields an object path that starts with `/`, and
/// unless only a path was registered, the bus name holds no `/` and the two
/// parts put back together give the registration string when it held a `/`.
pub proof fn lemma_parse_service_shape(sender: Seq<char>, service: Seq<char>)
    ensures
        ({
            let (bus, path) = spec_parse_service(sender, service);
            &&& path.len() > 0 && path[0] == '/'
            &&& !(service.len() > 0 && service[0] == '/') ==> !bus.contains('/')
            &&& !(service.len() > 0 && service[0] == '/') && service.contains('/') ==> bus + path
                == service
        }),
{
    reveal_strlit("/StatusNotifierItem");
    lemma_find_char(service, '/');
    let (bus, path) = spec_parse_service(sender, service);
    if !(service.len() > 0 && service[0] == '/') {
        match spec_find_char(service, '/') {
            Some(i) => {
                assert(path[0] == service[i]);
                assert forall|k: int| 0 <= k < bus.len() implies bus[k] != '/' by {
                    assert(bus[k] == service[k]);
                }
                assert(bus + path =~= service);
            },
            None => {
                assert forall|k: int| 0 <= k < bus.len() implies bus[k] != '/' by {}
                if service.contains('/') {
                    let k = choose|k: int| 0 <= k < service.len() && service[k] == '/';
                    assert(service[k] != '/');
                }
            },
        }
    }
}

// ─── WatcherMsg ──────────────────────────────────────────────────────────────

/// Message sent from the watcher D-Bus object to the host background loop.
#[derive(Debug)]
pub enum WatcherMsg {
    /// An app called `RegisterStatusNotifierItem`.
    ItemRegistered {
        /// Normalised service id stored in `RegisteredStatusNotifierItems`.
        service_id: String,
        /// Extracted D-Bus bus name.
        bus_name: String,
        /// Extracted D-Bus object path.
        object_path: String,
    },
}


/// Mathematical model of a [`WatcherMsg`].
pub enum WatcherMsgView {
    ItemRegistered { service_id: Seq<char>, bus_name: Seq<char>, object_path: Seq<char> },
}

impl View for WatcherMsg {
    type V = WatcherMsgView;

    open spec fn view(&self) -> WatcherMsgView {
        match self {
            WatcherMsg::ItemRegistered { service_id, bus_name, object_path } => {
                WatcherMsgView::ItemRegistered {
                    service_id: service_id@,
                    bus_name: bus_name@,
                    object_path: object_path@,
                }
            },
        }
    }
}

// ─── Registry ────────────────────────────────────────────────────────────────

/// Canonical id of a registration: sender and path when only a path was given,
/// else the raw service string.
pub open spec fn spec_service_id(sender: Seq<char>, service: Seq<char>) -> Seq<char> {
    if service.len() > 0 && service[0] == '/' {
        sender + service
    } else {
        service
    }
}

/// Id under which a host registers: the service string, or the sender when it is empty.
pub open spec fn spec_host_id(sender: Seq<char>, service: Seq<char>) -> Seq<char> {
    if service.len() == 0 {
        sender
    } else {
        service
    }
}

/// The registered items and hosts behind the watcher's D-Bus properties
/// `RegisteredStatusNotifierItems` and `RegisteredStatusNotifierHosts`.
pub struct WatcherState {
    items: Vec<String>,
    hosts: Vec<String>,
}

/// Mathematical model of a [`WatcherState`]: both lists in registration order.
pub struct WatcherStateView {
    pub items: Seq<Seq<char>>,
    pub hosts: Seq<Seq<char>>,
}

impl View for WatcherState {
    type V = WatcherStateView;

    closed spec fn view(&self) -> WatcherStateView {
        WatcherStateView { items: views(self.items@), hosts: views(self.hosts@) }
    }
}

/// The model of an optional watcher message.
pub open spec fn msg_view(m: Option<WatcherMsg>) -> Option<WatcherMsgView> {
    match m {
        Some(m) => Some(m@),
        None => None,
    }
}

/// Registry and message after `sender` registers `service`.
pub open spec fn spec_register_item(s: WatcherStateView, sender: Seq<char>, service: Seq<char>) -> (
    WatcherStateView,
    Option<WatcherMsgView>,
) {
    let id = spec_service_id(sender, service);
    let (bus, path) = spec_parse_service(sender, service);
    if s.items.contains(id) {
        (s, None)
    } else {
        (
            WatcherStateView { items: s.items.push(id), hosts: s.hosts },
            Some(WatcherMsgView::ItemRegistered { service_id: id, bus_name: bus, object_path: path }),
        )
    }
}

/// Registry after removing every item whose id is in `ids`.
pub open spec fn spec_unregister_items(s: WatcherStateView, ids: Seq<Seq<char>>) -> WatcherStateView {
    WatcherStateView { items: s.items.filter(|x: Seq<char>| !ids.contains(x)), hosts: s.hosts }
}

/// Registering the same service twice announces it once: the second
/// registration changes nothing and sends no message.
pub proof fn lemma_register_item_idempotent(s: WatcherStateView, sender: Seq<char>, service: Seq<char>)
    ensures
        ({
            let first = spec_register_item(s, sender, service);
            spec_register_item(first.0, sender, service) == (first.0, None::<WatcherMsgView>)
        }),
{
    let id = spec_service_id(sender, service);
    if !s.items.contains(id) {
        assert(s.items.push(id)[s.items.len() as int] == id);
    }
}

/// After its items are unregistered, a registry no longer lists them, and a
/// later registration of one of them is announced again.
pub proof fn lemma_unregister_then_register(s: WatcherStateView, ids: Seq<Seq<char>>, sender: Seq<char>, service: Seq<char>)
    requires
        ids.contains(spec_service_id(sender, service)),
    ensures
        !spec_unregister_items(s, ids).items.contains(spec_service_id(sender, service)),
        spec_register_item(spec_unregister_items(s, ids), sender, service).1 is Some,
{
    broadcast use vstd::seq_lib::group_filter_ensures;
    let id = spec_service_id(sender, service);
    let pred = |x: Seq<char>| !ids.contains(x);
    if s.items.filter(pred).contains(id) {
        let k = choose|k: int| 0 <= k < s.items.filter(pred).len() && s.items.filter(pred)[k] == id;
        assert(pred(s.items.filter(pred)[k]));
    }
}

/// The models of a list of item ids.
pub open spec fn id_views(ids: Seq<ItemId>) -> Seq<Seq<char>> {
    ids.map_values(|i: ItemId| i@)
}

/// Whether one of `ids` is `s`.
pub fn ids_contain(ids: &Vec<ItemId>, s: &str) -> (r: bool)
    ensures
        r == id_views(ids@).contains(s@),
{
    let mut i: usize = 0;
    while i < ids.len()
        invariant
            i <= ids@.len(),
            forall|j: int| 0 <= j < i ==> ids@[j]@ != s@,
        decreases ids.len() - i,
    {
        if str_equal(ids[i].as_str(), s) {
            assert(id_views(ids@)[i as int] == s@);
            return true;
        }
        i += 1;
    }
    proof {
        if id_views(ids@).contains(s@) {
            let k = choose|k: int| 0 <= k < id_views(ids@).len() && id_views(ids@)[k] == s@;
            assert(ids@[k]@ == s@);
        }
    }
    false
}

/// Position of `s` among the strings of `v`, if present.
pub fn position_of(v: &Vec<String>, s: &str) -> (r: Option<usize>)
    ensures
        r matches Some(i) ==> i < v@.len() && v@[i as int]@ == s@,
        r is None <==> !views(v@).contains(s@),
{
    let mut i: usize = 0;
    while i < v.len()
        invariant
            i <= v@.len(),
            forall|j: int| 0 <= j < i ==> v@[j]@ != s@,
        decreases v.len() - i,
    {
        if str_equal(v[i].as_str(), s) {
            assert(views(v@)[i as int] == s@);
            return Some(i);
        }
        i += 1;
    }
    proof {
        if views(v@).contains(s@) {
            let k = choose|k: int| 0 <= k < views(v@).len() && views(v@)[k] == s@;
            assert(v@[k]@ == s@);
        }
    }
    None
}

impl WatcherState {
    /// Both lists without duplicates, and no empty host id.
    pub closed spec fn wf(&self) -> bool {
        &&& views(self.items@).no_duplicates()
        &&& views(self.hosts@).no_duplicates()
        &&& forall|i: int| 0 <= i < self.hosts@.len() ==> self.hosts@[i]@.len() > 0
    }

    /// A registry with no items and no hosts.
    pub fn new() -> (r: Self)
        ensures
            r.wf(),
            r@.items.len() == 0,
            r@.hosts.len() == 0,
    {
        let r = WatcherState { items: Vec::new(), hosts: Vec::new() };
        assert(views(r.items@) =~= Seq::empty());
        assert(views(r.hosts@) =~= Seq::empty());
        r
    }

    /// Handles `RegisterStatusNotifierItem(service)` sent by `sender`.
    ///
    /// A new id is appended and announced with the message for the host; an id
    /// already known leaves the registry as it was and announces nothing.
    pub fn register_item(&mut self, sender: &str, service: &str) -> (r: Option<WatcherMsg>)
        requires
            old(self).wf(),
        ensures
            final(self).wf(),
            (final(self)@, msg_view(r)) == spec_register_item(old(self)@, sender@, service@),
    {
        let service_id = if starts_with_char(service, '/') {
            String::from_str(sender).concat(service)
        } else {
            String::from_str(service)
        };
        match position_of(&self.items, service_id.as_str()) {
            Some(_) => None,
            None => {
                let (bus_name, object_path) = parse_service(sender, service);
                let ghost before = self.items@;
                self.items.push(service_id.clone());
                assert(views(self.items@) =~= views(before).push(service_id@));
                Some(WatcherMsg::ItemRegistered { service_id, bus_name, object_path })
            },
        }
    }

    /// Handles `RegisterStatusNotifierHost(service)` sent by `sender`: records
    /// the host id unless it is empty or already known.
    pub fn register_host(&mut self, sender: &str, service: &str)
        requires
            old(self).wf(),
        ensures
            final(self).wf(),
            final(self)@.items == old(self)@.items,
            ({
                let id = spec_host_id(sender@, service@);
                if id.len() == 0 || old(self)@.hosts.contains(id) {
                    final(self)@.hosts == old(self)@.hosts
                } else {
                    final(self)@.hosts == old(self)@.hosts.push(id)
                }
            }),
    {
        let host_id = if service.unicode_len() == 0 {
            String::from_str(sender)
        } else {
            String::from_str(service)
        };
        if host_id.as_str().unicode_len() > 0 {
            if position_of(&self.hosts, host_id.as_str()).is_none() {
                let ghost before = self.hosts@;
                self.hosts.push(host_id);
                assert(views(self.hosts@) =~= views(before).push(host_id@));
            }
        }
    }

    /// Drops every registered item whose id is in `ids`, keeping the others in order.
    pub fn unregister_items(&mut self, ids: &Vec<ItemId>)
        requires
            old(self).wf(),
        ensures
            final(self).wf(),
            final(self)@ == spec_unregister_items(old(self)@, id_views(ids@)),
    {
        broadcast use vstd::seq_lib::group_filter_ensures;
        let ghost pred = |x: Seq<char>| !id_views(ids@).contains(x);
        let mut keep: Vec<String> = Vec::new();
        let mut i: usize = 0;
        while i < self.items.len()
            invariant
                i <= self.items@.len(),
                views(self.items@).no_duplicates(),
                pred == (|x: Seq<char>| !id_views(ids@).contains(x)),
                views(keep@) == views(self.items@.take(i as int)).filter(pred),
                views(keep@).no_duplicates(),
                forall|k: int|
                    0 <= k < keep@.len() ==> views(self.items@.take(i as int)).contains(
                        #[trigger] keep@[k]@,
                    ),
            decreases self.items.len() - i,
        {
            let ghost prefix = views(self.items@.take(i as int));
            assert(views(self.items@.take(i + 1)) =~= prefix.push(self.items@[i as int]@));
            proof {
                prefix.lemma_filter_push(self.items@[i as int]@, pred);
            }
            if !ids_contain(ids, self.items[i].as_str()) {
                let ghost before = keep@;
                proof {
                    if views(before).contains(self.items@[i as int]@) {
                        let k = choose|k: int|
                            0 <= k < views(before).len() && views(before)[k] == self.items@[i
                                as int]@;
                        assert(prefix.contains(before[k]@));
                        let j = choose|j: int| 0 <= j < prefix.len() && prefix[j] == before[k]@;
                        assert(views(self.items@)[j] == views(self.items@)[i as int]);
                    }
                }
                keep.push(self.items[i].clone());
                assert(views(keep@) =~= views(before).push(self.items@[i as int]@));
                assert forall|k: int|
                    0 <= k < keep@.len() implies views(self.items@.take(i + 1)).contains(
                    #[trigger] keep@[k]@) by {
                    if k < before.len() {
                        assert(keep@[k] == before[k]);
                        assert(prefix.contains(before[k]@));
                        let j = choose|j: int| 0 <= j < prefix.len() && prefix[j] == before[k]@;
                        assert(prefix.push(self.items@[i as int]@)[j] == prefix[j]);
                        assert(views(self.items@.take(i + 1))[j] == keep@[k]@);
                    } else {
                        assert(views(self.items@.take(i + 1))[i as int] == keep@[k]@);
                    }
                }
            } else {
                assert forall|k: int|
                    0 <= k < keep@.len() implies views(self.items@.take(i + 1)).contains(
                    #[trigger] keep@[k]@) by {
                    assert(prefix.contains(keep@[k]@));
                    let j = choose|j: int| 0 <= j < prefix.len() && prefix[j] == keep@[k]@;
                    assert(prefix.push(self.items@[i as int]@)[j] == prefix[j]);
                    assert(views(self.items@.take(i + 1))[j] == keep@[k]@);
                    assert(0 <= j < views(self.items@.take(i + 1)).len());
                }
            }
            i += 1;
        }
        assert(self.items@.take(self.items@.len() as int) =~= self.items@);
        self.items = keep;
    }

    /// The ids of all registered items, in registration order.
    pub fn registered_items(&self) -> (r: Vec<String>)
        ensures
            views(r@) == self@.items,
    {
        clone_strings(&self.items)
    }

    /// The ids of all registered hosts, in registration order.
    pub fn registered_hosts(&self) -> (r: Vec<String>)
        ensures
            views(r@) == self@.hosts,
    {
        clone_strings(&self.hosts)
    }
}

/// A copy of a list of strings.
pub fn clone_strings(v: &Vec<String>) -> (r: Vec<String>)
    ensures
        views(r@) == views(v@),
{
    let mut r: Vec<String> = Vec::new();
    let mut i: usize = 0;
    while i < v.len()
        invariant
            i <= v@.len(),
            views(r@) == views(v@.take(i as int)),
        decreases v.len() - i,
    {
        let ghost before = r@;
        r.push(v[i].clone());
        assert(views(r@) =~= views(before).push(v@[i as int]@));
        assert(views(v@.take(i + 1)) =~= views(v@.take(i as int)).push(v@[i as int]@));
        i += 1;
    }
    assert(v@.take(v@.len() as int) =~= v@);
    r
}

} // verus!
