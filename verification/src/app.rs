//! State machine of the terminal tray UI: the item list, the stack of open
//! menu levels, cursor movement, and what a key or a selection does.

use vstd::prelude::*;
use vstd::view::View as _;

use crate::ipc::{
    MenuItem, MenuItemView, MinimalTrayItem, MinimalTrayItemView, menu_item_views,
    tray_item_views,
};

verus! {

/// One open menu level: its rows and the highlighted row.
#[derive(Debug)]
pub struct MenuLevel {
    pub submenu_id: Option<u32>,
    pub items: Vec<MenuItem>,
    pub cursor: usize,
}

/// Mathematical model of a [`MenuLevel`].
pub struct MenuLevelView {
    pub submenu_id: Option<u32>,
    pub items: Seq<MenuItemView>,
    pub cursor: usize,
}

impl vstd::view::View for MenuLevel {
    type V = MenuLevelView;

    open spec fn view(&self) -> MenuLevelView {
        MenuLevelView {
            submenu_id: self.submenu_id,
            items: menu_item_views(self.items@),
            cursor: self.cursor,
        }
    }
}

/// The models of a stack of menu levels.
pub open spec fn level_views(v: Seq<MenuLevel>) -> Seq<MenuLevelView> {
    v.map_values(|l: MenuLevel| l@)
}

/// What the UI shows.
#[derive(Debug)]
pub enum View {
    /// The list of tray items.
    Items,
    /// The menu of one app, innermost level last.
    Menu { app_id: String, stack: Vec<MenuLevel> },
}

/// Mathematical model of a [`View`].
pub enum ScreenView {
    Items,
    Menu { app_id: Seq<char>, stack: Seq<MenuLevelView> },
}

impl vstd::view::View for View {
    type V = ScreenView;

    open spec fn view(&self) -> ScreenView {
        match self {
            View::Items => ScreenView::Items,
            View::Menu { app_id, stack } => ScreenView::Menu {
                app_id: app_id@,
                stack: level_views(stack@),
            },
        }
    }
}

/// What selecting the highlighted row asks for.
#[derive(Debug)]
pub enum Action {
    /// Open the menu of this app.
    OpenMenu(String),
    /// Open a submenu of this app.
    OpenSubmenu { app_id: String, item_id: u32 },
    /// Activate a menu row of this app.
    Activate { app_id: String, item_id: u32 },
    /// Nothing is highlighted.
    Nothing,
}

/// Mathematical model of an [`Action`].
pub enum ActionView {
    OpenMenu(Seq<char>),
    OpenSubmenu { app_id: Seq<char>, item_id: u32 },
    Activate { app_id: Seq<char>, item_id: u32 },
    Nothing,
}

impl vstd::view::View for Action {
    type V = ActionView;

    open spec fn view(&self) -> ActionView {
        match self {
            Action::OpenMenu(a) => ActionView::OpenMenu(a@),
            Action::OpenSubmenu { app_id, item_id } => ActionView::OpenSubmenu {
                app_id: app_id@,
                item_id: *item_id,
            },
            Action::Activate { app_id, item_id } => ActionView::Activate {
                app_id: app_id@,
                item_id: *item_id,
            },
            Action::Nothing => ActionView::Nothing,
        }
    }
}

/// The terminal UI's state.
pub struct App {
    pub socket_path: String,
    pub tray_items: Vec<MinimalTrayItem>,
    pub items_cursor: usize,
    pub view: View,
    pub status_msg: Option<String>,
}

/// Mathematical model of an [`App`].
pub struct AppView {
    pub socket_path: Seq<char>,
    pub tray_items: Seq<MinimalTrayItemView>,
    pub items_cursor: usize,
    pub view: ScreenView,
    pub status_msg: Option<Seq<char>>,
}

impl vstd::view::View for App {
    type V = AppView;

    open spec fn view(&self) -> AppView {
        AppView {
            socket_path: self.socket_path@,
            tray_items: tray_item_views(self.tray_items@),
            items_cursor: self.items_cursor,
            view: self.view@,
            status_msg: match self.status_msg {
                Some(m) => Some(m@),
                None => None,
            },
        }
    }
}

// ─── Transitions ─────────────────────────────────────────────────────────────

/// `n - 1`, or `0` when `n` is `0`.
pub open spec fn dec(n: usize) -> usize {
    if n > 0 {
        (n - 1) as usize
    } else {
        0
    }
}

/// `n + 1` when that stays below `len`, else `n`.
pub open spec fn inc_below(n: usize, len: nat) -> usize {
    if n + 1 < len {
        (n + 1) as usize
    } else {
        n
    }
}

/// The innermost level with its cursor replaced by `f(cursor, row count)`.
pub open spec fn with_last_cursor(stack: Seq<MenuLevelView>, c: usize) -> Seq<MenuLevelView> {
    stack.update(stack.len() - 1, MenuLevelView { cursor: c, ..stack.last() })
}

/// The state after moving the highlight up one row.
pub open spec fn spec_move_up(a: AppView) -> AppView {
    match a.view {
        ScreenView::Items => AppView { items_cursor: dec(a.items_cursor), ..a },
        ScreenView::Menu { app_id, stack } => if stack.len() > 0 {
            AppView {
                view: ScreenView::Menu {
                    app_id,
                    stack: with_last_cursor(stack, dec(stack.last().cursor)),
                },
                ..a
            }
        } else {
            a
        },
    }
}

/// The state after moving the highlight down one row (it stays on the last row).
pub open spec fn spec_move_down(a: AppView) -> AppView {
    match a.view {
        ScreenView::Items => AppView {
            items_cursor: inc_below(a.items_cursor, a.tray_items.len()),
            ..a
        },
        ScreenView::Menu { app_id, stack } => if stack.len() > 0 {
            AppView {
                view: ScreenView::Menu {
                    app_id,
                    stack: with_last_cursor(
                        stack,
                        inc_below(stack.last().cursor, stack.last().items.len()),
                    ),
                },
                ..a
            }
        } else {
            a
        },
    }
}

/// The state after going back one menu level (to the item list from the outermost level).
pub open spec fn spec_go_back(a: AppView) -> AppView {
    match a.view {
        ScreenView::Items => a,
        ScreenView::Menu { app_id, stack } => if stack.len() <= 1 {
            AppView { view: ScreenView::Items, ..a }
        } else {
            AppView { view: ScreenView::Menu { app_id, stack: stack.drop_last() }, ..a }
        },
    }
}

/// What selecting the highlighted row asks for.
pub open spec fn spec_action(a: AppView) -> ActionView {
    match a.view {
        ScreenView::Items => if a.items_cursor < a.tray_items.len() {
            ActionView::OpenMenu(a.tray_items[a.items_cursor as int].app_id)
        } else {
            ActionView::Nothing
        },
        ScreenView::Menu { app_id, stack } => if stack.len() == 0 {
            ActionView::Nothing
        } else if stack.last().cursor < stack.last().items.len() {
            let item = stack.last().items[stack.last().cursor as int];
            if item.is_submenu {
                ActionView::OpenSubmenu { app_id, item_id: item.item_id }
            } else {
                ActionView::Activate { app_id, item_id: item.item_id }
            }
        } else {
            ActionView::Nothing
        },
    }
}


// ─── App ─────────────────────────────────────────────────────────────────────

/// Replaces the cursor of the innermost level.
fn set_last_cursor(stack: &mut Vec<MenuLevel>, c: usize)
    requires
        old(stack)@.len() > 0,
    ensures
        level_views(final(stack)@) == with_last_cursor(level_views(old(stack)@), c),
{
    let ghost before = stack@;
    let mut level = stack.pop().unwrap();
    level.cursor = c;
    stack.push(level);
    assert(level_views(stack@) =~= with_last_cursor(level_views(before), c));
}

impl App {
    /// The UI on the item list, with the first item highlighted.
    pub fn new(socket_path: String, initial_items: Vec<MinimalTrayItem>) -> (r: App)
        ensures
            r@ == (AppView {
                socket_path: socket_path@,
                tray_items: tray_item_views(initial_items@),
                items_cursor: 0,
                view: ScreenView::Items,
                status_msg: None,
            }),
    {
        App {
            socket_path,
            tray_items: initial_items,
            items_cursor: 0,
            view: View::Items,
            status_msg: None,
        }
    }

    /// Move the highlight up one row.
    pub fn move_up(&mut self)
        ensures
            final(self)@ == spec_move_up(old(self)@),
    {
        match &mut self.view {
            View::Items => {
                if self.items_cursor > 0 {
                    self.items_cursor = self.items_cursor - 1;
                }
            },
            View::Menu { stack, .. } => {
                let n = stack.len();
                if n > 0 {
                    let c = stack[n - 1].cursor;
                    let c2 = if c > 0 {
                        c - 1
                    } else {
                        0
                    };
                    set_last_cursor(stack, c2);
                }
            },
        }
    }

    /// Move the highlight down one row; it stays on the last row.
    pub fn move_down(&mut self)
        ensures
            final(self)@ == spec_move_down(old(self)@),
    {
        match &mut self.view {
            View::Items => {
                let len = self.tray_items.len();
                if self.items_cursor < usize::MAX && self.items_cursor + 1 < len {
                    self.items_cursor = self.items_cursor + 1;
                }
                assert(self.tray_items@.len() == len);
            },
            View::Menu { stack, .. } => {
                let n = stack.len();
                if n > 0 {
                    let c = stack[n - 1].cursor;
                    let len = stack[n - 1].items.len();
                    let c2 = if c < usize::MAX && c + 1 < len {
                        c + 1
                    } else {
                        c
                    };
                    set_last_cursor(stack, c2);
                }
            },
        }
    }

    /// Go back one menu level; from the outermost level, back to the item list.
    pub fn go_back(&mut self)
        ensures
            final(self)@ == spec_go_back(old(self)@),
    {
        let should_switch = match &mut self.view {
            View::Items => {
                return ;
            },
            View::Menu { stack, .. } => {
                let ghost before = stack@;
                let _ = stack.pop();
                proof {
                    if before.len() > 0 {
                        assert(level_views(stack@) =~= level_views(before).drop_last());
                    }
                }
                stack.len() == 0
            },
        };
        if should_switch {
            self.view = View::Items;
        }
    }

    /// What selecting the highlighted row asks for.
    pub fn compute_action(&self) -> (r: Action)
        ensures
            r@ == spec_action(self@),
    {
        match &self.view {
            View::Items => {
                if self.items_cursor < self.tray_items.len() {
                    Action::OpenMenu(self.tray_items[self.items_cursor].app_id.clone())
                } else {
                    Action::Nothing
                }
            },
            View::Menu { app_id, stack } => {
                let n = stack.len();
                if n == 0 {
                    return Action::Nothing;
                }
                let level = &stack[n - 1];
                if level.cursor >= level.items.len() {
                    return Action::Nothing;
                }
                let item = &level.items[level.cursor];
                if item.is_submenu {
                    Action::OpenSubmenu { app_id: app_id.clone(), item_id: item.item_id }
                } else {
                    Action::Activate { app_id: app_id.clone(), item_id: item.item_id }
                }
            },
        }
    }
}


// ─── Keys ────────────────────────────────────────────────────────────────────

/// A key the UI reacts to.
#[derive(Debug, Clone, Copy, PartialEq, Eq, Structural)]
pub enum Key {
    Char(char),
    Up,
    Down,
    Enter,
    Esc,
    Other,
}

/// A key press: the key and whether Control was held.
#[derive(Debug, Clone, Copy, PartialEq, Eq, Structural)]
pub struct KeyPress {
    pub key: Key,
    pub ctrl: bool,
}

/// What the event loop does after a key press.
#[derive(Debug, Clone, Copy, PartialEq, Eq, Structural)]
pub enum KeyOutcome {
    /// Leave the UI.
    Quit,
    /// Keep running.
    Continue,
    /// Carry out [`App::compute_action`], then keep running.
    Select,
}

/// The state and outcome after a key press. The status message is cleared first.
pub open spec fn spec_handle_key(a: AppView, k: KeyPress) -> (AppView, KeyOutcome) {
    let a0 = AppView { status_msg: None, ..a };
    match k.key {
        Key::Char('q') => (a0, KeyOutcome::Quit),
        Key::Char('c') if k.ctrl => (a0, KeyOutcome::Quit),
        Key::Esc => (spec_go_back(a0), KeyOutcome::Continue),
        Key::Up | Key::Char('k') => (spec_move_up(a0), KeyOutcome::Continue),
        Key::Down | Key::Char('j') => (spec_move_down(a0), KeyOutcome::Continue),
        Key::Enter | Key::Char(' ') => (a0, KeyOutcome::Select),
        _ => (a0, KeyOutcome::Continue),
    }
}

/// The state after the tray pushed a new item list: the highlight moves to
/// the last item when it was past the end.
pub open spec fn spec_tray_update(a: AppView, items: Seq<MinimalTrayItemView>) -> AppView {
    AppView {
        tray_items: items,
        items_cursor: if a.items_cursor >= items.len() {
            if items.len() > 0 {
                (items.len() - 1) as usize
            } else {
                0
            }
        } else {
            a.items_cursor
        },
        ..a
    }
}

/// The state after the menu of `app_id` was opened with rows `items`.
pub open spec fn spec_open_menu(a: AppView, app_id: Seq<char>, items: Seq<MenuItemView>) -> AppView {
    AppView {
        view: ScreenView::Menu {
            app_id,
            stack: seq![MenuLevelView { submenu_id: None, items, cursor: 0 }],
        },
        ..a
    }
}

/// The state after submenu `item_id` was opened with rows `items` (only in a menu).
pub open spec fn spec_open_submenu(a: AppView, item_id: u32, items: Seq<MenuItemView>) -> AppView {
    match a.view {
        ScreenView::Menu { app_id, stack } => AppView {
            view: ScreenView::Menu {
                app_id,
                stack: stack.push(MenuLevelView { submenu_id: Some(item_id), items, cursor: 0 }),
            },
            ..a
        },
        ScreenView::Items => a,
    }
}

impl App {
    /// Handle a key press; says whether to quit, go on, or carry out the selection.
    pub fn handle_key(&mut self, key: KeyPress) -> (r: KeyOutcome)
        ensures
            (final(self)@, r) == spec_handle_key(old(self)@, key),
    {
        self.status_msg = None;
        match key.key {
            Key::Char('q') => KeyOutcome::Quit,
            Key::Char('c') if key.ctrl => KeyOutcome::Quit,
            Key::Esc => {
                self.go_back();
                KeyOutcome::Continue
            },
            Key::Up | Key::Char('k') => {
                self.move_up();
                KeyOutcome::Continue
            },
            Key::Down | Key::Char('j') => {
                self.move_down();
                KeyOutcome::Continue
            },
            Key::Enter | Key::Char(' ') => KeyOutcome::Select,
            _ => KeyOutcome::Continue,
        }
    }

    /// Take the item list the tray pushed; a highlight past the end moves to the last item.
    pub fn apply_tray_update(&mut self, items: Vec<MinimalTrayItem>)
        ensures
            final(self)@ == spec_tray_update(old(self)@, tray_item_views(items@)),
    {
        self.tray_items = items;
        if self.items_cursor >= self.tray_items.len() {
            self.items_cursor = if self.tray_items.len() > 0 {
                self.tray_items.len() - 1
            } else {
                0
            };
        }
    }

    /// Show the menu of `app_id`, read as `items`, with its first row highlighted.
    pub fn open_menu(&mut self, app_id: String, items: Vec<MenuItem>)
        ensures
            final(self)@ == spec_open_menu(old(self)@, app_id@, menu_item_views(items@)),
    {
        let mut stack: Vec<MenuLevel> = Vec::new();
        stack.push(MenuLevel { submenu_id: None, items, cursor: 0 });
        let ghost lv = stack@;
        self.view = View::Menu { app_id, stack };
        assert(level_views(lv) =~= seq![
            MenuLevelView { submenu_id: None, items: menu_item_views(items@), cursor: 0 },
        ]);
    }

    /// Open submenu `item_id`, read as `items`, on top of the current menu.
    pub fn open_submenu(&mut self, item_id: u32, items: Vec<MenuItem>)
        ensures
            final(self)@ == spec_open_submenu(old(self)@, item_id, menu_item_views(items@)),
    {
        match &mut self.view {
            View::Menu { stack, .. } => {
                let ghost before = stack@;
                stack.push(MenuLevel { submenu_id: Some(item_id), items, cursor: 0 });
                assert(level_views(stack@) =~= level_views(before).push(
                    MenuLevelView { submenu_id: Some(item_id), items: menu_item_views(items@), cursor: 0 },
                ));
            },
            View::Items => {},
        }
    }

    /// Back to the item list after an activation.
    pub fn activated(&mut self)
        ensures
            final(self)@ == (AppView { view: ScreenView::Items, ..old(self)@ }),
    {
        self.view = View::Items;
    }

    /// Report a failed selection in the status line as `"Error: <reason>"`.
    pub fn select_failed(&mut self, reason: &str)
        ensures
            final(self)@ == (AppView { status_msg: Some("Error: "@ + reason@), ..old(self)@ }),
    {
        self.status_msg = Some(String::from_str("Error: ").concat(reason));
    }
}

// ─── Cursor bounds ───────────────────────────────────────────────────────────

/// A highlight on a row of a list of `len` rows (or `0` on an empty list).
pub open spec fn cursor_ok(c: usize, len: nat) -> bool {
    (len == 0 && c == 0) || c < len
}

/// Every highlight is on a row, and a menu view has at least one level.
pub open spec fn cursors_ok(a: AppView) -> bool {
    &&& cursor_ok(a.items_cursor, a.tray_items.len())
    &&& match a.view {
        ScreenView::Items => true,
        ScreenView::Menu { stack, .. } => stack.len() > 0 && forall|i: int|
            0 <= i < stack.len() ==> cursor_ok(#[trigger] stack[i].cursor, stack[i].items.len()),
    }
}

/// Moving and going back keep every highlight on a row.
proof fn lemma_moves_keep_cursors(a: AppView)
    requires
        cursors_ok(a),
    ensures
        cursors_ok(spec_move_up(a)),
        cursors_ok(spec_move_down(a)),
        cursors_ok(spec_go_back(a)),
{
    match a.view {
        ScreenView::Items => {},
        ScreenView::Menu { app_id: id, stack } => {
            let n = stack.len() - 1;
            let up = with_last_cursor(stack, dec(stack.last().cursor));
            assert forall|i: int| 0 <= i < up.len() implies cursor_ok(#[trigger] up[i].cursor, up[i].items.len()) by {
                if i != n {
                    assert(up[i] == stack[i]);
                }
            }
            let down = with_last_cursor(stack, inc_below(stack.last().cursor, stack.last().items.len()));
            assert forall|i: int| 0 <= i < down.len() implies cursor_ok(#[trigger] down[i].cursor, down[i].items.len()) by {
                if i != n {
                    assert(down[i] == stack[i]);
                }
            }
            let back = stack.drop_last();
            assert forall|i: int| 0 <= i < back.len() implies cursor_ok(#[trigger] back[i].cursor, back[i].items.len()) by {
                assert(back[i] == stack[i]);
            }
        },
    }
}

/// Moving, going back, opening menus and taking tray updates keep every
/// highlight on a row.
pub proof fn lemma_transitions_keep_cursors(
    a: AppView,
    k: KeyPress,
    items: Seq<MinimalTrayItemView>,
    app_id: Seq<char>,
    rows: Seq<MenuItemView>,
    item_id: u32,
)
    requires
        cursors_ok(a),
    ensures
        cursors_ok(spec_move_up(a)),
        cursors_ok(spec_move_down(a)),
        cursors_ok(spec_go_back(a)),
        cursors_ok(spec_handle_key(a, k).0),
        cursors_ok(spec_tray_update(a, items)),
        cursors_ok(spec_open_menu(a, app_id, rows)),
        cursors_ok(spec_open_submenu(a, item_id, rows)),
{
    lemma_moves_keep_cursors(a);
    lemma_moves_keep_cursors(AppView { status_msg: None, ..a });
    if let ScreenView::Menu { app_id: id, stack } = a.view {
        let pushed = stack.push(MenuLevelView { submenu_id: Some(item_id), items: rows, cursor: 0 });
        assert forall|i: int| 0 <= i < pushed.len() implies cursor_ok(#[trigger] pushed[i].cursor, pushed[i].items.len()) by {
            if i < stack.len() {
                assert(pushed[i] == stack[i]);
            }
        }
    }
}

/// Moving down then up returns to the same row, unless the highlight was
/// already on the last row; moving up then down likewise unless it was on the first.
pub proof fn lemma_move_down_up(a: AppView)
    requires
        a.view is Items,
        a.tray_items.len() <= usize::MAX,
    ensures
        a.items_cursor + 1 < a.tray_items.len() ==> spec_move_up(spec_move_down(a)) == a,
        a.items_cursor > 0 && a.items_cursor < a.tray_items.len() ==> spec_move_down(spec_move_up(a)) == a,
{
}

/// Going back from a submenu returns to the menu level it was opened from.
pub proof fn lemma_open_submenu_then_back(a: AppView, item_id: u32, rows: Seq<MenuItemView>)
    requires
        a.view matches ScreenView::Menu { stack, .. } && stack.len() > 0,
    ensures
        spec_go_back(spec_open_submenu(a, item_id, rows)) == a,
{
    match a.view {
        ScreenView::Menu { app_id, stack } => {
            let pushed = stack.push(MenuLevelView { submenu_id: Some(item_id), items: rows, cursor: 0 });
            assert(pushed.drop_last() =~= stack);
        },
        ScreenView::Items => {},
    }
}


// ─── What is drawn ───────────────────────────────────────────────────────────

/// The row of the item list for `i`: its title (else its id) and its status.
pub open spec fn spec_item_row_label(i: MinimalTrayItemView) -> Seq<char> {
    (match i.title {
        Some(t) => t,
        None => i.app_id,
    }) + "  ["@ + i.status + "]"@
}

/// The row of a menu for `m`: its label (a dash for a separator) and an
/// arrow after a submenu.
pub open spec fn spec_menu_row_label(m: MenuItemView) -> Seq<char> {
    (if m.label.len() == 0 {
        "\u{2014}"@
    } else {
        m.label
    }) + (if m.is_submenu {
        " \u{25b6}"@
    } else {
        ""@
    })
}

/// The frame title of a menu `depth` levels deep.
pub open spec fn spec_menu_title(app_id: Seq<char>, depth: nat) -> Seq<char> {
    if depth == 1 {
        " "@ + app_id + " "@
    } else {
        " "@ + app_id + " > (submenu) "@
    }
}

/// Key hints of the item list.
pub open spec fn items_hint() -> Seq<char> {
    " j/k: navigate  Enter: open menu  q: quit"@
}

/// Key hints of a menu.
pub open spec fn menu_hint() -> Seq<char> {
    " j/k: navigate  Enter: select  Esc: back  q: quit"@
}

/// The row of the item list for `item`.
pub fn item_row_label(item: &MinimalTrayItem) -> (r: String)
    ensures
        r@ == spec_item_row_label(item@),
{
    let name = match &item.title {
        Some(t) => t.clone(),
        None => item.app_id.clone(),
    };
    name.concat("  [").concat(item.status.as_str()).concat("]")
}

/// The row of a menu for `item`.
pub fn menu_row_label(item: &MenuItem) -> (r: String)
    ensures
        r@ == spec_menu_row_label(item@),
{
    let label = if item.label.as_str().unicode_len() == 0 {
        String::from_str("\u{2014}")
    } else {
        item.label.clone()
    };
    if item.is_submenu {
        label.concat(" \u{25b6}")
    } else {
        proof {
            reveal_strlit("");
            assert(label@ + ""@ =~= label@);
        }
        label
    }
}

/// The frame title of a menu `depth` levels deep.
pub fn menu_title(app_id: &str, depth: usize) -> (r: String)
    ensures
        r@ == spec_menu_title(app_id@, depth as nat),
{
    if depth == 1 {
        String::from_str(" ").concat(app_id).concat(" ")
    } else {
        String::from_str(" ").concat(app_id).concat(" > (submenu) ")
    }
}

/// The highlighted row of a list of `len` rows: none when it is empty.
pub fn highlighted_row(len: usize, cursor: usize) -> (r: Option<usize>)
    ensures
        len == 0 ==> r is None,
        len != 0 ==> r == Some(cursor),
{
    if len == 0 {
        None
    } else {
        Some(cursor)
    }
}

impl App {
    /// The status line and whether it reports an error: the error message
    /// when there is one, else the key hints of the current view.
    pub fn status_line(&self) -> (r: (String, bool))
        ensures
            self@.status_msg matches Some(m) ==> r.0@ == " "@ + m && r.1,
            self@.status_msg is None ==> !r.1 && r.0@ == (match self@.view {
                ScreenView::Items => items_hint(),
                ScreenView::Menu { .. } => menu_hint(),
            }),
    {
        match &self.status_msg {
            Some(m) => (String::from_str(" ").concat(m.as_str()), true),
            None => {
                let hint = match &self.view {
                    View::Items => " j/k: navigate  Enter: open menu  q: quit",
                    View::Menu { .. } => " j/k: navigate  Enter: select  Esc: back  q: quit",
                };
                (String::from_str(hint), false)
            },
        }
    }
}

/// Moving up highlights the row just above, or stays on the first row; only
/// the highlight of the item list, or of the innermost menu level, changes.
pub proof fn lemma_move_up_steps_one_row(a: AppView)
    ensures
        a.view is Items ==> ({
            let r = spec_move_up(a);
            &&& a.items_cursor > 0 ==> r.items_cursor + 1 == a.items_cursor
            &&& a.items_cursor == 0 ==> r.items_cursor == 0
            &&& r.tray_items == a.tray_items && r.view == a.view && r.status_msg == a.status_msg
                && r.socket_path == a.socket_path
        }),
        a.view is Menu && a.view->stack.len() > 0 ==> ({
            let app_id = a.view->app_id;
            let stack = a.view->stack;
            let r = spec_move_up(a);
            let c = stack.last().cursor;
            &&& r.items_cursor == a.items_cursor && r.tray_items == a.tray_items
                && r.status_msg == a.status_msg && r.socket_path == a.socket_path
            &&& r.view matches ScreenView::Menu { app_id: id2, stack: s2 } && id2 == app_id
                && s2.len() == stack.len()
                && (forall|i: int| 0 <= i < stack.len() - 1 ==> #[trigger] s2[i] == stack[i])
                && s2.last().items == stack.last().items
                && s2.last().submenu_id == stack.last().submenu_id
                && (c > 0 ==> s2.last().cursor + 1 == c)
                && (c == 0 ==> s2.last().cursor == 0)
        }),
{
}

/// In a menu, moving down then up gives back the same state unless the
/// highlight was on the last row, and moving up then down unless it was on
/// the first.
pub proof fn lemma_menu_move_down_up(a: AppView)
    requires
        a.view is Menu,
        a.view->stack.len() > 0,
        a.view->stack.last().items.len() <= usize::MAX,
    ensures
        ({
            let stack = a.view->stack;
            let c = stack.last().cursor;
            &&& c + 1 < stack.last().items.len() ==> spec_move_up(spec_move_down(a)) == a
            &&& 0 < c < stack.last().items.len() ==> spec_move_down(spec_move_up(a)) == a
        }),
{
    let stack = a.view->stack;
    let c = stack.last().cursor;
    if c + 1 < stack.last().items.len() {
        let down = with_last_cursor(stack, inc_below(c, stack.last().items.len()));
        assert(down.last() == MenuLevelView { cursor: (c + 1) as usize, ..stack.last() });
        assert(MenuLevelView { cursor: c, ..down.last() } == stack.last());
        assert(with_last_cursor(down, dec(down.last().cursor)) =~= stack);
    }
    if 0 < c < stack.last().items.len() {
        let up = with_last_cursor(stack, dec(c));
        assert(up.last() == MenuLevelView { cursor: (c - 1) as usize, ..stack.last() });
        assert(MenuLevelView { cursor: c, ..up.last() } == stack.last());
        assert(with_last_cursor(up, inc_below(up.last().cursor, up.last().items.len())) =~= stack);
    }
}

/// Selecting acts on the highlighted row: on the item list, the menu of the
/// highlighted item is opened (so after moving down from the first of two or
/// more items, the second item's menu); in a menu, the highlighted row of the
/// innermost level is opened when it is a submenu and activated otherwise.
pub proof fn lemma_action_targets_highlighted_row(a: AppView)
    ensures
        a.view is Items && a.items_cursor < a.tray_items.len() ==> spec_action(a) == ActionView::OpenMenu(
            a.tray_items[a.items_cursor as int].app_id,
        ),
        a.view is Items && a.items_cursor == 0 && a.tray_items.len() >= 2 ==> spec_action(
            spec_move_down(a),
        ) == ActionView::OpenMenu(a.tray_items[1].app_id),
        a.view is Menu && a.view->stack.len() > 0 && a.view->stack.last().cursor
            < a.view->stack.last().items.len() ==> ({
            let app_id = a.view->app_id;
            let stack = a.view->stack;
            let row = stack.last().items[stack.last().cursor as int];
            &&& row.is_submenu ==> spec_action(a) == ActionView::OpenSubmenu { app_id, item_id: row.item_id }
            &&& !row.is_submenu ==> spec_action(a) == ActionView::Activate { app_id, item_id: row.item_id }
        }),
{
}

} // verus!
