//! The dmenu submenu loop: which rows are offered to the picker, how the
//! picker is started and read, and what a selection leads to.

use vstd::prelude::*;

use crate::error::CtlError;
use crate::ipc::{MenuItem, MenuItemView, menu_item_views};
use crate::text::{
    is_space, split_whitespace, split_ws, spec_trim, str_equal, trim, trim_end, trim_start, views,
};

verus! {

/// Index of the first row labelled `label`.
pub open spec fn spec_find_label(items: Seq<MenuItemView>, label: Seq<char>) -> Option<int>
    decreases items.len(),
{
    if items.len() == 0 {
        None
    } else if items[0].label == label {
        Some(0)
    } else {
        match spec_find_label(items.drop_first(), label) {
            Some(i) => Some(i + 1),
            None => None,
        }
    }
}

/// `spec_find_label` gives the first row with that label, or `None` when there is none.
pub proof fn lemma_find_label(items: Seq<MenuItemView>, label: Seq<char>)
    ensures
        match spec_find_label(items, label) {
            Some(i) => 0 <= i < items.len() && items[i].label == label && forall|j: int|
                0 <= j < i ==> items[j].label != label,
            None => forall|j: int| 0 <= j < items.len() ==> items[j].label != label,
        },
    decreases items.len(),
{
    if items.len() > 0 && items[0].label != label {
        lemma_find_label(items.drop_first(), label);
        assert forall|j: int| 1 <= j < items.len() implies items[j] == items.drop_first()[j - 1] by {}
    }
}

/// Return the first item in `items` whose label equals `label`.
pub fn find_selected<'a>(items: &'a [MenuItem], label: &str) -> (r: Option<&'a MenuItem>)
    ensures
        match spec_find_label(menu_item_views(items@), label@) {
            Some(i) => r matches Some(m) && *m == items@[i],
            None => r is None,
        },
{
    proof {
        lemma_find_label(menu_item_views(items@), label@);
    }
    let mut i: usize = 0;
    while i < items.len()
        invariant
            i <= items@.len(),
            forall|j: int| 0 <= j < i ==> items@[j].label@ != label@,
        decreases items.len() - i,
    {
        if str_equal(items[i].label.as_str(), label) {
            proof {
                let v = menu_item_views(items@);
                lemma_find_label(v, label@);
                match spec_find_label(v, label@) {
                    Some(k) => {
                        if k < i {
                            assert(v[k].label == items@[k].label@);
                        } else if k > i {
                            assert(v[i as int].label == label@);
                        }
                    },
                    None => {
                        assert(v[i as int].label == label@);
                    },
                }
            }
            return Some(&items[i]);
        }
        i += 1;
    }
    proof {
        let v = menu_item_views(items@);
        match spec_find_label(v, label@) {
            Some(k) => {
                assert(v[k].label == items@[k].label@);
            },
            None => {},
        }
    }
    None
}

/// The labels offered to the picker: those of the rows with a non-empty label
/// (separators and invisible rows have none), in order.
pub open spec fn spec_visible_labels(items: Seq<MenuItemView>) -> Seq<Seq<char>>
    decreases items.len(),
{
    if items.len() == 0 {
        Seq::empty()
    } else {
        let rest = spec_visible_labels(items.drop_last());
        if items.last().label.len() > 0 {
            rest.push(items.last().label)
        } else {
            rest
        }
    }
}

/// The labels offered to the picker for `items`.
pub fn visible_labels(items: &[MenuItem]) -> (r: Vec<String>)
    ensures
        views(r@) == spec_visible_labels(menu_item_views(items@)),
{
    let ghost v = menu_item_views(items@);
    let mut r: Vec<String> = Vec::new();
    let mut i: usize = 0;
    assert(v.take(0) =~= Seq::<MenuItemView>::empty());
    assert(views(r@) =~= Seq::<Seq<char>>::empty());
    while i < items.len()
        invariant
            v == menu_item_views(items@),
            i <= items@.len(),
            views(r@) == spec_visible_labels(v.take(i as int)),
        decreases items.len() - i,
    {
        assert(v.take(i + 1).drop_last() =~= v.take(i as int));
        assert(v.take(i + 1).last() == v[i as int]);
        if items[i].label.as_str().unicode_len() > 0 {
            let ghost before = r@;
            r.push(items[i].label.clone());
            assert(views(r@) =~= views(before).push(items@[i as int].label@));
        }
        i += 1;
    }
    assert(v.take(items@.len() as int) =~= v);
    r
}


// ─── The picker process ──────────────────────────────────────────────────────

/// Program and arguments of a picker command line, split at white space.
pub fn parse_dmenu_cmd(cmd_str: &str) -> (r: Result<(String, Vec<String>), CtlError>)
    ensures
        split_ws(cmd_str@).len() == 0 <==> r is Err,
        r matches Err(e) ==> (e matches CtlError::InvalidDmenuCmd(c) && c@ == cmd_str@),
        r matches Ok((program, args)) ==> (program@ == split_ws(cmd_str@)[0] && views(args@)
            == split_ws(cmd_str@).skip(1)),
{
    let mut parts = split_whitespace(cmd_str);
    if parts.len() == 0 {
        return Err(CtlError::InvalidDmenuCmd(String::from_str(cmd_str)));
    }
    let ghost before = parts@;
    let program = parts.remove(0);
    assert(views(parts@) =~= views(before).skip(1));
    Ok((program, parts))
}

/// What the picker reads on its standard input: one label per line.
pub open spec fn spec_dmenu_input(labels: Seq<Seq<char>>) -> Seq<char>
    decreases labels.len(),
{
    if labels.len() == 0 {
        Seq::empty()
    } else {
        spec_dmenu_input(labels.drop_last()) + labels.last() + "\n"@
    }
}

/// The picker's input for `labels`: each label on a line of its own, joined by
/// newlines and ended by one.
pub fn dmenu_input(labels: &Vec<String>) -> (r: String)
    ensures
        labels@.len() > 0 ==> r@ == spec_dmenu_input(views(labels@)),
        labels@.len() == 0 ==> r@ == "\n"@,
{
    if labels.len() == 0 {
        return String::from_str("\n");
    }
    let ghost v = views(labels@);
    let mut r = String::new();
    let mut i: usize = 0;
    assert(v.take(0) =~= Seq::<Seq<char>>::empty());
    while i < labels.len()
        invariant
            v == views(labels@),
            i <= labels@.len(),
            r@ == spec_dmenu_input(v.take(i as int)),
        decreases labels.len() - i,
    {
        assert(v.take(i + 1).drop_last() =~= v.take(i as int));
        assert(v.take(i + 1).last() == labels@[i as int]@);
        r.append(labels[i].as_str());
        r.append("\n");
        i += 1;
    }
    assert(v.take(labels@.len() as int) =~= v);
    r
}

/// The answer in a line printed by the picker: the trimmed line, or `None`
/// when it is blank.
pub open spec fn spec_parse_selection(line: Seq<char>) -> Option<Seq<char>> {
    if spec_trim(line).len() == 0 {
        None
    } else {
        Some(spec_trim(line))
    }
}

/// The selection read back from the picker: the trimmed line, or `None` when
/// the user cancelled (empty or no output).
pub fn parse_selection(line: &str) -> (r: Option<String>)
    ensures
        match r {
            Some(s) => spec_parse_selection(line@) == Some(s@),
            None => spec_parse_selection(line@) is None,
        },
{
    let trimmed = trim(line);
    if trimmed.as_str().unicode_len() == 0 {
        None
    } else {
        Some(trimmed)
    }
}

// ─── The loop ────────────────────────────────────────────────────────────────

/// What to do with a menu level just read.
#[derive(Debug)]
pub enum MenuStep {
    /// Nothing can be picked: stop.
    Done,
    /// Offer these labels to the picker.
    Prompt(Vec<String>),
}

/// What to do after the picker answered.
#[derive(Debug, PartialEq, Eq, Structural)]
pub enum SelectionStep {
    /// Cancelled, or the answer matched no row: stop.
    Done,
    /// A submenu was picked: read it next.
    Descend(u32),
    /// A leaf row was picked: activate it and stop.
    Activate(u32),
}

/// The submenu loop of one app: the level being shown.
pub struct SubmenuLoop {
    pub submenu_id: Option<u32>,
}

/// The step after the picker answered `selection` on rows `items`.
pub open spec fn spec_selection_step(items: Seq<MenuItemView>, selection: Option<Seq<char>>) -> SelectionStep {
    match selection {
        None => SelectionStep::Done,
        Some(label) => match spec_find_label(items, label) {
            None => SelectionStep::Done,
            Some(i) => if items[i].is_submenu {
                SelectionStep::Descend(items[i].item_id)
            } else {
                SelectionStep::Activate(items[i].item_id)
            },
        },
    }
}

impl SubmenuLoop {
    /// The loop starts at the top-level menu.
    pub fn new() -> (r: SubmenuLoop)
        ensures
            r.submenu_id is None,
    {
        SubmenuLoop { submenu_id: None }
    }

    /// Rows `items` of the current level were read: stop when none can be
    /// picked, else offer their labels.
    pub fn on_menu(&self, items: &[MenuItem]) -> (r: MenuStep)
        ensures
            spec_visible_labels(menu_item_views(items@)).len() == 0 ==> r is Done,
            spec_visible_labels(menu_item_views(items@)).len() != 0 ==> (r matches MenuStep::Prompt(l)
                && views(l@) == spec_visible_labels(menu_item_views(items@))),
    {
        let labels = visible_labels(items);
        if labels.len() == 0 {
            MenuStep::Done
        } else {
            MenuStep::Prompt(labels)
        }
    }

    /// The picker answered `selection` on rows `items`: a submenu is read
    /// next, a leaf is activated, anything else ends the loop.
    pub fn on_selection(&mut self, items: &[MenuItem], selection: Option<String>) -> (r: SelectionStep)
        ensures
            r == spec_selection_step(
                menu_item_views(items@),
                match selection {
                    Some(s) => Some(s@),
                    None => None,
                },
            ),
            r matches SelectionStep::Descend(id) ==> final(self).submenu_id == Some(id),
            !(r is Descend) ==> final(self).submenu_id == old(self).submenu_id,
    {
        let label = match selection {
            None => return SelectionStep::Done,
            Some(s) => s,
        };
        proof {
            lemma_find_label(menu_item_views(items@), label@);
        }
        match find_selected(items, label.as_str()) {
            None => SelectionStep::Done,
            Some(item) => {
                if item.is_submenu {
                    self.submenu_id = Some(item.item_id);
                    SelectionStep::Descend(item.item_id)
                } else {
                    SelectionStep::Activate(item.item_id)
                }
            },
        }
    }
}

/// A row is activated only when the picker answered its label and it is no
/// submenu; the first row with that label is the one chosen.
pub proof fn lemma_activate_only_leaf(items: Seq<MenuItemView>, selection: Option<Seq<char>>, id: u32)
    requires
        spec_selection_step(items, selection) == SelectionStep::Activate(id),
    ensures
        exists|i: int|
            0 <= i < items.len() && selection == Some(items[i].label) && !items[i].is_submenu
                && items[i].item_id == id && forall|j: int| 0 <= j < i ==> items[j].label != items[i].label,
{
    lemma_find_label(items, selection->0);
    let i = spec_find_label(items, selection->0)->0;
    assert(0 <= i < items.len() && selection == Some(items[i].label));
}


/// Leaving the picker empty (or answering only white space) cancels without
/// activating anything, at any level.
pub proof fn lemma_blank_selection_cancels(items: Seq<MenuItemView>, line: Seq<char>)
    requires
        spec_trim(line).len() == 0,
    ensures
        spec_selection_step(items, spec_parse_selection(line)) == SelectionStep::Done,
{
}


/// A label with no white space at either end, printed back by the picker on
/// a line of its own, selects the first row with that label.
pub proof fn lemma_picker_echo_selects(items: Seq<MenuItemView>, label: Seq<char>)
    requires
        label.len() > 0,
        !is_space(label[0]),
        !is_space(label.last()),
        spec_find_label(items, label) is Some,
    ensures
        spec_parse_selection(label + "\n"@) == Some(label),
        ({
            let i = spec_find_label(items, label)->0;
            spec_selection_step(items, spec_parse_selection(label + "\n"@)) == if items[i].is_submenu {
                SelectionStep::Descend(items[i].item_id)
            } else {
                SelectionStep::Activate(items[i].item_id)
            }
        }),
{
    reveal_strlit("\n");
    let line = label + "\n"@;
    assert(line[0] == label[0]);
    assert(trim_start(line) == line);
    assert(line.last() == '\n');
    assert(line.drop_last() =~= label);
    assert(trim_end(line) == trim_end(label));
    assert(trim_end(label) == label);
    lemma_find_label(items, label);
}

} // verus!
