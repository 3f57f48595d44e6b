//! One frame of the keyboard: which taps the panel can take, and how it is drawn.
use crate::host::{key_button, key_row, remove_item_spacing, request_focus, plain_button};
use crate::keyboard::{after_tap, need_after, Keyboard, KeyboardModel};
use crate::layouts::{Key, KeyModel};
use crate::text::{clipboard_label, offered_text, text_view};
use vstd::prelude::*;

verus! {

/// The keyboard after taps on the keys `tapped`, in that order.
pub open spec fn after_taps(pre: KeyboardModel, tapped: Seq<KeyModel>) -> KeyboardModel
    decreases tapped.len(),
{
    if tapped.len() == 0 {
        pre
    } else {
        after_tap(after_taps(pre, tapped.drop_last()), tapped.last())
    }
}

/// Every key of `tapped` is one of `keys`.
pub open spec fn taps_on(tapped: Seq<KeyModel>, keys: Set<KeyModel>) -> bool {
    forall|i: int| 0 <= i < tapped.len() ==> keys.contains(#[trigger] tapped[i])
}

/// `post` is `pre` after some taps on keys among `keys`.
pub open spec fn panel_taps(pre: KeyboardModel, post: KeyboardModel, keys: Set<KeyModel>) -> bool {
    exists|tapped: Seq<KeyModel>| #[trigger]
        taps_on(tapped, keys) && post == after_taps(pre, tapped)
}

/// The keys of a grid, whatever their place.
pub open spec fn grid_keys(grid: Seq<Seq<KeyModel>>) -> Set<KeyModel> {
    Set::new(
        |key: KeyModel| exists|r: int| 0 <= r < grid.len() && (#[trigger] grid[r]).contains(key),
    )
}

/// The keys of the panel: those of the grid and, where the clipboard has text to
/// offer, a key that inserts that text.
pub open spec fn panel_keys(grid: Seq<Seq<KeyModel>>, clipboard: Option<Seq<char>>) -> Set<
    KeyModel,
> {
    match offered_text(clipboard) {
        Some(text) => grid_keys(grid).insert(KeyModel::Text(text)),
        None => grid_keys(grid),
    }
}

/// The keyboard after the first half of a frame, before any key is drawn: the
/// focused widget is noted and the need level updated.
pub open spec fn frame_begun(
    pre: KeyboardModel,
    wanted: bool,
    focused: Option<egui::Id>,
) -> KeyboardModel {
    KeyboardModel {
        input_widget: if wanted { focused } else { pre.input_widget },
        needed: need_after(pre.needed, wanted),
        ..pre
    }
}

/// `post` is what a frame may leave of `pre`, given what the host said at its start.
///
/// Where the need level has run out, the keyboard is hidden and forgets where it was
/// drawn. Otherwise it is drawn with the keys of its layout in the case mode it began
/// the frame with, takes the taps on them, and notes where it was drawn if the host
/// says so.
pub open spec fn frame(
    pre: KeyboardModel,
    post: KeyboardModel,
    wanted: bool,
    focused: Option<egui::Id>,
    clipboard: Option<Seq<char>>,
) -> bool {
    let begun = frame_begun(pre, wanted, focused);
    if begun.needed > 0 {
        &&& panel_taps(
            begun,
            KeyboardModel { last_rect: pre.last_rect, ..post },
            panel_keys(pre.layout.grid(pre.upper), clipboard),
        )
        &&& post.last_rect is Some || post.last_rect == pre.last_rect
    } else {
        post == KeyboardModel { last_rect: None, ..begun }
    }
}

/// Taps after taps are the taps of both runs, one after the other.
proof fn lemma_after_taps_concat(pre: KeyboardModel, first: Seq<KeyModel>, second: Seq<KeyModel>)
    ensures
        after_taps(after_taps(pre, first), second) == after_taps(pre, first + second),
    decreases second.len(),
{
    if second.len() == 0 {
        assert(first + second =~= first);
    } else {
        lemma_after_taps_concat(pre, first, second.drop_last());
        assert((first + second).drop_last() =~= first + second.drop_last());
        assert((first + second).last() == second.last());
    }
}

/// Taps on some keys of the panel followed by taps on others are taps on keys of
/// the panel.
proof fn lemma_panel_taps_chain(
    pre: KeyboardModel,
    mid: KeyboardModel,
    post: KeyboardModel,
    first: Set<KeyModel>,
    second: Set<KeyModel>,
    keys: Set<KeyModel>,
)
    requires
        panel_taps(pre, mid, first),
        panel_taps(mid, post, second),
        first.subset_of(keys),
        second.subset_of(keys),
    ensures
        panel_taps(pre, post, keys),
{
    let a = choose|tapped: Seq<KeyModel>| #[trigger]
        taps_on(tapped, first) && mid == after_taps(pre, tapped);
    let b = choose|tapped: Seq<KeyModel>| #[trigger]
        taps_on(tapped, second) && post == after_taps(mid, tapped);
    lemma_after_taps_concat(pre, a, b);
    assert(taps_on(a + b, keys));
}

/// No tap at all is a run of taps.
proof fn lemma_no_taps(pre: KeyboardModel, keys: Set<KeyModel>)
    ensures
        panel_taps(pre, pre, keys),
{
    assert(taps_on(Seq::<KeyModel>::empty(), keys));
}

/// One tap on a key of the panel is a run of taps.
proof fn lemma_one_tap(pre: KeyboardModel, key: KeyModel, keys: Set<KeyModel>)
    requires
        keys.contains(key),
    ensures
        panel_taps(pre, after_tap(pre, key), keys),
{
    let tapped = seq![key];
    assert(tapped.drop_last() =~= Seq::<KeyModel>::empty());
    assert(after_taps(pre, tapped.drop_last()) == pre);
    assert(taps_on(tapped, keys));
}

/// The narrowest that a key is drawn, in points.
const KEY_MIN_WIDTH: u16 = 10;

/// The lowest that a key is drawn, in points.
const KEY_MIN_HEIGHT: u16 = 50;

/// Gives keyboard focus back to the text widget, where one was noted.
pub(crate) fn focus_back_to_input_widget(ctx: &egui::Context, focus: Option<egui::Id>) {
    if let Some(id) = focus {
        request_focus(ctx, id);
    }
}

impl Keyboard {
    /// Draws the keys of one row, each into its column, and handles the taps on them.
    pub(crate) fn row_contents(
        &mut self,
        columns: &mut [egui::Ui],
        ctx: &egui::Context,
        row: &Vec<Key>,
    )
        requires
            old(columns)@.len() == row@.len(),
        ensures
            panel_taps(old(self)@, final(self)@, row.deep_view().to_set()),
    {
        let ghost pre = self@;
        let ghost keys = row.deep_view().to_set();
        proof {
            lemma_no_taps(pre, keys);
        }
        let mut n: usize = 0;
        while n < row.len()
            invariant
                n <= row@.len(),
                columns@.len() == row@.len(),
                keys == row.deep_view().to_set(),
                panel_taps(pre, self@, keys),
            decreases row@.len() - n,
        {
            let key = &row[n];
            if key_button(columns, n, key.label(), KEY_MIN_WIDTH, KEY_MIN_HEIGHT) {
                let ghost before = self@;
                let focus = self.key(key);
                focus_back_to_input_widget(ctx, focus);
                proof {
                    assert(row.deep_view()[n as int] == key@);
                    assert(keys.contains(key@));
                    lemma_one_tap(before, key@, keys);
                    lemma_panel_taps_chain(pre, before, self@, keys, keys, keys);
                }
            }
            n += 1;
        }
    }

    /// Draws the keys of the panel, the clipboard key first, and handles the taps on
    /// them.
    pub(crate) fn panel_contents(
        &mut self,
        ui: &mut egui::Ui,
        ctx: &egui::Context,
        keys: &Vec<Vec<Key>>,
        clipboard: &Option<String>,
    )
        ensures
            panel_taps(
                old(self)@,
                final(self)@,
                panel_keys(keys.deep_view(), text_view(*clipboard)),
            ),
    {
        let ghost pre = self@;
        let ghost all = panel_keys(keys.deep_view(), text_view(*clipboard));
        proof {
            lemma_no_taps(pre, all);
        }
        // The keys touch each other.
        remove_item_spacing(ui);
        self.clipboard_key(ui, ctx, clipboard);
        proof {
            let offered = match offered_text(text_view(*clipboard)) {
                Some(text) => set![KeyModel::Text(text)],
                None => Set::empty(),
            };
            lemma_panel_taps_chain(pre, pre, self@, all, offered, all);
        }
        let mut r: usize = 0;
        while r < keys.len()
            invariant
                r <= keys@.len(),
                all == panel_keys(keys.deep_view(), text_view(*clipboard)),
                panel_taps(pre, self@, all),
            decreases keys@.len() - r,
        {
            let row = &keys[r];
            if row.len() > 0 {
                let ghost before = self@;
                key_row(self, ui, ctx, row);
                proof {
                    let row_keys = row.deep_view().to_set();
                    assert(keys.deep_view()[r as int] == row.deep_view());
                    assert forall|key: KeyModel| row_keys.contains(key) implies all.contains(
                        key,
                    ) by {
                        assert(keys.deep_view()[r as int].contains(key));
                        assert(grid_keys(keys.deep_view()).contains(key));
                    }
                    lemma_panel_taps_chain(pre, before, self@, all, row_keys, all);
                }
            }
            r += 1;
        }
    }

    /// Draws the clipboard key, where the clipboard has text to offer, and handles a
    /// tap on it.
    fn clipboard_key(
        &mut self,
        ui: &mut egui::Ui,
        ctx: &egui::Context,
        clipboard: &Option<String>,
    )
        ensures
            panel_taps(
                old(self)@,
                final(self)@,
                match offered_text(text_view(*clipboard)) {
                    Some(text) => set![KeyModel::Text(text)],
                    None => Set::empty(),
                },
            ),
    {
        let ghost pre = self@;
        let ghost keys = match offered_text(text_view(*clipboard)) {
            Some(text) => set![KeyModel::Text(text)],
            None => Set::empty(),
        };
        proof {
            lemma_no_taps(pre, keys);
        }
        if let Some(label) = clipboard_label(clipboard) {
            if let Some(text) = clipboard {
                if plain_button(ui, label.as_str(), KEY_MIN_WIDTH, KEY_MIN_HEIGHT) {
                    let focus = self.text_key(text.as_str());
                    focus_back_to_input_widget(ctx, focus);
                    proof {
                        lemma_one_tap(pre, KeyModel::Text(text@), keys);
                    }
                }
            }
        }
    }
}

} // verus!
