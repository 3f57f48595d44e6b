//! What holds of the keyboard over any number of taps and frames.
use crate::events::EventModel;
use crate::frame::{after_taps, frame, frame_begun, grid_keys, panel_keys, taps_on};
use crate::geometry::Rect;
use crate::keyboard::{
    after_tap, fresh, key_event, need_after, safe_area_of, KeyboardModel, NEED_MAX,
};
use crate::layouts::{lemma_upper_grid_is_shifted, shifted_grid, KeyModel};
use vstd::prelude::*;

verus! {

/// Taps do nothing but queue events and switch the key set: the noted widget, the
/// layout, the need level and the place of the panel stay, and the events that were
/// queued before stay at the head of the queue, in their order.
pub proof fn lemma_taps_only_queue(pre: KeyboardModel, tapped: Seq<KeyModel>)
    ensures
        ({
            let post = after_taps(pre, tapped);
            &&& post.input_widget == pre.input_widget
            &&& post.layout == pre.layout
            &&& post.clipboard == pre.clipboard
            &&& post.needed == pre.needed
            &&& post.last_rect == pre.last_rect
            &&& pre.events.is_prefix_of(post.events)
            &&& post.events.len() <= pre.events.len() + tapped.len()
        }),
    decreases tapped.len(),
{
    if tapped.len() > 0 {
        lemma_taps_only_queue(pre, tapped.drop_last());
    }
}

/// The need level after `frames` frames in a row in which no widget wanted text
/// input.
pub open spec fn idle_level(level: nat, frames: nat) -> nat
    decreases frames,
{
    if frames == 0 {
        level
    } else {
        need_after(idle_level(level, (frames - 1) as nat), false)
    }
}

/// While no widget wants text input, the need level goes down by one with each
/// frame until it is zero, and stays there. The keyboard is shown in a frame exactly
/// when the level is above zero after it, so once the level has run out the
/// keyboard stays hidden.
pub proof fn lemma_idle_countdown(level: nat, frames: nat)
    ensures
        idle_level(level, frames) == if frames <= level { level - frames } else { 0 },
        frames > 0 ==> (idle_level(level, frames) > 0 <==> frames < level),
    decreases frames,
{
    if frames > 0 {
        lemma_idle_countdown(level, (frames - 1) as nat);
    }
}

/// The need level never rises but where a widget wants text input, and never
/// leaves the range from zero to [`NEED_MAX`].
pub proof fn lemma_need_level_bounds(level: nat, wanted: bool)
    requires
        level <= NEED_MAX,
    ensures
        need_after(level, wanted) <= NEED_MAX,
        !wanted ==> need_after(level, wanted) <= level,
        wanted ==> need_after(level, wanted) == NEED_MAX,
{
}

/// Neither a tap nor a frame takes the keyboard out of its valid states.
pub proof fn lemma_wf_is_kept(
    pre: KeyboardModel,
    post: KeyboardModel,
    key: KeyModel,
    wanted: bool,
    focused: Option<egui::Id>,
    clipboard: Option<Seq<char>>,
)
    requires
        pre.wf(),
    ensures
        after_tap(pre, key).wf(),
        frame(pre, post, wanted, focused, clipboard) ==> post.wf(),
{
    if frame(pre, post, wanted, focused, clipboard) {
        lemma_frame_keeps(pre, post, wanted, focused, clipboard);
    }
}

/// The events that taps on the keys `tapped` queue, in the order of the taps.
pub open spec fn queued(tapped: Seq<KeyModel>) -> Seq<EventModel>
    decreases tapped.len(),
{
    if tapped.len() == 0 {
        Seq::empty()
    } else {
        match key_event(tapped.last()) {
            Some(event) => queued(tapped.drop_last()).push(event),
            None => queued(tapped.drop_last()),
        }
    }
}

/// Events leave in the order of the taps that made them: after any taps the queue
/// holds what it held before, and behind that one event for each tap that makes
/// one, earlier taps first.
pub proof fn lemma_taps_queue_in_order(pre: KeyboardModel, tapped: Seq<KeyModel>)
    ensures
        after_taps(pre, tapped).events == pre.events + queued(tapped),
    decreases tapped.len(),
{
    if tapped.len() == 0 {
        assert(pre.events + queued(tapped) =~= pre.events);
    } else {
        lemma_taps_queue_in_order(pre, tapped.drop_last());
        assert(after_taps(pre, tapped).events =~= pre.events + queued(tapped));
    }
}

/// A tap on the shift key queues nothing and moves no key: the queue stays as it
/// was, and the grid shown afterwards is the grid shown before with the case mode
/// switched, so the same rows and columns.
pub proof fn lemma_shift_changes_labels_only(pre: KeyboardModel)
    ensures
        after_tap(pre, KeyModel::Upper).events == pre.events,
        after_tap(pre, KeyModel::Upper).layout == pre.layout,
        after_tap(pre, KeyModel::Upper).upper == !pre.upper,
        pre.layout.grid(true) == shifted_grid(pre.layout.grid(false)),
{
    lemma_upper_grid_is_shifted(pre.layout);
}

/// Each queued event comes from a tap on a key that makes it.
pub proof fn lemma_queued_from_keys(tapped: Seq<KeyModel>, keys: Set<KeyModel>)
    requires
        taps_on(tapped, keys),
    ensures
        queued(tapped).len() <= tapped.len(),
        forall|i: int|
            0 <= i < queued(tapped).len() ==> exists|key: KeyModel|
                keys.contains(key) && key_event(key) == Some(#[trigger] queued(tapped)[i]),
    decreases tapped.len(),
{
    if tapped.len() > 0 {
        let earlier = tapped.drop_last();
        assert(taps_on(earlier, keys)) by {
            assert forall|i: int| 0 <= i < earlier.len() implies keys.contains(
                #[trigger] earlier[i],
            ) by {
                assert(earlier[i] == tapped[i]);
            }
        }
        lemma_queued_from_keys(earlier, keys);
        assert(keys.contains(tapped.last()));
        assert forall|i: int| 0 <= i < queued(tapped).len() implies exists|key: KeyModel|
            keys.contains(key) && key_event(key) == Some(#[trigger] queued(tapped)[i]) by {
            if i < queued(earlier).len() {
                assert(queued(tapped)[i] == queued(earlier)[i]);
            } else {
                assert(key_event(tapped.last()) == Some(queued(tapped)[i]));
            }
        }
    }
}

/// What every frame keeps: the layout and the clipboard setting stay; the need
/// level follows the countdown; the noted widget changes only in a frame in which a
/// widget wants text input; what was queued stays at the head of the queue, and
/// each event that is queued behind it comes from a key of the panel. A frame in
/// which the keyboard is hidden queues nothing, keeps the case mode, and forgets
/// where the panel was.
pub proof fn lemma_frame_keeps(
    pre: KeyboardModel,
    post: KeyboardModel,
    wanted: bool,
    focused: Option<egui::Id>,
    clipboard: Option<Seq<char>>,
)
    requires
        frame(pre, post, wanted, focused, clipboard),
    ensures
        post.layout == pre.layout,
        post.clipboard == pre.clipboard,
        post.needed == need_after(pre.needed, wanted),
        post.input_widget == if wanted { focused } else { pre.input_widget },
        pre.events.is_prefix_of(post.events),
        forall|i: int|
            pre.events.len() <= i < post.events.len() ==> exists|key: KeyModel|
                panel_keys(pre.layout.grid(pre.upper), clipboard).contains(key) && key_event(key)
                    == Some(#[trigger] post.events[i]),
        post.needed == 0 ==> post.events == pre.events && post.upper == pre.upper
            && post.last_rect is None,
{
    let begun = frame_begun(pre, wanted, focused);
    if begun.needed > 0 {
        let keys = panel_keys(pre.layout.grid(pre.upper), clipboard);
        let drawn = KeyboardModel { last_rect: pre.last_rect, ..post };
        let tapped = choose|tapped: Seq<KeyModel>| #[trigger]
            taps_on(tapped, keys) && drawn == after_taps(begun, tapped);
        lemma_taps_only_queue(begun, tapped);
        lemma_taps_queue_in_order(begun, tapped);
        lemma_queued_from_keys(tapped, keys);
        assert forall|i: int| pre.events.len() <= i < post.events.len() implies exists|
            key: KeyModel,
        |
            keys.contains(key) && key_event(key) == Some(#[trigger] post.events[i]) by {
            assert(post.events[i] == queued(tapped)[i - pre.events.len()]);
        }
    }
}

/// A keyboard that was never shown, or was hidden in the last frame, leaves the
/// whole screen free. One that was drawn with a panel of height `h` leaves the
/// screen free but for the lowest `h` points, as far as the new bottom edge is a
/// coordinate.
pub proof fn lemma_safe_area(
    pre: KeyboardModel,
    post: KeyboardModel,
    wanted: bool,
    focused: Option<egui::Id>,
    clipboard: Option<Seq<char>>,
    screen: Rect,
)
    requires
        frame(pre, post, wanted, focused, clipboard),
    ensures
        safe_area_of(fresh(), screen) == screen,
        post.needed == 0 ==> safe_area_of(post, screen) == screen,
        post.last_rect matches Some(panel) ==> {
            let free = safe_area_of(post, screen);
            &&& free.min_x == screen.min_x
            &&& free.min_y == screen.min_y
            &&& free.max_x == screen.max_x
            &&& i32::MIN <= screen.max_y - panel.spec_height() <= i32::MAX ==> free.max_y
                == screen.max_y - panel.spec_height()
        },
{
    lemma_frame_keeps(pre, post, wanted, focused, clipboard);
}

/// Without text on the clipboard the panel has the keys of the grid and no other:
/// no key stands for the clipboard.
pub proof fn lemma_no_clipboard_key(grid: Seq<Seq<KeyModel>>, clipboard: Option<Seq<char>>)
    requires
        clipboard is None || clipboard->0.len() == 0,
    ensures
        panel_keys(grid, clipboard) == grid_keys(grid),
{
}

} // verus!
