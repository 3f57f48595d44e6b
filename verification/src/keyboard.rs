//! The keyboard itself: what it remembers between frames and how a frame changes it.
use crate::clipboard::get_text;
use crate::events::{backspace_event, EventModel, InputEvent};
use crate::frame::{focus_back_to_input_widget, frame, frame_begun, panel_keys, taps_on, after_taps};
use crate::geometry::Rect;
use crate::host::{
    content_rect, focused_widget, panel, request_repaint, response_contains_pointer,
    response_rect, send_key, send_text, suppress_native_keyboard, wants_keyboard_input,
};
use crate::laws::lemma_taps_only_queue;
use crate::layouts::{Key, KeyModel, KeyboardLayout};
use crate::text::text_view;
use vstd::prelude::*;

verus! {

/// The level that the need for the keyboard is set to whenever a widget wants text
/// input. The keyboard stays up for as long as the level is above zero.
pub const NEED_MAX: u32 = 20;

/// The virtual keyboard. Keep one for the lifetime of the application and hand it
/// each frame.
pub struct Keyboard {
    input_widget: Option<egui::Id>,
    events: Vec<InputEvent>,
    upper: bool,
    keyboard_layout: KeyboardLayout,
    clipboard: bool,
    /// How much the keyboard is needed. A level rather than a flag, so that the
    /// keyboard does not flicker while focus is in doubt for a frame or two.
    needed: u32,
    /// Where the keyboard was drawn in the last frame, if it was.
    last_rect: Option<Rect>,
}

/// What a [`Keyboard`] stands for in contracts.
pub ghost struct KeyboardModel {
    /// The text widget that focus goes back to after a tap.
    pub input_widget: Option<egui::Id>,
    /// The events made by taps and not yet handed to the host, oldest first.
    pub events: Seq<EventModel>,
    /// Whether the upper key set is showing.
    pub upper: bool,
    pub layout: KeyboardLayout,
    /// Whether a key for the clipboard's text is offered.
    pub clipboard: bool,
    pub needed: nat,
    pub last_rect: Option<Rect>,
}

impl KeyboardModel {
    /// The need level is within its range.
    pub open spec fn wf(self) -> bool {
        self.needed <= NEED_MAX
    }
}

impl View for Keyboard {
    type V = KeyboardModel;

    closed spec fn view(&self) -> KeyboardModel {
        KeyboardModel {
            input_widget: self.input_widget,
            events: self.events.deep_view(),
            upper: self.upper,
            layout: self.keyboard_layout,
            clipboard: self.clipboard,
            needed: self.needed as nat,
            last_rect: self.last_rect,
        }
    }
}

/// A keyboard that has not been shown yet: QWERTY, lower case, no clipboard key.
pub open spec fn fresh() -> KeyboardModel {
    KeyboardModel {
        input_widget: None,
        events: Seq::empty(),
        upper: false,
        layout: KeyboardLayout::Qwerty,
        clipboard: false,
        needed: 0,
        last_rect: None,
    }
}

impl Default for Keyboard {
    /// A keyboard that has not been shown yet: QWERTY, lower case, no clipboard key.
    fn default() -> (keyboard: Keyboard)
        ensures
            keyboard@ == fresh(),
            keyboard@.wf(),
    {
        let keyboard = Keyboard {
            input_widget: None,
            events: Vec::new(),
            upper: false,
            keyboard_layout: KeyboardLayout::Qwerty,
            clipboard: false,
            needed: 0,
            last_rect: None,
        };
        assert(keyboard.events.deep_view() =~= Seq::empty());
        keyboard
    }
}

/// The need level after a frame, from the level before it and whether a widget
/// wanted text input in that frame.
pub open spec fn need_after(level: nat, wanted: bool) -> nat {
    if wanted {
        NEED_MAX as nat
    } else if level > 0 {
        (level - 1) as nat
    } else {
        0
    }
}

/// The event that a tap on `key` queues, if it queues one.
pub open spec fn key_event(key: KeyModel) -> Option<EventModel> {
    match key {
        KeyModel::Text(text) => Some(EventModel::Text(text)),
        KeyModel::Backspace => Some(backspace_event()),
        KeyModel::Upper => None,
    }
}

/// The keyboard after a tap on `key`.
pub open spec fn after_tap(pre: KeyboardModel, key: KeyModel) -> KeyboardModel {
    match key_event(key) {
        Some(event) => KeyboardModel { events: pre.events.push(event), ..pre },
        None => KeyboardModel { upper: !pre.upper, ..pre },
    }
}

/// The part of `screen` that the keyboard leaves free.
pub open spec fn safe_area_of(keyboard: KeyboardModel, screen: Rect) -> Rect {
    match keyboard.last_rect {
        Some(last_rect) => screen.spec_without_bottom(last_rect.spec_height()),
        None => screen,
    }
}

impl Keyboard {
    /// Remembers which widget had focus before the keyboard took the pointer: while
    /// a widget wants text input, the focused widget is noted; otherwise what was
    /// noted stays.
    pub fn remember_input_widget(&mut self, wanted: bool, focused: Option<egui::Id>)
        ensures
            final(self)@ == (KeyboardModel {
                input_widget: if wanted { focused } else { old(self)@.input_widget },
                ..old(self)@
            }),
    {
        if wanted {
            self.input_widget = focused;
        }
    }

    /// Updates the need level for this frame and says whether the keyboard is to be
    /// shown in it.
    pub fn keyboard_input_needed(&mut self, wanted: bool) -> (needed: bool)
        ensures
            final(self)@ == (KeyboardModel {
                needed: need_after(old(self)@.needed, wanted),
                ..old(self)@
            }),
            needed == (final(self)@.needed > 0),
    {
        if wanted {
            self.needed = NEED_MAX;
            true
        } else {
            self.needed = self.needed.saturating_sub(1);
            self.needed > 0
        }
    }

    /// Handles a tap on `key`. Returns the widget to give focus back to.
    pub fn key(&mut self, key: &Key) -> (focus: Option<egui::Id>)
        ensures
            final(self)@ == after_tap(old(self)@, key@),
            focus == old(self)@.input_widget,
    {
        match key {
            Key::Text(text) => self.text_key(text),
            Key::Backspace => self.backspace_key(),
            Key::Upper => self.upper_layout_key(),
        }
    }

    /// Handles a tap on a key that inserts `text`. Returns the widget to give focus
    /// back to.
    pub fn text_key(&mut self, text: &str) -> (focus: Option<egui::Id>)
        ensures
            final(self)@ == after_tap(old(self)@, KeyModel::Text(text@)),
            focus == old(self)@.input_widget,
    {
        self.push_event(InputEvent::text(text));
        self.input_widget
    }

    /// Handles a tap on backspace. Returns the widget to give focus back to.
    pub fn backspace_key(&mut self) -> (focus: Option<egui::Id>)
        ensures
            final(self)@ == after_tap(old(self)@, KeyModel::Backspace),
            focus == old(self)@.input_widget,
    {
        self.push_event(InputEvent::backspace());
        self.input_widget
    }

    /// Handles a tap on the shift key: switches the key set and queues nothing.
    /// Returns the widget to give focus back to.
    pub fn upper_layout_key(&mut self) -> (focus: Option<egui::Id>)
        ensures
            final(self)@ == after_tap(old(self)@, KeyModel::Upper),
            focus == old(self)@.input_widget,
    {
        self.upper = !self.upper;
        self.input_widget
    }

    /// Takes the queued events out, oldest first, and leaves the queue empty.
    pub fn take_events(&mut self) -> (events: Vec<InputEvent>)
        ensures
            events.deep_view() == old(self)@.events,
            final(self)@ == (KeyboardModel { events: Seq::empty(), ..old(self)@ }),
    {
        let mut events: Vec<InputEvent> = Vec::new();
        std::mem::swap(&mut self.events, &mut events);
        assert(self.events.deep_view() =~= Seq::empty());
        events
    }

    /// Hands the queued events to the host, oldest first, and leaves the queue empty.
    ///
    /// Call this before any widget is created in the frame: a widget that is created
    /// earlier does not see the events.
    pub fn pump_events(&mut self, ctx: &egui::Context)
        ensures
            final(self)@ == (KeyboardModel { events: Seq::empty(), ..old(self)@ }),
    {
        let events = self.take_events();
        let mut sent: usize = 0;
        while sent < events.len()
            invariant
                sent <= events@.len(),
            decreases events@.len() - sent,
        {
            match &events[sent] {
                InputEvent::Text(text) => send_text(ctx, text.clone()),
                InputEvent::Key { key, physical_key, pressed, repeat, modifiers } => send_key(
                    ctx,
                    *key,
                    *physical_key,
                    *pressed,
                    *repeat,
                    *modifiers,
                ),
            }
            sent += 1;
        }
    }

    /// The part of `screen` that the keyboard leaves free: all of it while the
    /// keyboard is hidden, else `screen` without a strip at its bottom as high as the
    /// keyboard was drawn in the last frame.
    pub fn safe_area(&self, screen: Rect) -> (free: Rect)
        ensures
            free == safe_area_of(self@, screen),
    {
        match self.last_rect {
            Some(last_rect) => screen.without_bottom(last_rect.height()),
            None => screen,
        }
    }

    /// The part of the screen that the keyboard leaves free. Constrain a window to it
    /// to keep the window clear of the keyboard.
    pub fn safe_rect(&self, ctx: &egui::Context) -> (free: Rect)
        ensures
            exists|screen: Rect| free == #[trigger] safe_area_of(self@, screen),
    {
        let screen = content_rect(ctx);
        self.safe_area(screen)
    }

    /// Notes where the panel was drawn in this frame. Returns the widget to give
    /// focus back to: the text widget while the pointer is over the panel, so that
    /// the host does not take a touch on the panel for a touch outside the widget.
    pub fn panel_shown(&mut self, rect: Rect, contains_pointer: bool) -> (focus: Option<egui::Id>)
        ensures
            final(self)@ == (KeyboardModel { last_rect: Some(rect), ..old(self)@ }),
            focus == if contains_pointer { old(self)@.input_widget } else { None },
    {
        self.last_rect = Some(rect);
        if contains_pointer {
            self.input_widget
        } else {
            None
        }
    }

    /// Notes that the panel is not drawn in this frame.
    pub fn panel_hidden(&mut self)
        ensures
            final(self)@ == (KeyboardModel { last_rect: None, ..old(self)@ }),
    {
        self.last_rect = None;
    }

    /// Runs one frame of the keyboard on what the host said at its start: whether a
    /// widget wants text input, which widget holds focus, and what text the
    /// clipboard offers. Call this inside a frame of `ctx`, after the other widgets.
    ///
    /// Besides what the contract says of the keyboard, the host is asked for another
    /// frame and told to keep its own keyboard down whenever the panel is drawn, and
    /// is told to give focus back to the noted widget after each tap and while the
    /// pointer is over the panel.
    pub fn render(
        &mut self,
        ctx: &egui::Context,
        wanted: bool,
        focused: Option<egui::Id>,
        clipboard: Option<String>,
    )
        ensures
            frame(old(self)@, final(self)@, wanted, focused, text_view(clipboard)),
    {
        let ghost pre = self@;
        self.remember_input_widget(wanted, focused);
        if self.keyboard_input_needed(wanted) {
            // The countdown goes on only while frames are drawn.
            request_repaint(ctx);
            let keys = self.keyboard_layout.get_layout(self.upper);
            let response = panel(self, ctx, &keys, &clipboard);
            let ghost drawn = self@;
            if let Some(response) = response {
                let rect = response_rect(&response);
                let focus = self.panel_shown(rect, response_contains_pointer(&response));
                focus_back_to_input_widget(ctx, focus);
            }
            suppress_native_keyboard(ctx);
            proof {
                let begun = frame_begun(pre, wanted, focused);
                let tapped = choose|tapped: Seq<KeyModel>| #[trigger]
                    taps_on(tapped, panel_keys(keys.deep_view(), text_view(clipboard)))
                        && drawn == after_taps(begun, tapped);
                lemma_taps_only_queue(begun, tapped);
                assert(drawn == KeyboardModel { last_rect: pre.last_rect, ..self@ });
            }
        } else {
            self.panel_hidden();
        }
    }

    /// Shows the virtual keyboard if it is needed. Call this once in each frame of
    /// `ctx`, after the other widgets.
    ///
    /// The host says whether a widget wants text input and which widget holds focus;
    /// the system clipboard is read where the clipboard key is switched on. The frame
    /// then runs as [`Keyboard::render`] runs it on those answers.
    pub fn show(&mut self, ctx: &egui::Context)
        ensures
            exists|wanted: bool, focused: Option<egui::Id>, clipboard: Option<Seq<char>>|
                #[trigger] frame(old(self)@, final(self)@, wanted, focused, clipboard)
                    && (clipboard is Some ==> old(self)@.clipboard),
    {
        let wanted = wants_keyboard_input(ctx);
        let focused = focused_widget(ctx);
        let clipboard = if self.clipboard {
            get_text()
        } else {
            None
        };
        self.render(ctx, wanted, focused, clipboard);
    }

    /// Chooses the layout of the keys.
    pub fn layout(self, layout: KeyboardLayout) -> (keyboard: Keyboard)
        ensures
            keyboard@ == (KeyboardModel { layout, ..self@ }),
    {
        let mut keyboard = self;
        keyboard.keyboard_layout = layout;
        keyboard
    }

    /// Chooses whether `show` offers a key that inserts the text on the system
    /// clipboard.
    pub fn clipboard(self, enabled: bool) -> (keyboard: Keyboard)
        ensures
            keyboard@ == (KeyboardModel { clipboard: enabled, ..self@ }),
    {
        let mut keyboard = self;
        keyboard.clipboard = enabled;
        keyboard
    }

    /// The keys that the keyboard shows now, row by row.
    pub fn get_keys(&self) -> (rows: Vec<Vec<Key>>)
        ensures
            rows.deep_view() == self@.layout.grid(self@.upper),
    {
        self.keyboard_layout.get_layout(self.upper)
    }

    /// The text widget that focus goes back to after a tap, if one was noted.
    pub fn input_widget(&self) -> (widget: Option<egui::Id>)
        ensures
            widget == self@.input_widget,
    {
        self.input_widget
    }

    /// Copies of the events that wait to be handed to the host, oldest first.
    pub fn pending_events(&self) -> (events: Vec<InputEvent>)
        ensures
            events.deep_view() == self@.events,
    {
        let mut events: Vec<InputEvent> = Vec::new();
        let mut n: usize = 0;
        while n < self.events.len()
            invariant
                n <= self.events@.len(),
                events.deep_view() == self.events.deep_view().take(n as int),
            decreases self.events@.len() - n,
        {
            let ghost before = events.deep_view();
            events.push(self.events[n].duplicate());
            assert(events.deep_view() =~= before.push(self.events@[n as int]@));
            assert(self.events.deep_view().take(n as int + 1) =~= self.events.deep_view().take(
                n as int,
            ).push(self.events@[n as int]@));
            n += 1;
        }
        assert(self.events.deep_view().take(n as int) =~= self.events.deep_view());
        events
    }

    /// Whether the upper key set is showing.
    pub fn is_upper(&self) -> (upper: bool)
        ensures
            upper == self@.upper,
    {
        self.upper
    }

    /// How much the keyboard is needed: it is shown while this is above zero.
    pub fn need_level(&self) -> (level: u32)
        ensures
            level == self@.needed,
    {
        self.needed
    }

    /// Where the panel was drawn in the last frame, if it was drawn.
    pub fn last_rect(&self) -> (rect: Option<Rect>)
        ensures
            rect == self@.last_rect,
    {
        self.last_rect
    }

    fn push_event(&mut self, event: InputEvent)
        ensures
            final(self)@ == (KeyboardModel {
                events: old(self)@.events.push(event@),
                ..old(self)@
            }),
    {
        let ghost before = self.events.deep_view();
        self.events.push(event);
        assert(self.events.deep_view() =~= before.push(event@));
    }
}

} // verus!
