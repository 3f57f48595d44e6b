use egui_keyboard::events::{InputEvent, KeyCode, Modifiers};
use egui_keyboard::geometry::Rect;
use egui_keyboard::keyboard::{Keyboard, NEED_MAX};

fn screen() -> egui::Rect {
    egui::Rect::from_min_max(egui::pos2(0.0, 0.0), egui::pos2(800.0, 600.0))
}

/// One frame of an application with a single text field and the keyboard.
fn frame(
    ctx: &egui::Context,
    keyboard: &mut Keyboard,
    text: &mut String,
    focus: bool,
    events: Vec<egui::Event>,
) {
    let input = egui::RawInput { screen_rect: Some(screen()), events, ..Default::default() };
    let _ = ctx.run(input, |ctx| {
        egui::CentralPanel::default().show(ctx, |ui| {
            keyboard.pump_events(ctx);
            let field = ui.add(egui::TextEdit::singleline(text).id(egui::Id::new("field")));
            if focus {
                field.request_focus();
            }
            keyboard.show(ctx);
        });
    });
}

/// The middle of the key in the given row and column of the panel.
fn key_centre(panel: Rect, row: usize, column: usize, columns: usize) -> egui::Pos2 {
    let width = (panel.max_x - panel.min_x) as f32;
    let x = panel.min_x as f32 + (column as f32 + 0.5) * width / columns as f32;
    let y = panel.min_y as f32 + 50.0 * row as f32 + 25.0;
    egui::pos2(x, y)
}

fn press(pos: egui::Pos2, pressed: bool) -> egui::Event {
    egui::Event::PointerButton {
        pos,
        button: egui::PointerButton::Primary,
        pressed,
        modifiers: egui::Modifiers::NONE,
    }
}

/// Brings the keyboard up on the text field and returns where it was drawn.
fn raise(ctx: &egui::Context, keyboard: &mut Keyboard, text: &mut String) -> Rect {
    frame(ctx, keyboard, text, true, vec![]);
    frame(ctx, keyboard, text, false, vec![]);
    frame(ctx, keyboard, text, false, vec![]);
    keyboard.last_rect().expect("the keyboard is up")
}

fn tap(ctx: &egui::Context, keyboard: &mut Keyboard, text: &mut String, pos: egui::Pos2) {
    frame(ctx, keyboard, text, false, vec![egui::Event::PointerMoved(pos), press(pos, true)]);
    frame(ctx, keyboard, text, false, vec![press(pos, false)]);
}

#[test]
fn hidden_while_nothing_wants_text() {
    let ctx = egui::Context::default();
    let mut keyboard = Keyboard::default();
    let mut text = String::new();
    frame(&ctx, &mut keyboard, &mut text, false, vec![]);
    assert_eq!(keyboard.need_level(), 0);
    assert_eq!(keyboard.last_rect(), None);
    assert_eq!(keyboard.input_widget(), None);
}

#[test]
fn shown_once_a_field_has_focus() {
    let ctx = egui::Context::default();
    let mut keyboard = Keyboard::default();
    let mut text = String::new();
    let panel = raise(&ctx, &mut keyboard, &mut text);
    assert_eq!(keyboard.need_level(), NEED_MAX);
    assert_eq!(keyboard.input_widget(), Some(egui::Id::new("field")));
    assert_eq!(panel.max_y, 600);
    assert_eq!(panel.min_x, 0);
    assert_eq!(panel.max_x, 800);
    assert_eq!(panel.max_y - panel.min_y, 250);
}

#[test]
fn tap_on_a_key_types_into_the_field() {
    let ctx = egui::Context::default();
    let mut keyboard = Keyboard::default();
    let mut text = String::new();
    let panel = raise(&ctx, &mut keyboard, &mut text);
    // "s" is the second key of the third row.
    tap(&ctx, &mut keyboard, &mut text, key_centre(panel, 2, 1, 10));
    assert_eq!(keyboard.pending_events(), vec![InputEvent::Text("s".to_string())]);
    assert_eq!(keyboard.input_widget(), Some(egui::Id::new("field")));
    frame(&ctx, &mut keyboard, &mut text, false, vec![]);
    assert_eq!(text, "s");
    assert!(keyboard.pending_events().is_empty());
    assert!(ctx.memory(|memory| memory.has_focus(egui::Id::new("field"))));
}

#[test]
fn pump_events_hands_events_over_in_order() {
    let ctx = egui::Context::default();
    let mut keyboard = Keyboard::default();
    keyboard.text_key("h");
    keyboard.backspace_key();
    keyboard.text_key("i");
    let mut seen = Vec::new();
    let input = egui::RawInput { screen_rect: Some(screen()), ..Default::default() };
    let _ = ctx.run(input, |ctx| {
        keyboard.pump_events(ctx);
        seen = ctx.input(|input| input.events.clone());
    });
    let backspace = egui::Event::Key {
        key: egui::Key::Backspace,
        physical_key: None,
        pressed: true,
        repeat: false,
        modifiers: egui::Modifiers::NONE,
    };
    assert_eq!(
        seen,
        vec![egui::Event::Text("h".to_string()), backspace, egui::Event::Text("i".to_string())]
    );
    assert!(keyboard.pending_events().is_empty());
    assert_eq!(
        InputEvent::backspace(),
        InputEvent::Key {
            key: KeyCode::Backspace,
            physical_key: None,
            pressed: true,
            repeat: false,
            modifiers: Modifiers::none(),
        }
    );
}

/// One frame in which the host's answers are given by hand.
fn rendered(
    ctx: &egui::Context,
    keyboard: &mut Keyboard,
    wanted: bool,
    clipboard: Option<&str>,
    events: Vec<egui::Event>,
) {
    let input = egui::RawInput { screen_rect: Some(screen()), events, ..Default::default() };
    let _ = ctx.run(input, |ctx| {
        egui::CentralPanel::default().show(ctx, |_ui| {
            let focused = if wanted { Some(egui::Id::new("field")) } else { None };
            keyboard.render(ctx, wanted, focused, clipboard.map(|text| text.to_string()));
        });
    });
}

fn lose_focus(ctx: &egui::Context) {
    ctx.memory_mut(|memory| memory.surrender_focus(egui::Id::new("field")));
}

#[test]
fn keyboard_stays_for_nineteen_idle_frames() {
    let ctx = egui::Context::default();
    let mut keyboard = Keyboard::default();
    let mut text = String::new();
    raise(&ctx, &mut keyboard, &mut text);
    assert_eq!(keyboard.need_level(), 20);
    lose_focus(&ctx);
    for idle in 1..=19 {
        frame(&ctx, &mut keyboard, &mut text, false, vec![]);
        assert_eq!(keyboard.need_level(), 20 - idle);
        assert!(keyboard.last_rect().is_some(), "idle frame {idle}");
    }
    for _ in 20..=21 {
        frame(&ctx, &mut keyboard, &mut text, false, vec![]);
        assert_eq!(keyboard.need_level(), 0);
        assert_eq!(keyboard.last_rect(), None);
    }
    assert_eq!(keyboard.input_widget(), Some(egui::Id::new("field")));
}

#[test]
fn shown_keyboard_asks_for_another_frame() {
    let ctx = egui::Context::default();
    let mut keyboard = Keyboard::default();
    let input = egui::RawInput { screen_rect: Some(screen()), ..Default::default() };
    let _ = ctx.run(input, |ctx| {
        keyboard.render(ctx, true, None, None);
    });
    assert!(ctx.has_requested_repaint());
}

#[test]
fn safe_rect_follows_the_panel() {
    let ctx = egui::Context::default();
    let mut keyboard = Keyboard::default();
    let mut text = String::new();
    frame(&ctx, &mut keyboard, &mut text, false, vec![]);
    let whole = Rect { min_x: 0, min_y: 0, max_x: 800, max_y: 600 };
    assert_eq!(keyboard.safe_rect(&ctx), whole);
    raise(&ctx, &mut keyboard, &mut text);
    assert_eq!(keyboard.safe_rect(&ctx), Rect { min_x: 0, min_y: 0, max_x: 800, max_y: 350 });
}

#[test]
fn tap_on_shift_switches_the_keys() {
    let ctx = egui::Context::default();
    let mut keyboard = Keyboard::default();
    let mut text = String::new();
    let panel = raise(&ctx, &mut keyboard, &mut text);
    tap(&ctx, &mut keyboard, &mut text, key_centre(panel, 3, 0, 12));
    assert!(keyboard.is_upper());
    assert!(keyboard.pending_events().is_empty());
    assert!(ctx.memory(|memory| memory.has_focus(egui::Id::new("field"))));
    tap(&ctx, &mut keyboard, &mut text, key_centre(panel, 2, 1, 10));
    frame(&ctx, &mut keyboard, &mut text, false, vec![]);
    assert_eq!(text, "S");
}

#[test]
fn tap_on_backspace_deletes() {
    let ctx = egui::Context::default();
    let mut keyboard = Keyboard::default();
    let mut text = String::new();
    let panel = raise(&ctx, &mut keyboard, &mut text);
    tap(&ctx, &mut keyboard, &mut text, key_centre(panel, 1, 0, 10));
    tap(&ctx, &mut keyboard, &mut text, key_centre(panel, 1, 1, 10));
    frame(&ctx, &mut keyboard, &mut text, false, vec![]);
    assert_eq!(text, "qw");
    tap(&ctx, &mut keyboard, &mut text, key_centre(panel, 3, 11, 12));
    assert_eq!(keyboard.pending_events(), vec![InputEvent::backspace()]);
    frame(&ctx, &mut keyboard, &mut text, false, vec![]);
    assert_eq!(text, "q");
}

#[test]
fn two_taps_are_typed_in_order() {
    let ctx = egui::Context::default();
    let mut keyboard = Keyboard::default();
    let mut text = String::new();
    let panel = raise(&ctx, &mut keyboard, &mut text);
    // "h" and "i" in the QWERTY grid.
    tap(&ctx, &mut keyboard, &mut text, key_centre(panel, 2, 5, 10));
    tap(&ctx, &mut keyboard, &mut text, key_centre(panel, 1, 7, 10));
    frame(&ctx, &mut keyboard, &mut text, false, vec![]);
    assert_eq!(text, "hi");
}

#[test]
fn no_clipboard_key_without_clipboard_text() {
    let ctx = egui::Context::default();
    let mut keyboard = Keyboard::default();
    for clipboard in [None, Some("")] {
        for _ in 0..3 {
            rendered(&ctx, &mut keyboard, true, clipboard, vec![]);
            let panel = keyboard.last_rect().expect("the keyboard is up");
            assert_eq!(panel.max_y - panel.min_y, 250);
        }
    }
}

#[test]
fn clipboard_key_comes_first_and_inserts_the_text() {
    let ctx = egui::Context::default();
    let mut keyboard = Keyboard::default();
    for _ in 0..3 {
        rendered(&ctx, &mut keyboard, true, Some("copied"), vec![]);
    }
    let panel = keyboard.last_rect().expect("the keyboard is up");
    assert_eq!(panel.max_y - panel.min_y, 300);
    // The key is as wide as its label and stands at the left edge.
    let pos = egui::pos2(panel.min_x as f32 + 6.0, panel.min_y as f32 + 25.0);
    rendered(
        &ctx,
        &mut keyboard,
        true,
        Some("copied"),
        vec![egui::Event::PointerMoved(pos), press(pos, true)],
    );
    rendered(&ctx, &mut keyboard, true, Some("copied"), vec![press(pos, false)]);
    assert_eq!(keyboard.pending_events(), vec![InputEvent::Text("copied".to_string())]);
}

#[test]
fn show_without_the_clipboard_setting_offers_no_clipboard_key() {
    let ctx = egui::Context::default();
    let mut keyboard = Keyboard::default().clipboard(false);
    let mut text = String::new();
    let panel = raise(&ctx, &mut keyboard, &mut text);
    assert_eq!(panel.max_y - panel.min_y, 250);
}

#[test]
fn hidden_frame_forgets_the_panel() {
    let ctx = egui::Context::default();
    let mut keyboard = Keyboard::default();
    rendered(&ctx, &mut keyboard, true, None, vec![]);
    assert!(keyboard.last_rect().is_some());
    for _ in 0..19 {
        rendered(&ctx, &mut keyboard, false, None, vec![]);
    }
    assert!(keyboard.last_rect().is_some());
    rendered(&ctx, &mut keyboard, false, None, vec![]);
    assert_eq!(keyboard.last_rect(), None);
    assert_eq!(keyboard.input_widget(), Some(egui::Id::new("field")));
}

#[test]
fn native_keyboard_is_kept_down_while_shown() {
    let ctx = egui::Context::default();
    let mut keyboard = Keyboard::default();
    let mut text = String::new();
    let input = egui::RawInput { screen_rect: Some(screen()), ..Default::default() };
    let mut ime_set = true;
    let _ = ctx.run(input, |ctx| {
        egui::CentralPanel::default().show(ctx, |ui| {
            ui.add(egui::TextEdit::singleline(&mut text).id(egui::Id::new("field"))).request_focus();
        });
    });
    let input = egui::RawInput { screen_rect: Some(screen()), ..Default::default() };
    let _ = ctx.run(input, |ctx| {
        egui::CentralPanel::default().show(ctx, |ui| {
            ui.add(egui::TextEdit::singleline(&mut text).id(egui::Id::new("field")));
            keyboard.show(ctx);
            ime_set = ctx.output(|output| output.ime.is_some());
        });
    });
    assert!(keyboard.last_rect().is_some());
    assert!(!ime_set);
}

#[test]
fn show_with_the_clipboard_setting_draws_the_panel() {
    let ctx = egui::Context::default();
    let mut keyboard = egui_keyboard::Keyboard::default().clipboard(true);
    let mut text = String::new();
    let panel = raise(&ctx, &mut keyboard, &mut text);
    // One more row where the system clipboard has text to offer.
    let height = panel.max_y - panel.min_y;
    assert!(height == 250 || height == 300, "height {height}");
}

#[test]
fn colemak_keys_are_drawn_in_their_places() {
    let ctx = egui::Context::default();
    let mut keyboard = Keyboard::default().layout(egui_keyboard::layouts::KeyboardLayout::Colemak);
    let mut text = String::new();
    let panel = raise(&ctx, &mut keyboard, &mut text);
    tap(&ctx, &mut keyboard, &mut text, key_centre(panel, 1, 2, 10));
    tap(&ctx, &mut keyboard, &mut text, key_centre(panel, 4, 0, 1));
    frame(&ctx, &mut keyboard, &mut text, false, vec![]);
    assert_eq!(text, "f ");
}
