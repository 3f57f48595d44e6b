//! The calls into egui. Nothing in this file is proved: each item states what the
//! keyboard takes on trust about the host.
use crate::events::{KeyCode, Modifiers};
use crate::frame::{panel_keys, panel_taps};
use crate::geometry::Rect;
use crate::keyboard::Keyboard;
use crate::layouts::Key;
use crate::text::text_view;
use vstd::prelude::*;

verus! {

/// egui's handle to the state of the whole user interface. Opaque here.
#[verifier::external_type_specification]
#[verifier::external_body]
pub struct ExContext(egui::Context);

/// egui's region of the screen that widgets are being added to. Opaque here.
#[verifier::external_type_specification]
#[verifier::external_body]
pub struct ExUi(egui::Ui);

/// egui's identifier of a widget. Opaque here: the keyboard stores one and hands it
/// back, and never looks inside.
#[verifier::external_type_specification]
#[verifier::external_body]
pub struct ExId(egui::Id);

/// What egui reports of a widget after adding it. Opaque here.
#[verifier::external_type_specification]
#[verifier::external_body]
pub struct ExResponse(egui::Response);

/// `egui::Context::wants_keyboard_input`: whether some widget is listening for text
/// input right now. The answer is the host's to give; nothing is claimed of it.
#[verifier::external_body]
pub(crate) fn wants_keyboard_input(ctx: &egui::Context) -> (wanted: bool) {
    ctx.wants_keyboard_input()
}

/// `egui::Memory::focused`, read through `egui::Context::memory`: the widget that
/// holds keyboard focus, if any. Nothing is claimed of the answer.
#[verifier::external_body]
pub(crate) fn focused_widget(ctx: &egui::Context) -> (focused: Option<egui::Id>) {
    ctx.memory(|memory| memory.focused())
}

/// `egui::Memory::request_focus`, called through `egui::Context::memory_mut`: gives
/// keyboard focus to `id`. egui accepts any identifier, also one of a widget that is
/// gone.
#[verifier::external_body]
pub(crate) fn request_focus(ctx: &egui::Context, id: egui::Id) {
    ctx.memory_mut(|memory| memory.request_focus(id));
}

/// `egui::Context::request_repaint`: asks for another frame right after this one.
#[verifier::external_body]
pub(crate) fn request_repaint(ctx: &egui::Context) {
    ctx.request_repaint();
}

/// Clears `egui::PlatformOutput::ime` through `egui::Context::output_mut`, so that the
/// platform does not raise its own keyboard for this frame.
#[verifier::external_body]
pub(crate) fn suppress_native_keyboard(ctx: &egui::Context) {
    ctx.output_mut(|output| output.ime = None);
}

/// `egui::Context::content_rect`: the part of the screen that content may use, each
/// coordinate cut down to a whole point. Nothing is claimed of the answer.
#[verifier::external_body]
pub(crate) fn content_rect(ctx: &egui::Context) -> (screen: Rect) {
    let rect = ctx.content_rect();
    Rect {
        min_x: rect.min.x as i32,
        min_y: rect.min.y as i32,
        max_x: rect.max.x as i32,
        max_y: rect.max.y as i32,
    }
}

/// Appends `egui::Event::Text` with the given text to the events of this frame,
/// through `egui::Context::input_mut`.
#[verifier::external_body]
pub(crate) fn send_text(ctx: &egui::Context, text: String) {
    ctx.input_mut(|input| input.events.push(egui::Event::Text(text)));
}

/// Appends `egui::Event::Key` with the given fields to the events of this frame,
/// through `egui::Context::input_mut`.
#[verifier::external_body]
pub(crate) fn send_key(
    ctx: &egui::Context,
    key: KeyCode,
    physical_key: Option<KeyCode>,
    pressed: bool,
    repeat: bool,
    modifiers: Modifiers,
) {
    let KeyCode::Backspace = key;
    let key = egui::Key::Backspace;
    let physical_key = physical_key.map(|KeyCode::Backspace| egui::Key::Backspace);
    let Modifiers { alt, ctrl, shift, mac_cmd, command } = modifiers;
    let modifiers = egui::Modifiers { alt, ctrl, shift, mac_cmd, command };
    let event = egui::Event::Key { key, physical_key, pressed, repeat, modifiers };
    ctx.input_mut(|input| input.events.push(event));
}

/// Sets `egui::Spacing::item_spacing` of this region to zero, through
/// `egui::Ui::style_mut`, so that the keys touch.
#[verifier::external_body]
pub(crate) fn remove_item_spacing(ui: &mut egui::Ui) {
    ui.style_mut().spacing.item_spacing = egui::Vec2::ZERO;
}

/// Adds a frameless `egui::Button` with `label` in heading style, at least
/// `min_width` by `min_height` points, to the column with the given index, laid out by
/// `egui::Ui::vertical_centered_justified`. Returns `egui::Response::clicked` of the
/// button: whether it was tapped in this frame. Nothing is claimed of the answer;
/// the columns are as many after the call as before.
#[verifier::external_body]
pub(crate) fn key_button(
    columns: &mut [egui::Ui],
    column: usize,
    label: &str,
    min_width: u16,
    min_height: u16,
) -> (clicked: bool)
    requires
        column < old(columns)@.len(),
    ensures
        final(columns)@.len() == old(columns)@.len(),
{
    let text = egui::WidgetText::from(label).heading();
    let size = egui::Vec2::new(min_width.into(), min_height.into());
    let button = egui::Button::new(text).frame(false).min_size(size);
    columns[column].vertical_centered_justified(|ui| ui.add(button).clicked()).inner
}

/// Adds a frameless `egui::Button` with `label`, at least `min_width` by `min_height`
/// points, to `ui`. Returns `egui::Response::clicked` of the button: whether it was
/// tapped in this frame. Nothing is claimed of the answer.
#[verifier::external_body]
pub(crate) fn plain_button(
    ui: &mut egui::Ui,
    label: &str,
    min_width: u16,
    min_height: u16,
) -> (clicked: bool) {
    let size = egui::Vec2::new(min_width.into(), min_height.into());
    ui.add(egui::Button::new(label).frame(false).min_size(size)).clicked()
}

/// `egui::Response::rect`: where the widget was drawn, each coordinate cut down to a
/// whole point. Nothing is claimed of the answer.
#[verifier::external_body]
pub(crate) fn response_rect(response: &egui::Response) -> (rect: Rect) {
    Rect {
        min_x: response.rect.min.x as i32,
        min_y: response.rect.min.y as i32,
        max_x: response.rect.max.x as i32,
        max_y: response.rect.max.y as i32,
    }
}

/// `egui::Response::contains_pointer`: whether the pointer is over the widget.
/// Nothing is claimed of the answer.
#[verifier::external_body]
pub(crate) fn response_contains_pointer(response: &egui::Response) -> (inside: bool) {
    response.contains_pointer()
}

/// `egui::Ui::columns`: splits `ui` into as many columns as `row` has keys and draws
/// the keys of `row` into them. egui runs the closure it is given once, on exactly
/// that many columns, so the keyboard is left as drawing the row leaves it.
#[verifier::external_body]
pub(crate) fn key_row(
    keyboard: &mut Keyboard,
    ui: &mut egui::Ui,
    ctx: &egui::Context,
    row: &Vec<Key>,
)
    requires
        row@.len() > 0,
    ensures
        panel_taps(old(keyboard)@, final(keyboard)@, row.deep_view().to_set()),
{
    ui.columns(row.len(), |columns| keyboard.row_contents(columns, ctx, row));
}

/// `egui::Window::show`: draws the panel, a window without title bar, docked to the
/// bottom of the screen, as wide as the space that is left, above everything else.
/// egui runs the closure it is given at most once, so the keyboard is left as
/// drawing the keys leaves it. Returns what egui reports of the window.
#[verifier::external_body]
pub(crate) fn panel(
    keyboard: &mut Keyboard,
    ctx: &egui::Context,
    keys: &Vec<Vec<Key>>,
    clipboard: &Option<String>,
) -> (shown: Option<egui::Response>)
    ensures
        panel_taps(
            old(keyboard)@,
            final(keyboard)@,
            panel_keys(keys.deep_view(), text_view(*clipboard)),
        ),
{
    let width = ctx.available_rect().width();
    let shown = egui::Window::new("Keyboard")
        .frame(egui::Frame::NONE.fill(ctx.style().visuals.extreme_bg_color))
        .collapsible(false)
        .resizable(false)
        .title_bar(false)
        .anchor(egui::Align2::CENTER_BOTTOM, egui::Vec2::ZERO)
        .fixed_size(egui::vec2(width, egui::Vec2::ZERO.y))
        .order(egui::Order::Foreground)
        .show(ctx, |ui| keyboard.panel_contents(ui, ctx, keys, clipboard));
    shown.map(|window| window.response)
}

} // verus!
