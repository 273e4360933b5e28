//! The frame synchronizer: one pass per redraw.
//!
//! Each pass presents every store field through its bound controls, in a
//! fixed presentation order, and commits each user edit back into the store
//! the moment its binding is evaluated. A write made by an earlier binding is
//! therefore visible to every later binding of the same frame, never to an
//! earlier one, and by the start of the next frame every binding of a field
//! shows the one committed value.
//!
//! The animated progress display is the one binding with inverted data flow:
//! the animation flag is read at the start of the pass to decide whether to
//! animate, and overwritten at the end of the same pass with the freshly
//! observed hover state, so a hover takes effect one frame later.

use vstd::prelude::*;

use crate::store::Fraction;
use crate::store::Rgba;
use crate::store::SelectableOptions;
use crate::store::UIToolkitDemo;
use crate::store::clamp_milli;
use crate::store::fraction_of;

verus! {

/// The two global presentation modes of the rendering context. Switching is
/// a side effect on the context itself, not on the store.
#[derive(Clone, Copy, Debug, PartialEq, Eq, Structural)]
pub enum Theme {
    Dark,
    Light,
}

/// Everything the user did during one frame, one field per binding. A `None`
/// (or `false`) means the user left that control alone this frame.
pub struct FrameInput {
    /// The dark-mode button was clicked.
    pub dark_clicked: bool,
    /// The light-mode button was clicked.
    pub light_clicked: bool,
    /// New contents of the text editor, if edited.
    pub text_edit: Option<String>,
    /// Value the slider was dragged to, in thousandths of a degree.
    pub slider_drag: Option<i64>,
    /// Value the drag editor was set to, in thousandths of a degree.
    pub drag_edit: Option<i64>,
    /// Whether the pointer hovered the progress display this frame.
    pub progress_hovered: bool,
    /// New color picked in the color editor, if any.
    pub color_pick: Option<Rgba>,
    /// The checkbox was clicked (a click toggles the committed value).
    pub checkbox_clicked: bool,
    /// Choice activated in the radio-button group, if any.
    pub radio_pick: Option<SelectableOptions>,
    /// Choice activated in the selectable-label group, if any.
    pub label_pick: Option<SelectableOptions>,
    /// Choice activated in the dropdown, if any.
    pub combo_pick: Option<SelectableOptions>,
}

/// What the multi-binding groups displayed during the pass, each value taken
/// at the end of that binding's own evaluation, plus the requested theme
/// switch for the rendering context.
pub struct FrameOutput {
    /// Theme the context should switch to, if a mode button was clicked.
    pub theme_request: Option<Theme>,
    /// Scalar the slider displayed, before the drag editor was evaluated.
    pub slider_shown: u32,
    /// Scalar the drag editor displayed; it re-reads the store after the
    /// slider, so it already shows the slider's write.
    pub drag_shown: u32,
    /// Fraction the progress display rendered, derived from the scalar as
    /// committed by both scalar editors of this frame.
    pub fraction_shown: Fraction,
    /// Whether the progress display rendered its motion variant: decided by
    /// the flag committed at the end of the previous frame.
    pub progress_animated: bool,
    /// Selection the radio-button group showed at its turn.
    pub radio_shown: SelectableOptions,
    /// Selection the selectable-label group showed at its turn.
    pub label_shown: SelectableOptions,
    /// Selection the dropdown showed at its turn.
    pub combo_shown: SelectableOptions,
}

/// The scalar after one editable binding: an edit is clamped and committed,
/// no edit keeps the current value.
pub open spec fn scalar_after_edit(cur: u32, edit: Option<i64>) -> u32 {
    match edit {
        Some(v) => clamp_milli(v as int),
        None => cur,
    }
}

/// The choice after one selection group: an activation overwrites
/// unconditionally, no activation keeps the current choice.
pub open spec fn choice_after_pick(cur: SelectableOptions, pick: Option<SelectableOptions>) -> SelectableOptions {
    match pick {
        Some(c) => c,
        None => cur,
    }
}

/// The toggle after the checkbox binding: a click flips it.
pub open spec fn flag_after_click(cur: bool, clicked: bool) -> bool {
    if clicked {
        !cur
    } else {
        cur
    }
}

/// The text after the text-editor binding.
pub open spec fn text_after_edit(cur: Seq<char>, edit: Option<String>) -> Seq<char> {
    match edit {
        Some(t) => t@,
        None => cur,
    }
}

/// The color after the color-editor binding.
pub open spec fn color_after_pick(cur: Rgba, pick: Option<Rgba>) -> Rgba {
    match pick {
        Some(c) => c,
        None => cur,
    }
}

/// The theme switch the mode buttons request. The light button stands after
/// the dark button in presentation order, so if both were clicked in one
/// frame the later one wins.
pub open spec fn theme_request_of(dark_clicked: bool, light_clicked: bool) -> Option<Theme> {
    if light_clicked {
        Some(Theme::Light)
    } else if dark_clicked {
        Some(Theme::Dark)
    } else {
        None
    }
}

/// The theme of the rendering context after a requested switch is applied.
pub open spec fn theme_after(cur: Theme, request: Option<Theme>) -> Theme {
    match request {
        Some(t) => t,
        None => cur,
    }
}

/// Apply a requested theme switch to a current theme.
pub fn apply_theme(current: Theme, request: Option<Theme>) -> (t: Theme)
    ensures
        t == theme_after(current, request),
{
    match request {
        Some(t) => t,
        None => current,
    }
}

/// One synchronization pass over the whole store.
///
/// Bindings are evaluated in the fixed presentation order: mode buttons,
/// text editor, slider, drag editor, progress display, color editor,
/// checkbox, radio buttons, selectable labels, dropdown. Each editable
/// binding commits its edit at its own turn, so within the frame a write
/// propagates forward only; the contract pins every committed field and
/// every displayed value exactly.
pub fn frame_pass(store: &mut UIToolkitDemo, input: FrameInput) -> (out: FrameOutput)
    requires
        old(store).wf(),
    ensures
        final(store).wf(),
        final(store).text_input@ == text_after_edit(old(store).text_input@, input.text_edit),
        final(store).scalar == scalar_after_edit(
            scalar_after_edit(old(store).scalar, input.slider_drag),
            input.drag_edit,
        ),
        final(store).animate_progress_bar == input.progress_hovered,
        final(store).color == color_after_pick(old(store).color, input.color_pick),
        final(store).boolean == flag_after_click(old(store).boolean, input.checkbox_clicked),
        final(store).radio == choice_after_pick(
            choice_after_pick(
                choice_after_pick(old(store).radio, input.radio_pick),
                input.label_pick,
            ),
            input.combo_pick,
        ),
        out.theme_request == theme_request_of(input.dark_clicked, input.light_clicked),
        out.slider_shown == scalar_after_edit(old(store).scalar, input.slider_drag),
        out.drag_shown == final(store).scalar,
        out.fraction_shown == fraction_of(final(store).scalar),
        out.progress_animated == old(store).animate_progress_bar,
        out.radio_shown == choice_after_pick(old(store).radio, input.radio_pick),
        out.label_shown == choice_after_pick(
            choice_after_pick(old(store).radio, input.radio_pick),
            input.label_pick,
        ),
        out.combo_shown == final(store).radio,
{
    let FrameInput {
        dark_clicked,
        light_clicked,
        text_edit,
        slider_drag,
        drag_edit,
        progress_hovered,
        color_pick,
        checkbox_clicked,
        radio_pick,
        label_pick,
        combo_pick,
    } = input;

    // Mode buttons: a request for the rendering context, not a store write.
    let theme_request: Option<Theme> = if light_clicked {
        Some(Theme::Light)
    } else if dark_clicked {
        Some(Theme::Dark)
    } else {
        None
    };

    // Text editor: the one binding of the text field.
    match text_edit {
        Some(t) => store.write_text(t),
        None => {},
    }

    // Slider: commits its edit, then displays the value it committed.
    match slider_drag {
        Some(v) => store.write_scalar(v),
        None => {},
    }
    let slider_shown = store.read_scalar();

    // Drag editor: evaluated after the slider, so it re-reads the store and
    // already displays the slider's write.
    match drag_edit {
        Some(v) => store.write_scalar(v),
        None => {},
    }
    let drag_shown = store.read_scalar();

    // Progress display: a pure read of the derived fraction. It animates by
    // the flag committed at the end of the previous frame; the freshly
    // observed hover state overwrites the flag for the next frame.
    let fraction_shown = store.fraction();
    let progress_animated = store.read_animate();
    store.write_animate(progress_hovered);

    // Color editor.
    match color_pick {
        Some(c) => store.write_color(c),
        None => {},
    }

    // Checkbox: a click toggles the committed value.
    if checkbox_clicked {
        let b = store.read_boolean();
        store.write_boolean(!b);
    }

    // The three choice groups, in presentation order: a write by an earlier
    // group is visible to a later group within this same frame.
    match radio_pick {
        Some(c) => store.write_radio(c),
        None => {},
    }
    let radio_shown = store.read_radio();
    match label_pick {
        Some(c) => store.write_radio(c),
        None => {},
    }
    let label_shown = store.read_radio();
    match combo_pick {
        Some(c) => store.write_radio(c),
        None => {},
    }
    let combo_shown = store.read_radio();

    FrameOutput {
        theme_request,
        slider_shown,
        drag_shown,
        fraction_shown,
        progress_animated,
        radio_shown,
        label_shown,
        combo_shown,
    }
}

/// Law: toggling the flag twice returns it to its original value.
pub proof fn lemma_flag_toggle_involution(b: bool)
    ensures
        flag_after_click(flag_after_click(b, true), true) == b,
{
}

/// Law: applying the same theme request twice leaves the context exactly
/// where applying it once does (the switch is idempotent).
pub proof fn lemma_theme_switch_idempotent(current: Theme, request: Theme)
    ensures
        theme_after(theme_after(current, Some(request)), Some(request)) == theme_after(
            current,
            Some(request),
        ),
{
}

} // verus!
