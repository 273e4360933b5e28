//! The state store: one record of plain values, each mutated only from
//! within a frame, and the clamp policy for its bounded scalar field.
//!
//! The store is total: every read and every write succeeds. The one piece of
//! defensive behaviour is the clamp on the scalar field, which silently moves
//! an out-of-domain value to the nearest domain boundary instead of rejecting
//! it. The scalar is kept in thousandths of a degree so that its whole domain
//! is exact plain integers.

use vstd::prelude::*;

verus! {

/// Upper end of the scalar domain, in thousandths of a degree
/// (the domain itself is 0 to 360 degrees).
pub const SCALAR_MAX_MILLI: u32 = 360000;

/// The scalar the store starts with, in thousandths of a degree (42 degrees).
pub const SCALAR_DEFAULT_MILLI: u32 = 42000;

/// The mutually exclusive three-way choice: always exactly one of the three.
#[derive(Clone, Copy, Debug, PartialEq, Eq, Structural)]
pub enum SelectableOptions {
    First,
    Second,
    Third,
}

impl Default for SelectableOptions {
    /// The choice a fresh store reports as selected.
    fn default() -> (c: Self)
        ensures
            c == SelectableOptions::First,
    {
        SelectableOptions::First
    }
}

/// An RGBA color with four independent channels and no cross-channel
/// invariant.
#[derive(Clone, Copy, Debug, PartialEq, Eq, Structural)]
pub struct Rgba {
    pub r: u8,
    pub g: u8,
    pub b: u8,
    pub a: u8,
}

/// A ratio of two integers, used for the derived progress value
/// `scalar / 360 degrees`; `num <= den` means the ratio lies in `[0, 1]`.
#[derive(Clone, Copy, Debug, PartialEq, Eq, Structural)]
pub struct Fraction {
    pub num: u32,
    pub den: u32,
}

/// The single shared record behind every binding. Each bound control reads
/// and may write exactly one field; no invariant relates two fields.
pub struct UIToolkitDemo {
    /// A single binary toggle, bound to the checkbox.
    pub boolean: bool,
    /// The three-way choice, bound to the radio buttons, the selectable
    /// labels and the dropdown at once.
    pub radio: SelectableOptions,
    /// The bounded scalar, in thousandths of a degree; bound to the slider
    /// and the drag editor at once, and read by the progress display.
    pub scalar: u32,
    /// The color, bound to the color editor.
    pub color: Rgba,
    /// Whether the progress display animates; written back from the hover
    /// state observed on that display, not set directly by the user.
    pub animate_progress_bar: bool,
    /// Free-form text, bound to the single-line text editor.
    pub text_input: String,
}

/// Where a scalar write lands: an out-of-domain value is silently moved to
/// the nearest domain boundary, an in-domain value is kept as it is.
pub open spec fn clamp_milli(v: int) -> u32 {
    if v < 0 {
        0u32
    } else if v > SCALAR_MAX_MILLI {
        SCALAR_MAX_MILLI
    } else {
        v as u32
    }
}

/// The derived progress value as an exact ratio: the scalar over the full
/// domain.
pub open spec fn fraction_of(scalar: u32) -> Fraction {
    Fraction { num: scalar, den: SCALAR_MAX_MILLI }
}

/// Clamp a requested scalar value (thousandths of a degree) into the domain.
pub fn clamp_scalar(v: i64) -> (r: u32)
    ensures
        r == clamp_milli(v as int),
{
    if v < 0 {
        0
    } else if v > SCALAR_MAX_MILLI as i64 {
        SCALAR_MAX_MILLI
    } else {
        v as u32
    }
}

impl UIToolkitDemo {
    /// The store's invariant: the committed scalar lies within its domain.
    pub open spec fn wf(&self) -> bool {
        self.scalar <= SCALAR_MAX_MILLI
    }

    /// A fresh store with the starting value of every field.
    pub fn new() -> (s: Self)
        ensures
            s.wf(),
            s.boolean == false,
            s.radio == SelectableOptions::First,
            s.scalar == SCALAR_DEFAULT_MILLI,
            s.color == (Rgba { r: 144, g: 209, b: 255, a: 255 }),
            s.animate_progress_bar == true,
            s.text_input@ == Seq::<char>::empty(),
    {
        UIToolkitDemo {
            boolean: false,
            radio: SelectableOptions::First,
            scalar: SCALAR_DEFAULT_MILLI,
            color: Rgba { r: 144, g: 209, b: 255, a: 255 },
            animate_progress_bar: true,
            text_input: String::new(),
        }
    }

    /// Read the toggle; always succeeds, no error conditions.
    pub fn read_boolean(&self) -> (b: bool)
        ensures
            b == self.boolean,
    {
        self.boolean
    }

    /// Store the toggle verbatim; every other field is untouched.
    pub fn write_boolean(&mut self, b: bool)
        ensures
            *final(self) == (UIToolkitDemo { boolean: b, ..*old(self) }),
    {
        self.boolean = b;
    }

    /// Read the committed choice.
    pub fn read_radio(&self) -> (c: SelectableOptions)
        ensures
            c == self.radio,
    {
        self.radio
    }

    /// Store a choice verbatim: the unconditional overwrite
    /// `select(choice, new_value) -> new_value`, with no rejected
    /// transitions.
    pub fn write_radio(&mut self, c: SelectableOptions)
        ensures
            *final(self) == (UIToolkitDemo { radio: c, ..*old(self) }),
    {
        self.radio = c;
    }

    /// Whether a given choice value is the one currently selected.
    pub fn is_selected(&self, c: SelectableOptions) -> (r: bool)
        ensures
            r == (self.radio == c),
    {
        self.radio == c
    }

    /// Read the committed scalar, in thousandths of a degree.
    pub fn read_scalar(&self) -> (v: u32)
        ensures
            v == self.scalar,
    {
        self.scalar
    }

    /// Commit a scalar value, clamping it into the domain first; every other
    /// field is untouched, and the invariant holds afterwards.
    pub fn write_scalar(&mut self, v: i64)
        ensures
            *final(self) == (UIToolkitDemo { scalar: clamp_milli(v as int), ..*old(self) }),
            final(self).wf(),
    {
        self.scalar = clamp_scalar(v);
    }

    /// The derived progress value: a pure read, never a write.
    pub fn fraction(&self) -> (f: Fraction)
        requires
            self.wf(),
        ensures
            f == fraction_of(self.scalar),
            f.num <= f.den,
    {
        Fraction { num: self.scalar, den: SCALAR_MAX_MILLI }
    }

    /// Read the committed color.
    pub fn read_color(&self) -> (c: Rgba)
        ensures
            c == self.color,
    {
        self.color
    }

    /// Store a color verbatim; every other field is untouched.
    pub fn write_color(&mut self, c: Rgba)
        ensures
            *final(self) == (UIToolkitDemo { color: c, ..*old(self) }),
    {
        self.color = c;
    }

    /// Read the animation flag as committed at the end of the previous frame.
    pub fn read_animate(&self) -> (b: bool)
        ensures
            b == self.animate_progress_bar,
    {
        self.animate_progress_bar
    }

    /// Overwrite the animation flag with a freshly observed hover state.
    pub fn write_animate(&mut self, b: bool)
        ensures
            *final(self) == (UIToolkitDemo { animate_progress_bar: b, ..*old(self) }),
    {
        self.animate_progress_bar = b;
    }

    /// Read the committed text.
    pub fn read_text(&self) -> (t: &String)
        ensures
            t@ == self.text_input@,
    {
        &self.text_input
    }

    /// Store a text verbatim; every other field is untouched.
    pub fn write_text(&mut self, t: String)
        ensures
            *final(self) == (UIToolkitDemo { text_input: t, ..*old(self) }),
    {
        self.text_input = t;
    }
}

impl Default for UIToolkitDemo {
    /// Same starting values as `new`.
    fn default() -> (s: Self)
        ensures
            s.wf(),
            s.boolean == false,
            s.radio == SelectableOptions::First,
            s.scalar == SCALAR_DEFAULT_MILLI,
            s.color == (Rgba { r: 144, g: 209, b: 255, a: 255 }),
            s.animate_progress_bar == true,
            s.text_input@ == Seq::<char>::empty(),
    {
        UIToolkitDemo::new()
    }
}

/// Law: writing an in-domain scalar and reading it back returns the value
/// unchanged (a write commits `clamp_milli(v)`, a read returns the committed
/// value).
pub proof fn lemma_scalar_roundtrip_in_domain(v: i64)
    requires
        0 <= v <= SCALAR_MAX_MILLI,
    ensures
        clamp_milli(v as int) == v,
{
}

/// Law: writing an out-of-domain scalar commits the nearest domain boundary,
/// so reading it back returns that boundary.
pub proof fn lemma_scalar_clamped_to_boundary(v: i64)
    requires
        v < 0 || v > SCALAR_MAX_MILLI,
    ensures
        v < 0 ==> clamp_milli(v as int) == 0,
        v > SCALAR_MAX_MILLI ==> clamp_milli(v as int) == SCALAR_MAX_MILLI,
{
}

/// Law: writing a choice and reading it back returns exactly the written
/// value, whatever the store held before.
pub proof fn lemma_choice_roundtrip(s: UIToolkitDemo, c: SelectableOptions)
    ensures
        (UIToolkitDemo { radio: c, ..s }).radio == c,
{
}

/// Law: at any time exactly one of the three choice values is reported as
/// selected.
pub proof fn lemma_choice_mutually_exclusive(s: UIToolkitDemo)
    ensures
        (s.radio == SelectableOptions::First && s.radio != SelectableOptions::Second
            && s.radio != SelectableOptions::Third) || (s.radio != SelectableOptions::First
            && s.radio == SelectableOptions::Second && s.radio != SelectableOptions::Third) || (
        s.radio != SelectableOptions::First && s.radio != SelectableOptions::Second
            && s.radio == SelectableOptions::Third),
{
}

/// Law: the fraction derived from any well-formed store lies in `[0, 1]`.
pub proof fn lemma_fraction_in_unit_interval(s: UIToolkitDemo)
    requires
        s.wf(),
    ensures
        fraction_of(s.scalar).num <= fraction_of(s.scalar).den,
{
}

} // verus!
