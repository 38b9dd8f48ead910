//! What the page holds: three colour slots of three number fields each, a
//! pattern selector, a send button, and one swatch per slot.

use crate::color::ColorHsv;
use vstd::prelude::*;

verus! {

/// One of the three colours that the operator sets.
#[derive(Clone, Copy, Debug, PartialEq, Eq)]
pub enum Slot {
    Color1,
    Color2,
    Color3,
}

/// One of the three numbers that make up a colour.
#[derive(Clone, Copy, Debug, PartialEq, Eq)]
pub enum Part {
    Hue,
    Saturation,
    Value,
}

/// The name of a number field, on the page and in the request alike.
pub open spec fn field_name(slot: Slot, part: Part) -> Seq<char> {
    match (slot, part) {
        (Slot::Color1, Part::Hue) => "color1_h"@,
        (Slot::Color1, Part::Saturation) => "color1_s"@,
        (Slot::Color1, Part::Value) => "color1_v"@,
        (Slot::Color2, Part::Hue) => "color2_h"@,
        (Slot::Color2, Part::Saturation) => "color2_s"@,
        (Slot::Color2, Part::Value) => "color2_v"@,
        (Slot::Color3, Part::Hue) => "color3_h"@,
        (Slot::Color3, Part::Saturation) => "color3_s"@,
        (Slot::Color3, Part::Value) => "color3_v"@,
    }
}

/// The name of a slot's swatch on the page.
pub open spec fn swatch_name(slot: Slot) -> Seq<char> {
    match slot {
        Slot::Color1 => "color1_swatch"@,
        Slot::Color2 => "color2_swatch"@,
        Slot::Color3 => "color3_swatch"@,
    }
}

/// The name of the pattern selector, on the page and in the request alike.
pub open spec fn pattern_name() -> Seq<char> {
    "pattern"@
}

/// The name of the send button on the page.
pub open spec fn send_name() -> Seq<char> {
    "send"@
}

/// The name of a number field.
pub fn field_id(slot: Slot, part: Part) -> (id: &'static str)
    ensures
        id@ == field_name(slot, part),
{
    match (slot, part) {
        (Slot::Color1, Part::Hue) => "color1_h",
        (Slot::Color1, Part::Saturation) => "color1_s",
        (Slot::Color1, Part::Value) => "color1_v",
        (Slot::Color2, Part::Hue) => "color2_h",
        (Slot::Color2, Part::Saturation) => "color2_s",
        (Slot::Color2, Part::Value) => "color2_v",
        (Slot::Color3, Part::Hue) => "color3_h",
        (Slot::Color3, Part::Saturation) => "color3_s",
        (Slot::Color3, Part::Value) => "color3_v",
    }
}

/// The name of a slot's swatch.
pub fn swatch_id(slot: Slot) -> (id: &'static str)
    ensures
        id@ == swatch_name(slot),
{
    match slot {
        Slot::Color1 => "color1_swatch",
        Slot::Color2 => "color2_swatch",
        Slot::Color3 => "color3_swatch",
    }
}

/// The name of the pattern selector.
pub fn pattern_id() -> (id: &'static str)
    ensures
        id@ == pattern_name(),
{
    "pattern"
}

/// The name of the send button.
pub fn send_id() -> (id: &'static str)
    ensures
        id@ == send_name(),
{
    "send"
}

/// What the three fields of one slot gave when they were read, for the
/// preview: the hue in millionths of a sector, six million to the turn,
/// saturation and value in millionths. `None` stands for a field that the
/// page lacks, that is no number field, or whose number cannot be read: one
/// that is not finite, or too large for the field's type here.
#[derive(Clone, Copy, Debug, PartialEq, Eq)]
pub struct SlotInputs {
    pub h: Option<i64>,
    pub s: Option<i32>,
    pub v: Option<i32>,
}

/// The number that a reading counts as: itself, or zero where there is none.
pub open spec fn value_of(reading: Option<i32>) -> i32 {
    match reading {
        Some(x) => x,
        None => 0,
    }
}

/// The hue that a reading counts as: itself, or zero where there is none.
pub open spec fn hue_of(reading: Option<i64>) -> i64 {
    match reading {
        Some(x) => x,
        None => 0,
    }
}

/// The colour that the readings of a slot count as.
pub open spec fn color_of(inputs: SlotInputs) -> ColorHsv {
    ColorHsv { h: hue_of(inputs.h), s: value_of(inputs.s), v: value_of(inputs.v) }
}

/// The number that a reading counts as: a field that could not be read
/// counts as zero.
pub fn get_value(reading: Option<i32>) -> (x: i32)
    ensures
        x == value_of(reading),
{
    match reading {
        Some(x) => x,
        None => 0,
    }
}

/// The hue that a reading counts as: a field that could not be read counts
/// as hue zero.
pub fn get_hue(reading: Option<i64>) -> (x: i64)
    ensures
        x == hue_of(reading),
{
    match reading {
        Some(x) => x,
        None => 0,
    }
}

/// The colour of a slot as read: each field that could not be read is zero.
pub fn read_color(inputs: &SlotInputs) -> (c: ColorHsv)
    ensures
        c == color_of(*inputs),
{
    ColorHsv { h: get_hue(inputs.h), s: get_value(inputs.s), v: get_value(inputs.v) }
}

/// A field that could not be read and a field that reads zero are one and
/// the same, whatever the slot's other fields hold.
pub proof fn lemma_missing_reads_as_zero(h: Option<i64>, s: Option<i32>, v: Option<i32>)
    ensures
        color_of(SlotInputs { h: None, s, v }) == color_of(SlotInputs { h: Some(0), s, v }),
        color_of(SlotInputs { h, s: None, v }) == color_of(SlotInputs { h, s: Some(0), v }),
        color_of(SlotInputs { h, s, v: None }) == color_of(SlotInputs { h, s, v: Some(0) }),
{
}

/// A control that the panel listens to.
#[derive(Clone, Copy, Debug, PartialEq, Eq)]
pub enum Control {
    Field(Slot, Part),
    Send,
}

/// What a control can report.
#[derive(Clone, Copy, Debug, PartialEq, Eq)]
pub enum Signal {
    Change,
    MouseDown,
}

/// What the panel does in answer to a signal.
#[derive(Clone, Copy, Debug, PartialEq, Eq)]
pub enum Action {
    /// Read the slot's three fields anew and repaint its swatch.
    Sync(Slot),
    /// Encode the whole panel and send it to the device.
    Submit,
    /// Nothing.
    Ignore,
}

/// The action that answers `signal` from `control`: a change of any field
/// repaints the swatch of the field's slot, and pressing the send button
/// submits.
pub open spec fn action_for(control: Control, signal: Signal) -> Action {
    match (control, signal) {
        (Control::Field(slot, _), Signal::Change) => Action::Sync(slot),
        (Control::Send, Signal::MouseDown) => Action::Submit,
        _ => Action::Ignore,
    }
}

/// The signal that the panel waits for from `control`.
pub open spec fn awaited(control: Control) -> Signal {
    match control {
        Control::Field(_, _) => Signal::Change,
        Control::Send => Signal::MouseDown,
    }
}

/// The name under which the page reports a signal.
pub open spec fn signal_name(signal: Signal) -> Seq<char> {
    match signal {
        Signal::Change => "change"@,
        Signal::MouseDown => "mousedown"@,
    }
}

/// The name under which the page reports `signal`.
pub fn event_name(signal: Signal) -> (name: &'static str)
    ensures
        name@ == signal_name(signal),
{
    match signal {
        Signal::Change => "change",
        Signal::MouseDown => "mousedown",
    }
}

/// The signal to listen for on `control`.
pub fn listen_for(control: Control) -> (signal: Signal)
    ensures
        signal == awaited(control),
{
    match control {
        Control::Field(_, _) => Signal::Change,
        Control::Send => Signal::MouseDown,
    }
}

/// Decides what to do when `control` reports `signal`.
pub fn on_signal(control: Control, signal: Signal) -> (action: Action)
    ensures
        action == action_for(control, signal),
{
    match (control, signal) {
        (Control::Field(slot, _), Signal::Change) => Action::Sync(slot),
        (Control::Send, Signal::MouseDown) => Action::Submit,
        _ => Action::Ignore,
    }
}

/// Every control gets an answer to the signal it is listened on: a field's
/// own slot is repainted, and no other.
pub proof fn lemma_awaited_signal_acts(control: Control)
    ensures
        action_for(control, awaited(control)) == match control {
            Control::Field(slot, _) => Action::Sync(slot),
            Control::Send => Action::Submit,
        },
{
}

} // verus!
