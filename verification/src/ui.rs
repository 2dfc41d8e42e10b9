//! The per-frame UI description.
//!
//! Each frame the shell declares the same static panel: a heading, a little
//! vertical space, a static timing label, and a quit button.  The GUI engine
//! owns all widget interaction state; the one thing the description reads
//! back from it is whether the quit button was clicked this frame, and that
//! flag is returned as a value rather than kept anywhere.

use vstd::prelude::*;

verus! {

/// One widget of the panel, as declared to the GUI engine.
#[derive(Clone, Copy, Debug, PartialEq, Eq)]
pub enum UiElement {
    /// A heading line.
    Heading { text: &'static str },
    /// Vertical spacing, in whole logical points.
    Space { points: u32 },
    /// A static text label.
    Label { text: &'static str },
    /// A clickable button.
    Button { text: &'static str },
}

/// The mathematical value of a widget: its kind and what it shows.
pub enum UiElementModel {
    Heading { text: Seq<char> },
    Space { points: u32 },
    Label { text: Seq<char> },
    Button { text: Seq<char> },
}

impl View for UiElement {
    type V = UiElementModel;

    open spec fn view(&self) -> UiElementModel {
        match *self {
            UiElement::Heading { text } => UiElementModel::Heading { text: text@ },
            UiElement::Space { points } => UiElementModel::Space { points },
            UiElement::Label { text } => UiElementModel::Label { text: text@ },
            UiElement::Button { text } => UiElementModel::Button { text: text@ },
        }
    }
}

/// The panel's fixed layout: the same four widgets, every frame.
pub open spec fn ui_layout() -> Seq<UiElementModel> {
    seq![
        UiElementModel::Heading { text: "Timings"@ },
        UiElementModel::Space { points: 5u32 },
        UiElementModel::Label { text: "draw 0.3ms"@ },
        UiElementModel::Button { text: "Quit"@ },
    ]
}

/// What one frame of the UI declares, and what it read back: the widgets in
/// declaration order, and whether the quit button was clicked this frame.
pub struct UiFrame {
    pub elements: Vec<UiElement>,
    pub quit: bool,
}

impl View for UiFrame {
    type V = Seq<UiElementModel>;

    open spec fn view(&self) -> Seq<UiElementModel> {
        self.elements@.map_values(|e: UiElement| e@)
    }
}

/// What the UI description promises of a frame: the widgets are the fixed
/// layout, and the quit flag is exactly the engine's click answer.
pub open spec fn describes_ui(frame: UiFrame, quit_clicked: bool) -> bool {
    frame@ == ui_layout() && frame.quit == quit_clicked
}

/// Declare the panel for one frame.  The widgets depend on nothing: they are
/// the fixed layout whatever the interaction was.  `quit_clicked` is the GUI
/// engine's answer for the quit button this frame, and is handed back
/// unchanged as the frame's quit flag.
pub fn describe_ui(quit_clicked: bool) -> (frame: UiFrame)
    ensures
        describes_ui(frame, quit_clicked),
{
    let mut elements: Vec<UiElement> = Vec::new();
    elements.push(UiElement::Heading { text: "Timings" });
    elements.push(UiElement::Space { points: 5 });
    elements.push(UiElement::Label { text: "draw 0.3ms" });
    elements.push(UiElement::Button { text: "Quit" });
    let frame = UiFrame { elements, quit: quit_clicked };
    proof {
        assert(frame@ =~= ui_layout());
    }
    frame
}

/// The UI description is deterministic per input: any two frames that meet
/// its contract declare exactly the same widgets, whatever the interaction
/// was; the widgets are always the heading, the label and the button (with
/// the spacing between them); and with no interaction the quit flag is false.
pub proof fn lemma_ui_description_deterministic(
    a: UiFrame,
    b: UiFrame,
    a_clicked: bool,
    b_clicked: bool,
)
    requires
        describes_ui(a, a_clicked),
        describes_ui(b, b_clicked),
    ensures
        a@ == b@,
        a@.len() == 4,
        a@[0] matches UiElementModel::Heading { text } && text == "Timings"@,
        a@[1] matches UiElementModel::Space { points } && points == 5,
        a@[2] matches UiElementModel::Label { text } && text == "draw 0.3ms"@,
        a@[3] matches UiElementModel::Button { text } && text == "Quit"@,
        !a_clicked ==> a.quit == false,
{
}

} // verus!
