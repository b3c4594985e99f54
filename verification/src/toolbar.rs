use vstd::prelude::*;
use crate::events::MinibrowserEvent;

verus! {

/// What happened to the toolbar while it was drawn.
#[derive(Clone, Debug, PartialEq, Eq)]
pub struct ToolbarInteraction {
    pub back_clicked: bool,
    pub forward_clicked: bool,
    pub go_clicked: bool,
    /// The new text of the location field, if the user changed it.
    pub edited: Option<String>,
    /// Whether the location field gave up the focus on the Enter key.
    pub confirmed_with_enter: bool,
    /// The bottom edge of the toolbar as laid out, in device-independent units.
    pub bottom: i64,
}

/// The queue entry of a button, if it was clicked.
pub open spec fn intent_if(clicked: bool, event: MinibrowserEvent) -> Seq<MinibrowserEvent> {
    if clicked {
        seq![event]
    } else {
        seq![]
    }
}

impl ToolbarInteraction {
    /// The intents that the toolbar queues, in order: back, forward, the Go
    /// button, and Go again for a confirmation with Enter.
    pub open spec fn intents(self) -> Seq<MinibrowserEvent> {
        intent_if(self.back_clicked, MinibrowserEvent::Back)
            + intent_if(self.forward_clicked, MinibrowserEvent::Forward)
            + intent_if(self.go_clicked, MinibrowserEvent::Go)
            + intent_if(self.confirmed_with_enter, MinibrowserEvent::Go)
    }

    /// The dirty flag after the toolbar was drawn, given the flag before:
    /// a confirmation clears it, an edit sets it, and Enter outranks an edit
    /// of the same frame, which outranks the Go button.
    pub open spec fn dirty_after(self, dirty: bool) -> bool {
        if self.confirmed_with_enter {
            false
        } else if self.edited.is_some() {
            true
        } else if self.go_clicked {
            false
        } else {
            dirty
        }
    }

    /// The location text after the toolbar was drawn, given the text before.
    pub open spec fn text_after(self, text: Seq<char>) -> Seq<char> {
        match self.edited {
            Some(edited) => edited@,
            None => text,
        }
    }
}

} // verus!
