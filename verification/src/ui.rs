use vstd::prelude::*;

verus! {

/// What the user asks for through the controls.
#[derive(Clone, Copy, Debug, PartialEq, Eq, Structural)]
pub enum UiEvent {
    /// Keep the picture.
    Save,
    /// Empty the tray.
    Clear,
    /// Add points where the outlines have been stretched thin.
    Scale,
}

impl UiEvent {
    /// The event of one frame, from the buttons that were clicked in it.
    /// Where more than one was clicked the later button wins: scale over
    /// clear, clear over save.
    pub fn from_clicks(save: bool, clear: bool, scale: bool) -> (event: Option<UiEvent>)
        ensures
            event == if scale {
                Some(UiEvent::Scale)
            } else if clear {
                Some(UiEvent::Clear)
            } else if save {
                Some(UiEvent::Save)
            } else {
                None
            },
    {
        let mut event = None;
        if save {
            event = Some(UiEvent::Save);
        }
        if clear {
            event = Some(UiEvent::Clear);
        }
        if scale {
            event = Some(UiEvent::Scale);
        }
        event
    }
}

} // verus!
