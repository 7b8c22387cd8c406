//! Widget state of the external-editor banner, shown while the terminal is
//! handed over to an editor process.  Launching the editor itself is the
//! shell's work.

use vstd::prelude::*;

verus! {

/// The banner shown while an external editor runs.
pub struct ExternalEditorComponent {
    /// whether the banner is shown
    pub visible: bool,
}

impl ExternalEditorComponent {
    /// Creates a hidden banner.
    pub fn new() -> (r: Self)
        ensures
            !r.visible,
    {
        ExternalEditorComponent { visible: false }
    }

    /// True iff the banner is shown.
    pub fn is_visible(&self) -> (r: bool)
        ensures
            r == self.visible,
    {
        self.visible
    }

    /// Closes the banner.
    pub fn close(&mut self)
        ensures
            !final(self).visible,
    {
        self.visible = false;
    }

    /// Shows the banner.
    pub fn show(&mut self)
        ensures
            final(self).visible,
    {
        self.visible = true;
    }
}

} // verus!
