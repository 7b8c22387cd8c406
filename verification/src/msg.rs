//! Widget state of the message popup.

use vstd::prelude::*;

verus! {

/// A modal popup showing one message until closed.
pub struct MsgComponent {
    /// the message text
    pub msg: String,
    /// whether the popup is shown
    pub visible: bool,
}

impl MsgComponent {
    /// Creates a hidden, empty popup.
    pub fn new() -> (r: Self)
        ensures
            r.msg@ == Seq::<char>::empty(),
            !r.visible,
    {
        MsgComponent { msg: String::new(), visible: false }
    }

    /// Shows the popup with the given message.
    pub fn show_msg(&mut self, msg: &str)
        ensures
            final(self).msg@ == msg@,
            final(self).visible,
    {
        self.msg = msg.to_owned();
        self.show();
    }

    /// True iff the popup is shown.
    pub fn is_visible(&self) -> (r: bool)
        ensures
            r == self.visible,
    {
        self.visible
    }

    /// Closes the popup.
    pub fn close(&mut self)
        ensures
            *final(self) == (MsgComponent { visible: false, ..*old(self) }),
    {
        self.visible = false;
    }

    /// Shows the popup.
    pub fn show(&mut self)
        ensures
            *final(self) == (MsgComponent { visible: true, ..*old(self) }),
    {
        self.visible = true;
    }
}

} // verus!
