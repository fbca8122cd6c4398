use vstd::prelude::*;

verus! {

/// A yes/no prompt: its title and the question it asks.
#[derive(Debug)]
pub struct ConfirmDialog {
    pub message: String,
    pub title: String,
}

impl ConfirmDialog {
    pub fn new(title: String, message: String) -> (r: ConfirmDialog)
        ensures
            r.title == title,
            r.message == message,
    {
        ConfirmDialog { title, message }
    }
}

} // verus!
