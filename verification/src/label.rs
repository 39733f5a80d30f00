use vstd::prelude::*;

verus! {

/// An object that was given a name to tell it by.
pub trait Label {
    /// The name of the object.
    spec fn label_text(&self) -> Seq<char>;

    /// A copy of the name of the object.
    fn label(&self) -> (label: String)
        ensures
            label@ == self.label_text(),
    ;
}

} // verus!
