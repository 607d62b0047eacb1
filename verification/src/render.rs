//! Values that write themselves to a sink.

use vstd::prelude::*;
use vstd::string::StringExecFns;

verus! {

/// A value that can write its text to a sink.
pub trait Render {
    /// The text that `render` appends.
    spec fn text(&self) -> Seq<char>;

    /// Appends the value's text to `writer`.
    fn render(&self, writer: &mut String)
        ensures
            final(writer)@ == old(writer)@ + self.text(),
    ;
}

/// Text renders as it is.
impl Render for str {
    open spec fn text(&self) -> Seq<char> {
        self@
    }

    fn render(&self, writer: &mut String) {
        writer.append(self);
    }
}

} // verus!
