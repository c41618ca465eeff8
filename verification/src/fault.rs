use vstd::prelude::*;

verus! {

/// An opaque, introspectable failure value: the stand-in for a boxed error
/// object. It carries the rendered description of the underlying failure.
#[derive(Debug, Clone)]
pub struct Fault {
    text: String,
}

impl Fault {
    /// Wraps a rendered failure description.
    pub fn new(text: String) -> (r: Fault)
        ensures
            r.spec_text() == text@,
    {
        Fault { text }
    }

    /// The description this fault carries.
    pub closed spec fn spec_text(&self) -> Seq<char> {
        self.text@
    }

    /// The rendered description of the underlying failure.
    pub fn text(&self) -> (r: &str)
        ensures
            r@ == self.spec_text(),
    {
        self.text.as_str()
    }
}

} // verus!
