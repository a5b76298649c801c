use vstd::prelude::*;

verus! {

/// A string as the engine holds it: text that ends at the first NUL, so a
/// NUL cannot stand inside it.
#[derive(Debug, Clone, PartialEq, Eq)]
pub struct MlxString {
    text: String,
}

impl View for MlxString {
    type V = Seq<char>;

    closed spec fn view(&self) -> Seq<char> {
        self.text@
    }
}

impl MlxString {
    /// The string holding `value`.
    pub fn new(value: &str) -> (r: MlxString)
        requires
            forall|i: int| 0 <= i < value@.len() ==> value@[i] != '\u{0}',
        ensures
            r@ == value@,
    {
        MlxString { text: value.to_owned() }
    }

    /// The text.
    pub fn as_str(&self) -> (r: &str)
        ensures
            r@ == self@,
    {
        self.text.as_str()
    }

    /// The text, as an owned string.
    pub fn to_string(&self) -> (r: String)
        ensures
            r@ == self@,
    {
        self.text.clone()
    }
}

} // verus!
