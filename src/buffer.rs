use vstd::prelude::*;
use vstd::string::StringExecFns;

verus! {

/// Script text that can only grow at its end.
pub struct ScriptBuffer {
    text: String,
}

impl View for ScriptBuffer {
    type V = Seq<char>;

    closed spec fn view(&self) -> Seq<char> {
        self.text@
    }
}

impl ScriptBuffer {
    pub fn new() -> (r: ScriptBuffer)
        ensures
            r@ == Seq::<char>::empty(),
    {
        ScriptBuffer { text: String::new() }
    }

    /// Appends `s` at the end.
    pub fn append(&mut self, s: &str)
        ensures
            final(self)@ == old(self)@ + s@,
    {
        self.text.append(s);
    }

    /// The whole text.
    pub fn as_string(&self) -> (r: &String)
        ensures
            r@ == self@,
    {
        &self.text
    }
}

} // verus!
