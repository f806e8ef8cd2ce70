use vstd::prelude::*;
use vstd::string::StringExecFns;

verus! {

/// A bare description of what a call was trying to do.
#[derive(Debug, Clone, PartialEq)]
pub struct CallTarget {
    pub desc: String,
}

impl CallTarget {
    pub fn new(desc: &str) -> (r: Self)
        ensures
            r.desc@ == desc@,
    {
        CallTarget { desc: desc.to_owned() }
    }

    /// Render the target for display.
    pub fn to_text(&self) -> (r: String)
        ensures
            r@ == "target: "@ + self.desc@ + " "@,
    {
        let mut s = String::new();
        s.append("target: ");
        s.append(self.desc.as_str());
        s.append(" ");
        assert(s@ =~= "target: "@ + self.desc@ + " "@);
        s
    }
}

} // verus!
