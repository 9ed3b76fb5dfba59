use vstd::prelude::*;
use vstd::string::StringExecFns;

use crate::text::{debug_quoted, debug_text};

verus! {

/// Errors shared by the network types.
#[derive(Debug)]
pub enum FNtwrkCommonTypesErrors {
    ParsingFailure(String),
}

impl FNtwrkCommonTypesErrors {
    /// The text of the error, naming its kind and its detail.
    pub open spec fn spec_text(&self) -> Seq<char> {
        match self {
            FNtwrkCommonTypesErrors::ParsingFailure(e) => "FNtwrkCommonTypesErrors : ParsingFailure ["@
                + debug_quoted(e@) + "]"@,
        }
    }

    pub fn to_string(&self) -> (r: String)
        ensures
            r@ == self.spec_text(),
    {
        match self {
            FNtwrkCommonTypesErrors::ParsingFailure(e) => {
                let detail = debug_text(e.as_str());
                String::from_str("FNtwrkCommonTypesErrors : ParsingFailure [").concat(
                    detail.as_str(),
                ).concat("]")
            },
        }
    }
}

} // verus!
