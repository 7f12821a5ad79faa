//! What the generation of C++ code for a list of declarations comes to.

use crate::codegen_cpp::function::AdditionalFunctionView;
use crate::text::Text;
use vstd::prelude::*;

verus! {

/// What was generated until the end, or until something went wrong, and, if so, what.
#[verifier::ext_equal]
pub struct Outcome {
    pub functions: Seq<AdditionalFunctionView>,
    pub error: Option<Text>,
}

impl Outcome {
    /// Nothing was generated, and nothing went wrong.
    pub open spec fn nothing() -> Outcome {
        Outcome { functions: Seq::empty(), error: None }
    }

    /// One thing was generated.
    pub open spec fn one(function: AdditionalFunctionView) -> Outcome {
        Outcome { functions: seq![function], error: None }
    }

    /// One thing was generated, or went wrong.
    pub open spec fn of(generated: Result<AdditionalFunctionView, Text>) -> Outcome {
        match generated {
            Ok(function) => Outcome::one(function),
            Err(e) => Outcome { functions: Seq::empty(), error: Some(e) },
        }
    }

    /// This, and after it `next`, unless something went wrong before that.
    pub open spec fn and_next(self, next: Outcome) -> Outcome {
        if self.error is Some {
            self
        } else {
            Outcome { functions: self.functions + next.functions, error: next.error }
        }
    }

    /// Whether everything was generated, as a result.
    pub open spec fn result(self) -> Result<(), Text> {
        match self.error {
            None => Ok(()),
            Some(e) => Err(e),
        }
    }
}

} // verus!
