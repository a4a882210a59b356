//! Hook for the trading-signal predictor. The numeric prediction pipeline
//! works in floating point and runs at the application edge; what is kept
//! here is the service handle and where the model lives.

use vstd::prelude::*;
use vstd::string::StringExecFns;

use crate::errors::AppError;

verus! {

/// Handle on the signal predictor; remembers where the model file lives.
pub struct AiTradingService {
    model_path: String,
}

impl View for AiTradingService {
    /// The configured model path.
    type V = Seq<char>;

    closed spec fn view(&self) -> Seq<char> {
        self.model_path@
    }
}

impl AiTradingService {
    /// A service pointed at the given model file. Construction itself cannot
    /// fail; the model is only consulted later.
    pub fn new(model_path: &str) -> (r: Result<AiTradingService, AppError>)
        ensures
            r matches Ok(s) && s@ == model_path@,
    {
        Ok(AiTradingService { model_path: String::from_str(model_path) })
    }
}

} // verus!
