use vstd::prelude::*;

verus! {

/// Errors of the service; each carries its message text.
#[derive(Debug, Clone)]
pub enum AppError {
    Internal(String),
}

/// Result type of the service.
pub type AppResult<T> = core::result::Result<T, AppError>;

} // verus!
