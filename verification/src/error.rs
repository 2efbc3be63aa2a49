//! The application's error taxonomy.

use vstd::prelude::*;
use vstd::string::StringExecFns;

verus! {

/// An error of the backend, sorted by where it arose: the network, the local
/// file system, a rejected argument, or the surrounding system.
#[derive(Debug, Clone)]
pub enum AppError {
    /// An upstream or transport failure.
    Network(String),
    /// A local file-system failure.
    Io(String),
    /// An argument the operation rejects.
    InvalidInput(String),
    /// Any other failure of the surrounding system.
    System(String),
}

impl AppError {
    /// The error rendered as one line: a fixed prefix for the category,
    /// then the carried detail.
    pub fn message(&self) -> (r: String)
        ensures
            self matches AppError::Network(m) ==> r@ == "网络错误: "@ + m@,
            self matches AppError::Io(m) ==> r@ == "IO 错误: "@ + m@,
            self matches AppError::InvalidInput(m) ==> r@ == "无效参数: "@ + m@,
            self matches AppError::System(m) ==> r@ == "系统错误: "@ + m@,
    {
        match self {
            AppError::Network(m) => String::from_str("网络错误: ").concat(m.as_str()),
            AppError::Io(m) => String::from_str("IO 错误: ").concat(m.as_str()),
            AppError::InvalidInput(m) => String::from_str("无效参数: ").concat(m.as_str()),
            AppError::System(m) => String::from_str("系统错误: ").concat(m.as_str()),
        }
    }
}

} // verus!
