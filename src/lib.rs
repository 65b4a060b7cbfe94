//! An error value made of a domain, a code and auxiliary information, with
//! predicates that classify the domain against the four system error domains.
pub mod error;
pub mod laws;
pub mod user_info;

pub use error::{
    ErrorInfo, NSError, COCOA_ERROR_DOMAIN, LOCALIZED_DESCRIPTION_KEY, MACH_ERROR_DOMAIN,
    OS_STATUS_ERROR_DOMAIN, POSIX_ERROR_DOMAIN,
};
pub use user_info::UserInfo;
