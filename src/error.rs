use vstd::prelude::*;

use crate::user_info::UserInfo;

verus! {

/// The key under which an error's auxiliary information holds its
/// human-readable description.
pub const LOCALIZED_DESCRIPTION_KEY: &'static str = "NSLocalizedDescription";

/// The general-purpose error domain.
pub const COCOA_ERROR_DOMAIN: &'static str = "NSCocoaErrorDomain";

/// The domain of POSIX-compatible error numbers.
pub const POSIX_ERROR_DOMAIN: &'static str = "NSPOSIXErrorDomain";

/// The domain of operating-system status codes.
pub const OS_STATUS_ERROR_DOMAIN: &'static str = "NSOSStatusErrorDomain";

/// The domain of low-level kernel errors.
pub const MACH_ERROR_DOMAIN: &'static str = "NSMachErrorDomain";

/// What an error holds: its domain, its code and its auxiliary information.
pub struct ErrorInfo {
    pub domain: Seq<char>,
    pub code: int,
    pub user_info: Map<Seq<char>, Seq<char>>,
}

impl ErrorInfo {
    /// What an error created from these three values holds: the description
    /// is the one entry of its auxiliary information.
    pub open spec fn constructed(domain: Seq<char>, code: int, description: Seq<char>) -> ErrorInfo {
        ErrorInfo {
            domain,
            code,
            user_info: map![LOCALIZED_DESCRIPTION_KEY@ => description],
        }
    }

    /// The description held under the localized-description key.
    pub open spec fn description(self) -> Seq<char> {
        self.user_info[LOCALIZED_DESCRIPTION_KEY@]
    }

    /// The domain is the general-purpose error domain.
    pub open spec fn is_cocoa(self) -> bool {
        self.domain == COCOA_ERROR_DOMAIN@
    }

    /// The domain is the POSIX error domain.
    pub open spec fn is_posix(self) -> bool {
        self.domain == POSIX_ERROR_DOMAIN@
    }

    /// The domain is the operating-system status error domain.
    pub open spec fn is_os_status(self) -> bool {
        self.domain == OS_STATUS_ERROR_DOMAIN@
    }

    /// The domain is the kernel error domain.
    pub open spec fn is_mach(self) -> bool {
        self.domain == MACH_ERROR_DOMAIN@
    }
}

/// An error: a domain naming the subsystem it comes from, a code whose
/// meaning that subsystem gives, and auxiliary information that holds a
/// human-readable description. It is never changed after construction.
pub struct NSError {
    domain: String,
    code: isize,
    user_info: UserInfo,
}

impl View for NSError {
    type V = ErrorInfo;

    closed spec fn view(&self) -> ErrorInfo {
        ErrorInfo { domain: self.domain@, code: self.code as int, user_info: self.user_info@ }
    }
}

impl NSError {
    /// The auxiliary information is well formed and holds a description.
    #[verifier::type_invariant]
    closed spec fn inv(&self) -> bool {
        &&& self.user_info.wf()
        &&& self.user_info@.contains_key(LOCALIZED_DESCRIPTION_KEY@)
    }

    /// Creates an error with the given domain, code and description; the
    /// description is stored under the localized-description key.
    pub fn new(domain: &str, code: isize, localized_description: &str) -> (r: NSError)
        ensures
            r@ == ErrorInfo::constructed(domain@, code as int, localized_description@),
    {
        let mut user_info = UserInfo::new();
        user_info.insert(LOCALIZED_DESCRIPTION_KEY.to_owned(), localized_description.to_owned());
        assert(user_info@ =~= map![LOCALIZED_DESCRIPTION_KEY@ => localized_description@]);
        NSError { domain: domain.to_owned(), code, user_info }
    }

    /// The error code.
    pub fn code(&self) -> (r: isize)
        ensures
            r as int == self@.code,
    {
        self.code
    }

    /// The error domain.
    pub fn domain(&self) -> (r: &str)
        ensures
            r@ == self@.domain,
    {
        self.domain.as_str()
    }

    /// Whether the domain has the same text as `expected_domain`.
    fn has_domain(&self, expected_domain: &str) -> (r: bool)
        ensures
            r == (self@.domain == expected_domain@),
    {
        let expected = expected_domain.to_owned();
        self.domain == expected
    }

    /// Whether the domain is the general-purpose error domain.
    pub fn is_cocoa_error(&self) -> (r: bool)
        ensures
            r == self@.is_cocoa(),
    {
        self.has_domain(COCOA_ERROR_DOMAIN)
    }

    /// Whether the domain is the POSIX error domain.
    pub fn is_posix_error(&self) -> (r: bool)
        ensures
            r == self@.is_posix(),
    {
        self.has_domain(POSIX_ERROR_DOMAIN)
    }

    /// Whether the domain is the operating-system status error domain.
    pub fn is_os_status_error(&self) -> (r: bool)
        ensures
            r == self@.is_os_status(),
    {
        self.has_domain(OS_STATUS_ERROR_DOMAIN)
    }

    /// Whether the domain is the kernel error domain.
    pub fn is_mach_error(&self) -> (r: bool)
        ensures
            r == self@.is_mach(),
    {
        self.has_domain(MACH_ERROR_DOMAIN)
    }

    /// The human-readable description of the error.
    pub fn localized_description(&self) -> (r: &str)
        ensures
            r@ == self@.description(),
    {
        proof {
            use_type_invariant(self);
        }
        self.user_info.get(LOCALIZED_DESCRIPTION_KEY).unwrap()
    }
}

} // verus!
