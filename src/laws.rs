use vstd::prelude::*;

use crate::error::{
    ErrorInfo, NSError, COCOA_ERROR_DOMAIN, MACH_ERROR_DOMAIN, OS_STATUS_ERROR_DOMAIN,
    POSIX_ERROR_DOMAIN,
};

verus! {

/// The four system domains are pairwise different texts.
proof fn lemma_domains_distinct()
    ensures
        COCOA_ERROR_DOMAIN@ != POSIX_ERROR_DOMAIN@,
        COCOA_ERROR_DOMAIN@ != OS_STATUS_ERROR_DOMAIN@,
        COCOA_ERROR_DOMAIN@ != MACH_ERROR_DOMAIN@,
        POSIX_ERROR_DOMAIN@ != OS_STATUS_ERROR_DOMAIN@,
        POSIX_ERROR_DOMAIN@ != MACH_ERROR_DOMAIN@,
        OS_STATUS_ERROR_DOMAIN@ != MACH_ERROR_DOMAIN@,
{
    reveal_strlit("NSCocoaErrorDomain");
    reveal_strlit("NSPOSIXErrorDomain");
    reveal_strlit("NSOSStatusErrorDomain");
    reveal_strlit("NSMachErrorDomain");
    assert(COCOA_ERROR_DOMAIN@[2] != POSIX_ERROR_DOMAIN@[2]);
    assert(COCOA_ERROR_DOMAIN@.len() != OS_STATUS_ERROR_DOMAIN@.len());
    assert(COCOA_ERROR_DOMAIN@.len() != MACH_ERROR_DOMAIN@.len());
    assert(POSIX_ERROR_DOMAIN@.len() != OS_STATUS_ERROR_DOMAIN@.len());
    assert(POSIX_ERROR_DOMAIN@.len() != MACH_ERROR_DOMAIN@.len());
    assert(OS_STATUS_ERROR_DOMAIN@.len() != MACH_ERROR_DOMAIN@.len());
}

/// An error created from a domain, a code and a description gives back
/// exactly those three values when its fields are read.
pub proof fn lemma_round_trip(domain: Seq<char>, code: int, description: Seq<char>)
    ensures
        ErrorInfo::constructed(domain, code, description).domain == domain,
        ErrorInfo::constructed(domain, code, description).code == code,
        ErrorInfo::constructed(domain, code, description).description() == description,
{
}

/// An error whose domain is the text of one of the four system domains
/// satisfies the predicate of that domain and none of the other three.
pub proof fn lemma_classification_exclusive(domain: Seq<char>, code: int, description: Seq<char>)
    ensures
        ({
            let e = ErrorInfo::constructed(domain, code, description);
            &&& domain == COCOA_ERROR_DOMAIN@ ==> e.is_cocoa() && !e.is_posix() && !e.is_os_status()
                && !e.is_mach()
            &&& domain == POSIX_ERROR_DOMAIN@ ==> !e.is_cocoa() && e.is_posix() && !e.is_os_status()
                && !e.is_mach()
            &&& domain == OS_STATUS_ERROR_DOMAIN@ ==> !e.is_cocoa() && !e.is_posix()
                && e.is_os_status() && !e.is_mach()
            &&& domain == MACH_ERROR_DOMAIN@ ==> !e.is_cocoa() && !e.is_posix() && !e.is_os_status()
                && e.is_mach()
        }),
{
    lemma_domains_distinct();
}

/// An error whose domain is none of the four system domains satisfies none
/// of the four predicates.
pub proof fn lemma_classification_negative(domain: Seq<char>, code: int, description: Seq<char>)
    requires
        domain != COCOA_ERROR_DOMAIN@,
        domain != POSIX_ERROR_DOMAIN@,
        domain != OS_STATUS_ERROR_DOMAIN@,
        domain != MACH_ERROR_DOMAIN@,
    ensures
        ({
            let e = ErrorInfo::constructed(domain, code, description);
            !e.is_cocoa() && !e.is_posix() && !e.is_os_status() && !e.is_mach()
        }),
{
}

/// Two reads of the same field of one error give the same value: each read
/// is determined by what the error holds, which reading does not change.
pub proof fn lemma_reads_repeat(
    e: &NSError,
    domain1: &str,
    domain2: &str,
    code1: isize,
    code2: isize,
    description1: &str,
    description2: &str,
)
    requires
        domain1@ == e@.domain,
        domain2@ == e@.domain,
        code1 as int == e@.code,
        code2 as int == e@.code,
        description1@ == e@.description(),
        description2@ == e@.description(),
    ensures
        domain1@ == domain2@,
        code1 == code2,
        description1@ == description2@,
{
}

} // verus!
