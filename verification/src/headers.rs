//! The `X-PAGE-SIZE` request header.

use vstd::prelude::*;
use vstd::string::StringSliceAdditionalSpecFns;
use crate::text::{decimal_bytes, lemma_parse_decimal, parse_usize, spec_parse_usize};
use crate::utils::DEFAULT_PAGE_SIZE;

verus! {

/// The number of items a paginated reply holds.
#[derive(PartialEq, Eq, Structural, Clone, Copy, Debug)]
pub struct PageSize(pub usize);

/// Why a page-size header is refused.
#[derive(PartialEq, Eq, Structural, Clone, Copy, Debug)]
pub enum HeaderError {
    PageSizeBad,
}

impl HeaderError {
    /// The HTTP status that a refused header is answered with: 412,
    /// Precondition Failed.
    pub fn status(&self) -> (code: u16)
        ensures
            code == 412,
    {
        412
    }
}

/// The page size that a header value gives: 5 when the header is absent, the
/// value when it parses as a positive `usize`, else a refusal.
pub open spec fn page_size_from_header(header: Option<Seq<u8>>) -> Result<usize, HeaderError> {
    match header {
        None => Ok(DEFAULT_PAGE_SIZE),
        Some(bytes) => match spec_parse_usize(bytes) {
            Some(n) => if n > 0 {
                Ok(n)
            } else {
                Err(HeaderError::PageSizeBad)
            },
            None => Err(HeaderError::PageSizeBad),
        },
    }
}

impl PageSize {
    /// Reads the page size from the value of the `X-PAGE-SIZE` header, if the
    /// request has one.
    pub fn from_request(header: Option<&str>) -> (r: Result<PageSize, HeaderError>)
        ensures
            page_size_from_header(
                match header {
                    Some(v) => Some(v.spec_bytes()),
                    None => None,
                },
            ) == match r {
                Ok(p) => Ok::<usize, HeaderError>(p.0),
                Err(e) => Err(e),
            },
    {
        match header {
            Some(v) => match parse_usize(v) {
                Some(page_size) => if page_size > 0 {
                    Ok(PageSize(page_size))
                } else {
                    Err(HeaderError::PageSizeBad)
                },
                None => Err(HeaderError::PageSizeBad),
            },
            None => Ok(PageSize(DEFAULT_PAGE_SIZE)),
        }
    }
}

/// A page never has size 0: whatever the header, an accepted page size is
/// positive.
pub proof fn lemma_page_size_positive(header: Option<Seq<u8>>)
    ensures
        page_size_from_header(header) matches Ok(n) ==> n > 0,
{
}

/// Every header value that is a positive number is taken as that page size,
/// whatever the number: every positive `usize` written in decimal is taken
/// as itself. A header that is 0 or not a number is refused, and a missing
/// header gives 5.
pub proof fn lemma_page_size_header(bytes: Seq<u8>, n: nat)
    ensures
        forall|v: usize| spec_parse_usize(bytes) == Some(v) && v > 0 ==> page_size_from_header(Some(bytes)) == Ok::<usize, HeaderError>(v),
        spec_parse_usize(bytes) == Some(0usize) ==> page_size_from_header(Some(bytes)) == Err::<usize, HeaderError>(HeaderError::PageSizeBad),
        spec_parse_usize(bytes) is None ==> page_size_from_header(Some(bytes)) == Err::<usize, HeaderError>(HeaderError::PageSizeBad),
        page_size_from_header(None) == Ok::<usize, HeaderError>(5),
        0 < n <= usize::MAX ==> page_size_from_header(Some(decimal_bytes(n))) == Ok::<usize, HeaderError>(n as usize),
{
    if 0 < n <= usize::MAX {
        lemma_parse_decimal(n);
    }
}

} // verus!
