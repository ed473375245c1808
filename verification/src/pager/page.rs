//! A page: a fixed-length byte buffer tagged with its 1-based page
//! number. The buffer is an owned, independent copy; holding a page
//! never aliases back into the store it was read from.

use vstd::prelude::*;

use crate::header::PageSize;

verus! {

/// One page of the database file, as read by the pager.
#[derive(Debug)]
pub struct Page {
    number: u32,
    length: PageSize,
    raw_data: Vec<u8>,
}

impl Page {
    /// The page's 1-based number.
    pub closed spec fn spec_number(&self) -> int {
        self.number as int
    }

    /// The page size the page was read with.
    pub closed spec fn spec_length(&self) -> PageSize {
        self.length
    }

    /// The page's bytes.
    pub closed spec fn data_view(&self) -> Seq<u8> {
        self.raw_data@
    }

    /// A page buffer is exactly as long as its page size says.
    pub open spec fn spec_wf(&self) -> bool {
        &&& self.data_view().len() == self.spec_length()@
        &&& self.spec_length().spec_wf()
        &&& 1 <= self.spec_number()
    }

    /// Tags `raw_data` as page `number` of a store with pages of
    /// `length` bytes.
    pub fn new(number: u32, length: PageSize, raw_data: Vec<u8>) -> (r: Self)
        requires
            raw_data@.len() == length@,
            length.spec_wf(),
            number >= 1,
        ensures
            r.spec_number() == number as int,
            r.spec_length() == length,
            r.data_view() == raw_data@,
            r.spec_wf(),
    {
        Page { number, length, raw_data }
    }

    /// The page's 1-based number.
    pub fn number(&self) -> (r: u32)
        ensures
            r as int == self.spec_number(),
    {
        self.number
    }

    /// The page size the page was read with.
    pub fn length(&self) -> (r: &PageSize)
        ensures
            r == self.spec_length(),
    {
        &self.length
    }

    /// The page's bytes.
    pub fn raw_data(&self) -> (r: &Vec<u8>)
        ensures
            r@ == self.data_view(),
    {
        &self.raw_data
    }

    /// The page's bytes.
    pub fn get(&self) -> (r: &Vec<u8>)
        ensures
            r@ == self.data_view(),
    {
        &self.raw_data
    }

    /// Gives the buffer back to the caller.
    pub fn take(self) -> (r: (PageSize, Vec<u8>))
        ensures
            r.0 == self.spec_length(),
            r.1@ == self.data_view(),
    {
        (self.length, self.raw_data)
    }
}

} // verus!
