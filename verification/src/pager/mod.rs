//! The pager: fetches any 1-indexed page of the underlying byte store
//! as an owned fixed-size buffer. Page N occupies the absolute byte
//! range `[(N-1)*page_size, N*page_size)`. No caching, no write-back.

use vstd::prelude::*;

pub mod page;

pub use page::Page;

use crate::bytes::spec_be_u16;
use crate::header::page_size::{page_size_field_ok, spec_decode_page_size};
use crate::header::PageSize;
use crate::io::SqliteIo;
use crate::result::{FieldKind, FieldParsingError, SQLiteError, SQLiteResult};

verus! {

/// The page size a pager connects with: the stored page-size field of
/// a non-empty store, or 4096 for a store with no bytes yet.
pub open spec fn spec_connect_page_size(d: Seq<u8>) -> int {
    if d.len() == 0 {
        4096
    } else {
        spec_decode_page_size(spec_be_u16(d, 16))
    }
}

/// Whether a pager can connect to a store holding `d`: the store is
/// empty, or holds at least the 18 header bytes up to the page-size
/// field, with a legal page size.
pub open spec fn spec_connect_ok(d: Seq<u8>) -> bool {
    d.len() == 0 || (d.len() >= 18 && page_size_field_ok(spec_be_u16(d, 16)))
}

/// The error a failed connect reports: a store too short for the
/// page-size field, or an illegal stored page size.
pub open spec fn spec_connect_error(d: Seq<u8>) -> SQLiteError {
    if d.len() < 18 {
        SQLiteError::ShortRead
    } else {
        SQLiteError::ParsingField(FieldParsingError { field: FieldKind::PageSize })
    }
}

/// Paged access to a byte store: owns the store and the page size
/// learned from its header.
#[derive(Debug)]
pub struct SqlitePager {
    io: SqliteIo,
    page_size: PageSize,
}

impl SqlitePager {
    /// The bytes of the underlying store.
    pub closed spec fn data_view(&self) -> Seq<u8> {
        self.io.data_view()
    }

    /// The page size every read uses.
    pub closed spec fn spec_page_size(&self) -> PageSize {
        self.page_size
    }

    /// The page size is one of the eight legal values.
    pub open spec fn spec_wf(&self) -> bool {
        self.spec_page_size().spec_wf()
    }

    /// Takes ownership of a byte store and learns the page size from
    /// the two-byte field at offset 16. An empty store connects with
    /// the canonical page size 4096 of a fresh database.
    pub fn connect(io: SqliteIo) -> (r: SQLiteResult<Self>)
        ensures
            spec_connect_ok(io.data_view()) ==> (r matches Ok(p) && p.data_view()
                == io.data_view() && p.spec_page_size()@ == spec_connect_page_size(io.data_view())
                && p.spec_wf()),
            !spec_connect_ok(io.data_view()) ==> r == Err::<Self, _>(
                spec_connect_error(io.data_view()),
            ),
    {
        let mut io = io;
        io.rewind()?;
        if io.is_empty() {
            return Ok(SqlitePager { io, page_size: PageSize::new(4096) });
        }
        let buf = io.read(18);
        if buf.len() < 18 {
            return Err(SQLiteError::ShortRead);
        }
        let field = &buf[16..18];
        proof {
            assert(buf@ == io.data_view().subrange(0, 18));
            assert(spec_be_u16(field@, 0) == spec_be_u16(io.data_view(), 16));
        }
        let page_size = PageSize::parse_bytes(field)?;
        Ok(SqlitePager { io, page_size })
    }

    /// The page size every read uses.
    pub fn page_size(&self) -> (r: &PageSize)
        ensures
            r == self.spec_page_size(),
    {
        &self.page_size
    }

    /// The underlying byte store.
    pub fn io(&self) -> (r: &SqliteIo)
        ensures
            r.data_view() == self.data_view(),
    {
        &self.io
    }

    /// Reads page 1, the page that starts with the database header.
    pub fn first(&mut self) -> (r: SQLiteResult<Page>)
        requires
            old(self).spec_wf(),
        ensures
            final(self).data_view() == old(self).data_view(),
            final(self).spec_page_size() == old(self).spec_page_size(),
            final(self).spec_wf(),
            ({
                let ps = old(self).spec_page_size()@;
                let d = old(self).data_view();
                if ps <= d.len() {
                    r matches Ok(p) && p.spec_number() == 1 && p.spec_length() == old(
                        self,
                    ).spec_page_size() && p.data_view() == d.subrange(0, ps) && p.spec_wf()
                } else {
                    r == Err::<Page, _>(SQLiteError::ShortRead)
                }
            }),
    {
        self.read(1)
    }

    /// Reads page `page_number`, 1-indexed. Page numbers start at 1:
    /// asking for page 0 fails, and asking for a page whose byte range
    /// runs past the end of the store fails with a short read.
    pub fn read(&mut self, page_number: u32) -> (r: SQLiteResult<Page>)
        requires
            old(self).spec_wf(),
        ensures
            final(self).data_view() == old(self).data_view(),
            final(self).spec_page_size() == old(self).spec_page_size(),
            final(self).spec_wf(),
            page_number == 0 ==> r == Err::<Page, _>(SQLiteError::InvalidPageNumber),
            page_number >= 1 ==> ({
                let ps = old(self).spec_page_size()@;
                let d = old(self).data_view();
                let off = (page_number - 1) * ps;
                if off + ps <= d.len() {
                    r matches Ok(p) && p.spec_number() == page_number as int && p.spec_length()
                        == old(self).spec_page_size() && p.data_view() == d.subrange(off, off + ps)
                        && p.spec_wf()
                } else {
                    r == Err::<Page, _>(SQLiteError::ShortRead)
                }
            }),
    {
        if page_number == 0 {
            return Err(SQLiteError::InvalidPageNumber);
        }
        let ps = self.page_size.get();
        let offset: u64 = ((page_number - 1) as u64) * (ps as u64);
        self.io.seek(offset)?;
        let buf = self.io.read(self.page_size.as_usize());
        if buf.len() < ps as usize {
            proof {
                let d = old(self).data_view();
                let off = (page_number - 1) * (ps as int);
                assert(off + ps > d.len());
            }
            return Err(SQLiteError::ShortRead);
        }
        Ok(Page::new(page_number, self.page_size, buf))
    }
}

} // verus!
