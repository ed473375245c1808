//! The runtime: composes the header decoder, the pager and the b-tree
//! page parser behind one connection-level value. A thin layer: it
//! decodes the header once at start, hands out pages, decodes b-tree
//! pages, and walks overflow chains with cycle detection.

use vstd::prelude::*;

use crate::btree::page::BtreePage;
use crate::header::{header_v_wf, spec_default_header, spec_header_error, spec_header_of,
    spec_header_valid, SqliteHeader};
use crate::pager::{Page, SqlitePager};
use crate::bytes::spec_be_u32;
use crate::result::{SQLiteError, SQLiteResult};

verus! {

/// A connection's long-lived state: the pager and the header decoded
/// once from page 1, never mutated afterwards.
#[derive(Debug)]
pub struct SqliteRuntime {
    pager: SqlitePager,
    header: SqliteHeader,
}

impl SqliteRuntime {
    /// The bytes of the underlying store.
    pub closed spec fn data_view(&self) -> Seq<u8> {
        self.pager.data_view()
    }

    /// The decoded header.
    pub closed spec fn spec_header(&self) -> crate::header::HeaderV {
        self.header@
    }

    /// The header satisfies every format constraint and agrees with
    /// the pager's page size.
    pub open spec fn spec_wf(&self) -> bool {
        &&& header_v_wf(self.spec_header())
        &&& self.spec_page_size()@ == self.spec_header().page_size
        &&& self.spec_page_size().spec_wf()
    }

    /// The page size every read uses.
    pub closed spec fn spec_page_size(&self) -> crate::header::PageSize {
        self.pager.spec_page_size()
    }

    /// The pager as a whole, for contracts that hand it out.
    pub closed spec fn pager_view(&self) -> SqlitePager {
        self.pager
    }

    /// Starts a runtime over a connected pager: an empty store gets
    /// the header of a fresh database; any other store must begin
    /// with a full, valid page 1, whose first 100 bytes decode to the
    /// header.
    pub fn start(pager: SqlitePager) -> (r: SQLiteResult<Self>)
        requires
            pager.spec_wf(),
        ensures
            ({
                let d = pager.data_view();
                let ps = pager.spec_page_size()@;
                if d.len() == 0 {
                    r matches Ok(rt) && rt.spec_header() == spec_default_header()
                        && rt.data_view() == d && rt.spec_page_size() == pager.spec_page_size()
                        && (ps == 4096 ==> rt.spec_wf())
                } else if ps > d.len() {
                    r == Err::<Self, _>(SQLiteError::ShortRead)
                } else if spec_header_valid(d) {
                    r matches Ok(rt) && rt.spec_header() == spec_header_of(d) && rt.data_view()
                        == d && rt.spec_page_size() == pager.spec_page_size() && header_v_wf(
                        rt.spec_header(),
                    )
                } else {
                    r == Err::<Self, _>(spec_header_error(d))
                }
            }),
    {
        let mut pager = pager;
        if pager.io().is_empty() {
            let header = SqliteHeader::default();
            return Ok(SqliteRuntime { pager, header });
        }
        let first_page = pager.first()?;
        let page_bytes = first_page.raw_data();
        proof {
            let d = pager.data_view();
            let ps = pager.spec_page_size()@;
            assert(page_bytes@ == d.subrange(0, ps));
            assert(ps >= 512);
            assert(page_bytes@.subrange(0, 16) =~= d.subrange(0, 16));
            assert(forall|j: int| 0 <= j < 100 ==> page_bytes@[j] == d[j]);
            if crate::header::fields::reserved_expansion_ok(page_bytes@, 72) {
                assert forall|j: int| 72 <= j < 92 implies d[j] == 0 by {
                    assert(page_bytes@[j] == 0);
                }
            }
            if crate::header::fields::reserved_expansion_ok(d, 72) {
                assert forall|j: int| 72 <= j < 92 implies page_bytes@[j] == 0 by {
                    assert(d[j] == 0);
                }
            }
            assert(spec_header_valid(page_bytes@) == spec_header_valid(d));
            assert(spec_header_error(page_bytes@) == spec_header_error(d));
            assert(spec_header_of(page_bytes@) == spec_header_of(d));
        }
        let header = SqliteHeader::parse_bytes(page_bytes.as_slice())?;
        Ok(SqliteRuntime { pager, header })
    }

    /// The header decoded at start.
    pub fn header(&self) -> (r: &SqliteHeader)
        ensures
            r@ == self.spec_header(),
    {
        &self.header
    }

    /// The pager.
    pub fn pager(&self) -> (r: &SqlitePager)
        ensures
            r.data_view() == self.data_view(),
            r.spec_page_size() == self.spec_page_size(),
    {
        &self.pager
    }

    /// The pager, for reads that move its cursor. The store's bytes
    /// and page size never change under it.
    pub fn pager_mut(&mut self) -> (r: &mut SqlitePager)
        ensures
            *r == old(self).pager_view(),
            final(self).pager_view() == *final(r),
            final(self).spec_header() == old(self).spec_header(),
    {
        &mut self.pager
    }

    /// Reads page `page_number`, 1-indexed, as an owned buffer.
    pub fn read_page(&mut self, page_number: u32) -> (r: SQLiteResult<Page>)
        requires
            old(self).spec_wf(),
        ensures
            final(self).data_view() == old(self).data_view(),
            final(self).spec_header() == old(self).spec_header(),
            final(self).spec_page_size() == old(self).spec_page_size(),
            final(self).spec_wf(),
            page_number == 0 ==> r == Err::<Page, _>(SQLiteError::InvalidPageNumber),
            page_number >= 1 ==> ({
                let ps = old(self).spec_page_size()@;
                let d = old(self).data_view();
                let off = (page_number - 1) * ps;
                if off + ps <= d.len() {
                    r matches Ok(p) && p.spec_number() == page_number as int && p.data_view()
                        == d.subrange(off, off + ps) && p.spec_wf()
                } else {
                    r == Err::<Page, _>(SQLiteError::ShortRead)
                }
            }),
    {
        self.pager.read(page_number)
    }

    /// The usable size of every page: the page size less the reserved
    /// bytes at its end. Never below 480 on a valid header.
    pub fn usable_size(&self) -> (r: u32)
        requires
            self.spec_wf(),
        ensures
            r as int == self.spec_header().page_size - self.spec_header().reserved_bytes_per_page,
            crate::btree::payload::usable_size_ok(r as int),
    {
        let ps = self.header.page_size().get();
        let reserved = self.header.reserved_bytes_per_page().get();
        ps - reserved as u32
    }

    /// Decodes a b-tree page out of a page buffer. For page 1 the
    /// caller hands in the buffer after its first 100 header bytes.
    pub fn decode_btree_page(&self, page_bytes: &[u8]) -> (r: SQLiteResult<BtreePage>)
        requires
            self.spec_wf(),
        ensures
            ({
                let u = self.spec_header().page_size - self.spec_header().reserved_bytes_per_page;
                crate::btree::page::spec_btree_page_ok(page_bytes@, u) ==> (r matches Ok(pg)
                    && pg.spec_page_type()@ == page_bytes@[0] as int && pg.spec_header()
                    == crate::btree::header::spec_btree_header_of(
                    page_bytes@,
                    crate::btree::page::spec_tag_type(page_bytes@[0] as int),
                ) && pg.spec_pointers().len() == crate::btree::page::spec_cell_count(page_bytes@)
                    && pg.spec_wf())
            }),
            page_bytes@.len() >= 1 && !crate::btree::page_type::page_type_tag_ok(
                page_bytes@[0] as int,
            ) ==> r == Err::<BtreePage, _>(SQLiteError::InvalidPageType(page_bytes@[0])),
    {
        let usable_size = self.usable_size();
        BtreePage::parsing_handler(page_bytes, usable_size)
    }

    /// Collects `remaining` spilled payload bytes by walking an
    /// overflow chain from `first_overflow_page`. Each overflow page
    /// holds the next page number in its first four bytes — zero for
    /// the last page — and payload bytes after them. A page number
    /// seen twice is a cycle and fatal; a chain that ends early is a
    /// short read.
    pub fn read_overflow_chain(&mut self, first_overflow_page: u32, remaining: usize) -> (r:
        SQLiteResult<Vec<u8>>)
        requires
            old(self).spec_wf(),
        ensures
            final(self).data_view() == old(self).data_view(),
            final(self).spec_header() == old(self).spec_header(),
            final(self).spec_page_size() == old(self).spec_page_size(),
            final(self).spec_wf(),
            ({
                let d = old(self).data_view();
                let ps = old(self).spec_header().page_size;
                let per = ps - old(self).spec_header().reserved_bytes_per_page - 4;
                match spec_overflow_chain(
                    d,
                    ps,
                    per,
                    first_overflow_page,
                    remaining as nat,
                    Seq::empty(),
                ) {
                    Ok(content) => r matches Ok(v) && v@ == content && v@.len() == remaining,
                    Err(e) => r == Err::<Vec<u8>, _>(e),
                }
            }),
    {
        let usable_size = self.usable_size();
        let per_page: usize = (usable_size - 4) as usize;
        let mut collected: Vec<u8> = Vec::new();
        let mut visited: Vec<u32> = Vec::new();
        let mut next: u32 = first_overflow_page;
        let mut left: usize = remaining;
        let ghost d = old(self).data_view();
        let ghost ps = old(self).spec_header().page_size;
        let ghost per = ps - old(self).spec_header().reserved_bytes_per_page - 4;
        let ghost full = spec_overflow_chain(d, ps, per, first_overflow_page, remaining as nat, Seq::empty());
        while left > 0
            invariant
                old(self).spec_wf(),
                self.data_view() == old(self).data_view(),
                self.spec_header() == old(self).spec_header(),
                self.spec_page_size() == old(self).spec_page_size(),
                d == old(self).data_view(),
                ps == old(self).spec_header().page_size,
                per == per_page as int,
                per == old(self).spec_header().page_size - old(
                    self,
                ).spec_header().reserved_bytes_per_page - 4,
                per_page >= 476,
                left <= remaining,
                collected@.len() == remaining - left,
                full == spec_overflow_chain(d, ps, per, first_overflow_page, remaining as nat, Seq::empty()),
                ({
                    match spec_overflow_chain(d, ps, per, next, left as nat, visited@) {
                        Ok(rest) => full == Ok::<Seq<u8>, SQLiteError>(collected@ + rest),
                        Err(e) => full == Err::<Seq<u8>, SQLiteError>(e),
                    }
                }),
            decreases left,
        {
            if next == 0 {
                return Err(SQLiteError::ShortRead);
            }
            let mut seen = false;
            let mut vi: usize = 0;
            let visited_len = visited.len();
            while vi < visited_len
                invariant
                    vi <= visited_len,
                    visited_len == visited@.len(),
                    seen == (exists|j: int| 0 <= j < vi && visited@[j] == next),
                decreases visited_len - vi,
            {
                if visited[vi] == next {
                    seen = true;
                }
                vi = vi + 1;
            }
            proof {
                assert(seen == visited@.contains(next));
            }
            if seen {
                proof {
                    assert(spec_overflow_chain(d, ps, per, next, left as nat, visited@)
                        == Err::<Seq<u8>, SQLiteError>(SQLiteError::OverflowCycleDetected));
                }
                return Err(SQLiteError::OverflowCycleDetected);
            }
            visited.push(next);
            let page = self.pager.read(next)?;
            let page_data = page.raw_data();
            proof {
                assert(page_data@.len() == old(self).spec_page_size()@);
                assert(page_data@.len() >= old(self).spec_header().page_size - old(
                    self,
                ).spec_header().reserved_bytes_per_page);
            }
            let next_page = crate::bytes::read_be_u32(page_data.as_slice(), 0);
            let take: usize = if left <= per_page {
                left
            } else {
                per_page
            };
            let mut chunk = crate::bytes::copy_range(page_data.as_slice(), 4, take);
            let ghost collected_before = collected@;
            collected.append(&mut chunk);
            proof {
                let off = (next - 1) * ps;
                assert(page_data@ == d.subrange(off, off + ps));
                assert(page_data@.subrange(4, 4 + take) =~= d.subrange(off + 4, off + 4 + take));
                assert(spec_be_u32(page_data@, 0) == spec_be_u32(d, off));
                let rest_chain = spec_overflow_chain(
                    d,
                    ps,
                    per,
                    (spec_be_u32(d, off) as u32),
                    (left - take) as nat,
                    visited@,
                );
                match rest_chain {
                    Ok(rest) => {
                        assert(collected@ + rest =~= collected_before + (d.subrange(
                            off + 4,
                            off + 4 + take,
                        ) + rest));
                    },
                    Err(_) => {},
                }
            }
            left = left - take;
            next = next_page;
        }
        proof {
            assert(spec_overflow_chain(d, ps, per, next, 0, visited@) == Ok::<Seq<u8>, SQLiteError>(
                Seq::empty(),
            ));
            assert(collected@ + Seq::<u8>::empty() =~= collected@);
        }
        Ok(collected)
    }
}

/// The payload an overflow chain yields, walked in spec: from page
/// `next` with `remaining` bytes still owed and `visited` the pages
/// already walked. Each page contributes up to `per` bytes after its
/// four-byte next pointer. A chain that ends or runs off the store
/// before `remaining` bytes are found is a short read; a repeated
/// page number is a cycle.
pub open spec fn spec_overflow_chain(
    d: Seq<u8>,
    ps: int,
    per: int,
    next: u32,
    remaining: nat,
    visited: Seq<u32>,
) -> Result<Seq<u8>, SQLiteError>
    decreases remaining,
{
    if remaining == 0 {
        Ok(Seq::empty())
    } else if next == 0 {
        Err(SQLiteError::ShortRead)
    } else if visited.contains(next) {
        Err(SQLiteError::OverflowCycleDetected)
    } else if (next - 1) * ps + ps > d.len() {
        Err(SQLiteError::ShortRead)
    } else if per < 1 {
        Err(SQLiteError::ShortRead)
    } else {
        let off = (next - 1) * ps;
        let take = if remaining <= per {
            remaining as int
        } else {
            per
        };
        match spec_overflow_chain(
            d,
            ps,
            per,
            (spec_be_u32(d, off) as u32),
            (remaining - take) as nat,
            visited.push(next),
        ) {
            Ok(rest) => Ok(d.subrange(off + 4, off + 4 + take) + rest),
            Err(e) => Err(e),
        }
    }
}

} // verus!
