//! Address details: a QR code page, a details page, and the pages of the
//! extended public keys (xpubs) that follow them, each xpub taking as many
//! pages as its text needs.
use vstd::prelude::*;
use crate::pager::Pager;

verus! {

/// Most xpubs the details can hold.
pub const MAX_XPUBS: usize = 16;

/// Pages before the first xpub page: the QR code and the details.
pub const BASE_PAGES: usize = 2;

#[verifier::external_type_specification]
#[verifier::external_body]
#[verifier::reject_recursive_types(T)]
pub struct ExHeaplessVec<T, const N: usize>(heapless::Vec<T, N>);

/// The page counts a vector of xpub page counts holds, in order.
pub uninterp spec fn page_counts_of(v: heapless::Vec<u8, MAX_XPUBS>) -> Seq<u8>;

/// The (title, xpub) pairs a vector of xpubs holds, in order.
pub uninterp spec fn xpubs_of(v: heapless::Vec<(String, String), MAX_XPUBS>) -> Seq<(String, String)>;

/// Relies on heapless's `Vec::new`: an empty vector.
#[verifier::external_body]
fn new_page_counts() -> (r: heapless::Vec<u8, MAX_XPUBS>)
    ensures
        page_counts_of(r) == Seq::<u8>::empty(),
{
    heapless::Vec::new()
}

/// Relies on heapless's `Vec::push`: appends when fewer than the capacity
/// are held, and otherwise hands the item back and changes nothing.
#[verifier::external_body]
fn push_page_count(v: &mut heapless::Vec<u8, MAX_XPUBS>, count: u8) -> (r: Result<(), u8>)
    ensures
        r is Ok <==> page_counts_of(*old(v)).len() < MAX_XPUBS,
        r is Ok ==> page_counts_of(*final(v)) == page_counts_of(*old(v)).push(count),
        r is Err ==> r->Err_0 == count && page_counts_of(*final(v)) == page_counts_of(*old(v)),
{
    v.push(count)
}

/// Relies on heapless's `Vec::clear`: removes everything.
#[verifier::external_body]
fn clear_page_counts(v: &mut heapless::Vec<u8, MAX_XPUBS>)
    ensures
        page_counts_of(*final(v)) == Seq::<u8>::empty(),
{
    v.clear()
}

/// Relies on heapless's `Vec::as_slice`: the items held, in order; never
/// more than the capacity.
#[verifier::external_body]
fn page_counts_slice(v: &heapless::Vec<u8, MAX_XPUBS>) -> (r: &[u8])
    ensures
        r@ == page_counts_of(*v),
        r@.len() <= MAX_XPUBS,
{
    v.as_slice()
}

/// Relies on heapless's `Vec::new`: an empty vector.
#[verifier::external_body]
pub(crate) fn new_xpubs() -> (r: heapless::Vec<(String, String), MAX_XPUBS>)
    ensures
        xpubs_of(r) == Seq::<(String, String)>::empty(),
{
    heapless::Vec::new()
}

/// Relies on heapless's `Vec::push`: appends when fewer than the capacity
/// are held, and otherwise hands the item back and changes nothing.
#[verifier::external_body]
pub(crate) fn push_xpub(v: &mut heapless::Vec<(String, String), MAX_XPUBS>, item: (String, String)) -> (r: Result<(), (String, String)>)
    ensures
        r is Ok <==> xpubs_of(*old(v)).len() < MAX_XPUBS,
        r is Ok ==> xpubs_of(*final(v)) == xpubs_of(*old(v)).push(item),
        r is Err ==> r->Err_0 == item && xpubs_of(*final(v)) == xpubs_of(*old(v)),
{
    v.push(item)
}

/// Relies on heapless's `Vec::as_slice`: the items held, in order.
#[verifier::external_body]
pub(crate) fn xpubs_slice(v: &heapless::Vec<(String, String), MAX_XPUBS>) -> (r: &[(String, String)])
    ensures
        r@ == xpubs_of(*v),
{
    v.as_slice()
}

/// Errors of the address details.
#[derive(Debug, Clone, Copy, PartialEq, Eq, Structural)]
pub enum Error {
    /// No room for another xpub.
    OutOfRange,
}

/// Sum of `counts`.
pub open spec fn sum_counts(counts: Seq<u8>) -> int
    decreases counts.len(),
{
    if counts.len() == 0 {
        0
    } else {
        sum_counts(counts.drop_last()) + counts.last()
    }
}

/// Which xpub, and which of its pages, xpub page `page` (counting from the
/// first page of the first xpub) falls on, given each xpub's page count.
/// Pages past the last xpub count on from the last index.
pub open spec fn lookup_spec(counts: Seq<u8>, page: int) -> (int, int)
    decreases counts.len(),
{
    if counts.len() == 0 || counts[0] > page {
        (0, page)
    } else {
        let rest = lookup_spec(counts.drop_first(), page - counts[0]);
        (rest.0 + 1, rest.1)
    }
}

/// Address details: QR code, details, then the xpubs' pages.
pub struct AddressDetails {
    pub qr_title: String,
    pub qr_address: String,
    pub case_sensitive: bool,
    pub details_title: String,
    pub account: Option<String>,
    pub path: Option<String>,
    pub xpubs: heapless::Vec<(String, String), MAX_XPUBS>,
    pub xpub_page_count: heapless::Vec<u8, MAX_XPUBS>,
    pub current_page: usize,
}

impl AddressDetails {
    /// The xpubs added, in order.
    pub open spec fn xpubs(&self) -> Seq<(String, String)> {
        xpubs_of(self.xpubs)
    }

    /// The number of pages of each xpub, as last placed.
    pub open spec fn page_counts(&self) -> Seq<u8> {
        page_counts_of(self.xpub_page_count)
    }

    pub open spec fn current(&self) -> int {
        self.current_page as int
    }

    pub fn new(
        qr_title: String,
        qr_address: String,
        case_sensitive: bool,
        details_title: String,
        account: Option<String>,
        path: Option<String>,
    ) -> (r: AddressDetails)
        ensures
            r.xpubs() == Seq::<(String, String)>::empty(),
            r.page_counts() == Seq::<u8>::empty(),
            r.current() == 0,
            r.qr_address == qr_address,
            r.case_sensitive == case_sensitive,
    {
        AddressDetails {
            qr_title,
            qr_address,
            case_sensitive,
            details_title,
            account,
            path,
            xpubs: new_xpubs(),
            xpub_page_count: new_page_counts(),
            current_page: 0,
        }
    }

    /// Adds an xpub page with `title`; fails when `MAX_XPUBS` are held.
    pub fn add_xpub(&mut self, title: String, xpub: String) -> (r: Result<(), Error>)
        ensures
            r is Ok <==> old(self).xpubs().len() < MAX_XPUBS,
            r is Ok ==> final(self).xpubs() == old(self).xpubs().push((title, xpub)),
            r is Err ==> final(self).xpubs() == old(self).xpubs() && r == Err::<(), Error>(
                Error::OutOfRange,
            ),
            final(self).page_counts() == old(self).page_counts(),
            final(self).current() == old(self).current(),
    {
        match push_xpub(&mut self.xpubs, (title, xpub)) {
            Ok(()) => Ok(()),
            Err(_) => Err(Error::OutOfRange),
        }
    }

    /// The xpub (title and key) at `index`.
    pub fn xpub(&self, index: usize) -> (r: &(String, String))
        requires
            index < self.xpubs().len(),
        ensures
            *r == self.xpubs()[index as int],
    {
        &xpubs_slice(&self.xpubs)[index]
    }

    /// Records how many pages each xpub's text takes, `xpub_pages[i]` for
    /// xpub `i`, as laid out by the caller.
    pub fn place(&mut self, xpub_pages: &[u8])
        requires
            xpub_pages@.len() <= MAX_XPUBS,
        ensures
            final(self).page_counts() == xpub_pages@,
            final(self).xpubs() == old(self).xpubs(),
            final(self).current() == old(self).current(),
    {
        clear_page_counts(&mut self.xpub_page_count);
        let mut i: usize = 0;
        while i < xpub_pages.len()
            invariant
                i <= xpub_pages@.len() <= MAX_XPUBS,
                page_counts_of(self.xpub_page_count) == xpub_pages@.take(i as int),
                xpubs_of(self.xpubs) == xpubs_of(old(self).xpubs),
                self.current_page == old(self).current_page,
            decreases xpub_pages@.len() - i,
        {
            let pushed = push_page_count(&mut self.xpub_page_count, xpub_pages[i]);
            assert(pushed is Ok);
            assert(xpub_pages@.take(i + 1) =~= xpub_pages@.take(i as int).push(xpub_pages@[i as int]));
            i += 1;
        }
        assert(xpub_pages@.take(xpub_pages@.len() as int) =~= xpub_pages@);
    }

    /// All pages: the QR code, the details and every xpub page.
    pub fn total_pages(&self) -> (r: u16)
        ensures
            r == BASE_PAGES + sum_counts(self.page_counts()),
            r >= BASE_PAGES,
    {
        let counts = page_counts_slice(&self.xpub_page_count);
        let mut total: u16 = BASE_PAGES as u16;
        let mut i: usize = 0;
        while i < counts.len()
            invariant
                i <= counts@.len() <= MAX_XPUBS,
                counts@ == page_counts_of(self.xpub_page_count),
                total == BASE_PAGES + sum_counts(counts@.take(i as int)),
                BASE_PAGES <= total <= BASE_PAGES + 255 * i,
            decreases counts@.len() - i,
        {
            assert(counts@.take(i + 1).drop_last() =~= counts@.take(i as int));
            total = total + counts[i] as u16;
            i += 1;
        }
        assert(counts@.take(counts@.len() as int) =~= counts@);
        total
    }

    /// Which xpub, and which of its pages, xpub page `scrollbar_page` falls
    /// on.
    pub fn lookup(&self, scrollbar_page: usize) -> (r: (usize, usize))
        ensures
            (r.0 as int, r.1 as int) == lookup_spec(self.page_counts(), scrollbar_page as int),
    {
        let counts = page_counts_slice(&self.xpub_page_count);
        let mut xpub_index: usize = 0;
        let mut xpub_page: usize = scrollbar_page;
        proof {
            assert(counts@.skip(0) =~= counts@);
        }
        while xpub_index < counts.len()
            invariant
                xpub_index <= counts@.len(),
                counts@ == page_counts_of(self.xpub_page_count),
                xpub_page <= scrollbar_page,
                lookup_spec(counts@, scrollbar_page as int) == ({
                    let rest = lookup_spec(counts@.skip(xpub_index as int), xpub_page as int);
                    (rest.0 + xpub_index, rest.1)
                }),
            decreases counts@.len() - xpub_index,
        {
            let page_count = counts[xpub_index] as usize;
            proof {
                assert(counts@.skip(xpub_index as int).drop_first() =~= counts@.skip(xpub_index + 1));
            }
            if page_count <= xpub_page {
                xpub_page = xpub_page - page_count;
                xpub_index += 1;
            } else {
                return (xpub_index, xpub_page);
            }
        }
        (xpub_index, xpub_page)
    }

    /// The pager over all pages; it starts on the first.
    pub fn pager(&self) -> (r: Pager)
        ensures
            r == (Pager { current: 0, total: (BASE_PAGES + sum_counts(self.page_counts())) as u16 }),
    {
        let total = self.total_pages();
        Pager::new(total)
    }

    /// Goes to page `to_page`. On an xpub page, returns which xpub to show
    /// and which of its pages.
    pub fn change_page(&mut self, to_page: u16) -> (r: Option<(usize, usize)>)
        ensures
            final(self).current() == to_page,
            final(self).xpubs() == old(self).xpubs(),
            final(self).page_counts() == old(self).page_counts(),
            to_page < BASE_PAGES ==> r is None,
            to_page >= BASE_PAGES ==> r is Some && ((r->0).0 as int, (r->0).1 as int) == lookup_spec(
                old(self).page_counts(),
                to_page - BASE_PAGES,
            ),
    {
        self.current_page = to_page as usize;
        if to_page as usize >= BASE_PAGES {
            Some(self.lookup(to_page as usize - BASE_PAGES))
        } else {
            None
        }
    }

    /// The page shown.
    pub fn current_page(&self) -> (r: usize)
        ensures
            r == self.current(),
    {
        self.current_page
    }
}

} // verus!
