//! The page-granular bump allocator that partitions the guest address space.

use vstd::prelude::*;
use crate::constants::PAGE_SIZE;
use crate::errors::VmError;
use crate::util::{align_up, lemma_align_up_page};

verus! {

/// Length in bytes that a request of `request` bytes takes from an allocator:
/// at least one page, and whole pages only.
pub open spec fn page_span(request: u64) -> int {
    let wanted: int = if request == 0 {
        1
    } else {
        request as int
    };
    ((wanted + 0xFFF) / 0x1000) * 0x1000
}

/// A region of the guest address space that is handed out front to back, in
/// whole pages, and never taken back.
#[derive(Debug, Clone)]
pub struct Allocator {
    base: u64,
    size: u64,
    offset: u64,
}

impl Allocator {
    /// Lowest address of the region.
    pub closed spec fn base(&self) -> u64 {
        self.base
    }

    /// Length of the region in bytes.
    pub closed spec fn size(&self) -> u64 {
        self.size
    }

    /// Bytes handed out so far.
    pub closed spec fn offset(&self) -> u64 {
        self.offset
    }

    /// The address that the next successful allocation returns.
    pub open spec fn next_address(&self) -> u64 {
        (self.base() + self.offset()) as u64
    }

    /// The allocator after `length` more bytes were handed out.
    pub closed spec fn advanced(&self, length: int) -> Allocator {
        Allocator { base: self.base, size: self.size, offset: (self.offset + length) as u64 }
    }

    /// The allocator after a request for `request` bytes: advanced by the
    /// request's span where it has that much left, else as it was.
    pub open spec fn after_request(&self, request: u64) -> Allocator {
        if self.offset() + page_span(request) <= self.size() {
            self.advanced(page_span(request))
        } else {
            *self
        }
    }

    /// What `advanced` keeps and what it changes.
    pub proof fn lemma_advanced(&self, length: int)
        requires
            self.wf(),
            0 <= length,
            length % 0x1000 == 0,
            self.offset() + length <= self.size(),
        ensures
            self.advanced(length).wf(),
            self.advanced(length).base() == self.base(),
            self.advanced(length).size() == self.size(),
            self.advanced(length).offset() == self.offset() + length,
    {
    }

    /// The part handed out is made of whole pages and lies inside the region,
    /// and the region lies inside the 64-bit address space.
    pub closed spec fn wf(&self) -> bool {
        &&& self.offset <= self.size
        &&& self.offset % 0x1000 == 0
        &&& self.base + self.size <= u64::MAX
    }

    /// An allocator over the `size` bytes at `base`, none of them handed out.
    /// The region must lie inside the 64-bit address space.
    pub fn new(base: u64, size: u64) -> (a: Self)
        requires
            base + size <= u64::MAX,
        ensures
            a.wf(),
            a.base() == base,
            a.size() == size,
            a.offset() == 0,
    {
        Self { base, size, offset: 0 }
    }

    /// Hands out the next `page_span(request)` bytes, or fails when the region
    /// has fewer left; a failed call changes nothing.
    pub fn allocate(&mut self, request: u64) -> (r: Result<u64, VmError>)
        requires
            old(self).wf(),
        ensures
            final(self).wf(),
            final(self).base() == old(self).base(),
            final(self).size() == old(self).size(),
            old(self).offset() + page_span(request) <= old(self).size() ==> r == Ok::<u64, VmError>(
                old(self).next_address(),
            ) && final(self).offset() == old(self).offset() + page_span(request),
            old(self).offset() + page_span(request) > old(self).size() ==> r == Err::<
                u64,
                VmError,
            >(
                VmError::AllocatorOom {
                    base: old(self).base(),
                    size: old(self).size(),
                    request,
                },
            ) && *final(self) == *old(self),
            *final(self) == old(self).after_request(request),
            r matches Ok(address) ==> address == old(self).base() + old(self).offset(),
            r matches Ok(address) ==> old(self).base() % 0x1000 == 0 ==> address % 0x1000 == 0,
    {
        let wanted: u64 = if request == 0 {
            1
        } else {
            request
        };
        if wanted > u64::MAX - (PAGE_SIZE - 1) {
            return Err(VmError::AllocatorOom { base: self.base, size: self.size, request });
        }
        let length: u64 = align_up(wanted, PAGE_SIZE);
        proof {
            lemma_align_up_page(wanted);
        }
        if length > self.size - self.offset {
            return Err(VmError::AllocatorOom { base: self.base, size: self.size, request });
        }
        let address: u64 = self.base + self.offset;
        self.offset = self.offset + length;
        Ok(address)
    }
}

/// On a page-aligned region every address handed out is page-aligned.
pub proof fn lemma_allocations_are_page_aligned(a: Allocator)
    requires
        a.wf(),
        a.base() % 0x1000 == 0,
    ensures
        a.next_address() % 0x1000 == 0,
{
}

/// Two allocations in a row return addresses that lie the span of the first
/// request apart: after a successful request for `request` bytes, the next
/// address is `ceil(max(request, 1) / 4096) * 4096` bytes further on.
pub proof fn lemma_consecutive_allocations(a: Allocator, request: u64)
    requires
        a.wf(),
        a.offset() + page_span(request) <= a.size(),
    ensures
        a.after_request(request).wf(),
        a.after_request(request).next_address() == a.next_address() + page_span(request),
        page_span(request) % 0x1000 == 0,
        request <= page_span(request) < request + 0x1000 || (request == 0 && page_span(request)
            == 0x1000),
{
    a.lemma_advanced(page_span(request));
}

} // verus!
