//! The page selector: which half of the SPD image is addressed.

use vstd::prelude::*;

use crate::{MAX_SIZE, PAGE_SIZE};

verus! {

/// One of the two 256-byte halves of the 512-byte SPD image.
///
/// Only pages 0 and 1 exist; [`Page::new`] builds nothing else, and a page
/// built directly from another number is never given a device select code.
#[derive(Copy, Clone, Debug, PartialEq, Eq, Structural)]
pub struct Page(pub u8);

impl Page {
    /// Whether this is one of the two pages that exist.
    pub open spec fn wf(self) -> bool {
        self.0 <= 1
    }

    /// Byte offset in the SPD image at which the page begins.
    pub open spec fn start(self) -> nat {
        if self.0 == 0 {
            0
        } else {
            PAGE_SIZE as nat
        }
    }

    /// The page with the given number, if there is one.
    pub fn new(number: u8) -> (page: Option<Page>)
        ensures
            number <= 1 ==> page == Some(Page(number)),
            number > 1 ==> page.is_none(),
    {
        if number <= 1 {
            Some(Page(number))
        } else {
            None
        }
    }

    /// Whether this is one of the two pages that exist.
    pub fn is_valid(&self) -> (valid: bool)
        ensures
            valid == self.wf(),
    {
        self.0 <= 1
    }

    /// Byte offset in the SPD image at which the page begins: 0 for page 0,
    /// and the page size for any other.
    pub fn offset(&self) -> (start: usize)
        ensures
            start == self.start(),
    {
        if self.0 == 0 {
            0
        } else {
            PAGE_SIZE
        }
    }
}

/// Pages are laid out back to back: a page that exists begins at its number
/// times the page size, and all of it lies inside the SPD image.
pub proof fn lemma_page_in_image(page: Page)
    requires
        page.wf(),
    ensures
        page.start() == page.0 * PAGE_SIZE,
        page.start() + PAGE_SIZE <= MAX_SIZE,
{
}

} // verus!
