use vstd::prelude::*;

use crate::ram::{Ram, RAM_SIZE};

verus! {

/// Address of the DMA trigger register, which holds the source page.
pub const DMA_ADDRESS: u16 = 0xFF46;

/// First address of OAM, where the copied bytes land.
pub const DESTINATION_START_ADDRESS: u16 = 0xFE00;

/// Index of the last byte of a transfer.
pub const MAX_LOWER_NIBBLE: u16 = 0x9F;

/// The OAM DMA engine: it copies one byte per machine cycle from the page
/// named in the trigger register into OAM, and clears the request when the
/// 160th byte has moved.
pub struct DMA {
    pub current_index: u16,
}

/// Memory after the first `k` bytes starting at `idx` have been copied, one
/// by one, from page `page` into OAM.
pub open spec fn spec_dma_copy(data: Seq<u8>, page: u8, idx: int, k: nat) -> Seq<u8>
    decreases k,
{
    if k == 0 {
        data
    } else {
        let prev = spec_dma_copy(data, page, idx, (k - 1) as nat);
        let i = idx + k - 1;
        prev.update(DESTINATION_START_ADDRESS + i, prev[page * 256 + i])
    }
}

/// A byte-by-byte copy whose source page is not OAM's own page lands each
/// OAM cell with the source byte as it stood before the transfer, and
/// touches nothing outside the OAM window it wrote.
pub proof fn lemma_dma_copy_mirrors(data: Seq<u8>, page: u8, idx: int, k: nat)
    requires
        data.len() == RAM_SIZE,
        page != 0xFE,
        0 <= idx,
        idx + k <= 0xA0,
    ensures
        spec_dma_copy(data, page, idx, k).len() == RAM_SIZE,
        forall|j: int|
            0 <= j < k ==> spec_dma_copy(data, page, idx, k)[#[trigger] (DESTINATION_START_ADDRESS
                + idx + j)] == data[page * 256 + idx + j],
        forall|a: int|
            0 <= a < RAM_SIZE && !(DESTINATION_START_ADDRESS + idx <= a
                < DESTINATION_START_ADDRESS + idx + k) ==> #[trigger] spec_dma_copy(
                data,
                page,
                idx,
                k,
            )[a] == data[a],
    decreases k,
{
    if k > 0 {
        lemma_dma_copy_mirrors(data, page, idx, (k - 1) as nat);
    }
}

/// One call of the transfer engine: nothing moves without a latched
/// request; with one, up to `cycles` bytes (bounded by the end of the
/// window) are copied, and finishing the window resets the cursor and
/// clears the request.
pub open spec fn spec_dma_tick_effect(
    pre: DMA,
    post: DMA,
    pre_ram: Ram,
    post_ram: Ram,
    cycles: u16,
) -> bool {
    &&& post.wf()
    &&& post_ram.wf()
    &&& (!pre_ram.spec_dma_requested() ==> {
        &&& post.current_index == pre.current_index
        &&& post_ram@ == pre_ram@
        &&& !post_ram.spec_dma_requested()
    })
    &&& (pre_ram.spec_dma_requested() ==> {
        let idx = pre.current_index as int;
        let k = (if cycles as int <= 0xA0 - idx {
            cycles as int
        } else {
            0xA0 - idx
        }) as nat;
        let page = pre_ram@[DMA_ADDRESS as int];
        &&& post_ram@ == spec_dma_copy(pre_ram@, page, idx, k)
        &&& (idx + k == 0xA0 ==> post.current_index == 0 && !post_ram.spec_dma_requested())
        &&& (idx + k < 0xA0 ==> post.current_index == idx + k && post_ram.spec_dma_requested())
    })
}

impl DMA {
    /// The engine's cursor stays inside the 160-byte transfer window.
    pub open spec fn wf(&self) -> bool {
        self.current_index <= MAX_LOWER_NIBBLE
    }

    pub fn new() -> (r: DMA)
        ensures
            r.current_index == 0,
            r.wf(),
    {
        DMA { current_index: 0 }
    }

    /// Advance the transfer by the machine cycles one instruction consumed:
    /// while a request is latched, copy one byte per cycle from the source
    /// page into OAM; when the last byte has moved, reset the cursor and
    /// clear the request.
    pub fn tick_transfer(&mut self, ram: &mut Ram, cycles: u16)
        requires
            old(self).wf(),
            old(ram).wf(),
        ensures
            spec_dma_tick_effect(*old(self), *final(self), *old(ram), *final(ram), cycles),
    {
        if !ram.dma_requested() {
            return ;
        }

        let page = ram.unblocked_read(DMA_ADDRESS);
        let start_location: u16 = (page as u16) << 8;
        proof {
            lemma_page_shift();
        }

        let remaining = 0xA0 - self.current_index;
        let count = if cycles < remaining {
            cycles
        } else {
            remaining
        };

        let ghost base = ram@;
        let ghost idx0 = self.current_index as int;

        let mut j: u16 = 0;
        while j < count
            invariant
                ram.wf(),
                ram.spec_dma_requested(),
                j <= count,
                idx0 + count <= 0xA0,
                self.current_index == idx0 + j,
                start_location == page * 256,
                base.len() == RAM_SIZE,
                base[DMA_ADDRESS as int] == page,
                ram@ == spec_dma_copy(base, page, idx0, j as nat),
            decreases count - j,
        {
            let source = start_location + self.current_index;
            let destination = DESTINATION_START_ADDRESS + self.current_index;
            let value = ram.unblocked_read(source);
            ram.write(destination, value);

            self.current_index += 1;
            j += 1;
        }

        if self.current_index > MAX_LOWER_NIBBLE {
            self.current_index = 0;
            ram.clear_dma_request();
        }
    }
}

/// A page number shifted into the high byte equals the page times 256.
pub proof fn lemma_page_shift()
    by (bit_vector)
    ensures
        forall|p: u8| #[trigger] ((p as u16) << 8) == p * 256,
{
}

} // verus!
