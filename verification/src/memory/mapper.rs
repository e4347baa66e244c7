use super::device::{
    load, load_wide, store, store_result, store_wide, store_wide_result, Device, Error,
};
use vstd::prelude::*;

verus! {

/// What the bus knows of one region: the inclusive address range that it is
/// bound to and the bytes that its device holds.
pub struct RegionView {
    pub start: u16,
    pub end: u16,
    pub cells: Seq<u8>,
}

impl RegionView {
    /// Whether `addr` lies in the region's range.
    pub open spec fn covers(self, addr: u16) -> bool {
        self.start <= addr <= self.end
    }

    /// The address that the region's device sees for the bus address `addr`.
    pub open spec fn local(self, addr: u16) -> u16 {
        (addr - self.start) as u16
    }

    /// The region with other bytes in its device.
    pub open spec fn holding(self, cells: Seq<u8>) -> RegionView {
        RegionView { cells, ..self }
    }
}

/// Whether region `i` answers for `addr`: it covers the address and no region
/// before it does. The regions stand most recently added first.
pub open spec fn answers(regions: Seq<RegionView>, i: int, addr: u16) -> bool {
    &&& 0 <= i < regions.len()
    &&& regions[i].covers(addr)
    &&& forall|j: int| 0 <= j < i ==> !(#[trigger] regions[j]).covers(addr)
}

/// Whether no region covers `addr`.
pub open spec fn unmapped(regions: Seq<RegionView>, addr: u16) -> bool {
    forall|j: int| 0 <= j < regions.len() ==> !(#[trigger] regions[j]).covers(addr)
}

/// The index of the region that answers for `addr`, if any does.
pub open spec fn route(regions: Seq<RegionView>, addr: u16) -> Option<int> {
    if exists|i: int| answers(regions, i, addr) {
        Some(choose|i: int| answers(regions, i, addr))
    } else {
        None
    }
}

/// At most one region answers for an address, and `route` names it.
pub proof fn lemma_route_some(regions: Seq<RegionView>, i: int, addr: u16)
    requires
        answers(regions, i, addr),
    ensures
        route(regions, addr) == Some(i),
{
    let found = choose|i: int| answers(regions, i, addr);
    assert(answers(regions, found, addr));
    if found < i {
        assert(!regions[found].covers(addr));
    }
    if i < found {
        assert(!regions[i].covers(addr));
    }
}

/// `route` finds no region exactly where none covers the address.
pub proof fn lemma_route_none(regions: Seq<RegionView>, addr: u16)
    ensures
        route(regions, addr) is None <==> unmapped(regions, addr),
        route(regions, addr) matches Some(i) ==> answers(regions, i, addr),
{
    if unmapped(regions, addr) {
        if exists|i: int| answers(regions, i, addr) {
            let i = choose|i: int| answers(regions, i, addr);
            assert(regions[i].covers(addr));
        }
    } else {
        let k = choose|k: int| 0 <= k < regions.len() && (#[trigger] regions[k]).covers(addr);
        lemma_first_cover(regions, k, addr);
    }
}

/// Where some region up to `k` covers the address, some region answers for it.
proof fn lemma_first_cover(regions: Seq<RegionView>, k: int, addr: u16)
    requires
        0 <= k < regions.len(),
        regions[k].covers(addr),
    ensures
        exists|i: int| answers(regions, i, addr),
    decreases k,
{
    if exists|j: int| 0 <= j < k && (#[trigger] regions[j]).covers(addr) {
        let j = choose|j: int| 0 <= j < k && (#[trigger] regions[j]).covers(addr);
        lemma_first_cover(regions, j, addr);
    } else {
        assert(answers(regions, k, addr));
    }
}

/// What a read of one byte at `addr` gives on a bus with these regions: the
/// answer of the device of the region that answers for the address, asked at
/// the address relative to the region's start; where no region covers the
/// address, a refusal that carries the address itself.
pub open spec fn mapped_load(regions: Seq<RegionView>, addr: u16) -> Result<u8, Error> {
    match route(regions, addr) {
        Some(i) => load(regions[i].cells, regions[i].local(addr)),
        None => Err(Error::OutOfBounds(addr)),
    }
}

/// What a read of a word at `addr` gives: as `mapped_load`, with both bytes
/// taken from the device of the region that answers for `addr`.
pub open spec fn mapped_load_wide(regions: Seq<RegionView>, addr: u16) -> Result<u16, Error> {
    match route(regions, addr) {
        Some(i) => load_wide(regions[i].cells, regions[i].local(addr)),
        None => Err(Error::OutOfBounds(addr)),
    }
}

/// Whether a write of one byte at `addr` is accepted, and the refusal if not.
pub open spec fn mapped_store_result(regions: Seq<RegionView>, addr: u16) -> Result<(), Error> {
    match route(regions, addr) {
        Some(i) => store_result(regions[i].cells, regions[i].local(addr)),
        None => Err(Error::OutOfBounds(addr)),
    }
}

/// The regions after a write of `data` at `addr`: only the device of the
/// region that answers for the address can change.
pub open spec fn mapped_store(regions: Seq<RegionView>, addr: u16, data: u8) -> Seq<RegionView> {
    match route(regions, addr) {
        Some(i) => regions.update(
            i,
            regions[i].holding(store(regions[i].cells, regions[i].local(addr), data)),
        ),
        None => regions,
    }
}

/// Whether a write of a word at `addr` is accepted, and the refusal if not.
pub open spec fn mapped_store_wide_result(regions: Seq<RegionView>, addr: u16) -> Result<
    (),
    Error,
> {
    match route(regions, addr) {
        Some(i) => store_wide_result(regions[i].cells, regions[i].local(addr)),
        None => Err(Error::OutOfBounds(addr)),
    }
}

/// The regions after a write of the word `data` at `addr`: both bytes go to
/// the device of the region that answers for `addr`.
pub open spec fn mapped_store_wide(regions: Seq<RegionView>, addr: u16, data: u16) -> Seq<
    RegionView,
> {
    match route(regions, addr) {
        Some(i) => regions.update(
            i,
            regions[i].holding(store_wide(regions[i].cells, regions[i].local(addr), data)),
        ),
        None => regions,
    }
}

/// Whether `start` is the least start of all regions.
pub open spec fn is_lowest_start(regions: Seq<RegionView>, start: u16) -> bool {
    &&& exists|i: int| 0 <= i < regions.len() && (#[trigger] regions[i]).start == start
    &&& forall|i: int| 0 <= i < regions.len() ==> start <= (#[trigger] regions[i]).start
}

/// Whether `end` is the greatest end of all regions.
pub open spec fn is_highest_end(regions: Seq<RegionView>, end: u16) -> bool {
    &&& exists|i: int| 0 <= i < regions.len() && (#[trigger] regions[i]).end == end
    &&& forall|i: int| 0 <= i < regions.len() ==> (#[trigger] regions[i]).end <= end
}

/// Where no region covers an address, every access to it is refused with the
/// address itself, and a write changes nothing.
pub proof fn lemma_unmapped_refused(regions: Seq<RegionView>, addr: u16)
    requires
        unmapped(regions, addr),
    ensures
        mapped_load(regions, addr) == Err::<u8, Error>(Error::OutOfBounds(addr)),
        mapped_load_wide(regions, addr) == Err::<u16, Error>(Error::OutOfBounds(addr)),
        mapped_store_result(regions, addr) == Err::<(), Error>(Error::OutOfBounds(addr)),
        mapped_store_wide_result(regions, addr) == Err::<(), Error>(Error::OutOfBounds(addr)),
        forall|data: u8| mapped_store(regions, addr, data) == regions,
        forall|data: u16| mapped_store_wide(regions, addr, data) == regions,
{
    lemma_route_none(regions, addr);
}

/// A region that is added answers for every address in its range, whatever
/// regions were there before: each access goes to its device, at the address
/// relative to the region's start.
pub proof fn lemma_added_region_answers(regions: Seq<RegionView>, added: RegionView, addr: u16)
    requires
        added.covers(addr),
    ensures
        route(regions.insert(0, added), addr) == Some(0int),
        mapped_load(regions.insert(0, added), addr) == load(added.cells, added.local(addr)),
        mapped_load_wide(regions.insert(0, added), addr) == load_wide(
            added.cells,
            added.local(addr),
        ),
        mapped_store_result(regions.insert(0, added), addr) == store_result(
            added.cells,
            added.local(addr),
        ),
        mapped_store_wide_result(regions.insert(0, added), addr) == store_wide_result(
            added.cells,
            added.local(addr),
        ),
{
    let after = regions.insert(0, added);
    assert(after[0] == added);
    assert(answers(after, 0, addr));
    lemma_route_some(after, 0, addr);
}

/// A region that is added changes no read outside its range.
pub proof fn lemma_added_region_elsewhere(regions: Seq<RegionView>, added: RegionView, addr: u16)
    requires
        !added.covers(addr),
    ensures
        mapped_load(regions.insert(0, added), addr) == mapped_load(regions, addr),
        mapped_load_wide(regions.insert(0, added), addr) == mapped_load_wide(regions, addr),
        mapped_store_result(regions.insert(0, added), addr) == mapped_store_result(regions, addr),
        mapped_store_wide_result(regions.insert(0, added), addr) == mapped_store_wide_result(
            regions,
            addr,
        ),
{
    let after = regions.insert(0, added);
    assert(after[0] == added);
    assert forall|i: int| 0 <= i < regions.len() implies #[trigger] after[i + 1] == regions[i] by {}
    lemma_route_none(regions, addr);
    match route(regions, addr) {
        Some(i) => {
            assert forall|j: int| 0 <= j < i + 1 implies !(#[trigger] after[j]).covers(addr) by {
                if j > 0 {
                    assert(after[(j - 1) + 1] == regions[j - 1]);
                }
            }
            assert(answers(after, i + 1, addr));
            lemma_route_some(after, i + 1, addr);
        },
        None => {
            assert forall|j: int| 0 <= j < after.len() implies !(#[trigger] after[j]).covers(
                addr,
            ) by {
                if j > 0 {
                    assert(after[(j - 1) + 1] == regions[j - 1]);
                }
            }
            lemma_route_none(after, addr);
        },
    }
}

/// Whether two lists of regions bind the same ranges in the same order.
pub open spec fn same_ranges(before: Seq<RegionView>, after: Seq<RegionView>) -> bool {
    &&& before.len() == after.len()
    &&& forall|i: int|
        0 <= i < before.len() ==> (#[trigger] after[i]).start == before[i].start && after[i].end
            == before[i].end
}

/// A write changes what a device holds and no region's range.
pub proof fn lemma_store_keeps_ranges(regions: Seq<RegionView>, addr: u16, byte: u8, word: u16)
    ensures
        same_ranges(regions, mapped_store(regions, addr, byte)),
        same_ranges(regions, mapped_store_wide(regions, addr, word)),
{
    lemma_route_none(regions, addr);
}

/// The least start and the greatest end depend on the ranges alone.
pub proof fn lemma_same_ranges_same_bounds(
    before: Seq<RegionView>,
    after: Seq<RegionView>,
    start: u16,
    end: u16,
)
    requires
        same_ranges(before, after),
        is_lowest_start(before, start),
        is_highest_end(before, end),
    ensures
        is_lowest_start(after, start),
        is_highest_end(after, end),
{
    let i = choose|i: int| 0 <= i < before.len() && (#[trigger] before[i]).start == start;
    assert(after[i].start == start);
    let j = choose|j: int| 0 <= j < before.len() && (#[trigger] before[j]).end == end;
    assert(after[j].end == end);
    assert forall|k: int| 0 <= k < after.len() implies start <= (#[trigger] after[k]).start by {
        assert(before[k].start == after[k].start);
    }
    assert forall|k: int| 0 <= k < after.len() implies (#[trigger] after[k]).end <= end by {
        assert(before[k].end == after[k].end);
    }
}

/// The lesser of two addresses.
pub open spec fn lesser(a: u16, b: u16) -> u16 {
    if a < b {
        a
    } else {
        b
    }
}

/// The greater of two addresses.
pub open spec fn greater(a: u16, b: u16) -> u16 {
    if a > b {
        a
    } else {
        b
    }
}

/// The least start and the greatest end after a region is added: the lesser of
/// the old least start and the region's start, and the greater of the old
/// greatest end and the region's end.
pub proof fn lemma_bounds_with_added(
    regions: Seq<RegionView>,
    added: RegionView,
    start: u16,
    end: u16,
)
    requires
        is_lowest_start(regions, start),
        is_highest_end(regions, end),
    ensures
        is_lowest_start(regions.insert(0, added), lesser(added.start, start)),
        is_highest_end(regions.insert(0, added), greater(added.end, end)),
{
    let after = regions.insert(0, added);
    assert(after[0] == added);
    assert forall|i: int| 0 <= i < regions.len() implies #[trigger] after[i + 1] == regions[i] by {}
    let i = choose|i: int| 0 <= i < regions.len() && (#[trigger] regions[i]).start == start;
    assert(after[i + 1].start == start);
    let j = choose|j: int| 0 <= j < regions.len() && (#[trigger] regions[j]).end == end;
    assert(after[j + 1].end == end);
    assert forall|k: int| 0 <= k < after.len() implies lesser(added.start, start) <= (
    #[trigger] after[k]).start && after[k].end <= greater(added.end, end) by {
        if k > 0 {
            assert(after[(k - 1) + 1] == regions[k - 1]);
        }
    }
}

/// The first region of a bus has the bus's least start and greatest end for
/// its own.
pub proof fn lemma_bounds_of_one(added: RegionView)
    ensures
        is_lowest_start(Seq::<RegionView>::empty().insert(0, added), added.start),
        is_highest_end(Seq::<RegionView>::empty().insert(0, added), added.end),
{
    let after = Seq::<RegionView>::empty().insert(0, added);
    assert(after[0] == added);
}

/// A device bound to an inclusive range of bus addresses.
struct Region<D: ?Sized> {
    device: Box<D>,
    start: u16,
    end: u16,
}

impl View for Region<dyn Device> {
    type V = RegionView;

    closed spec fn view(&self) -> RegionView {
        RegionView { start: self.start, end: self.end, cells: self.device.cells() }
    }
}

/// A bus that routes each address to the device of the most recently added
/// region that covers it.
pub struct MemoryMapper {
    regions: Vec<Region<dyn Device>>,
    start: u16,
    end: u16,
}

impl View for MemoryMapper {
    type V = Seq<RegionView>;

    /// The regions, most recently added first.
    closed spec fn view(&self) -> Seq<RegionView> {
        Seq::new(self.regions@.len(), |i: int| self.regions@[i]@)
    }
}

impl MemoryMapper {
    /// The bus keeps the least start and the greatest end of its regions.
    pub closed spec fn wf(&self) -> bool {
        self.regions@.len() > 0 ==> is_lowest_start(self@, self.start) && is_highest_end(
            self@,
            self.end,
        )
    }

    /// A bus without regions.
    pub fn new() -> (bus: Self)
        ensures
            bus.wf(),
            bus@ == Seq::<RegionView>::empty(),
    {
        Self::default()
    }

    /// Binds `device` to the addresses from `start` to `end`, both included,
    /// before all regions added so far.
    pub fn add_device(&mut self, device: Box<dyn Device>, start: u16, end: u16)
        requires
            old(self).wf(),
        ensures
            final(self).wf(),
            final(self)@ == old(self)@.insert(
                0,
                RegionView { start, end, cells: device.cells() },
            ),
    {
        let lowest = self.start();
        let highest = self.end();
        match lowest {
            // map starts at new device start
            Some(x) if start < x => self.start = start,
            None => self.start = start,
            _ => (),
        }
        match highest {
            // map ends at new device end
            Some(x) if end > x => self.end = end,
            None => self.end = end,
            _ => (),
        }
        let ghost fresh = RegionView { start, end, cells: device.cells() };
        let region = Region { device, start, end };
        // the newest region stands first, so that a search from the front meets it first
        self.regions.insert(0, region);
        proof {
            let before = old(self)@;
            let after = self@;
            old(self).regions@.insert_ensures(0, region);
            assert(after =~= before.insert(0, fresh));
            if before.len() > 0 {
                lemma_bounds_with_added(before, fresh, old(self).start, old(self).end);
            } else {
                assert(before =~= Seq::<RegionView>::empty());
                lemma_bounds_of_one(fresh);
            }
        }
    }

    /// The least start of all regions, if there is a region.
    pub fn start(&self) -> (bound: Option<u16>)
        requires
            self.wf(),
        ensures
            bound is None <==> self@.len() == 0,
            bound matches Some(start) ==> is_lowest_start(self@, start),
    {
        match self.regions.len() {
            0 => None,
            _ => Some(self.start),
        }
    }

    /// The greatest end of all regions, if there is a region.
    pub fn end(&self) -> (bound: Option<u16>)
        requires
            self.wf(),
        ensures
            bound is None <==> self@.len() == 0,
            bound matches Some(end) ==> is_highest_end(self@, end),
    {
        match self.regions.len() {
            0 => None,
            _ => Some(self.end),
        }
    }
}

/// Whether `addr` lies in the region's range.
fn is_addr_in_region(addr: u16, region: &Region<dyn Device>) -> (inside: bool)
    ensures
        inside == region@.covers(addr),
{
    addr >= region.start && addr <= region.end
}

impl MemoryMapper {
    /// The region that answers for `addr`.
    fn find_region(&self, addr: u16) -> (found: Option<&Region<dyn Device>>)
        ensures
            match found {
                Some(region) => route(self@, addr) matches Some(i) && *region == self.regions@[i],
                None => route(self@, addr) is None,
            },
    {
        let mut i: usize = 0;
        while i < self.regions.len()
            invariant
                i <= self.regions@.len(),
                forall|j: int| 0 <= j < i ==> !(#[trigger] self@[j]).covers(addr),
            decreases self.regions@.len() - i,
        {
            let region = &self.regions[i];
            if is_addr_in_region(addr, region) {
                proof {
                    assert(self@[i as int] == region@);
                    lemma_route_some(self@, i as int, addr);
                }
                return Some(region);
            }
            i += 1;
        }
        proof {
            lemma_route_none(self@, addr);
        }
        None
    }

    /// The region that answers for `addr`, to write through.
    fn find_region_mut(&mut self, addr: u16) -> (found: Option<&mut Region<dyn Device>>)
        ensures
            match found {
                Some(region) => {
                    &&& route(old(self)@, addr) matches Some(i)
                    &&& *region == old(self).regions@[i]
                    &&& final(self).regions@ == old(self).regions@.update(i, *final(region))
                    &&& final(self).start == old(self).start
                    &&& final(self).end == old(self).end
                },
                None => route(old(self)@, addr) is None && *final(self) == *old(self),
            },
    {
        let mut i: usize = 0;
        while i < self.regions.len()
            invariant
                *self == *old(self),
                i <= self.regions@.len(),
                forall|j: int| 0 <= j < i ==> !(#[trigger] self@[j]).covers(addr),
            decreases self.regions@.len() - i,
        {
            if is_addr_in_region(addr, &self.regions[i]) {
                proof {
                    assert(self@[i as int] == self.regions@[i as int]@);
                    lemma_route_some(self@, i as int, addr);
                }
                return Some(&mut self.regions[i]);
            }
            i += 1;
        }
        proof {
            lemma_route_none(self@, addr);
        }
        None
    }

    /// Writes `data` at `addr`, through the region that answers for it.
    pub fn set(&mut self, addr: u16, data: u8) -> (res: Result<(), Error>)
        ensures
            old(self).wf() ==> final(self).wf(),
            res == mapped_store_result(old(self)@, addr),
            final(self)@ == mapped_store(old(self)@, addr, data),
    {
        let res = if let Some(region) = self.find_region_mut(addr) {
            region.device.set(addr - region.start, data)
        } else {
            Err(Error::OutOfBounds(addr))
        };
        proof {
            if old(self).wf() && self.regions@.len() > 0 {
                lemma_same_ranges_same_bounds(old(self)@, self@, self.start, self.end);
            }
        }
        res
    }

    /// Reads the byte at `addr`, from the region that answers for it.
    pub fn get(&self, addr: u16) -> (res: Result<u8, Error>)
        ensures
            res == mapped_load(self@, addr),
    {
        if let Some(region) = self.find_region(addr) {
            region.device.get(addr - region.start)
        } else {
            Err(Error::OutOfBounds(addr))
        }
    }

    /// Writes the word `data` at `addr`, through the region that answers for
    /// `addr`.
    pub fn set_wide(&mut self, addr: u16, data: u16) -> (res: Result<(), Error>)
        ensures
            old(self).wf() ==> final(self).wf(),
            res == mapped_store_wide_result(old(self)@, addr),
            final(self)@ == mapped_store_wide(old(self)@, addr, data),
    {
        let res = if let Some(region) = self.find_region_mut(addr) {
            region.device.set_wide(addr - region.start, data)
        } else {
            Err(Error::OutOfBounds(addr))
        };
        proof {
            if old(self).wf() && self.regions@.len() > 0 {
                lemma_same_ranges_same_bounds(old(self)@, self@, self.start, self.end);
            }
        }
        res
    }

    /// Reads the word at `addr`, from the region that answers for `addr`.
    pub fn get_wide(&self, addr: u16) -> (res: Result<u16, Error>)
        ensures
            res == mapped_load_wide(self@, addr),
    {
        if let Some(region) = self.find_region(addr) {
            region.device.get_wide(addr - region.start)
        } else {
            Err(Error::OutOfBounds(addr))
        }
    }
}

impl Default for MemoryMapper {
    fn default() -> (bus: Self)
        ensures
            bus.wf(),
            bus@ == Seq::<RegionView>::empty(),
    {
        MemoryMapper { regions: Vec::new(), start: 0, end: 0 }
    }
}

} // verus!
