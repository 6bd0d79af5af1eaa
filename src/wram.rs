use vstd::prelude::*;

verus! {

/// Work RAM that can be cleared back to its power-on contents.
pub struct Wram {
    pub ram: Vec<u8>,
}

impl View for Wram {
    type V = Seq<u8>;

    open spec fn view(&self) -> Seq<u8> {
        self.ram@
    }
}

impl Wram {
    /// `size` zeroed bytes.
    pub fn new(size: usize) -> (r: Wram)
        ensures
            r@ == Seq::new(size as nat, |i: int| 0u8),
    {
        let r = Wram { ram: vec![0u8; size] };
        assert(r@ =~= Seq::new(size as nat, |i: int| 0u8));
        r
    }

    /// Zeroes every byte; the size is kept.
    pub fn reset(&mut self)
        ensures
            final(self)@ == Seq::new(old(self)@.len(), |i: int| 0u8),
    {
        self.ram = vec![0u8; self.ram.len()];
        assert(self@ =~= Seq::new(old(self)@.len(), |i: int| 0u8));
    }

    pub fn write(&mut self, addr: u16, data: u8)
        requires
            (addr as int) < old(self)@.len(),
        ensures
            final(self)@ == old(self)@.update(addr as int, data),
    {
        self.ram.set(addr as usize, data);
    }

    pub fn read(&self, addr: u16) -> (r: u8)
        requires
            (addr as int) < self@.len(),
        ensures
            r == self@[addr as int],
    {
        self.ram[addr as usize]
    }
}

} // verus!
