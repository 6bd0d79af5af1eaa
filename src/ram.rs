use vstd::prelude::*;

verus! {

/// A block of byte-addressed read/write memory.
pub struct Ram {
    pub ram: Vec<u8>,
}

impl View for Ram {
    type V = Seq<u8>;

    open spec fn view(&self) -> Seq<u8> {
        self.ram@
    }
}

impl Ram {
    /// `size` zeroed bytes.
    pub fn new(size: usize) -> (r: Ram)
        ensures
            r@ == Seq::new(size as nat, |i: int| 0u8),
    {
        let r = Ram { ram: vec![0u8; size] };
        assert(r@ =~= Seq::new(size as nat, |i: int| 0u8));
        r
    }

    pub fn write(&mut self, addr: u16, data: u8)
        requires
            (addr as int) < old(self)@.len(),
        ensures
            final(self)@ == old(self)@.update(addr as int, data),
    {
        self.ram.set(addr as usize, data);
    }

    pub fn read(&self, addr: u16) -> (r: u8)
        requires
            (addr as int) < self@.len(),
        ensures
            r == self@[addr as int],
    {
        self.ram[addr as usize]
    }
}

} // verus!
