use std::time::Instant;

use re_reg::prelude::Bits;
use re_reg::prelude::BitsLike;
use re_reg::prelude::RWInnerRegister;
use re_reg::prelude::ReadWritableIO;
use re_reg::prelude::RegName;

struct FtReg;

impl RegName for FtReg {}

impl BitsLike<u32> for FtReg {}

fn ft_b1() -> Bits<u32, FtReg> {
    Bits::field(0, 2)
}

fn ft_b2() -> Bits<u32, FtReg> {
    Bits::field(2, 4)
}

trait RegLike {
    fn p(self, input: u32, off: usize, mask: u32) -> Self;
    #[allow(dead_code)]
    fn cl(self, mask1: u32, mask2: u32) -> Self;
}

impl RegLike for u32 {
    fn p(mut self, input: u32, off: usize, mask: u32) -> Self {
        self |= (input << off) & mask;
        self
    }

    fn cl(mut self, mask1: u32, mask2: u32) -> Self {
        self &= !(mask1 | mask2);
        self
    }
}

#[test]
fn perftest() {
    let mut v: RWInnerRegister<u32, FtReg> = RWInnerRegister::new(0);
    let mut b: u32 = 0;

    let range = 0..100000;
    let t1 = Instant::now();
    {
        for n in range {
            v.put_back(ft_b1().val(n) + ft_b2().val(n));
            v.clear(ft_b1() + ft_b2());
        }
    }
    let t2 = Instant::now();
    println!("time = {:?}", t2 - t1);

    let start2 = Instant::now();
    {
        for m in 0..100000 {
            b = b.p(m, 0, 0b11).p(m, 2, 0b1100);
        }
    }
    let end2 = Instant::now();
    println!("time = {:?}", end2 - start2);
}
