use re_reg::prelude::Bits;
use re_reg::prelude::ROInnerRegister;
use re_reg::prelude::RWInnerRegister;
use re_reg::prelude::ReadWritableIO;
use re_reg::prelude::ReadableIO;
use re_reg::prelude::UIntLike;
use re_reg::prelude::WOInnerRegister;
use re_reg::prelude::WritableIO;

#[test]
fn field_masks_are_contiguous_runs() {
    // Observe each mask by writing it with the clobbering `set`.
    let mut r8: RWInnerRegister<u8, ()> = RWInnerRegister::new(0);
    r8.set(Bits::field(0, 8));
    assert_eq!(r8.read(), 0xff);
    r8.set(Bits::field(3, 2));
    assert_eq!(r8.read(), 0b11000);

    let mut r16: RWInnerRegister<u16, ()> = RWInnerRegister::new(0);
    r16.set(Bits::field(0, 16));
    assert_eq!(r16.read(), 0xffff);
    r16.set(Bits::field(15, 1));
    assert_eq!(r16.read(), 0x8000);

    let mut r32: RWInnerRegister<u32, ()> = RWInnerRegister::new(0);
    r32.set(Bits::field(0, 32));
    assert_eq!(r32.read(), 0xffff_ffff);
    r32.set(Bits::field(5, 2));
    assert_eq!(r32.read(), 0b1100000);

    let mut r64: RWInnerRegister<u64, ()> = RWInnerRegister::new(0);
    r64.set(Bits::field(0, 64));
    assert_eq!(r64.read(), 0xffff_ffff_ffff_ffff);
    r64.set(Bits::field(63, 1));
    assert_eq!(r64.read(), 0x8000_0000_0000_0000);
}

#[test]
fn explicit_mask_descriptor() {
    let mut r8: RWInnerRegister<u8, ()> = RWInnerRegister::new(0);
    r8.set(Bits::new(4, 0xf0));
    assert_eq!(r8.read(), 0xf0);
}

#[test]
fn put_then_get_truncates() {
    let mut r: RWInnerRegister<u32, ()> = RWInnerRegister::new(0);
    let b: Bits<u32, ()> = Bits::field(2, 3);
    // A value wider than the field loses its high bits, silently.
    r.put(b.val(0xff));
    assert_eq!(r.get(Bits::field(2, 3)), 0b111);
    r.put(Bits::field(2, 3).val(0b101));
    assert_eq!(r.get(Bits::field(2, 3)), 0b101);
    // Only the field's bits were written by `put`.
    assert_eq!(r.read(), 0b10100);
}

#[test]
fn is_set_means_all_ones() {
    // A partially-set mask is not "set".
    let r: ROInnerRegister<u32, ()> = ROInnerRegister::new(0b01);
    assert!(r.is_set(Bits::field(0, 1)));
    assert!(!r.is_set(Bits::field(0, 2)));
    let full: ROInnerRegister<u32, ()> = ROInnerRegister::new(0b11);
    assert!(full.is_set(Bits::field(0, 2)));
}

#[test]
fn put_back_preserves_other_bits() {
    let mut r: RWInnerRegister<u32, ()> = RWInnerRegister::new(0xdead_beef);
    r.put_back(Bits::field(8, 8).val(0x42));
    assert_eq!(r.read(), 0xdead_42ef);
}

#[test]
fn clear_then_set_back_restores_ones() {
    let b: Bits<u32, ()> = Bits::field(4, 4);
    let mut r: RWInnerRegister<u32, ()> = RWInnerRegister::new(0b1010_0101);
    r.clear(Bits::field(4, 4));
    assert_eq!(r.read(), 0b0000_0101);
    r.set_back(b);
    assert_eq!(r.read(), 0b1111_0101);
}

#[test]
fn clear_all_set_all_round_trip() {
    let mut r: RWInnerRegister<u16, ()> = RWInnerRegister::new(0xffff);
    r.clear_all();
    assert_eq!(r.read(), 0);
    r.set_all();
    assert_eq!(r.read(), 0xffff);
}

#[test]
fn overlapping_merge_is_or() {
    // Two fields covering bit 0, with intended values 1 and 0: the merge
    // keeps the OR, so bit 0 ends up 1.
    let b: Bits<u32, ()> = Bits::field(0, 1);
    let mut r: RWInnerRegister<u32, ()> = RWInnerRegister::new(0);
    r.put(b.val(1) + Bits::field(0, 1).val(0));
    assert_eq!(r.read(), 1);
}

#[test]
fn read_only_register_is_repeatable() {
    let r: ROInnerRegister<u64, ()> = ROInnerRegister::new(0x0123_4567_89ab_cdef);
    assert_eq!(r.read(), 0x0123_4567_89ab_cdef);
    assert_eq!(r.read(), 0x0123_4567_89ab_cdef);
    assert_eq!(r.read(), 0x0123_4567_89ab_cdef);
}

#[test]
fn write_only_register_accepts_writes() {
    let mut w: WOInnerRegister<u8, ()> = WOInnerRegister::new(0);
    w.write(0x5a);
    w.put(Bits::field(0, 4).val(0xf));
    w.set(Bits::field(1, 2));
    w.set_all();
    w.clear_all();
}

#[test]
fn bare_field_in_merge_forces_ones() {
    let mut r: RWInnerRegister<u32, ()> = RWInnerRegister::new(0);
    // MaskedVal + Bits: the bare field's bits become 1.
    r.put(Bits::field(0, 2).val(0b10) + Bits::field(4, 2));
    assert_eq!(r.read(), 0b110010);
    // Bits + MaskedVal, the symmetric case.
    r.put(Bits::field(4, 2) + Bits::field(0, 2).val(0b10));
    assert_eq!(r.read(), 0b110010);
}

#[test]
fn combined_descriptor_keeps_min_offset() {
    // get() on a combined descriptor shifts by the smaller offset.
    let r: ROInnerRegister<u32, ()> = ROInnerRegister::new(0b1100110);
    let combined = Bits::field(5, 2) + Bits::field(1, 2);
    assert_eq!(r.get(combined), 0b110011);
}

#[test]
fn uint_operations() {
    assert_eq!(<u8 as UIntLike>::zero(), 0);
    assert_eq!(<u8 as UIntLike>::all(), 0xff);
    assert_eq!(<u16 as UIntLike>::all(), 0xffff);
    assert_eq!(<u32 as UIntLike>::all(), 0xffff_ffff);
    assert_eq!(<u64 as UIntLike>::all(), 0xffff_ffff_ffff_ffff);
    assert_eq!(0xf0u8.and(0x3c), 0x30);
    assert_eq!(0xf0u8.or(0x3c), 0xfc);
    assert_eq!(0xf0u8.xor(0x3c), 0xcc);
    assert_eq!(<u8 as UIntLike>::not(0xf0), 0x0f);
    assert_eq!(<u8 as UIntLike>::shl(0x81, 1), 0x02);
    assert_eq!(<u8 as UIntLike>::shr(0x81, 4), 0x08);
    assert!(3u32.equals(3));
    assert!(!3u32.equals(4));
    assert_eq!(<u8 as UIntLike>::width(), 8);
    assert_eq!(<u64 as UIntLike>::width(), 64);
}
