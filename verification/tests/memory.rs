use vcpu::error::MemoryError;
use vcpu::memory::mmu::{MMU, HARDWARE_BEGIN, RAM_BEGIN, ROM_BEGIN};
use vcpu::memory::ram::RAM;
use vcpu::memory::rom::ROM;
use vcpu::memory::{
    read_u128, read_u16, read_u32, read_u64, write_bytes, write_u128, write_u16, write_u32,
    write_u64, MemoryRead, MemoryWrite,
};

fn sample_mmu() -> MMU {
    MMU::new(ROM::new(vec![0xDE, 0xAD, 0xBE, 0xEF]), 0x1000)
}

#[test]
fn read_in_null_segment_fails() {
    let mmu = sample_mmu();
    assert_eq!(mmu.read_u8(0x5), Err(MemoryError::NullAddress(5)));
    assert_eq!(mmu.read_u8(0x0), Err(MemoryError::NullAddress(0)));
    assert_eq!(mmu.read_u8(0xF), Err(MemoryError::NullAddress(0xF)));
}

#[test]
fn read_in_reserved_segments_fails() {
    let mmu = sample_mmu();
    assert_eq!(mmu.read_u8(0x10), Err(MemoryError::ReservedAddress(0x10)));
    assert_eq!(mmu.read_u8(0xF_FFFF), Err(MemoryError::ReservedAddress(0xF_FFFF)));
    assert_eq!(
        mmu.read_u8(HARDWARE_BEGIN),
        Err(MemoryError::ReservedAddress(HARDWARE_BEGIN))
    );
    assert_eq!(
        mmu.read_u8(0x2_FFFF_FFFF),
        Err(MemoryError::ReservedAddress(0x2_FFFF_FFFF))
    );
}

#[test]
fn read_in_rom_segment_maps_to_the_image() {
    let mmu = sample_mmu();
    assert_eq!(mmu.read_u8(ROM_BEGIN), Ok(0xDE));
    assert_eq!(mmu.read_u8(ROM_BEGIN + 1), Ok(0xAD));
    assert_eq!(mmu.read_u8(ROM_BEGIN + 2), Ok(0xBE));
    assert_eq!(mmu.read_u8(ROM_BEGIN + 3), Ok(0xEF));
    // Past the end of the 4-byte image, still inside the segment: the
    // failure carries the global address, never the device offset.
    assert_eq!(
        mmu.read_u8(ROM_BEGIN + 4),
        Err(MemoryError::InvalidAddress(ROM_BEGIN + 4))
    );
}

#[test]
fn read_in_ram_segment_maps_to_the_device() {
    let mut mmu = sample_mmu();
    assert_eq!(mmu.read_u8(RAM_BEGIN), Ok(0));
    assert_eq!(mmu.write_u8(RAM_BEGIN + 7, 0x42), Ok(()));
    assert_eq!(mmu.read_u8(RAM_BEGIN + 7), Ok(0x42));
    assert_eq!(
        mmu.read_u8(RAM_BEGIN + 0x1000),
        Err(MemoryError::InvalidAddress(RAM_BEGIN + 0x1000))
    );
}

#[test]
fn write_protection_in_every_segment_below_ram() {
    let mut mmu = sample_mmu();
    assert_eq!(mmu.write_u8(RAM_BEGIN, 0x11), Ok(()));

    assert_eq!(mmu.write_u8(0x5, 0xAA), Err(MemoryError::NullAddress(5)));
    assert_eq!(mmu.write_u8(0x10, 0xAA), Err(MemoryError::ReservedAddress(0x10)));
    assert_eq!(
        mmu.write_u8(ROM_BEGIN, 0xAA),
        Err(MemoryError::WriteToReadOnlyAddress(ROM_BEGIN))
    );
    assert_eq!(
        mmu.write_u8(HARDWARE_BEGIN + 5, 0xAA),
        Err(MemoryError::ReservedAddress(HARDWARE_BEGIN + 5))
    );

    // RAM is untouched by the refused writes and ROM still serves its image.
    assert_eq!(mmu.read_u8(RAM_BEGIN), Ok(0x11));
    assert_eq!(mmu.read_u8(RAM_BEGIN + 1), Ok(0));
    assert_eq!(mmu.read_u8(ROM_BEGIN), Ok(0xDE));
}

#[test]
fn zero_clears_every_ram_byte_and_leaves_rom_alone() {
    let mut mmu = sample_mmu();
    assert_eq!(mmu.write_u8(RAM_BEGIN, 1), Ok(()));
    assert_eq!(mmu.write_u8(RAM_BEGIN + 0xFFF, 2), Ok(()));
    mmu.zero();
    for offset in [0u64, 1, 7, 0x800, 0xFFF] {
        assert_eq!(mmu.read_u8(RAM_BEGIN + offset), Ok(0));
    }
    assert_eq!(mmu.read_u8(ROM_BEGIN), Ok(0xDE));
    assert_eq!(mmu.read_u8(ROM_BEGIN + 3), Ok(0xEF));
}

#[test]
fn ram_new_keeps_bytes_and_zero_clears_them() {
    let mut ram = RAM::new(vec![1, 2, 3]);
    assert_eq!(ram.read_u8(0), Ok(1));
    assert_eq!(ram.read_u8(2), Ok(3));
    assert_eq!(ram.read_u8(3), Err(MemoryError::InvalidAddress(3)));
    assert_eq!(ram.write_u8(1, 9), Ok(()));
    assert_eq!(ram.read_u8(1), Ok(9));
    ram.zero();
    assert_eq!(ram.read_u8(0), Ok(0));
    assert_eq!(ram.read_u8(1), Ok(0));
    assert_eq!(ram.read_u8(2), Ok(0));
}

#[test]
fn rom_serves_its_image_read_only() {
    let rom = ROM::new(vec![7, 8]);
    assert_eq!(rom.bytes(), &[7, 8]);
    assert_eq!(rom.read_u8(0), Ok(7));
    assert_eq!(rom.read_u8(1), Ok(8));
    assert_eq!(rom.read_u8(2), Err(MemoryError::InvalidAddress(2)));
}

#[test]
fn multi_byte_reads_compose_little_endian() {
    let mut mmu = sample_mmu();
    for (i, byte) in [0xEFu8, 0xBE, 0xAD, 0xDE, 0x78, 0x56, 0x34, 0x12].iter().enumerate() {
        assert_eq!(mmu.write_u8(RAM_BEGIN + i as u64, *byte), Ok(()));
    }
    assert_eq!(read_u16(&mmu, RAM_BEGIN), Ok(0xBEEF));
    assert_eq!(read_u32(&mmu, RAM_BEGIN), Ok(0xDEAD_BEEF));
    assert_eq!(read_u64(&mmu, RAM_BEGIN), Ok(0x1234_5678_DEAD_BEEF));
    // The first failing byte aborts the whole read.
    assert_eq!(
        read_u16(&mmu, ROM_BEGIN + 3),
        Err(MemoryError::InvalidAddress(ROM_BEGIN + 4))
    );
}

#[test]
fn multi_byte_writes_compose_little_endian() {
    let mut mmu = sample_mmu();
    assert_eq!(write_u16(&mut mmu, RAM_BEGIN, 0xBEEF), Ok(()));
    assert_eq!(mmu.read_u8(RAM_BEGIN), Ok(0xEF));
    assert_eq!(mmu.read_u8(RAM_BEGIN + 1), Ok(0xBE));

    assert_eq!(write_u32(&mut mmu, RAM_BEGIN + 0x10, 0xDEAD_BEEF), Ok(()));
    assert_eq!(read_u32(&mmu, RAM_BEGIN + 0x10), Ok(0xDEAD_BEEF));

    assert_eq!(write_u64(&mut mmu, RAM_BEGIN + 0x20, 0x0102_0304_0506_0708), Ok(()));
    assert_eq!(read_u64(&mmu, RAM_BEGIN + 0x20), Ok(0x0102_0304_0506_0708));

    let wide: u128 = 0x0011_2233_4455_6677_8899_AABB_CCDD_EEFF;
    assert_eq!(write_u128(&mut mmu, RAM_BEGIN + 0x30, wide), Ok(()));
    assert_eq!(read_u128(&mmu, RAM_BEGIN + 0x30), Ok(wide));
    assert_eq!(mmu.read_u8(RAM_BEGIN + 0x30), Ok(0xFF));
    assert_eq!(mmu.read_u8(RAM_BEGIN + 0x3F), Ok(0x00));
}

#[test]
fn partial_write_commits_its_prefix() {
    // A 16-byte RAM device: a two-byte write at its last byte commits the
    // first byte, then fails on the next address, leaving the prefix.
    let mut mmu = MMU::new(ROM::new(vec![]), 0x10);
    let last = RAM_BEGIN + 0xF;
    assert_eq!(
        write_u16(&mut mmu, last, 0xAABB),
        Err(MemoryError::InvalidAddress(RAM_BEGIN + 0x10))
    );
    assert_eq!(mmu.read_u8(last), Ok(0xBB));
}

#[test]
fn write_into_protected_segment_commits_nothing() {
    let mut mmu = sample_mmu();
    // A write whose first byte lands in ROM fails before anything is
    // committed.
    assert_eq!(
        write_u32(&mut mmu, ROM_BEGIN, 0x0102_0304),
        Err(MemoryError::WriteToReadOnlyAddress(ROM_BEGIN))
    );
    assert_eq!(mmu.read_u8(ROM_BEGIN), Ok(0xDE));
    assert_eq!(mmu.read_u8(RAM_BEGIN), Ok(0));
}

#[test]
fn write_bytes_writes_in_address_order() {
    let mut mmu = sample_mmu();
    let bytes = vec![1u8, 2, 3, 4, 5];
    assert_eq!(write_bytes(&mut mmu, RAM_BEGIN + 2, &bytes), Ok(()));
    for (i, byte) in bytes.iter().enumerate() {
        assert_eq!(mmu.read_u8(RAM_BEGIN + 2 + i as u64), Ok(*byte));
    }
    assert_eq!(mmu.read_u8(RAM_BEGIN + 1), Ok(0));
    assert_eq!(mmu.read_u8(RAM_BEGIN + 7), Ok(0));
}
