use simple_hv::bump::{AllocError, EarlyAllocator};
use simple_hv::hashmap::{HashMap, SimpleHasher};

#[test]
fn simple_hasher_folds_bytes() {
    let mut h = SimpleHasher::new();
    assert_eq!(h.finish(), 0);
    h.write(&[1, 2]);
    assert_eq!(h.finish(), 33);
    h.write(&[0xff]);
    assert_eq!(h.finish(), 33 * 31 + 0xff);
}

#[test]
fn simple_hasher_wraps() {
    let mut h = SimpleHasher::new();
    h.write(&[0xff; 16]);
    let mut expect: u64 = 0;
    for _ in 0..16 {
        expect = expect.wrapping_mul(31).wrapping_add(0xff);
    }
    assert_eq!(h.finish(), expect);
}

#[test]
fn hashmap_insert_get_overwrite() {
    let mut m: HashMap<&str> = HashMap::new();
    assert_eq!(m.capacity(), 64);
    assert_eq!(m.get(&1), None);
    m.insert(1, "one");
    m.insert(65, "sixty-five");
    assert_eq!(m.get(&1), Some(&"one"));
    assert_eq!(m.get(&65), Some(&"sixty-five"));
    assert_eq!(m.len(), 2);
    m.insert(1, "uno");
    assert_eq!(m.get(&1), Some(&"uno"));
    assert_eq!(m.len(), 2);
    assert_eq!(m.get(&2), None);
}

#[test]
fn hashmap_grows_and_keeps_entries() {
    let mut m: HashMap<u64> = HashMap::new();
    for k in 0..100u64 {
        m.insert(k * 7, k);
    }
    assert_eq!(m.capacity(), 256);
    assert_eq!(m.len(), 100);
    for k in 0..100u64 {
        assert_eq!(m.get(&(k * 7)), Some(&k));
    }
    assert_eq!(m.get(&1), None);
}

#[test]
fn hashmap_resizes_at_seventy_percent() {
    let mut m: HashMap<u8> = HashMap::new();
    for k in 0..45u64 {
        m.insert(k, 0);
    }
    assert_eq!(m.capacity(), 64);
    m.insert(45, 0);
    assert_eq!(m.capacity(), 128);
}

#[test]
fn hashmap_iter_visits_each_entry_once() {
    let mut m: HashMap<u64> = HashMap::new();
    for k in 1..=30u64 {
        m.insert(k, k * k);
    }
    m.insert(3, 0);
    let mut it = m.iter();
    let mut seen = Vec::new();
    while let Some((k, v)) = it.next() {
        seen.push((k, *v));
    }
    seen.sort();
    let mut expect: Vec<(u64, u64)> = (1..=30u64).map(|k| (k, k * k)).collect();
    expect[2] = (3, 0);
    assert_eq!(seen, expect);
    assert_eq!(it.next(), None);
}

#[test]
fn early_allocator_bytes_and_pages() {
    let mut a: EarlyAllocator<4096> = EarlyAllocator::new();
    assert_eq!(a.total_bytes(), 0);
    a.init(0x1000, 0x10000);
    assert_eq!(a.total_bytes(), 0x10000);
    assert_eq!(a.total_pages(), 16);
    assert_eq!(a.alloc_bytes(10, 8), Ok(0x1000));
    assert_eq!(a.alloc_bytes(4, 16), Ok(0x1010));
    assert_eq!(a.used_bytes(), 0x14);
    assert_eq!(a.alloc_pages(1, 12), Ok(0x10000));
    assert_eq!(a.used_pages(), 1);
    assert_eq!(a.available_bytes(), 0x10000 - 0x1014);
    assert_eq!(a.available_pages(), 14);
    a.dealloc();
    assert_eq!(a.used_bytes(), 0x14);
    a.dealloc();
    assert_eq!(a.used_bytes(), 0);
    a.dealloc();
    assert_eq!(a.used_bytes(), 0);
}

#[test]
fn early_allocator_refuses_overlap() {
    let mut a: EarlyAllocator<4096> = EarlyAllocator::new();
    a.init(0x10000, 0x4000);
    assert_eq!(a.alloc_pages(2, 0), Ok(0x12000));
    assert_eq!(a.alloc_bytes(0x2001, 1), Err(AllocError::MemoryOverlap));
    assert_eq!(a.alloc_bytes(0x2000, 1), Ok(0x10000));
    assert_eq!(a.alloc_pages(1, 0), Err(AllocError::MemoryOverlap));
    assert_eq!(a.alloc_pages(100, 0), Err(AllocError::MemoryOverlap));
    assert_eq!(a.add_memory(0, 0x1000), Err(AllocError::InvalidParam));
}

#[test]
fn early_allocator_aligns_pages_down() {
    let mut a: EarlyAllocator<4096> = EarlyAllocator::new();
    a.init(0x0, 0x11000);
    assert_eq!(a.alloc_pages(1, 16), Ok(0x10000));
    assert_eq!(a.alloc_pages(1, 16), Ok(0x0));
    assert_eq!(a.alloc_bytes(1, 1), Err(AllocError::MemoryOverlap));
}
