use bm1397_ll::{ChipAddress, Registers};

/// A recorded transport: every read fills the buffer with one fixed word,
/// and every transaction is logged for inspection.
struct MockTransport {
    word: u32,
    reads: Vec<(u8, usize)>,
    writes: Vec<(u8, Vec<u32>)>,
}

impl MockTransport {
    fn new(word: u32) -> Self {
        MockTransport { word, reads: Vec::new(), writes: Vec::new() }
    }
}

impl Registers for MockTransport {
    type Error = ();

    fn read(&mut self, addr: u8, data: &mut [u32]) -> Result<(), ()> {
        self.reads.push((addr, data.len()));
        for slot in data.iter_mut() {
            *slot = self.word;
        }
        Ok(())
    }

    fn write(&mut self, addr: u8, data: &[u32]) -> Result<(), ()> {
        self.writes.push((addr, data.to_vec()));
        Ok(())
    }
}

/// A transport whose bus always faults with a fixed error code.
struct BrokenTransport;

impl Registers for BrokenTransport {
    type Error = u8;

    fn read(&mut self, _addr: u8, _data: &mut [u32]) -> Result<(), u8> {
        Err(0x55)
    }

    fn write(&mut self, _addr: u8, _data: &[u32]) -> Result<(), u8> {
        Err(0x55)
    }
}

#[test]
fn chip_addr_decodes_the_word_the_bus_returned() {
    let word = 0x1397_2a3c;
    let mut bus = MockTransport::new(word);
    let decoded = bus.chip_addr().unwrap();
    assert_eq!(decoded, ChipAddress::from_raw(word));
    assert_eq!(decoded.chip_id(), 0x1397);
    assert_eq!(decoded.core_num(), 0x2a);
    assert_eq!(decoded.addr(), 0x3c);
}

#[test]
fn chip_addr_issues_one_single_word_read_at_the_chipaddr_address() {
    let mut bus = MockTransport::new(0);
    bus.chip_addr().unwrap();
    assert_eq!(bus.reads, vec![(0x00, 1)]);
    assert!(bus.writes.is_empty());
}

#[test]
fn set_chip_addr_issues_one_single_word_write_with_the_encoded_bits() {
    let mut bus = MockTransport::new(0);
    let reg = ChipAddress::from_raw(0x1397_1944);
    bus.set_chip_addr(reg).unwrap();
    assert_eq!(bus.writes, vec![(0x00, vec![0x1397_1944])]);
    assert!(bus.reads.is_empty());
}

#[test]
fn transport_errors_surface_unchanged() {
    let mut bus = BrokenTransport;
    assert_eq!(bus.chip_addr(), Err(0x55));
    assert_eq!(bus.set_chip_addr(ChipAddress::default()), Err(0x55));
}
