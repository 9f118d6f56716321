use pinephone_emu::boot::{
    bootstrap, delay_name, layout_overflows, BootError, ObjectImage, PeLayout, PeSymbol, Segment,
    Symbol,
};
use pinephone_emu::state::EmuState;

fn push16(v: &mut Vec<u8>, n: u16) {
    v.extend(n.to_le_bytes());
}

fn push32(v: &mut Vec<u8>, n: u32) {
    v.extend(n.to_le_bytes());
}

fn push64(v: &mut Vec<u8>, n: u64) {
    v.extend(n.to_le_bytes());
}

/// A little AArch64 program file: two loaded segments, one of them empty, and a symbol
/// table of a delay function, another function, and a delay function without an address.
fn program(entry: u64) -> Vec<u8> {
    let names: &[u8] = b"\0up_udelay\0main\0arm64_mdelay\0";
    let code: [u8; 8] = [1, 2, 3, 4, 5, 6, 7, 8];
    let headers = 64 + 2 * 56;
    let symbols_at = headers + 8;
    let names_at = symbols_at + 4 * 24;
    let sections_at = names_at + names.len();
    let mut v: Vec<u8> = vec![0x7f, b'E', b'L', b'F', 2, 1, 1, 0, 0, 0, 0, 0, 0, 0, 0, 0];
    push16(&mut v, 2);
    push16(&mut v, 183);
    push32(&mut v, 1);
    push64(&mut v, entry);
    push64(&mut v, 64);
    push64(&mut v, sections_at as u64);
    push32(&mut v, 0);
    for n in [64u16, 56, 2, 64, 3, 2] {
        push16(&mut v, n);
    }
    for (address, size) in [(0x40280000u64, 8u64), (0x40300000, 0)] {
        push32(&mut v, 1);
        push32(&mut v, 5);
        for n in [headers as u64, address, address, size, size, 0x1000] {
            push64(&mut v, n);
        }
    }
    v.extend(code);
    for (name, address) in [(0u32, 0u64), (1, 0x40280004), (11, 0x40280000), (16, 0)] {
        push32(&mut v, name);
        v.extend([0x12, 0]);
        push16(&mut v, if name == 0 { 0 } else { 0xfff1 });
        push64(&mut v, address);
        push64(&mut v, 0);
    }
    v.extend(names);
    let sections = [
        [0u64; 8],
        [2, 0, symbols_at as u64, 4 * 24, 2, 1, 8, 24],
        [3, 0, names_at as u64, names.len() as u64, 0, 0, 1, 0],
    ];
    for s in sections {
        push32(&mut v, 0);
        push32(&mut v, s[0] as u32);
        push64(&mut v, s[1]);
        push64(&mut v, 0);
        push64(&mut v, s[2]);
        push64(&mut v, s[3]);
        push32(&mut v, s[4] as u32);
        push32(&mut v, s[5] as u32);
        push64(&mut v, s[6]);
        push64(&mut v, s[7]);
    }
    v
}

#[test]
fn program_file_is_loaded() {
    let mut s = EmuState::new();
    s.skip_functions.insert(9);
    let plan = match s.load(&program(0x40280000)) {
        Ok(plan) => plan,
        Err(e) => panic!("{:?}", e),
    };
    assert_eq!(plan.entry, 0x40280000);
    assert_eq!(plan.writes.len(), 1);
    assert_eq!(plan.writes[0].address, 0x40280000);
    assert_eq!(plan.writes[0].data, vec![1, 2, 3, 4, 5, 6, 7, 8]);
    assert_eq!(plan.bootstrap, bootstrap(0x40280000));
    let mut skipped: Vec<u64> = s.skip_functions.iter().copied().collect();
    skipped.sort();
    assert_eq!(skipped, vec![9, 0x40280004]);
}

#[test]
fn other_files_are_refused() {
    let mut s = EmuState::new();
    s.skip_functions.insert(9);
    assert!(matches!(s.load(b"no program at all"), Err(BootError::Parse(_))));
    assert!(matches!(s.load(&[]), Err(BootError::Parse(_))));
    assert_eq!(s.skip_functions.len(), 1);
}

/// A 64-bit PE image with one section at 0x1000 and the symbols: each has a name of up to
/// eight bytes, a place in the section, the section's number and a storage class.
fn pe_image(base: u64, symbols: &[(&[u8], u32, u16, u8)]) -> Vec<u8> {
    let end = 0x40 + 24 + 112 + 40;
    let mut v: Vec<u8> = vec![0; end];
    v[0] = b'M';
    v[1] = b'Z';
    v[0x3c] = 0x40;
    v[0x40] = b'P';
    v[0x41] = b'E';
    v[0x44] = 0x64;
    v[0x45] = 0x86;
    v[0x46] = 1;
    if !symbols.is_empty() {
        v[0x4c..0x50].copy_from_slice(&(end as u32).to_le_bytes());
        v[0x50..0x54].copy_from_slice(&(symbols.len() as u32).to_le_bytes());
    }
    v[0x40 + 20] = 112;
    v[0x40 + 24] = 0x0b;
    v[0x40 + 25] = 0x02;
    v[0x40 + 40] = 0x10;
    v[0x40 + 48..0x40 + 56].copy_from_slice(&base.to_le_bytes());
    v[0x40 + 24 + 112 + 13] = 0x10;
    for (name, value, section, class) in symbols {
        let mut field = [0u8; 8];
        field[..name.len()].copy_from_slice(name);
        v.extend(field);
        push32(&mut v, *value);
        push16(&mut v, *section);
        push16(&mut v, 0);
        v.extend([*class, 0]);
    }
    push32(&mut v, 4);
    v
}

#[test]
fn image_with_a_high_base_is_loaded() {
    let mut s = EmuState::new();
    for base in [0x1_4000_0000u64, 0xFFFF_FFFE_0000_0002, u64::MAX] {
        match s.load(&pe_image(base, &[])) {
            Ok(plan) => assert_eq!(plan.entry, base.wrapping_add(0x10)),
            Err(e) => panic!("{:?}", e),
        }
    }
    let fits: &[(&[u8], u32, u16, u8)] = &[(b"delay", 0xfff, 1, 2)];
    assert!(s.load(&pe_image(u64::MAX - 0x1fff, fits)).is_ok());
    assert!(s.skip_functions.is_empty());
}

#[test]
fn symbol_past_the_last_address_is_refused() {
    let mut s = EmuState::new();
    for class in [2u8, 3, 6, 0x69] {
        let symbols: &[(&[u8], u32, u16, u8)] = &[(b"a", 0, 1, class), (b"b", 0x1000, 1, class)];
        let file = pe_image(u64::MAX - 0x1fff, symbols);
        assert!(matches!(s.load(&file), Err(BootError::Overflow)));
        assert!(s.load(&pe_image(u64::MAX - 0x2000, symbols)).is_ok());
    }
    let harmless: [(&[u8], u32, u16, u8); 5] = [
        (b"class", 0x1000, 1, 4),
        (b"none", 0x1000, 0, 2),
        (b"absolute", 0x1000, 0xffff, 2),
        (b"section", 0x1000, 2, 2),
        (&[0xff], 0x1000, 1, 2),
    ];
    for symbol in harmless {
        assert!(s.load(&pe_image(u64::MAX, &[symbol])).is_ok());
    }
}

#[test]
fn damaged_images_are_no_images() {
    let symbols: &[(&[u8], u32, u16, u8)] = &[(b"b", 0x1000, 1, 2)];
    let mut s = EmuState::new();
    for i in [0usize, 0x40, 0x40 + 20, 0x40 + 24] {
        let mut file = pe_image(u64::MAX, symbols);
        file[i] = 0;
        assert!(matches!(s.load(&file), Err(BootError::Parse(_))));
    }
    let mut unreachable_table = pe_image(u64::MAX, symbols);
    unreachable_table[0x4f] = 0x7f;
    assert!(s.load(&unreachable_table).is_ok());
}

#[test]
fn layout_tells_of_addresses_past_the_end() {
    let symbol = PeSymbol { named: true, class: 2, section: 2, value: u32::MAX };
    let layout = |base: u64, symbol: PeSymbol| PeLayout {
        base,
        sections: vec![0, u32::MAX],
        symbols: vec![PeSymbol { value: 0, ..symbol }, symbol],
    };
    assert!(!layout_overflows(&layout(0xFFFF_FFFE_0000_0001, symbol)));
    assert!(layout_overflows(&layout(0xFFFF_FFFE_0000_0002, symbol)));
    assert!(!layout_overflows(&layout(u64::MAX, PeSymbol { named: false, ..symbol })));
    assert!(!layout_overflows(&layout(u64::MAX, PeSymbol { section: 3, ..symbol })));
    assert!(!layout_overflows(&layout(u64::MAX, PeSymbol { section: -1, ..symbol })));
    assert!(!layout_overflows(&layout(u64::MAX, PeSymbol { class: 0, ..symbol })));
}

#[test]
fn image_is_installed() {
    let mut s = EmuState::new();
    let symbol = |name: &str, address: u64| Some(Symbol { name: String::from(name), address });
    let image = ObjectImage {
        entry: 7,
        symbols: vec![
            symbol("up_ndelay", 0x10),
            symbol("up_mdelay", 0x20),
            symbol("arm64_udelay", 0),
            None,
            symbol("UP_NDELAY", 0x40),
            symbol("arm64_mdelay", 0x20),
        ],
        segments: vec![
            Segment { address: 1, data: Some(vec![9]) },
            Segment { address: 2, data: None },
            Segment { address: 3, data: Some(vec![]) },
            Segment { address: 4, data: Some(vec![8, 7]) },
        ],
    };
    let plan = s.install_image(&image);
    let writes: Vec<(u64, Vec<u8>)> =
        plan.writes.iter().map(|w| (w.address, w.data.clone())).collect();
    assert_eq!(writes, vec![(1, vec![9]), (4, vec![8, 7])]);
    let mut skipped: Vec<u64> = s.skip_functions.iter().copied().collect();
    skipped.sort();
    assert_eq!(skipped, vec![0x10, 0x20]);
}

#[test]
fn delay_functions_are_known_by_name() {
    for name in ["up_ndelay", "up_udelay", "up_mdelay", "arm64_udelay", "arm64_mdelay"] {
        assert!(delay_name(name));
    }
    assert!(!delay_name("up_delay") && !delay_name(""));
}

#[test]
fn start_up_code_carries_the_entry_point() {
    assert_eq!(
        bootstrap(0x1122334455667788),
        vec![
            0x80, 0x00, 0x00, 0x58, 0x00, 0x10, 0x18, 0xd5, 0x20, 0x00, 0x1f, 0xd6, 0x1f, 0x20,
            0x03, 0xd5, 0x88, 0x77, 0x66, 0x55, 0x44, 0x33, 0x22, 0x11,
        ]
    );
}
