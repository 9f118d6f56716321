//! Loading the program image and preparing the machine's start.

use crate::state::{EmuModel, EmuState};
use crate::text::same_text;
use crate::uart::{le_bytes, reply_bytes};
use object::read::coff::ImageSymbol;
use object::read::pe::PeFile64;
use object::{LittleEndian, Object, ObjectSegment, ObjectSymbol};
use vstd::prelude::*;
use vstd::slice::slice_to_vec;

verus! {

broadcast use vstd::std_specs::hash::group_hash_axioms;

/// Why an image could not be read.
#[verifier::external_type_specification]
#[verifier::external_body]
pub struct ExObjectError(object::read::Error);

/// Why the machine cannot be started.
#[derive(Debug)]
pub enum BootError {
    /// The file is no program image.
    Parse(object::read::Error),
    /// The address of a symbol does not fit in 64 bits.
    Overflow,
}

/// A symbol of the image.
pub struct Symbol {
    pub name: String,
    pub address: u64,
}

/// A segment of the image. Its data is missing where it could not be read.
pub struct Segment {
    pub address: u64,
    pub data: Option<Vec<u8>>,
}

/// What the emulator reads of a program image. A symbol is missing where its name could
/// not be read.
pub struct ObjectImage {
    pub entry: u64,
    pub symbols: Vec<Option<Symbol>>,
    pub segments: Vec<Segment>,
}

/// A symbol as a PE image writes it down: whether its name can be read, its storage class,
/// the number of its section, counted from one, and its place in the section.
#[derive(Clone, Copy, Debug, PartialEq, Eq, Structural)]
pub struct PeSymbol {
    pub named: bool,
    pub class: u8,
    pub section: i32,
    pub value: u32,
}

/// What the addresses of a 64-bit PE image's symbols are made of: the image's base, the
/// places of the sections, and the symbols.
pub struct PeLayout {
    pub base: u64,
    pub sections: Vec<u32>,
    pub symbols: Vec<PeSymbol>,
}

/// Bytes to write to memory.
pub struct MemWrite {
    pub address: u64,
    pub data: Vec<u8>,
}

/// What is written before the core starts.
pub struct BootPlan {
    /// The program's entry point.
    pub entry: u64,
    /// The image's segments.
    pub writes: Vec<MemWrite>,
    /// The start-up code.
    pub bootstrap: Vec<u8>,
}

/// A symbol's name and address.
pub open spec fn symbol_view(s: Option<Symbol>) -> Option<(Seq<char>, u64)> {
    match s {
        Some(s) => Some((s.name@, s.address)),
        None => None,
    }
}

/// A segment's address and data.
pub open spec fn segment_view(s: Segment) -> (u64, Option<Seq<u8>>) {
    (
        s.address,
        match s.data {
            Some(d) => Some(d@),
            None => None,
        },
    )
}

/// The symbols' names and addresses.
pub open spec fn symbols_view(v: Seq<Option<Symbol>>) -> Seq<Option<(Seq<char>, u64)>> {
    Seq::new(v.len(), |i: int| symbol_view(v[i]))
}

/// The segments' addresses and data.
pub open spec fn segments_view(v: Seq<Segment>) -> Seq<(u64, Option<Seq<u8>>)> {
    Seq::new(v.len(), |i: int| segment_view(v[i]))
}

/// The addresses and the bytes of some writes.
pub open spec fn writes_view(v: Seq<MemWrite>) -> Seq<(u64, Seq<u8>)> {
    Seq::new(v.len(), |i: int| (v[i].address, v[i].data@))
}

/// The entry point, the symbols and the segments that the object crate reads in a
/// file; none where the file is no program image.
pub uninterp spec fn object_image(file: Seq<u8>) -> Option<
    (u64, Seq<Option<(Seq<char>, u64)>>, Seq<(u64, Option<Seq<u8>>)>),
>;

/// The base, the sections' places and the symbols that the object crate reads in a 64-bit
/// PE image; none where the file is no such image.
pub uninterp spec fn pe_layout(file: Seq<u8>) -> Option<(u64, Seq<u32>, Seq<PeSymbol>)>;

/// `PeFile64::parse` of the object crate, and of the file `relative_address_base`, the
/// `virtual_address` of each section of its `section_table`, and of each of its `symbols`
/// whether `name` can be read, and `storage_class`, `section_number` and `value`, in the
/// crate's order. All that is a function of the bytes alone.
#[verifier::external_body]
fn read_pe(file: &[u8]) -> (r: Option<PeLayout>)
    ensures
        match r {
            Some(p) => pe_layout(file@) == Some((p.base, p.sections@, p.symbols@)),
            None => pe_layout(file@) is None,
        },
{
    let f = PeFile64::parse(file).ok()?;
    let sections = f.section_table().iter().map(|s| s.virtual_address.get(LittleEndian)).collect();
    let symbols = f.symbols().map(|s| PeSymbol {
        named: s.name().is_ok(),
        class: s.coff_symbol().storage_class(),
        section: s.coff_symbol().section_number(),
        value: s.coff_symbol().value(),
    }).collect();
    Some(PeLayout { base: f.relative_address_base(), sections, symbols })
}

/// The symbol has an address: it is external, static, a label or weakly external, and it
/// lies in one of the sections.
pub open spec fn has_address(s: PeSymbol, sections: nat) -> bool {
    &&& s.class == 0x02 || s.class == 0x03 || s.class == 0x06 || s.class == 0x69
    &&& 0 < s.section <= sections
}

/// The address of a symbol whose name can be read does not fit in 64 bits. It is the sum
/// of the image's base, the section's place and the symbol's place in the section.
pub open spec fn passes_the_end(base: u64, sections: Seq<u32>, s: PeSymbol) -> bool {
    &&& s.named
    &&& has_address(s, sections.len())
    &&& base + sections[s.section - 1] + s.value > u64::MAX
}

/// The address of one of the symbols does not fit in 64 bits.
pub open spec fn one_passes_the_end(
    base: u64,
    sections: Seq<u32>,
    symbols: Seq<PeSymbol>,
) -> bool {
    exists|i: int|
        0 <= i < symbols.len() && passes_the_end(base, sections, #[trigger] symbols[i])
}

/// The file is a 64-bit PE image, and the address of one of its symbols does not fit in
/// 64 bits.
pub open spec fn addresses_overflow(layout: Option<(u64, Seq<u32>, Seq<PeSymbol>)>) -> bool {
    match layout {
        Some((base, sections, symbols)) => one_passes_the_end(base, sections, symbols),
        None => false,
    }
}

/// `File::parse` of the object crate, and `entry`, `symbols` and `segments` of the file
/// with `name`, `address` and `data` of their items, in the crate's order; `address` of a
/// symbol is asked for only where its name could be read. Whether the bytes are an image and
/// what it holds is a function of the bytes alone. The address of a PE image's symbol is
/// added up unchecked: files where such a sum does not fit in 64 bits are left out.
#[verifier::external_body]
fn parse_object(file: &[u8]) -> (r: Result<ObjectImage, object::read::Error>)
    requires
        !addresses_overflow(pe_layout(file@)),
    ensures
        match r {
            Ok(i) => object_image(file@) == Some(
                (i.entry, symbols_view(i.symbols@), segments_view(i.segments@)),
            ),
            Err(_) => object_image(file@) is None,
        },
{
    let f = object::File::parse(file)?;
    Ok(ObjectImage {
        entry: f.entry(),
        symbols: f.symbols().map(
            |s| s.name().ok().map(|n| Symbol { name: String::from(n), address: s.address() }),
        ).collect(),
        segments: f.segments().map(|s| Segment {
            address: s.address(),
            data: s.data().ok().map(Vec::from),
        }).collect(),
    })
}

/// The names of the functions that only wait.
pub open spec fn is_delay_name(name: Seq<char>) -> bool {
    ||| name == "up_ndelay"@
    ||| name == "up_udelay"@
    ||| name == "up_mdelay"@
    ||| name == "arm64_udelay"@
    ||| name == "arm64_mdelay"@
}

/// The symbol is that of a function that only waits, and it has an address.
pub open spec fn is_delay_symbol(s: Option<(Seq<char>, u64)>) -> bool {
    s matches Some((name, address)) && address > 0 && is_delay_name(name)
}

/// The addresses of the functions that only wait.
pub open spec fn delay_addresses(symbols: Seq<Option<(Seq<char>, u64)>>) -> Set<u64> {
    Set::new(
        |a: u64|
            exists|i: int|
                0 <= i < symbols.len() && is_delay_symbol(#[trigger] symbols[i]) && (symbols[i]->0).1
                    == a,
    )
}

/// The writes that put the segments in memory: one for each segment with data.
pub open spec fn segment_writes(segments: Seq<(u64, Option<Seq<u8>>)>) -> Seq<(u64, Seq<u8>)>
    decreases segments.len(),
{
    if segments.len() == 0 {
        Seq::empty()
    } else {
        let before = segment_writes(segments.drop_last());
        match segments.last().1 {
            Some(d) => if d.len() > 0 {
                before.push((segments.last().0, d))
            } else {
                before
            },
            None => before,
        }
    }
}

/// The start-up code: it loads a word, writes it to a system register and jumps to the
/// register `X1`; the word is the entry point.
pub open spec fn bootstrap_code(entry: u64) -> Seq<u8> {
    seq![
        0x80u8,
        0x00,
        0x00,
        0x58,
        0x00,
        0x10,
        0x18,
        0xd5,
        0x20,
        0x00,
        0x1f,
        0xd6,
        0x1f,
        0x20,
        0x03,
        0xd5,
    ] + le_bytes(entry)
}

/// The plan is the one for an image with this entry point and these segments.
pub open spec fn is_plan_for(
    plan: BootPlan,
    entry: u64,
    segments: Seq<(u64, Option<Seq<u8>>)>,
) -> bool {
    &&& plan.entry == entry
    &&& writes_view(plan.writes@) == segment_writes(segments)
    &&& plan.bootstrap@ == bootstrap_code(entry)
}

impl EmuModel {
    /// The machine once it skips the functions that only wait.
    pub open spec fn skipping_delays(self, symbols: Seq<Option<(Seq<char>, u64)>>) -> EmuModel {
        EmuModel { skip_functions: self.skip_functions.union(delay_addresses(symbols)), ..self }
    }
}

/// Is there a symbol whose address does not fit in 64 bits?
pub fn layout_overflows(layout: &PeLayout) -> (r: bool)
    ensures
        r == one_passes_the_end(layout.base, layout.sections@, layout.symbols@),
{
    let mut i: usize = 0;
    while i < layout.symbols.len()
        invariant
            i <= layout.symbols.len(),
            forall|k: int|
                0 <= k < i ==> !passes_the_end(
                    layout.base,
                    layout.sections@,
                    #[trigger] layout.symbols@[k],
                ),
        decreases layout.symbols.len() - i,
    {
        let s: PeSymbol = layout.symbols[i];
        let class: u8 = s.class;
        let placed = class == 0x02 || class == 0x03 || class == 0x06 || class == 0x69;
        if s.named && placed && s.section > 0 && s.section as usize <= layout.sections.len() {
            let offset: u64 = layout.sections[s.section as usize - 1] as u64 + s.value as u64;
            if layout.base > u64::MAX - offset {
                assert(passes_the_end(layout.base, layout.sections@, layout.symbols@[i as int]));
                return true;
            }
        }
        i = i + 1;
    }
    false
}

/// Is this the name of a function that only waits?
pub fn delay_name(name: &str) -> (r: bool)
    ensures
        r == is_delay_name(name@),
{
    same_text(name, "up_ndelay") || same_text(name, "up_udelay") || same_text(name, "up_mdelay")
        || same_text(name, "arm64_udelay") || same_text(name, "arm64_mdelay")
}

/// The start-up code for an entry point.
pub fn bootstrap(entry: u64) -> (r: Vec<u8>)
    ensures
        r@ == bootstrap_code(entry),
{
    let mut code: Vec<u8> = vec![
        0x80, 0x00, 0x00, 0x58, 0x00, 0x10, 0x18, 0xd5, 0x20, 0x00, 0x1f, 0xd6, 0x1f, 0x20, 0x03,
        0xd5,
    ];
    let mut word = reply_bytes(entry, 8);
    code.append(&mut word);
    assert(le_bytes(entry).take(8) =~= le_bytes(entry));
    assert(code@ =~= bootstrap_code(entry));
    code
}

impl EmuState {
    /// Marks the functions that only wait, to be skipped.
    pub fn skip_delays(&mut self, symbols: &Vec<Option<Symbol>>)
        ensures
            final(self)@ == old(self)@.skipping_delays(symbols_view(symbols@)),
    {
        let ghost all = symbols_view(symbols@);
        let mut i: usize = 0;
        while i < symbols.len()
            invariant
                i <= symbols.len(),
                all == symbols_view(symbols@),
                self@ == (EmuModel { skip_functions: self@.skip_functions, ..old(self)@ }),
                forall|a: u64| #[trigger]
                    self@.skip_functions.contains(a) <==> {
                        ||| old(self)@.skip_functions.contains(a)
                        ||| exists|k: int|
                            0 <= k < i && is_delay_symbol(#[trigger] all[k]) && (all[k]->0).1 == a
                    },
            decreases symbols.len() - i,
        {
            assert(all[i as int] == symbol_view(symbols@[i as int]));
            if let Some(s) = &symbols[i] {
                if s.address > 0 && delay_name(s.name.as_str()) {
                    self.skip_functions.insert(s.address);
                }
            }
            i = i + 1;
        }
        assert(self@.skip_functions =~= old(self)@.skip_functions.union(delay_addresses(all)));
    }

    /// Prepares the start of an image: marks the functions to skip, and says what is
    /// written to memory.
    pub fn install_image(&mut self, image: &ObjectImage) -> (r: BootPlan)
        ensures
            final(self)@ == old(self)@.skipping_delays(symbols_view(image.symbols@)),
            is_plan_for(r, image.entry, segments_view(image.segments@)),
    {
        self.skip_delays(&image.symbols);
        let ghost all = segments_view(image.segments@);
        let mut writes: Vec<MemWrite> = Vec::new();
        let mut i: usize = 0;
        assert(all.take(0) =~= Seq::empty());
        assert(writes_view(writes@) =~= Seq::empty());
        while i < image.segments.len()
            invariant
                i <= image.segments.len(),
                all == segments_view(image.segments@),
                writes_view(writes@) == segment_writes(all.take(i as int)),
            decreases image.segments.len() - i,
        {
            let s = &image.segments[i];
            let ghost before = writes@;
            assert(all.take(i + 1).drop_last() =~= all.take(i as int));
            assert(all.take(i + 1).last() == segment_view(*s));
            match &s.data {
                Some(d) => {
                    if d.len() > 0 {
                        let data = slice_to_vec(d.as_slice());
                        writes.push(MemWrite { address: s.address, data });
                        assert(writes_view(writes@) =~= writes_view(before).push((s.address, d@)));
                    }
                },
                None => {},
            }
            i = i + 1;
        }
        assert(all.take(i as int) =~= all);
        BootPlan { entry: image.entry, writes, bootstrap: bootstrap(image.entry) }
    }

    /// Reads a program image and prepares its start. Where the file is no image, or one
    /// with a symbol whose address does not fit in 64 bits, the machine stays as it was.
    pub fn load(&mut self, file: &[u8]) -> (r: Result<BootPlan, BootError>)
        ensures
            r is Err ==> final(self)@ == old(self)@,
            addresses_overflow(pe_layout(file@)) ==> r matches Err(BootError::Overflow),
            !addresses_overflow(pe_layout(file@)) ==> match object_image(file@) {
                Some((entry, symbols, segments)) => {
                    &&& r is Ok
                    &&& final(self)@ == old(self)@.skipping_delays(symbols)
                    &&& is_plan_for(r->Ok_0, entry, segments)
                },
                None => r matches Err(BootError::Parse(_)),
            },
    {
        if let Some(layout) = read_pe(file) {
            if layout_overflows(&layout) {
                return Err(BootError::Overflow);
            }
        }
        match parse_object(file) {
            Ok(image) => Ok(self.install_image(&image)),
            Err(e) => Err(BootError::Parse(e)),
        }
    }
}

} // verus!
