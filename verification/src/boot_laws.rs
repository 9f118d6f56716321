//! What starting a program image promises.

use crate::boot::{
    addresses_overflow, bootstrap_code, delay_addresses, is_delay_name, is_delay_symbol,
    is_plan_for, one_passes_the_end, passes_the_end, segment_writes, segments_view, symbols_view,
    writes_view, BootPlan, PeSymbol, Segment, Symbol,
};
use crate::state::EmuModel;
use vstd::prelude::*;

verus! {

/// Exactly five functions only wait.
pub proof fn law_delay_functions(name: Seq<char>)
    ensures
        is_delay_name("up_ndelay"@),
        is_delay_name("up_udelay"@),
        is_delay_name("up_mdelay"@),
        is_delay_name("arm64_udelay"@),
        is_delay_name("arm64_mdelay"@),
        is_delay_name(name) ==> name == "up_ndelay"@ || name == "up_udelay"@ || name
            == "up_mdelay"@ || name == "arm64_udelay"@ || name == "arm64_mdelay"@,
{
}

/// Taking in symbols changes nothing but the functions to skip. Those that are skipped
/// stay; an address comes to them exactly where it is not zero and belongs to a symbol
/// with the name of a function that only waits.
pub proof fn law_only_delay_functions_are_skipped(
    m: EmuModel,
    symbols: Seq<Option<(Seq<char>, u64)>>,
    address: u64,
)
    ensures
        ({
            let n = m.skipping_delays(symbols);
            &&& n == (EmuModel { skip_functions: n.skip_functions, ..m })
            &&& n.skip_functions.contains(address) <==> {
                ||| m.skip_functions.contains(address)
                ||| address != 0 && exists|i: int, name: Seq<char>|
                    0 <= i < symbols.len() && #[trigger] symbols[i] == Some((name, address))
                        && #[trigger] is_delay_name(name)
            }
        }),
{
    let n = m.skipping_delays(symbols);
    if delay_addresses(symbols).contains(address) {
        let i = choose|i: int|
            0 <= i < symbols.len() && is_delay_symbol(#[trigger] symbols[i]) && (
            symbols[i]->0).1 == address;
        let name = (symbols[i]->0).0;
        assert(symbols[i] == Some((name, address)) && is_delay_name(name));
    }
    if address != 0 && exists|i: int, name: Seq<char>|
        0 <= i < symbols.len() && #[trigger] symbols[i] == Some((name, address))
            && #[trigger] is_delay_name(name) {
        let (i, name) = choose|i: int, name: Seq<char>|
            0 <= i < symbols.len() && #[trigger] symbols[i] == Some((name, address))
                && #[trigger] is_delay_name(name);
        assert(is_delay_symbol(symbols[i]) && (symbols[i]->0).1 == address);
    }
}

/// Segments are written to memory one after the other: what is written for two runs of
/// segments is what is written for the first and then what is written for the second.
pub proof fn law_segments_are_written_in_order(
    a: Seq<(u64, Option<Seq<u8>>)>,
    b: Seq<(u64, Option<Seq<u8>>)>,
)
    ensures
        segment_writes(a + b) == segment_writes(a) + segment_writes(b),
    decreases b.len(),
{
    if b.len() == 0 {
        assert(a + b =~= a);
        assert(segment_writes(a) + segment_writes(b) =~= segment_writes(a));
    } else {
        law_segments_are_written_in_order(a, b.drop_last());
        assert((a + b).drop_last() =~= a + b.drop_last());
        assert((a + b).last() == b.last());
        assert(segment_writes(a + b) =~= segment_writes(a) + segment_writes(b));
    }
}

/// A segment is written at its address, with all its data; one without data, or whose
/// data could not be read, is not written.
pub proof fn law_segment_is_written_whole(address: u64, data: Seq<u8>)
    ensures
        data.len() > 0 ==> segment_writes(seq![(address, Some(data))]) == seq![(address, data)],
        data.len() == 0 ==> segment_writes(seq![(address, Some(data))]).len() == 0,
        segment_writes(seq![(address, None)]).len() == 0,
        segment_writes(Seq::empty()).len() == 0,
{
    let none = Seq::<(u64, Option<Seq<u8>>)>::empty();
    assert(seq![(address, Some(data))].drop_last() =~= none);
    assert(seq![(address, None::<Seq<u8>>)].drop_last() =~= none);
    assert(segment_writes(none) =~= Seq::empty());
    if data.len() > 0 {
        assert(segment_writes(seq![(address, Some(data))]) =~= seq![(address, data)]);
    }
}

/// The start-up code is the same four instructions for every program: load the word
/// behind them, write it to a system register, jump to `X1`, and a hint. The word is the
/// entry point, lowest byte first.
pub proof fn law_start_up_code(entry: u64)
    ensures
        ({
            let c = bootstrap_code(entry);
            &&& c.len() == 24
            &&& c[0] == 0x80 && c[1] == 0x00 && c[2] == 0x00 && c[3] == 0x58
            &&& c[4] == 0x00 && c[5] == 0x10 && c[6] == 0x18 && c[7] == 0xd5
            &&& c[8] == 0x20 && c[9] == 0x00 && c[10] == 0x1f && c[11] == 0xd6
            &&& c[12] == 0x1f && c[13] == 0x20 && c[14] == 0x03 && c[15] == 0xd5
            &&& c[16] + c[17] * 0x100 + c[18] * 0x1_0000 + c[19] * 0x100_0000 + c[20]
                * 0x1_0000_0000 + c[21] * 0x100_0000_0000 + c[22] * 0x1_0000_0000_0000 + c[23]
                * 0x100_0000_0000_0000 == entry
        }),
{
    let e = entry;
    assert(e == ((e >> 0u64) as u8) + ((e >> 8u64) as u8) * 0x100 + ((e >> 16u64) as u8)
        * 0x1_0000 + ((e >> 24u64) as u8) * 0x100_0000 + ((e >> 32u64) as u8) * 0x1_0000_0000 + ((e
        >> 40u64) as u8) * 0x100_0000_0000 + ((e >> 48u64) as u8) * 0x1_0000_0000_0000 + ((e
        >> 56u64) as u8) * 0x100_0000_0000_0000) by (bit_vector);
}

/// The plan for an image holds its entry point, the writes of its segments and nothing
/// else, and the start-up code for that entry point.
pub proof fn law_plan_is_the_images(
    plan: BootPlan,
    entry: u64,
    segments: Seq<(u64, Option<Seq<u8>>)>,
)
    requires
        is_plan_for(plan, entry, segments),
    ensures
        plan.entry == entry,
        plan.writes@.len() == segment_writes(segments).len(),
        forall|i: int|
            0 <= i < plan.writes@.len() ==> (#[trigger] plan.writes@[i]).address == segment_writes(
                segments,
            )[i].0 && plan.writes@[i].data@ == segment_writes(segments)[i].1,
        plan.bootstrap@ == bootstrap_code(entry),
{
    let w = writes_view(plan.writes@);
    assert forall|i: int| 0 <= i < plan.writes@.len() implies (
    #[trigger] plan.writes@[i]).address == segment_writes(segments)[i].0
        && plan.writes@[i].data@ == segment_writes(segments)[i].1 by {
        assert(w[i] == (plan.writes@[i].address, plan.writes@[i].data@));
    }
}

/// A symbol's address does not fit exactly where the base, the place of its section and
/// its own place there add up to more than 64 bits hold; only a symbol that has a name,
/// an address and a section counts.
pub proof fn law_addresses_past_the_end(base: u64, sections: Seq<u32>, s: PeSymbol)
    ensures
        one_passes_the_end(base, sections, seq![s]) <==> {
            &&& s.named
            &&& s.class == 2 || s.class == 3 || s.class == 6 || s.class == 105
            &&& 1 <= s.section <= sections.len()
            &&& base + sections[s.section - 1] + s.value >= 0x1_0000_0000_0000_0000
        },
{
    assert(seq![s][0] == s);
}

/// Only a 64-bit PE image can hold such a symbol.
pub proof fn law_only_such_images_are_refused(
    base: u64,
    sections: Seq<u32>,
    symbols: Seq<PeSymbol>,
)
    ensures
        addresses_overflow(Some((base, sections, symbols))) <==> one_passes_the_end(
            base,
            sections,
            symbols,
        ),
        !addresses_overflow(None),
{
}

/// The symbols and segments of an image are spoken of as they are: names by their
/// characters, data by its bytes, in order.
pub proof fn law_image_is_spoken_of_as_it_is(
    symbols: Seq<Option<Symbol>>,
    segments: Seq<Segment>,
    i: int,
)
    ensures
        symbols_view(symbols).len() == symbols.len(),
        segments_view(segments).len() == segments.len(),
        0 <= i < symbols.len() ==> {
            &&& symbols[i] is None ==> symbols_view(symbols)[i] is None
            &&& symbols[i] matches Some(s) ==> symbols_view(symbols)[i] == Some(
                (s.name@, s.address),
            )
        },
        0 <= i < segments.len() ==> {
            &&& segments_view(segments)[i].0 == segments[i].address
            &&& segments[i].data is None ==> segments_view(segments)[i].1 is None
            &&& segments[i].data matches Some(d) ==> segments_view(segments)[i].1 == Some(d@)
        },
{
}

/// One such symbol among others is enough, and without one there is none.
pub proof fn law_one_symbol_past_the_end_is_enough(
    base: u64,
    sections: Seq<u32>,
    a: Seq<PeSymbol>,
    b: Seq<PeSymbol>,
)
    ensures
        one_passes_the_end(base, sections, a + b) <==> one_passes_the_end(base, sections, a)
            || one_passes_the_end(base, sections, b),
        !one_passes_the_end(base, sections, Seq::empty()),
{
    let s = a + b;
    if one_passes_the_end(base, sections, a) {
        let i = choose|i: int|
            0 <= i < a.len() && passes_the_end(base, sections, #[trigger] a[i]);
        assert(s[i] == a[i]);
    }
    if one_passes_the_end(base, sections, b) {
        let i = choose|i: int|
            0 <= i < b.len() && passes_the_end(base, sections, #[trigger] b[i]);
        assert(s[a.len() + i] == b[i]);
    }
    if one_passes_the_end(base, sections, s) {
        let i = choose|i: int|
            0 <= i < s.len() && passes_the_end(base, sections, #[trigger] s[i]);
        if i < a.len() {
            assert(a[i] == s[i]);
        } else {
            assert(b[i - a.len()] == s[i]);
        }
    }
}

} // verus!
