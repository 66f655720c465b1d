//! Shift_JIS pairs: the CP932 extension blocks and the remappings between them.

use crate::config::Config;
use crate::error::{ErrorView, NkfError};
use crate::names::{is_shift_jis_family_output, spec_is_shift_jis_family};
use vstd::prelude::*;

verus! {

broadcast use vstd::seq::group_seq_axioms;

/// Whether a byte leads a two-byte Shift_JIS character.
pub open spec fn spec_is_shift_jis_lead(b: u8) -> bool {
    (0x81 <= b <= 0x9f) || (0xe0 <= b <= 0xfc)
}

/// Whether a byte leads a two-byte Shift_JIS character.
pub fn is_shift_jis_lead(b: u8) -> (r: bool)
    ensures
        r == spec_is_shift_jis_lead(b),
{
    (0x81 <= b && b <= 0x9f) || (0xe0 <= b && b <= 0xfc)
}

/// Whether a lead byte starts one of the CP932 extension blocks (NEC row 13, the NEC-selected and
/// the IBM extensions).
pub open spec fn spec_is_cp932_extension_lead(b: u8) -> bool {
    b == 0x87 || (0xed <= b <= 0xee) || (0xfa <= b <= 0xfc)
}

/// Whether a lead byte starts one of the CP932 extension blocks.
pub fn is_cp932_extension_lead(b: u8) -> (r: bool)
    ensures
        r == spec_is_cp932_extension_lead(b),
{
    b == 0x87 || (0xed <= b && b <= 0xee) || (0xfa <= b && b <= 0xfc)
}

/// The position of a trail byte among the 188 Shift_JIS trail bytes (0x40..=0x7E, 0x80..=0xFC).
pub open spec fn spec_trail_index(trail: u8) -> int {
    if trail < 0x7f {
        trail - 0x40
    } else {
        trail - 0x41
    }
}

/// The trail byte at a position among the 188 Shift_JIS trail bytes.
pub open spec fn spec_trail_at(k: int) -> u8 {
    if k < 63 {
        (0x40 + k) as u8
    } else {
        (0x41 + k) as u8
    }
}

/// Whether a byte is a Shift_JIS trail byte.
pub open spec fn spec_is_trail(b: u8) -> bool {
    (0x40 <= b <= 0x7e) || (0x80 <= b <= 0xfc)
}

/// The pair at a linear position counted from a lead byte.
pub open spec fn spec_pair_at(first_lead: u8, k: int) -> (u8, u8) {
    (((first_lead as int) + k / 188) as u8, spec_trail_at(k % 188))
}

/// The CP932 table that rewrites NEC-selected IBM extensions (0xED/0xEE leads) as the IBM
/// extensions (0xFA..=0xFC leads).
pub open spec fn spec_cp932inv(lead: u8, trail: u8) -> Option<(u8, u8)> {
    if (lead == 0xed || lead == 0xee) && spec_is_trail(trail) {
        let k = (lead - 0xed) * 188 + spec_trail_index(trail);
        if k <= 359 {
            Some(spec_pair_at(0xfa, k + 28))
        } else if lead == 0xee && 0xef <= trail <= 0xf8 {
            Some((0xfau8, (0x40 + (trail - 0xef)) as u8))
        } else if lead == 0xee && trail == 0xf9 {
            Some((0xfau8, 0x54u8))
        } else if lead == 0xee && 0xfa <= trail <= 0xfc {
            Some((0xfau8, (0x55 + (trail - 0xfa)) as u8))
        } else {
            None
        }
    } else {
        None
    }
}

/// The CP932 table that rewrites the IBM extensions (0xFA..=0xFC leads) as their NEC or
/// NEC-selected equivalents.
pub open spec fn spec_shiftjis_cp932(lead: u8, trail: u8) -> Option<(u8, u8)> {
    if 0xfa <= lead <= 0xfc && spec_is_trail(trail) {
        let k = (lead - 0xfa) * 188 + spec_trail_index(trail);
        if 0 <= k <= 9 {
            Some((0xeeu8, (0xef + k) as u8))
        } else if 10 <= k <= 19 {
            Some((0x87u8, (0x54 + (k - 10)) as u8))
        } else if k == 20 {
            Some((0x81u8, 0xcau8))
        } else if 21 <= k <= 23 {
            Some((0xeeu8, (0xfa + (k - 21)) as u8))
        } else if k == 24 {
            Some((0x87u8, 0x8au8))
        } else if k == 25 {
            Some((0x87u8, 0x82u8))
        } else if k == 26 {
            Some((0x87u8, 0x84u8))
        } else if k == 27 {
            Some((0x81u8, 0xe6u8))
        } else if 28 <= k <= 387 {
            Some(spec_pair_at(0xed, k - 28))
        } else {
            None
        }
    } else {
        None
    }
}

/// The direction of a remapping.
#[derive(Clone, Copy, PartialEq, Eq, Structural)]
pub enum Remap {
    /// IBM extensions to their NEC equivalents (input side).
    IbmToNec,
    /// NEC-selected IBM extensions to the IBM extensions (output side).
    NecToIbm,
}

/// The replacement pair the remapping gives, if any.
pub open spec fn spec_remap_pair(table: Remap, lead: u8, trail: u8) -> Option<(u8, u8)> {
    match table {
        Remap::IbmToNec => spec_shiftjis_cp932(lead, trail),
        Remap::NecToIbm => spec_cp932inv(lead, trail),
    }
}

fn trail_index(trail: u8) -> (k: u32)
    requires
        spec_is_trail(trail),
    ensures
        k as int == spec_trail_index(trail),
        k < 188,
{
    if trail < 0x7f {
        (trail - 0x40) as u32
    } else {
        (trail - 0x41) as u32
    }
}

fn pair_at(first_lead: u8, k: u32) -> (r: (u8, u8))
    requires
        first_lead as int + k / 188 <= 0xff,
    ensures
        r == spec_pair_at(first_lead, k as int),
{
    let m = k % 188;
    let trail: u8 = if m < 63 {
        (0x40 + m) as u8
    } else {
        (0x41 + m) as u8
    };
    ((first_lead as u32 + k / 188) as u8, trail)
}

/// The replacement pair the remapping gives, if any.
pub fn remap_pair(table: Remap, lead: u8, trail: u8) -> (r: Option<(u8, u8)>)
    ensures
        r == spec_remap_pair(table, lead, trail),
{
    match table {
        Remap::NecToIbm => {
            if (lead == 0xed || lead == 0xee) && ((0x40 <= trail && trail <= 0x7e) || (0x80 <= trail && trail <= 0xfc)) {
                let k: u32 = ((lead - 0xed) as u32) * 188 + trail_index(trail);
                if k <= 359 {
                    Some(pair_at(0xfa, k + 28))
                } else if lead == 0xee && 0xef <= trail && trail <= 0xf8 {
                    Some((0xfa, 0x40 + (trail - 0xef)))
                } else if lead == 0xee && trail == 0xf9 {
                    Some((0xfa, 0x54))
                } else if lead == 0xee && 0xfa <= trail && trail <= 0xfc {
                    Some((0xfa, 0x55 + (trail - 0xfa)))
                } else {
                    None
                }
            } else {
                None
            }
        },
        Remap::IbmToNec => {
            if 0xfa <= lead && lead <= 0xfc && ((0x40 <= trail && trail <= 0x7e) || (0x80 <= trail && trail <= 0xfc)) {
                let k: u32 = ((lead - 0xfa) as u32) * 188 + trail_index(trail);
                if k <= 9 {
                    Some((0xee, (0xef + k) as u8))
                } else if 10 <= k && k <= 19 {
                    Some((0x87, (0x54 + (k - 10)) as u8))
                } else if k == 20 {
                    Some((0x81, 0xca))
                } else if 21 <= k && k <= 23 {
                    Some((0xee, (0xfa + (k - 21)) as u8))
                } else if k == 24 {
                    Some((0x87, 0x8a))
                } else if k == 25 {
                    Some((0x87, 0x82))
                } else if k == 26 {
                    Some((0x87, 0x84))
                } else if k == 27 {
                    Some((0x81, 0xe6))
                } else if 28 <= k && k <= 387 {
                    Some(pair_at(0xed, k - 28))
                } else {
                    None
                }
            } else {
                None
            }
        },
    }
}

/// Bytes with every recognised pair replaced, and whether any was.
pub open spec fn spec_remap(input: Seq<u8>, table: Remap) -> (Seq<u8>, bool)
    decreases input.len(),
{
    if input.len() == 0 {
        (seq![], false)
    } else {
        let lead = input[0];
        if spec_is_shift_jis_lead(lead) && input.len() >= 2 {
            let rest = spec_remap(input.skip(2), table);
            match spec_remap_pair(table, lead, input[1]) {
                Some((a, b)) => (seq![a, b] + rest.0, true),
                None => (seq![lead, input[1]] + rest.0, rest.1),
            }
        } else {
            let rest = spec_remap(input.skip(1), table);
            (seq![lead] + rest.0, rest.1)
        }
    }
}

/// The remapped bytes when some pair was replaced, `None` when nothing changed.
pub open spec fn spec_remap_shiftjis_pairs(input: Seq<u8>, table: Remap) -> Option<Seq<u8>> {
    let r = spec_remap(input, table);
    if r.1 {
        Some(r.0)
    } else {
        None
    }
}

/// Replaces every Shift_JIS pair the table maps; `None` when nothing changed.
pub fn remap_shiftjis_pairs(input: &[u8], table: Remap) -> (r: Option<Vec<u8>>)
    ensures
        r matches Some(v) ==> spec_remap_shiftjis_pairs(input@, table) == Some(v@),
        r is None ==> spec_remap_shiftjis_pairs(input@, table) is None,
{
    let mut out: Vec<u8> = Vec::new();
    let mut changed = false;
    let mut i: usize = 0;
    assert(input@.skip(0) =~= input@);
    while i < input.len()
        invariant
            i <= input@.len(),
            spec_remap(input@, table).0 == out@ + spec_remap(input@.skip(i as int), table).0,
            spec_remap(input@, table).1 == (changed || spec_remap(input@.skip(i as int), table).1),
        decreases input@.len() - i,
    {
        let ghost tail = input@.skip(i as int);
        let ghost before = out@;
        let lead = input[i];
        assert(tail[0] == lead);
        if is_shift_jis_lead(lead) && input.len() - i >= 2 {
            let trail = input[i + 1];
            assert(tail[1] == trail);
            assert(tail.skip(2) =~= input@.skip(i + 2));
            match remap_pair(table, lead, trail) {
                Some((a, b)) => {
                    out.push(a);
                    out.push(b);
                    changed = true;
                },
                None => {
                    out.push(lead);
                    out.push(trail);
                },
            }
            assert(out@ =~= before + out@.subrange(before.len() as int, out@.len() as int));
            i += 2;
        } else {
            assert(tail.skip(1) =~= input@.skip(i + 1));
            out.push(lead);
            i += 1;
        }
        proof {
            let rest = spec_remap(input@.skip(i as int), table).0;
            assert(before + (out@.subrange(before.len() as int, out@.len() as int) + rest) =~= out@ + rest);
        }
    }
    assert(input@.skip(i as int) =~= Seq::<u8>::empty());
    assert(out@ + Seq::<u8>::empty() =~= out@);
    if changed {
        Some(out)
    } else {
        None
    }
}

/// The first CP932 extension pair in Shift_JIS bytes.
pub open spec fn spec_first_cp932_extension(input: Seq<u8>) -> Option<(u8, u8)>
    decreases input.len(),
{
    if input.len() == 0 {
        None
    } else if spec_is_shift_jis_lead(input[0]) {
        if input.len() < 2 {
            None
        } else if spec_is_cp932_extension_lead(input[0]) {
            Some((input[0], input[1]))
        } else {
            spec_first_cp932_extension(input.skip(2))
        }
    } else {
        spec_first_cp932_extension(input.skip(1))
    }
}

/// The first CP932 extension pair in Shift_JIS bytes, if any.
pub fn first_cp932_extension(input: &[u8]) -> (r: Option<(u8, u8)>)
    ensures
        r == spec_first_cp932_extension(input@),
{
    let mut i: usize = 0;
    assert(input@.skip(0) =~= input@);
    while i < input.len()
        invariant
            i <= input@.len(),
            spec_first_cp932_extension(input@) == spec_first_cp932_extension(input@.skip(i as int)),
        decreases input@.len() - i,
    {
        let ghost tail = input@.skip(i as int);
        let lead = input[i];
        assert(tail[0] == lead);
        if is_shift_jis_lead(lead) {
            if input.len() - i < 2 {
                return None;
            }
            assert(tail[1] == input@[i + 1]);
            if is_cp932_extension_lead(lead) {
                return Some((lead, input[i + 1]));
            }
            assert(tail.skip(2) =~= input@.skip(i + 2));
            i += 2;
        } else {
            assert(tail.skip(1) =~= input@.skip(i + 1));
            i += 1;
        }
    }
    assert(input@.skip(i as int).len() == 0);
    None
}

/// Whether the output is refused for holding a CP932 extension pair.
pub open spec fn spec_reject_cp932_extensions(config: Config, to: Seq<char>, output: Seq<u8>) -> Result<(), ErrorView> {
    if !spec_is_shift_jis_family(to) || (config.cp932_compat && !config.no_cp932ext) {
        Ok(())
    } else {
        match spec_first_cp932_extension(output) {
            Some((lead, trail)) => Err(ErrorView::Cp932ExtensionDisabled(lead, trail)),
            None => Ok(()),
        }
    }
}

/// Refuses Shift_JIS output holding a CP932 extension pair when the extensions are disabled.
pub fn reject_cp932_extensions(config: &Config, to: &str, output: &[u8]) -> (r: Result<(), NkfError>)
    ensures
        match r {
            Ok(()) => spec_reject_cp932_extensions(*config, to@, output@) is Ok,
            Err(e) => spec_reject_cp932_extensions(*config, to@, output@) == Err::<(), ErrorView>(e@),
        },
{
    if !is_shift_jis_family_output(to) || (config.cp932_compat && !config.no_cp932ext) {
        return Ok(());
    }
    match first_cp932_extension(output) {
        Some((lead, trail)) => Err(NkfError::Cp932ExtensionDisabled(lead, trail)),
        None => Ok(()),
    }
}

/// Input-side remapping: IBM extensions rewritten as NEC equivalents when `cp932inv` is off and the
/// input is Shift_JIS or CP932.
pub open spec fn spec_remap_input(config: Config, from: Seq<char>, input: Seq<u8>) -> Option<Seq<u8>> {
    if config.cp932inv || !spec_is_shift_jis_family(from) {
        None
    } else {
        spec_remap_shiftjis_pairs(input, Remap::IbmToNec)
    }
}

/// Input-side remapping of the IBM extensions.
pub fn remap_shiftjis_cp932_input(config: &Config, from: &str, input: &[u8]) -> (r: Option<Vec<u8>>)
    ensures
        r matches Some(v) ==> spec_remap_input(*config, from@, input@) == Some(v@),
        r is None ==> spec_remap_input(*config, from@, input@) is None,
{
    if config.cp932inv || !is_shift_jis_family_output(from) {
        return None;
    }
    remap_shiftjis_pairs(input, Remap::IbmToNec)
}

/// Output-side remapping: NEC-selected IBM extensions rewritten as the IBM extensions when
/// `cp932inv` is on and the output is Shift_JIS or CP932.
pub open spec fn spec_remap_output(config: Config, to: Seq<char>, output: Seq<u8>) -> Seq<u8> {
    if !config.cp932inv || !spec_is_shift_jis_family(to) {
        output
    } else {
        spec_remap(output, Remap::NecToIbm).0
    }
}

/// The remapped bytes equal the input where no pair changed.
proof fn lemma_remap_unchanged(input: Seq<u8>, table: Remap)
    ensures
        !spec_remap(input, table).1 ==> spec_remap(input, table).0 == input,
    decreases input.len(),
{
    if input.len() > 0 {
        if spec_is_shift_jis_lead(input[0]) && input.len() >= 2 {
            lemma_remap_unchanged(input.skip(2), table);
            assert(seq![input[0], input[1]] + input.skip(2) =~= input);
        } else {
            lemma_remap_unchanged(input.skip(1), table);
            assert(seq![input[0]] + input.skip(1) =~= input);
        }
    }
}

/// Output-side remapping of the NEC-selected IBM extensions.
pub fn remap_shiftjis_cp932_output(config: &Config, to: &str, output: &mut Vec<u8>)
    ensures
        final(output)@ == spec_remap_output(*config, to@, old(output)@),
{
    if !config.cp932inv || !is_shift_jis_family_output(to) {
        return;
    }
    proof {
        lemma_remap_unchanged(output@, Remap::NecToIbm);
    }
    if let Some(remapped) = remap_shiftjis_pairs(output.as_slice(), Remap::NecToIbm) {
        *output = remapped;
    }
}

} // verus!
