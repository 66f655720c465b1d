//! How the command line gathers its input files and when it may rewrite them in place.

use crate::config::{Config, ConfigView};
use crate::error::{ErrorView, NkfError};
use vstd::prelude::*;

verus! {

/// The contents of the input files read as one input: one after the other, each followed by a
/// line break when there is more than one file.
pub open spec fn spec_join_inputs(contents: Seq<Seq<u8>>, several: bool) -> Seq<u8>
    decreases contents.len(),
{
    if contents.len() == 0 {
        seq![]
    } else {
        let head = spec_join_inputs(contents.drop_last(), several);
        if several {
            head + contents.last() + seq![0x0au8]
        } else {
            head + contents.last()
        }
    }
}

/// Reads the contents of the input files as one input.
pub fn join_inputs(contents: &Vec<Vec<u8>>) -> (out: Vec<u8>)
    ensures
        out@ == spec_join_inputs(contents@.map_values(|c: Vec<u8>| c@), contents@.len() > 1),
{
    let ghost cs = contents@.map_values(|c: Vec<u8>| c@);
    let several = contents.len() > 1;
    let mut out: Vec<u8> = Vec::new();
    let mut i: usize = 0;
    while i < contents.len()
        invariant
            i <= contents@.len(),
            cs == contents@.map_values(|c: Vec<u8>| c@),
            several == (contents@.len() > 1),
            out@ == spec_join_inputs(cs.take(i as int), several),
        decreases contents@.len() - i,
    {
        assert(cs.take(i + 1).drop_last() =~= cs.take(i as int));
        assert(cs.take(i + 1).last() == contents@[i as int]@);
        crate::text::extend_bytes(&mut out, contents[i].as_slice());
        if several {
            out.push(0x0a);
        }
        i += 1;
    }
    assert(cs.take(i as int) =~= cs);
    out
}

/// Whether the settings allow rewriting the input files in place: there must be some, and no
/// `-O` output file.
pub open spec fn spec_overwrite_check(config: ConfigView) -> Result<(), ErrorView> {
    if config.inputs.len() == 0 {
        Err(ErrorView::OverwriteWithoutFiles)
    } else if config.file_output is Some {
        Err(ErrorView::OverwriteWithOutputFile)
    } else {
        Ok(())
    }
}

/// Checks that the settings allow rewriting the input files in place.
pub fn overwrite_check(config: &Config) -> (r: Result<(), NkfError>)
    ensures
        match r {
            Ok(()) => spec_overwrite_check(config@) == Ok::<(), ErrorView>(()),
            Err(e) => spec_overwrite_check(config@) == Err::<(), ErrorView>(e@),
        },
{
    if config.inputs.len() == 0 {
        Err(NkfError::OverwriteWithoutFiles)
    } else if config.file_output.is_some() {
        Err(NkfError::OverwriteWithOutputFile)
    } else {
        Ok(())
    }
}

} // verus!
