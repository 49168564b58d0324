use crate::text::text_of;
use vstd::prelude::*;
use vstd::string::StringExecFns;
use vstd::utf8::{decode_utf8, valid_utf8};

verus! {

/// The text that `chunks` of a command's output make up: the chunks that are
/// valid UTF-8, decoded and joined in order. The others are left out.
pub open spec fn joined(chunks: Seq<Vec<u8>>) -> Seq<char>
    decreases chunks.len(),
{
    if chunks.len() == 0 {
        Seq::empty()
    } else if valid_utf8(chunks.last()@) {
        joined(chunks.drop_last()) + decode_utf8(chunks.last()@)
    } else {
        joined(chunks.drop_last())
    }
}

/// Joins the chunks in which the output of a command arrived into one text.
/// A chunk that is not valid UTF-8 is dropped.
pub fn get_output(chunks: &Vec<Vec<u8>>) -> (output: String)
    ensures
        output@ == joined(chunks@),
{
    let mut output = String::new();
    let mut i: usize = 0;
    assert(chunks@.take(0) =~= Seq::empty());
    while i < chunks.len()
        invariant
            i <= chunks.len(),
            output@ == joined(chunks@.take(i as int)),
        decreases chunks.len() - i,
    {
        assert(chunks@.take(i + 1).drop_last() =~= chunks@.take(i as int));
        match text_of(chunks[i].as_slice()) {
            Some(text) => {
                output.append(text);
            },
            None => {},
        }
        i += 1;
    }
    assert(chunks@.take(i as int) =~= chunks@);
    output
}

} // verus!
