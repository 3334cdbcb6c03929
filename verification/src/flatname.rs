//! Flattened names: the path of an attribute below its logical node, its
//! steps joined by `$`, an array index in brackets behind a step.

use crate::error::SclError;
use crate::text::{byte_len, str_byte_len};
use vstd::prelude::*;
use vstd::string::StringExecFns;

verus! {

/// The room that an index takes in a flattened name: its bytes and two
/// brackets, or nothing where there is no index.
pub open spec fn flat_ix_len(ix: Seq<char>) -> nat {
    if byte_len(ix) != 0 {
        byte_len(ix) + 2
    } else {
        0
    }
}

/// The room that the separator takes in a flattened name: one byte behind a
/// name that is not empty.
pub open spec fn flat_sep_len(flat: Seq<char>) -> nat {
    if byte_len(flat) != 0 {
        1
    } else {
        0
    }
}

/// Whether the step `name` with the index `ix` still fits behind `flat`:
/// the name may grow to `maxlen` bytes and no further.
pub open spec fn flat_fits(flat: Seq<char>, maxlen: nat, name: Seq<char>, ix: Seq<char>) -> bool {
    byte_len(flat) + flat_sep_len(flat) + byte_len(name) + flat_ix_len(ix) <= maxlen
}

/// `flat` with the step `name` and the index `ix` behind it.
pub open spec fn flat_joined(flat: Seq<char>, name: Seq<char>, ix: Seq<char>) -> Seq<char> {
    let stepped = if byte_len(flat) == 0 {
        flat + name
    } else {
        flat + "$"@ + name
    };
    if byte_len(ix) != 0 {
        stepped + "["@ + ix + "]"@
    } else {
        stepped
    }
}

/// The place of the last `$` in `s`, if there is one.
pub open spec fn last_dollar(s: Seq<char>) -> Option<int>
    decreases s.len(),
{
    if s.len() == 0 {
        None
    } else if s.last() == '$' {
        Some(s.len() - 1)
    } else {
        last_dollar(s.drop_last())
    }
}

/// `s` without its last step: what stands before the last `$`, or nothing
/// where `s` holds no `$`.
pub open spec fn flat_parent(s: Seq<char>) -> Seq<char> {
    match last_dollar(s) {
        Some(i) => s.take(i),
        None => seq![],
    }
}

/// Appends the step `name`, with the index `ix` if it is not empty, to the
/// flattened name; refuses it, leaving the name as it is, if the result
/// would outgrow `maxlen` bytes.
pub fn construct_flattened(flattened: &mut String, maxlen: usize, name: &str, ix: &str) -> (r:
    Result<(), SclError>)
    ensures
        flat_fits(old(flattened)@, maxlen as nat, name@, ix@) ==> r is Ok && final(flattened)@
            == flat_joined(old(flattened)@, name@, ix@),
        !flat_fits(old(flattened)@, maxlen as nat, name@, ix@) ==> r == Err::<(), SclError>(
            SclError::FlattenedTooLong,
        ) && final(flattened)@ == old(flattened)@,
{
    let flen = str_byte_len(flattened.as_str());
    let nlen = str_byte_len(name);
    let ilen = str_byte_len(ix);
    let ixlen: u128 = if ilen != 0 {
        ilen as u128 + 2
    } else {
        0
    };
    let seplen: u128 = if flen != 0 {
        1
    } else {
        0
    };
    if flen as u128 + seplen + nlen as u128 + ixlen <= maxlen as u128 {
        if flen != 0 {
            flattened.append("$");
        }
        flattened.append(name);
        if ilen != 0 {
            flattened.append("[");
            flattened.append(ix);
            flattened.append("]");
        }
        Ok(())
    } else {
        Err(SclError::FlattenedTooLong)
    }
}

/// The flattened name without its last step.
pub fn flattened_parent(flattened: &str) -> (r: String)
    ensures
        r@ == flat_parent(flattened@),
{
    let total = flattened.unicode_len();
    let mut last: Option<usize> = None;
    let mut k: usize = 0;
    assert(flattened@.take(0) =~= Seq::<char>::empty());
    for c in it: flattened.chars()
        invariant
            it.seq() == flattened@,
            total == flattened@.len(),
            k == it.index(),
            match last {
                Some(i) => last_dollar(flattened@.take(k as int)) == Some(i as int) && i < k,
                None => last_dollar(flattened@.take(k as int)) is None,
            },
    {
        proof {
            assert(flattened@.take(k + 1).drop_last() =~= flattened@.take(k as int));
            assert(flattened@.take(k + 1).last() == c);
        }
        if c == '$' {
            last = Some(k);
        }
        k = k + 1;
    }
    assert(flattened@.take(k as int) =~= flattened@);
    match last {
        Some(i) => flattened.substring_char(0, i).to_string(),
        None => String::new(),
    }
}

} // verus!
