//! Marshaling of UTF-16 code-unit strings, the wide-character platforms'
//! variant of the marshaler.
//!
//! The wide process-replacement primitive reads each string up to its
//! first zero code unit and offers no way of its own to report an
//! embedded zero, so the zero check happens here, before any invocation,
//! exactly as the byte marshaler does it. Only the code unit differs:
//! host strings are transcoded to UTF-16 by the platform layer and arrive
//! here as plain `u16` sequences.

use vstd::prelude::*;
use crate::error::Error;

verus! {

/// True when the wide string holds a zero code unit anywhere in its
/// content, before the terminator the marshaler would append.
pub open spec fn has_interior_nul_wide(s: Seq<u16>) -> bool {
    exists|i: int| 0 <= i < s.len() && s[i] == 0
}

/// The wide C-compatible form of a string: its content followed by one
/// zero code unit.
pub open spec fn nul_terminated_wide(s: Seq<u16>) -> Seq<u16> {
    s.push(0)
}

/// True when no wide string of the sequence holds an interior zero.
pub open spec fn all_nul_free_wide(strings: Seq<Seq<u16>>) -> bool {
    forall|i: int| 0 <= i < strings.len() ==> !has_interior_nul_wide(#[trigger] strings[i])
}

/// The mathematical contents of a vector of wide strings.
pub open spec fn wide_views(v: Seq<Vec<u16>>) -> Seq<Seq<u16>> {
    v.map_values(|a: Vec<u16>| a@)
}

/// The marshaled wide buffer set: an owned zero-terminated copy of the
/// program name and of every argument, kept alive together across the
/// call.
pub struct MarshaledWide {
    /// The program name, with its terminator appended.
    pub program: Vec<u16>,
    /// The argument strings in input order, each with its terminator
    /// appended.
    pub args: Vec<Vec<u16>>,
}

/// What marshaling wide strings must yield: the zero-terminated copies
/// exactly when every string is clean, and the invalid-argument error
/// exactly when some string is tainted.
pub open spec fn marshal_post_wide(
    program: Seq<u16>,
    args: Seq<Seq<u16>>,
    r: Result<MarshaledWide, Error>,
) -> bool {
    match r {
        Ok(m) => {
            &&& !has_interior_nul_wide(program)
            &&& all_nul_free_wide(args)
            &&& m.program@ == nul_terminated_wide(program)
            &&& m.args@.len() == args.len()
            &&& forall|i: int|
                0 <= i < args.len() ==> (#[trigger] m.args@[i])@ == nul_terminated_wide(args[i])
        },
        Err(e) => {
            &&& e == Error::NullByteInArgument
            &&& has_interior_nul_wide(program) || !all_nul_free_wide(args)
        },
    }
}

/// Copy one wide string and append its terminator, or reject it if its
/// content already holds a zero code unit.
pub fn marshal_one_wide(s: &Vec<u16>) -> (r: Result<Vec<u16>, Error>)
    ensures
        match r {
            Ok(t) => !has_interior_nul_wide(s@) && t@ == nul_terminated_wide(s@),
            Err(e) => has_interior_nul_wide(s@) && e == Error::NullByteInArgument,
        },
{
    let mut out: Vec<u16> = Vec::new();
    let mut i: usize = 0;
    while i < s.len()
        invariant
            i <= s.len(),
            out@ == s@.subrange(0, i as int),
            forall|j: int| 0 <= j < i ==> s@[j] != 0,
        decreases s.len() - i,
    {
        let u = s[i];
        if u == 0 {
            proof {
                assert(0 <= i < s@.len() && s@[i as int] == 0);
            }
            return Err(Error::NullByteInArgument);
        }
        out.push(u);
        proof {
            assert(out@ =~= s@.subrange(0, i + 1));
        }
        i += 1;
    }
    proof {
        assert(out@ =~= s@);
    }
    out.push(0);
    Ok(out)
}

/// Marshal the wide program name and then each wide argument in input
/// order, stopping at the first string that holds an interior zero.
pub fn marshal_wide(program: &Vec<u16>, args: &Vec<Vec<u16>>) -> (r: Result<MarshaledWide, Error>)
    ensures
        marshal_post_wide(program@, wide_views(args@), r),
{
    let prog = match marshal_one_wide(program) {
        Ok(p) => p,
        Err(e) => {
            return Err(e);
        },
    };
    let mut out: Vec<Vec<u16>> = Vec::new();
    let mut i: usize = 0;
    while i < args.len()
        invariant
            i <= args.len(),
            out@.len() == i,
            !has_interior_nul_wide(program@),
            prog@ == nul_terminated_wide(program@),
            forall|j: int| 0 <= j < i ==> !has_interior_nul_wide(wide_views(args@)[j]),
            forall|j: int|
                0 <= j < i ==> (#[trigger] out@[j])@ == nul_terminated_wide(wide_views(args@)[j]),
        decreases args.len() - i,
    {
        let t = match marshal_one_wide(&args[i]) {
            Ok(t) => t,
            Err(e) => {
                proof {
                    assert(has_interior_nul_wide(wide_views(args@)[i as int]));
                }
                return Err(e);
            },
        };
        out.push(t);
        i += 1;
    }
    Ok(MarshaledWide { program: prog, args: out })
}

} // verus!
