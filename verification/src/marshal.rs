//! Marshaling of byte strings into the form the `execvp` primitive consumes.
//!
//! The operating system reads each string up to its first zero byte and
//! reads the argument array up to its first null pointer. A string whose
//! content already holds a zero byte therefore cannot be passed faithfully:
//! it is rejected before any system call is attempted. Every accepted
//! string is copied and given a single trailing terminator; both the
//! program-name buffer and the argument buffers are owned by [`Marshaled`],
//! so they stay alive together for the full duration of the call.

use vstd::prelude::*;
use crate::error::Error;

verus! {

/// True when the byte string holds a zero byte anywhere in its content,
/// before the terminator the marshaler would append.
pub open spec fn has_interior_nul(s: Seq<u8>) -> bool {
    exists|i: int| 0 <= i < s.len() && s[i] == 0
}

/// The C-compatible form of a byte string: its content followed by one
/// zero byte.
pub open spec fn nul_terminated(s: Seq<u8>) -> Seq<u8> {
    s.push(0)
}

/// True when no string of the sequence holds an interior NUL byte.
pub open spec fn all_nul_free(strings: Seq<Seq<u8>>) -> bool {
    forall|i: int| 0 <= i < strings.len() ==> !has_interior_nul(#[trigger] strings[i])
}

/// The mathematical contents of a vector of byte strings.
pub open spec fn byte_views(v: Seq<Vec<u8>>) -> Seq<Seq<u8>> {
    v.map_values(|a: Vec<u8>| a@)
}

/// A single well-formed marshaled buffer: non-empty, ends in the one
/// terminator, and free of zero bytes before it.
pub open spec fn buffer_wf(b: Seq<u8>) -> bool {
    &&& b.len() >= 1
    &&& b.last() == 0
    &&& !has_interior_nul(b.drop_last())
}

/// The marshaled buffer set handed to the operating system: an owned
/// null-terminated copy of the program name and of every argument, kept
/// alive together so that no address derived from them can dangle while
/// the call runs.
pub struct Marshaled {
    /// The program name, with its terminator appended.
    pub program: Vec<u8>,
    /// The argument strings in input order, each with its terminator
    /// appended. The null sentinel that ends the address array the
    /// operating system receives is modeled by [`argv_entries`].
    pub args: Vec<Vec<u8>>,
}

impl Marshaled {
    /// Every buffer of the set is well formed.
    pub open spec fn wf(&self) -> bool {
        &&& buffer_wf(self.program@)
        &&& forall|i: int| 0 <= i < self.args@.len() ==> buffer_wf((#[trigger] self.args@[i])@)
    }
}

/// What marshaling a program name and an argument sequence must yield:
/// the null-terminated copies exactly when every string is clean, and the
/// invalid-argument error exactly when some string is tainted.
pub open spec fn marshal_post(
    program: Seq<u8>,
    args: Seq<Seq<u8>>,
    r: Result<Marshaled, Error>,
) -> bool {
    match r {
        Ok(m) => {
            &&& !has_interior_nul(program)
            &&& all_nul_free(args)
            &&& m.program@ == nul_terminated(program)
            &&& m.args@.len() == args.len()
            &&& forall|i: int|
                0 <= i < args.len() ==> (#[trigger] m.args@[i])@ == nul_terminated(args[i])
        },
        Err(e) => {
            &&& e == Error::NullByteInArgument
            &&& has_interior_nul(program) || !all_nul_free(args)
        },
    }
}

/// Copy one byte string and append its terminator, or reject it if its
/// content already holds a zero byte.
pub fn marshal_one(s: &Vec<u8>) -> (r: Result<Vec<u8>, Error>)
    ensures
        match r {
            Ok(t) => !has_interior_nul(s@) && t@ == nul_terminated(s@),
            Err(e) => has_interior_nul(s@) && e == Error::NullByteInArgument,
        },
{
    let mut out: Vec<u8> = Vec::new();
    let mut i: usize = 0;
    while i < s.len()
        invariant
            i <= s.len(),
            out@ == s@.subrange(0, i as int),
            forall|j: int| 0 <= j < i ==> s@[j] != 0,
        decreases s.len() - i,
    {
        let b = s[i];
        if b == 0 {
            proof {
                assert(0 <= i < s@.len() && s@[i as int] == 0);
            }
            return Err(Error::NullByteInArgument);
        }
        out.push(b);
        proof {
            assert(out@ =~= s@.subrange(0, i + 1));
        }
        i += 1;
    }
    proof {
        assert(out@ =~= s@);
    }
    out.push(0);
    Ok(out)
}

/// Marshal the program name and then each argument in input order,
/// stopping at the first string that holds an interior NUL byte.
pub fn marshal(program: &Vec<u8>, args: &Vec<Vec<u8>>) -> (r: Result<Marshaled, Error>)
    ensures
        marshal_post(program@, byte_views(args@), r),
        r matches Ok(m) ==> m.wf(),
{
    let prog = match marshal_one(program) {
        Ok(p) => p,
        Err(e) => {
            return Err(e);
        },
    };
    let mut out: Vec<Vec<u8>> = Vec::new();
    let mut i: usize = 0;
    while i < args.len()
        invariant
            i <= args.len(),
            out@.len() == i,
            !has_interior_nul(program@),
            prog@ == nul_terminated(program@),
            forall|j: int| 0 <= j < i ==> !has_interior_nul(byte_views(args@)[j]),
            forall|j: int|
                0 <= j < i ==> (#[trigger] out@[j])@ == nul_terminated(byte_views(args@)[j]),
        decreases args.len() - i,
    {
        let t = match marshal_one(&args[i]) {
            Ok(t) => t,
            Err(e) => {
                proof {
                    assert(has_interior_nul(byte_views(args@)[i as int]));
                }
                return Err(e);
            },
        };
        out.push(t);
        i += 1;
    }
    let m = Marshaled { program: prog, args: out };
    proof {
        lemma_nul_terminated_wf(program@);
        assert forall|i: int| 0 <= i < m.args@.len() implies buffer_wf(
            (#[trigger] m.args@[i])@,
        ) by {
            lemma_nul_terminated_wf(byte_views(args@)[i]);
        }
    }
    Ok(m)
}

/// A clean string's marshaled form is a well-formed buffer.
proof fn lemma_nul_terminated_wf(s: Seq<u8>)
    requires
        !has_interior_nul(s),
    ensures
        buffer_wf(nul_terminated(s)),
{
    assert(nul_terminated(s).drop_last() =~= s);
}

/// The address array the operating system receives, in the abstract: one
/// entry per marshaled argument buffer in order, closed by the null
/// sentinel, which `None` stands for.
pub open spec fn argv_entries(m: Marshaled) -> Seq<Option<Seq<u8>>> {
    byte_views(m.args@).map_values(|b: Seq<u8>| Some(b)).push(None)
}

/// Strings free of interior terminators are never rejected: marshaling an
/// untainted program name and untainted arguments always succeeds, so the
/// invalid-argument error can only ever arise from a tainted string.
pub proof fn lemma_clean_inputs_never_rejected(
    program: Seq<u8>,
    args: Seq<Seq<u8>>,
    r: Result<Marshaled, Error>,
)
    requires
        !has_interior_nul(program),
        all_nul_free(args),
        marshal_post(program, args, r),
    ensures
        r is Ok,
{
}

/// A tainted string anywhere in the input dooms the whole operation: if
/// the program name or any argument holds an interior NUL byte, marshaling
/// yields exactly the invalid-argument error, so no buffer set ever
/// reaches the operating system.
pub proof fn lemma_tainted_input_rejected(
    program: Seq<u8>,
    args: Seq<Seq<u8>>,
    r: Result<Marshaled, Error>,
)
    requires
        has_interior_nul(program) || !all_nul_free(args),
        marshal_post(program, args, r),
    ensures
        r == Result::<Marshaled, Error>::Err(Error::NullByteInArgument),
{
}

/// The program name is checked before any argument: once it is tainted,
/// the outcome is already settled, and the arguments — tainted or not —
/// play no further part in it.
pub proof fn lemma_first_offender_decides(
    program: Seq<u8>,
    args1: Seq<Seq<u8>>,
    args2: Seq<Seq<u8>>,
    r1: Result<Marshaled, Error>,
    r2: Result<Marshaled, Error>,
)
    requires
        has_interior_nul(program),
        marshal_post(program, args1, r1),
        marshal_post(program, args2, r2),
    ensures
        r1 == r2,
{
}

/// Round trip of the address array: for `N` input strings the array holds
/// exactly `N + 1` entries, the last being the null sentinel, and entry
/// `i` addresses precisely the `i`-th input string plus its one appended
/// terminator.
pub proof fn lemma_pointer_array_round_trip(
    program: Seq<u8>,
    args: Seq<Seq<u8>>,
    m: Marshaled,
)
    requires
        marshal_post(program, args, Ok(m)),
    ensures
        argv_entries(m).len() == args.len() + 1,
        argv_entries(m).last() == None::<Seq<u8>>,
        forall|i: int|
            0 <= i < args.len() ==> argv_entries(m)[i] == Some(nul_terminated(#[trigger] args[i])),
{
    assert forall|i: int|
        0 <= i < args.len() implies argv_entries(m)[i] == Some(
        nul_terminated(#[trigger] args[i]),
    ) by {
        assert(byte_views(m.args@)[i] == m.args@[i]@);
    }
}

} // verus!
