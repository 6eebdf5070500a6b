//! The display name of the running program, taken from its invocation path.

use crate::error::LoggerError;
use std::string::FromUtf8Error;
use vstd::prelude::*;
use vstd::utf8::*;

verus! {

/// The byte that parts the segments of an invocation path: `/`.
pub const SEPARATOR: u8 = 47;

/// The error of `String::from_utf8`; only its presence is read.
#[verifier::external_type_specification]
#[verifier::external_body]
pub struct ExFromUtf8Error(FromUtf8Error);

/// `String::from_utf8` succeeds exactly on valid UTF-8, and the string it
/// then gives is made of the very bytes it was handed.
pub assume_specification[ String::from_utf8 ](bytes: Vec<u8>) -> (res: Result<
    String,
    FromUtf8Error,
>)
    ensures
        res is Ok <==> valid_utf8(bytes@),
        res matches Ok(text) ==> encode_utf8(text@) == bytes@,
;

/// The final segment of a path: what follows its last separator, or the
/// whole path where it holds none. It is empty for the empty path and for a
/// path that ends in a separator.
pub open spec fn final_segment(path: Seq<u8>) -> Seq<u8>
    decreases path.len(),
{
    if path.len() == 0 {
        path
    } else if path.last() == SEPARATOR {
        Seq::empty()
    } else {
        final_segment(path.drop_last()).push(path.last())
    }
}

/// What `resolve` answers for an argument vector, each argument given as
/// its bytes.
pub open spec fn resolved(args: Seq<Seq<u8>>) -> Result<Seq<char>, LoggerError> {
    if args.len() == 0 {
        Err(LoggerError::FullPath)
    } else {
        let segment = final_segment(args[0]);
        if segment.len() == 0 {
            Err(LoggerError::FileName)
        } else if !valid_utf8(segment) {
            Err(LoggerError::NameStr)
        } else {
            Ok(decode_utf8(segment))
        }
    }
}

/// The short display name of the running program. It is fixed when it is
/// resolved and only read afterwards.
pub struct ProcessIdentity {
    name: String,
}

impl View for ProcessIdentity {
    type V = Seq<char>;

    closed spec fn view(&self) -> Seq<char> {
        self.name@
    }
}

impl ProcessIdentity {
    /// The name as text.
    pub fn as_str(&self) -> (name: &str)
        ensures
            name@ == self@,
    {
        self.name.as_str()
    }
}

/// The final segment is the one tail of the path that holds no separator
/// and that starts the path or follows a separator.
pub proof fn lemma_final_segment_is_tail(path: Seq<u8>, start: int)
    requires
        0 <= start <= path.len(),
        forall|i: int| start <= i < path.len() ==> path[i] != SEPARATOR,
        start == 0 || path[start - 1] == SEPARATOR,
    ensures
        final_segment(path) == path.skip(start),
    decreases path.len(),
{
    if path.len() == start {
        assert(path.skip(start) =~= Seq::<u8>::empty());
        if start == 0 {
            assert(path =~= Seq::<u8>::empty());
        }
    } else {
        let shorter = path.drop_last();
        lemma_final_segment_is_tail(shorter, start);
        assert(shorter.skip(start).push(path.last()) =~= path.skip(start));
    }
}

/// The final segment holds no separator, is a tail of the path, and what
/// stands before it is empty or ends in a separator.
pub proof fn lemma_final_segment_shape(path: Seq<u8>)
    ensures
        final_segment(path).len() <= path.len(),
        final_segment(path) == path.skip(path.len() - final_segment(path).len()),
        forall|i: int|
            0 <= i < final_segment(path).len() ==> #[trigger] final_segment(path)[i] != SEPARATOR,
        final_segment(path).len() < path.len() ==> path[path.len() - final_segment(path).len()
            - 1] == SEPARATOR,
    decreases path.len(),
{
    if path.len() == 0 {
        assert(path.skip(0) =~= path);
    } else if path.last() == SEPARATOR {
        assert(path.skip(path.len() as int) =~= Seq::<u8>::empty());
    } else {
        let shorter = path.drop_last();
        lemma_final_segment_shape(shorter);
        let inner = final_segment(shorter);
        assert(inner.push(path.last()) =~= path.skip(path.len() - inner.len() - 1)) by {
            assert(inner =~= shorter.skip(shorter.len() - inner.len()));
        }
        assert forall|i: int| 0 <= i < final_segment(path).len() implies #[trigger] final_segment(
            path,
        )[i] != SEPARATOR by {
            if i < inner.len() {
                assert(final_segment(path)[i] == inner[i]);
            }
        }
    }
}

/// Derives the program's display name from its argument vector, each
/// argument given as the bytes the system handed over.
///
/// The first argument is the invocation path. An empty vector is
/// `FullPath`; a path whose final segment is empty is `FileName`; a final
/// segment that is not valid UTF-8 is `NameStr`. Otherwise the name is the
/// final segment, decoded.
pub fn resolve(args: &Vec<Vec<u8>>) -> (res: Result<ProcessIdentity, LoggerError>)
    ensures
        match res {
            Ok(identity) => resolved(args.deep_view()) == Ok::<Seq<char>, LoggerError>(identity@),
            Err(e) => resolved(args.deep_view()) == Err::<Seq<char>, LoggerError>(e),
        },
        args@.len() == 0 ==> res == Err::<ProcessIdentity, LoggerError>(LoggerError::FullPath),
        res matches Ok(identity) ==> encode_utf8(identity@) == final_segment(args@[0]@),
{
    if args.len() == 0 {
        return Err(LoggerError::FullPath);
    }
    let path = &args[0];
    let len: usize = path.len();
    proof {
        assert(args.deep_view()[0] == path@);
    }
    let mut start: usize = len;
    while start > 0 && path[start - 1] != SEPARATOR
        invariant
            start <= len,
            len == path@.len(),
            forall|i: int| start <= i < len ==> path@[i] != SEPARATOR,
        decreases start,
    {
        start = start - 1;
    }
    proof {
        lemma_final_segment_is_tail(path@, start as int);
    }
    if start == len {
        return Err(LoggerError::FileName);
    }
    let mut segment: Vec<u8> = Vec::new();
    let mut i: usize = start;
    while i < len
        invariant
            start <= i <= len,
            len == path@.len(),
            segment@ == path@.subrange(start as int, i as int),
        decreases len - i,
    {
        segment.push(path[i]);
        i = i + 1;
        proof {
            assert(segment@ =~= path@.subrange(start as int, i as int));
        }
    }
    proof {
        assert(segment@ =~= path@.skip(start as int));
    }
    match String::from_utf8(segment) {
        Ok(name) => {
            proof {
                encode_utf8_decode_utf8(name@);
            }
            Ok(ProcessIdentity { name })
        },
        Err(_) => Err(LoggerError::NameStr),
    }
}

} // verus!
