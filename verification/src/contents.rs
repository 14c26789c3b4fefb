use vstd::prelude::*;

use crate::error::Error;
use crate::header::read_word;
use crate::header::spec_word;
use crate::ty::Type;

verus! {

// Named bits of a section group's leading flag word.
pub const GRP_COMDAT: u32 = 0x1;
/// Bits reserved for OS-specific meaning; opaque to this crate.
pub const GRP_MASKOS: u32 = 0x0ff00000;
/// Bits reserved for processor-specific meaning; opaque to this crate.
pub const GRP_MASKPROC: u32 = 0xf0000000;

/// A group payload is well formed exactly when it holds the 4-byte flag
/// word followed by a whole number of 4-byte section indices.
pub open spec fn spec_group_payload_ok(len: int) -> bool {
    len >= 4 && (len - 4) % 4 == 0
}

/// The section indices of a well-formed group payload, in the order they
/// appear after the leading flag word.
pub open spec fn spec_group_indicies(s: Seq<u8>) -> Seq<u32>
    recommends
        spec_group_payload_ok(s.len() as int),
{
    Seq::new((((s.len() - 4) / 4) as nat), |i: int| spec_word(s, 4 + 4 * i))
}

/// The logical shape of a section's payload, derived from its classified
/// type. `Undefined` borrows the caller's span unexamined; nothing here
/// copies or interprets those bytes further.
#[derive(Debug, PartialEq, Eq)]
pub enum Contents<'a> {
    /// No payload: the section header is inactive.
    Empty,
    /// Raw, uninterpreted bytes — the default for most section types.
    Undefined(&'a [u8]),
    /// A section group: a flag word, then the member section indices.
    Group { flags: u32, indicies: Vec<u32> },
}

impl<'a> Contents<'a> {
    /// Interpret `span` — the section's raw contents, already resolved
    /// against the image buffer by the caller — according to the section's
    /// classified type. A `Null` section has no payload whatever the span
    /// holds; a `Group` section is parsed as a flag word followed by its
    /// member indices, and any other length is a `MalformedGroupPayload`
    /// error; every other type keeps its bytes uninterpreted.
    pub fn of(ty: &Type, span: &'a [u8]) -> (r: Result<Contents<'a>, Error>)
        ensures
            match r {
                Ok(c) => match *ty {
                    Type::Null => c is Empty,
                    Type::Group => spec_group_payload_ok(span@.len() as int) && (
                    c matches Contents::Group { flags, indicies } && flags == spec_word(span@, 0)
                        && indicies@ == spec_group_indicies(span@)),
                    _ => c matches Contents::Undefined(b) && b@ == span@,
                },
                Err(e) => *ty is Group && e == Error::MalformedGroupPayload
                    && !spec_group_payload_ok(span@.len() as int),
            },
    {
        match ty {
            Type::Null => Ok(Contents::Empty),
            Type::Group => {
                let len = span.len();
                if len < 4 || (len - 4) % 4 != 0 {
                    return Err(Error::MalformedGroupPayload);
                }
                let flags = read_word(span, 0);
                let count = (len - 4) / 4;
                let mut indicies: Vec<u32> = Vec::new();
                let mut i: usize = 0;
                while i < count
                    invariant
                        span@.len() == len,
                        spec_group_payload_ok(len as int),
                        count == (len - 4) / 4,
                        i <= count,
                        indicies@.len() == i,
                        forall|j: int| 0 <= j < i ==> indicies@[j] == spec_word(span@, 4 + 4 * j),
                    decreases count - i,
                {
                    let index = read_word(span, 4 + 4 * i);
                    indicies.push(index);
                    i += 1;
                }
                proof {
                    assert(indicies@ =~= spec_group_indicies(span@));
                }
                Ok(Contents::Group { flags, indicies })
            },
            _ => Ok(Contents::Undefined(span)),
        }
    }
}

} // verus!
