//! The "last error" slot behind `ratex_get_last_error`.
//!
//! The slot holds either nothing or the bytes of a C string: the message's UTF-8
//! bytes with every NUL byte removed, followed by one terminating NUL.  A pointer to
//! those bytes can be handed to C as is.
use vstd::prelude::*;
use vstd::string::StringSliceAdditionalSpecFns;

verus! {

/// The last error message of a thread, stored as a NUL-terminated byte string.
#[derive(Debug)]
pub struct LastError {
    c_string: Option<Vec<u8>>,
}

impl View for LastError {
    type V = Option<Seq<u8>>;

    closed spec fn view(&self) -> Option<Seq<u8>> {
        match self.c_string {
            Some(v) => Some(v@),
            None => None,
        }
    }
}

/// The bytes with every zero byte removed.
pub open spec fn without_nul(bytes: Seq<u8>) -> Seq<u8>
    decreases bytes.len(),
{
    if bytes.len() == 0 {
        bytes
    } else if bytes.last() == 0 {
        without_nul(bytes.drop_last())
    } else {
        without_nul(bytes.drop_last()).push(bytes.last())
    }
}

/// The stored form of a message: its bytes without NULs, then one NUL.
pub open spec fn c_string_of(bytes: Seq<u8>) -> Seq<u8> {
    without_nul(bytes).push(0)
}

/// A C string: at least one byte, the last one NUL, no NUL before it.
pub open spec fn is_c_string(bytes: Seq<u8>) -> bool {
    &&& bytes.len() >= 1
    &&& bytes.last() == 0
    &&& forall|i: int| 0 <= i < bytes.len() - 1 ==> bytes[i] != 0
}

/// Removing NULs leaves no NUL and keeps every other byte.
pub proof fn lemma_without_nul_has_no_nul(bytes: Seq<u8>)
    ensures
        forall|i: int| 0 <= i < without_nul(bytes).len() ==> without_nul(bytes)[i] != 0,
        without_nul(bytes).len() <= bytes.len(),
    decreases bytes.len(),
{
    if bytes.len() > 0 {
        lemma_without_nul_has_no_nul(bytes.drop_last());
    }
}

/// Whatever the message, the stored bytes form a C string (so building a C string
/// from them never fails).
pub proof fn lemma_c_string_of_is_c_string(bytes: Seq<u8>)
    ensures
        is_c_string(c_string_of(bytes)),
{
    lemma_without_nul_has_no_nul(bytes);
    let s = without_nul(bytes);
    assert forall|i: int| 0 <= i < c_string_of(bytes).len() - 1 implies c_string_of(bytes)[i]
        != 0 by {
        assert(c_string_of(bytes)[i] == s[i]);
    }
}

impl LastError {
    /// A stored message is always a C string.
    #[verifier::type_invariant]
    closed spec fn holds_c_string(&self) -> bool {
        self.c_string matches Some(v) ==> is_c_string(v@)
    }

    /// An empty slot.
    pub fn new() -> (slot: LastError)
        ensures
            slot@ is None,
    {
        LastError { c_string: None }
    }

    /// The stored C string, NUL included, if any.
    pub fn c_str_bytes(&self) -> (bytes: Option<&[u8]>)
        ensures
            match self@ {
                Some(s) => bytes matches Some(b) && b@ == s,
                None => bytes is None,
            },
            bytes matches Some(b) ==> is_c_string(b@),
    {
        proof {
            use_type_invariant(self);
        }
        match &self.c_string {
            Some(v) => Some(v.as_slice()),
            None => None,
        }
    }
}

/// Forgets the last error.
pub fn clear_last_error(slot: &mut LastError)
    ensures
        final(slot)@ is None,
{
    slot.c_string = None;
}

/// Records a message as the last error: its bytes without NULs, NUL-terminated.
pub fn set_last_error(slot: &mut LastError, msg: &str)
    ensures
        final(slot)@ == Some(c_string_of(msg.spec_bytes())),
        is_c_string(c_string_of(msg.spec_bytes())),
{
    let bytes = msg.as_bytes();
    let mut stored: Vec<u8> = Vec::new();
    let mut i: usize = 0;
    while i < bytes.len()
        invariant
            i <= bytes@.len(),
            stored@ == without_nul(bytes@.take(i as int)),
        decreases bytes@.len() - i,
    {
        proof {
            assert(bytes@.take(i + 1).drop_last() == bytes@.take(i as int));
        }
        if bytes[i] != 0 {
            stored.push(bytes[i]);
        }
        i = i + 1;
    }
    proof {
        assert(bytes@.take(bytes@.len() as int) == bytes@);
        lemma_c_string_of_is_c_string(msg.spec_bytes());
    }
    stored.push(0);
    slot.c_string = Some(stored);
}

} // verus!
