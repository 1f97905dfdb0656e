//! The identity that a verified subject resolves to.

use vstd::prelude::*;
use vstd::string::*;

verus! {

/// A character allowed in a subject: an ASCII letter or digit, `-`, `_` or `.`.
pub open spec fn is_subject_char(c: char) -> bool {
    ('a' <= c && c <= 'z') || ('A' <= c && c <= 'Z') || ('0' <= c && c <= '9') || c == '-' || c == '_'
        || c == '.'
}

/// A well-formed subject: non-empty and made of subject characters only.
pub open spec fn is_valid_subject(s: Seq<char>) -> bool {
    s.len() > 0 && forall|i: int| 0 <= i < s.len() ==> is_subject_char(#[trigger] s[i])
}

fn subject_char(c: char) -> (r: bool)
    ensures
        r == is_subject_char(c),
{
    ('a' <= c && c <= 'z') || ('A' <= c && c <= 'Z') || ('0' <= c && c <= '9') || c == '-' || c == '_'
        || c == '.'
}

/// The resolved principal of an authorised request.
#[derive(Debug)]
pub struct Identity {
    subject: String,
}

impl View for Identity {
    type V = Seq<char>;

    closed spec fn view(&self) -> Seq<char> {
        self.subject@
    }
}

impl Identity {
    #[verifier::type_invariant]
    closed spec fn well_formed(self) -> bool {
        is_valid_subject(self.subject@)
    }

    /// The identity named by `subject`, if it is well formed.
    pub fn parse(subject: &str) -> (r: Option<Identity>)
        ensures
            r is Some <==> is_valid_subject(subject@),
            r matches Some(id) ==> id@ == subject@,
    {
        let n = subject.unicode_len();
        if n == 0 {
            return None;
        }
        let mut i: usize = 0;
        while i < n
            invariant
                n == subject@.len(),
                i <= n,
                forall|k: int| 0 <= k < i ==> is_subject_char(#[trigger] subject@[k]),
            decreases n - i,
        {
            if !subject_char(subject.get_char(i)) {
                return None;
            }
            i = i + 1;
        }
        Some(Identity { subject: subject.to_owned() })
    }

    /// The subject text of this identity.
    pub fn as_str(&self) -> (r: &str)
        ensures
            r@ == self@,
            is_valid_subject(r@),
    {
        proof {
            use_type_invariant(self);
        }
        self.subject.as_str()
    }
}

} // verus!
