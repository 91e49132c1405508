//! Identifiers: the durable ones that the store keys its rows by, and the
//! placeholders by which a form names gifts that do not exist yet.

use vstd::prelude::*;

verus! {

/// What every placeholder begins with.
pub open spec fn placeholder_prefix() -> Seq<char> {
    seq!['n', 'e', 'w', 'R', 'o', 'w', '-']
}

/// `id` is a placeholder: it stands for a gift that is not stored yet.
pub open spec fn is_placeholder(id: Seq<char>) -> bool {
    placeholder_prefix().is_prefix_of(id)
}

/// A gift with this identifier is new: the identifier is empty or a
/// placeholder.
pub open spec fn needs_new_id(id: Seq<char>) -> bool {
    id.len() == 0 || is_placeholder(id)
}

/// `c` is a digit, or a letter from `a` to `f`.
pub open spec fn is_lower_hex(c: char) -> bool {
    ('0' <= c && c <= '9') || ('a' <= c && c <= 'f')
}

/// `s` has the shape of a hyphenated identifier: 36 characters, hyphens
/// after the groups of 8, 4, 4 and 4, lower-case hexadecimal digits elsewhere.
pub open spec fn is_uuid_text(s: Seq<char>) -> bool {
    &&& s.len() == 36
    &&& forall|i: int|
        0 <= i < 36 ==> if i == 8 || i == 13 || i == 18 || i == 23 {
            #[trigger] s[i] == '-'
        } else {
            is_lower_hex(s[i])
        }
}

/// An identifier of that shape is neither empty nor a placeholder.
pub proof fn lemma_uuid_text_is_durable(s: Seq<char>)
    requires
        is_uuid_text(s),
    ensures
        !needs_new_id(s),
{
    if is_placeholder(s) {
        assert(placeholder_prefix()[0] == 'n');
        assert(s.subrange(0, 7)[0] == s[0]);
        assert(is_lower_hex(s[0]));
    }
}

/// Whether `id` is a placeholder.
pub fn is_placeholder_id(id: &String) -> (b: bool)
    ensures
        b == is_placeholder(id@),
{
    let s = id.as_str();
    if s.unicode_len() < 7 {
        return false;
    }
    let b = s.get_char(0) == 'n' && s.get_char(1) == 'e' && s.get_char(2) == 'w' && s.get_char(3)
        == 'R' && s.get_char(4) == 'o' && s.get_char(5) == 'w' && s.get_char(6) == '-';
    proof {
        let p = placeholder_prefix();
        let head = id@.subrange(0, 7);
        if b {
            assert(p =~= head);
        } else {
            if p =~= head {
                assert(head[0] == id@[0] && head[1] == id@[1] && head[2] == id@[2] && head[3]
                    == id@[3] && head[4] == id@[4] && head[5] == id@[5] && head[6] == id@[6]);
            }
        }
    }
    b
}

/// A fresh random identifier, from `uuid::Uuid::new_v4` and the `to_string`
/// of the value it returns. The crate formats a `Uuid` hyphenated and in
/// lower case; that shape is all the contract claims. Which identifier comes
/// is left open.
#[verifier::external_body]
pub(crate) fn new_uuid() -> (id: String)
    ensures
        is_uuid_text(id@),
{
    uuid::Uuid::new_v4().to_string()
}

} // verus!
