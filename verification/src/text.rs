//! Comparisons of strings, stated over their characters.

use vstd::prelude::*;
use vstd::string::{StrSliceExecFns, StringSliceAdditionalSpecFns};
use vstd::utf8::{decode_utf8, encode_utf8, encode_utf8_decode_utf8};

verus! {

/// `String::push` of std: the character is appended at the end.
pub assume_specification[ String::push ](text: &mut String, ch: char)
    ensures
        final(text)@ == old(text)@.push(ch),
;

/// `String::pop` of std: the last character is removed and returned; an empty string stays as
/// it is and gives `None`.
pub assume_specification[ String::pop ](text: &mut String) -> (last: Option<char>)
    ensures
        old(text)@.len() > 0 ==> last == Some(old(text)@.last()) && final(text)@ == old(text)@.drop_last(),
        old(text)@.len() == 0 ==> last is None && final(text)@ == old(text)@,
;

/// Two strings with the same UTF-8 bytes hold the same characters.
pub proof fn lemma_bytes_decide_text(a: Seq<char>, b: Seq<char>)
    requires
        encode_utf8(a) == encode_utf8(b),
    ensures
        a == b,
{
    encode_utf8_decode_utf8(a);
    encode_utf8_decode_utf8(b);
    assert(a == decode_utf8(encode_utf8(a)));
    assert(b == decode_utf8(encode_utf8(b)));
}

/// Whether `a` and `b` hold the same characters.
pub fn same_text(a: &str, b: &str) -> (same: bool)
    ensures
        same == (a@ == b@),
{
    let x = a.as_bytes();
    let y = b.as_bytes();
    if x.len() != y.len() {
        return false;
    }
    let mut i: usize = 0;
    while i < x.len()
        invariant
            x.len() == y.len(),
            i <= x.len(),
            x@ == a.spec_bytes(),
            y@ == b.spec_bytes(),
            forall|j: int| 0 <= j < i ==> x@[j] == y@[j],
        decreases x.len() - i,
    {
        if x[i] != y[i] {
            return false;
        }
        i += 1;
    }
    proof {
        assert(x@ =~= y@);
        lemma_bytes_decide_text(a@, b@);
    }
    true
}

/// `path` is the directory `target` or lies below it: it equals `target`, or starts with
/// `target` followed by the separator `/`.
pub open spec fn under(target: Seq<char>, path: Seq<char>) -> bool {
    path == target || (target + seq!['/']).is_prefix_of(path)
}

/// Whether `path` is the directory `target` or lies below it.
pub fn is_under(target: &str, path: &str) -> (inside: bool)
    ensures
        inside == under(target@, path@),
{
    let target_length: usize = target.unicode_len();
    let path_length: usize = path.unicode_len();
    if path_length < target_length {
        return false;
    }
    let head = path.substring_char(0, target_length);
    if !same_text(head, target) {
        assert(!target.view().is_prefix_of(path@)) by {
            if target@.is_prefix_of(path@) {
                assert(path@.subrange(0, target_length as int) =~= target@);
            }
        }
        assert((target@ + seq!['/']).is_prefix_of(path@) ==> target@.is_prefix_of(path@)) by {
            if (target@ + seq!['/']).is_prefix_of(path@) {
                assert(target@ =~= path@.subrange(0, target_length as int));
            }
        }
        return false;
    }
    if path_length == target_length {
        assert(path@ =~= target@);
        return true;
    }
    let next: char = path.get_char(target_length);
    proof {
        let with_separator = target@ + seq!['/'];
        if next == '/' {
            assert(path@.subrange(0, with_separator.len() as int) =~= with_separator);
        } else {
            if with_separator.is_prefix_of(path@) {
                assert(with_separator[target_length as int] == path@[target_length as int]);
            }
        }
    }
    next == '/'
}

/// What follows the first `skip` characters of `text`.
pub fn tail(text: &str, skip: usize) -> (rest: String)
    requires
        skip <= text@.len(),
    ensures
        rest@ == text@.skip(skip as int),
{
    let length: usize = text.unicode_len();
    text.substring_char(skip, length).to_owned()
}

} // verus!
