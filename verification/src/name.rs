//! Parsing of a supervisor-provided unit name.
//!
//! When the daemon inherits its socket, missing identity fields may be read
//! out of the descriptor's name: trailing `.socket` suffixes are stripped,
//! and the remainder is split at the first `@` into a prefix (the default
//! app id) and an instance part (the default instance id).

use vstd::prelude::*;

verus! {

/// The suffix that unit names carry, as a character sequence.
pub open spec fn socket_suffix() -> Seq<char> {
    seq!['.', 's', 'o', 'c', 'k', 'e', 't']
}

/// Whether `s` ends with the `.socket` suffix.
pub open spec fn ends_with_socket_suffix(s: Seq<char>) -> bool {
    s.len() >= 7 && s.subrange(s.len() - 7, s.len() as int) == socket_suffix()
}

/// `s` with every trailing `.socket` suffix removed.
pub open spec fn stripped_name(s: Seq<char>) -> Seq<char>
    decreases s.len(),
{
    if ends_with_socket_suffix(s) {
        stripped_name(s.subrange(0, s.len() - 7))
    } else {
        s
    }
}

/// Whether `s` contains no `@` marker at all.
pub open spec fn marker_free(s: Seq<char>) -> bool {
    forall|j: int| 0 <= j < s.len() ==> s[j] != '@'
}

/// `i` is the position of the first `@` in `s`.
pub open spec fn is_first_marker(s: Seq<char>, i: int) -> bool {
    &&& 0 <= i < s.len()
    &&& s[i] == '@'
    &&& forall|j: int| 0 <= j < i ==> s[j] != '@'
}

/// The position of the first `@` in `s` (meaningful only when one exists).
pub open spec fn first_marker(s: Seq<char>) -> int {
    choose|i: int| is_first_marker(s, i)
}

/// At most one position is the first marker, so `first_marker` names it.
pub proof fn lemma_first_marker(s: Seq<char>, i: int)
    requires
        is_first_marker(s, i),
    ensures
        first_marker(s) == i,
{
    let k = first_marker(s);
    assert(is_first_marker(s, k));
    if k < i {
        assert(s[k] != '@');
    } else if i < k {
        assert(s[i] != '@');
    }
}

/// Whether `s` ends with `.socket`.
pub fn has_socket_suffix(s: &str) -> (r: bool)
    ensures
        r == ends_with_socket_suffix(s@),
{
    let n = s.unicode_len();
    if n < 7 {
        return false;
    }
    let r = s.get_char(n - 7) == '.' && s.get_char(n - 6) == 's' && s.get_char(n - 5) == 'o'
        && s.get_char(n - 4) == 'c' && s.get_char(n - 3) == 'k' && s.get_char(n - 2) == 'e'
        && s.get_char(n - 1) == 't';
    proof {
        let tail = s@.subrange(s@.len() - 7, s@.len() as int);
        if r {
            assert(tail =~= socket_suffix());
        } else if tail == socket_suffix() {
            assert(s@[s@.len() - 7] == tail[0]);
            assert(s@[s@.len() - 6] == tail[1]);
            assert(s@[s@.len() - 5] == tail[2]);
            assert(s@[s@.len() - 4] == tail[3]);
            assert(s@[s@.len() - 3] == tail[4]);
            assert(s@[s@.len() - 2] == tail[5]);
            assert(s@[s@.len() - 1] == tail[6]);
            assert(false);
        }
    }
    r
}

/// Strip every trailing `.socket` suffix from a unit name.
pub fn strip_socket_suffixes(s: &str) -> (r: String)
    ensures
        r@ == stripped_name(s@),
{
    let mut t: String = s.to_owned();
    while has_socket_suffix(t.as_str())
        invariant
            stripped_name(t@) == stripped_name(s@),
        decreases t@.len(),
    {
        let n = t.as_str().unicode_len();
        t = t.as_str().substring_char(0, n - 7).to_owned();
    }
    t
}

/// Split a name at its first `@` into the part before and the part after.
///
/// Returns `None` exactly when the name holds no `@` at all.
pub fn split_at_marker(s: &str) -> (r: Option<(String, String)>)
    ensures
        r is None <==> marker_free(s@),
        r matches Some(parts) ==> {
            &&& is_first_marker(s@, parts.0@.len() as int)
            &&& parts.0@ == s@.take(first_marker(s@))
            &&& parts.1@ == s@.skip(first_marker(s@) + 1)
        },
{
    let n = s.unicode_len();
    let mut i: usize = 0;
    while i < n
        invariant
            i <= n,
            n == s@.len(),
            forall|j: int| 0 <= j < i ==> s@[j] != '@',
        decreases n - i,
    {
        if s.get_char(i) == '@' {
            let before = s.substring_char(0, i).to_owned();
            let after = s.substring_char(i + 1, n).to_owned();
            proof {
                lemma_first_marker(s@, i as int);
                assert(before@ =~= s@.take(i as int));
                assert(after@ =~= s@.skip(i as int + 1));
            }
            return Some((before, after));
        }
        i += 1;
    }
    None
}

} // verus!
