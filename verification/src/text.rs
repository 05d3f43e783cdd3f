//! Plain string machinery: prefix and substring tests over character
//! sequences, case folding, and the path component of a folder URI.

use vstd::prelude::*;

verus! {

/// `p` is an initial segment of `s`.
pub open spec fn has_prefix(s: Seq<char>, p: Seq<char>) -> bool {
    p.len() <= s.len() && s.subrange(0, p.len() as int) == p
}

/// `n` occurs contiguously somewhere inside `h`.
pub open spec fn has_substring(h: Seq<char>, n: Seq<char>) -> bool {
    exists|i: int| 0 <= i && i + n.len() <= h.len() && #[trigger] h.subrange(i, i + n.len()) == n
}

/// Whether `p` is a prefix of `s`, by characters.
pub fn str_has_prefix(s: &str, p: &str) -> (r: bool)
    ensures
        r == has_prefix(s@, p@),
{
    let s_len = s.unicode_len();
    let p_len = p.unicode_len();
    if p_len > s_len {
        proof {
            assert(!has_prefix(s@, p@));
        }
        return false;
    }
    let mut j: usize = 0;
    while j < p_len
        invariant
            p_len == p@.len(),
            p_len <= s_len == s@.len(),
            0 <= j <= p_len,
            forall|k: int| 0 <= k < j ==> s@[k] == p@[k],
        decreases p_len - j,
    {
        if s.get_char(j) != p.get_char(j) {
            proof {
                assert(s@.subrange(0, p@.len() as int)[j as int] != p@[j as int]);
            }
            return false;
        }
        j += 1;
    }
    proof {
        assert(s@.subrange(0, p@.len() as int) =~= p@);
    }
    true
}

/// Whether the characters of `n` occur as a contiguous run inside `h`.
pub fn contains_sub(h: &str, n: &str) -> (r: bool)
    ensures
        r == has_substring(h@, n@),
{
    let h_len = h.unicode_len();
    let n_len = n.unicode_len();
    if n_len > h_len {
        proof {
            assert(!has_substring(h@, n@));
        }
        return false;
    }
    if n_len == 0 {
        proof {
            lemma_empty_substring(h@, n@);
        }
        return true;
    }
    let mut i: usize = 0;
    while i <= h_len - n_len
        invariant
            h_len == h@.len(),
            n_len == n@.len(),
            0 < n_len <= h_len,
            0 <= i <= h_len - n_len + 1,
            forall|k: int| 0 <= k < i ==> #[trigger] h@.subrange(k, k + n@.len()) != n@,
        decreases h_len + 1 - n_len - i,
    {
        if match_at(h, n, i) {
            proof {
                assert(has_substring(h@, n@));
            }
            return true;
        }
        i += 1;
    }
    proof {
        assert forall|k: int| 0 <= k && k + n@.len() <= h@.len() implies #[trigger] h@.subrange(
            k,
            k + n@.len(),
        ) != n@ by {
            assert(k < i);
        }
    }
    false
}

/// Whether `n` occurs in `h` starting at character position `i`.
fn match_at(h: &str, n: &str, i: usize) -> (r: bool)
    requires
        i + n@.len() <= h@.len(),
        h@.len() <= usize::MAX as int,
    ensures
        r == (h@.subrange(i as int, i + n@.len()) == n@),
{
    let n_len = n.unicode_len();
    let mut j: usize = 0;
    while j < n_len
        invariant
            n_len == n@.len(),
            i + n_len <= h@.len(),
            h@.len() <= usize::MAX as int,
            0 <= j <= n_len,
            forall|k: int| 0 <= k < j ==> h@[i + k] == n@[k],
        decreases n_len - j,
    {
        if h.get_char(i + j) != n.get_char(j) {
            proof {
                assert(h@.subrange(i as int, i + n@.len())[j as int] != n@[j as int]);
            }
            return false;
        }
        j += 1;
    }
    proof {
        assert(h@.subrange(i as int, i + n@.len()) =~= n@);
    }
    true
}

/// What `str::to_lowercase` returns: a function of the characters alone.
pub uninterp spec fn lower_of(s: Seq<char>) -> Seq<char>;

/// Relies on `str::to_lowercase`: the result depends on the characters alone,
/// and an empty string stays empty.
#[verifier::external_body]
pub(crate) fn lowercase(s: &str) -> (r: String)
    ensures
        r@ == lower_of(s@),
        s@.len() == 0 ==> r@.len() == 0,
{
    s.to_lowercase()
}

/// What the `path` field of `urlparse::urlparse` holds: the hierarchical path
/// component of the URI, a function of the URI's characters alone.
pub uninterp spec fn uri_path_of(s: Seq<char>) -> Seq<char>;

/// Relies on `urlparse::urlparse` (`Url::parse`): splits a URI into its
/// components and returns them in a struct of plain strings; only the
/// hierarchical path component is kept here.
#[verifier::external_body]
pub(crate) fn uri_path(uri: &str) -> (r: String)
    ensures
        r@ == uri_path_of(uri@),
{
    urlparse::urlparse(uri).path
}

/// The part of `s` after its last `/`; the whole of `s` when it has none.
pub open spec fn spec_last_segment(s: Seq<char>) -> Seq<char>
    decreases s.len(),
{
    if s.len() == 0 {
        s
    } else if s.last() == '/' {
        Seq::empty()
    } else {
        spec_last_segment(s.drop_last()).push(s.last())
    }
}

/// The final path segment, used as an entry's primary label: what follows
/// the last `/`, or `None` when that is empty.
pub fn last_segment(path: &str) -> (r: Option<String>)
    ensures
        match r {
            Some(t) => t@ == spec_last_segment(path@) && t@.len() > 0,
            None => spec_last_segment(path@).len() == 0,
        },
{
    let len = path.unicode_len();
    let mut start: usize = len;
    proof {
        assert(path@.subrange(0, len as int) =~= path@);
        assert(spec_last_segment(path@) + path@.subrange(len as int, len as int)
            =~= spec_last_segment(path@));
    }
    while start > 0 && path.get_char(start - 1) != '/'
        invariant
            len == path@.len(),
            0 <= start <= len,
            spec_last_segment(path@) == spec_last_segment(path@.subrange(0, start as int))
                + path@.subrange(start as int, len as int),
        decreases start,
    {
        proof {
            let s = path@.subrange(0, start as int);
            assert(s.last() == path@[start - 1]);
            assert(s.drop_last() =~= path@.subrange(0, start - 1));
            assert(spec_last_segment(s) == spec_last_segment(s.drop_last()).push(s.last()));
            assert(spec_last_segment(s.drop_last()).push(s.last()) + path@.subrange(
                start as int,
                len as int,
            ) =~= spec_last_segment(s.drop_last()) + path@.subrange(start - 1, len as int));
        }
        start -= 1;
    }
    proof {
        if start > 0 {
            assert(path@.subrange(0, start as int).last() == '/');
            assert(spec_last_segment(path@.subrange(0, start as int)) =~= Seq::<char>::empty());
        } else {
            assert(path@.subrange(0, 0) =~= Seq::<char>::empty());
        }
        assert(spec_last_segment(path@) =~= path@.subrange(start as int, len as int));
    }
    if start == len {
        None
    } else {
        let tail = path.substring_char(start, len);
        Some(tail.to_owned())
    }
}

/// The empty needle occurs in every string.
pub proof fn lemma_empty_substring(h: Seq<char>, n: Seq<char>)
    requires
        n.len() == 0,
    ensures
        has_substring(h, n),
{
    assert(0 + n.len() <= h.len());
    assert(h.subrange(0, 0 + n.len() as int) =~= n);
}

} // verus!
