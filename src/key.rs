//! Cache keys: a URL with its fragment removed.
use vstd::prelude::*;

verus! {

/// The position of the first `#` in `s`, which starts the fragment of a
/// serialized URL; `s.len()` when there is none.
pub open spec fn fragment_start(s: Seq<char>) -> int
    decreases s.len(),
{
    if s.len() == 0 {
        0
    } else if s[0] == '#' {
        0
    } else {
        1 + fragment_start(s.drop_first())
    }
}

/// The key under which a URL is cached: its text up to, not including, the
/// first `#`.
pub open spec fn key_of(url: Seq<char>) -> Seq<char> {
    url.subrange(0, fragment_start(url))
}

/// `fragment_start` lies within the text, and no `#` comes before it.
pub proof fn lemma_fragment_start(s: Seq<char>)
    ensures
        0 <= fragment_start(s) <= s.len(),
        fragment_start(s) < s.len() ==> s[fragment_start(s)] == '#',
        forall|i: int| 0 <= i < fragment_start(s) ==> s[i] != '#',
    decreases s.len(),
{
    if s.len() > 0 && s[0] != '#' {
        lemma_fragment_start(s.drop_first());
        assert forall|i: int| 0 <= i < fragment_start(s) implies s[i] != '#' by {
            if i > 0 {
                assert(s[i] == s.drop_first()[i - 1]);
            }
        }
    }
}

/// A text without `#` starts no fragment, and text appended behind a `#` does
/// not move the start of the fragment.
pub proof fn lemma_fragment_start_of_join(u: Seq<char>, rest: Seq<char>)
    requires
        !u.contains('#'),
    ensures
        fragment_start(u) == u.len(),
        fragment_start(u + seq!['#'] + rest) == u.len(),
    decreases u.len(),
{
    if u.len() > 0 {
        assert(u[0] != '#') by {
            assert(u.contains(u[0]) || u[0] != '#');
        }
        let t = u.drop_first();
        assert(!t.contains('#')) by {
            if t.contains('#') {
                let j = choose|j: int| 0 <= j < t.len() && t[j] == '#';
                assert(u[j + 1] == '#');
            }
        }
        lemma_fragment_start_of_join(t, rest);
        assert((u + seq!['#'] + rest).drop_first() =~= t + seq!['#'] + rest);
    } else {
        assert(u + seq!['#'] + rest =~= seq!['#'] + rest);
    }
}

/// A URL and the same URL with any fragment attached share one key, so they
/// read and write the same stored record.
pub proof fn lemma_fragment_equivalence(u: Seq<char>, f1: Seq<char>, f2: Seq<char>)
    requires
        !u.contains('#'),
    ensures
        key_of(u + seq!['#'] + f1) == key_of(u),
        key_of(u + seq!['#'] + f2) == key_of(u),
        key_of(u) == u,
{
    lemma_fragment_start_of_join(u, f1);
    lemma_fragment_start_of_join(u, f2);
    assert((u + seq!['#'] + f1).subrange(0, u.len() as int) =~= u);
    assert((u + seq!['#'] + f2).subrange(0, u.len() as int) =~= u);
    assert(u.subrange(0, u.len() as int) =~= u);
}

/// Taking the key of a key changes nothing.
pub proof fn lemma_key_idempotent(url: Seq<char>)
    ensures
        key_of(key_of(url)) == key_of(url),
{
    lemma_fragment_start(url);
    let k = key_of(url);
    assert(!k.contains('#')) by {
        if k.contains('#') {
            let j = choose|j: int| 0 <= j < k.len() && k[j] == '#';
            assert(url[j] == '#');
        }
    }
    lemma_fragment_start_of_join(k, seq![]);
    assert(k.subrange(0, k.len() as int) =~= k);
}

/// Returns the cache key of `url`: the URL without its fragment.
pub fn cache_key(url: &str) -> (r: String)
    ensures
        r@ == key_of(url@),
{
    proof {
        lemma_fragment_start(url@);
    }
    let n = url.unicode_len();
    let mut i: usize = 0;
    while i < n
        invariant
            n == url@.len(),
            0 <= i <= n,
            forall|j: int| 0 <= j < i ==> url@[j] != '#',
            i <= fragment_start(url@) <= n,
            fragment_start(url@) < n ==> url@[fragment_start(url@)] == '#',
        ensures
            i <= fragment_start(url@) <= n,
            i < n ==> url@[i as int] == '#',
        decreases n - i,
    {
        if url.get_char(i) == '#' {
            break;
        }
        i = i + 1;
    }
    proof {
        lemma_fragment_start(url@);
        if i < fragment_start(url@) {
            assert(url@[i as int] != '#');
        }
    }
    url.substring_char(0, i).to_owned()
}

} // verus!
