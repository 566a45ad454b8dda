//! Canonical URLs: no run of two or more slashes, and a leading slash.
use vstd::prelude::*;

verus! {

/// `s` holds two consecutive slashes somewhere.
pub open spec fn has_double_slash(s: Seq<char>) -> bool {
    exists|i: int| 0 <= i < s.len() - 1 && #[trigger] s[i] == '/' && s[i + 1] == '/'
}

/// `s` begins with a slash.
pub open spec fn starts_with_slash(s: Seq<char>) -> bool {
    s.len() > 0 && s[0] == '/'
}

/// `s` ends with a slash.
pub open spec fn ends_with_slash(s: Seq<char>) -> bool {
    s.len() > 0 && s.last() == '/'
}

/// Every run of slashes in `s` replaced by a single slash.
pub open spec fn collapse_slashes(s: Seq<char>) -> Seq<char>
    decreases s.len(),
{
    if s.len() <= 1 {
        s
    } else if s[0] == '/' && s[1] == '/' {
        collapse_slashes(s.drop_first())
    } else {
        seq![s[0]] + collapse_slashes(s.drop_first())
    }
}

/// One left-to-right pass that replaces each non-overlapping `"//"` by `"/"`.
pub open spec fn replace_double_slash_once(s: Seq<char>) -> Seq<char>
    decreases s.len(),
{
    if s.len() >= 2 && s[0] == '/' && s[1] == '/' {
        seq!['/'] + replace_double_slash_once(s.skip(2))
    } else if s.len() == 0 {
        s
    } else {
        seq![s[0]] + replace_double_slash_once(s.drop_first())
    }
}

/// The canonical form of a URL path.
pub open spec fn spec_c14n_url(s: Seq<char>) -> Seq<char> {
    let c = collapse_slashes(s);
    if starts_with_slash(c) {
        c
    } else {
        seq!['/'] + c
    }
}

/// A URL that canonicalisation leaves alone.
pub open spec fn is_canonical_url(s: Seq<char>) -> bool {
    starts_with_slash(s) && !has_double_slash(s)
}

/// Characters that mark the last path segment as a file, a query or a fragment.
pub open spec fn is_url_special(c: char) -> bool {
    c == '.' || c == '?' || c == '#'
}

/// The text after the final slash of `s` (all of `s` when it holds no slash).
pub open spec fn last_segment(s: Seq<char>) -> Seq<char>
    decreases s.len(),
{
    if s.len() == 0 {
        s
    } else if s.last() == '/' {
        Seq::empty()
    } else {
        last_segment(s.drop_last()).push(s.last())
    }
}

/// A URL to which a trailing slash may be added: it does not end with a slash
/// and its last segment holds no `.`, `?` or `#`.
pub open spec fn spec_can_be_slashed(s: Seq<char>) -> bool {
    &&& !ends_with_slash(s)
    &&& forall|i: int| 0 <= i < last_segment(s).len() ==> !is_url_special(#[trigger] last_segment(s)[i])
}

/// The canonical form of a URL, with a trailing slash where one may be added.
pub open spec fn spec_c14n_url_w_slash(s: Seq<char>) -> Seq<char> {
    let c = spec_c14n_url(s);
    if spec_can_be_slashed(c) {
        c.push('/')
    } else {
        c
    }
}


/// One pass never lengthens a URL, and shortens it while a double slash remains.
proof fn lemma_replace_once_len(s: Seq<char>)
    ensures
        replace_double_slash_once(s).len() <= s.len(),
        has_double_slash(s) ==> replace_double_slash_once(s).len() < s.len(),
    decreases s.len(),
{
    if s.len() >= 2 && s[0] == '/' && s[1] == '/' {
        lemma_replace_once_len(s.skip(2));
    } else if s.len() == 0 {
    } else {
        let d = s.drop_first();
        lemma_replace_once_len(d);
        if has_double_slash(s) {
            let i = choose|i: int| 0 <= i < s.len() - 1 && #[trigger] s[i] == '/' && s[i + 1] == '/';
            assert(i >= 1);
            assert(d[i - 1] == '/' && d[i] == '/');
            assert(has_double_slash(d));
        }
    }
}

/// One pass leaves the collapsed form unchanged, also behind any leading character.
proof fn lemma_replace_once_collapse(t: Seq<char>, c: char)
    ensures
        collapse_slashes(replace_double_slash_once(t)) == collapse_slashes(t),
        collapse_slashes(seq![c] + replace_double_slash_once(t)) == collapse_slashes(seq![c] + t),
    decreases t.len(),
{
    let r = replace_double_slash_once(t);
    if t.len() >= 2 && t[0] == '/' && t[1] == '/' {
        let t2 = t.skip(2);
        let r2 = replace_double_slash_once(t2);
        lemma_replace_once_collapse(t2, '/');
        assert(r == seq!['/'] + r2);
        // first claim
        assert(t.drop_first() =~= seq!['/'] + t2);
        assert(collapse_slashes(t) == collapse_slashes(t.drop_first()));
        // second claim
        let cr = seq![c] + r;
        let ct = seq![c] + t;
        assert(cr.drop_first() =~= r);
        assert(ct.drop_first() =~= t);
        if c == '/' {
            assert(collapse_slashes(cr) == collapse_slashes(r));
            assert(collapse_slashes(ct) == collapse_slashes(t));
        } else {
            assert(collapse_slashes(cr) == seq![c] + collapse_slashes(r));
            assert(collapse_slashes(ct) == seq![c] + collapse_slashes(t));
        }
    } else if t.len() == 0 {
        assert(r == t);
    } else {
        let x = t[0];
        let t1 = t.drop_first();
        let r1 = replace_double_slash_once(t1);
        lemma_replace_once_collapse(t1, x);
        assert(r == seq![x] + r1);
        assert(t =~= seq![x] + t1);
        // second claim
        let cr = seq![c] + r;
        let ct = seq![c] + t;
        assert(cr.drop_first() =~= r);
        assert(ct.drop_first() =~= t);
        assert(r.len() >= 1 && r[0] == x);
        if r1.len() == 0 {
            assert(r =~= seq![x]);
            lemma_replace_once_len(t1);
        }
        if c == '/' && x == '/' {
            assert(collapse_slashes(cr) == collapse_slashes(r));
            assert(collapse_slashes(ct) == collapse_slashes(t));
        } else {
            assert(collapse_slashes(cr) == seq![c] + collapse_slashes(r));
            assert(collapse_slashes(ct) == seq![c] + collapse_slashes(t));
        }
    }
}

/// A URL without double slashes is its own collapsed form.
proof fn lemma_collapse_fixed(s: Seq<char>)
    requires
        !has_double_slash(s),
    ensures
        collapse_slashes(s) == s,
    decreases s.len(),
{
    if s.len() > 1 {
        let d = s.drop_first();
        if has_double_slash(d) {
            let i = choose|i: int| 0 <= i < d.len() - 1 && #[trigger] d[i] == '/' && d[i + 1] == '/';
            assert(s[i + 1] == '/' && s[i + 2] == '/');
        }
        assert(!(s[0] == '/' && s[1] == '/'));
        lemma_collapse_fixed(d);
        assert(s =~= seq![s[0]] + d);
    }
}

/// The collapsed form holds no double slash, keeps the first character and is no longer.
proof fn lemma_collapse_props(s: Seq<char>)
    ensures
        !has_double_slash(collapse_slashes(s)),
        s.len() > 0 ==> collapse_slashes(s).len() > 0 && collapse_slashes(s)[0] == s[0],
        collapse_slashes(s).len() <= s.len(),
    decreases s.len(),
{
    if s.len() > 1 {
        let d = s.drop_first();
        lemma_collapse_props(d);
        let cd = collapse_slashes(d);
        if !(s[0] == '/' && s[1] == '/') {
            let c = seq![s[0]] + cd;
            assert(collapse_slashes(s) == c);
            if has_double_slash(c) {
                let i = choose|i: int| 0 <= i < c.len() - 1 && #[trigger] c[i] == '/' && c[i + 1] == '/';
                if i == 0 {
                    assert(c[1] == cd[0]);
                    assert(cd[0] == d[0]);
                } else {
                    assert(cd[i - 1] == '/' && cd[i] == '/');
                }
            }
        }
    } else if s.len() == 1 {
        assert(!has_double_slash(s));
    } else {
        assert(!has_double_slash(s));
    }
}

/// Whether `s` holds two consecutive slashes.
fn contains_double_slash(s: &str) -> (b: bool)
    ensures
        b == has_double_slash(s@),
{
    let n = s.unicode_len();
    if n < 2 {
        return false;
    }
    let mut i: usize = 0;
    while i + 1 < n
        invariant
            n == s@.len(),
            n >= 2,
            i + 1 <= n,
            forall|k: int| 0 <= k < i ==> !(#[trigger] s@[k] == '/' && s@[k + 1] == '/'),
        decreases n - i,
    {
        if s.get_char(i) == '/' && s.get_char(i + 1) == '/' {
            return true;
        }
        i = i + 1;
    }
    false
}

/// One pass of replacing each non-overlapping `"//"` by `"/"`.
fn replace_double_slash(s: &str) -> (r: String)
    ensures
        r@ == replace_double_slash_once(s@),
{
    let n = s.unicode_len();
    let mut r = String::new();
    let mut i: usize = 0;
    proof {
        reveal_strlit("/");
        assert(s@.skip(0) =~= s@);
        assert(r@ + replace_double_slash_once(s@) =~= replace_double_slash_once(s@));
    }
    while i < n
        invariant
            n == s@.len(),
            i <= n,
            "/"@ == seq!['/'],
            replace_double_slash_once(s@) == r@ + replace_double_slash_once(s@.skip(i as int)),
        decreases n - i,
    {
        let ghost t = s@.skip(i as int);
        let ghost old_r = r@;
        if i + 1 < n && s.get_char(i) == '/' && s.get_char(i + 1) == '/' {
            r.append("/");
            assert(t.skip(2) =~= s@.skip(i + 2));
            assert(replace_double_slash_once(t) == seq!['/'] + replace_double_slash_once(t.skip(2)));
            assert(r@ + replace_double_slash_once(s@.skip(i + 2)) =~= old_r + replace_double_slash_once(t));
            i = i + 2;
        } else {
            let piece = s.substring_char(i, i + 1);
            r.append(piece);
            assert(t.drop_first() =~= s@.skip(i + 1));
            assert(piece@ =~= seq![t[0]]);
            assert(replace_double_slash_once(t) == seq![t[0]] + replace_double_slash_once(t.drop_first()));
            assert(r@ + replace_double_slash_once(s@.skip(i + 1)) =~= old_r + replace_double_slash_once(t));
            i = i + 1;
        }
    }
    assert(s@.skip(n as int) =~= Seq::<char>::empty());
    assert(r@ + Seq::<char>::empty() =~= r@);
    r
}

/// Canonicalise a URL: collapse every run of slashes into one slash, then make
/// sure the URL starts with a slash.
pub fn c14n_url(url: &str) -> (res: String)
    ensures
        res@ == spec_c14n_url(url@),
{
    let mut cur: String = url.to_owned();
    while contains_double_slash(cur.as_str())
        invariant
            collapse_slashes(cur@) == collapse_slashes(url@),
        decreases cur@.len(),
    {
        let next = replace_double_slash(cur.as_str());
        proof {
            lemma_replace_once_len(cur@);
            lemma_replace_once_collapse(cur@, '/');
        }
        cur = next;
    }
    proof {
        lemma_collapse_fixed(cur@);
        reveal_strlit("/");
    }
    let n = cur.as_str().unicode_len();
    if n == 0 || cur.as_str().get_char(0) != '/' {
        let mut prefixed = String::new();
        prefixed.append("/");
        prefixed.append(cur.as_str());
        assert(prefixed@ =~= seq!['/'] + cur@);
        prefixed
    } else {
        cur
    }
}

/// Whether `c` marks the last path segment as a file, a query or a fragment.
fn is_special_char(c: char) -> (b: bool)
    ensures
        b == is_url_special(c),
{
    c == '.' || c == '?' || c == '#'
}

/// Whether a trailing slash may be added to `url`: it does not end with a slash,
/// and the part after its last slash holds none of `.`, `?` and `#`.
pub fn url_can_be_slashhed(url: &str) -> (b: bool)
    ensures
        b == spec_can_be_slashed(url@),
{
    let n = url.unicode_len();
    if n > 0 && url.get_char(n - 1) == '/' {
        return false;
    }
    let mut i: usize = n;
    assert(url@.take(n as int) =~= url@);
    assert(url@.subrange(n as int, n as int) =~= Seq::<char>::empty());
    assert(last_segment(url@) =~= last_segment(url@.take(n as int)) + url@.subrange(
        n as int,
        n as int,
    ));
    while i > 0
        invariant
            n == url@.len(),
            i <= n,
            !ends_with_slash(url@),
            forall|k: int| i <= k < n ==> url@[k] != '/' && !is_url_special(#[trigger] url@[k]),
            last_segment(url@) == last_segment(url@.take(i as int)) + url@.subrange(i as int, n as int),
        decreases i,
    {
        let c = url.get_char(i - 1);
        let ghost pre = url@.take(i as int);
        let ghost shorter = url@.take(i - 1);
        let ghost rest = url@.subrange(i as int, n as int);
        assert(pre.drop_last() =~= shorter);
        assert(pre.last() == c);
        if c == '/' {
            assert(last_segment(pre) =~= Seq::<char>::empty());
            assert(last_segment(url@) =~= rest);
            assert forall|k: int| 0 <= k < last_segment(url@).len() implies !is_url_special(
                #[trigger] last_segment(url@)[k],
            ) by {
                assert(last_segment(url@)[k] == url@[i + k]);
            }
            return true;
        }
        assert(last_segment(pre) == last_segment(shorter).push(c));
        if is_special_char(c) {
            let ghost at = last_segment(shorter).len() as int;
            assert(last_segment(url@)[at] == c);
            return false;
        }
        assert(url@.subrange(i - 1, n as int) =~= seq![c] + rest);
        assert(last_segment(url@) =~= last_segment(shorter) + url@.subrange(i - 1, n as int));
        i = i - 1;
    }
    let ghost all = url@.subrange(0, n as int);
    assert(url@.take(0) =~= Seq::<char>::empty());
    assert(last_segment(url@.take(0)) =~= Seq::<char>::empty());
    assert(last_segment(url@) =~= all);
    assert forall|k: int| 0 <= k < last_segment(url@).len() implies !is_url_special(
        #[trigger] last_segment(url@)[k],
    ) by {
        assert(last_segment(url@)[k] == url@[k]);
    }
    true
}

/// Canonicalise a URL and add a trailing slash where one may be added.
/// Useful when adding a page.
pub fn c14n_url_w_slash(url: &str) -> (res: String)
    ensures
        res@ == spec_c14n_url_w_slash(url@),
{
    let mut c = c14n_url(url);
    if url_can_be_slashhed(c.as_str()) {
        proof {
            reveal_strlit("/");
        }
        c.append("/");
        assert(c@ =~= spec_c14n_url(url@).push('/'));
    }
    c
}

/// `s` with every slash removed.
pub open spec fn strip_slashes(s: Seq<char>) -> Seq<char>
    decreases s.len(),
{
    if s.len() == 0 {
        s
    } else if s[0] == '/' {
        strip_slashes(s.drop_first())
    } else {
        seq![s[0]] + strip_slashes(s.drop_first())
    }
}

proof fn lemma_strip_concat(a: Seq<char>, b: Seq<char>)
    ensures
        strip_slashes(a + b) == strip_slashes(a) + strip_slashes(b),
    decreases a.len(),
{
    if a.len() == 0 {
        assert(a + b =~= b);
        assert(strip_slashes(a) + strip_slashes(b) =~= strip_slashes(b));
    } else {
        assert((a + b).drop_first() =~= a.drop_first() + b);
        lemma_strip_concat(a.drop_first(), b);
        if a[0] != '/' {
            assert(seq![a[0]] + strip_slashes(a.drop_first() + b) =~= seq![a[0]] + strip_slashes(
                a.drop_first(),
            ) + strip_slashes(b));
        }
    }
}

proof fn lemma_strip_collapse(s: Seq<char>)
    ensures
        strip_slashes(collapse_slashes(s)) == strip_slashes(s),
    decreases s.len(),
{
    if s.len() > 1 {
        let d = s.drop_first();
        lemma_strip_collapse(d);
        if !(s[0] == '/' && s[1] == '/') {
            let c = seq![s[0]] + collapse_slashes(d);
            assert(c.drop_first() =~= collapse_slashes(d));
        }
    }
}

/// Canonicalisation never changes anything but slashes: with the slashes taken
/// out, a URL and its canonical form read the same.
pub proof fn lemma_c14n_url_changes_only_slashes(url: Seq<char>)
    ensures
        strip_slashes(spec_c14n_url(url)) == strip_slashes(url),
        strip_slashes(spec_c14n_url_w_slash(url)) == strip_slashes(url),
{
    lemma_strip_collapse(url);
    let c = collapse_slashes(url);
    lemma_strip_concat(seq!['/'], c);
    assert(seq!['/'].drop_first() =~= Seq::<char>::empty());
    let k = spec_c14n_url(url);
    lemma_strip_concat(k, seq!['/']);
    assert(k.push('/') =~= k + seq!['/']);
    let one = seq!['/'];
    assert(one.len() == 1 && one[0] == '/');
    assert(one.drop_first() =~= Seq::<char>::empty());
    assert(strip_slashes(Seq::<char>::empty()) == Seq::<char>::empty());
    assert(strip_slashes(one) == strip_slashes(one.drop_first()));
    assert(strip_slashes(k) + Seq::<char>::empty() =~= strip_slashes(k));
}

/// The canonical form of any URL is canonical: it starts with a slash and holds
/// no double slash.
pub proof fn lemma_c14n_url_is_canonical(url: Seq<char>)
    ensures
        is_canonical_url(spec_c14n_url(url)),
{
    lemma_collapse_props(url);
    let c = collapse_slashes(url);
    if !starts_with_slash(c) {
        let p = seq!['/'] + c;
        if has_double_slash(p) {
            let i = choose|i: int| 0 <= i < p.len() - 1 && #[trigger] p[i] == '/' && p[i + 1] == '/';
            if i == 0 {
                assert(p[1] == c[0]);
            } else {
                assert(c[i - 1] == '/' && c[i] == '/');
            }
        }
    }
}

/// Canonicalisation leaves a URL unchanged exactly when the URL is canonical.
pub proof fn lemma_c14n_url_fixed_points(url: Seq<char>)
    ensures
        spec_c14n_url(url) == url <==> is_canonical_url(url),
{
    lemma_c14n_url_is_canonical(url);
    if is_canonical_url(url) {
        lemma_collapse_fixed(url);
    }
}

/// Canonicalising twice is the same as canonicalising once.
pub proof fn lemma_c14n_url_idempotent(url: Seq<char>)
    ensures
        spec_c14n_url(spec_c14n_url(url)) == spec_c14n_url(url),
{
    lemma_c14n_url_is_canonical(url);
    lemma_c14n_url_fixed_points(spec_c14n_url(url));
}

/// Adding the trailing slash keeps a URL canonical: the result of
/// [`c14n_url_w_slash`] is canonical, so [`c14n_url`] leaves it unchanged.
pub proof fn lemma_c14n_url_w_slash_is_canonical(url: Seq<char>)
    ensures
        is_canonical_url(spec_c14n_url_w_slash(url)),
        spec_c14n_url(spec_c14n_url_w_slash(url)) == spec_c14n_url_w_slash(url),
{
    lemma_c14n_url_is_canonical(url);
    let c = spec_c14n_url(url);
    let w = spec_c14n_url_w_slash(url);
    if spec_can_be_slashed(c) {
        assert(w == c.push('/'));
        if has_double_slash(w) {
            let i = choose|i: int| 0 <= i < w.len() - 1 && #[trigger] w[i] == '/' && w[i + 1] == '/';
            if i == c.len() - 1 {
                assert(w[i] == c.last());
            } else {
                assert(c[i] == '/' && c[i + 1] == '/');
            }
        }
        assert(w[0] == c[0]);
    }
    lemma_c14n_url_fixed_points(w);
}

/// Applying [`c14n_url_w_slash`] twice is the same as applying it once.
pub proof fn lemma_c14n_url_w_slash_idempotent(url: Seq<char>)
    ensures
        spec_c14n_url_w_slash(spec_c14n_url_w_slash(url)) == spec_c14n_url_w_slash(url),
{
    lemma_c14n_url_w_slash_is_canonical(url);
    let c = spec_c14n_url(url);
    let w = spec_c14n_url_w_slash(url);
    if spec_can_be_slashed(c) {
        assert(w.last() == '/');
        assert(!spec_can_be_slashed(w));
    }
}

} // verus!
