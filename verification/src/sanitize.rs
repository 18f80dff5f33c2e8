//! Scrubbing of upstream error text. Full URLs inside a transport error may
//! carry credentials in their path or query, so every `https://` or
//! `http://` URL is cut down to its authority (host and optional port)
//! before the text reaches the caller.

use vstd::prelude::*;
use vstd::string::StrSliceExecFns;
use vstd::string::StringExecFns;

verus! {

/// The characters of the `https://` marker.
pub open spec fn https_marker() -> Seq<char> {
    seq!['h', 't', 't', 'p', 's', ':', '/', '/']
}

/// The characters of the `http://` marker.
pub open spec fn http_marker() -> Seq<char> {
    seq!['h', 't', 't', 'p', ':', '/', '/']
}

/// `pat` occurs in `s` at position `i`.
pub open spec fn occurs_at(s: Seq<char>, pat: Seq<char>, i: int) -> bool {
    &&& 0 <= i
    &&& i + pat.len() <= s.len()
    &&& s.subrange(i, i + pat.len()) == pat
}

/// Position of the first occurrence of `pat` in `s` at or after `from`.
pub open spec fn find_from(s: Seq<char>, pat: Seq<char>, from: int) -> Option<int>
    decreases s.len() - from,
{
    if from < 0 || from + pat.len() > s.len() || pat.len() == 0 {
        None
    } else if occurs_at(s, pat, from) {
        Some(from)
    } else {
        find_from(s, pat, from + 1)
    }
}

/// Position of the first occurrence of `pat` in `s`.
pub open spec fn find_first(s: Seq<char>, pat: Seq<char>) -> Option<int> {
    find_from(s, pat, 0)
}

/// A character that ends the authority (host and optional port) of a URL.
pub open spec fn is_break_char(c: char) -> bool {
    c == '/' || c == '?' || c == '#' || c == ' '
}

/// First index at or after `from` holding a space, or `s.len()`: where the
/// URL span itself ends, since a URL carries no spaces.
pub open spec fn space_from(s: Seq<char>, from: int) -> int
    decreases s.len() - from,
{
    if from < 0 || from >= s.len() {
        s.len() as int
    } else if s[from] == ' ' {
        from
    } else {
        space_from(s, from + 1)
    }
}

proof fn lemma_space_from_bounds(s: Seq<char>, from: int)
    requires
        0 <= from <= s.len(),
    ensures
        from <= space_from(s, from) <= s.len(),
        space_from(s, from) < s.len() ==> s[space_from(s, from)] == ' ',
    decreases s.len() - from,
{
    if from < s.len() && s[from] != ' ' {
        lemma_space_from_bounds(s, from + 1);
    }
}

/// First index at or after `from` holding a break character, or `s.len()`.
pub open spec fn break_from(s: Seq<char>, from: int) -> int
    decreases s.len() - from,
{
    if from < 0 || from >= s.len() {
        s.len() as int
    } else if is_break_char(s[from]) {
        from
    } else {
        break_from(s, from + 1)
    }
}

proof fn lemma_break_from_bounds(s: Seq<char>, from: int)
    requires
        0 <= from <= s.len(),
    ensures
        from <= break_from(s, from) <= s.len(),
        forall|j: int| from <= j < break_from(s, from) ==> !is_break_char(s[j]),
    decreases s.len() - from,
{
    if from < s.len() && !is_break_char(s[from]) {
        lemma_break_from_bounds(s, from + 1);
    }
}

proof fn lemma_find_from_some(s: Seq<char>, pat: Seq<char>, from: int)
    requires
        0 <= from,
        find_from(s, pat, from) is Some,
    ensures
        from <= find_from(s, pat, from)->0,
        occurs_at(s, pat, find_from(s, pat, from)->0),
    decreases s.len() - from,
{
    if from + pat.len() <= s.len() && pat.len() >= 1 && !occurs_at(s, pat, from) {
        lemma_find_from_some(s, pat, from + 1);
    }
}

proof fn lemma_find_from_none(s: Seq<char>, pat: Seq<char>, from: int)
    requires
        0 <= from,
        pat.len() >= 1,
        find_from(s, pat, from) is None,
    ensures
        forall|i: int| from <= i ==> !occurs_at(s, pat, i),
    decreases s.len() + 1 - from,
{
    if from + pat.len() > s.len() || pat.len() == 0 {
    } else {
        lemma_find_from_none(s, pat, from + 1);
    }
}

/// One rewrite step: the occurrence of `pat` at `start` and the URL span
/// behind it — through path, query and fragment, up to the next space or
/// the end — is replaced by the authority alone.
pub open spec fn scrub_once(s: Seq<char>, pat: Seq<char>, start: int) -> Seq<char> {
    let after = start + pat.len();
    let host_end = break_from(s, after);
    let url_end = space_from(s, host_end);
    s.subrange(0, start) + s.subrange(after, host_end) + s.subrange(url_end, s.len() as int)
}

/// Repeated rewriting of the earliest `pat` occurrence until none is left.
pub open spec fn scrub_scheme(s: Seq<char>, pat: Seq<char>) -> Seq<char>
    decreases s.len(),
    when pat.len() >= 1
    via scrub_scheme_dec
{
    match find_first(s, pat) {
        Option::None => s,
        Option::Some(start) => scrub_scheme(scrub_once(s, pat, start), pat),
    }
}

proof fn lemma_scrub_once_len(s: Seq<char>, pat: Seq<char>, start: int)
    requires
        occurs_at(s, pat, start),
    ensures
        scrub_once(s, pat, start).len() <= s.len() - pat.len(),
{
    let after = start + pat.len() as int;
    lemma_break_from_bounds(s, after);
    lemma_space_from_bounds(s, break_from(s, after));
}

#[via_fn]
proof fn scrub_scheme_dec(s: Seq<char>, pat: Seq<char>) {
    match find_first(s, pat) {
        Option::None => {},
        Option::Some(start) => {
            lemma_find_from_some(s, pat, 0);
            lemma_scrub_once_len(s, pat, start);
        },
    }
}

/// Both markers scrubbed, the longer first, exactly as the sanitizer
/// applies them.
pub open spec fn scrub_message(s: Seq<char>) -> Seq<char> {
    scrub_scheme(scrub_scheme(s, https_marker()), http_marker())
}

/// Neither marker occurs: the shape of text that carries no full URL.
pub open spec fn is_scrubbed(s: Seq<char>) -> bool {
    &&& find_first(s, https_marker()) is None
    &&& find_first(s, http_marker()) is None
}

/// Scrubbing text in which neither marker occurs changes nothing; hence
/// applying the transform twice to an already-scrubbed message yields the
/// same message.
pub proof fn lemma_scrub_idempotent_on_scrubbed(s: Seq<char>)
    requires
        is_scrubbed(s),
    ensures
        scrub_message(s) == s,
        scrub_message(scrub_message(s)) == scrub_message(s),
{
}

/// One rewrite step cannot manufacture an `https://` occurrence: the
/// marker's two slashes cannot come from the kept authority (which holds no
/// `/`), nor straddle into the kept tail (which starts with a space).
proof fn lemma_scrub_once_preserves_absence(t: Seq<char>, pat: Seq<char>, start: int)
    requires
        occurs_at(t, pat, start),
        forall|i: int| !occurs_at(t, https_marker(), i),
    ensures
        forall|i: int| !occurs_at(scrub_once(t, pat, start), https_marker(), i),
{
    let after = start + pat.len() as int;
    let host_end = break_from(t, after);
    let url_end = space_from(t, host_end);
    lemma_break_from_bounds(t, after);
    lemma_space_from_bounds(t, host_end);
    let res = scrub_once(t, pat, start);
    let al = start;
    let hl = host_end - after;
    let rl = t.len() - url_end;
    assert(res.len() == al + hl + rl);
    assert forall|j: int| 0 <= j < al implies res[j] == t[j] by {}
    assert forall|j: int| al <= j < al + hl implies res[j] == t[j - al + after] by {}
    assert forall|j: int| al + hl <= j < al + hl + rl implies res[j] == t[j - al - hl + url_end]
        by {}
    assert forall|i: int| !occurs_at(res, https_marker(), i) by {
        if occurs_at(res, https_marker(), i) {
            assert forall|k: int| 0 <= k < 8 implies res[i + k] == https_marker()[k] by {
                assert(res.subrange(i, i + 8)[k] == res[i + k]);
            }
            if i + 8 <= al {
                assert(t.subrange(i, i + 8) =~= https_marker());
                assert(occurs_at(t, https_marker(), i));
            } else if i >= al + hl {
                let i2 = i - al - hl + url_end;
                assert forall|k: int| 0 <= k < 8 implies t[i2 + k] == https_marker()[k] by {
                    assert(res[i + k] == t[(i + k) - al - hl + url_end]);
                }
                assert(t.subrange(i2, i2 + 8) =~= https_marker());
                assert(occurs_at(t, https_marker(), i2));
            } else if i + 6 >= al + hl {
                // The marker spans the seam into the kept tail, whose first
                // character is a space; the marker holds none.
                if rl > 0 {
                    let k = al + hl - i;
                    assert(0 <= k < 8);
                    assert(res[al + hl] == t[(al + hl) - al - hl + url_end]);
                    assert(t[url_end] == ' ');
                    assert(res[i + k] == https_marker()[k]);
                    assert(https_marker()[k] != ' ');
                } else {
                    assert(i + 8 <= res.len());
                }
            } else if i + 6 >= al {
                // The marker's first slash would sit inside the kept
                // authority, which holds no break character.
                assert(res[i + 6] == t[(i + 6) - al + after]);
                assert(!is_break_char(t[(i + 6) - al + after]));
                assert(res[i + 6] == https_marker()[6]);
            } else {
                // i + 6 < al and i + 8 > al force i + 7 == al: the marker's
                // last slash sits exactly on the seam.
                assert(i + 7 == al);
                if hl > 0 {
                    assert(res[al] == t[al - al + after]);
                    assert(!is_break_char(t[after]));
                    assert(res[i + 7] == https_marker()[7]);
                } else if rl > 0 {
                    assert(res[al + hl] == t[(al + hl) - al - hl + url_end]);
                    assert(t[url_end] == ' ');
                    assert(res[i + 7] == https_marker()[7]);
                } else {
                    assert(i + 8 <= res.len());
                }
            }
            assert(false);
        }
    }
}

/// A whole pass for `pat` cannot manufacture an `https://` occurrence
/// either: absence of the marker survives every rewrite step.
proof fn lemma_scrub_scheme_preserves_absence(t: Seq<char>, pat: Seq<char>)
    requires
        pat.len() >= 1,
        forall|i: int| !occurs_at(t, https_marker(), i),
    ensures
        forall|i: int| !occurs_at(scrub_scheme(t, pat), https_marker(), i),
    decreases t.len(),
{
    match find_first(t, pat) {
        Option::None => {},
        Option::Some(start) => {
            lemma_find_from_some(t, pat, 0);
            lemma_scrub_once_len(t, pat, start);
            lemma_scrub_once_preserves_absence(t, pat, start);
            lemma_scrub_scheme_preserves_absence(scrub_once(t, pat, start), pat);
            assert(scrub_scheme(t, pat) == scrub_scheme(scrub_once(t, pat, start), pat));
            assert forall|i: int| !occurs_at(scrub_scheme(t, pat), https_marker(), i) by {
                assert(!occurs_at(scrub_scheme(scrub_once(t, pat, start), pat), https_marker(), i));
            }
        },
    }
}

/// The sanitizer's output is always already scrubbed — neither marker
/// occurs in it — so applying the transform twice always yields what one
/// application yields.
pub proof fn lemma_scrub_message_idempotent(s: Seq<char>)
    ensures
        is_scrubbed(scrub_message(s)),
        scrub_message(scrub_message(s)) == scrub_message(s),
{
    let u = scrub_scheme(s, https_marker());
    let m = scrub_scheme(u, http_marker());
    lemma_scrub_scheme_complete(s, https_marker());
    lemma_find_from_none(u, https_marker(), 0);
    lemma_scrub_scheme_preserves_absence(u, http_marker());
    if find_first(m, https_marker()) is Some {
        lemma_find_from_some(m, https_marker(), 0);
        assert(false);
    }
    lemma_scrub_scheme_complete(u, http_marker());
    lemma_scrub_idempotent_on_scrubbed(m);
}

/// A full pass for `pat` removes every occurrence of `pat`: none is left in
/// the result. In particular the sanitizer's output never holds `http://`.
pub proof fn lemma_scrub_scheme_complete(s: Seq<char>, pat: Seq<char>)
    requires
        pat.len() >= 1,
    ensures
        find_first(scrub_scheme(s, pat), pat) is None,
    decreases s.len(),
{
    match find_first(s, pat) {
        Option::None => {},
        Option::Some(start) => {
            lemma_find_from_some(s, pat, 0);
            lemma_scrub_once_len(s, pat, start);
            lemma_scrub_scheme_complete(scrub_once(s, pat, start), pat);
        },
    }
}

fn match_at(s: &str, pat: &str, i: usize, slen: usize, plen: usize) -> (r: bool)
    requires
        slen == s@.len(),
        plen == pat@.len(),
        i + plen <= slen,
    ensures
        r == occurs_at(s@, pat@, i as int),
{
    let mut j: usize = 0;
    while j < plen
        invariant
            slen == s@.len(),
            plen == pat@.len(),
            i + plen <= slen,
            j <= plen,
            forall|k: int| 0 <= k < j ==> s@[i + k] == pat@[k],
        decreases plen - j,
    {
        if s.get_char(i + j) != pat.get_char(j) {
            proof {
                assert(s@.subrange(i as int, i + plen)[j as int] == s@[i + j]);
                assert(s@.subrange(i as int, i + plen) != pat@);
            }
            return false;
        }
        j += 1;
    }
    proof {
        assert(s@.subrange(i as int, i + plen) =~= pat@);
    }
    true
}

fn find_sub(s: &str, pat: &str) -> (r: Option<usize>)
    requires
        pat@.len() >= 1,
    ensures
        match r {
            Some(i) => find_first(s@, pat@) == Some(i as int),
            None => find_first(s@, pat@) is None,
        },
{
    let slen = s.unicode_len();
    let plen = pat.unicode_len();
    if plen > slen {
        return None;
    }
    let mut i: usize = 0;
    while i <= slen - plen
        invariant
            slen == s@.len(),
            plen == pat@.len(),
            plen >= 1,
            plen <= slen,
            i <= slen,
            find_first(s@, pat@) == find_from(s@, pat@, i as int),
        decreases slen - i,
    {
        if match_at(s, pat, i, slen, plen) {
            return Some(i);
        }
        i += 1;
    }
    None
}

fn space_scan(s: &str, from: usize) -> (r: usize)
    requires
        from <= s@.len(),
    ensures
        r as int == space_from(s@, from as int),
        from <= r <= s@.len(),
{
    let slen = s.unicode_len();
    let mut i: usize = from;
    while i < slen
        invariant
            slen == s@.len(),
            from <= i <= slen,
            space_from(s@, from as int) == space_from(s@, i as int),
        decreases slen - i,
    {
        if s.get_char(i) == ' ' {
            return i;
        }
        i += 1;
    }
    slen
}

fn break_scan(s: &str, from: usize) -> (r: usize)
    requires
        from <= s@.len(),
    ensures
        r as int == break_from(s@, from as int),
        from <= r <= s@.len(),
{
    let slen = s.unicode_len();
    let mut i: usize = from;
    while i < slen
        invariant
            slen == s@.len(),
            from <= i <= slen,
            break_from(s@, from as int) == break_from(s@, i as int),
        decreases slen - i,
    {
        let c = s.get_char(i);
        if c == '/' || c == '?' || c == '#' || c == ' ' {
            return i;
        }
        i += 1;
    }
    slen
}

fn scrub_scheme_exec(s: &str, pat: &str) -> (r: String)
    requires
        pat@.len() >= 1,
    ensures
        r@ == scrub_scheme(s@, pat@),
{
    let mut cur: String = s.to_owned();
    loop
        invariant
            pat@.len() >= 1,
            scrub_scheme(cur@, pat@) == scrub_scheme(s@, pat@),
        decreases cur@.len(),
    {
        match find_sub(cur.as_str(), pat) {
            None => {
                return cur;
            },
            Some(start) => {
                let plen = pat.unicode_len();
                let cur_len = cur.as_str().unicode_len();
                proof {
                    lemma_find_from_some(cur@, pat@, 0);
                    lemma_scrub_once_len(cur@, pat@, start as int);
                }
                let after = start + plen;
                let host_end = break_scan(cur.as_str(), after);
                let url_end = space_scan(cur.as_str(), host_end);
                let mut next: String = cur.as_str().substring_char(0, start).to_owned();
                next.append(cur.as_str().substring_char(after, host_end));
                next.append(cur.as_str().substring_char(url_end, cur_len));
                proof {
                    assert(next@ =~= scrub_once(cur@, pat@, start as int));
                }
                cur = next;
            },
        }
    }
}

/// Strips full URLs out of an upstream error message: each `https://` or
/// `http://` span — through path, query and fragment, up to the next space
/// or the end of the text — is replaced by its authority alone, the
/// authority ending at the first `/`, `?`, `#` or space. Path, query and
/// fragment data — where credentials and object identifiers typically live
/// — are removed, while the host is kept for diagnosis.
pub fn sanitize_upstream_error(msg: &str) -> (r: String)
    ensures
        r@ == scrub_message(msg@),
{
    proof {
        reveal_strlit("https://");
        reveal_strlit("http://");
        assert("https://"@ =~= https_marker());
        assert("http://"@ =~= http_marker());
    }
    let pass1 = scrub_scheme_exec(msg, "https://");
    let pass2 = scrub_scheme_exec(pass1.as_str(), "http://");
    pass2
}

} // verus!
