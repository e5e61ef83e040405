//! Header logic: building the session cookie the gateway sets, and
//! reading the session token back out of a `Cookie` request header.

use vstd::prelude::*;

verus! {

/// Name of the session cookie.
pub const AUTH_COOKIE: &'static str = "SHARP_token";

/// The `Set-Cookie` value for a session token: the token under the
/// session cookie's name, hardened with the attributes the cookie
/// always carries, its lifetime equal to the session's maximum age.
pub open spec fn spec_auth_cookie(token: Seq<char>) -> Seq<char> {
    "SHARP_token="@ + token
        + "; HttpOnly; Secure; SameSite=Strict; Path=/; Max-Age=86400"@
}

/// Build the `Set-Cookie` header value carrying a session token.
pub fn build_auth_cookie(token: &str) -> (r: String)
    ensures
        r@ == spec_auth_cookie(token@),
{
    let mut out = String::from_str("SHARP_token=");
    out.append(token);
    out.append("; HttpOnly; Secure; SameSite=Strict; Path=/; Max-Age=86400");
    proof {
        assert(out@ =~= spec_auth_cookie(token@));
    }
    out
}

/// Index of the first occurrence of `c` in `s`, or the length of `s`
/// when `c` does not occur.
pub open spec fn char_idx(s: Seq<char>, c: char) -> int
    decreases s.len(),
{
    if s.len() == 0 {
        0
    } else if s[0] == c {
        0
    } else {
        1 + char_idx(s.drop_first(), c)
    }
}

/// The first-occurrence index is in `[0, len]`; at it stands `c`,
/// and before it `c` does not occur.
pub proof fn lemma_char_idx(s: Seq<char>, c: char)
    ensures
        0 <= char_idx(s, c) <= s.len(),
        char_idx(s, c) < s.len() ==> s[char_idx(s, c)] == c,
        forall|j: int| 0 <= j < char_idx(s, c) ==> s[j] != c,
    decreases s.len(),
{
    if s.len() > 0 && s[0] != c {
        lemma_char_idx(s.drop_first(), c);
        assert forall|j: int| 0 <= j < char_idx(s, c) implies s[j] != c by {
            if j > 0 {
                assert(s[j] == s.drop_first()[j - 1]);
            }
        }
    }
}

/// `s` with its leading spaces removed.
pub open spec fn trim_spaces(s: Seq<char>) -> Seq<char>
    decreases s.len(),
{
    if s.len() > 0 && s[0] == ' ' {
        trim_spaces(s.drop_first())
    } else {
        s
    }
}

/// Where the first `k` characters are spaces and the next one (if
/// any) is not, trimming drops exactly those `k`.
pub proof fn lemma_trim_spaces(s: Seq<char>, k: int)
    requires
        0 <= k <= s.len(),
        forall|j: int| 0 <= j < k ==> s[j] == ' ',
        k == s.len() || s[k] != ' ',
    ensures
        trim_spaces(s) == s.skip(k),
    decreases k,
{
    if k == 0 {
        assert(s.skip(0) =~= s);
    } else {
        assert(s[0] == ' ');
        let t = s.drop_first();
        assert forall|j: int| 0 <= j < k - 1 implies t[j] == ' ' by {
            assert(t[j] == s[j + 1]);
        }
        if k - 1 < t.len() {
            assert(t[k - 1] == s[k]);
        }
        lemma_trim_spaces(t, k - 1);
        assert(t.skip(k - 1) =~= s.skip(k));
    }
}

/// The value of the cookie named `name` in the `Cookie` header text
/// `s`: pairs are separated by `;`, a pair's name stands before its
/// first `=` with leading spaces ignored, and the first pair whose
/// name matches exactly decides.
pub open spec fn spec_cookie_value(s: Seq<char>, name: Seq<char>) -> Option<Seq<char>>
    decreases s.len(),
    via spec_cookie_value_dec
{
    let semi = char_idx(s, ';');
    let seg = trim_spaces(s.take(semi));
    let eq = char_idx(seg, '=');
    if eq < seg.len() && seg.take(eq) == name {
        Some(seg.skip(eq + 1))
    } else if semi < s.len() {
        spec_cookie_value(s.skip(semi + 1), name)
    } else {
        None
    }
}

#[via_fn]
proof fn spec_cookie_value_dec(s: Seq<char>, name: Seq<char>) {
    lemma_char_idx(s, ';');
}

/// Whether the characters of `s` starting at `at` spell exactly `t`.
fn chars_match(s: &str, at: usize, t: &str) -> (r: bool)
    requires
        at + t@.len() <= s@.len(),
        s@.len() <= usize::MAX,
    ensures
        r == (s@.subrange(at as int, at as int + t@.len() as int) == t@),
{
    let m = t.unicode_len();
    let mut k: usize = 0;
    while k < m
        invariant
            k <= m,
            m == t@.len(),
            at + m <= s@.len() <= usize::MAX,
            forall|j: int| 0 <= j < k ==> s@[at + j] == t@[j],
        decreases m - k,
    {
        if s.get_char(at + k) != t.get_char(k) {
            proof {
                let sub = s@.subrange(at as int, at as int + m as int);
                assert(sub[k as int] == s@[at + k as int]);
            }
            return false;
        }
        k += 1;
    }
    proof {
        assert(s@.subrange(at as int, at as int + m as int) =~= t@);
    }
    true
}

/// Extract the value of the cookie named `name` from a `Cookie`
/// request header.
pub fn cookie_value(header: &str, name: &str) -> (r: Option<String>)
    ensures
        match r {
            Some(v) => spec_cookie_value(header@, name@) == Some(v@),
            None => spec_cookie_value(header@, name@) is None,
        },
{
    let n = header.unicode_len();
    let name_n = name.unicode_len();
    let h = Ghost(header@);
    let mut pos: usize = 0;
    proof {
        assert(h@.skip(0) =~= h@);
    }
    loop
        invariant
            pos <= n,
            n == h@.len(),
            h@ == header@,
            name_n == name@.len(),
            spec_cookie_value(h@.skip(pos as int), name@) == spec_cookie_value(h@, name@),
        decreases n - pos,
    {
        let ghost u = h@.skip(pos as int);

        // First `;` at or after `pos`.
        let mut semi: usize = pos;
        while semi < n && header.get_char(semi) != ';'
            invariant
                pos <= semi <= n,
                n == h@.len(),
                h@ == header@,
                forall|j: int| pos <= j < semi ==> h@[j] != ';',
            decreases n - semi,
        {
            semi += 1;
        }
        proof {
            lemma_char_idx(u, ';');
            let ci = char_idx(u, ';');
            if ci < semi - pos {
                assert(u[ci] == ';');
                assert(u[ci] == h@[pos + ci]);
                assert(false);
            }
            if ci > semi - pos {
                assert(semi < n);
                assert(u[semi - pos] == h@[semi as int]);
                assert(false);
            }
            assert(ci == semi - pos);
        }

        // Skip leading spaces of the segment.
        let mut st: usize = pos;
        while st < semi && header.get_char(st) == ' '
            invariant
                pos <= st <= semi <= n,
                n == h@.len(),
                h@ == header@,
                forall|j: int| pos <= j < st ==> h@[j] == ' ',
            decreases semi - st,
        {
            st += 1;
        }
        let ghost seg0 = u.take(semi - pos as int);
        let ghost seg = h@.subrange(st as int, semi as int);
        proof {
            assert(seg0 =~= h@.subrange(pos as int, semi as int));
            assert forall|j: int| 0 <= j < st - pos implies seg0[j] == ' ' by {
                assert(seg0[j] == h@[pos + j]);
            }
            if st < semi {
                assert(seg0[st - pos as int] == h@[st as int]);
            }
            lemma_trim_spaces(seg0, st - pos as int);
            assert(seg0.skip(st - pos as int) =~= seg);
            assert(trim_spaces(seg0) == seg);
        }

        // First `=` inside the trimmed segment.
        let mut eqp: usize = st;
        while eqp < semi && header.get_char(eqp) != '='
            invariant
                st <= eqp <= semi <= n,
                n == h@.len(),
                h@ == header@,
                forall|j: int| st <= j < eqp ==> h@[j] != '=',
            decreases semi - eqp,
        {
            eqp += 1;
        }
        proof {
            lemma_char_idx(seg, '=');
            let ei = char_idx(seg, '=');
            if ei < eqp - st {
                assert(seg[ei] == '=');
                assert(seg[ei] == h@[st + ei]);
                assert(false);
            }
            if ei > eqp - st {
                assert(eqp < semi);
                assert(seg[eqp - st] == h@[eqp as int]);
                assert(false);
            }
            assert(ei == eqp - st);
        }

        // Does the name match?
        let matched: bool = if eqp < semi && eqp - st == name_n {
            chars_match(header, st, name)
        } else {
            false
        };
        proof {
            let ei = char_idx(seg, '=');
            if matched {
                assert(seg.take(ei) =~= h@.subrange(st as int, eqp as int));
                assert(seg.take(ei) == name@);
            } else {
                if eqp < semi && eqp - st == name_n {
                    assert(seg.take(ei) =~= h@.subrange(st as int, st as int + name@.len() as int));
                    assert(seg.take(ei) != name@);
                } else if eqp < semi {
                    assert(seg.take(ei).len() == eqp - st);
                    assert(seg.take(ei) != name@);
                } else {
                    assert(ei == seg.len());
                }
            }
        }
        if matched {
            let value = header.substring_char(eqp + 1, semi).to_owned();
            proof {
                let ei = char_idx(seg, '=');
                assert(seg.skip(ei + 1) =~= h@.subrange(eqp + 1 as int, semi as int));
                assert(spec_cookie_value(u, name@) == Some(value@));
            }
            return Some(value);
        }
        if semi == n {
            proof {
                assert(spec_cookie_value(u, name@) is None);
            }
            return None;
        }
        proof {
            assert(u.skip(semi - pos as int + 1) =~= h@.skip(semi as int + 1));
            assert(spec_cookie_value(h@.skip(semi as int + 1), name@) == spec_cookie_value(
                h@,
                name@,
            ));
        }
        pos = semi + 1;
    }
}

} // verus!
