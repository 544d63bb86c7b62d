//! Small string helpers: resolving an asset path against a base URL, and
//! rendering a byte count in decimal for the dropped-file summary.

use vstd::prelude::*;
use vstd::string::StrSliceExecFns;
use vstd::string::StringExecFns;

verus! {

/// The base URL with its trailing slashes removed.
pub open spec fn trimmed_base(b: Seq<char>) -> Seq<char>
    decreases b.len(),
{
    if b.len() > 0 && b.last() == '/' {
        trimmed_base(b.drop_last())
    } else {
        b
    }
}

/// The relative path with any leading run of "/" and "./" removed.
pub open spec fn trimmed_rel(p: Seq<char>) -> Seq<char>
    decreases p.len(),
{
    if p.len() > 0 && p[0] == '/' {
        trimmed_rel(p.skip(1))
    } else if p.len() >= 2 && p[0] == '.' && p[1] == '/' {
        trimmed_rel(p.skip(2))
    } else {
        p
    }
}

/// A relative path resolved against a base URL: the trimmed base, one
/// slash, the trimmed path.
pub open spec fn full_url(base: Seq<char>, rel: Seq<char>) -> Seq<char> {
    trimmed_base(base) + seq!['/'] + trimmed_rel(rel)
}

/// Resolve a relative asset path against the base URL the host page
/// reports, joining the two with exactly one slash whatever slashes
/// either side carries.
pub fn construct_full_url(base_url: &str, relative_path: &str) -> (r: String)
    ensures
        r@ == full_url(base_url@, relative_path@),
{
    let base_len = base_url.unicode_len();
    let mut end = base_len;
    proof {
        assert(base_url@.take(base_len as int) =~= base_url@);
    }
    while end > 0 && base_url.get_char(end - 1) == '/'
        invariant
            end <= base_len,
            base_len == base_url@.len(),
            trimmed_base(base_url@.take(end as int)) == trimmed_base(base_url@),
        decreases end,
    {
        proof {
            assert(base_url@.take(end as int).drop_last() =~= base_url@.take(end - 1));
        }
        end = end - 1;
    }
    let base_trim = base_url.substring_char(0, end);
    proof {
        assert(base_trim@ =~= base_url@.take(end as int));
    }

    let rel_len = relative_path.unicode_len();
    let mut start: usize = 0;
    proof {
        assert(relative_path@.skip(0) =~= relative_path@);
    }
    loop
        invariant
            start <= rel_len,
            rel_len == relative_path@.len(),
            trimmed_rel(relative_path@.skip(start as int)) == trimmed_rel(relative_path@),
        ensures
            start <= rel_len,
            relative_path@.skip(start as int) == trimmed_rel(relative_path@),
        decreases rel_len - start,
    {
        if start < rel_len && relative_path.get_char(start) == '/' {
            proof {
                assert(relative_path@.skip(start as int).skip(1) =~= relative_path@.skip(
                    start + 1,
                ));
            }
            start = start + 1;
        } else if start < rel_len && relative_path.get_char(start) == '.' && start + 1 < rel_len
            && relative_path.get_char(start + 1) == '/' {
            proof {
                assert(relative_path@.skip(start as int).skip(2) =~= relative_path@.skip(
                    start + 2,
                ));
            }
            start = start + 2;
        } else {
            proof {
                let rest = relative_path@.skip(start as int);
                if start < rel_len {
                    assert(rest[0] == relative_path@[start as int]);
                    if rest.len() >= 2 {
                        assert(rest[1] == relative_path@[start + 1]);
                    }
                }
                assert(trimmed_rel(rest) == rest);
            }
            break;
        }
    }
    let rel_trim = relative_path.substring_char(start, rel_len);
    proof {
        assert(rel_trim@ =~= relative_path@.skip(start as int));
    }

    let mut r = base_trim.to_owned();
    r.append("/");
    r.append(rel_trim);
    proof {
        reveal_strlit("/");
        assert(("/")@ =~= seq!['/']);
        assert(r@ =~= full_url(base_url@, relative_path@));
    }
    r
}

/// Resolution ignores slash variations: a base with one more trailing
/// slash, or a path with one more leading "/" or "./", resolves to the
/// same URL.
pub proof fn lemma_full_url_slash_insensitive(base: Seq<char>, rel: Seq<char>)
    ensures
        full_url(base.push('/'), rel) == full_url(base, rel),
        full_url(base, seq!['/'] + rel) == full_url(base, rel),
        full_url(base, seq!['.', '/'] + rel) == full_url(base, rel),
{
    assert(base.push('/').drop_last() =~= base);
    assert((seq!['/'] + rel).skip(1) =~= rel);
    assert((seq!['.', '/'] + rel).skip(2) =~= rel);
}

/// The decimal digits of a number, most significant first.
pub open spec fn dec_digits(n: nat) -> Seq<char>
    decreases n,
{
    if n < 10 {
        seq![digit_char(n)]
    } else {
        dec_digits(n / 10).push(digit_char(n % 10))
    }
}

/// The character for one decimal digit.
pub open spec fn digit_char(d: nat) -> char {
    if d == 0 {
        '0'
    } else if d == 1 {
        '1'
    } else if d == 2 {
        '2'
    } else if d == 3 {
        '3'
    } else if d == 4 {
        '4'
    } else if d == 5 {
        '5'
    } else if d == 6 {
        '6'
    } else if d == 7 {
        '7'
    } else if d == 8 {
        '8'
    } else {
        '9'
    }
}

/// The one-character string for a decimal digit.
fn digit_str(d: u64) -> (r: &'static str)
    requires
        d < 10,
    ensures
        r@ =~= seq![digit_char(d as nat)],
{
    proof {
        reveal_strlit("0");
        reveal_strlit("1");
        reveal_strlit("2");
        reveal_strlit("3");
        reveal_strlit("4");
        reveal_strlit("5");
        reveal_strlit("6");
        reveal_strlit("7");
        reveal_strlit("8");
        reveal_strlit("9");
    }
    if d == 0 {
        "0"
    } else if d == 1 {
        "1"
    } else if d == 2 {
        "2"
    } else if d == 3 {
        "3"
    } else if d == 4 {
        "4"
    } else if d == 5 {
        "5"
    } else if d == 6 {
        "6"
    } else if d == 7 {
        "7"
    } else if d == 8 {
        "8"
    } else {
        "9"
    }
}

/// Render a number in decimal, most significant digit first.
pub fn u64_to_dec_string(n: u64) -> (r: String)
    ensures
        r@ == dec_digits(n as nat),
    decreases n,
{
    if n < 10 {
        digit_str(n).to_owned()
    } else {
        proof {
            assert(n / 10 < n) by (nonlinear_arith)
                requires
                    n >= 10,
            ;
        }
        let mut s = u64_to_dec_string(n / 10);
        s.append(digit_str(n % 10));
        proof {
            assert(s@ =~= dec_digits(n as nat));
        }
        s
    }
}

} // verus!
