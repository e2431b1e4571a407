//! Literal substitution of the placeholder in command template arguments.
use vstd::prelude::*;
use vstd::string::{StrSliceExecFns, StringExecFns};

verus! {

/// The token in a template argument that stands for the selector.
pub const PLACEHOLDER: &'static str = "%1";

/// `s` with every occurrence of `pat` replaced by `rep`, scanning from the
/// left and never matching inside a replacement.
pub open spec fn replace_all(s: Seq<char>, pat: Seq<char>, rep: Seq<char>) -> Seq<char>
    decreases s.len(),
{
    if pat.len() == 0 || s.len() < pat.len() {
        s
    } else if s.subrange(0, pat.len() as int) == pat {
        rep + replace_all(s.subrange(pat.len() as int, s.len() as int), pat, rep)
    } else {
        seq![s[0]] + replace_all(s.subrange(1, s.len() as int), pat, rep)
    }
}

/// The arguments with the placeholder replaced by `selector` in each.
pub open spec fn substituted(args: Seq<Seq<char>>, selector: Seq<char>) -> Seq<Seq<char>> {
    args.map_values(|a: Seq<char>| replace_all(a, PLACEHOLDER@, selector))
}

/// Whether `pat` occurs in `s` at position `i`.
fn occurs_at(s: &str, n: usize, i: usize, pat: &str, plen: usize) -> (r: bool)
    requires
        n == s@.len(),
        plen == pat@.len(),
        i + plen <= n,
    ensures
        r == (s@.subrange(i as int, i + plen) == pat@),
{
    let mut j: usize = 0;
    while j < plen
        invariant
            n == s@.len(),
            plen == pat@.len(),
            i + plen <= n,
            j <= plen,
            forall|k: int| 0 <= k < j ==> s@[i + k] == pat@[k],
        decreases plen - j,
    {
        if s.get_char(i + j) != pat.get_char(j) {
            assert(s@.subrange(i as int, i + plen)[j as int] != pat@[j as int]);
            return false;
        }
        j = j + 1;
    }
    assert(s@.subrange(i as int, i + plen) =~= pat@);
    true
}

/// `s` with every occurrence of `pat` replaced by `rep`.
pub fn replace_all_occurrences(s: &str, pat: &str, rep: &str) -> (r: String)
    requires
        pat@.len() > 0,
    ensures
        r@ == replace_all(s@, pat@, rep@),
{
    let n = s.unicode_len();
    let plen = pat.unicode_len();
    let mut out = String::new();
    let mut i: usize = 0;
    assert(s@.subrange(0, n as int) =~= s@);
    while i < n
        invariant
            n == s@.len(),
            plen == pat@.len(),
            plen > 0,
            i <= n,
            out@ + replace_all(s@.subrange(i as int, n as int), pat@, rep@) == replace_all(
                s@,
                pat@,
                rep@,
            ),
        decreases n - i,
    {
        let ghost rest = s@.subrange(i as int, n as int);
        let ghost before = out@;
        if plen <= n - i && occurs_at(s, n, i, pat, plen) {
            assert(rest.subrange(0, plen as int) =~= s@.subrange(i as int, i + plen));
            assert(rest.subrange(plen as int, rest.len() as int) =~= s@.subrange(
                i + plen,
                n as int,
            ));
            out.append(rep);
            let ghost tail = replace_all(s@.subrange(i + plen, n as int), pat@, rep@);
            assert(before + (rep@ + tail) =~= (before + rep@) + tail);
            i = i + plen;
        } else {
            if plen <= n - i {
                assert(rest.subrange(0, plen as int) =~= s@.subrange(i as int, i + plen));
            }
            let one = s.substring_char(i, i + 1);
            assert(one@ =~= seq![rest[0]]);
            assert(rest.subrange(1, rest.len() as int) =~= s@.subrange(i + 1, n as int));
            out.append(one);
            let ghost tail = replace_all(s@.subrange(i + 1, n as int), pat@, rep@);
            assert(before + (one@ + tail) =~= (before + one@) + tail);
            i = i + 1;
        }
    }
    assert(out@ + replace_all(s@.subrange(n as int, n as int), pat@, rep@) =~= out@);
    out
}

/// Replaces the placeholder in `arg` by `selector`, everywhere it occurs.
pub fn substitute_placeholder(arg: &str, selector: &str) -> (r: String)
    ensures
        r@ == replace_all(arg@, PLACEHOLDER@, selector@),
{
    proof {
        reveal_strlit("%1");
    }
    replace_all_occurrences(arg, PLACEHOLDER, selector)
}

/// The arguments of `template`, every token after the executable, with the
/// placeholder replaced by `selector`.
pub fn substitute_arguments(template: &Vec<String>, selector: &str) -> (r: Vec<String>)
    requires
        template.len() >= 1,
    ensures
        r.deep_view() == substituted(template.deep_view().skip(1), selector@),
{
    let mut args: Vec<String> = Vec::new();
    let mut i: usize = 1;
    while i < template.len()
        invariant
            1 <= i <= template.len(),
            args.len() == i - 1,
            forall|k: int|
                0 <= k < i - 1 ==> #[trigger] args@[k]@ == replace_all(
                    template@[k + 1]@,
                    PLACEHOLDER@,
                    selector@,
                ),
        decreases template.len() - i,
    {
        let a = substitute_placeholder(template[i].as_str(), selector);
        args.push(a);
        i = i + 1;
    }
    assert(args.deep_view() =~= substituted(template.deep_view().skip(1), selector@));
    args
}

} // verus!
