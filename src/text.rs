use vstd::prelude::*;
use vstd::string::*;

verus! {

/// What `str::to_lowercase` returns for a string.
pub uninterp spec fn lower_of(s: Seq<char>) -> Seq<char>;

/// What `str::trim` leaves of a string.
pub uninterp spec fn trim_of(s: Seq<char>) -> Seq<char>;

/// Whether `char::is_alphanumeric` holds of a character.
pub uninterp spec fn is_alnum(c: char) -> bool;

/// Relies on `str::to_lowercase`: the result depends on the characters alone,
/// and an empty string stays empty.
#[verifier::external_body]
pub(crate) fn lowercase(s: &str) -> (r: String)
    ensures
        r@ == lower_of(s@),
        s@.len() == 0 ==> r@.len() == 0,
{
    s.to_lowercase()
}

/// Relies on `str::trim`: the result depends on the characters alone, and an
/// empty string stays empty.
#[verifier::external_body]
pub(crate) fn trim(s: &str) -> (r: String)
    ensures
        r@ == trim_of(s@),
        s@.len() == 0 ==> r@.len() == 0,
{
    s.trim().to_string()
}

/// Relies on `char::is_alphanumeric`; ASCII letters and digits are alphanumeric.
#[verifier::external_body]
pub(crate) fn alphanumeric(c: char) -> (r: bool)
    ensures
        r == is_alnum(c),
        ('a' <= c <= 'z' || 'A' <= c <= 'Z' || '0' <= c <= '9') ==> r,
{
    c.is_alphanumeric()
}

/// Relies on `String::from_iter` over characters: the string holds them in order.
#[verifier::external_body]
pub(crate) fn string_of(v: &Vec<char>) -> (r: String)
    ensures
        r@ == v@,
{
    String::from_iter(v.iter())
}

/// The decimal digits of a natural number, most significant first.
pub open spec fn digits(n: nat) -> Seq<char>
    decreases n,
{
    if n < 10 {
        seq![seq!['0', '1', '2', '3', '4', '5', '6', '7', '8', '9'][n as int]]
    } else {
        digits(n / 10).push(seq!['0', '1', '2', '3', '4', '5', '6', '7', '8', '9'][(n % 10) as int])
    }
}

/// The decimal text of an integer, with a leading `-` when it is negative.
pub open spec fn decimal(n: int) -> Seq<char> {
    if n < 0 {
        seq!['-'] + digits((-n) as nat)
    } else {
        digits(n as nat)
    }
}

/// Relies on `ToString` for `i32`: its decimal text.
#[verifier::external_body]
pub(crate) fn i32_text(n: i32) -> (r: String)
    ensures
        r@ == decimal(n as int),
{
    n.to_string()
}

/// Relies on `ToString` for `u64`: its decimal text.
#[verifier::external_body]
pub(crate) fn u64_text(n: u64) -> (r: String)
    ensures
        r@ == decimal(n as int),
{
    n.to_string()
}

/// The characters of a string, as a vector.
pub(crate) fn chars_of(s: &str) -> (r: Vec<char>)
    ensures
        r@ == s@,
{
    let n = s.unicode_len();
    let mut out: Vec<char> = Vec::new();
    let mut i: usize = 0;
    while i < n
        invariant
            n == s@.len(),
            i <= n,
            out@ == s@.subrange(0, i as int),
        decreases n - i,
    {
        out.push(s.get_char(i));
        i = i + 1;
    }
    assert(out@ =~= s@);
    out
}

/// `s` with every non-overlapping occurrence of `pat`, taken from the left,
/// replaced by `rep`.
pub open spec fn replaced(s: Seq<char>, pat: Seq<char>, rep: Seq<char>) -> Seq<char>
    decreases s.len(),
{
    if pat.len() == 0 || s.len() < pat.len() {
        s
    } else if s.subrange(0, pat.len() as int) == pat {
        rep + replaced(s.subrange(pat.len() as int, s.len() as int), pat, rep)
    } else {
        seq![s[0]] + replaced(s.subrange(1, s.len() as int), pat, rep)
    }
}

/// Whether `pat` occurs in `s` at position `i`.
fn occurs_at(s: &Vec<char>, pat: &Vec<char>, i: usize) -> (r: bool)
    requires
        i + pat@.len() <= s@.len(),
    ensures
        r == (s@.subrange(i as int, i + pat@.len()) == pat@),
{
    let sl = s.len();
    let mut k: usize = 0;
    while k < pat.len()
        invariant
            sl == s@.len(),
            i + pat@.len() <= s@.len(),
            k <= pat@.len(),
            forall|t: int| 0 <= t < k ==> s@[i + t] == pat@[t],
        decreases pat@.len() - k,
    {
        if s[i + k] != pat[k] {
            assert(s@.subrange(i as int, i + pat@.len())[k as int] != pat@[k as int]);
            return false;
        }
        k = k + 1;
    }
    assert(s@.subrange(i as int, i + pat@.len()) =~= pat@);
    true
}

/// Replaces every occurrence of `pat` in `s` by `rep`, left to right, as
/// `str::replace` does for a non-empty pattern.
pub fn replace_all(s: &str, pat: &str, rep: &str) -> (r: String)
    requires
        pat@.len() > 0,
    ensures
        r@ == replaced(s@, pat@, rep@),
{
    let sv = chars_of(s);
    let pv = chars_of(pat);
    let rv = chars_of(rep);
    let n = sv.len();
    let m = pv.len();
    let mut out: Vec<char> = Vec::new();
    let mut i: usize = 0;
    assert(s@.subrange(0, n as int) =~= s@);
    assert(Seq::<char>::empty() + replaced(s@, pat@, rep@) =~= replaced(s@, pat@, rep@));
    while i < n
        invariant
            sv@ == s@,
            pv@ == pat@,
            rv@ == rep@,
            n == s@.len(),
            m == pat@.len(),
            m > 0,
            i <= n,
            out@ + replaced(s@.subrange(i as int, n as int), pat@, rep@) == replaced(s@, pat@, rep@),
        decreases n - i,
    {
        let ghost rest = s@.subrange(i as int, n as int);
        if n - i >= m && occurs_at(&sv, &pv, i) {
            assert(rest.subrange(0, m as int) =~= s@.subrange(i as int, i + m));
            assert(rest.subrange(m as int, rest.len() as int) =~= s@.subrange(i + m, n as int));
            let mut k: usize = 0;
            let ghost before = out@;
            while k < rv.len()
                invariant
                    k <= rv@.len(),
                    out@ == before + rv@.subrange(0, k as int),
                decreases rv@.len() - k,
            {
                out.push(rv[k]);
                k = k + 1;
            }
            assert(rv@.subrange(0, rv@.len() as int) =~= rv@);
            assert(out@ + replaced(s@.subrange(i + m, n as int), pat@, rep@) =~= before + replaced(rest, pat@, rep@));
            i = i + m;
        } else {
            if n - i >= m {
                assert(rest.subrange(0, m as int) =~= s@.subrange(i as int, i + m));
            }
            assert(rest.subrange(1, rest.len() as int) =~= s@.subrange(i + 1, n as int));
            let ghost before = out@;
            out.push(sv[i]);
            assert(out@ + replaced(s@.subrange(i + 1, n as int), pat@, rep@) =~= before + replaced(rest, pat@, rep@));
            i = i + 1;
        }
    }
    assert(s@.subrange(n as int, n as int) =~= Seq::<char>::empty());
    assert(out@ + Seq::<char>::empty() =~= out@);
    string_of(&out)
}

/// Whether sanitising keeps a character: letters, digits, space, hyphen, and
/// the dot where dots are allowed.
pub open spec fn kept_char(c: char, keep_dot: bool) -> bool {
    is_alnum(c) || c == ' ' || c == '-' || (keep_dot && c == '.')
}

/// `s` with every character that sanitising does not keep turned into `_`.
pub open spec fn sanitized(s: Seq<char>, keep_dot: bool) -> Seq<char> {
    s.map_values(|c: char| if kept_char(c, keep_dot) { c } else { '_' })
}

/// Makes text safe as a path component: every character that is not
/// alphanumeric, a space or a hyphen (or, with `keep_dot`, a dot) becomes `_`.
pub fn sanitize(s: &str, keep_dot: bool) -> (r: String)
    ensures
        r@ == sanitized(s@, keep_dot),
{
    let sv = chars_of(s);
    let mut out: Vec<char> = Vec::new();
    let mut i: usize = 0;
    while i < sv.len()
        invariant
            sv@ == s@,
            i <= sv@.len(),
            out@ == sanitized(s@.subrange(0, i as int), keep_dot),
        decreases sv@.len() - i,
    {
        let c = sv[i];
        let keep = alphanumeric(c) || c == ' ' || c == '-' || (keep_dot && c == '.');
        if keep {
            out.push(c);
        } else {
            out.push('_');
        }
        assert(s@.subrange(0, i + 1) =~= s@.subrange(0, i as int).push(c));
        assert(out@ =~= sanitized(s@.subrange(0, i + 1), keep_dot));
        i = i + 1;
    }
    assert(s@.subrange(0, sv@.len() as int) =~= s@);
    string_of(&out)
}

} // verus!
