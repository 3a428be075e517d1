//! Derivation of URLs, file names and destination paths.
use vstd::prelude::*;
use vstd::string::{StrSliceExecFns, StringExecFns};

verus! {

/// The character for a decimal digit.
pub open spec fn digit_char(d: nat) -> char {
    if d == 0 { '0' }
    else if d == 1 { '1' }
    else if d == 2 { '2' }
    else if d == 3 { '3' }
    else if d == 4 { '4' }
    else if d == 5 { '5' }
    else if d == 6 { '6' }
    else if d == 7 { '7' }
    else if d == 8 { '8' }
    else { '9' }
}

/// The decimal representation of `n`, without leading zeros.
pub open spec fn decimal(n: nat) -> Seq<char>
    decreases n,
{
    if n < 10 {
        seq![digit_char(n)]
    } else {
        decimal(n / 10).push(digit_char(n % 10))
    }
}

fn digit_str(d: u32) -> (r: &'static str)
    requires
        d < 10,
    ensures
        r@ == seq![digit_char(d as nat)],
{
    proof {
        reveal_strlit("0");
        reveal_strlit("1");
        reveal_strlit("2");
        reveal_strlit("3");
        reveal_strlit("4");
        reveal_strlit("5");
        reveal_strlit("6");
        reveal_strlit("7");
        reveal_strlit("8");
        reveal_strlit("9");
    }
    let r = if d == 0 { "0" }
    else if d == 1 { "1" }
    else if d == 2 { "2" }
    else if d == 3 { "3" }
    else if d == 4 { "4" }
    else if d == 5 { "5" }
    else if d == 6 { "6" }
    else if d == 7 { "7" }
    else if d == 8 { "8" }
    else { "9" };
    assert(r@ =~= seq![digit_char(d as nat)]);
    r
}

/// Appends the decimal representation of `n` to `s`.
pub fn push_decimal(s: &mut String, n: u32)
    ensures
        final(s)@ == old(s)@ + decimal(n as nat),
    decreases n,
{
    if n >= 10 {
        push_decimal(s, n / 10);
    }
    s.append(digit_str(n % 10));
    assert(s@ =~= old(s)@ + decimal(n as nat));
}

/// The position of the last `/` in `s`, or -1 when there is none.
pub open spec fn last_slash(s: Seq<char>) -> int
    decreases s.len(),
{
    if s.len() == 0 {
        -1
    } else if s.last() == '/' {
        s.len() - 1
    } else {
        last_slash(s.drop_last())
    }
}

/// The file name of a payload URL: the non-empty segment after its last `/`.
/// A URL without a `/`, or ending in one, has none.
pub open spec fn file_name_of(url: Seq<char>) -> Option<Seq<char>> {
    let i = last_slash(url);
    if i < 0 || i == url.len() - 1 {
        None
    } else {
        Some(url.subrange(i + 1, url.len() as int))
    }
}

proof fn lemma_last_slash_from_scan(s: Seq<char>, i: int)
    requires
        -1 <= i < s.len(),
        i >= 0 ==> s[i] == '/',
        forall|j: int| i < j < s.len() ==> s[j] != '/',
    ensures
        last_slash(s) == i,
    decreases s.len(),
{
    if s.len() > 0 && s.last() != '/' {
        lemma_last_slash_from_scan(s.drop_last(), i);
    }
}

/// The file name that a payload URL gives, or `None` where it gives none.
pub fn file_name(url: &str) -> (r: Option<String>)
    ensures
        r matches Some(f) ==> file_name_of(url@) == Some(f@),
        r is None ==> file_name_of(url@) is None,
{
    let len = url.unicode_len();
    let mut i: usize = len;
    while i > 0 && url.get_char(i - 1) != '/'
        invariant
            i <= len,
            len == url@.len(),
            forall|j: int| i <= j < len ==> url@[j] != '/',
        decreases i,
    {
        i = i - 1;
    }
    proof {
        lemma_last_slash_from_scan(url@, i - 1);
    }
    if i == 0 || i == len {
        None
    } else {
        Some(String::from_str(url.substring_char(i, len)))
    }
}

/// `base` joined to `rest` with exactly one `/` added where `base` lacks it.
pub open spec fn joined(base: Seq<char>, rest: Seq<char>) -> Seq<char> {
    if base.len() > 0 && base.last() == '/' {
        base + rest
    } else {
        base + seq!['/'] + rest
    }
}

/// The name of every metadata document.
pub open spec fn info_doc() -> Seq<char> {
    seq!['i', 'n', 'f', 'o', '.', '0', '.', 'j', 's', 'o', 'n']
}

/// The URL of the series-wide metadata document.
pub open spec fn index_url_of(base: Seq<char>) -> Seq<char> {
    joined(base, info_doc())
}

/// The URL of the metadata document of item `number`.
pub open spec fn item_url_of(base: Seq<char>, number: nat) -> Seq<char> {
    joined(base, decimal(number) + seq!['/'] + info_doc())
}

/// The path at which item `number` with file name `name` is stored.
pub open spec fn destination_of(dir: Seq<char>, number: nat, name: Seq<char>) -> Seq<char> {
    dir + seq!['/'] + decimal(number) + seq!['-'] + name
}

fn start_joined(base: &str) -> (r: String)
    ensures
        joined(base@, Seq::empty()) == r@,
{
    let mut r = String::from_str(base);
    let len = base.unicode_len();
    if len == 0 || base.get_char(len - 1) != '/' {
        proof {
            reveal_strlit("/");
        }
        r.append("/");
    }
    assert(joined(base@, Seq::empty()) =~= r@);
    r
}

/// The URL of the series-wide metadata document under `base`.
pub fn index_url(base: &str) -> (r: String)
    ensures
        r@ == index_url_of(base@),
{
    let mut r = start_joined(base);
    proof {
        reveal_strlit("info.0.json");
    }
    r.append("info.0.json");
    assert(r@ =~= index_url_of(base@));
    r
}

/// The URL of the metadata document of item `number` under `base`.
pub fn item_url(base: &str, number: u32) -> (r: String)
    ensures
        r@ == item_url_of(base@, number as nat),
{
    let mut r = start_joined(base);
    push_decimal(&mut r, number);
    proof {
        reveal_strlit("/info.0.json");
    }
    r.append("/info.0.json");
    assert(r@ =~= item_url_of(base@, number as nat));
    r
}

/// The path `{dir}/{number}-{name}` at which an item is stored.
pub fn destination(dir: &str, number: u32, name: &str) -> (r: String)
    ensures
        r@ == destination_of(dir@, number as nat, name@),
{
    let mut r = String::from_str(dir);
    proof {
        reveal_strlit("/");
        reveal_strlit("-");
    }
    r.append("/");
    push_decimal(&mut r, number);
    r.append("-");
    r.append(name);
    assert(r@ =~= destination_of(dir@, number as nat, name@));
    r
}

} // verus!
