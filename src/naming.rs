//! Derivation of an item's local file name and remote address from its ID.
use vstd::prelude::*;
use vstd::string::*;

verus! {

/// The decimal digit character for `d` (0 to 9).
pub open spec fn digit_char(d: int) -> char {
    if d == 0 {
        '0'
    } else if d == 1 {
        '1'
    } else if d == 2 {
        '2'
    } else if d == 3 {
        '3'
    } else if d == 4 {
        '4'
    } else if d == 5 {
        '5'
    } else if d == 6 {
        '6'
    } else if d == 7 {
        '7'
    } else if d == 8 {
        '8'
    } else {
        '9'
    }
}

/// The decimal representation of `n`, most significant digit first, without
/// leading zeros.
pub open spec fn decimal(n: nat) -> Seq<char>
    decreases n,
{
    if n < 10 {
        seq![digit_char(n as int)]
    } else {
        decimal(n / 10).push(digit_char((n % 10) as int))
    }
}

/// The local file that holds item `id`: `book_{id}.txt`.
pub open spec fn filename_of(id: u32) -> Seq<char> {
    "book_"@ + decimal(id as nat) + ".txt"@
}

/// The remote address of item `id`, which names the ID twice.
pub open spec fn url_of(id: u32) -> Seq<char> {
    "https://www.gutenberg.org/cache/epub/"@ + decimal(id as nat) + "/pg"@ + decimal(
        id as nat,
    ) + ".txt"@
}

fn digit_str(d: u32) -> (r: &'static str)
    requires
        d < 10,
    ensures
        r@ == seq![digit_char(d as int)],
{
    proof {
        reveal_strlit("0");
        reveal_strlit("1");
        reveal_strlit("2");
        reveal_strlit("3");
        reveal_strlit("4");
        reveal_strlit("5");
        reveal_strlit("6");
        reveal_strlit("7");
        reveal_strlit("8");
        reveal_strlit("9");
    }
    let r = match d {
        0 => "0",
        1 => "1",
        2 => "2",
        3 => "3",
        4 => "4",
        5 => "5",
        6 => "6",
        7 => "7",
        8 => "8",
        _ => "9",
    };
    assert(r@ =~= seq![digit_char(d as int)]);
    r
}

/// Appends the decimal representation of `n` to `s`.
pub fn push_decimal(s: &mut String, n: u32)
    ensures
        final(s)@ == old(s)@ + decimal(n as nat),
    decreases n,
{
    let ghost before = s@;
    if n >= 10 {
        push_decimal(s, n / 10);
    }
    s.append(digit_str(n % 10));
    proof {
        if n >= 10 {
            assert(s@ =~= before + decimal(n as nat));
        } else {
            assert(s@ =~= before + decimal(n as nat));
        }
    }
}

/// The name of the local file that holds item `id`.
pub fn book_filename(id: u32) -> (r: String)
    ensures
        r@ == filename_of(id),
{
    let mut s = String::from_str("book_");
    push_decimal(&mut s, id);
    s.append(".txt");
    s
}

/// The remote address from which item `id` is fetched.
pub fn book_url(id: u32) -> (r: String)
    ensures
        r@ == url_of(id),
{
    let mut s = String::from_str("https://www.gutenberg.org/cache/epub/");
    push_decimal(&mut s, id);
    s.append("/pg");
    push_decimal(&mut s, id);
    s.append(".txt");
    s
}

/// Distinct numbers have distinct decimal representations.
pub proof fn lemma_decimal_injective(a: nat, b: nat)
    requires
        decimal(a) == decimal(b),
    ensures
        a == b,
    decreases a,
{
    if a < 10 && b < 10 {
        assert(decimal(a) == seq![digit_char(a as int)]);
        assert(decimal(b) == seq![digit_char(b as int)]);
        assert(seq![digit_char(a as int)][0] == digit_char(a as int));
        assert(seq![digit_char(b as int)][0] == digit_char(b as int));
        assert(digit_char(a as int) == digit_char(b as int));
        assert(a == b);
    } else if a >= 10 && b >= 10 {
        assert(decimal(a / 10) =~= decimal(a).drop_last());
        assert(decimal(b / 10) =~= decimal(b).drop_last());
        lemma_decimal_injective(a / 10, b / 10);
        assert(decimal(a).last() == digit_char((a % 10) as int));
        assert(decimal(b).last() == digit_char((b % 10) as int));
        assert(a % 10 == b % 10);
        assert(a == 10 * (a / 10) + a % 10);
        assert(b == 10 * (b / 10) + b % 10);
        assert(a == b);
    } else {
        let (small, big) = if a < 10 { (a, b) } else { (b, a) };
        assert(decimal(small).len() == 1);
        assert(decimal(big).len() == decimal(big / 10).len() + 1);
        assert(decimal(big / 10).len() >= 1);
        assert(decimal(small) == decimal(big));
    }
}

/// Distinct items never share a local file, so concurrent tasks cannot write
/// to the same file.
pub proof fn lemma_filenames_distinct(a: u32, b: u32)
    requires
        a != b,
    ensures
        filename_of(a) != filename_of(b),
{
    if filename_of(a) == filename_of(b) {
        let (da, db) = (decimal(a as nat), decimal(b as nat));
        assert(filename_of(a).len() == filename_of(b).len());
        assert(da.len() == db.len());
        assert(da =~= filename_of(a).subrange("book_"@.len() as int, ("book_"@.len() + da.len()) as int));
        assert(db =~= filename_of(b).subrange("book_"@.len() as int, ("book_"@.len() + db.len()) as int));
        lemma_decimal_injective(a as nat, b as nat);
    }
}

} // verus!
