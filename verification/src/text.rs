//! Text building blocks shared by all renderers: joining rendered items
//! with a separator, optional clauses, and decimal numbers.

use vstd::prelude::*;
use vstd::string::*;

verus! {

/// The items of `parts` in order, with `sep` between each two neighbours:
/// nothing before the first item and nothing after the last.
pub open spec fn join(parts: Seq<Seq<char>>, sep: Seq<char>) -> Seq<char>
    decreases parts.len(),
{
    if parts.len() == 0 {
        Seq::empty()
    } else if parts.len() == 1 {
        parts[0]
    } else {
        join(parts.drop_last(), sep) + sep + parts.last()
    }
}

/// The items of `parts` joined by a comma and a space.
pub open spec fn comma_separated(parts: Seq<Seq<char>>) -> Seq<char> {
    join(parts, ", "@)
}

/// A clause built around a list: absent altogether when the list is empty,
/// otherwise `before`, the comma-separated items, and `after`.
pub open spec fn list_clause(before: Seq<char>, parts: Seq<Seq<char>>, after: Seq<char>) -> Seq<
    char,
> {
    if parts.len() == 0 {
        Seq::empty()
    } else {
        before + comma_separated(parts) + after
    }
}

/// A clause built around an optional item: absent when the item is, otherwise
/// `before` followed by the item.
pub open spec fn optional_clause(before: Seq<char>, item: Option<Seq<char>>) -> Seq<char> {
    match item {
        Some(text) => before + text,
        None => Seq::empty(),
    }
}

/// `word` when the flag is set, nothing otherwise.
pub open spec fn keyword_if(flag: bool, word: Seq<char>) -> Seq<char> {
    if flag {
        word
    } else {
        Seq::empty()
    }
}

/// The views of a sequence of strings.
pub open spec fn texts(items: Seq<String>) -> Seq<Seq<char>> {
    items.map_values(|s: String| s@)
}

/// The character that writes the decimal digit `d`.
pub open spec fn digit_char(d: nat) -> char {
    if d == 0 {
        '0'
    } else if d == 1 {
        '1'
    } else if d == 2 {
        '2'
    } else if d == 3 {
        '3'
    } else if d == 4 {
        '4'
    } else if d == 5 {
        '5'
    } else if d == 6 {
        '6'
    } else if d == 7 {
        '7'
    } else if d == 8 {
        '8'
    } else {
        '9'
    }
}

/// The decimal numeral of `n`, most significant digit first, without
/// leading zeros (zero itself is written `0`).
pub open spec fn decimal(n: nat) -> Seq<char>
    decreases n,
{
    if n < 10 {
        seq![digit_char(n)]
    } else {
        decimal(n / 10).push(digit_char(n % 10))
    }
}

/// Joining the first `k + 1` items extends the join of the first `k`.
pub proof fn lemma_join_push(parts: Seq<Seq<char>>, item: Seq<char>, sep: Seq<char>)
    ensures
        join(parts.push(item), sep) == if parts.len() == 0 {
            item
        } else {
            join(parts, sep) + sep + item
        },
{
    let extended = parts.push(item);
    assert(extended.drop_last() =~= parts);
    assert(extended.last() == item);
    if parts.len() == 0 {
        assert(extended[0] == item);
    } else {
        if parts.len() == 1 {
            assert(join(parts, sep) == parts[0]);
        }
    }
}

/// The sum of the lengths of the items of `parts`.
pub open spec fn total_len(parts: Seq<Seq<char>>) -> nat
    decreases parts.len(),
{
    if parts.len() == 0 {
        0
    } else {
        total_len(parts.drop_last()) + parts.last().len()
    }
}

/// A join holds every item once and one separator fewer than items: its
/// length is the items' total length plus `len - 1` separators, so no
/// separator leads or trails.
pub proof fn lemma_join_len(parts: Seq<Seq<char>>, sep: Seq<char>)
    ensures
        parts.len() == 0 ==> join(parts, sep).len() == 0,
        parts.len() > 0 ==> join(parts, sep).len() == total_len(parts) + (parts.len() - 1)
            * sep.len(),
    decreases parts.len(),
{
    let n = parts.len() as int;
    let m = sep.len() as int;
    if n == 0 {
    } else if n == 1 {
        assert(total_len(parts.drop_last()) == 0);
        assert(parts.last() == parts[0]);
        assert((n - 1) * m == 0) by (nonlinear_arith)
            requires
                n == 1,
        ;
    } else {
        let head = parts.drop_last();
        lemma_join_len(head, sep);
        assert(join(parts, sep).len() == join(head, sep).len() + m + parts.last().len());
        assert((n - 2) * m + m == (n - 1) * m) by (nonlinear_arith);
        assert(head.len() - 1 == n - 2);
    }
}

/// A non-empty join begins with its first item and ends with its last one.
pub proof fn lemma_join_ends(parts: Seq<Seq<char>>, sep: Seq<char>)
    requires
        parts.len() > 0,
    ensures
        parts[0].is_prefix_of(join(parts, sep)),
        parts.last().is_suffix_of(join(parts, sep)),
    decreases parts.len(),
{
    if parts.len() == 1 {
        assert(join(parts, sep) =~= parts[0]);
    } else {
        lemma_join_ends(parts.drop_last(), sep);
        let head = join(parts.drop_last(), sep);
        let whole = join(parts, sep);
        assert(whole == head + sep + parts.last());
        assert(parts.drop_last()[0] == parts[0]);
        assert(whole.subrange(0, parts[0].len() as int) =~= head.subrange(
            0,
            parts[0].len() as int,
        ));
        assert(whole.subrange(whole.len() - parts.last().len(), whole.len() as int)
            =~= parts.last());
    }
}

/// A list clause is empty exactly for the empty list; otherwise it is the
/// opening text, the items joined by `", "`, and the closing text.
pub proof fn lemma_list_clause(before: Seq<char>, parts: Seq<Seq<char>>, after: Seq<char>)
    ensures
        parts.len() == 0 ==> list_clause(before, parts, after) == Seq::<char>::empty(),
        parts.len() > 0 ==> list_clause(before, parts, after) == before + join(parts, ", "@)
            + after,
        parts.len() > 0 ==> list_clause(before, parts, after).len() == before.len() + total_len(
            parts,
        ) + (parts.len() - 1) * 2 + after.len(),
{
    reveal_strlit(", ");
    lemma_join_len(parts, ", "@);
    if parts.len() > 0 {
        assert(", "@.len() == 2);
        assert((parts.len() - 1) * ", "@.len() == (parts.len() - 1) * 2);
    }
}

/// Joins `items` with `sep` between neighbours.
pub fn join_strings(items: &Vec<String>, sep: &str) -> (res: String)
    ensures
        res@ == join(texts(items@), sep@),
{
    let mut out = String::new();
    let mut i: usize = 0;
    while i < items.len()
        invariant
            i <= items.len(),
            out@ == join(texts(items@).take(i as int), sep@),
        decreases items.len() - i,
    {
        proof {
            let parts = texts(items@);
            assert(parts.take(i as int + 1) =~= parts.take(i as int).push(parts[i as int]));
            lemma_join_push(parts.take(i as int), parts[i as int], sep@);
        }
        if i > 0 {
            out.append(sep);
        }
        out.append(items[i].as_str());
        i += 1;
    }
    proof {
        assert(texts(items@).take(items.len() as int) =~= texts(items@));
    }
    out
}

/// Joins `items` with a comma and a space, as `join(", ")` does on a list
/// of strings.
pub fn comma_separated_string(items: &Vec<String>) -> (res: String)
    ensures
        res@ == comma_separated(texts(items@)),
{
    join_strings(items, ", ")
}

/// Whether two strings hold the same text.
pub fn same_text(a: &str, b: &str) -> (res: bool)
    ensures
        res == (a@ == b@),
{
    String::from_str(a) == String::from_str(b)
}

/// The one-character string of the decimal digit `d`.
fn digit_str(d: u64) -> (res: &'static str)
    requires
        d < 10,
    ensures
        res@ == seq![digit_char(d as nat)],
{
    proof {
        reveal_strlit("0");
        reveal_strlit("1");
        reveal_strlit("2");
        reveal_strlit("3");
        reveal_strlit("4");
        reveal_strlit("5");
        reveal_strlit("6");
        reveal_strlit("7");
        reveal_strlit("8");
        reveal_strlit("9");
    }
    let res = if d == 0 {
        "0"
    } else if d == 1 {
        "1"
    } else if d == 2 {
        "2"
    } else if d == 3 {
        "3"
    } else if d == 4 {
        "4"
    } else if d == 5 {
        "5"
    } else if d == 6 {
        "6"
    } else if d == 7 {
        "7"
    } else if d == 8 {
        "8"
    } else {
        "9"
    };
    assert(res@ =~= seq![digit_char(d as nat)]);
    res
}

/// Appends the decimal numeral of `n` to `out`.
pub fn push_decimal(out: &mut String, n: u64)
    ensures
        final(out)@ == old(out)@ + decimal(n as nat),
    decreases n,
{
    if n >= 10 {
        push_decimal(out, n / 10);
    }
    out.append(digit_str(n % 10));
    proof {
        if n >= 10 {
            assert(decimal(n as nat) =~= decimal((n / 10) as nat) + seq![
                digit_char((n % 10) as nat),
            ]);
        }
    }
}

/// The decimal numeral of `n` as a string.
pub fn decimal_string(n: u64) -> (res: String)
    ensures
        res@ == decimal(n as nat),
{
    let mut out = String::new();
    push_decimal(&mut out, n);
    out
}

/// The texts of an optional string.
pub open spec fn optional_text(item: Option<String>) -> Option<Seq<char>> {
    match item {
        Some(s) => Some(s@),
        None => None,
    }
}

/// Appends a list clause to `out`: nothing for an empty list, otherwise
/// `before`, the items separated by commas, and `after`.
pub fn push_list_clause(out: &mut String, before: &str, items: &Vec<String>, after: &str)
    ensures
        final(out)@ == old(out)@ + list_clause(before@, texts(items@), after@),
{
    if items.len() > 0 {
        let ghost start = out@;
        out.append(before);
        out.append(comma_separated_string(items).as_str());
        out.append(after);
        assert(out@ =~= start + list_clause(before@, texts(items@), after@));
    } else {
        assert(out@ =~= out@ + list_clause(before@, texts(items@), after@));
    }
}

/// Appends an optional clause to `out`: nothing for an absent item,
/// otherwise `before` and the item.
pub fn push_optional_clause(out: &mut String, before: &str, item: &Option<String>)
    ensures
        final(out)@ == old(out)@ + optional_clause(before@, optional_text(*item)),
{
    match item {
        Some(text) => {
            let ghost start = out@;
            out.append(before);
            out.append(text.as_str());
            assert(out@ =~= start + optional_clause(before@, optional_text(*item)));
        },
        None => {
            assert(out@ =~= out@ + optional_clause(before@, optional_text(*item)));
        },
    }
}

/// Appends `word` to `out` if the flag is set.
pub fn push_keyword_if(out: &mut String, flag: bool, word: &str)
    ensures
        final(out)@ == old(out)@ + keyword_if(flag, word@),
{
    if flag {
        out.append(word);
    } else {
        assert(out@ =~= out@ + keyword_if(flag, word@));
    }
}

} // verus!
