//! Text of replies: decimal numbers and quoted lists.
use vstd::prelude::*;

verus! {

/// The character of one decimal digit.
pub open spec fn digit_char(d: int) -> char {
    if d == 0 {
        '0'
    } else if d == 1 {
        '1'
    } else if d == 2 {
        '2'
    } else if d == 3 {
        '3'
    } else if d == 4 {
        '4'
    } else if d == 5 {
        '5'
    } else if d == 6 {
        '6'
    } else if d == 7 {
        '7'
    } else if d == 8 {
        '8'
    } else {
        '9'
    }
}

/// A number in decimal, without sign or leading zeros.
pub open spec fn decimal(n: nat) -> Seq<char>
    decreases n,
{
    if n < 10 {
        seq![digit_char(n as int)]
    } else {
        decimal(n / 10) + seq![digit_char((n % 10) as int)]
    }
}

/// What the standard `{:?}` format gives for a string: the string between
/// double quotes, with the characters escaped that the standard library
/// escapes there.
pub uninterp spec fn debug_quoted(text: Seq<char>) -> Seq<char>;

/// The items, separated by a comma and a space.
pub open spec fn separated(items: Seq<Seq<char>>) -> Seq<char>
    decreases items.len(),
{
    if items.len() == 0 {
        Seq::empty()
    } else if items.len() == 1 {
        items[0]
    } else {
        separated(items.drop_last()) + ", "@ + items.last()
    }
}

/// The items as a list: separated, between square brackets.
pub open spec fn bracketed(items: Seq<Seq<char>>) -> Seq<char> {
    "["@ + separated(items) + "]"@
}

/// Each string as the standard `{:?}` format shows it.
pub open spec fn all_quoted(items: Seq<Seq<char>>) -> Seq<Seq<char>> {
    Seq::new(items.len(), |i: int| debug_quoted(items[i]))
}

/// A list of strings as the standard `{:?}` format shows it: the quoted
/// items, separated, between square brackets.
pub open spec fn debug_list(items: Seq<Seq<char>>) -> Seq<char> {
    bracketed(all_quoted(items))
}

/// The views of the strings of a list.
pub open spec fn texts(items: Seq<String>) -> Seq<Seq<char>> {
    Seq::new(items.len(), |i: int| items[i]@)
}

fn digit_text(d: u32) -> (s: &'static str)
    requires
        d < 10,
    ensures
        s@ == seq![digit_char(d as int)],
{
    proof {
        reveal_strlit("0");
        reveal_strlit("1");
        reveal_strlit("2");
        reveal_strlit("3");
        reveal_strlit("4");
        reveal_strlit("5");
        reveal_strlit("6");
        reveal_strlit("7");
        reveal_strlit("8");
        reveal_strlit("9");
    }
    let s = if d == 0 {
        "0"
    } else if d == 1 {
        "1"
    } else if d == 2 {
        "2"
    } else if d == 3 {
        "3"
    } else if d == 4 {
        "4"
    } else if d == 5 {
        "5"
    } else if d == 6 {
        "6"
    } else if d == 7 {
        "7"
    } else if d == 8 {
        "8"
    } else {
        "9"
    };
    assert(s@ =~= seq![digit_char(d as int)]);
    s
}

/// Writes a number in decimal.
pub fn decimal_string(n: u32) -> (s: String)
    ensures
        s@ == decimal(n as nat),
{
    let mut out = String::from_str(digit_text(n % 10));
    let mut rest: u32 = n / 10;
    while rest > 0
        invariant
            rest > 0 ==> decimal(n as nat) == decimal(rest as nat) + out@,
            rest == 0 ==> decimal(n as nat) == out@,
        decreases rest,
    {
        let head = String::from_str(digit_text(rest % 10));
        let ghost before = out@;
        out = head.concat(out.as_str());
        proof {
            let d = seq![digit_char((rest % 10) as int)];
            assert(out@ == d + before);
            if rest >= 10 {
                assert(decimal(rest as nat) == decimal((rest / 10) as nat) + d);
                assert((decimal((rest / 10) as nat) + d) + before =~= decimal((rest / 10) as nat)
                    + (d + before));
            } else {
                assert(decimal(rest as nat) == d);
            }
        }
        rest = rest / 10;
    }
    out
}

/// Calls the standard `{:?}` format on a string. The contract names the
/// text that comes back; what the library's own functions build around it
/// is stated over that name.
#[verifier::external_body]
pub(crate) fn debug_quote(text: &str) -> (quoted: String)
    ensures
        quoted@ == debug_quoted(text@),
{
    format!("{:?}", text)
}

/// Writes the items as a list: separated by a comma and a space, between
/// square brackets.
pub fn bracket_list(items: &Vec<String>) -> (s: String)
    ensures
        s@ == bracketed(texts(items@)),
{
    let mut body = String::new();
    let mut i: usize = 0;
    while i < items.len()
        invariant
            i <= items.len(),
            body@ == separated(texts(items@).subrange(0, i as int)),
        decreases items.len() - i,
    {
        let ghost before = texts(items@).subrange(0, i as int);
        let ghost after = texts(items@).subrange(0, i + 1);
        proof {
            assert(after.drop_last() =~= before);
            assert(after.last() == items@[i as int]@);
        }
        if i > 0 {
            body.append(", ");
        }
        body.append(items[i].as_str());
        proof {
            if i == 0 {
                assert(before.len() == 0);
                assert(body@ =~= after[0]);
            }
        }
        i = i + 1;
    }
    proof {
        assert(texts(items@).subrange(0, i as int) =~= texts(items@));
    }
    let mut out = String::from_str("[");
    out.append(body.as_str());
    out.append("]");
    out
}

/// Writes a list of strings as the standard `{:?}` format shows it.
pub fn debug_list_string(items: &Vec<String>) -> (s: String)
    ensures
        s@ == debug_list(texts(items@)),
{
    let mut quoted: Vec<String> = Vec::new();
    let mut i: usize = 0;
    while i < items.len()
        invariant
            i <= items.len(),
            quoted.len() == i,
            forall|k: int| 0 <= k < i ==> quoted@[k]@ == debug_quoted(items@[k]@),
        decreases items.len() - i,
    {
        quoted.push(debug_quote(items[i].as_str()));
        i = i + 1;
    }
    proof {
        assert(texts(quoted@) =~= all_quoted(texts(items@)));
    }
    bracket_list(&quoted)
}

} // verus!
