use vstd::prelude::*;
use vstd::string::StringExecFns;

verus! {

/// The text of one decimal digit.
pub open spec fn digit_text(d: int) -> Seq<char> {
    if d == 0 {
        "0"@
    } else if d == 1 {
        "1"@
    } else if d == 2 {
        "2"@
    } else if d == 3 {
        "3"@
    } else if d == 4 {
        "4"@
    } else if d == 5 {
        "5"@
    } else if d == 6 {
        "6"@
    } else if d == 7 {
        "7"@
    } else if d == 8 {
        "8"@
    } else {
        "9"@
    }
}

/// The decimal notation of a natural number, without leading zeros.
pub open spec fn decimal(n: nat) -> Seq<char>
    decreases n,
{
    if n < 10 {
        digit_text(n as int)
    } else {
        decimal(n / 10) + digit_text((n % 10) as int)
    }
}

/// Parts written one after the other with `sep` between each two.
pub open spec fn joined(parts: Seq<Seq<char>>, sep: Seq<char>) -> Seq<char>
    decreases parts.len(),
{
    if parts.len() == 0 {
        Seq::empty()
    } else if parts.len() == 1 {
        parts[0]
    } else {
        joined(parts.drop_last(), sep) + sep + parts.last()
    }
}

/// The texts of a sequence of strings.
pub open spec fn texts(s: Seq<String>) -> Seq<Seq<char>> {
    s.map_values(|x: String| x@)
}

fn digit(d: usize) -> (r: &'static str)
    requires
        d < 10,
    ensures
        r@ == digit_text(d as int),
{
    if d == 0 {
        "0"
    } else if d == 1 {
        "1"
    } else if d == 2 {
        "2"
    } else if d == 3 {
        "3"
    } else if d == 4 {
        "4"
    } else if d == 5 {
        "5"
    } else if d == 6 {
        "6"
    } else if d == 7 {
        "7"
    } else if d == 8 {
        "8"
    } else {
        "9"
    }
}

/// The decimal notation of `n`.
pub fn decimal_string(n: usize) -> (r: String)
    ensures
        r@ == decimal(n as nat),
    decreases n,
{
    if n < 10 {
        String::from_str(digit(n))
    } else {
        let mut s = decimal_string(n / 10);
        s.append(digit(n % 10));
        s
    }
}

/// The strings written one after the other, `sep` between each two.
pub fn join(parts: &[String], sep: &str) -> (r: String)
    ensures
        r@ == joined(texts(parts@), sep@),
{
    let mut r = String::new();
    let mut i: usize = 0;
    while i < parts.len()
        invariant
            0 <= i <= parts@.len(),
            r@ == joined(texts(parts@.subrange(0, i as int)), sep@),
        decreases parts@.len() - i,
    {
        proof {
            assert(texts(parts@.subrange(0, i as int + 1)).drop_last() =~= texts(
                parts@.subrange(0, i as int),
            ));
        }
        if i > 0 {
            r.append(sep);
        }
        r.append(parts[i].as_str());
        i = i + 1;
    }
    proof {
        assert(parts@.subrange(0, i as int) =~= parts@);
    }
    r
}

/// Appends a copy of `text`.
pub fn push_text(v: &mut Vec<String>, text: &str)
    ensures
        texts(final(v)@) == texts(old(v)@).push(text@),
{
    v.push(text.to_owned());
    proof {
        assert(texts(v@) =~= texts(old(v)@).push(text@));
    }
}

/// `[text]` where `cond` holds, else nothing.
pub open spec fn text_if(cond: bool, text: Seq<char>) -> Seq<Seq<char>> {
    if cond {
        seq![text]
    } else {
        Seq::empty()
    }
}

/// A text between backquotes.
pub open spec fn quoted(field: Seq<char>) -> Seq<char> {
    "`"@ + field + "`"@
}

/// Each text between backquotes, the texts separated by commas.
pub open spec fn quoted_list(fields: Seq<Seq<char>>) -> Seq<char> {
    joined(fields.map_values(|s: Seq<char>| quoted(s)), ", "@)
}

/// Appends each string between backquotes, separated by commas.
pub fn append_quoted_list(r: &mut String, fields: &[String])
    ensures
        final(r)@ == old(r)@ + quoted_list(texts(fields@)),
{
    let ghost start = r@;
    let mut i: usize = 0;
    while i < fields.len()
        invariant
            0 <= i <= fields@.len(),
            r@ == start + quoted_list(texts(fields@.subrange(0, i as int))),
        decreases fields@.len() - i,
    {
        proof {
            assert(texts(fields@.subrange(0, i as int + 1)).map_values(|s: Seq<char>| quoted(s)).drop_last()
                =~= texts(fields@.subrange(0, i as int)).map_values(|s: Seq<char>| quoted(s)));
        }
        if i > 0 {
            r.append(", ");
        }
        r.append("`");
        r.append(fields[i].as_str());
        r.append("`");
        i = i + 1;
    }
    proof {
        assert(fields@.subrange(0, i as int) =~= fields@);
    }
}

} // verus!
