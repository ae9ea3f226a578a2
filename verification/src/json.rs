use vstd::prelude::*;
use vstd::string::StringExecFns;
use crate::category::{Category, CategoryV};

verus! {

// The JSON texts this service responds with, rendered by verified code:
// a category object, an array of category objects, and a bare number.

/// Relies on std's String::push: appends exactly the one character.
#[verifier::external_body]
fn push_char(s: &mut String, c: char)
    ensures
        final(s)@ == old(s)@.push(c),
{
    s.push(c);
}

/// The decimal digit character of `d`.
pub open spec fn spec_digit_char(d: int) -> char {
    if d == 0 {
        '0'
    } else if d == 1 {
        '1'
    } else if d == 2 {
        '2'
    } else if d == 3 {
        '3'
    } else if d == 4 {
        '4'
    } else if d == 5 {
        '5'
    } else if d == 6 {
        '6'
    } else if d == 7 {
        '7'
    } else if d == 8 {
        '8'
    } else {
        '9'
    }
}

/// The decimal digit characters of `n`, most significant first.
pub open spec fn spec_decimal(n: int) -> Seq<char>
    decreases n,
{
    if n < 10 {
        seq![spec_digit_char(n % 10)]
    } else {
        spec_decimal(n / 10).push(spec_digit_char(n % 10))
    }
}

fn digit_char(d: u64) -> (c: char)
    requires
        d < 10,
    ensures
        c == spec_digit_char(d as int),
{
    if d == 0 {
        '0'
    } else if d == 1 {
        '1'
    } else if d == 2 {
        '2'
    } else if d == 3 {
        '3'
    } else if d == 4 {
        '4'
    } else if d == 5 {
        '5'
    } else if d == 6 {
        '6'
    } else if d == 7 {
        '7'
    } else if d == 8 {
        '8'
    } else {
        '9'
    }
}

/// Renders `n` in decimal; also the whole response body of a successful
/// insert, which answers with the generated identifier as a JSON number.
pub fn decimal_string(n: u64) -> (s: String)
    ensures
        s@ == spec_decimal(n as int),
    decreases n,
{
    if n < 10 {
        let mut s = String::new();
        let c = digit_char(n);
        push_char(&mut s, c);
        proof {
            assert(s@ =~= seq![spec_digit_char(n as int % 10)]);
        }
        s
    } else {
        let mut s = decimal_string(n / 10);
        let c = digit_char(n % 10);
        push_char(&mut s, c);
        s
    }
}

/// What one character contributes to a JSON string body: quote and
/// backslash are escaped, every other character stands as itself.
pub open spec fn spec_escaped_char(c: char) -> Seq<char> {
    if c == '"' {
        seq!['\\', '"']
    } else if c == '\\' {
        seq!['\\', '\\']
    } else {
        seq![c]
    }
}

/// The JSON string body of `s`, character by character.
pub open spec fn spec_json_escape(s: Seq<char>) -> Seq<char>
    decreases s.len(),
{
    if s.len() == 0 {
        Seq::empty()
    } else {
        spec_json_escape(s.drop_last()) + spec_escaped_char(s.last())
    }
}

/// Appends the JSON string body of `text` to `out`.
fn append_json_escaped(out: &mut String, text: &str)
    ensures
        final(out)@ == old(out)@ + spec_json_escape(text@),
{
    let n: usize = text.unicode_len();
    let mut i: usize = 0;
    while i < n
        invariant
            n == text@.len(),
            i <= n,
            out@ == old(out)@ + spec_json_escape(text@.take(i as int)),
        decreases n - i,
    {
        let c = text.get_char(i);
        if c == '"' {
            out.append("\\\"");
            proof {
                reveal_strlit("\\\"");
                assert("\\\""@ =~= spec_escaped_char(c));
            }
        } else if c == '\\' {
            out.append("\\\\");
            proof {
                reveal_strlit("\\\\");
                assert("\\\\"@ =~= spec_escaped_char(c));
            }
        } else {
            push_char(out, c);
            proof {
                assert(spec_escaped_char(c) =~= seq![c]);
            }
        }
        proof {
            assert(text@.take((i + 1) as int).drop_last() =~= text@.take(i as int));
            assert(out@ =~= old(out)@ + spec_json_escape(text@.take((i + 1) as int)));
        }
        i += 1;
    }
    proof {
        assert(text@.take(n as int) =~= text@);
    }
}

/// The JSON object text of one category.
pub open spec fn spec_category_json(c: CategoryV) -> Seq<char> {
    "{\"id\":"@ + spec_decimal(c.id as int) + ",\"name\":\""@ + spec_json_escape(c.name) + "\"}"@
}

/// Renders one category as a JSON object.
pub fn category_json(c: &Category) -> (s: String)
    ensures
        s@ == spec_category_json(c.deep_view()),
{
    let mut s = String::from_str("{\"id\":");
    let num = decimal_string(c.id.value());
    s.append(num.as_str());
    s.append(",\"name\":\"");
    append_json_escaped(&mut s, c.name.as_str());
    s.append("\"}");
    proof {
        assert(s@ =~= spec_category_json(c.deep_view()));
    }
    s
}

/// The bodies of the objects of a JSON array of categories, joined by
/// commas.
pub open spec fn spec_categories_json_items(s: Seq<CategoryV>) -> Seq<char>
    decreases s.len(),
{
    if s.len() == 0 {
        Seq::empty()
    } else if s.len() == 1 {
        spec_category_json(s[0])
    } else {
        spec_categories_json_items(s.drop_last()) + ","@ + spec_category_json(s.last())
    }
}

/// The JSON array text of a list of categories; an empty list renders as
/// `[]`.
pub open spec fn spec_categories_json(s: Seq<CategoryV>) -> Seq<char> {
    "["@ + spec_categories_json_items(s) + "]"@
}

/// Renders a list of categories as a JSON array.
pub fn categories_json(cats: &Vec<Category>) -> (s: String)
    ensures
        s@ == spec_categories_json(cats.deep_view()),
{
    let mut s = String::from_str("[");
    let mut i: usize = 0;
    while i < cats.len()
        invariant
            i <= cats@.len(),
            s@ == "["@ + spec_categories_json_items(cats.deep_view().take(i as int)),
        decreases cats@.len() - i,
    {
        if i > 0 {
            s.append(",");
        }
        let item = category_json(&cats[i]);
        s.append(item.as_str());
        proof {
            let dv = cats.deep_view();
            assert(dv[i as int] == cats@[i as int].deep_view());
            assert(dv.take((i + 1) as int).drop_last() =~= dv.take(i as int));
            if i == 0 {
                reveal_strlit(",");
            }
            assert(s@ =~= "["@ + spec_categories_json_items(dv.take((i + 1) as int)));
        }
        i += 1;
    }
    s.append("]");
    proof {
        assert(cats.deep_view().take(cats@.len() as int) =~= cats.deep_view());
        assert(s@ =~= spec_categories_json(cats.deep_view()));
    }
    s
}

} // verus!
