use vstd::prelude::*;

verus! {

/// Whether `s` holds a space character.
pub fn has_space(s: &str) -> (r: bool)
    ensures
        r == s@.contains(' '),
{
    let n = s.unicode_len();
    let mut i: usize = 0;
    while i < n
        invariant
            n == s@.len(),
            i <= n,
            forall|j: int| 0 <= j < i ==> s@[j] != ' ',
        decreases n - i,
    {
        if s.get_char(i) == ' ' {
            return true;
        }
        i = i + 1;
    }
    false
}

} // verus!

verus! {

/// `s` wrapped in double quotes.
pub open spec fn quoted(s: Seq<char>) -> Seq<char> {
    "\""@ + s + "\""@
}

/// `s` wrapped in double quotes when it holds a space, else `s` itself.
pub open spec fn quoted_if_spaced(s: Seq<char>) -> Seq<char> {
    if s.contains(' ') {
        quoted(s)
    } else {
        s
    }
}

/// The tokens written one after another with `sep` between neighbours.
pub open spec fn joined(tokens: Seq<Seq<char>>, sep: Seq<char>) -> Seq<char>
    decreases tokens.len(),
{
    if tokens.len() == 0 {
        Seq::empty()
    } else if tokens.len() == 1 {
        tokens[0]
    } else {
        joined(tokens.drop_last(), sep) + sep + tokens.last()
    }
}

/// Each token quoted where it holds a space.
pub open spec fn quoted_tokens(tokens: Seq<Seq<char>>) -> Seq<Seq<char>> {
    tokens.map_values(|t: Seq<char>| quoted_if_spaced(t))
}

/// How one character is written inside a double-quoted Python string literal.
pub open spec fn py_escaped_char(c: char) -> Seq<char> {
    if c == '\\' {
        seq!['\\', '\\']
    } else if c == '"' {
        seq!['\\', '"']
    } else {
        seq![c]
    }
}

/// `s` with backslashes and double quotes escaped for a Python string literal.
pub open spec fn py_escaped(s: Seq<char>) -> Seq<char>
    decreases s.len(),
{
    if s.len() == 0 {
        Seq::empty()
    } else {
        py_escaped(s.drop_last()) + py_escaped_char(s.last())
    }
}

/// Each token as a double-quoted Python string literal.
pub open spec fn python_literals(tokens: Seq<Seq<char>>) -> Seq<Seq<char>> {
    tokens.map_values(|t: Seq<char>| quoted(py_escaped(t)))
}

pub fn quote(s: &str) -> (r: String)
    ensures
        r@ == quoted(s@),
{
    let mut r = String::from_str("\"");
    r.append(s);
    r.append("\"");
    r
}

/// Quotes the tokens that hold a space.
pub fn quote_tokens(tokens: &Vec<String>) -> (r: Vec<String>)
    ensures
        r.deep_view() == quoted_tokens(tokens.deep_view()),
{
    let mut r: Vec<String> = Vec::new();
    let mut i: usize = 0;
    while i < tokens.len()
        invariant
            i <= tokens.len(),
            r.len() == i,
            forall|j: int| 0 <= j < i ==> (#[trigger] r@[j])@ == quoted_if_spaced(tokens@[j]@),
        decreases tokens.len() - i,
    {
        let t = tokens[i].as_str();
        if has_space(t) {
            r.push(quote(t));
        } else {
            r.push(String::from_str(t));
        }
        i = i + 1;
    }
    assert(r.deep_view() =~= quoted_tokens(tokens.deep_view()));
    r
}

/// Escapes backslashes and double quotes for a Python string literal.
pub fn py_escape(s: &str) -> (r: String)
    ensures
        r@ == py_escaped(s@),
{
    let n = s.unicode_len();
    let mut r = String::new();
    let mut i: usize = 0;
    while i < n
        invariant
            n == s@.len(),
            i <= n,
            r@ == py_escaped(s@.take(i as int)),
        decreases n - i,
    {
        proof {
            assert(s@.take(i as int + 1).drop_last() =~= s@.take(i as int));
        }
        let c = s.get_char(i);
        if c == '\\' {
            proof {
                reveal_strlit("\\\\");
            }
            r.append("\\\\");
        } else if c == '"' {
            proof {
                reveal_strlit("\\\"");
            }
            r.append("\\\"");
        } else {
            let one = s.substring_char(i, i + 1);
            assert(one@ =~= seq![c]);
            r.append(one);
        }
        i = i + 1;
    }
    assert(s@.take(n as int) =~= s@);
    r
}

/// Writes every token as a double-quoted Python string literal.
pub fn python_tokens(tokens: &Vec<String>) -> (r: Vec<String>)
    ensures
        r.deep_view() == python_literals(tokens.deep_view()),
{
    let mut r: Vec<String> = Vec::new();
    let mut i: usize = 0;
    while i < tokens.len()
        invariant
            i <= tokens.len(),
            r.len() == i,
            forall|j: int| 0 <= j < i ==> (#[trigger] r@[j])@ == quoted(py_escaped(tokens@[j]@)),
        decreases tokens.len() - i,
    {
        let e = py_escape(tokens[i].as_str());
        r.push(quote(e.as_str()));
        i = i + 1;
    }
    assert(r.deep_view() =~= python_literals(tokens.deep_view()));
    r
}

/// The tokens joined with `sep` between neighbours.
pub fn join(tokens: &Vec<String>, sep: &str) -> (r: String)
    ensures
        r@ == joined(tokens.deep_view(), sep@),
{
    let ghost all = tokens.deep_view();
    let mut r = String::new();
    let mut i: usize = 0;
    while i < tokens.len()
        invariant
            i <= tokens.len(),
            all == tokens.deep_view(),
            r@ == joined(all.take(i as int), sep@),
        decreases tokens.len() - i,
    {
        proof {
            assert(all.take(i as int + 1).drop_last() =~= all.take(i as int));
        }
        if i > 0 {
            r.append(sep);
        }
        r.append(tokens[i].as_str());
        i = i + 1;
    }
    assert(all.take(tokens.len() as int) =~= all);
    r
}

} // verus!

verus! {

/// A copy of every string, in order.
pub fn copy_all(v: &Vec<String>) -> (r: Vec<String>)
    ensures
        r.deep_view() == v.deep_view(),
{
    let mut r: Vec<String> = Vec::new();
    let mut i: usize = 0;
    while i < v.len()
        invariant
            i <= v.len(),
            r.len() == i,
            forall|j: int| 0 <= j < i ==> (#[trigger] r@[j])@ == v@[j]@,
        decreases v.len() - i,
    {
        r.push(v[i].clone());
        i = i + 1;
    }
    assert(r.deep_view() =~= v.deep_view());
    r
}

} // verus!
