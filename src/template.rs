use vstd::prelude::*;
use crate::text::{chars_of, push_all, string_of};

verus! {

/// A template names a variable that the item does not have.
#[derive(Debug, Clone, PartialEq, Eq)]
pub struct RenderError {
    /// The name between the braces.
    pub variable: String,
}

/// The value bound to `key`; where a key is bound more than once, the last binding wins.
pub open spec fn lookup(vars: Seq<(String, String)>, key: Seq<char>) -> Option<Seq<char>>
    decreases vars.len(),
{
    if vars.len() == 0 {
        None
    } else if vars.last().0@ == key {
        Some(vars.last().1@)
    } else {
        lookup(vars.drop_last(), key)
    }
}

/// The position of the first `}` in `t` at or after `j`.
pub open spec fn close_from(t: Seq<char>, j: int) -> Option<int>
    decreases t.len() - j,
{
    if j < 0 || j >= t.len() {
        None
    } else if t[j] == '}' {
        Some(j)
    } else {
        close_from(t, j + 1)
    }
}

/// `p` put in front of a rendered text, if there is one.
pub open spec fn prepend(p: Seq<char>, r: Option<Seq<char>>) -> Option<Seq<char>> {
    match r {
        Some(s) => Some(p + s),
        None => None,
    }
}

/// Template `t` rendered from position `i` on: `{name}` is replaced by the value of
/// `name`, a `{` with no `}` after it is kept as it is, and an unbound name gives `None`.
pub open spec fn render_from(t: Seq<char>, i: int, vars: Seq<(String, String)>) -> Option<Seq<char>>
    decreases t.len() - i,
    via render_from_decreases
{
    if i < 0 || i >= t.len() {
        Some(Seq::empty())
    } else if t[i] == '{' && close_from(t, i + 1) is Some {
        let k = close_from(t, i + 1)->0;
        match lookup(vars, t.subrange(i + 1, k)) {
            Some(v) => prepend(v, render_from(t, k + 1, vars)),
            None => None,
        }
    } else {
        prepend(seq![t[i]], render_from(t, i + 1, vars))
    }
}

proof fn lemma_close_from_bounds(t: Seq<char>, j: int)
    ensures
        close_from(t, j) matches Some(k) ==> j <= k < t.len() && t[k] == '}' && (forall|m: int|
            j <= m < k ==> t[m] != '}'),
        0 <= j && close_from(t, j) is None ==> forall|m: int| j <= m < t.len() ==> t[m] != '}',
    decreases t.len() - j,
{
    if 0 <= j < t.len() && t[j] != '}' {
        lemma_close_from_bounds(t, j + 1);
    }
}

#[via_fn]
proof fn render_from_decreases(t: Seq<char>, i: int, vars: Seq<(String, String)>) {
    lemma_close_from_bounds(t, i + 1);
}

/// Template `t` rendered with `vars`, or `None` when it names an unbound variable.
pub open spec fn rendered(t: Seq<char>, vars: Seq<(String, String)>) -> Option<Seq<char>> {
    render_from(t, 0, vars)
}

/// Finds the value bound to `key` (the last binding wins).
pub fn lookup_var<'a>(vars: &'a Vec<(String, String)>, key: &String) -> (r: Option<&'a String>)
    ensures
        r is Some <==> lookup(vars@, key@) is Some,
        r matches Some(v) ==> lookup(vars@, key@) == Some(v@),
{
    let mut n: usize = vars.len();
    assert(vars@.take(n as int) =~= vars@);
    while n > 0
        invariant
            n <= vars@.len(),
            lookup(vars@, key@) == lookup(vars@.take(n as int), key@),
        decreases n,
    {
        let ghost pre = vars@.take(n as int);
        assert(pre.drop_last() =~= vars@.take(n - 1));
        if vars[n - 1].0 == *key {
            return Some(&vars[n - 1].1);
        }
        n = n - 1;
    }
    None
}

/// Replaces each `{name}` in `template` by the value of `name` in `vars`.
/// A `{` with no closing `}` is kept literally. Fails on the first name
/// that `vars` does not bind.
pub fn substitute(template: &str, vars: &Vec<(String, String)>) -> (r: Result<String, RenderError>)
    ensures
        r is Ok <==> rendered(template@, vars@) is Some,
        r matches Ok(s) ==> rendered(template@, vars@) == Some(s@),
{
    let t = chars_of(template);
    let mut out: Vec<char> = Vec::new();
    let mut i: usize = 0;
    while i < t.len()
        invariant
            i <= t@.len(),
            t@ == template@,
            rendered(t@, vars@) == prepend(out@, render_from(t@, i as int, vars@)),
        decreases t@.len() - i,
    {
        let ghost prev = out@;
        let mut close: usize = i + 1;
        if t[i] == '{' {
            while close < t.len() && t[close] != '}'
                invariant
                    i < close <= t@.len(),
                    close_from(t@, i + 1) == close_from(t@, close as int),
                decreases t@.len() - close,
            {
                close = close + 1;
            }
        }
        if t[i] == '{' && close < t.len() {
            proof {
                lemma_close_from_bounds(t@, i + 1);
            }
            let mut name_chars: Vec<char> = Vec::new();
            let mut m: usize = i + 1;
            while m < close
                invariant
                    i + 1 <= m <= close < t@.len(),
                    name_chars@ == t@.subrange(i + 1, m as int),
                decreases close - m,
            {
                name_chars.push(t[m]);
                m = m + 1;
                assert(name_chars@ =~= t@.subrange(i + 1, m as int));
            }
            let name = string_of(&name_chars);
            match lookup_var(vars, &name) {
                Some(v) => {
                    let vc = chars_of(v.as_str());
                    push_all(&mut out, &vc);
                    let ghost rest = render_from(t@, close + 1, vars@);
                    assert(prepend(out@, rest) == prepend(prev, prepend(vc@, rest))) by {
                        if rest is Some {
                            assert(out@ + rest->0 =~= prev + (vc@ + rest->0));
                        }
                    }
                    i = close + 1;
                },
                None => {
                    return Err(RenderError { variable: name });
                },
            }
        } else {
            let ghost rest = render_from(t@, i + 1, vars@);
            out.push(t[i]);
            assert(prepend(out@, rest) == prepend(prev, prepend(seq![t@[i as int]], rest))) by {
                if rest is Some {
                    assert(out@ + rest->0 =~= prev + (seq![t@[i as int]] + rest->0));
                }
            }
            i = i + 1;
        }
    }
    assert(out@ + Seq::<char>::empty() =~= out@);
    Ok(string_of(&out))
}

proof fn lemma_close_at(t: Seq<char>, j: int, k: int)
    requires
        0 <= j <= k < t.len(),
        t[k] == '}',
        forall|m: int| j <= m < k ==> t[m] != '}',
    ensures
        close_from(t, j) == Some(k),
    decreases k - j,
{
    if j < k {
        lemma_close_at(t, j + 1, k);
    }
}

/// A template fails to render when its first placeholder names a variable that
/// `vars` does not bind: `pre` holds no opening brace, `name` no closing brace.
pub proof fn lemma_undefined_variable_fails(
    pre: Seq<char>,
    name: Seq<char>,
    post: Seq<char>,
    vars: Seq<(String, String)>,
)
    requires
        forall|m: int| 0 <= m < pre.len() ==> pre[m] != '{',
        forall|m: int| 0 <= m < name.len() ==> name[m] != '}',
        lookup(vars, name) is None,
    ensures
        rendered(pre + seq!['{'] + name + seq!['}'] + post, vars) is None,
{
    let t = pre + seq!['{'] + name + seq!['}'] + post;
    let i = pre.len() as int;
    let k = i + 1 + name.len();
    assert(t[i] == '{');
    assert(t[k] == '}');
    assert forall|m: int| i + 1 <= m < k implies t[m] != '}' by {
        assert(t[m] == name[m - i - 1]);
    }
    lemma_close_at(t, i + 1, k);
    assert(t.subrange(i + 1, k) =~= name);
    assert(render_from(t, i, vars) is None);
    lemma_render_from_step(t, pre, vars, 0);
}

/// Text without an opening brace in front of a failing rest fails too.
proof fn lemma_render_from_step(t: Seq<char>, pre: Seq<char>, vars: Seq<(String, String)>, j: int)
    requires
        0 <= j <= pre.len() < t.len(),
        forall|m: int| 0 <= m < pre.len() ==> t[m] == pre[m] && pre[m] != '{',
        render_from(t, pre.len() as int, vars) is None,
    ensures
        render_from(t, j, vars) is None,
    decreases pre.len() - j,
{
    if j < pre.len() {
        lemma_render_from_step(t, pre, vars, j + 1);
    }
}

} // verus!
