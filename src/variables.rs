use vstd::prelude::*;
use crate::source::{parse_rfc2822, rfc2822_seconds, utc_date_text, utc_text, AtomEntry, RssEntry, RssExtension};
use crate::text::{chars_of, string_of};

verus! {

/// Template variables as pairs of character sequences.
pub open spec fn vars_view(s: Seq<(String, String)>) -> Seq<(Seq<char>, Seq<char>)> {
    s.map_values(|p: (String, String)| (p.0@, p.1@))
}

/// The strings of `s` as character sequences.
pub open spec fn strings_view(s: Seq<String>) -> Seq<Seq<char>> {
    s.map_values(|x: String| x@)
}

/// One variable `name` when `v` is present, none otherwise.
pub open spec fn opt_var(name: Seq<char>, v: Option<String>) -> Seq<(Seq<char>, Seq<char>)> {
    match v {
        Some(x) => seq![(name, x@)],
        None => Seq::empty(),
    }
}

/// `parts` with `sep` between each two neighbours.
pub open spec fn joined(parts: Seq<Seq<char>>, sep: Seq<char>) -> Seq<char>
    decreases parts.len(),
{
    if parts.len() == 0 {
        Seq::empty()
    } else if parts.len() == 1 {
        parts[0]
    } else {
        joined(parts.drop_last(), sep) + sep + parts.last()
    }
}

/// `s` with each `:` written as `_`.
pub open spec fn underscored(s: Seq<char>) -> Seq<char> {
    s.map_values(|c: char| if c == ':' { '_' } else { c })
}

/// The variables that the attributes of extension `x` give: `<name>_<attribute>`.
pub open spec fn attr_vars(x: RssExtension) -> Seq<(Seq<char>, Seq<char>)> {
    x.attrs@.map_values(|a: (String, String)| (underscored(x.name@) + seq!['_'] + a.0@, a.1@))
}

/// The attribute variables of all of `exts`, extension by extension.
pub open spec fn ext_attr_vars(exts: Seq<RssExtension>) -> Seq<(Seq<char>, Seq<char>)>
    decreases exts.len(),
{
    if exts.len() == 0 {
        Seq::empty()
    } else {
        ext_attr_vars(exts.drop_last()) + attr_vars(exts.last())
    }
}

/// One variable `<name>` for each of `exts` that has a value.
pub open spec fn ext_value_vars(exts: Seq<RssExtension>) -> Seq<(Seq<char>, Seq<char>)>
    decreases exts.len(),
{
    if exts.len() == 0 {
        Seq::empty()
    } else {
        ext_value_vars(exts.drop_last()) + match exts.last().value {
            Some(v) => seq![(underscored(exts.last().name@), v@)],
            None => Seq::empty(),
        }
    }
}

/// The instant of RSS date `d`, in seconds since the Unix epoch; 0 where it does not parse.
pub open spec fn published_seconds(d: Seq<char>) -> i64 {
    match rfc2822_seconds(d) {
        Some(t) => t,
        None => 0,
    }
}

/// The publication instant of an RSS entry: its parsed date, 0 where it has none
/// or it does not parse.
pub fn rss_published_at(e: &RssEntry) -> (r: i64)
    ensures
        r == match e.pub_date {
            Some(d) => published_seconds(d@),
            None => 0,
        },
{
    match &e.pub_date {
        Some(d) => match parse_rfc2822(d.as_str()) {
            Some(t) => t,
            None => 0,
        },
        None => 0,
    }
}

/// The variables of an RSS entry, in the order they are listed.
pub open spec fn rss_vars(e: RssEntry) -> Seq<(Seq<char>, Seq<char>)> {
    opt_var("title"@, e.title) + opt_var("description"@, e.description) + opt_var("link"@, e.link)
        + opt_var("comments"@, e.comments) + match e.pub_date {
        Some(d) => seq![("pub_date"@, utc_text(published_seconds(d@)))],
        None => Seq::empty(),
    } + seq![("categories"@, joined(strings_view(e.categories@), ", "@))] + ext_attr_vars(
        e.extensions@,
    ) + ext_value_vars(e.extensions@)
}

/// The variables of an Atom entry, in the order they are listed.
pub open spec fn atom_vars(e: AtomEntry) -> Seq<(Seq<char>, Seq<char>)> {
    seq![("title"@, e.title@)] + opt_var("description"@, e.summary) + opt_var("link"@, e.link)
        + opt_var("author"@, e.author) + seq![("pub_date"@, e.updated_text@)] + seq![
        ("categories"@, joined(strings_view(e.categories@), ", "@)),
    ]
}

fn push_var(vars: &mut Vec<(String, String)>, key: String, value: String)
    ensures
        vars_view(final(vars)@) == vars_view(old(vars)@).push((key@, value@)),
{
    vars.push((key, value));
    assert(vars_view(vars@) =~= vars_view(old(vars)@).push((key@, value@)));
}

fn push_opt(vars: &mut Vec<(String, String)>, key: &str, value: &Option<String>)
    ensures
        vars_view(final(vars)@) == vars_view(old(vars)@) + opt_var(key@, *value),
{
    match value {
        Some(v) => {
            push_var(vars, key.to_owned(), v.clone());
            assert(vars_view(vars@) =~= vars_view(old(vars)@) + opt_var(key@, *value));
        },
        None => {
            assert(vars_view(vars@) =~= vars_view(old(vars)@) + opt_var(key@, *value));
        },
    }
}

/// Joins `parts` with `sep` between each two neighbours.
pub fn join(parts: &Vec<String>, sep: &str) -> (r: String)
    ensures
        r@ == joined(strings_view(parts@), sep@),
{
    let sc = chars_of(sep);
    let mut out: Vec<char> = Vec::new();
    let mut k: usize = 0;
    while k < parts.len()
        invariant
            k <= parts@.len(),
            sc@ == sep@,
            out@ == joined(strings_view(parts@.take(k as int)), sep@),
        decreases parts@.len() - k,
    {
        let ghost prev = out@;
        let pc = chars_of(parts[k].as_str());
        if k > 0 {
            crate::text::push_all(&mut out, &sc);
        }
        crate::text::push_all(&mut out, &pc);
        proof {
            let s = strings_view(parts@.take(k + 1));
            assert(s.drop_last() =~= strings_view(parts@.take(k as int)));
            assert(s.last() == parts@[k as int]@);
            if k == 0 {
                assert(out@ =~= s[0]);
            } else {
                assert(out@ =~= prev + sep@ + s.last());
            }
        }
        k = k + 1;
    }
    assert(parts@.take(k as int) =~= parts@);
    string_of(&out)
}

/// `s` with each `:` written as `_`.
pub fn underscore_colons(s: &str) -> (r: String)
    ensures
        r@ == underscored(s@),
{
    let cs = chars_of(s);
    let mut out: Vec<char> = Vec::new();
    let mut k: usize = 0;
    while k < cs.len()
        invariant
            k <= cs@.len(),
            cs@ == s@,
            out@ == underscored(cs@.take(k as int)),
        decreases cs@.len() - k,
    {
        if cs[k] == ':' {
            out.push('_');
        } else {
            out.push(cs[k]);
        }
        k = k + 1;
        assert(out@ =~= underscored(cs@.take(k as int)));
    }
    assert(cs@.take(k as int) =~= cs@);
    string_of(&out)
}

/// Appends the attribute variables of every extension, extension by extension.
fn push_attr_vars(vars: &mut Vec<(String, String)>, exts: &Vec<RssExtension>)
    ensures
        vars_view(final(vars)@) == vars_view(old(vars)@) + ext_attr_vars(exts@),
{
    let ghost base = vars_view(vars@);
    let mut k: usize = 0;
    while k < exts.len()
        invariant
            k <= exts@.len(),
            vars_view(vars@) == base + ext_attr_vars(exts@.take(k as int)),
        decreases exts@.len() - k,
    {
        let x = &exts[k];
        let name = underscore_colons(x.name.as_str());
        let ghost before = vars_view(vars@);
        let mut j: usize = 0;
        while j < x.attrs.len()
            invariant
                j <= x.attrs@.len(),
                name@ == underscored(x.name@),
                vars_view(vars@) == before + attr_vars(*x).take(j as int),
            decreases x.attrs@.len() - j,
        {
            let mut key = name.clone();
            key.append("_");
            key.append(x.attrs[j].0.as_str());
            proof {
                reveal_strlit("_");
            }
            let ghost mid = vars_view(vars@);
            push_var(vars, key, x.attrs[j].1.clone());
            assert(key@ == underscored(x.name@) + seq!['_'] + x.attrs@[j as int].0@);
            assert(attr_vars(*x).take(j + 1) =~= attr_vars(*x).take(j as int).push(
                attr_vars(*x)[j as int],
            ));
            j = j + 1;
        }
        proof {
            assert(attr_vars(*x).take(j as int) =~= attr_vars(*x));
            assert(exts@.take(k + 1).drop_last() =~= exts@.take(k as int));
            assert(vars_view(vars@) =~= base + ext_attr_vars(exts@.take(k + 1)));
        }
        k = k + 1;
    }
    assert(exts@.take(k as int) =~= exts@);
}

/// Appends one variable for each extension that has a value.
fn push_value_vars(vars: &mut Vec<(String, String)>, exts: &Vec<RssExtension>)
    ensures
        vars_view(final(vars)@) == vars_view(old(vars)@) + ext_value_vars(exts@),
{
    let ghost base = vars_view(vars@);
    let mut k: usize = 0;
    while k < exts.len()
        invariant
            k <= exts@.len(),
            vars_view(vars@) == base + ext_value_vars(exts@.take(k as int)),
        decreases exts@.len() - k,
    {
        let x = &exts[k];
        let ghost before = vars_view(vars@);
        match &x.value {
            Some(v) => {
                let name = underscore_colons(x.name.as_str());
                push_var(vars, name, v.clone());
            },
            None => {},
        }
        proof {
            assert(exts@.take(k + 1).drop_last() =~= exts@.take(k as int));
            assert(exts@.take(k + 1).last() == *x);
            assert(vars_view(vars@) =~= base + ext_value_vars(exts@.take(k + 1)));
        }
        k = k + 1;
    }
    assert(exts@.take(k as int) =~= exts@);
}

/// The template variables of an RSS entry: title, description, link, comments and
/// pub_date where present, categories always, then one variable per extension
/// attribute and one per extension value.
pub fn rss_variables(e: &RssEntry) -> (r: Vec<(String, String)>)
    ensures
        vars_view(r@) == rss_vars(*e),
{
    let mut vars: Vec<(String, String)> = Vec::new();
    assert(vars_view(vars@) =~= Seq::empty());
    push_opt(&mut vars, "title", &e.title);
    assert(vars_view(vars@) =~= opt_var("title"@, e.title));
    push_opt(&mut vars, "description", &e.description);
    push_opt(&mut vars, "link", &e.link);
    push_opt(&mut vars, "comments", &e.comments);
    let ghost before_date = vars_view(vars@);
    match &e.pub_date {
        Some(_) => {
            push_var(&mut vars, "pub_date".to_owned(), utc_date_text(rss_published_at(e)));
        },
        None => {},
    }
    assert(vars_view(vars@) =~= before_date + match e.pub_date {
        Some(d) => seq![("pub_date"@, utc_text(published_seconds(d@)))],
        None => Seq::<(Seq<char>, Seq<char>)>::empty(),
    });
    push_var(&mut vars, "categories".to_owned(), join(&e.categories, ", "));
    push_attr_vars(&mut vars, &e.extensions);
    push_value_vars(&mut vars, &e.extensions);
    vars
}

/// The template variables of an Atom entry: title, description and link where
/// present, author where there is one, pub_date and categories always.
pub fn atom_variables(e: &AtomEntry) -> (r: Vec<(String, String)>)
    ensures
        vars_view(r@) == atom_vars(*e),
{
    let mut vars: Vec<(String, String)> = Vec::new();
    push_var(&mut vars, "title".to_owned(), e.title.clone());
    assert(vars_view(vars@) =~= seq![("title"@, e.title@)]);
    push_opt(&mut vars, "description", &e.summary);
    push_opt(&mut vars, "link", &e.link);
    push_opt(&mut vars, "author", &e.author);
    push_var(&mut vars, "pub_date".to_owned(), e.updated_text.clone());
    push_var(&mut vars, "categories".to_owned(), join(&e.categories, ", "));
    vars
}

} // verus!
