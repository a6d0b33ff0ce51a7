use vstd::prelude::*;
use crate::config::{
    ConfigFeedDiscordReceiver, ConfigFeedDiscordReceiverEmbed, ConfigFeedDiscordReceiverEmbedField,
    ConfigFeedDiscordReceiverOverride,
};
use crate::source::{first_match, regex_first_match};
use crate::database::DatabaseFeedItem;
use crate::template::{lookup, lookup_var, rendered, substitute, RenderError};
use crate::text::{chars_of, string_of};

verus! {

/// Longest embed title, in characters.
pub const TITLE_LIMIT: usize = 256;
/// Longest embed description, in characters.
pub const DESCRIPTION_LIMIT: usize = 4096;
/// Longest embed footer, in characters.
pub const FOOTER_LIMIT: usize = 2048;
/// Longest embed field name, in characters.
pub const FIELD_NAME_LIMIT: usize = 256;
/// Longest embed field value, in characters.
pub const FIELD_VALUE_LIMIT: usize = 1024;

/// A field of an embed, as posted.
#[derive(Debug, Clone)]
pub struct DiscordEmbedField {
    pub name: String,
    pub value: String,
    pub inline: bool,
}

/// An embed, as posted. `image` and `thumbnail` are posted as `{"url": ...}`,
/// `footer` as `{"text": ...}`.
#[derive(Debug, Clone)]
pub struct DiscordEmbed {
    pub title: Option<String>,
    pub description: Option<String>,
    pub url: Option<String>,
    pub image: Option<String>,
    pub thumbnail: Option<String>,
    pub footer: Option<String>,
    pub fields: Vec<DiscordEmbedField>,
}

/// A webhook message, as posted.
#[derive(Debug, Clone)]
pub struct DiscordMessage {
    pub content: Option<String>,
    pub embeds: Vec<DiscordEmbed>,
}

/// Renders items for one Discord webhook.
#[derive(Debug, Clone)]
pub struct DiscordReceiver {
    pub config: ConfigFeedDiscordReceiver,
}

/// The first `len` characters of `s`, or all of `s` if it is shorter.
pub open spec fn truncated(s: Seq<char>, len: nat) -> Seq<char> {
    if s.len() <= len {
        s
    } else {
        s.take(len as int)
    }
}

/// Cuts `input` after its first `len` characters; a shorter input is kept whole.
pub fn trunc(input: &str, len: usize) -> (r: String)
    ensures
        r@ == truncated(input@, len as nat),
{
    let cs = chars_of(input);
    let mut out: Vec<char> = Vec::new();
    let mut i: usize = 0;
    while i < len && i < cs.len()
        invariant
            i <= cs@.len(),
            i <= len,
            cs@ == input@,
            out@ == cs@.take(i as int),
        decreases cs@.len() - i,
    {
        out.push(cs[i]);
        i = i + 1;
        assert(cs@.take(i as int) == cs@.take(i - 1) + seq![cs@[i - 1]]);
    }
    if cs.len() <= len {
        assert(cs@.take(cs@.len() as int) == cs@);
    }
    string_of(&out)
}

/// `out` is template `t` rendered with `vars`, cut to `limit` characters if one is given.
pub open spec fn text_is(t: Seq<char>, vars: Seq<(String, String)>, limit: Option<usize>, out: Seq<char>) -> bool {
    &&& rendered(t, vars) is Some
    &&& out == match limit {
        Some(n) => truncated(rendered(t, vars)->0, n as nat),
        None => rendered(t, vars)->0,
    }
}

/// `out` is present exactly when template `t` is, and then is its rendering.
pub open spec fn opt_text_is(t: Option<String>, vars: Seq<(String, String)>, limit: Option<usize>, out: Option<String>) -> bool {
    match t {
        Some(x) => out matches Some(o) && text_is(x@, vars, limit, o@),
        None => out is None,
    }
}

/// Template `t`, where present, renders with `vars`.
pub open spec fn opt_renders(t: Option<String>, vars: Seq<(String, String)>) -> bool {
    t matches Some(x) ==> rendered(x@, vars) is Some
}

pub open spec fn field_renders(f: ConfigFeedDiscordReceiverEmbedField, vars: Seq<(String, String)>) -> bool {
    rendered(f.name@, vars) is Some && rendered(f.value@, vars) is Some
}

pub open spec fn embed_renders(e: ConfigFeedDiscordReceiverEmbed, vars: Seq<(String, String)>) -> bool {
    &&& opt_renders(e.title, vars)
    &&& opt_renders(e.description, vars)
    &&& opt_renders(e.url, vars)
    &&& opt_renders(e.image, vars)
    &&& opt_renders(e.thumbnail, vars)
    &&& opt_renders(e.footer, vars)
    &&& forall|k: int| 0 <= k < e.fields@.len() ==> field_renders(#[trigger] e.fields@[k], vars)
}

/// The content template, where present, and every embed template render with `vars`.
pub open spec fn message_renders(content: Option<String>, embeds: Seq<ConfigFeedDiscordReceiverEmbed>, vars: Seq<(String, String)>) -> bool {
    &&& opt_renders(content, vars)
    &&& forall|k: int| 0 <= k < embeds.len() ==> embed_renders(#[trigger] embeds[k], vars)
}

pub open spec fn field_is(out: DiscordEmbedField, f: ConfigFeedDiscordReceiverEmbedField, vars: Seq<(String, String)>) -> bool {
    &&& text_is(f.name@, vars, Some(FIELD_NAME_LIMIT), out.name@)
    &&& text_is(f.value@, vars, Some(FIELD_VALUE_LIMIT), out.value@)
    &&& out.inline == f.inline
}

pub open spec fn embed_is(out: DiscordEmbed, e: ConfigFeedDiscordReceiverEmbed, vars: Seq<(String, String)>) -> bool {
    &&& opt_text_is(e.title, vars, Some(TITLE_LIMIT), out.title)
    &&& opt_text_is(e.description, vars, Some(DESCRIPTION_LIMIT), out.description)
    &&& opt_text_is(e.url, vars, None, out.url)
    &&& opt_text_is(e.image, vars, None, out.image)
    &&& opt_text_is(e.thumbnail, vars, None, out.thumbnail)
    &&& opt_text_is(e.footer, vars, Some(FOOTER_LIMIT), out.footer)
    &&& out.fields@.len() == e.fields@.len()
    &&& forall|k: int| 0 <= k < out.fields@.len() ==> field_is(#[trigger] out.fields@[k], e.fields@[k], vars)
}

/// `out` is the message rendered from `vars` with content template `content` and
/// embed templates `embeds`.
pub open spec fn message_is(out: DiscordMessage, content: Option<String>, embeds: Seq<ConfigFeedDiscordReceiverEmbed>, vars: Seq<(String, String)>) -> bool {
    &&& opt_text_is(content, vars, None, out.content)
    &&& out.embeds@.len() == embeds.len()
    &&& forall|k: int| 0 <= k < out.embeds@.len() ==> embed_is(#[trigger] out.embeds@[k], embeds[k], vars)
}

/// Override rule `r` applies to an item with variables `vars`: the variable it
/// names has a value, and its regex matches that value.
pub open spec fn rule_applies(r: ConfigFeedDiscordReceiverOverride, vars: Seq<(String, String)>) -> bool {
    lookup(vars, r.field@) matches Some(v) && regex_first_match(r.regex@, v) is Some
}

/// The index of the first rule of `rules` at or after `j` that applies.
pub open spec fn first_rule_from(rules: Seq<ConfigFeedDiscordReceiverOverride>, vars: Seq<(String, String)>, j: int) -> Option<int>
    decreases rules.len() - j,
{
    if j < 0 || j >= rules.len() {
        None
    } else if rule_applies(rules[j], vars) {
        Some(j)
    } else {
        first_rule_from(rules, vars, j + 1)
    }
}

/// The webhook that receiver `c` posts an item with variables `vars` to: that of
/// the first applying override rule where it sets one, else the receiver's own.
pub open spec fn effective_webhook(c: ConfigFeedDiscordReceiver, vars: Seq<(String, String)>) -> Seq<char> {
    match first_rule_from(c.overrides@, vars, 0) {
        Some(k) => match c.overrides@[k].webhook_url {
            Some(u) => u@,
            None => c.webhook_url@,
        },
        None => c.webhook_url@,
    }
}

/// The content template that receiver `c` renders for an item with variables
/// `vars`: that of the first applying override rule where it sets one, else the
/// receiver's own.
pub open spec fn effective_content(c: ConfigFeedDiscordReceiver, vars: Seq<(String, String)>) -> Option<String> {
    match first_rule_from(c.overrides@, vars, 0) {
        Some(k) => match c.overrides@[k].content {
            Some(t) => Some(t),
            None => c.content,
        },
        None => c.content,
    }
}

/// The index of the first override rule that applies to an item with variables `vars`.
pub fn first_applying_rule(rules: &Vec<ConfigFeedDiscordReceiverOverride>, vars: &Vec<(String, String)>) -> (r: Option<usize>)
    ensures
        r matches Some(k) ==> k < rules@.len() && first_rule_from(rules@, vars@, 0) == Some(k as int),
        r is None ==> first_rule_from(rules@, vars@, 0) is None,
{
    let mut k: usize = 0;
    while k < rules.len()
        invariant
            k <= rules@.len(),
            first_rule_from(rules@, vars@, 0) == first_rule_from(rules@, vars@, k as int),
        decreases rules@.len() - k,
    {
        let rule = &rules[k];
        match lookup_var(vars, &rule.field) {
            Some(v) => {
                if first_match(rule.regex.as_str(), v.as_str()).is_some() {
                    return Some(k);
                }
            },
            None => {},
        }
        k = k + 1;
    }
    None
}

/// The webhook and the content template of receiver `config` for an item with
/// variables `vars`, once the first applying override rule is taken into account.
pub fn resolve_overrides<'a>(config: &'a ConfigFeedDiscordReceiver, vars: &Vec<(String, String)>) -> (r: (&'a String, &'a Option<String>))
    ensures
        r.0@ == effective_webhook(*config, vars@),
        *r.1 == effective_content(*config, vars@),
{
    match first_applying_rule(&config.overrides, vars) {
        Some(k) => {
            let rule = &config.overrides[k];
            let hook = match &rule.webhook_url {
                Some(u) => u,
                None => &config.webhook_url,
            };
            let content = if rule.content.is_some() {
                &rule.content
            } else {
                &config.content
            };
            (hook, content)
        },
        None => (&config.webhook_url, &config.content),
    }
}

/// A rendering at least `n` characters long is delivered cut to exactly its
/// first `n` characters.
pub proof fn lemma_limit_cuts_long_text(t: Seq<char>, vars: Seq<(String, String)>, n: usize, out: Seq<char>)
    requires
        text_is(t, vars, Some(n), out),
        rendered(t, vars)->0.len() >= n,
    ensures
        out.len() == n,
        out == rendered(t, vars)->0.take(n as int),
{
}

fn render_text(t: &String, vars: &Vec<(String, String)>, limit: Option<usize>) -> (r: Result<String, RenderError>)
    ensures
        r is Ok <==> rendered(t@, vars@) is Some,
        r matches Ok(o) ==> text_is(t@, vars@, limit, o@),
{
    let s = substitute(t.as_str(), vars)?;
    match limit {
        Some(n) => Ok(trunc(s.as_str(), n)),
        None => Ok(s),
    }
}

fn render_opt(t: &Option<String>, vars: &Vec<(String, String)>, limit: Option<usize>) -> (r: Result<Option<String>, RenderError>)
    ensures
        r is Ok <==> opt_renders(*t, vars@),
        r matches Ok(o) ==> opt_text_is(*t, vars@, limit, o),
{
    match t {
        Some(x) => {
            let s = render_text(x, vars, limit)?;
            Ok(Some(s))
        },
        None => Ok(None),
    }
}

fn render_embed(e: &ConfigFeedDiscordReceiverEmbed, vars: &Vec<(String, String)>) -> (r: Result<DiscordEmbed, RenderError>)
    ensures
        r is Ok <==> embed_renders(*e, vars@),
        r matches Ok(o) ==> embed_is(o, *e, vars@),
{
    let title = render_opt(&e.title, vars, Some(TITLE_LIMIT))?;
    let description = render_opt(&e.description, vars, Some(DESCRIPTION_LIMIT))?;
    let url = render_opt(&e.url, vars, None)?;
    let image = render_opt(&e.image, vars, None)?;
    let thumbnail = render_opt(&e.thumbnail, vars, None)?;
    let footer = render_opt(&e.footer, vars, Some(FOOTER_LIMIT))?;
    let mut fields: Vec<DiscordEmbedField> = Vec::new();
    let mut k: usize = 0;
    while k < e.fields.len()
        invariant
            k <= e.fields@.len(),
            fields@.len() == k,
            forall|m: int| 0 <= m < k ==> field_renders(#[trigger] e.fields@[m], vars@),
            forall|m: int| 0 <= m < k ==> field_is(#[trigger] fields@[m], e.fields@[m], vars@),
        decreases e.fields@.len() - k,
    {
        let f = &e.fields[k];
        let name = render_text(&f.name, vars, Some(FIELD_NAME_LIMIT))?;
        let value = render_text(&f.value, vars, Some(FIELD_VALUE_LIMIT))?;
        fields.push(DiscordEmbedField { name, value, inline: f.inline });
        k = k + 1;
    }
    Ok(DiscordEmbed { title, description, url, image, thumbnail, footer, fields })
}

/// Renders a message from content template `content` and embed templates
/// `embeds` with `vars`. Fails where any template names a variable that `vars` lacks.
pub fn render_message(content: &Option<String>, embeds: &Vec<ConfigFeedDiscordReceiverEmbed>, vars: &Vec<(String, String)>) -> (r: Result<DiscordMessage, RenderError>)
    ensures
        r is Ok <==> message_renders(*content, embeds@, vars@),
        r matches Ok(m) ==> message_is(m, *content, embeds@, vars@),
{
    let text = render_opt(content, vars, None)?;
    let mut out: Vec<DiscordEmbed> = Vec::new();
    let mut k: usize = 0;
    while k < embeds.len()
        invariant
            k <= embeds@.len(),
            out@.len() == k,
            opt_renders(*content, vars@),
            opt_text_is(*content, vars@, None, text),
            forall|m: int| 0 <= m < k ==> embed_renders(#[trigger] embeds@[m], vars@),
            forall|m: int| 0 <= m < k ==> embed_is(#[trigger] out@[m], embeds@[m], vars@),
        decreases embeds@.len() - k,
    {
        let e = render_embed(&embeds[k], vars)?;
        out.push(e);
        k = k + 1;
    }
    Ok(DiscordMessage { content: text, embeds: out })
}

/// Embed templates `a` and `b` are the same, field by field.
pub open spec fn same_embed(a: ConfigFeedDiscordReceiverEmbed, b: ConfigFeedDiscordReceiverEmbed) -> bool {
    &&& a.title == b.title
    &&& a.description == b.description
    &&& a.fields@ == b.fields@
    &&& a.footer == b.footer
    &&& a.image == b.image
    &&& a.thumbnail == b.thumbnail
    &&& a.url == b.url
}

/// Receiver configurations `a` and `b` are the same, field by field.
pub open spec fn same_receiver_config(a: ConfigFeedDiscordReceiver, b: ConfigFeedDiscordReceiver) -> bool {
    &&& a.webhook_url == b.webhook_url
    &&& a.content == b.content
    &&& a.embeds@.len() == b.embeds@.len()
    &&& forall|k: int| 0 <= k < a.embeds@.len() ==> same_embed(#[trigger] a.embeds@[k], b.embeds@[k])
    &&& a.overrides@ == b.overrides@
}

/// Receivers with the same configuration field by field post the same
/// notifications: the same webhook and the same message for every item.
pub proof fn lemma_same_config_same_notifications(
    a: ConfigFeedDiscordReceiver,
    b: ConfigFeedDiscordReceiver,
    vars: Seq<(String, String)>,
    m: DiscordMessage,
)
    requires
        same_receiver_config(a, b),
    ensures
        effective_webhook(a, vars) == effective_webhook(b, vars),
        effective_content(a, vars) == effective_content(b, vars),
        message_renders(effective_content(a, vars), a.embeds@, vars) == message_renders(
            effective_content(b, vars),
            b.embeds@,
            vars,
        ),
        message_is(m, effective_content(a, vars), a.embeds@, vars) == message_is(
            m,
            effective_content(b, vars),
            b.embeds@,
            vars,
        ),
{
    assert(a.overrides@ == b.overrides@);
    assert forall|k: int| 0 <= k < a.embeds@.len() implies embed_renders(#[trigger] a.embeds@[k], vars)
        == embed_renders(b.embeds@[k], vars) by {
        assert(same_embed(a.embeds@[k], b.embeds@[k]));
    }
    if message_renders(effective_content(a, vars), a.embeds@, vars) {
        assert forall|k: int| 0 <= k < b.embeds@.len() implies embed_renders(#[trigger] b.embeds@[k], vars) by {
            assert(embed_renders(a.embeds@[k], vars));
        }
    }
    if message_renders(effective_content(b, vars), b.embeds@, vars) {
        assert forall|k: int| 0 <= k < a.embeds@.len() implies embed_renders(#[trigger] a.embeds@[k], vars) by {
            assert(embed_renders(b.embeds@[k], vars));
        }
    }
    assert forall|k: int| 0 <= k < m.embeds@.len() && k < a.embeds@.len() implies embed_is(#[trigger] m.embeds@[k], a.embeds@[k], vars)
        == embed_is(m.embeds@[k], b.embeds@[k], vars) by {
        assert(same_embed(a.embeds@[k], b.embeds@[k]));
    }
}

fn copy_text(o: &Option<String>) -> (r: Option<String>)
    ensures
        r == *o,
{
    match o {
        Some(t) => Some(t.clone()),
        None => None,
    }
}

fn copy_embed(e: &ConfigFeedDiscordReceiverEmbed) -> (r: ConfigFeedDiscordReceiverEmbed)
    ensures
        same_embed(r, *e),
{
    let mut fields: Vec<ConfigFeedDiscordReceiverEmbedField> = Vec::new();
    let mut k: usize = 0;
    while k < e.fields.len()
        invariant
            k <= e.fields@.len(),
            fields@ == e.fields@.take(k as int),
        decreases e.fields@.len() - k,
    {
        let f = &e.fields[k];
        fields.push(ConfigFeedDiscordReceiverEmbedField { name: f.name.clone(), value: f.value.clone(), inline: f.inline });
        k = k + 1;
        assert(fields@ =~= e.fields@.take(k as int));
    }
    assert(e.fields@.take(k as int) =~= e.fields@);
    ConfigFeedDiscordReceiverEmbed {
        title: copy_text(&e.title),
        description: copy_text(&e.description),
        fields,
        footer: copy_text(&e.footer),
        image: copy_text(&e.image),
        thumbnail: copy_text(&e.thumbnail),
        url: copy_text(&e.url),
    }
}

fn copy_receiver_config(c: &ConfigFeedDiscordReceiver) -> (r: ConfigFeedDiscordReceiver)
    ensures
        same_receiver_config(r, *c),
{
    let mut embeds: Vec<ConfigFeedDiscordReceiverEmbed> = Vec::new();
    let mut k: usize = 0;
    while k < c.embeds.len()
        invariant
            k <= c.embeds@.len(),
            embeds@.len() == k,
            forall|m: int| 0 <= m < k ==> same_embed(#[trigger] embeds@[m], c.embeds@[m]),
        decreases c.embeds@.len() - k,
    {
        embeds.push(copy_embed(&c.embeds[k]));
        k = k + 1;
    }
    let mut overrides: Vec<ConfigFeedDiscordReceiverOverride> = Vec::new();
    let mut j: usize = 0;
    while j < c.overrides.len()
        invariant
            j <= c.overrides@.len(),
            overrides@ == c.overrides@.take(j as int),
        decreases c.overrides@.len() - j,
    {
        let o = &c.overrides[j];
        overrides.push(ConfigFeedDiscordReceiverOverride {
            regex: o.regex.clone(),
            field: o.field.clone(),
            webhook_url: copy_text(&o.webhook_url),
            content: copy_text(&o.content),
        });
        j = j + 1;
        assert(overrides@ =~= c.overrides@.take(j as int));
    }
    assert(c.overrides@.take(j as int) =~= c.overrides@);
    ConfigFeedDiscordReceiver {
        webhook_url: c.webhook_url.clone(),
        content: copy_text(&c.content),
        embeds,
        overrides,
    }
}

impl DiscordReceiver {
    /// A receiver for the given webhook configuration.
    pub fn new(config: &ConfigFeedDiscordReceiver) -> (r: Self)
        ensures
            same_receiver_config(r.config, *config),
    {
        DiscordReceiver { config: copy_receiver_config(config) }
    }

    /// The message this receiver posts for `item`, with the content template of
    /// the first applying override rule where it sets one.
    pub fn render_item(&self, item: &DatabaseFeedItem) -> (r: Result<DiscordMessage, RenderError>)
        ensures
            r is Ok <==> message_renders(effective_content(self.config, item.variables@), self.config.embeds@, item.variables@),
            r matches Ok(m) ==> message_is(m, effective_content(self.config, item.variables@), self.config.embeds@, item.variables@),
    {
        let (_, content) = resolve_overrides(&self.config, &item.variables);
        render_message(content, &self.config.embeds, &item.variables)
    }
}

} // verus!
