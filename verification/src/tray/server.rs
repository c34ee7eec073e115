//! The replies of the tray program's HTTP server.

use vstd::prelude::*;
use crate::json::{Json, JsonValue, json_written, member_models, lemma_member_models, recursive_map, serde_value_of, tera_form};
use crate::text::{is_prefix, starts_with};

verus! {

#[verifier::external_type_specification]
#[verifier::external_body]
pub struct ExTeraError(tera::Error);

/// The HTML escape of one character, as tera's `escape_html` writes it.
pub open spec fn escaped_char(c: char) -> Seq<char> {
    if c == '&' {
        "&amp;"@
    } else if c == '<' {
        "&lt;"@
    } else if c == '>' {
        "&gt;"@
    } else if c == '"' {
        "&quot;"@
    } else if c == '\'' {
        "&#x27;"@
    } else if c == '/' {
        "&#x2F;"@
    } else {
        seq![c]
    }
}

/// A text with HTML escaping: each character escaped in turn.
pub open spec fn escape_html(s: Seq<char>) -> Seq<char>
    decreases s.len(),
{
    if s.len() == 0 {
        Seq::empty()
    } else {
        escape_html(s.drop_last()) + escaped_char(s.last())
    }
}

/// A character that HTML escaping writes as an entity.
pub open spec fn html_special(c: char) -> bool {
    c == '&' || c == '<' || c == '>' || c == '"' || c == '\'' || c == '/'
}

/// A character that would let a text leave its place in HTML.
pub open spec fn html_breaking(c: char) -> bool {
    c == '<' || c == '>' || c == '"' || c == '\''
}

proof fn lemma_escaped_char(c: char)
    ensures
        forall|k: int| 0 <= k < escaped_char(c).len() ==> !html_breaking(#[trigger] escaped_char(c)[k]),
        !html_special(c) ==> escaped_char(c) == seq![c],
{
    reveal_strlit("&amp;");
    reveal_strlit("&lt;");
    reveal_strlit("&gt;");
    reveal_strlit("&quot;");
    reveal_strlit("&#x27;");
    reveal_strlit("&#x2F;");
}

/// HTML escaping leaves no character that could end an attribute or open a
/// tag, and leaves a text without special characters as it is.
pub proof fn law_escape_html(s: Seq<char>)
    ensures
        forall|k: int| 0 <= k < escape_html(s).len() ==> !html_breaking(#[trigger] escape_html(s)[k]),
        (forall|k: int| 0 <= k < s.len() ==> !html_special(#[trigger] s[k])) ==> escape_html(s) == s,
    decreases s.len(),
{
    if s.len() > 0 {
        law_escape_html(s.drop_last());
        lemma_escaped_char(s.last());
        let a = escape_html(s.drop_last());
        let b = escaped_char(s.last());
        assert forall|k: int| 0 <= k < escape_html(s).len() implies !html_breaking(
            #[trigger] escape_html(s)[k],
        ) by {
            if k < a.len() {
                assert(escape_html(s)[k] == a[k]);
            } else {
                assert(escape_html(s)[k] == b[k - a.len()]);
            }
        }
        if forall|k: int| 0 <= k < s.len() ==> !html_special(#[trigger] s[k]) {
            assert(!html_special(s[s.len() - 1]));
            assert forall|k: int| 0 <= k < s.drop_last().len() implies !html_special(
                #[trigger] s.drop_last()[k],
            ) by {
                assert(s.drop_last()[k] == s[k]);
            }
            assert(s =~= s.drop_last().push(s.last()));
            assert(escape_html(s) =~= s);
        }
    } else {
        assert(escape_html(s) =~= s);
    }
}

/// The start page for `name`: the start-page template with the escaped
/// name in both places where the template reads it.
pub open spec fn root_page(name: Seq<char>) -> Seq<char> {
    "<!DOCTYPE html>\n<html>\n  <head>\n    <title>"@ + escape_html(name)
        + " Page</title>\n  </head>\n  <body>\n    <h1>Welcome "@ + escape_html(name)
        + "</h1>\n  </body>\n</html>\n"@
}

/// Holds of `page` when tera can render `template`, with the context whose
/// members are those of the object `context` and with HTML escaping when
/// `autoescape`, to that page.  Which page that is may depend on the
/// process environment (tera's built-in `get_env` reads it), so this is a
/// relation, not a function: nothing here says that one request has only
/// one page.
pub uninterp spec fn renders_to(template: Seq<char>, context: Json, autoescape: bool, page: Seq<char>) -> bool;

/// `tera::Tera::one_off` on `template`, with the context that
/// `tera::Context::from_value` makes of `context` written as a
/// `serde_json::Value`, escaping HTML when `autoescape`.  `None` when no
/// context is made of it, which is exactly when it is no object or cannot be
/// written as JSON (a number whose text is no JSON number).  Claimed of a
/// rendered page: it is one that tera renders from that request
/// ([`renders_to`]); and for the start-page template with escaping and the
/// context `{"name": n}`, where the template holds no tag but two reads of
/// `name`, each written as `escape_html` of the string, rendering succeeds
/// and the page is [`root_page`] of `n`.
#[verifier::external_body]
fn render_json(template: &str, context: &JsonValue, autoescape: bool) -> (r: Option<Result<String, tera::Error>>)
    ensures
        r is None <==> (!(context is Object) || json_written(context.model()) is None),
        r matches Some(Ok(s)) ==> renders_to(template@, context.model(), autoescape, s@),
        forall|n: Seq<char>|
            template@ == root_template_text() && autoescape && context.model() == Json::Object(
                seq![("name"@, Json::Str(n))],
            ) ==> r matches Some(Ok(_)),
        r matches Some(Ok(s)) ==> forall|n: Seq<char>|
            template@ == root_template_text() && autoescape && context.model() == Json::Object(
                seq![("name"@, Json::Str(n))],
            ) ==> s@ == root_page(n),
{
    let ctx = tera::Context::from_value(serde_value_of(context)?).ok()?;
    Some(tera::Tera::one_off(template, &ctx, autoescape))
}

/// The error of a page that could not be rendered.
#[derive(Debug, Clone, PartialEq)]
pub enum PageError {
    /// The settings could not be made a template context.
    Context,
    /// The template could not be rendered.
    Template,
}

/// The template of the start page.
pub open spec fn root_template_text() -> Seq<char> {
    "<!DOCTYPE html>\n<html>\n  <head>\n    <title>{{name}} Page</title>\n  </head>\n  <body>\n    <h1>Welcome {{name}}</h1>\n  </body>\n</html>\n"@
}

/// The template of the start page.
pub fn root_template() -> (t: &'static str)
    ensures
        t@ == root_template_text(),
{
    "<!DOCTYPE html>\n<html>\n  <head>\n    <title>{{name}} Page</title>\n  </head>\n  <body>\n    <h1>Welcome {{name}}</h1>\n  </body>\n</html>\n"
}

/// The name shown on the start page: the program file's name; `hoge` when
/// the program path has no file name; empty when the path is unknown.
pub fn page_name(exe_file_name: Result<Option<String>, ()>) -> (name: String)
    ensures
        exe_file_name matches Ok(Some(n)) ==> name == n,
        exe_file_name matches Ok(None) ==> name@ == "hoge"@,
        exe_file_name is Err ==> name@ == Seq::<char>::empty(),
{
    match exe_file_name {
        Ok(Some(n)) => n,
        Ok(None) => String::from_str("hoge"),
        Err(_) => String::new(),
    }
}

/// The start page: the template rendered, with HTML escaping, for the
/// program name `name`; it renders for every name.
pub fn root(name: &str) -> (page: Result<String, PageError>)
    ensures
        page matches Ok(p) && p@ == root_page(name@),
{
    let mut members: Vec<(String, JsonValue)> = Vec::new();
    members.push((String::from_str("name"), JsonValue::Str(String::from_str(name))));
    proof {
        lemma_member_models(members@);
        assert(member_models(members@) =~= seq![("name"@, Json::Str(name@))]);
    }
    let context = JsonValue::Object(members);
    match render_json(root_template(), &context, true) {
        Some(Ok(p)) => Ok(p),
        Some(Err(_)) => Err(PageError::Template),
        None => Err(PageError::Context),
    }
}

/// The reply to `POST /`.
pub fn hello() -> (s: String)
    ensures
        s@ == "hello world"@,
{
    String::from_str("hello world")
}

/// Whether a request with this `Origin` header may pass: requests without
/// one pass, others only from a browser extension (`chrome-extension://`).
pub fn access_allowed(origin: Option<&str>) -> (r: bool)
    ensures
        r == match origin {
            None => true,
            Some(o) => is_prefix("chrome-extension://"@, o@),
        },
{
    match origin {
        None => true,
        Some(o) => starts_with(o, "chrome-extension://"),
    }
}

/// The reply to `GET /sleep`, from the event loop's answer (`None` when the
/// event loop dropped the request).
pub fn sleep_response(answer: Option<String>) -> (s: String)
    ensures
        answer matches Some(a) ==> s@ == "success : "@ + a@,
        answer is None ==> s@ == "Error receiving response"@,
{
    match answer {
        Some(a) => {
            let mut s = String::from_str("success : ");
            s.append(a.as_str());
            s
        },
        None => String::from_str("Error receiving response"),
    }
}

/// The reply to `POST /set`: `{"success": true}` when the new settings were
/// taken, else `{"data": <error text>, "success": false}`; members in key
/// order, as the JSON writer keeps them.
pub fn set_response(outcome: Result<(), String>) -> (r: JsonValue)
    ensures
        outcome is Ok ==> r.model() == Json::Object(seq![("success"@, Json::Bool(true))]),
        outcome matches Err(e) ==> r.model() == Json::Object(
            seq![("data"@, Json::Str(e@)), ("success"@, Json::Bool(false))],
        ),
{
    let mut members: Vec<(String, JsonValue)> = Vec::new();
    match outcome {
        Ok(()) => {
            members.push((String::from_str("success"), JsonValue::Bool(true)));
            proof {
                lemma_member_models(members@);
                assert(member_models(members@) =~= seq![("success"@, Json::Bool(true))]);
            }
        },
        Err(e) => {
            let ghost ev = e@;
            members.push((String::from_str("data"), JsonValue::Str(e)));
            members.push((String::from_str("success"), JsonValue::Bool(false)));
            proof {
                lemma_member_models(members@);
                assert(member_models(members@) =~= seq![
                    ("data"@, Json::Str(ev)),
                    ("success"@, Json::Bool(false)),
                ]);
            }
        },
    }
    JsonValue::Object(members)
}

/// The context of the configuration page: the settings in template form
/// under `items`, and the title `CONFIG`; members in key order.
pub fn config_context(items: JsonValue) -> (r: JsonValue)
    ensures
        r.model() == Json::Object(seq![("items"@, items.model()), ("title"@, Json::Str("CONFIG"@))]),
{
    let ghost im = items.model();
    let mut members: Vec<(String, JsonValue)> = Vec::new();
    members.push((String::from_str("items"), items));
    members.push((String::from_str("title"), JsonValue::Str(String::from_str("CONFIG"))));
    proof {
        lemma_member_models(members@);
        assert(member_models(members@) =~= seq![
            ("items"@, im),
            ("title"@, Json::Str("CONFIG"@)),
        ]);
    }
    JsonValue::Object(members)
}

/// The context value of the configuration page: the settings in template
/// form under `items`, and the title `CONFIG`.
pub open spec fn config_layout(settings: Json) -> Json {
    Json::Object(seq![("items"@, tera_form(settings)), ("title"@, Json::Str("CONFIG"@))])
}

/// The configuration page: `template` rendered by tera, without HTML
/// escaping, with the context [`config_context`] builds from the settings
/// in template form ([`config_layout`]).  It fails with `Context` exactly
/// when that context cannot be written as JSON.  A page that comes back is
/// one that tera renders from that request; which one is not stated, since
/// tera renders it with the process environment at hand.
pub fn config_page(template: &str, settings: &JsonValue) -> (page: Result<String, PageError>)
    ensures
        page == Err::<String, PageError>(PageError::Context) <==> json_written(
            config_layout(settings.model()),
        ) is None,
        page matches Ok(p) ==> renders_to(template@, config_layout(settings.model()), false, p@),
{
    let items = recursive_map(settings);
    let context = config_context(items);
    match render_json(template, &context, false) {
        Some(Ok(p)) => Ok(p),
        Some(Err(_)) => Err(PageError::Template),
        None => Err(PageError::Context),
    }
}

} // verus!
