//! The HTML step of the bundle: the values inserted into the page template,
//! and the rendering itself.
use vstd::prelude::*;
use vstd::string::*;

use crate::failure::SauceError;

verus! {

/// What handlebars renders from `template` with an object that maps each
/// key of `data` to its string value; none when rendering fails.
pub uninterp spec fn rendered_template(
    template: Seq<char>,
    data: Seq<(Seq<char>, Seq<char>)>,
) -> Option<Seq<char>>;

/// The views of a list of key-value pairs.
pub open spec fn pairs_view(data: Seq<(String, String)>) -> Seq<(Seq<char>, Seq<char>)> {
    data.map_values(|p: (String, String)| (p.0@, p.1@))
}

/// Relies on `Handlebars::render_template` of a new registry, with an object
/// of string values made from `data`: the rendered text, or the renderer's
/// message when rendering fails. The result depends on the arguments alone.
#[verifier::external_body]
fn render_template(template: &str, data: &Vec<(String, String)>) -> (r: Result<String, String>)
    ensures
        r is Ok <==> rendered_template(template@, pairs_view(data@)) is Some,
        r is Ok ==> r->Ok_0@ == rendered_template(template@, pairs_view(data@))->Some_0,
{
    let object: serde_json::Map<String, serde_json::Value> = data.iter().map(
        |(k, v)| (k.clone(), serde_json::Value::String(v.clone())),
    ).collect();
    handlebars::Handlebars::new().render_template(template, &serde_json::Value::Object(object)).map_err(
        |e| e.to_string(),
    )
}

/// The values that the page template sees.
pub open spec fn page_data(base_url: Seq<char>, placeholder_schema: Seq<char>) -> Seq<
    (Seq<char>, Seq<char>),
> {
    seq![("BASE_URL"@, base_url), ("PLACEHOLDER_SCHEMA"@, placeholder_schema)]
}

/// The values that the page template sees, as `page_data` states.
pub fn template_data(base_url: &str, placeholder_schema: &str) -> (r: Vec<(String, String)>)
    ensures
        pairs_view(r@) == page_data(base_url@, placeholder_schema@),
{
    let mut r: Vec<(String, String)> = Vec::new();
    r.push((String::from_str("BASE_URL"), String::from_str(base_url)));
    r.push((String::from_str("PLACEHOLDER_SCHEMA"), String::from_str(placeholder_schema)));
    assert(pairs_view(r@) =~= page_data(base_url@, placeholder_schema@));
    r
}

/// A rendering's outcome as the HTML step reports it: the page, or a
/// failure whose text is the renderer's message.
pub fn template_outcome(rendered: Result<String, String>) -> (r: Result<String, SauceError>)
    ensures
        match rendered {
            Ok(page) => r matches Ok(p) && p@ == page@,
            Err(e) => r matches Err(f) && f.text() == e@,
        },
{
    match rendered {
        Ok(page) => Ok(page),
        Err(e) => Err(SauceError::message(e.as_str())),
    }
}

/// Renders the page template with the site's base URL and placeholder
/// schema, as `rendered_template` names it.
pub fn templatize(template: &str, base_url: &str, placeholder_schema: &str) -> (r: Result<
    String,
    SauceError,
>)
    ensures
        r is Ok <==> rendered_template(template@, page_data(base_url@, placeholder_schema@)) is Some,
        r is Ok ==> r->Ok_0@ == rendered_template(
            template@,
            page_data(base_url@, placeholder_schema@),
        )->Some_0,
{
    let data = template_data(base_url, placeholder_schema);
    template_outcome(render_template(template, &data))
}

/// The configuration file used when none is given: the production one when
/// the environment says `production`, else the development one.
pub fn default_config_path(environment: Option<&str>) -> (r: &'static str)
    ensures
        environment matches Some(e) && e@ == "production"@ ==> r@ == "./awc-web/awc.prod.json"@,
        !(environment matches Some(e) && e@ == "production"@) ==> r@ == "./awc-web/awc.dev.json"@,
{
    match environment {
        Some(e) => {
            if String::from_str(e) == String::from_str("production") {
                "./awc-web/awc.prod.json"
            } else {
                "./awc-web/awc.dev.json"
            }
        },
        None => "./awc-web/awc.dev.json",
    }
}

} // verus!
