//! Built-in templates and the rendering of the default index page.

use vstd::prelude::*;
use crate::error::ForgeError;
use crate::text::{replace_all, replace_str, str_equal};

verus! {

/// The templates that ship with the tool.
#[derive(Debug, Clone, Copy, PartialEq, Eq, Structural)]
pub enum TemplateKind {
    /// `nginx.conf`: the nginx main configuration.
    NginxConf,
    /// `app.conf.template`: the site configuration.
    AppConf,
    /// `index.html.template`: the default index page.
    IndexHtml,
}

/// The built-in template called `name`, if there is one.
pub open spec fn template_kind(name: Seq<char>) -> Option<TemplateKind> {
    if name == "nginx.conf"@ {
        Some(TemplateKind::NginxConf)
    } else if name == "app.conf.template"@ {
        Some(TemplateKind::AppConf)
    } else if name == "index.html.template"@ {
        Some(TemplateKind::IndexHtml)
    } else {
        None
    }
}

/// Looks up the built-in template called `name`.
pub fn builtin_template(name: &str) -> (r: Result<TemplateKind, ForgeError>)
    ensures
        match template_kind(name@) {
            Some(k) => r == Ok::<TemplateKind, ForgeError>(k),
            None => r matches Err(ForgeError::UnknownTemplate { name: n }) && n@ == name@,
        },
{
    if str_equal(name, "nginx.conf") {
        Ok(TemplateKind::NginxConf)
    } else if str_equal(name, "app.conf.template") {
        Ok(TemplateKind::AppConf)
    } else if str_equal(name, "index.html.template") {
        Ok(TemplateKind::IndexHtml)
    } else {
        Err(ForgeError::UnknownTemplate { name: String::from_str(name) })
    }
}

/// The default index page: `template` with every `{{PROJECT_NAME}}` replaced
/// by `project_name`.
pub fn render_index(template: &str, project_name: &str) -> (r: String)
    ensures
        r@ == replace_all(template@, "{{PROJECT_NAME}}"@, project_name@),
{
    proof {
        reveal_strlit("{{PROJECT_NAME}}");
    }
    replace_str(template, "{{PROJECT_NAME}}", project_name)
}

} // verus!
