//! Markdown bodies turned into HTML at a chosen trust level.
use vstd::prelude::*;

verus! {

#[verifier::external_type_specification]
#[verifier::external_body]
pub struct ExMessage(markdown::message::Message);

/// How far a Markdown body is trusted.
#[derive(Debug, Clone, Copy, PartialEq, Eq, Structural)]
pub enum TrustLevel {
    /// Raw HTML and links of any scheme pass through verbatim.
    Trusted,
    /// Raw HTML is escaped and unsafe link schemes are dropped.
    Hardened,
}

/// Whether the trust level lets raw HTML through.
pub open spec fn allows_raw_html(trust: TrustLevel) -> bool {
    trust == TrustLevel::Trusted
}

/// The HTML that the GitHub-flavoured Markdown converter makes of `text`,
/// with raw HTML and dangerous protocols let through or not.
pub uninterp spec fn markdown_html(text: Seq<char>, raw_html: bool) -> Seq<char>;

/// Relies on markdown::to_html_with_options, with GFM parsing and default
/// compilation, raw HTML and dangerous protocols allowed as `raw_html` says:
/// the HTML depends on the text and the options alone. As its documentation
/// says, it errs only on MDX, which these options leave off.
#[verifier::external_body]
fn markdown_to_html(text: &str, raw_html: bool) -> (r: Result<String, markdown::message::Message>)
    ensures
        r is Ok,
        r->Ok_0@ == markdown_html(text@, raw_html),
{
    let compile = markdown::CompileOptions {
        allow_dangerous_html: raw_html,
        allow_dangerous_protocol: raw_html,
        ..markdown::CompileOptions::default()
    };
    markdown::to_html_with_options(text, &markdown::Options { compile, ..markdown::Options::gfm() })
}

/// Converts a Markdown body to HTML at the given trust level. Markdown has no
/// syntax errors, so every body converts.
pub fn render_markdown(text: &str, trust: TrustLevel) -> (r: String)
    ensures
        r@ == markdown_html(text@, allows_raw_html(trust)),
{
    let raw_html = match trust {
        TrustLevel::Trusted => true,
        TrustLevel::Hardened => false,
    };
    match markdown_to_html(text, raw_html) {
        Ok(html) => html,
        Err(_) => {
            proof {
                assert(false);
            }
            String::new()
        },
    }
}

} // verus!
