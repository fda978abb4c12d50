//! The rendering collaborator: math-markup rendering through the `katex`
//! crate, and the annotation-stripping normalization applied to renderings
//! before they are compared.
//!
//! Rendering is reached through trusted wrappers; what a rendering looks
//! like is given a name, [`katex_output`], and the game's logic is proved
//! against that name.

use vstd::prelude::*;

verus! {

/// The markup the KaTeX renderer produces for a source string under a
/// given configuration: `display` is the display-block flag, `tolerant`
/// tells the renderer to render malformed input as an error placeholder
/// instead of failing, and `macro_name`/`macro_body` are one custom macro
/// definition (both empty when no macro is configured). The output depends
/// on these arguments alone.
pub uninterp spec fn katex_output(
    src: Seq<char>,
    display: bool,
    tolerant: bool,
    macro_name: Seq<char>,
    macro_body: Seq<char>,
) -> Seq<char>;

/// What an annotation-containing rendering looks like with every
/// `<annotation...` ... `/annotation>` block removed.
pub uninterp spec fn annotation_stripped(s: Seq<char>) -> Seq<char>;

/// Relies on `katex::render_with_opts` with display mode on, errors
/// rendered as placeholders (`throw_on_error` off) and one custom macro:
/// the result is a function of the source and the macro alone. `None` is
/// an engine failure, about which nothing is assumed.
#[verifier::external_body]
pub(crate) fn render_display_tolerant(src: &str, macro_name: &str, macro_body: &str) -> (r: Option<
    String,
>)
    ensures
        r matches Some(h) ==> h@ == katex_output(src@, true, true, macro_name@, macro_body@),
{
    let opts = katex::Opts::builder()
        .display_mode(true)
        .throw_on_error(false)
        .clone()
        .add_macro(macro_name.to_owned(), macro_body.to_owned())
        .build()
        .ok()?;
    katex::render_with_opts(src, &opts).ok()
}

/// Relies on `katex::render_with_opts` with display mode on and default
/// error handling (malformed source fails): the result is a function of
/// the source alone. `None` covers both malformed source and engine
/// failure.
#[verifier::external_body]
pub(crate) fn render_display_strict(src: &str) -> (r: Option<String>)
    ensures
        r matches Some(h) ==> h@ == katex_output(
            src@,
            true,
            false,
            Seq::<char>::empty(),
            Seq::<char>::empty(),
        ),
{
    let opts = katex::Opts::builder().display_mode(true).build().ok()?;
    katex::render_with_opts(src, &opts).ok()
}

/// Relies on `katex::render`: rendering with all options left at their
/// defaults (inline mode, strict errors). The result is a function of the
/// source alone.
#[verifier::external_body]
pub(crate) fn render_inline_plain(src: &str) -> (r: Option<String>)
    ensures
        r matches Some(h) ==> h@ == katex_output(
            src@,
            false,
            false,
            Seq::<char>::empty(),
            Seq::<char>::empty(),
        ),
{
    katex::render(src).ok()
}

/// Relies on `regex::Regex::replace_all` with the fixed pattern
/// `<annotation.*/annotation>` and an empty replacement: every annotation
/// block is removed and the result is a function of the text alone.
/// `regex::Regex::new` accepts this fixed, valid pattern, so the `unwrap`
/// cannot fail.
#[verifier::external_body]
pub(crate) fn strip_annotations(html: &str) -> (r: String)
    ensures
        r@ == annotation_stripped(html@),
{
    let re = regex::Regex::new("<annotation.*/annotation>").unwrap();
    re.replace_all(html, "").into_owned()
}

} // verus!
