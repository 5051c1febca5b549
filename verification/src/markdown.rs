//! Two-stage markdown rendering: a GitHub-flavored markdown parse that
//! lets raw inline HTML through, followed by a mandatory allowlist
//! sanitizer. Only the composition is offered to callers; parser
//! output never reaches them unsanitized.

use vstd::prelude::*;

verus! {

/// What comrak's renderer returns for the given markdown text and
/// option set. The GFM dialect is far too large to restate, and the
/// result depends on the arguments alone, so it is only named here.
pub uninterp spec fn gfm_html_of(
    markdown: Seq<char>,
    strikethrough: bool,
    table: bool,
    autolink: bool,
    tasklist: bool,
    footnotes: bool,
    heading_id_prefix: Option<Seq<char>>,
    raw_html: bool,
) -> Seq<char>;

/// What ammonia returns when cleaning `html` with its baseline
/// allowlist extended by `extra_tags`, by `tag_attrs` on the single
/// tag `attr_tag`, and by the cross-tag `generic_attrs`. The result
/// depends on the arguments alone, so it is only named here.
pub uninterp spec fn cleaned_html_of(
    html: Seq<char>,
    extra_tags: Seq<Seq<char>>,
    attr_tag: Seq<char>,
    tag_attrs: Seq<Seq<char>>,
    generic_attrs: Seq<Seq<char>>,
) -> Seq<char>;

/// Relies on comrak::markdown_to_html: a pure function of the markdown
/// text and the options. Each flag parameter sets the comrak extension
/// option of the same name; `heading_id_prefix` sets
/// `extension.header_ids` and `raw_html` sets `render.unsafe_`
/// (raw-HTML passthrough; sanitization is a separate stage).
#[verifier::external_body]
fn gfm_to_html(
    markdown: &str,
    strikethrough: bool,
    table: bool,
    autolink: bool,
    tasklist: bool,
    footnotes: bool,
    heading_id_prefix: Option<String>,
    raw_html: bool,
) -> (r: String)
    ensures
        r@ == gfm_html_of(
            markdown@,
            strikethrough,
            table,
            autolink,
            tasklist,
            footnotes,
            heading_id_prefix.deep_view(),
            raw_html,
        ),
{
    let mut options = comrak::Options::default();
    options.extension.strikethrough = strikethrough;
    options.extension.table = table;
    options.extension.autolink = autolink;
    options.extension.tasklist = tasklist;
    options.extension.footnotes = footnotes;
    options.extension.header_ids = heading_id_prefix;
    options.render.unsafe_ = raw_html;
    comrak::markdown_to_html(markdown, &options)
}

/// Relies on ammonia::Builder::clean: deterministic in the HTML and
/// the allowlist additions. `add_tags`, `add_tag_attributes` and
/// `add_generic_attributes` extend ammonia's baseline allowlist;
/// everything outside it (scripts, event handlers, dangerous URL
/// schemes) is removed and the output stays well-formed. ammonia
/// documents that `clean` panics on contradictory settings: a tag
/// named in the allowlist or given tag attributes while in the
/// default clean-content set (`script`, `style`), or `rel` allowed
/// while `link_rel` stays at its default; the `requires` leaves
/// exactly those configurations out.
#[verifier::external_body]
fn clean_html(
    html: &str,
    extra_tags: &Vec<String>,
    attr_tag: &str,
    tag_attrs: &Vec<String>,
    generic_attrs: &Vec<String>,
) -> (r: String)
    requires
        attr_tag@ != "script"@ && attr_tag@ != "style"@,
        forall|i: int|
            0 <= i < extra_tags@.len() ==> extra_tags@[i]@ != "script"@ && extra_tags@[i]@
                != "style"@,
        forall|i: int| 0 <= i < generic_attrs@.len() ==> generic_attrs@[i]@ != "rel"@,
        attr_tag@ == "a"@ ==> forall|i: int|
            0 <= i < tag_attrs@.len() ==> tag_attrs@[i]@ != "rel"@,
    ensures
        r@ == cleaned_html_of(
            html@,
            extra_tags.deep_view(),
            attr_tag@,
            tag_attrs.deep_view(),
            generic_attrs.deep_view(),
        ),
{
    let mut cleaner = ammonia::Builder::default();
    cleaner.add_tags(extra_tags.iter().map(|t| t.as_str()));
    cleaner.add_tag_attributes(attr_tag, tag_attrs.iter().map(|t| t.as_str()));
    cleaner.add_generic_attributes(generic_attrs.iter().map(|t| t.as_str()));
    cleaner.clean(html).to_string()
}

/// Tags allowed beyond ammonia's baseline: `input`, needed for
/// task-list checkboxes.
pub open spec fn policy_extra_tags() -> Seq<Seq<char>> {
    seq!["input"@]
}

/// Attributes allowed on `input`; any other attribute on an `input`
/// element is dropped while the element is kept.
pub open spec fn policy_input_attrs() -> Seq<Seq<char>> {
    seq!["type"@, "checked"@, "disabled"@]
}

/// The one attribute allowed generically on every surviving tag: `id`,
/// needed for heading anchors.
pub open spec fn policy_generic_attrs() -> Seq<Seq<char>> {
    seq!["id"@]
}

/// The renderer's dialect: GFM with strikethrough, tables, autolinks,
/// task lists, footnotes, empty-prefix heading ids, and raw-HTML
/// passthrough.
pub open spec fn gfm_spec(markdown: Seq<char>) -> Seq<char> {
    gfm_html_of(markdown, true, true, true, true, true, Some(Seq::empty()), true)
}

/// The sanitization policy applied to every rendering.
pub open spec fn sanitize_spec(html: Seq<char>) -> Seq<char> {
    cleaned_html_of(
        html,
        policy_extra_tags(),
        "input"@,
        policy_input_attrs(),
        policy_generic_attrs(),
    )
}

/// The whole pipeline: parse, then sanitize.
pub open spec fn render_spec(markdown: Seq<char>) -> Seq<char> {
    sanitize_spec(gfm_spec(markdown))
}

/// Strips HTML down to the document policy: ammonia's baseline
/// allowlist plus `input` (with `type`, `checked`, `disabled`) and a
/// generic `id`. Never fails; disallowed content is silently dropped.
pub fn sanitize_html(html: &str) -> (r: String)
    ensures
        r@ == sanitize_spec(html@),
{
    let mut extra_tags: Vec<String> = Vec::new();
    extra_tags.push(String::from_str("input"));
    let mut input_attrs: Vec<String> = Vec::new();
    input_attrs.push(String::from_str("type"));
    input_attrs.push(String::from_str("checked"));
    input_attrs.push(String::from_str("disabled"));
    let mut generic_attrs: Vec<String> = Vec::new();
    generic_attrs.push(String::from_str("id"));
    proof {
        assert(extra_tags.deep_view() =~= policy_extra_tags());
        assert(input_attrs.deep_view() =~= policy_input_attrs());
        assert(generic_attrs.deep_view() =~= policy_generic_attrs());
        reveal_strlit("input");
        reveal_strlit("id");
        reveal_strlit("script");
        reveal_strlit("style");
        reveal_strlit("rel");
        reveal_strlit("a");
        assert("input"@[0] != "style"@[0]);
        assert forall|i: int| 0 <= i < extra_tags@.len() implies extra_tags@[i]@ != "script"@
            && extra_tags@[i]@ != "style"@ by {
            assert(extra_tags@[i]@ == "input"@);
        }
        assert forall|i: int| 0 <= i < generic_attrs@.len() implies generic_attrs@[i]@
            != "rel"@ by {
            assert(generic_attrs@[i]@ == "id"@);
        }
        assert(("input")@ != ("a")@);
    }
    clean_html(html, &extra_tags, "input", &input_attrs, &generic_attrs)
}

/// Converts markdown to sanitized HTML. Never fails: malformed
/// markdown still renders, and raw HTML surviving the parse is
/// reduced to the sanitization policy.
pub fn render_to_html(content: &str) -> (r: String)
    ensures
        r@ == render_spec(content@),
{
    let empty_prefix = String::new();
    let raw_html = gfm_to_html(content, true, true, true, true, true, Some(empty_prefix), true);
    sanitize_html(raw_html.as_str())
}

} // verus!
