//! Descriptor construction: setup instructions, the default-settings document
//! with placeholders substituted, and the settings schema.
//!
//! The default-settings document starts from a fixed template in which each
//! optional field's value is a distinct quoted sentinel. A present field
//! replaces every occurrence of its sentinel with the field's value, re-quoted
//! as a string literal. An absent API key replaces its sentinel with an
//! explicit empty string literal, so the sentinel is never shown as a default;
//! an absent minimum token count has no fallback and leaves its sentinel
//! untouched. When no resolved settings are available at all (host lookup
//! failed, or the raw value did not decode) the template is returned
//! unmodified: descriptor construction is best effort and never fails.

use vstd::prelude::*;

use crate::schema::schema_text_spec;
use crate::schema::settings_schema_text;
use crate::settings::Settings;
use crate::text::contains_pat;
use crate::text::count_char;
use crate::text::count_char_from;
use crate::text::lemma_count_zero;
use crate::text::lemma_replace_all_split;
use crate::text::lemma_replace_all_unmatched;
use crate::text::matches_at;
use crate::text::replace_all;
use crate::text::replace_all_spec;

verus! {

/// What the host surfaces to the user: setup instructions, a pre-filled
/// default-settings document, and the settings schema.
#[derive(Debug, Clone, PartialEq)]
pub struct ConfigurationDescriptor {
    pub installation_instructions: String,
    pub default_settings: String,
    pub settings_schema: String,
}

/// The setup instructions, static text returned unmodified.
pub open spec fn instructions_spec() -> Seq<char> {
    "# Context7 MCP server\n\nThe server package is installed automatically when a command is first requested; a Node.js runtime must be available.\n\nTo authenticate requests, set `context7_api_key` in the settings. To change how much documentation a lookup returns, set `default_minimum_tokens` to the desired count, written as a string.\n"@
}

/// The template text before the API key sentinel.
pub open spec fn template_prefix_spec() -> Seq<char> {
    "{\n  \"context7_api_key\": "@
}

/// The template text between the API key sentinel and the minimum token
/// count sentinel.
pub open spec fn tokens_line_prefix_spec() -> Seq<char> {
    ",\n  \"default_minimum_tokens\": "@
}

/// The template text after the minimum token count sentinel.
pub open spec fn template_close_spec() -> Seq<char> {
    "\n}\n"@
}

/// The template text after the API key sentinel; it carries the minimum
/// token count's own sentinel.
pub open spec fn template_suffix_spec() -> Seq<char> {
    tokens_line_prefix_spec() + tokens_sentinel_spec() + template_close_spec()
}

/// The default-settings template, with one quoted sentinel per optional
/// field:
///
/// ```jsonc
/// {
///   "context7_api_key": "YOUR_CONTEXT7_API_KEY",
///   "default_minimum_tokens": "YOUR_DEFAULT_MINIMUM_TOKENS"
/// }
/// ```
pub open spec fn template_spec() -> Seq<char> {
    template_prefix_spec() + api_sentinel_spec() + template_suffix_spec()
}

/// The sentinel that stands for the API key in the template, quotes included.
pub open spec fn api_sentinel_spec() -> Seq<char> {
    "\"YOUR_CONTEXT7_API_KEY\""@
}

/// The sentinel that stands for the minimum token count in the template,
/// quotes included.
pub open spec fn tokens_sentinel_spec() -> Seq<char> {
    "\"YOUR_DEFAULT_MINIMUM_TOKENS\""@
}

/// `v`, re-quoted as a string literal.
pub open spec fn quoted_spec(v: Seq<char>) -> Seq<char> {
    seq!['"'] + v + seq!['"']
}

/// The default-settings document for an outcome of settings resolution:
/// the unmodified template when no resolved settings are available, and
/// otherwise the template with each field's sentinel substituted — the API
/// key's by the key or by an empty string literal, the minimum token count's
/// by the count when present and not at all when absent.
pub open spec fn default_settings_doc_spec(resolved: Option<Settings>) -> Seq<char> {
    match resolved {
        Option::None => template_spec(),
        Option::Some(s) => {
            let key_rep = quoted_spec(
                match s.api_key {
                    Option::Some(k) => k@,
                    Option::None => Seq::empty(),
                },
            );
            let after_key = replace_all_spec(template_spec(), api_sentinel_spec(), key_rep);
            match s.default_minimum_tokens {
                Option::Some(n) => replace_all_spec(
                    after_key,
                    tokens_sentinel_spec(),
                    quoted_spec(n@),
                ),
                Option::None => after_key,
            }
        },
    }
}

/// The setup instructions shown to the user.
pub fn installation_instructions() -> (r: String)
    ensures
        r@ == instructions_spec(),
{
    "# Context7 MCP server\n\nThe server package is installed automatically when a command is first requested; a Node.js runtime must be available.\n\nTo authenticate requests, set `context7_api_key` in the settings. To change how much documentation a lookup returns, set `default_minimum_tokens` to the desired count, written as a string.\n".to_owned()
}

/// The default-settings template.
pub fn default_settings_template() -> (r: String)
    ensures
        r@ == template_spec(),
{
    let mut r = "{\n  \"context7_api_key\": ".to_owned();
    r.append("\"YOUR_CONTEXT7_API_KEY\"");
    r.append(",\n  \"default_minimum_tokens\": ");
    r.append("\"YOUR_DEFAULT_MINIMUM_TOKENS\"");
    r.append("\n}\n");
    proof {
        assert(r@ =~= template_spec());
    }
    r
}

/// The API key sentinel, quotes included.
pub fn api_sentinel() -> (r: String)
    ensures
        r@ == api_sentinel_spec(),
{
    "\"YOUR_CONTEXT7_API_KEY\"".to_owned()
}

/// The minimum token count sentinel, quotes included.
pub fn tokens_sentinel() -> (r: String)
    ensures
        r@ == tokens_sentinel_spec(),
{
    "\"YOUR_DEFAULT_MINIMUM_TOKENS\"".to_owned()
}

/// Re-quotes `v` as a string literal.
fn quoted(v: &str) -> (r: String)
    ensures
        r@ == quoted_spec(v@),
{
    let mut r = "\"".to_owned();
    r.append(v);
    r.append("\"");
    proof {
        reveal_strlit("\"");
        assert("\""@ =~= seq!['"']);
        assert(r@ =~= quoted_spec(v@));
    }
    r
}

/// Builds the configuration descriptor for an outcome of settings resolution.
///
/// `resolved` is `None` when no resolved settings are available — the host
/// could not supply a raw value, or the raw value did not decode — and the
/// default-settings document is then the unmodified template, per
/// [`default_settings_doc_spec`]. The instructions and the schema never
/// depend on the settings.
pub fn build_descriptor(resolved: Option<&Settings>) -> (r: ConfigurationDescriptor)
    ensures
        r.installation_instructions@ == instructions_spec(),
        r.settings_schema@ == schema_text_spec(),
        r.default_settings@ == default_settings_doc_spec(
            match resolved {
                Option::Some(s) => Option::Some(*s),
                Option::None => Option::None,
            },
        ),
{
    let default_settings = match resolved {
        Option::None => default_settings_template(),
        Option::Some(s) => {
            let key_rep = match &s.api_key {
                Option::Some(k) => quoted(k.as_str()),
                Option::None => quoted(""),
            };
            let template = default_settings_template();
            let after_key = replace_all(template.as_str(), api_sentinel().as_str(), key_rep.as_str());
            proof {
                reveal_strlit("");
                assert(""@ =~= Seq::<char>::empty());
            }
            match &s.default_minimum_tokens {
                Option::Some(n) => {
                    let n_rep = quoted(n.as_str());
                    replace_all(after_key.as_str(), tokens_sentinel().as_str(), n_rep.as_str())
                },
                Option::None => after_key,
            }
        },
    };
    ConfigurationDescriptor {
        installation_instructions: installation_instructions(),
        default_settings,
        settings_schema: settings_schema_text(),
    }
}

/// The API key sentinel holds a capital `C` (in `CONTEXT7`); the template
/// around it holds none, and neither does an empty string literal. So any
/// occurrence of the sentinel pins a `C` to a position that the substituted
/// document cannot supply.
proof fn lemma_template_pieces_hold_no_capital_c()
    ensures
        forall|j: int|
            0 <= j < template_prefix_spec().len() ==> #[trigger] template_prefix_spec()[j] != 'C',
        forall|j: int|
            0 <= j < template_suffix_spec().len() ==> #[trigger] template_suffix_spec()[j] != 'C',
        api_sentinel_spec()[6] == 'C',
        forall|j: int| 0 <= j < 6 ==> #[trigger] api_sentinel_spec()[j] != 'C',
        template_prefix_spec().len() == 24,
        api_sentinel_spec().len() == 23,
        template_suffix_spec().len() == 62,
{
    reveal_strlit("{\n  \"context7_api_key\": ");
    reveal_strlit(",\n  \"default_minimum_tokens\": ");
    reveal_strlit("\"YOUR_DEFAULT_MINIMUM_TOKENS\"");
    reveal_strlit("\n}\n");
    reveal_strlit("\"YOUR_CONTEXT7_API_KEY\"");
    assert(count_char(template_prefix_spec(), 'C') == 0) by {
        reveal_with_fuel(count_char_from, 26);
    }
    lemma_count_zero(template_prefix_spec(), 'C');
    assert(count_char(tokens_line_prefix_spec(), 'C') == 0) by {
        reveal_with_fuel(count_char_from, 32);
    }
    lemma_count_zero(tokens_line_prefix_spec(), 'C');
    assert(count_char(tokens_sentinel_spec(), 'C') == 0) by {
        reveal_with_fuel(count_char_from, 31);
    }
    lemma_count_zero(tokens_sentinel_spec(), 'C');
    assert(count_char(template_close_spec(), 'C') == 0) by {
        reveal_with_fuel(count_char_from, 5);
    }
    lemma_count_zero(template_close_spec(), 'C');
    assert forall|j: int|
        0 <= j < template_suffix_spec().len() implies #[trigger] template_suffix_spec()[j]
        != 'C' by {
        let x = template_suffix_spec();
        if j < 30 {
            assert(x[j] == tokens_line_prefix_spec()[j]);
        } else if j < 59 {
            assert(x[j] == tokens_sentinel_spec()[j - 30]);
        } else {
            assert(x[j] == template_close_spec()[j - 59]);
        }
    }
    assert(count_char_from(api_sentinel_spec(), 'C', 0) == count_char_from(
        api_sentinel_spec(),
        'C',
        6,
    )) by {
        reveal_with_fuel(count_char_from, 8);
    }
    assert forall|j: int| 0 <= j < 6 implies #[trigger] api_sentinel_spec()[j] != 'C' by {
        if j == 0 {
        } else if j == 1 {
        } else if j == 2 {
        } else if j == 3 {
        } else if j == 4 {
        } else {
            assert(j == 5);
        }
    }
}

/// With the API key absent, substituting its sentinel turns the template into
/// the prefix, an empty string literal, and the untouched suffix: the
/// sentinel's only occurrence in the template is at its own position.
proof fn lemma_absent_key_document_shape()
    ensures
        replace_all_spec(template_spec(), api_sentinel_spec(), quoted_spec(Seq::empty()))
            == template_prefix_spec() + (quoted_spec(Seq::empty()) + template_suffix_spec()),
{
    lemma_template_pieces_hold_no_capital_c();
    let p = template_prefix_spec();
    let a = api_sentinel_spec();
    let x = template_suffix_spec();
    let t = template_spec();
    let q = quoted_spec(Seq::empty());
    assert(q =~= seq!['"', '"']);
    // The sentinel matches the template only at the sentinel's own position.
    assert forall|k: int| 0 <= k < 24 implies !#[trigger] matches_at(t, a, k) by {
        if matches_at(t, a, k) {
            assert(t.subrange(k, k + 23)[6] == t[k + 6]);
            assert(t[k + 6] == 'C');
            if k + 6 < 24 {
                assert(t[k + 6] == p[k + 6]);
            } else {
                assert(t[k + 6] == a[k + 6 - 24]);
            }
        }
    }
    lemma_replace_all_split(t, a, q, 24);
    assert(t.take(24) =~= p);
    assert(t.skip(24) =~= a + x);
    // At the sentinel itself, one replacement happens.
    assert((a + x).subrange(0, 23) =~= a);
    assert(replace_all_spec(a + x, a, q) == q + replace_all_spec((a + x).skip(23), a, q));
    assert((a + x).skip(23) =~= x);
    // The suffix holds no match at all.
    assert forall|k: int| !#[trigger] matches_at(x, a, k) by {
        if matches_at(x, a, k) {
            assert(x.subrange(k, k + 23)[6] == x[k + 6]);
            assert(x[k + 6] == 'C');
        }
    }
    lemma_replace_all_unmatched(x, a, q);
}

/// With the API key absent and no minimum token count set, the
/// default-settings document never shows the raw API key sentinel: its only
/// occurrence in the template is replaced by an explicit empty string
/// literal. (A present minimum token count is substituted as free text and
/// could spell the sentinel out again, so that case is not stated here;
/// [`lemma_tokens_placeholder_substituted`] pins the document exactly
/// instead.)
pub proof fn lemma_api_sentinel_removed(s: Settings)
    requires
        s.api_key is None,
        s.default_minimum_tokens is None,
    ensures
        !contains_pat(
            default_settings_doc_spec(Option::Some(s)),
            api_sentinel_spec(),
        ),
{
    lemma_template_pieces_hold_no_capital_c();
    lemma_absent_key_document_shape();
    let p = template_prefix_spec();
    let a = api_sentinel_spec();
    let x = template_suffix_spec();
    let q = quoted_spec(Seq::empty());
    assert(q =~= seq!['"', '"']);
    let doc = default_settings_doc_spec(Option::Some(s));
    assert(doc == p + (q + x));
    // The document has no capital `C`, so the sentinel cannot occur in it.
    assert forall|k: int| !#[trigger] matches_at(doc, a, k) by {
        if matches_at(doc, a, k) {
            assert(doc.subrange(k, k + 23)[6] == doc[k + 6]);
            assert(doc[k + 6] == 'C');
            let i = k + 6;
            if i < 24 {
                assert(doc[i] == p[i]);
            } else if i < 26 {
                assert(doc[i] == q[i - 24]);
            } else {
                assert(doc[i] == x[i - 26]);
            }
        }
    }
}

/// The minimum token count sentinel spells `MINIMUM` with a capital `M` at
/// its own position 14; with the API key absent, the substituted document
/// supplies no other `M` before that sentinel.
proof fn lemma_document_pieces_hold_no_capital_m()
    ensures
        forall|j: int|
            0 <= j < template_prefix_spec().len() ==> #[trigger] template_prefix_spec()[j] != 'M',
        forall|j: int|
            0 <= j < tokens_line_prefix_spec().len() ==> #[trigger] tokens_line_prefix_spec()[j]
                != 'M',
        tokens_sentinel_spec()[14] == 'M',
        forall|j: int| 0 <= j < 14 ==> #[trigger] tokens_sentinel_spec()[j] != 'M',
        template_prefix_spec().len() == 24,
        tokens_line_prefix_spec().len() == 30,
        tokens_sentinel_spec().len() == 29,
        template_close_spec().len() == 3,
{
    reveal_strlit("{\n  \"context7_api_key\": ");
    reveal_strlit(",\n  \"default_minimum_tokens\": ");
    reveal_strlit("\"YOUR_DEFAULT_MINIMUM_TOKENS\"");
    reveal_strlit("\n}\n");
    assert(count_char(template_prefix_spec(), 'M') == 0) by {
        reveal_with_fuel(count_char_from, 26);
    }
    lemma_count_zero(template_prefix_spec(), 'M');
    assert(count_char(tokens_line_prefix_spec(), 'M') == 0) by {
        reveal_with_fuel(count_char_from, 32);
    }
    lemma_count_zero(tokens_line_prefix_spec(), 'M');
    assert(count_char(tokens_sentinel_spec().take(14), 'M') == 0) by {
        reveal_with_fuel(count_char_from, 16);
    }
    lemma_count_zero(tokens_sentinel_spec().take(14), 'M');
    assert forall|j: int| 0 <= j < 14 implies #[trigger] tokens_sentinel_spec()[j] != 'M' by {
        assert(tokens_sentinel_spec().take(14)[j] == tokens_sentinel_spec()[j]);
    }
}

/// With the API key absent and a minimum token count `n` present, the
/// default-settings document is exactly the template text around the two
/// placeholders, with the API key's sentinel replaced by an empty string
/// literal and the count's sentinel replaced by `n`, re-quoted: every other
/// character of the template is unchanged.
pub proof fn lemma_tokens_placeholder_substituted(s: Settings)
    requires
        s.api_key is None,
        s.default_minimum_tokens is Some,
    ensures
        s.default_minimum_tokens matches Option::Some(n) ==> default_settings_doc_spec(
            Option::Some(s),
        ) == template_prefix_spec() + quoted_spec(Seq::empty()) + tokens_line_prefix_spec() + (
        quoted_spec(n@) + template_close_spec()),
{
    lemma_document_pieces_hold_no_capital_m();
    lemma_absent_key_document_shape();
    let p = template_prefix_spec();
    let q = quoted_spec(Seq::empty());
    let s1 = tokens_line_prefix_spec();
    let ns = tokens_sentinel_spec();
    let s2 = template_close_spec();
    let x = template_suffix_spec();
    let ak = p + (q + x);
    assert(q =~= seq!['"', '"']);
    match s.default_minimum_tokens {
        Option::Some(n) => {
            let qn = quoted_spec(n@);
            let doc = default_settings_doc_spec(Option::Some(s));
            assert(doc == replace_all_spec(ak, ns, qn));
            // The count's sentinel matches the substituted template only at
            // its own position, 56.
            assert forall|k: int| 0 <= k < 56 implies !#[trigger] matches_at(ak, ns, k) by {
                if matches_at(ak, ns, k) {
                    assert(ak.subrange(k, k + 29)[14] == ak[k + 14]);
                    assert(ak[k + 14] == 'M');
                    let i = k + 14;
                    if i < 24 {
                        assert(ak[i] == p[i]);
                    } else if i < 26 {
                        assert(ak[i] == q[i - 24]);
                    } else if i < 56 {
                        assert(ak[i] == x[i - 26]);
                        assert(x[i - 26] == s1[i - 26]);
                    } else {
                        assert(ak[i] == x[i - 26]);
                        assert(x[i - 26] == ns[i - 56]);
                    }
                }
            }
            lemma_replace_all_split(ak, ns, qn, 56);
            assert(ak.take(56) =~= p + q + s1);
            assert(ak.skip(56) =~= ns + s2);
            // At the sentinel itself, one replacement happens; the closing
            // text is shorter than the sentinel and stays as it is.
            assert((ns + s2).subrange(0, 29) =~= ns);
            assert(replace_all_spec(ns + s2, ns, qn) == qn + replace_all_spec(
                (ns + s2).skip(29),
                ns,
                qn,
            ));
            assert((ns + s2).skip(29) =~= s2);
            assert(replace_all_spec(s2, ns, qn) == s2);
            assert(doc == p + q + s1 + (qn + s2));
        },
        Option::None => {},
    }
}

} // verus!
