//! Choosing the language of the messages.
use vstd::prelude::*;

use crate::text::{
    ascii_lower_seq, chars_of, eq_lit, has_prefix, is_ascii_text, is_ws_char, lemma_trim_ascii,
    starts_with_lit, string_from_chars, sub_vec, to_lowercase_string, trim, trim_chars, trim_end,
    trim_start, unicode_lowercase,
};

verus! {

broadcast use vstd::string::group_string_axioms;

/// A character that ends the primary language subtag.
pub open spec fn is_subtag_sep(c: char) -> bool {
    c == '-' || c == '_' || c == '.' || c == '@'
}

/// The text up to the first `-`, `_`, `.` or `@`.
pub open spec fn primary_subtag(s: Seq<char>) -> Seq<char>
    decreases s.len(),
{
    if s.len() == 0 || is_subtag_sep(s[0]) {
        Seq::empty()
    } else {
        seq![s[0]] + primary_subtag(s.drop_first())
    }
}

/// The supported locale for a lower-cased locale string: its primary
/// subtag when that is `es` or `en`; else `es` for names starting with
/// "spanish"; else `en`.
pub open spec fn locale_of_lowered_spec(lower: Seq<char>) -> Seq<char> {
    let primary = primary_subtag(lower);
    if primary == "es"@ {
        "es"@
    } else if primary == "en"@ {
        "en"@
    } else if has_prefix(lower, "spanish"@) {
        "es"@
    } else {
        "en"@
    }
}

/// The supported locale for a locale string: that of its trimmed,
/// lower-cased form (see `locale_of_lowered_spec`).
pub open spec fn normalised_locale(code: Seq<char>) -> Seq<char> {
    locale_of_lowered_spec(unicode_lowercase(trim(code)))
}

/// The supported locale for an ASCII locale string, whose lower-casing is
/// the ASCII one.
pub open spec fn ascii_normalised_locale(code: Seq<char>) -> Seq<char> {
    locale_of_lowered_spec(ascii_lower_seq(trim(code)))
}

proof fn lemma_primary_prefix(s: Seq<char>, i: int)
    requires
        0 <= i <= s.len(),
        forall|j: int| 0 <= j < i ==> !is_subtag_sep(s[j]),
        i == s.len() || is_subtag_sep(s[i]),
    ensures
        primary_subtag(s) == s.take(i),
    decreases s.len(),
{
    if s.len() == 0 || is_subtag_sep(s[0]) {
        assert(s.take(i) =~= Seq::<char>::empty());
    } else {
        lemma_primary_prefix(s.drop_first(), i - 1);
        assert(s.take(i) =~= seq![s[0]] + s.drop_first().take(i - 1));
    }
}

fn primary_subtag_chars(s: &[char]) -> (r: Vec<char>)
    ensures
        r@ == primary_subtag(s@),
{
    let mut i: usize = 0;
    while i < s.len() && !(s[i] == '-' || s[i] == '_' || s[i] == '.' || s[i] == '@')
        invariant
            i <= s@.len(),
            forall|j: int| 0 <= j < i ==> !is_subtag_sep(s@[j]),
        decreases s@.len() - i,
    {
        i += 1;
    }
    proof {
        lemma_primary_prefix(s@, i as int);
    }
    sub_vec(s, 0, i)
}

/// Map a locale string ("es", "es-ES", "es_ES.UTF-8", "English_United
/// States", ...) to a supported code, defaulting to "en".
pub fn normalise_locale(code: &str) -> (r: String)
    ensures
        r@ == normalised_locale(code@),
        is_ascii_text(code@) ==> r@ == ascii_normalised_locale(code@),
{
    proof {
        if is_ascii_text(code@) {
            lemma_trim_ascii(code@);
        }
    }
    let trimmed = string_from_chars(&trim_chars(&chars_of(code)));
    let lower = to_lowercase_string(trimmed.as_str());
    locale_of_lowered(lower.as_str())
}

/// The supported code for a locale string that is already trimmed and
/// lower-cased.
pub fn locale_of_lowered(lower_s: &str) -> (r: String)
    ensures
        r@ == locale_of_lowered_spec(lower_s@),
{
    let lower = chars_of(lower_s);
    let primary = primary_subtag_chars(&lower);
    if eq_lit(&primary, "es") {
        "es".to_owned()
    } else if eq_lit(&primary, "en") {
        "en".to_owned()
    } else if starts_with_lit(&lower, "spanish") {
        "es".to_owned()
    } else {
        "en".to_owned()
    }
}

/// The text is set: present and not only whitespace.
pub open spec fn is_set(v: Option<Seq<char>>) -> bool {
    v matches Some(s) && trim(s).len() > 0
}

/// The view of an optional string.
pub open spec fn opt_text(v: Option<&str>) -> Option<Seq<char>> {
    match v {
        Some(s) => Some(s@),
        None => None,
    }
}

/// The first set value among the POSIX locale variables, in order.
pub open spec fn first_set(vars: Seq<Option<String>>) -> Option<Seq<char>>
    decreases vars.len(),
{
    if vars.len() == 0 {
        None
    } else {
        let v = match vars[0] {
            Some(s) => Some(s@),
            None => None,
        };
        if is_set(v) {
            Some(trim(v->0))
        } else {
            first_set(vars.drop_first())
        }
    }
}

/// The active locale, in priority order: the `--lang` flag; the
/// application's variable when set; the first set POSIX variable (`LC_ALL`,
/// `LC_MESSAGES`, `LANG`, `LANGUAGE`, as given); the system locale; "en".
pub open spec fn detected_lang(
    cli_override: Option<Seq<char>>,
    app_var: Option<Seq<char>>,
    posix_vars: Seq<Option<String>>,
    system: Option<Seq<char>>,
) -> Seq<char> {
    if cli_override is Some {
        normalised_locale(cli_override->0)
    } else if is_set(app_var) {
        normalised_locale(app_var->0)
    } else if first_set(posix_vars) is Some {
        normalised_locale(first_set(posix_vars)->0)
    } else if system is Some {
        normalised_locale(system->0)
    } else {
        "en"@
    }
}

/// Resolves the active locale from the sources that the application read
/// (see `detected_lang`).
pub fn detect_lang(
    cli_override: Option<&str>,
    app_var: Option<&str>,
    posix_vars: &Vec<Option<String>>,
    system: Option<&str>,
) -> (r: String)
    ensures
        r@ == detected_lang(opt_text(cli_override), opt_text(app_var), posix_vars@, opt_text(system)),
{
    if let Some(code) = cli_override {
        return normalise_locale(code);
    }
    if let Some(v) = app_var {
        let t = trim_chars(&chars_of(v));
        if t.len() > 0 {
            return normalise_locale(v);
        }
    }
    let mut k: usize = 0;
    assert(posix_vars@.skip(0) =~= posix_vars@);
    while k < posix_vars.len()
        invariant
            k <= posix_vars@.len(),
            first_set(posix_vars@) == first_set(posix_vars@.skip(k as int)),
            cli_override is None,
            !is_set(opt_text(app_var)),
        decreases posix_vars@.len() - k,
    {
        assert(posix_vars@.skip(k as int)[0] == posix_vars@[k as int]);
        if let Some(v) = &posix_vars[k] {
            let t = trim_chars(&chars_of(v.as_str()));
            if t.len() > 0 {
                let ts = string_from_chars(&t);
                return normalise_locale(ts.as_str());
            }
        }
        assert(posix_vars@.skip(k as int).drop_first() =~= posix_vars@.skip(k + 1));
        k += 1;
    }
    if let Some(v) = system {
        return normalise_locale(v);
    }
    "en".to_owned()
}

/// Every locale string maps to one of the two supported locales.
pub proof fn law_locale_is_supported(code: Seq<char>)
    ensures
        normalised_locale(code) == "es"@ || normalised_locale(code) == "en"@,
{
}

/// Choosing from a lower-cased locale string is stable: each supported code
/// maps to itself.
pub proof fn law_lowered_locale_is_fixed(lower: Seq<char>)
    ensures
        locale_of_lowered_spec(locale_of_lowered_spec(lower)) == locale_of_lowered_spec(lower),
{
    reveal_strlit("es");
    reveal_strlit("en");
    lemma_primary_prefix("es"@, 2);
    lemma_primary_prefix("en"@, 2);
    assert("es"@.take(2) =~= "es"@);
    assert("en"@.take(2) =~= "en"@);
}

/// Normalising is idempotent: the code chosen is ASCII, and normalising it
/// again gives it back.
pub proof fn law_normalise_twice(code: Seq<char>)
    ensures
        is_ascii_text(normalised_locale(code)),
        ascii_normalised_locale(normalised_locale(code)) == normalised_locale(code),
{
    reveal_strlit("es");
    reveal_strlit("en");
    let r = normalised_locale(code);
    assert(trim_start(r) == r);
    assert(trim_end(r) == r);
    assert(ascii_lower_seq(r) =~= r);
    law_lowered_locale_is_fixed(unicode_lowercase(trim(code)));
}

/// The `--lang` flag wins over every other source.
pub proof fn law_flag_wins(
    flag: Seq<char>,
    app_var: Option<Seq<char>>,
    posix_vars: Seq<Option<String>>,
    system: Option<Seq<char>>,
)
    ensures
        detected_lang(Some(flag), app_var, posix_vars, system) == normalised_locale(flag),
{
}

/// With no source set, the locale is English.
pub proof fn law_default_english(posix_vars: Seq<Option<String>>)
    requires
        first_set(posix_vars) is None,
    ensures
        detected_lang(None, None, posix_vars, None) == "en"@,
{
}

} // verus!
