//! Message-text transformation: mention substitution and URL collapsing.

use voice_session::transform::{transform_text, MemberNames};

fn names(pairs: &[(u64, &str)]) -> MemberNames {
    let mut n = MemberNames::new();
    for (id, name) in pairs {
        n.add(*id, (*name).to_string());
    }
    n
}

#[test]
fn mention_becomes_display_name() {
    let n = names(&[(123, "Alice")]);
    assert_eq!(transform_text("hi <@123>", &n), "hi Alice");
}

#[test]
fn url_becomes_placeholder() {
    let n = MemberNames::new();
    assert_eq!(transform_text("see https://x.com/y", &n), "see リンク省略");
}

#[test]
fn nickname_mention_is_substituted() {
    let n = names(&[(42, "Bob")]);
    assert_eq!(transform_text("<@!42>!", &n), "Bob!");
}

#[test]
fn unknown_mention_stays() {
    let n = names(&[(1, "A")]);
    assert_eq!(transform_text("ping <@999>", &n), "ping <@999>");
}

#[test]
fn oversized_mention_number_stays() {
    let n = names(&[(1, "A")]);
    assert_eq!(
        transform_text("<@99999999999999999999999>", &n),
        "<@99999999999999999999999>"
    );
}

#[test]
fn malformed_mentions_stay() {
    let n = names(&[(12, "A")]);
    assert_eq!(transform_text("<@12x>", &n), "<@12x>");
    assert_eq!(transform_text("<@>", &n), "<@>");
    assert_eq!(transform_text("<@12", &n), "<@12");
    assert_eq!(transform_text("< @12>", &n), "< @12>");
}

#[test]
fn plain_http_url_collapses() {
    let n = MemberNames::new();
    assert_eq!(transform_text("http://a b", &n), "リンク省略 b");
}

#[test]
fn bare_scheme_is_kept() {
    let n = MemberNames::new();
    assert_eq!(transform_text("http:// x", &n), "http:// x");
    assert_eq!(transform_text("https://", &n), "https://");
    assert_eq!(transform_text("httpss://x", &n), "httpss://x");
}

#[test]
fn url_inside_a_word_collapses_from_the_scheme() {
    let n = MemberNames::new();
    assert_eq!(transform_text("xhttp://y", &n), "xリンク省略");
}

#[test]
fn url_swallows_to_next_whitespace() {
    let n = MemberNames::new();
    assert_eq!(
        transform_text("go https://a.b/c?d=e#f now", &n),
        "go リンク省略 now"
    );
    assert_eq!(transform_text("tab\thttp://x\tend", &n), "tab\tリンク省略\tend");
}

#[test]
fn display_name_that_is_a_url_collapses() {
    // Mentions are substituted first, URLs collapsed over the result.
    let n = names(&[(5, "http://evil")]);
    assert_eq!(transform_text("<@5>", &n), "リンク省略");
}

#[test]
fn mentions_and_urls_combine() {
    let n = names(&[(1, "Bob")]);
    assert_eq!(
        transform_text("hi <@1> see http://a.b", &n),
        "hi Bob see リンク省略"
    );
}

#[test]
fn empty_text_stays_empty() {
    let n = MemberNames::new();
    assert_eq!(transform_text("", &n), "");
}

#[test]
fn unrelated_unicode_is_untouched() {
    let n = MemberNames::new();
    assert_eq!(
        transform_text("こんにちは https://x.co 世界", &n),
        "こんにちは リンク省略 世界"
    );
}

#[test]
fn first_name_entry_wins() {
    let n = names(&[(1, "First"), (1, "Second")]);
    assert_eq!(transform_text("<@1>", &n), "First");
}

#[test]
fn adjacent_mentions_each_substitute() {
    let n = names(&[(1, "A"), (2, "B")]);
    assert_eq!(transform_text("<@1><@2>", &n), "AB");
}

#[test]
fn ideographic_space_ends_a_url() {
    // U+3000 counts as whitespace, so the URL stops before it.
    let n = MemberNames::new();
    assert_eq!(transform_text("http://a\u{3000}b", &n), "リンク省略\u{3000}b");
}
