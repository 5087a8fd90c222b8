use novel_api::chapters::{CreateChapterRequest, UpdateChapterRequest};
use novel_api::comments::CreateCommentRequest;
use novel_api::forums::{CreateReplyRequest, CreateThreadRequest};
use novel_api::novels::{CreateNovelRequest, UpdateNovelRequest};
use novel_api::reviews::{CreateReviewRequest, UpdateReviewRequest};
use novel_api::validation::{Field, Rule, Violation};

fn v(field: Field, rule: Rule) -> Violation {
    Violation { field, rule }
}

fn novel(title: &str, synopsis: Option<String>) -> CreateNovelRequest {
    CreateNovelRequest { title: title.to_string(), synopsis, cover_url: None, genres: None, tags: None }
}

#[test]
fn novel_title_length_bounds() {
    assert_eq!(novel("A", None).validate(), Ok(()));
    assert_eq!(novel(&"x".repeat(500), None).validate(), Ok(()));
    assert_eq!(novel("", None).validate(), Err(vec![v(Field::Title, Rule::Length)]));
    assert_eq!(novel(&"x".repeat(501), None).validate(), Err(vec![v(Field::Title, Rule::Length)]));
}

#[test]
fn lengths_count_characters_not_bytes() {
    // 500 two-byte characters are 1000 bytes but only 500 characters.
    assert_eq!(novel(&"é".repeat(500), None).validate(), Ok(()));
}

#[test]
fn novel_synopsis_limit_and_all_violations_reported() {
    let r = novel("", Some("s".repeat(10001))).validate();
    assert_eq!(r, Err(vec![v(Field::Title, Rule::Length), v(Field::Synopsis, Rule::Length)]));
    assert_eq!(novel("ok", Some("s".repeat(10000))).validate(), Ok(()));
}

#[test]
fn novel_update_checks_only_present_fields() {
    let none = UpdateNovelRequest { title: None, synopsis: None, cover_url: None, status: None, genres: None, tags: None };
    assert_eq!(none.validate(), Ok(()));
    let empty_title = UpdateNovelRequest { title: Some(String::new()), ..none.clone() };
    assert_eq!(empty_title.validate(), Err(vec![v(Field::Title, Rule::Length)]));
}

#[test]
fn novel_genres_and_tags_default_to_empty() {
    let r = novel("T", None);
    assert!(r.genres_or_empty().is_empty());
    assert!(r.tags_or_empty().is_empty());
    let g = CreateNovelRequest { genres: Some(vec!["fantasy".to_string()]), ..novel("T", None) };
    assert_eq!(g.genres_or_empty(), vec!["fantasy".to_string()]);
}

#[test]
fn chapter_link_must_be_a_url() {
    let good = CreateChapterRequest { chapter_number: 1, title: None, link: "https://example.com/c/1".to_string() };
    assert_eq!(good.validate(), Ok(()));
    let bad = CreateChapterRequest { chapter_number: 1, title: Some("t".repeat(501)), link: "not a url".to_string() };
    assert_eq!(bad.validate(), Err(vec![v(Field::Title, Rule::Length), v(Field::Link, Rule::Url)]));
    let upd = UpdateChapterRequest { title: None, link: Some("nope".to_string()) };
    assert_eq!(upd.validate(), Err(vec![v(Field::Link, Rule::Url)]));
    assert_eq!(UpdateChapterRequest { title: None, link: None }.validate(), Ok(()));
}

#[test]
fn comment_body_bounds() {
    let c = |b: String| CreateCommentRequest { entity_type: "novel".to_string(), entity_id: 1, parent_id: None, body: b };
    assert_eq!(c("hi".to_string()).validate(), Ok(()));
    assert_eq!(c(String::new()).validate(), Err(vec![v(Field::Body, Rule::Length)]));
    assert_eq!(c("b".repeat(5001)).validate(), Err(vec![v(Field::Body, Rule::Length)]));
}

#[test]
fn thread_and_reply_bounds() {
    let t = CreateThreadRequest { category_id: 3, title: "Hello".to_string(), body: "b".repeat(50000) };
    assert_eq!(t.validate(), Ok(()));
    let t2 = CreateThreadRequest { category_id: 3, title: String::new(), body: "b".repeat(50001) };
    assert_eq!(t2.validate(), Err(vec![v(Field::Title, Rule::Length), v(Field::Body, Rule::Length)]));
    assert_eq!(CreateReplyRequest { body: String::new() }.validate(), Err(vec![v(Field::Body, Rule::Length)]));
    assert_eq!(CreateReplyRequest { body: "thanks".to_string() }.validate(), Ok(()));
}

#[test]
fn review_rating_and_body() {
    let r = CreateReviewRequest { rating: 5, title: None, body: "0123456789".to_string() };
    assert_eq!(r.validate(), Ok(()));
    let bad = CreateReviewRequest { rating: 0, title: Some("t".repeat(301)), body: "short".to_string() };
    assert_eq!(
        bad.validate(),
        Err(vec![v(Field::Rating, Rule::Range), v(Field::Title, Rule::Length), v(Field::Body, Rule::Length)])
    );
    let upd = UpdateReviewRequest { rating: Some(6), title: None, body: None };
    assert_eq!(upd.validate(), Err(vec![v(Field::Rating, Rule::Range)]));
    assert_eq!(UpdateReviewRequest { rating: None, title: None, body: None }.validate(), Ok(()));
}

#[test]
fn field_names_and_rule_codes() {
    assert_eq!(Field::Title.name(), "title");
    assert_eq!(Field::Synopsis.name(), "synopsis");
    assert_eq!(Field::Link.name(), "link");
    assert_eq!(Field::Body.name(), "body");
    assert_eq!(Field::Rating.name(), "rating");
    assert_eq!(Rule::Length.code(), "length");
    assert_eq!(Rule::Range.code(), "range");
    assert_eq!(Rule::Url.code(), "url");
}

#[test]
fn slugs_of_titles() {
    assert_eq!(novel("My Test String!!!1!1", None).slug(), "my-test-string-1-1");
    assert_eq!(novel("  --test_-_cool", None).slug(), "test-cool");
    let t = CreateThreadRequest { category_id: 1, title: "You & Me".to_string(), body: "b".to_string() };
    assert_eq!(t.slug(), "you-me");
}

#[test]
fn update_slug_follows_new_title() {
    let none = UpdateNovelRequest { title: None, synopsis: None, cover_url: None, status: None, genres: None, tags: None };
    assert_eq!(none.slug(), None);
    let renamed = UpdateNovelRequest { title: Some("Æúű--cool?".to_string()), ..none };
    assert_eq!(renamed.slug(), Some("aeuu-cool".to_string()));
}

#[test]
fn slugs_are_well_formed() {
    let titles = ["", "---", "Hello, World!", "  Ünïcödé  Title  ", "a--b__c", "日本語のタイトル", "x"];
    for t in titles {
        let s = novel(t, None).slug();
        assert!(s.chars().all(|c| c.is_ascii_lowercase() || c.is_ascii_digit() || c == '-'));
        assert!(!s.starts_with('-') && !s.ends_with('-'));
        assert!(!s.contains("--"));
    }
}
