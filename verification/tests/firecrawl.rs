use crawlkit_extensions::firecrawl::{FirecrawlClient, FirecrawlClientBuilder, FirecrawlError, ScrapeFormat};
use crawlkit_extensions::retry::RetryDecision;

#[test]
fn firecrawl_build_needs_a_token() {
    let r = FirecrawlClient::builder().build();
    assert_eq!(r.err(), Some(FirecrawlError::NoTokens));
}

#[test]
fn firecrawl_builder_defaults() {
    let b = FirecrawlClientBuilder::default();
    assert!(b.api_tokens().is_empty());
    let c = b.with_tokens(&["t"]).build().unwrap();
    assert_eq!(c.name(), "firecrawl");
    assert_eq!(c.max_retries(), 3);
}

#[test]
fn firecrawl_builder_setters() {
    let c = FirecrawlClient::builder()
        .with_name("fc")
        .with_tokens(&["token-1", "token-2"])
        .with_max_retries(7)
        .build()
        .unwrap();
    assert_eq!(c.name(), "fc");
    assert_eq!(c.api_tokens(), &vec!["token-1".to_string(), "token-2".to_string()]);
    assert_eq!(c.max_retries(), 7);
}

#[test]
fn firecrawl_token_list_is_split_and_trimmed() {
    let b = FirecrawlClient::builder().with_token_list(" a , ,b,,\tc \n");
    assert_eq!(b.api_tokens(), &vec!["a".to_string(), "b".to_string(), "c".to_string()]);
    let none = FirecrawlClient::builder().with_token_list(" , ,");
    assert!(none.api_tokens().is_empty());
    assert_eq!(none.build().err(), Some(FirecrawlError::NoTokens));
    let one = FirecrawlClient::builder().with_token_list("fc-1");
    assert_eq!(one.api_tokens(), &vec!["fc-1".to_string()]);
    let unicode_space = FirecrawlClient::builder().with_token_list("\u{3000}x\u{a0},y");
    assert_eq!(unicode_space.api_tokens(), &vec!["x".to_string(), "y".to_string()]);
}

#[test]
fn firecrawl_picks_one_of_its_tokens() {
    let c = FirecrawlClient::builder().with_tokens(&["a", "b", "c"]).build().unwrap();
    for _ in 0..50 {
        let t = c.pick_token();
        assert!(t == "a" || t == "b" || t == "c");
    }
    assert_eq!(c.token_at(1), "b");
}

#[test]
fn firecrawl_scrape_without_html_fails() {
    assert_eq!(FirecrawlClient::scraped_page(None, "https://x"), Err(FirecrawlError::EmptyHtml));
    assert_eq!(
        FirecrawlClient::scraped_page(Some("<p>hi</p>".to_string()), "https://x"),
        Ok(("https://x".to_string(), "<p>hi</p>".to_string()))
    );
}

#[test]
fn firecrawl_no_retries() {
    let c = FirecrawlClient::builder().with_tokens(&["a"]).with_max_retries(0).build().unwrap();
    let mut r = c.retrier();
    assert!(matches!(r.on_failure(), RetryDecision::GiveUp));
}

#[test]
fn firecrawl_scrape_plan() {
    let c = FirecrawlClient::builder().with_tokens(&["t1", "t2"]).build().unwrap();
    let plan = c.plan_scrape("https://example.com");
    assert!(plan.token == "t1" || plan.token == "t2");
    assert_eq!(plan.url, "https://example.com");
    assert_eq!(plan.formats, vec![ScrapeFormat::Html]);
    assert!(plan.only_main_content);
}
