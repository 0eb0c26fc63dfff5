use observer::tools::text_length::TextLengthTool;
use observer::tools::web_scraper::{
    item_from, items_from, BrowserStage, RawElement, ScrapePlan, ScrapeRequest, ScrapedData,
    ScrapedItem, ScraperError, WebScraper, MAX_FILE_SIZE,
};
use serde_json::Value;

fn json(text: &str) -> Value {
    serde_json::from_str(text).unwrap()
}

fn item(text: &str, link: Option<&str>) -> ScrapedItem {
    ScrapedItem { text: text.to_string(), link: link.map(|l| l.to_string()) }
}

fn data(items: Vec<ScrapedItem>) -> ScrapedData {
    ScrapedData { items }
}

#[test]
fn text_length_counts_bytes() {
    let tool = TextLengthTool::new();
    assert_eq!(tool.run(json(r#"{"text":"hello"}"#)), Ok(r#"{"length":5}"#.to_string()));
    assert_eq!(tool.run(json(r#"{"text":""}"#)), Ok(r#"{"length":0}"#.to_string()));
    assert_eq!(tool.run(json(r#"{"text":"héllo ×"}"#)), Ok(r#"{"length":9}"#.to_string()));
}

#[test]
fn text_length_wants_a_string_member() {
    let tool = TextLengthTool::new();
    let missing = Err("Missing 'text' parameter".to_string());
    assert_eq!(tool.run(json(r#"{}"#)), missing);
    assert_eq!(tool.run(json(r#"{"text":5}"#)), missing);
    assert_eq!(tool.run(json(r#"["text"]"#)), missing);
    assert_eq!(tool.run(json(r#""text""#)), missing);
}

#[test]
fn text_length_measures_what_it_is_given() {
    assert_eq!(TextLengthTool::measure(Some("abc")), Ok(3));
    assert_eq!(TextLengthTool::measure(None), Err("Missing 'text' parameter".to_string()));
}

#[test]
fn text_length_describes_itself() {
    let tool = TextLengthTool::new();
    assert_eq!(tool.def_name(), "text_length_tool");
    assert_eq!(tool.def_description(), "Returns the length of the input text.");
    let schema = json(tool.def_parameters());
    assert_eq!(schema["type"], Value::String("object".to_string()));
    assert_eq!(schema["required"][0], Value::String("text".to_string()));
    assert_eq!(
        schema["properties"]["text"]["description"],
        Value::String("Input text to calculate its length".to_string())
    );
}

#[test]
fn scraper_describes_itself() {
    let scraper = WebScraper::new();
    assert_eq!(scraper.user_agent, "Mozilla/5.0 (compatible; WebScraper/1.0)");
    assert_eq!(scraper.timeout_secs, 10);
    assert_eq!(scraper.clone(), scraper);
    assert_eq!(scraper.def_name(), "web_scraper");
    assert!(scraper.def_description().starts_with("Extracts webpage content using a CSS selector"));
    assert!(scraper.def_description().ends_with("at the end of your response.**"));
    let schema = json(scraper.def_parameters());
    assert_eq!(schema["properties"]["mode"]["enum"][1], Value::String("playwright".to_string()));
    assert_eq!(schema["required"].as_array().unwrap().len(), 4);
    assert_eq!(schema["properties"]["seek_pos"]["type"], Value::String("integer".to_string()));
}

#[test]
fn every_error_has_its_message() {
    let expected = [
        (ScraperError::NetworkError, "Network error occurred."),
        (ScraperError::ParseError, "Error occurred while parsing data."),
        (ScraperError::TimeoutError, "Request timed out."),
        (ScraperError::FileTooLargeError, "File size is too large."),
        (ScraperError::InitializationError, "Failed to initialize Playwright."),
        (ScraperError::ContextError, "Failed to create Playwright context."),
        (ScraperError::LaunchError, "Failed to launch Playwright browser."),
        (ScraperError::PageError, "Failed to create Playwright page."),
        (ScraperError::ScriptError, "Failed to add Playwright script."),
        (ScraperError::UnknownError, "An unknown error occurred."),
    ];
    for (error, message) in expected {
        assert_eq!(error.message(), message);
    }
}

#[test]
fn compress_takes_a_window_and_counts_the_rest() {
    let content = data(vec![item("Hello", Some("https://a.example")), item("World", None)]);
    assert_eq!(
        WebScraper::compress_content(content, 0, 7),
        "Hello(h...<22 characters remaining>"
    );
    let content = data(vec![item("Hello", Some("https://a.example")), item("World", None)]);
    assert_eq!(
        WebScraper::compress_content(content, 5, 1000),
        "(https://a.example)World...<0 characters remaining>"
    );
}

#[test]
fn compress_past_the_end_is_empty() {
    assert_eq!(
        WebScraper::compress_content(data(vec![item("abc", None)]), 3, 10),
        "...<0 characters remaining>"
    );
    assert_eq!(
        WebScraper::compress_content(data(vec![item("abc", None)]), 99, 10),
        "...<0 characters remaining>"
    );
    assert_eq!(WebScraper::compress_content(data(vec![]), 0, 10), "...<0 characters remaining>");
}

#[test]
fn compress_counts_characters_not_bytes() {
    let content = data(vec![item("日本語テキスト", None)]);
    assert_eq!(WebScraper::compress_content(content, 2, 3), "語テキ...<2 characters remaining>");
}

#[test]
fn compress_with_an_empty_window_leaves_all_behind() {
    let content = data(vec![item("0123456789ab", None)]);
    assert_eq!(WebScraper::compress_content(content, 1, 0), "...<11 characters remaining>");
    let content = data(vec![item("0123456789ab", None)]);
    assert_eq!(
        WebScraper::compress_content(content, 1, usize::MAX),
        "123456789ab...<0 characters remaining>"
    );
}

#[test]
fn declared_length_over_the_limit_is_refused() {
    assert_eq!(WebScraper::check_declared_length(None), Ok(()));
    assert_eq!(WebScraper::check_declared_length(Some(MAX_FILE_SIZE)), Ok(()));
    assert_eq!(
        WebScraper::check_declared_length(Some(MAX_FILE_SIZE + 1)),
        Err(ScraperError::FileTooLargeError)
    );
    assert_eq!(MAX_FILE_SIZE, 5_242_880);
}

#[test]
fn html_is_scraped_by_the_selector() {
    let body = "<html><body><h1> Big  Title </h1><p>one <b>two</b>\n three</p>\
                <a href=\"/x\">go</a><img src=\"/i.png\"><a href=\"/h\" src=\"/s\"></a><p>  </p>\
                </body></html>";
    let scraped =
        WebScraper::read_body("text/html; charset=utf-8", body.as_bytes().to_vec(), "h1, p, a, img");
    assert_eq!(
        scraped,
        Ok(data(vec![
            item("BigTitle", None),
            item("onetwothree", None),
            item("go", Some("/x")),
            item("", Some("/i.png")),
            item("", Some("/h")),
        ]))
    );
}

#[test]
fn bad_selector_is_a_parse_error() {
    let scraped = WebScraper::read_body("text/html", b"<p>x</p>".to_vec(), "p[");
    assert_eq!(scraped, Err(ScraperError::ParseError));
}

#[test]
fn whitelisted_body_is_one_item() {
    let scraped =
        WebScraper::read_body("application/json; charset=utf-8", b"{\"a\": 1}".to_vec(), "p");
    assert_eq!(scraped, Ok(data(vec![item("{\"a\": 1}", None)])));
    let scraped = WebScraper::read_body("text/x-awk", b"BEGIN {}".to_vec(), "p");
    assert_eq!(scraped, Ok(data(vec![item("BEGIN {}", None)])));
}

#[test]
fn other_content_types_are_refused() {
    assert_eq!(
        WebScraper::read_body("image/png", b"abc".to_vec(), "p"),
        Err(ScraperError::ParseError)
    );
    assert_eq!(WebScraper::read_body("", b"abc".to_vec(), "p"), Err(ScraperError::ParseError));
}

#[test]
fn body_that_is_no_utf8_is_refused() {
    assert_eq!(
        WebScraper::read_body("text/html", vec![0xff, 0xfe, 0x00], "p"),
        Err(ScraperError::ParseError)
    );
    assert_eq!(
        WebScraper::read_body("text/plain", vec![0xc3], "p"),
        Err(ScraperError::ParseError)
    );
}

#[test]
fn body_over_the_limit_is_refused_before_it_is_decoded() {
    let body = vec![0xffu8; MAX_FILE_SIZE as usize + 1];
    assert_eq!(
        WebScraper::read_body("text/html", body, "p"),
        Err(ScraperError::FileTooLargeError)
    );
    let body = vec![b'a'; MAX_FILE_SIZE as usize];
    assert_eq!(
        WebScraper::read_body("text/plain", body, "p").map(|d| d.items.len()),
        Ok(1)
    );
}

#[test]
fn modes_have_their_plans() {
    assert_eq!(WebScraper::plan("reqwest"), Ok(ScrapePlan::ReqwestThenPlaywright));
    assert_eq!(WebScraper::plan("playwright"), Ok(ScrapePlan::PlaywrightOnly));
    assert_eq!(WebScraper::plan("auto"), Err(ScraperError::UnknownError));
    assert_eq!(WebScraper::plan(""), Err(ScraperError::UnknownError));
}

#[test]
fn arguments_are_read_in_order() {
    let full = json(
        r#"{"url":"https://example.com","selector":"p","mode":"playwright","seek_pos":5,"max_length":100}"#,
    );
    assert_eq!(
        WebScraper::read_arguments(&full),
        Ok(ScrapeRequest {
            url: "https://example.com".to_string(),
            selector: "p".to_string(),
            mode: "playwright".to_string(),
            seek_pos: 5,
            max_length: 100,
        })
    );
    let no_mode = json(r#"{"url":"u","selector":"p","seek_pos":0,"max_length":1}"#);
    assert_eq!(WebScraper::read_arguments(&no_mode).map(|r| r.mode), Ok("reqwest".to_string()));
    assert_eq!(
        WebScraper::read_arguments(&json(r#"{}"#)),
        Err("Missing 'url' parameter".to_string())
    );
    assert_eq!(
        WebScraper::read_arguments(&json(r#"{"url":"u"}"#)),
        Err("Missing 'selector' parameter".to_string())
    );
    assert_eq!(
        WebScraper::read_arguments(&json(r#"{"url":"u","selector":"p","max_length":1}"#)),
        Err("Missing 'seek_pos' parameter".to_string())
    );
    assert_eq!(
        WebScraper::read_arguments(&json(r#"{"url":"u","selector":"p","seek_pos":-1,"max_length":1}"#)),
        Err("Missing 'seek_pos' parameter".to_string())
    );
    assert_eq!(
        WebScraper::read_arguments(&json(r#"{"url":"u","selector":"p","seek_pos":1,"max_length":"x"}"#)),
        Err("Missing 'max_length' parameter".to_string())
    );
    assert_eq!(
        WebScraper::read_arguments(&json(r#"{"url":7,"selector":"p","seek_pos":1,"max_length":1}"#)),
        Err("Missing 'url' parameter".to_string())
    );
}

#[test]
fn request_is_made_of_the_members_found() {
    assert_eq!(
        WebScraper::request_from(Some("u".to_string()), None, None, None, None),
        Err("Missing 'selector' parameter".to_string())
    );
    assert_eq!(
        WebScraper::request_from(
            Some("u".to_string()),
            Some("s".to_string()),
            None,
            Some(3),
            Some(4)
        ),
        Ok(ScrapeRequest {
            url: "u".to_string(),
            selector: "s".to_string(),
            mode: "reqwest".to_string(),
            seek_pos: 3,
            max_length: 4,
        })
    );
}

#[test]
fn result_is_rendered_as_a_json_string() {
    let content = data(vec![item("say \"hi\"\n", Some("/x"))]);
    assert_eq!(
        WebScraper::render(Ok(content), 0, 100),
        Ok("\"say \\\"hi\\\"\\n(/x)...<0 characters remaining>\"".to_string())
    );
    assert_eq!(
        WebScraper::render(Err(ScraperError::TimeoutError), 0, 100),
        Err("Scrape error: Request timed out.".to_string())
    );
    assert_eq!(
        WebScraper::render(Err(ScraperError::UnknownError), 0, 100),
        Err("Scrape error: An unknown error occurred.".to_string())
    );
}

#[test]
fn browser_stages_fail_with_their_errors() {
    let expected = [
        (BrowserStage::Initialize, ScraperError::InitializationError),
        (BrowserStage::Launch, ScraperError::LaunchError),
        (BrowserStage::Context, ScraperError::ContextError),
        (BrowserStage::Page, ScraperError::PageError),
        (BrowserStage::Script, ScraperError::ScriptError),
        (BrowserStage::Goto, ScraperError::NetworkError),
        (BrowserStage::WaitForSelector, ScraperError::TimeoutError),
        (BrowserStage::Evaluate, ScraperError::ParseError),
        (BrowserStage::Decode, ScraperError::ParseError),
    ];
    for (stage, error) in expected {
        assert_eq!(WebScraper::stage_failure(stage), error);
    }
}

#[test]
fn browser_script_names_the_selector() {
    assert_eq!(
        WebScraper::browser_script("p, a"),
        "Array.from(document.querySelectorAll('p, a')).map(e => ({text: e.innerText || '',\n                href: e.getAttribute('href') || '',\n                src: e.getAttribute('src') || ''\n            }))"
    );
    assert!(WebScraper::browser_user_agent().contains("OBSERVER SCRAPER"));
}

fn element(nodes: &[&str], primary: Option<&str>, fallback: Option<&str>) -> RawElement {
    RawElement {
        text_nodes: nodes.iter().map(|n| n.to_string()).collect(),
        primary: primary.map(|p| p.to_string()),
        fallback: fallback.map(|f| f.to_string()),
    }
}

#[test]
fn item_text_has_no_white_space_and_link_prefers_the_primary() {
    assert_eq!(
        item_from(&element(&[" a b", "\tc\u{3000}d\n"], Some("h"), Some("s"))),
        item("abcd", Some("h"))
    );
    assert_eq!(item_from(&element(&[], None, Some("s"))), item("", Some("s")));
    assert_eq!(item_from(&element(&["x"], None, None)), item("x", None));
}

#[test]
fn items_without_text_and_link_are_dropped() {
    let elements = vec![
        element(&["  "], None, None),
        element(&["a"], None, None),
        element(&[], Some(""), None),
        element(&[" \n"], None, None),
        element(&["b"], None, Some("s")),
    ];
    assert_eq!(
        items_from(&elements),
        vec![item("a", None), item("", Some("")), item("b", Some("s"))]
    );
    assert_eq!(items_from(&vec![]), vec![]);
}

#[test]
fn address_that_is_no_absolute_url_is_refused() {
    assert_eq!(WebScraper::check_url("https://example.com/a?b=c"), Ok(()));
    assert_eq!(WebScraper::check_url("http://h/"), Ok(()));
    assert_eq!(WebScraper::check_url("example.com"), Err(ScraperError::ParseError));
    assert_eq!(WebScraper::check_url("/relative/path"), Err(ScraperError::ParseError));
    assert_eq!(WebScraper::check_url(""), Err(ScraperError::ParseError));
    assert_eq!(WebScraper::check_url("http://"), Err(ScraperError::ParseError));
}

#[test]
fn client_and_server_errors_are_refused() {
    assert_eq!(WebScraper::check_status(200), Ok(()));
    assert_eq!(WebScraper::check_status(304), Ok(()));
    assert_eq!(WebScraper::check_status(399), Ok(()));
    assert_eq!(WebScraper::check_status(400), Err(ScraperError::NetworkError));
    assert_eq!(WebScraper::check_status(404), Err(ScraperError::NetworkError));
    assert_eq!(WebScraper::check_status(500), Err(ScraperError::NetworkError));
    assert_eq!(WebScraper::check_status(599), Err(ScraperError::NetworkError));
    assert_eq!(WebScraper::check_status(600), Ok(()));
    assert_eq!(WebScraper::check_status(100), Ok(()));
}

#[test]
fn link_text_between_spaces_keeps_its_letters() {
    let body = "<html><body><a href=\"/x\"> Hello  World </a><p></p></body></html>";
    assert_eq!(
        WebScraper::read_body("text/html", body.as_bytes().to_vec(), "a, p"),
        Ok(data(vec![item("HelloWorld", Some("/x"))]))
    );
}

#[test]
fn every_white_space_character_is_dropped() {
    let spaces = "\u{9}\u{a}\u{b}\u{c}\u{d} \u{85}\u{a0}\u{1680}\u{2000}\u{2001}\u{2002}\u{2003}\u{2004}\u{2005}\u{2006}\u{2007}\u{2008}\u{2009}\u{200a}\u{2028}\u{2029}\u{202f}\u{205f}\u{3000}";
    assert_eq!(spaces.chars().count(), 25);
    assert_eq!(item_from(&element(&[spaces], None, None)), item("", None));
    let others = "\u{8}\u{e}\u{1f}!\u{84}\u{86}\u{9f}\u{a1}\u{180e}\u{1fff}\u{200b}\u{2027}\u{202a}\u{2060}\u{2fff}\u{3001}\u{feff}";
    assert_eq!(item_from(&element(&[others], None, None)), item(others, None));
}

#[test]
fn plain_window_is_rendered_between_quotes() {
    let content = data(vec![item("héllo wörld", None)]);
    assert_eq!(
        WebScraper::render(Ok(content), 1, 4),
        Ok("\"éllo...<6 characters remaining>\"".to_string())
    );
    let content = data(vec![item("a\u{1}b\\c\u{7f}", None)]);
    assert_eq!(
        WebScraper::render(Ok(content), 0, 10),
        Ok("\"a\\u0001b\\\\c\u{7f}...<0 characters remaining>\"".to_string())
    );
}
