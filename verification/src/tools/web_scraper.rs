use vstd::prelude::*;
use vstd::utf8::{decode_utf8, decode_utf8_encode_utf8, encode_utf8, valid_utf8};
use reqwest::Url;
use scraper::{Html, Selector};
use serde_json::Value;
use crate::json::{
    error_text, is_plain_json_text, json_member_string, json_member_unsigned, json_quoted,
    json_string_literal, member_string, member_unsigned, string_literal_text,
};
use crate::text::{
    chars_of, contains_token, decimal, extend_decimal, extend_str, has_token, same_text,
    string_of,
};

verus! {

/// The most bytes of a page that are read.
pub const MAX_FILE_SIZE: u64 = 5 * 1024 * 1024;

/// Why a page could not be scraped.
#[derive(Clone, Copy, Debug, PartialEq, Eq, Structural)]
pub enum ScraperError {
    NetworkError,
    ParseError,
    TimeoutError,
    FileTooLargeError,
    InitializationError,
    ContextError,
    LaunchError,
    PageError,
    ScriptError,
    UnknownError,
}

impl ScraperError {
    /// The message of the error.
    pub open spec fn message_text(self) -> Seq<char> {
        match self {
            ScraperError::NetworkError => "Network error occurred."@,
            ScraperError::ParseError => "Error occurred while parsing data."@,
            ScraperError::TimeoutError => "Request timed out."@,
            ScraperError::FileTooLargeError => "File size is too large."@,
            ScraperError::InitializationError => "Failed to initialize Playwright."@,
            ScraperError::ContextError => "Failed to create Playwright context."@,
            ScraperError::LaunchError => "Failed to launch Playwright browser."@,
            ScraperError::PageError => "Failed to create Playwright page."@,
            ScraperError::ScriptError => "Failed to add Playwright script."@,
            ScraperError::UnknownError => "An unknown error occurred."@,
        }
    }

    /// The message of the error.
    pub fn message(&self) -> (r: &'static str)
        ensures
            r@ == self.message_text(),
    {
        match self {
            ScraperError::NetworkError => "Network error occurred.",
            ScraperError::ParseError => "Error occurred while parsing data.",
            ScraperError::TimeoutError => "Request timed out.",
            ScraperError::FileTooLargeError => "File size is too large.",
            ScraperError::InitializationError => "Failed to initialize Playwright.",
            ScraperError::ContextError => "Failed to create Playwright context.",
            ScraperError::LaunchError => "Failed to launch Playwright browser.",
            ScraperError::PageError => "Failed to create Playwright page.",
            ScraperError::ScriptError => "Failed to add Playwright script.",
            ScraperError::UnknownError => "An unknown error occurred.",
        }
    }
}

/// One element of a page: its text and the link it carries.
#[derive(Debug, PartialEq, Eq)]
pub struct ScrapedItem {
    pub text: String,
    pub link: Option<String>,
}

/// A scraped item as a mathematical value.
pub struct ScrapedItemView {
    pub text: Seq<char>,
    pub link: Option<Seq<char>>,
}

impl View for ScrapedItem {
    type V = ScrapedItemView;

    open spec fn view(&self) -> ScrapedItemView {
        ScrapedItemView { text: self.text@, link: self.link.deep_view() }
    }
}

impl DeepView for ScrapedItem {
    type V = ScrapedItemView;

    open spec fn deep_view(&self) -> ScrapedItemView {
        self@
    }
}

/// What was scraped from a page, in the order of the page.
#[derive(Debug, PartialEq, Eq)]
pub struct ScrapedData {
    pub items: Vec<ScrapedItem>,
}

impl View for ScrapedData {
    type V = Seq<ScrapedItemView>;

    open spec fn view(&self) -> Seq<ScrapedItemView> {
        self.items.deep_view()
    }
}

/// How one item reads in the compressed text: its text, then its link in
/// round brackets where it has one.
pub open spec fn item_text(item: ScrapedItemView) -> Seq<char> {
    item.text + match item.link {
        Some(link) => "("@ + link + ")"@,
        None => Seq::<char>::empty(),
    }
}

/// All items as one text, in order.
pub open spec fn combined_text(items: Seq<ScrapedItemView>) -> Seq<char>
    decreases items.len(),
{
    if items.len() == 0 {
        Seq::<char>::empty()
    } else {
        combined_text(items.drop_last()) + item_text(items.last())
    }
}

/// Where a window of `len` characters that starts at `seek_pos` ends in a
/// text of `total` characters.
pub open spec fn window_end(total: nat, seek_pos: nat, len: nat) -> nat {
    if seek_pos + len <= total {
        seek_pos + len
    } else {
        total
    }
}

/// The window of `len` characters of the combined text that starts at
/// `seek_pos`, followed by the count of the characters that come after it.
/// A window that starts at or past the end is empty and leaves nothing.
pub open spec fn compressed(items: Seq<ScrapedItemView>, seek_pos: nat, len: nat) -> Seq<char> {
    let all = combined_text(items);
    if seek_pos >= all.len() {
        "...<0 characters remaining>"@
    } else {
        let end = window_end(all.len(), seek_pos, len);
        all.subrange(seek_pos as int, end as int) + "...<"@ + decimal((all.len() - end) as nat)
            + " characters remaining>"@
    }
}

/// The content types, other than HTML, whose body is handed on as one item.
pub open spec fn whitelist() -> Seq<Seq<char>> {
    seq![
        "application/json"@,
        "text/markdown"@,
        "text/plain"@,
        "text/csv"@,
        "application/javascript"@,
        "text/css"@,
        "text/x-rust"@,
        "text/x-python"@,
        "text/x-java-source"@,
        "text/x-c"@,
        "text/x-c++src"@,
        "text/x-go"@,
        "application/xml"@,
        "text/xml"@,
        "application/xhtml+xml"@,
        "application/x-httpd-php"@,
        "text/x-php"@,
        "text/javascript"@,
        "application/ecmascript"@,
        "text/x-shellscript"@,
        "application/x-sh"@,
        "text/x-ruby"@,
        "application/x-ruby"@,
        "text/x-perl"@,
        "application/x-perl"@,
        "text/x-sql"@,
        "application/sql"@,
        "text/x-scala"@,
        "text/x-erlang"@,
        "text/x-haskell"@,
        "text/x-cobol"@,
        "text/x-fortran"@,
        "application/x-latex"@,
        "text/x-latex"@,
        "application/x-sqlite3"@,
        "application/atom+xml"@,
        "application/rss+xml"@,
        "application/vnd.api+json"@,
        "application/x-yaml"@,
        "application/ld+json"@,
        "text/vnd.graphviz"@,
        "text/x-csh"@,
        "application/typescript"@,
        "text/x-d"@,
        "text/x-swift"@,
        "text/x-kotlin"@,
        "text/x-objective-c"@,
        "text/x-pascal"@,
        "text/x-vb"@,
        "text/x-r"@,
        "text/x-dart"@,
        "application/x-prolog"@,
        "text/x-prolog"@,
        "text/x-asciidoc"@,
        "text/x-org"@,
        "application/json5"@,
        "text/x-sqlite"@,
        "application/x-tex"@,
        "text/x-tex"@,
        "application/x-bibtex"@,
        "text/x-bibtex"@,
        "text/rtf"@,
        "application/edn"@,
        "text/x-clojure"@,
        "application/x-clojure"@,
        "text/x-lisp"@,
        "application/x-lisp"@,
        "text/x-config"@,
        "text/x-env"@,
        "text/x-applescript"@,
        "text/x-scm"@,
        "text/x-rst"@,
        "application/x-powershell"@,
        "text/x-powershell"@,
        "text/x-vhdl"@,
        "text/x-verilog"@,
        "text/x-vue"@,
        "text/x-svelte"@,
        "text/x-coffeescript"@,
        "text/x-lua"@,
        "application/x-lua"@,
        "text/x-rpm-spec"@,
        "text/x-dockerfile"@,
        "text/x-ini"@,
        "text/x-properties"@,
        "text/x-toml"@,
        "application/x-toml"@,
        "text/x-xslt"@,
        "application/xml-dtd"@,
        "text/x-json"@,
        "application/x-json"@,
        "text/x-cmake"@,
        "text/x-diff"@,
        "text/x-log"@,
        "text/x-nsis"@,
        "text/x-asm"@,
        "text/x-lilypond"@,
        "text/x-llvm"@,
        "text/x-cl"@,
        "text/x-tcl"@,
        "application/x-tcl"@,
        "text/x-puppet"@,
        "application/x-puppet"@,
        "text/x-nim"@,
        "text/x-zig"@,
        "text/x-crystal"@,
        "text/x-fsharp"@,
        "text/x-vbscript"@,
        "text/x-msdos-batch"@,
        "text/x-awk"@,
    ]
}

/// The content type names one of the whitelisted types.
pub open spec fn is_whitelisted(content_type: Seq<char>) -> bool {
    exists|i: int| 0 <= i < whitelist().len() && contains_token(content_type, #[trigger] whitelist()[i])
}

fn whitelist_entries() -> (r: Vec<&'static str>)
    ensures
        r@.len() == whitelist().len(),
        forall|i: int| 0 <= i < r@.len() ==> (#[trigger] r@[i])@ == whitelist()[i],
{
    vec![
        "application/json",
        "text/markdown",
        "text/plain",
        "text/csv",
        "application/javascript",
        "text/css",
        "text/x-rust",
        "text/x-python",
        "text/x-java-source",
        "text/x-c",
        "text/x-c++src",
        "text/x-go",
        "application/xml",
        "text/xml",
        "application/xhtml+xml",
        "application/x-httpd-php",
        "text/x-php",
        "text/javascript",
        "application/ecmascript",
        "text/x-shellscript",
        "application/x-sh",
        "text/x-ruby",
        "application/x-ruby",
        "text/x-perl",
        "application/x-perl",
        "text/x-sql",
        "application/sql",
        "text/x-scala",
        "text/x-erlang",
        "text/x-haskell",
        "text/x-cobol",
        "text/x-fortran",
        "application/x-latex",
        "text/x-latex",
        "application/x-sqlite3",
        "application/atom+xml",
        "application/rss+xml",
        "application/vnd.api+json",
        "application/x-yaml",
        "application/ld+json",
        "text/vnd.graphviz",
        "text/x-csh",
        "application/typescript",
        "text/x-d",
        "text/x-swift",
        "text/x-kotlin",
        "text/x-objective-c",
        "text/x-pascal",
        "text/x-vb",
        "text/x-r",
        "text/x-dart",
        "application/x-prolog",
        "text/x-prolog",
        "text/x-asciidoc",
        "text/x-org",
        "application/json5",
        "text/x-sqlite",
        "application/x-tex",
        "text/x-tex",
        "application/x-bibtex",
        "text/x-bibtex",
        "text/rtf",
        "application/edn",
        "text/x-clojure",
        "application/x-clojure",
        "text/x-lisp",
        "application/x-lisp",
        "text/x-config",
        "text/x-env",
        "text/x-applescript",
        "text/x-scm",
        "text/x-rst",
        "application/x-powershell",
        "text/x-powershell",
        "text/x-vhdl",
        "text/x-verilog",
        "text/x-vue",
        "text/x-svelte",
        "text/x-coffeescript",
        "text/x-lua",
        "application/x-lua",
        "text/x-rpm-spec",
        "text/x-dockerfile",
        "text/x-ini",
        "text/x-properties",
        "text/x-toml",
        "application/x-toml",
        "text/x-xslt",
        "application/xml-dtd",
        "text/x-json",
        "application/x-json",
        "text/x-cmake",
        "text/x-diff",
        "text/x-log",
        "text/x-nsis",
        "text/x-asm",
        "text/x-lilypond",
        "text/x-llvm",
        "text/x-cl",
        "text/x-tcl",
        "application/x-tcl",
        "text/x-puppet",
        "application/x-puppet",
        "text/x-nim",
        "text/x-zig",
        "text/x-crystal",
        "text/x-fsharp",
        "text/x-vbscript",
        "text/x-msdos-batch",
        "text/x-awk",
    ]
}

/// One selected element as it is read from a page: its text nodes in
/// order, and the values of two of its attributes.
#[derive(Debug, PartialEq, Eq)]
pub struct RawElement {
    pub text_nodes: Vec<String>,
    pub primary: Option<String>,
    pub fallback: Option<String>,
}

/// A raw element as a mathematical value.
pub struct RawElementView {
    pub text_nodes: Seq<Seq<char>>,
    pub primary: Option<Seq<char>>,
    pub fallback: Option<Seq<char>>,
}

impl View for RawElement {
    type V = RawElementView;

    open spec fn view(&self) -> RawElementView {
        RawElementView {
            text_nodes: self.text_nodes.deep_view(),
            primary: self.primary.deep_view(),
            fallback: self.fallback.deep_view(),
        }
    }
}

impl DeepView for RawElement {
    type V = RawElementView;

    open spec fn deep_view(&self) -> RawElementView {
        self@
    }
}

/// The elements of the HTML document `body` that the CSS selector
/// `selector` matches, in the order in which `scraper` yields them, each with
/// its text nodes and with the values of the attributes `primary` and
/// `fallback`; nothing where `selector` is no CSS selector.
pub uninterp spec fn html_selection(
    body: Seq<char>,
    selector: Seq<char>,
    primary: Seq<char>,
    fallback: Seq<char>,
) -> Option<Seq<RawElementView>>;

/// Parses `selector` with `scraper::Selector::parse` and `body` with
/// `scraper::Html::parse_document`, and walks `Html::select`. Of each element
/// it hands on the text nodes (`ElementRef::text`) and two attribute values
/// (`Element::attr`). The outcome depends on the four arguments alone. The
/// parser takes no text of more than `u32::MAX` bytes; the bound asked here
/// is the size limit of a page, which lies far below.
#[verifier::external_body]
fn select_elements(body: &str, selector: &str, primary: &str, fallback: &str) -> (r: Option<
    Vec<RawElement>,
>)
    requires
        encode_utf8(body@).len() <= MAX_FILE_SIZE,
    ensures
        r.deep_view() == html_selection(body@, selector@, primary@, fallback@),
{
    let selector = match Selector::parse(selector) {
        Ok(parsed) => parsed,
        Err(_) => return None,
    };
    let document = Html::parse_document(body);
    Some(document.select(&selector).map(|element| RawElement {
        text_nodes: element.text().map(|node| node.to_owned()).collect(),
        primary: element.value().attr(primary).map(|value| value.to_owned()),
        fallback: element.value().attr(fallback).map(|value| value.to_owned()),
    }).collect())
}

/// Whether `url` is an absolute URL: whether `Url::parse` returns `Ok` for
/// it.
pub uninterp spec fn url_parses(url: Seq<char>) -> bool;

/// Parses `url` with `reqwest::Url::parse` and tells whether that
/// succeeded. The outcome depends on `url` alone.
#[verifier::external_body]
fn url_is_absolute(url: &str) -> (r: bool)
    ensures
        r == url_parses(url@),
{
    Url::parse(url).is_ok()
}

/// The status of a response is a client error or a server error.
pub open spec fn is_error_status(status: u16) -> bool {
    400 <= status < 600
}

/// Reads bytes as UTF-8 with std's `String::from_utf8`, which accepts
/// exactly the valid encodings and keeps the text they encode.
#[verifier::external_body]
fn decode_text(bytes: Vec<u8>) -> (r: Option<String>)
    ensures
        r is Some <==> valid_utf8(bytes@),
        r matches Some(text) ==> text@ == decode_utf8(bytes@),
{
    match String::from_utf8(bytes) {
        Ok(text) => Some(text),
        Err(_) => None,
    }
}

/// Whether `c` has the Unicode property White_Space: the controls from tab
/// to carriage return, the space, the next-line control, the no-break space,
/// the Ogham space mark, the spaces from en quad to hair space, the line and
/// paragraph separators, the narrow no-break space, the medium mathematical
/// space and the ideographic space.
pub open spec fn is_white_space(c: char) -> bool {
    ||| 0x0009 <= c as u32 <= 0x000D
    ||| c as u32 == 0x0020
    ||| c as u32 == 0x0085
    ||| c as u32 == 0x00A0
    ||| c as u32 == 0x1680
    ||| 0x2000 <= c as u32 <= 0x200A
    ||| c as u32 == 0x2028
    ||| c as u32 == 0x2029
    ||| c as u32 == 0x202F
    ||| c as u32 == 0x205F
    ||| c as u32 == 0x3000
}

/// std's `char::is_whitespace`, which tells whether a character has the
/// Unicode property White_Space.
#[verifier::external_body]
fn is_whitespace(c: char) -> (r: bool)
    ensures
        r == is_white_space(c),
{
    c.is_whitespace()
}

/// `s` without its white space.
pub open spec fn without_whitespace(s: Seq<char>) -> Seq<char>
    decreases s.len(),
{
    if s.len() == 0 {
        Seq::<char>::empty()
    } else if is_white_space(s.last()) {
        without_whitespace(s.drop_last())
    } else {
        without_whitespace(s.drop_last()).push(s.last())
    }
}

/// The text of an element: the characters of its text nodes, in order,
/// without any white space.
pub open spec fn visible_text(nodes: Seq<Seq<char>>) -> Seq<char>
    decreases nodes.len(),
{
    if nodes.len() == 0 {
        Seq::<char>::empty()
    } else {
        visible_text(nodes.drop_last()) + without_whitespace(nodes.last())
    }
}

/// The item made of an element: its visible text, and as its link the
/// primary attribute, or the fallback where the primary is missing.
pub open spec fn item_of(element: RawElementView) -> ScrapedItemView {
    ScrapedItemView {
        text: visible_text(element.text_nodes),
        link: match element.primary {
            Some(link) => Some(link),
            None => element.fallback,
        },
    }
}

/// An item is worth keeping: it has text or a link.
pub open spec fn is_substantial(item: ScrapedItemView) -> bool {
    item.text.len() > 0 || item.link is Some
}

/// The items of the elements, in order, without those that have neither
/// text nor link.
pub open spec fn scraped_items(elements: Seq<RawElementView>) -> Seq<ScrapedItemView>
    decreases elements.len(),
{
    if elements.len() == 0 {
        Seq::<ScrapedItemView>::empty()
    } else if is_substantial(item_of(elements.last())) {
        scraped_items(elements.drop_last()).push(item_of(elements.last()))
    } else {
        scraped_items(elements.drop_last())
    }
}

/// What is made of a response body that was read in full: refused where it
/// is over the size limit or no UTF-8; handed on as one item where the
/// content type is whitelisted and not HTML; refused for any other content
/// type that is not HTML; else the items that the selector picks.
pub open spec fn body_outcome(content_type: Seq<char>, body: Seq<u8>, selector: Seq<char>) -> Result<
    Seq<ScrapedItemView>,
    ScraperError,
> {
    if body.len() > MAX_FILE_SIZE {
        Err(ScraperError::FileTooLargeError)
    } else if !valid_utf8(body) {
        Err(ScraperError::ParseError)
    } else if !contains_token(content_type, "text/html"@) {
        if is_whitelisted(content_type) {
            Ok(seq![ScrapedItemView { text: decode_utf8(body), link: None }])
        } else {
            Err(ScraperError::ParseError)
        }
    } else {
        match html_selection(decode_utf8(body), selector, "href"@, "src"@) {
            Some(elements) => Ok(scraped_items(elements)),
            None => Err(ScraperError::ParseError),
        }
    }
}

fn matches_whitelist(content_type: &Vec<char>) -> (r: bool)
    ensures
        r == is_whitelisted(content_type@),
{
    let entries = whitelist_entries();
    let mut i: usize = 0;
    while i < entries.len()
        invariant
            i <= entries.len(),
            entries@.len() == whitelist().len(),
            forall|j: int| 0 <= j < entries@.len() ==> (#[trigger] entries@[j])@ == whitelist()[j],
            forall|j: int| 0 <= j < i ==> !contains_token(content_type@, #[trigger] whitelist()[j]),
        decreases entries.len() - i,
    {
        let entry = chars_of(entries[i]);
        if has_token(content_type, &entry) {
            assert(contains_token(content_type@, whitelist()[i as int]));
            return true;
        }
        i += 1;
    }
    false
}

fn push_visible(out: &mut Vec<char>, node: &str)
    ensures
        final(out)@ == old(out)@ + without_whitespace(node@),
{
    let chars = chars_of(node);
    let mut i: usize = 0;
    assert(out@ =~= old(out)@ + without_whitespace(chars@.take(0)));
    while i < chars.len()
        invariant
            i <= chars.len(),
            out@ == old(out)@ + without_whitespace(chars@.take(i as int)),
        decreases chars.len() - i,
    {
        proof {
            assert(chars@.take(i + 1).drop_last() =~= chars@.take(i as int));
        }
        if !is_whitespace(chars[i]) {
            out.push(chars[i]);
        }
        i += 1;
        assert(out@ =~= old(out)@ + without_whitespace(chars@.take(i as int)));
    }
    assert(chars@.take(chars.len() as int) =~= chars@);
}

fn copy_text(text: &Option<String>) -> (r: Option<String>)
    ensures
        r.deep_view() == text.deep_view(),
{
    match text {
        Some(given) => Some(given.clone()),
        None => None,
    }
}

/// The item made of one selected element.
pub fn item_from(element: &RawElement) -> (r: ScrapedItem)
    ensures
        r@ == item_of(element@),
{
    let mut text: Vec<char> = Vec::new();
    let mut i: usize = 0;
    assert(text@ =~= visible_text(element@.text_nodes.take(0)));
    while i < element.text_nodes.len()
        invariant
            i <= element.text_nodes.len(),
            text@ == visible_text(element@.text_nodes.take(i as int)),
        decreases element.text_nodes.len() - i,
    {
        proof {
            assert(element@.text_nodes.take(i + 1).drop_last() =~= element@.text_nodes.take(
                i as int,
            ));
        }
        push_visible(&mut text, element.text_nodes[i].as_str());
        i += 1;
    }
    assert(element@.text_nodes.take(element.text_nodes.len() as int) =~= element@.text_nodes);
    let link = match &element.primary {
        Some(link) => Some(link.clone()),
        None => copy_text(&element.fallback),
    };
    ScrapedItem { text: string_of(&text), link }
}

/// The items made of the selected elements, in order, without those that
/// have neither text nor link.
pub fn items_from(elements: &Vec<RawElement>) -> (r: Vec<ScrapedItem>)
    ensures
        r.deep_view() == scraped_items(elements.deep_view()),
{
    let mut out: Vec<ScrapedItem> = Vec::new();
    let mut i: usize = 0;
    assert(out.deep_view() =~= scraped_items(elements.deep_view().take(0)));
    while i < elements.len()
        invariant
            i <= elements.len(),
            out.deep_view() == scraped_items(elements.deep_view().take(i as int)),
        decreases elements.len() - i,
    {
        proof {
            assert(elements.deep_view().take(i + 1).drop_last() =~= elements.deep_view().take(
                i as int,
            ));
        }
        let ghost before = out.deep_view();
        let item = item_from(&elements[i]);
        if item.text.as_str().unicode_len() > 0 || item.link.is_some() {
            out.push(item);
            assert(out.deep_view() =~= before.push(item_of(elements@[i as int]@)));
        }
        i += 1;
    }
    assert(elements.deep_view().take(elements.len() as int) =~= elements.deep_view());
    out
}

/// What is asked of the scraper in one request.
#[derive(Debug, PartialEq, Eq)]
pub struct ScrapeRequest {
    pub url: String,
    pub selector: String,
    pub mode: String,
    pub seek_pos: usize,
    pub max_length: usize,
}

/// A request as a mathematical value.
pub struct ScrapeRequestView {
    pub url: Seq<char>,
    pub selector: Seq<char>,
    pub mode: Seq<char>,
    pub seek_pos: usize,
    pub max_length: usize,
}

impl View for ScrapeRequest {
    type V = ScrapeRequestView;

    open spec fn view(&self) -> ScrapeRequestView {
        ScrapeRequestView {
            url: self.url@,
            selector: self.selector@,
            mode: self.mode@,
            seek_pos: self.seek_pos,
            max_length: self.max_length,
        }
    }
}

/// The request made of the argument members, or the complaint about the
/// first that is missing. The mode alone may be left out; it is then `reqwest`.
pub open spec fn request_of(
    url: Option<Seq<char>>,
    selector: Option<Seq<char>>,
    mode: Option<Seq<char>>,
    seek_pos: Option<u64>,
    max_length: Option<u64>,
) -> Result<ScrapeRequestView, Seq<char>> {
    if url is None {
        Err("Missing 'url' parameter"@)
    } else if selector is None {
        Err("Missing 'selector' parameter"@)
    } else if seek_pos is None {
        Err("Missing 'seek_pos' parameter"@)
    } else if max_length is None {
        Err("Missing 'max_length' parameter"@)
    } else {
        Ok(
            ScrapeRequestView {
                url: url->0,
                selector: selector->0,
                mode: match mode {
                    Some(given) => given,
                    None => "reqwest"@,
                },
                seek_pos: seek_pos->0 as usize,
                max_length: max_length->0 as usize,
            },
        )
    }
}

/// How a page is fetched.
#[derive(Clone, Copy, Debug, PartialEq, Eq, Structural)]
pub enum ScrapePlan {
    /// Over plain HTTP; where that fails for any reason, with the browser.
    ReqwestThenPlaywright,
    /// With the browser only.
    PlaywrightOnly,
}

/// The plan for a mode, or the error for a mode that is not known.
pub open spec fn plan_for(mode: Seq<char>) -> Result<ScrapePlan, ScraperError> {
    if mode == "reqwest"@ {
        Ok(ScrapePlan::ReqwestThenPlaywright)
    } else if mode == "playwright"@ {
        Ok(ScrapePlan::PlaywrightOnly)
    } else {
        Err(ScraperError::UnknownError)
    }
}

/// The stages of a fetch with the browser, in order.
#[derive(Clone, Copy, Debug, PartialEq, Eq, Structural)]
pub enum BrowserStage {
    Initialize,
    Launch,
    Context,
    Page,
    Script,
    Goto,
    WaitForSelector,
    Evaluate,
    Decode,
}

/// The error that a failure at `stage` is reported as.
pub open spec fn stage_error(stage: BrowserStage) -> ScraperError {
    match stage {
        BrowserStage::Initialize => ScraperError::InitializationError,
        BrowserStage::Launch => ScraperError::LaunchError,
        BrowserStage::Context => ScraperError::ContextError,
        BrowserStage::Page => ScraperError::PageError,
        BrowserStage::Script => ScraperError::ScriptError,
        BrowserStage::Goto => ScraperError::NetworkError,
        BrowserStage::WaitForSelector => ScraperError::TimeoutError,
        BrowserStage::Evaluate => ScraperError::ParseError,
        BrowserStage::Decode => ScraperError::ParseError,
    }
}

/// The script that collects the elements matched by `selector` in a browser.
pub open spec fn extraction_script(selector: Seq<char>) -> Seq<char> {
    "Array.from(document.querySelectorAll('"@ + selector + "')).map(e => ({text: e.innerText || '',\n                href: e.getAttribute('href') || '',\n                src: e.getAttribute('src') || ''\n            }))"@
}

/// The reply for a scrape that failed.
pub open spec fn scrape_failure_text(error: ScraperError) -> Seq<char> {
    "Scrape error: "@ + error.message_text()
}

/// Fetches pages and picks elements out of them by a CSS selector.
#[derive(Debug, PartialEq, Eq)]
pub struct WebScraper {
    /// What the HTTP client calls itself.
    pub user_agent: String,
    /// After how many seconds the HTTP client gives up.
    pub timeout_secs: u64,
}

impl Clone for WebScraper {
    fn clone(&self) -> (r: Self)
        ensures
            r.user_agent@ == self.user_agent@,
            r.timeout_secs == self.timeout_secs,
    {
        WebScraper { user_agent: self.user_agent.clone(), timeout_secs: self.timeout_secs }
    }
}

impl WebScraper {
    /// A scraper with the usual client settings.
    pub fn new() -> (r: Self)
        ensures
            r.user_agent@ == "Mozilla/5.0 (compatible; WebScraper/1.0)"@,
            r.timeout_secs == 10,
    {
        WebScraper {
            user_agent: "Mozilla/5.0 (compatible; WebScraper/1.0)".to_owned(),
            timeout_secs: 10,
        }
    }

    /// What the browser calls itself.
    pub fn browser_user_agent() -> (r: &'static str)
        ensures
            r@ == "Mozilla/5.0 (Windows NT 10.0; Win64; x64) AppleWebKit/537.36 (KHTML, like Gecko, OBSERVER SCRAPER) Chrome/120.0.0.0 Safari/537.36"@,
    {
        "Mozilla/5.0 (Windows NT 10.0; Win64; x64) AppleWebKit/537.36 (KHTML, like Gecko, OBSERVER SCRAPER) Chrome/120.0.0.0 Safari/537.36"
    }

    /// The name under which the tool is registered.
    pub fn def_name(&self) -> (r: &'static str)
        ensures
            r@ == "web_scraper"@,
    {
        "web_scraper"
    }

    /// What the tool tells the engine about itself.
    pub fn def_description(&self) -> (r: &'static str)
        ensures
            r@ == "Extracts webpage content using a CSS selector (avoid '*', use specific tags like 'p, h1, h2, h3, a').  \n        Supports 'reqwest' (fast) and 'playwright' (beta, may be unstable) for JavaScript-heavy pages.  \n        Use 'seek_pos' and 'max_length' to paginate (e.g., 0-2000, 2000-4000) for full extraction.  \n        **If no content is retrieved, consider:**\n        - The site may require JavaScript rendering ('playwright' mode).\n        - The selector may be incorrect.\n        - The site may block scraping.  \n        **Always include the scraped URL at the end of your response.**"@,
    {
        "Extracts webpage content using a CSS selector (avoid '*', use specific tags like 'p, h1, h2, h3, a').  \n        Supports 'reqwest' (fast) and 'playwright' (beta, may be unstable) for JavaScript-heavy pages.  \n        Use 'seek_pos' and 'max_length' to paginate (e.g., 0-2000, 2000-4000) for full extraction.  \n        **If no content is retrieved, consider:**\n        - The site may require JavaScript rendering ('playwright' mode).\n        - The selector may be incorrect.\n        - The site may block scraping.  \n        **Always include the scraped URL at the end of your response.**"
    }

    /// The schema of the tool's arguments, in JSON notation.
    pub fn def_parameters(&self) -> (r: &'static str)
        ensures
            r@ == "{\"type\":\"object\",\"properties\":{\"url\":{\"type\":\"string\",\"description\":\"Target webpage URL (e.g., 'https://example.com').\"},\"selector\":{\"type\":\"string\",\"description\":\"CSS selector to extract elements(ex., 'p, h1, h2, h3, a, img, video, audio, image...') \"},\"mode\":{\"type\":\"string\",\"enum\":[\"reqwest\",\"playwright\"],\"description\":\"Scraping method: 'reqwest' (fast) or 'playwright' (e.g., 'reqwest').\"},\"seek_pos\":{\"type\":\"integer\",\"description\":\"Character position to start extracting content (e.g., 0).\"},\"max_length\":{\"type\":\"integer\",\"description\":\"Maximum length of extracted content (e.g., 1000).\"}},\"required\":[\"url\",\"selector\",\"seek_pos\",\"max_length\"]}"@,
    {
        "{\"type\":\"object\",\"properties\":{\"url\":{\"type\":\"string\",\"description\":\"Target webpage URL (e.g., 'https://example.com').\"},\"selector\":{\"type\":\"string\",\"description\":\"CSS selector to extract elements(ex., 'p, h1, h2, h3, a, img, video, audio, image...') \"},\"mode\":{\"type\":\"string\",\"enum\":[\"reqwest\",\"playwright\"],\"description\":\"Scraping method: 'reqwest' (fast) or 'playwright' (e.g., 'reqwest').\"},\"seek_pos\":{\"type\":\"integer\",\"description\":\"Character position to start extracting content (e.g., 0).\"},\"max_length\":{\"type\":\"integer\",\"description\":\"Maximum length of extracted content (e.g., 1000).\"}},\"required\":[\"url\",\"selector\",\"seek_pos\",\"max_length\"]}"
    }

    /// Judges the address of a page before anything is requested: one that
    /// is no absolute URL is refused.
    pub fn check_url(url: &str) -> (r: Result<(), ScraperError>)
        ensures
            r == (if url_parses(url@) {
                Ok::<(), ScraperError>(())
            } else {
                Err::<(), ScraperError>(ScraperError::ParseError)
            }),
    {
        if url_is_absolute(url) {
            Ok(())
        } else {
            Err(ScraperError::ParseError)
        }
    }

    /// Judges the status of a response: a client error or a server error
    /// is refused.
    pub fn check_status(status: u16) -> (r: Result<(), ScraperError>)
        ensures
            r == (if is_error_status(status) {
                Err::<(), ScraperError>(ScraperError::NetworkError)
            } else {
                Ok::<(), ScraperError>(())
            }),
    {
        if 400 <= status && status < 600 {
            Err(ScraperError::NetworkError)
        } else {
            Ok(())
        }
    }

    /// Judges the length that a response declares, before its body is read:
    /// a body declared over the size limit is refused.
    pub fn check_declared_length(declared: Option<u64>) -> (r: Result<(), ScraperError>)
        ensures
            r == (if declared matches Some(length) && length > MAX_FILE_SIZE {
                Err::<(), ScraperError>(ScraperError::FileTooLargeError)
            } else {
                Ok::<(), ScraperError>(())
            }),
    {
        match declared {
            Some(length) => {
                if length > MAX_FILE_SIZE {
                    Err(ScraperError::FileTooLargeError)
                } else {
                    Ok(())
                }
            },
            None => Ok(()),
        }
    }

    /// Makes the scraped data of a response whose body was read in full.
    pub fn read_body(content_type: &str, body: Vec<u8>, selector_str: &str) -> (r: Result<
        ScrapedData,
        ScraperError,
    >)
        ensures
            match r {
                Ok(data) => body_outcome(content_type@, body@, selector_str@) == Ok::<
                    Seq<ScrapedItemView>,
                    ScraperError,
                >(data@),
                Err(error) => body_outcome(content_type@, body@, selector_str@) == Err::<
                    Seq<ScrapedItemView>,
                    ScraperError,
                >(error),
            },
    {
        if body.len() as u64 > MAX_FILE_SIZE {
            return Err(ScraperError::FileTooLargeError);
        }
        let text = match decode_text(body) {
            Some(text) => text,
            None => {
                return Err(ScraperError::ParseError);
            },
        };
        let kind = chars_of(content_type);
        let html = chars_of("text/html");
        if !has_token(&kind, &html) {
            if matches_whitelist(&kind) {
                let mut items: Vec<ScrapedItem> = Vec::new();
                items.push(ScrapedItem { text, link: None });
                assert(items.deep_view() =~= seq![
                    ScrapedItemView { text: decode_utf8(body@), link: None },
                ]);
                return Ok(ScrapedData { items });
            }
            return Err(ScraperError::ParseError);
        }
        proof {
            decode_utf8_encode_utf8(body@);
        }
        match select_elements(text.as_str(), selector_str, "href", "src") {
            Some(elements) => Ok(ScrapedData { items: items_from(&elements) }),
            None => Err(ScraperError::ParseError),
        }
    }

    /// The error that a failure at `stage` of a fetch with the browser is
    /// reported as.
    pub fn stage_failure(stage: BrowserStage) -> (r: ScraperError)
        ensures
            r == stage_error(stage),
    {
        match stage {
            BrowserStage::Initialize => ScraperError::InitializationError,
            BrowserStage::Launch => ScraperError::LaunchError,
            BrowserStage::Context => ScraperError::ContextError,
            BrowserStage::Page => ScraperError::PageError,
            BrowserStage::Script => ScraperError::ScriptError,
            BrowserStage::Goto => ScraperError::NetworkError,
            BrowserStage::WaitForSelector => ScraperError::TimeoutError,
            BrowserStage::Evaluate => ScraperError::ParseError,
            BrowserStage::Decode => ScraperError::ParseError,
        }
    }

    /// The script that a browser runs to collect the elements matched by
    /// `selector_str`.
    pub fn browser_script(selector_str: &str) -> (r: String)
        ensures
            r@ == extraction_script(selector_str@),
    {
        let mut out: Vec<char> = Vec::new();
        extend_str(&mut out, "Array.from(document.querySelectorAll('");
        extend_str(&mut out, selector_str);
        extend_str(&mut out, "')).map(e => ({text: e.innerText || '',\n                href: e.getAttribute('href') || '',\n                src: e.getAttribute('src') || ''\n            }))");
        string_of(&out)
    }

    /// The window of `len` characters of the scraped text that starts at
    /// `seek_pos`, with the count of the characters after it.
    pub fn compress_content(content: ScrapedData, seek_pos: usize, len: usize) -> (r: String)
        ensures
            r@ == compressed(content@, seek_pos as nat, len as nat),
    {
        let mut combined: Vec<char> = Vec::new();
        let mut i: usize = 0;
        assert(combined@ =~= combined_text(content@.take(0)));
        while i < content.items.len()
            invariant
                i <= content.items.len(),
                combined@ == combined_text(content@.take(i as int)),
            decreases content.items.len() - i,
        {
            proof {
                assert(content@.take(i + 1).drop_last() =~= content@.take(i as int));
            }
            let ghost before = combined@;
            extend_str(&mut combined, content.items[i].text.as_str());
            match &content.items[i].link {
                Some(link) => {
                    extend_str(&mut combined, "(");
                    extend_str(&mut combined, link.as_str());
                    extend_str(&mut combined, ")");
                },
                None => {},
            }
            assert(combined@ =~= before + item_text(content@[i as int]));
            i += 1;
        }
        assert(content@.take(content.items.len() as int) =~= content@);
        let total = combined.len();
        if seek_pos >= total {
            return "...<0 characters remaining>".to_owned();
        }
        let end: usize = if len <= total - seek_pos {
            seek_pos + len
        } else {
            total
        };
        let mut out: Vec<char> = Vec::new();
        let mut k: usize = seek_pos;
        while k < end
            invariant
                seek_pos <= k <= end <= combined.len(),
                out@ == combined@.subrange(seek_pos as int, k as int),
            decreases end - k,
        {
            out.push(combined[k]);
            k += 1;
            assert(out@ =~= combined@.subrange(seek_pos as int, k as int));
        }
        extend_str(&mut out, "...<");
        extend_decimal(&mut out, (total - end) as u64);
        extend_str(&mut out, " characters remaining>");
        string_of(&out)
    }

    /// The plan for fetching under `mode`.
    pub fn plan(mode: &str) -> (r: Result<ScrapePlan, ScraperError>)
        ensures
            r == plan_for(mode@),
    {
        if same_text(mode, "reqwest") {
            Ok(ScrapePlan::ReqwestThenPlaywright)
        } else if same_text(mode, "playwright") {
            Ok(ScrapePlan::PlaywrightOnly)
        } else {
            Err(ScraperError::UnknownError)
        }
    }

    /// Makes a request of the argument members as they were found.
    pub fn request_from(
        url: Option<String>,
        selector: Option<String>,
        mode: Option<String>,
        seek_pos: Option<u64>,
        max_length: Option<u64>,
    ) -> (r: Result<ScrapeRequest, String>)
        ensures
            match r {
                Ok(request) => request_of(
                    url.deep_view(),
                    selector.deep_view(),
                    mode.deep_view(),
                    seek_pos,
                    max_length,
                ) == Ok::<ScrapeRequestView, Seq<char>>(request@),
                Err(complaint) => request_of(
                    url.deep_view(),
                    selector.deep_view(),
                    mode.deep_view(),
                    seek_pos,
                    max_length,
                ) == Err::<ScrapeRequestView, Seq<char>>(complaint@),
            },
    {
        let url = match url {
            Some(given) => given,
            None => {
                return Err("Missing 'url' parameter".to_owned());
            },
        };
        let selector = match selector {
            Some(given) => given,
            None => {
                return Err("Missing 'selector' parameter".to_owned());
            },
        };
        let mode = match mode {
            Some(given) => given,
            None => "reqwest".to_owned(),
        };
        let seek_pos = match seek_pos {
            Some(given) => given as usize,
            None => {
                return Err("Missing 'seek_pos' parameter".to_owned());
            },
        };
        let max_length = match max_length {
            Some(given) => given as usize,
            None => {
                return Err("Missing 'max_length' parameter".to_owned());
            },
        };
        Ok(ScrapeRequest { url, selector, mode, seek_pos, max_length })
    }

    /// Reads a request from the arguments of a tool call.
    pub fn read_arguments(args: &Value) -> (r: Result<ScrapeRequest, String>)
        ensures
            match r {
                Ok(request) => request_of(
                    json_member_string(*args, "url"@),
                    json_member_string(*args, "selector"@),
                    json_member_string(*args, "mode"@),
                    json_member_unsigned(*args, "seek_pos"@),
                    json_member_unsigned(*args, "max_length"@),
                ) == Ok::<ScrapeRequestView, Seq<char>>(request@),
                Err(complaint) => request_of(
                    json_member_string(*args, "url"@),
                    json_member_string(*args, "selector"@),
                    json_member_string(*args, "mode"@),
                    json_member_unsigned(*args, "seek_pos"@),
                    json_member_unsigned(*args, "max_length"@),
                ) == Err::<ScrapeRequestView, Seq<char>>(complaint@),
            },
    {
        Self::request_from(
            member_string(args, "url"),
            member_string(args, "selector"),
            member_string(args, "mode"),
            member_unsigned(args, "seek_pos"),
            member_unsigned(args, "max_length"),
        )
    }

    /// The answer to a tool call, made of how the scrape ended: for a
    /// scrape that succeeded the window of the scraped text as a JSON string,
    /// for one that failed the complaint.
    pub fn render(result: Result<ScrapedData, ScraperError>, seek_pos: usize, max_length: usize) -> (r:
        Result<String, String>)
        ensures
            match result {
                Ok(data) => {
                    let window = compressed(data@, seek_pos as nat, max_length as nat);
                    &&& r matches Ok(answer)
                    &&& answer@ == json_string_literal(window)
                    &&& is_plain_json_text(window) ==> answer@ == json_quoted(window)
                },
                Err(error) => r matches Err(complaint) && complaint@ == scrape_failure_text(error),
            },
    {
        match result {
            Ok(data) => {
                let window = Self::compress_content(data, seek_pos, max_length);
                match string_literal_text(window.as_str()) {
                    Ok(answer) => Ok(answer),
                    Err(error) => {
                        let detail = error_text(&error);
                        let mut out: Vec<char> = Vec::new();
                        extend_str(&mut out, "Serialization error: ");
                        extend_str(&mut out, detail.as_str());
                        Err(string_of(&out))
                    },
                }
            },
            Err(error) => {
                let mut out: Vec<char> = Vec::new();
                extend_str(&mut out, "Scrape error: ");
                extend_str(&mut out, error.message());
                Err(string_of(&out))
            },
        }
    }
}

} // verus!
