use scraper::{ElementRef, Html, Selector};
use zhua::{attr, html, inner_html, text, ErrorKind};

fn first<'a>(doc: &'a Html, selector: &str) -> ElementRef<'a> {
    let selector = Selector::parse(selector).unwrap();
    doc.select(&selector).next().unwrap()
}

#[test]
fn text_joins_all_text_below_the_element() {
    let doc = Html::parse_fragment("<p id=\"p\">a<b>b</b>c</p>");
    assert_eq!(text(first(&doc, "#p")).unwrap(), "abc");
}

#[test]
fn text_of_an_element_without_text_is_empty() {
    let doc = Html::parse_fragment("<p id=\"p\"><br></p>");
    assert_eq!(text(first(&doc, "#p")).unwrap(), "");
}

#[test]
fn html_includes_the_element_itself() {
    let doc = Html::parse_fragment("<p id=\"p\">a<b>b</b></p>");
    assert_eq!(html(first(&doc, "#p")).unwrap(), "<p id=\"p\">a<b>b</b></p>");
}

#[test]
fn inner_html_holds_the_children_only() {
    let doc = Html::parse_fragment("<p id=\"p\">a<b>b</b></p>");
    assert_eq!(inner_html(first(&doc, "#p")).unwrap(), "a<b>b</b>");
}

#[test]
fn attr_reads_the_named_attribute() {
    let doc = Html::parse_fragment("<a id=\"p\" href=\"https://example.org\">x</a>");
    assert_eq!(attr(first(&doc, "#p"), "href").unwrap(), "https://example.org");
    assert_eq!(attr(first(&doc, "#p"), "id").unwrap(), "p");
}

#[test]
fn attr_names_the_attribute_that_is_absent() {
    let doc = Html::parse_fragment("<a id=\"p\">x</a>");
    match attr(first(&doc, "#p"), "href") {
        Err(ErrorKind::AttributeNotFound(name)) => assert_eq!(name, "href"),
        other => panic!("unexpected {:?}", other),
    }
}
