use scraper::Html;
use zhua::{attr, text, Context, Error, ErrorKind, Extract, Extractable, FromSelect};

const PAGE: &str = r#"
    <p class="name">foo</p>
    <p class="doi" href="https://example.org">doi</p>
"#;

#[derive(Debug, PartialEq)]
struct Author {
    name: String,
    affiliation: Option<String>,
    doi: String,
}

impl Extract for Author {
    fn extract_from<'a, T>(able: T) -> Result<Self, Error>
    where
        T: Context<'a>,
    {
        let name = <String as FromSelect<_>>::from_selectable(able, ".name", text)
            .map_err(|err| err.with_field("name"))?;
        let affiliation =
            <Option<String> as FromSelect<_>>::from_selectable(able, ".affiliation", text)
                .map_err(|err| err.with_field("affiliation"))?;
        let doi = <String as FromSelect<_>>::from_selectable(able, ".doi", |el| attr(el, "href"))
            .map_err(|err| err.with_field("doi"))?;
        Ok(Self { name, affiliation, doi })
    }
}

#[derive(Debug)]
struct Strict {
    name: String,
    doi: String,
}

impl Extract for Strict {
    fn extract_from<'a, T>(able: T) -> Result<Self, Error>
    where
        T: Context<'a>,
    {
        let name = <String as FromSelect<_>>::from_selectable(able, ".name", text)
            .map_err(|err| err.with_field("name"))?;
        let doi = <String as FromSelect<_>>::from_selectable(able, ".missing", text)
            .map_err(|err| err.with_field("doi"))?;
        Ok(Self { name, doi })
    }
}

#[derive(Debug)]
struct Broken {
    name: String,
    doi: Option<String>,
}

impl Extract for Broken {
    fn extract_from<'a, T>(able: T) -> Result<Self, Error>
    where
        T: Context<'a>,
    {
        let name = <String as FromSelect<_>>::from_selectable(able, ".name", text)
            .map_err(|err| err.with_field("name"))?;
        let doi = <Option<String> as FromSelect<_>>::from_selectable(able, "p]", text)
            .map_err(|err| err.with_field("doi"))?;
        Ok(Self { name, doi })
    }
}

#[test]
fn extracts_every_field_of_a_matching_document() {
    let doc = Html::parse_fragment(PAGE);
    let author: Author = doc.extract().unwrap();
    assert_eq!(
        author,
        Author {
            name: "foo".to_string(),
            affiliation: None,
            doi: "https://example.org".to_string(),
        }
    );
}

#[test]
fn extract_from_and_extract_agree() {
    let doc = Html::parse_fragment(PAGE);
    let by_method: Author = doc.extract().unwrap();
    let by_type = Author::extract_from(&doc).unwrap();
    assert_eq!(by_method, by_type);
}

#[test]
fn extracts_from_an_element_as_well_as_a_document() {
    let doc = Html::parse_fragment(
        r#"<div id="a"><p class="name">in</p><p class="doi" href="x">d</p></div><p class="name">out</p>"#,
    );
    let selector = scraper::Selector::parse("#a").unwrap();
    let element = doc.select(&selector).next().unwrap();
    let author: Author = element.extract().unwrap();
    assert_eq!(author.name, "in");
    assert_eq!(author.doi, "x");
}

#[test]
fn required_field_without_a_match_is_element_not_found() {
    let doc = Html::parse_fragment(PAGE);
    let error = doc.extract::<Strict>().unwrap_err();
    assert_eq!(error.field(), "doi");
    assert!(matches!(error.kind(), ErrorKind::ElementNotFound));
    assert_eq!(error.message(), "no element match the selector in field `doi`");
}

#[test]
fn invalid_selector_fails_whatever_the_document_holds() {
    for page in [PAGE, "", "<p class=\"x\">y</p>"] {
        let doc = Html::parse_fragment(page);
        let error = match doc.extract::<Broken>() {
            Ok(found) => panic!("extracted {:?}", found),
            Err(error) => error,
        };
        if page == PAGE {
            assert_eq!(error.field(), "doi");
            assert!(matches!(error.kind(), ErrorKind::InvalidSelector(_)));
        } else {
            // the field before fails first
            assert_eq!(error.field(), "name");
            assert!(matches!(error.kind(), ErrorKind::ElementNotFound));
        }
    }
}

#[test]
fn invalid_selector_is_not_tolerated_by_an_optional_field() {
    let doc = Html::parse_fragment(PAGE);
    let error = doc.extract::<Broken>().unwrap_err();
    assert_eq!(error.field(), "doi");
    match error.kind() {
        ErrorKind::InvalidSelector(detail) => assert!(!detail.is_empty()),
        other => panic!("unexpected kind {:?}", other),
    }
    assert_eq!(error.message(), "invalid selector provided in field `doi`");
}

#[test]
fn first_failing_field_wins() {
    let doc = Html::parse_fragment("<p class=\"doi\">d</p>");
    let error = doc.extract::<Strict>().unwrap_err();
    assert_eq!(error.field(), "name");
}
