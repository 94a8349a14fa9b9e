use musicbrainz::client::{check_response_error, decode, musicbrainz_context};
use musicbrainz::entities::area::{Area, AreaType};
use musicbrainz::entities::Mbid;
use musicbrainz::xml::{child, is_admissible, is_well_prefixed, nth, Document};
use musicbrainz::ErrorKind;

const XML_ERR: &'static str = r#"<?xml version="1.0" encoding="UTF-8"?>
<error>
  <text>Your requests are exceeding the allowable rate limit. Please see http://wiki.musicbrainz.org/XMLWebService for more information.</text>
  <text>For usage, please see: http://musicbrainz.org/development/mmd</text>
</error>"#;

const XML_OK: &'static str = r#"<?xml version="1.0" encoding="UTF-8"?><metadata xmlns="http://musicbrainz.org/ns/mmd-2.0#"><release-group type="Album" type-id="f529b476-6e62-324f-b0aa-1f3e33d313fc" id="23c74936-ad4f-45bb-8b6b-527d4aeaaad6"><title>A.I Complex</title><first-release-date>2014-07-26</first-release-date><primary-type id="f529b476-6e62-324f-b0aa-1f3e33d313fc">Album</primary-type></release-group></metadata>"#;

const XML_HONOLULU: &'static str = r#"<?xml version="1.0" encoding="UTF-8"?><metadata xmlns="http://musicbrainz.org/ns/mmd-2.0#"><area id="a1411661-be21-4290-8dc1-50f3d8e3ea67" type="City"><name>Honolulu</name><sort-name>Honolulu</sort-name></area></metadata>"#;

const XML_JAPAN: &'static str = r#"<?xml version="1.0" encoding="UTF-8"?><metadata xmlns="http://musicbrainz.org/ns/mmd-2.0#"><area id="2db42837-c832-3c27-b4a3-08198f75693c" type="Country"><name>Japan</name><sort-name>Japan</sort-name><iso-3166-1-code-list><iso-3166-1-code>JP</iso-3166-1-code></iso-3166-1-code-list></area></metadata>"#;

fn document(xml: &str) -> Document {
    Document::new(xml.to_string(), musicbrainz_context())
}

#[test]
fn error() {
    let doc = document(XML_ERR);
    let res = check_response_error(&doc);
    let err = res.err().unwrap();

    assert!(err.to_string().starts_with(
        "[server error]: Your requests are exceeding the allowable rate limit. Please see http://wiki.musicbrainz.org/XMLWebService for more information.\nFor usage, please see: http://musicbrainz.org/development/mmd"));
    assert_eq!(err.kind(), ErrorKind::ServerError);
}

#[test]
fn ok() {
    let doc = document(XML_OK);

    // should not raise error
    check_response_error(&doc).unwrap();
}

#[test]
fn texts_come_in_document_order() {
    let xml = r#"<?xml version="1.0"?><book><tags><tag name="cyberpunk"/><tag name="sci-fi"/></tags></book>"#;
    let doc = Document::new(xml.to_string(), Vec::new());
    let tags = doc.texts("//book/tags/tag/@name").unwrap();
    assert_eq!(tags, vec!["cyberpunk".to_string(), "sci-fi".to_string()]);
    assert_eq!(doc.texts("//book/none").unwrap(), Vec::<String>::new());
    assert_eq!(doc.count("//tag").unwrap(), 2);
}

#[test]
fn selections_compose() {
    let xml = r#"<?xml version="1.0"?><book><tags><tag name="cyberpunk"><w>a</w></tag><tag name="sci-fi"><w>b</w></tag></tags></book>"#;
    let doc = Document::new(xml.to_string(), Vec::new());
    assert_eq!(child("/", ".//tag"), "(/)[1]/.//tag");
    assert_eq!(nth("//tag", 1), "(//tag)[2]");
    let tags = child("/", ".//tag");
    let second = nth(tags.as_str(), 1);
    assert_eq!(doc.text(child(second.as_str(), ".//@name").as_str()).unwrap(), "sci-fi");
    assert_eq!(doc.text(child(second.as_str(), ".//w/text()").as_str()).unwrap(), "b");
    let first = nth(tags.as_str(), 0);
    assert_eq!(doc.text(child(first.as_str(), ".//w/text()").as_str()).unwrap(), "a");
    assert_eq!(doc.text(child(tags.as_str(), ".//w/text()").as_str()).unwrap(), "a");
    assert_eq!(doc.optional_text(child(first.as_str(), ".//@missing").as_str()).unwrap(), None);
    assert!(doc.text(child(first.as_str(), ".//@missing").as_str()).is_err());
}

#[test]
fn malformed_document_is_a_parse_failure() {
    let doc = Document::new("<a><b></a>".to_string(), Vec::new());
    let err = doc.texts("//a").err().unwrap();
    assert_eq!(err.kind(), ErrorKind::ParseResponse);
    assert!(err.message().starts_with("xpath_reader error: "));
    assert!(err.is_bug());
}

#[test]
fn area_read_xml1() {
    let mbid = Mbid::from_str("a1411661-be21-4290-8dc1-50f3d8e3ea67").unwrap();
    let area: Area = decode(XML_HONOLULU, ()).unwrap();

    assert_eq!(area.mbid(), &mbid);
    assert_eq!(area.name(), &"Honolulu".to_string());
    assert_eq!(area.sort_name(), &"Honolulu".to_string());
    assert_eq!(area.area_type(), AreaType::City);
    assert_eq!(area.iso_3166(), None);
}

#[test]
fn area_read_xml2() {
    let mbid = Mbid::from_str("2db42837-c832-3c27-b4a3-08198f75693c").unwrap();
    let area: Area = decode(XML_JAPAN, ()).unwrap();

    assert_eq!(area.mbid(), &mbid);
    assert_eq!(area.name(), &"Japan".to_string());
    assert_eq!(area.sort_name(), &"Japan".to_string());
    assert_eq!(area.area_type(), AreaType::Country);
    assert_eq!(area.iso_3166(), Some(&"JP".to_string()));
}

#[test]
fn error_payload_takes_precedence() {
    let body = r#"<?xml version="1.0" encoding="UTF-8"?><metadata><error><text>first line</text><text>second line</text></error></metadata>"#;
    let err = decode::<Area>(body, ()).err().unwrap();
    assert_eq!(err.kind(), ErrorKind::ServerError);
    assert_eq!(err.message(), "first line\nsecond line");
    assert!(!err.is_bug());
}

#[test]
fn unexpected_shape_is_a_parse_failure() {
    let err = decode::<Area>(XML_OK, ()).err().unwrap();
    assert_eq!(err.kind(), ErrorKind::ParseResponse);
}

#[test]
fn axis_names_are_refused() {
    let doc = document(XML_HONOLULU);
    for nodes in ["//namespace::*", "//child::mb:area", "/descendant::node()", "//mb:area/attribute::id"] {
        let err = doc.texts(nodes).err().unwrap();
        assert_eq!(err.kind(), ErrorKind::ParseResponse);
        assert_eq!(err.message(), "xpath_reader error: Only plain paths with bound prefixes are evaluated.");
    }
}

#[test]
fn prefixes_have_to_be_bound() {
    let doc = document(XML_HONOLULU);
    assert!(is_well_prefixed("//mb:area/mb:name", &musicbrainz_context()));
    assert_eq!(doc.texts("//mb:area/mb:name").unwrap(), vec!["Honolulu".to_string()]);
    assert_eq!(doc.texts("(//mb:area)[1]/@type").unwrap(), vec!["City".to_string()]);
    assert_eq!(doc.texts("//area/name").unwrap(), Vec::<String>::new());
    let refused = [
        "//ext:area",
        "//mb:area/m:name",
        "//xmb:area",
        "//3mb:area",
        "//a-mb:area",
        "(//mb:area)mb:name",
        "//mb:area[1]mb:name",
        "//mb:area/:name",
        ":",
        "//mb:area/mb :name",
        "//*[name()='mb:area']",
        "//mb:area | //b:x",
    ];
    for nodes in refused.iter() {
        assert!(!is_well_prefixed(nodes, &musicbrainz_context()), "{}", nodes);
        let err = doc.texts(nodes).err().unwrap();
        assert_eq!(err.message(), "xpath_reader error: Only plain paths with bound prefixes are evaluated.");
    }
    let unbound = Document::new(XML_HONOLULU.to_string(), Vec::new());
    assert!(unbound.texts("//mb:area/mb:name").is_err());
    assert_eq!(unbound.texts("//area").unwrap(), Vec::<String>::new());
    // expressions that the library refuses are failures, not panics
    for nodes in ["", "//", "//mb:area[", "//mb:area/unknown()", "1 div 0", "count(//mb:area)", "'text'"] {
        assert!(doc.texts(nodes).is_err(), "{}", nodes);
    }
}

#[test]
fn malformed_documents_are_failures() {
    let bad = [
        "",
        " ",
        "text",
        "</a>",
        "<a/></b>",
        "<a></b>",
        "<a><b></a></b>",
        "<a",
        "<a b>",
        "<a b=1/>",
        "<a b='1' b='2'/>",
        "<a>&unknown;</a>",
        "<a>&#xFFFFFFFFF;</a>",
        "<a>&#0;</a>",
        "<p:a/>",
        "<a xmlns:p=''/>",
        "<a p:b='1'/>",
        "<?xml version=\"1.0\"?>",
        "<?xml version=\"1.0\"?><a/><b/>",
        "<!-- only a comment -->",
        "<a><!-- -- --></a>",
        "<a><![CDATA[x]]</a>",
        "<!DOCTYPE a [<!ENTITY e 'x'>]><a>&e;</a>",
        "<a>\u{0}</a>",
        "<a/>trailing",
        "\u{feff}<a/>",
    ];
    for xml in bad.iter() {
        let doc = Document::new(xml.to_string(), musicbrainz_context());
        match doc.texts("//mb:area") {
            Ok(texts) => assert!(texts.is_empty(), "{:?}", xml),
            Err(e) => assert_eq!(e.kind(), ErrorKind::ParseResponse, "{:?}", xml),
        }
        let _ = check_response_error(&doc);
        let err = decode::<Area>(xml, ()).err().unwrap();
        assert_eq!(err.kind(), ErrorKind::ParseResponse, "{:?}", xml);
        assert!(err.is_bug());
    }
}

#[test]
fn deeply_nested_documents_are_read() {
    let depth = 2000;
    let xml = "<a>".repeat(depth) + "x" + "</a>".repeat(depth).as_str();
    let doc = Document::new(xml, Vec::new());
    assert_eq!(doc.count("//a").unwrap(), depth);
    assert_eq!(doc.text("/a").unwrap(), "x");
}

#[test]
fn only_plain_paths_are_evaluated() {
    let context = musicbrainz_context();
    let plain = [
        "/",
        ".",
        "//mb:area",
        ".//mb:area/mb:name/text()",
        "(/)[1]/.//mb:area/@id",
        "((/)[1]/.//mb:area)[1]/.//mb:iso-3166-1-code-list/mb:iso-3166-1-code/text()",
        "//mb:area[1]/..",
        "//mb:area[(mb:name)[1]]",
        "//sort_name",
    ];
    for nodes in plain.iter() {
        assert!(is_admissible(nodes, &context), "{}", nodes);
    }
    let refused = [
        "//*[starts-with(name(),'p')]",
        "//mb:area[name()]",
        "name(/)",
        "//mb:area[local-name()]",
        "//mb:area[sum(mb:name)]",
        "//mb:area[count(mb:name)]",
        "//mb:area/node()",
        "//mb:area/xtext()",
        "//mb:area/mb:text()",
        "text()",
        "//mb:area/text(",
        "//mb:area/text ()",
        "//mb:area[text ()]",
        "//mb:area/text(1)",
        "//mb:area | //mb:name",
        "//mb:area[@type='City']",
        "//mb:area[@type = $kind]",
        "//mb:area/*",
        "//mb:area or //mb:name",
        "//mb:area[1 + 1]",
        "//mb:area/mb:name(/)",
        "//namespace::*",
        "//m\u{e9}tadonn\u{e9}es",
    ];
    let doc = document(XML_HONOLULU);
    for nodes in refused.iter() {
        assert!(!is_admissible(nodes, &context), "{}", nodes);
        let err = doc.texts(nodes).err().unwrap();
        assert_eq!(err.kind(), ErrorKind::ParseResponse);
        assert_eq!(
            err.message(),
            "xpath_reader error: Only plain paths with bound prefixes are evaluated."
        );
    }
}

#[test]
fn prefixes_of_the_document_are_not_asked_for() {
    // several prefixes for one namespace: which of them a name would be
    // written with is not asked, as no function is called
    let xml = r#"<a xmlns="u" xmlns:p="u" xmlns:q="u"><b>x</b></a>"#;
    let bindings = vec![("n".to_string(), "u".to_string())];
    let doc = Document::new(xml.to_string(), bindings);
    assert!(doc.texts("//*[starts-with(name(),'p')]").is_err());
    for _ in 0..20 {
        assert_eq!(doc.texts("//n:a/n:b").unwrap(), vec!["x".to_string()]);
        assert_eq!(doc.texts("//n:b/text()").unwrap(), vec!["x".to_string()]);
    }
}
