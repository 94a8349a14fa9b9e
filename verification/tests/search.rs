use musicbrainz::entities::{Mbid, ReleaseGroupPrimaryType, ReleaseStatus};
use musicbrainz::search::fields::{
    Alias, ArtistMbid, PrimaryType, ReleaseGroupName, ReleaseNumber, ReleaseGroupSearchField,
    SearchField, Tag,
};
use musicbrainz::search::query::{encode_separators, escape_full, escape_lucene, escape_query, Query};
use musicbrainz::search::query_builder::{
    phrase, term, BoostPhrase, CombinedPhrase, Connect, Expression, FieldQuery, OperatorKind,
    Phrase, ProximityPhrase, Term, Weight,
};
use musicbrainz::search::search_entities;
use musicbrainz::search::{
    build_search_url, ReleaseGroupSearchBuilder, SearchBuilder, SearchEntry,
};
use musicbrainz::ErrorKind;

#[test]
fn test_escape_full() {
    // lucene syntax elements
    assert_eq!(escape_full("+"), escape_query(r"\+"));
    assert_eq!(escape_full("-"), escape_query(r"\-"));
    assert_eq!(escape_full("&&"), "\\%26%26".to_string());
    assert_eq!(escape_full("||"), escape_query(r"\||"));
    assert_eq!(escape_full("!"), escape_query(r"\!"));
    assert_eq!(escape_full("("), escape_query(r"\("));
    assert_eq!(escape_full(")"), escape_query(r"\)"));
    assert_eq!(escape_full("{"), escape_query(r"\{"));
    assert_eq!(escape_full("}"), escape_query(r"\}"));
    assert_eq!(escape_full("["), escape_query(r"\["));
    assert_eq!(escape_full("]"), escape_query(r"\]"));
    assert_eq!(escape_full("^"), escape_query(r"\^"));
    assert_eq!(escape_full("\""), escape_query("\\\""));
    assert_eq!(escape_full("~"), escape_query(r"\~"));
    assert_eq!(escape_full("*"), escape_query(r"\*"));
    assert_eq!(escape_full("?"), escape_query(r"\?"));
    assert_eq!(escape_full(":"), escape_query(r"\:"));
    assert_eq!(escape_full(r"\"), escape_query(r"\\"));

    // & and = are not to be touched by escape query but we have to escape them at
    // this point
    // too because it would mess up the query component.
    assert_eq!(escape_full("&"), "%26".to_string());
    assert_eq!(escape_full("="), "%3D".to_string());

    // sanity check that the whitespace in the regex is actually ignored
    assert_eq!(escape_full(" "), escape_query(" "));
    assert_eq!(escape_full("  "), escape_query("  "));
}

#[test]
fn test_escape_query() {
    // these are all legal in query component
    let legal = r#"/:@-._~!$&'()*+,;="#;
    assert_eq!(escape_query(legal), legal.to_string());
}

#[test]
fn escape_query_encodes_what_a_url_cannot_hold() {
    assert_eq!(escape_query("foo bar?"), "foo%20bar%3F");
    assert_eq!(escape_query("\"#<>`{}"), "%22%23%3C%3E%60%7B%7D");
    assert_eq!(escape_query("\u{1f}\u{7f}\n"), "%1F%7F%0A");
    assert_eq!(escape_query("霊魂消滅"), "%E9%9C%8A%E9%AD%82%E6%B6%88%E6%BB%85");
    assert_eq!(escape_query("é"), "%C3%A9");
    assert_eq!(escape_query(""), "");
    assert_eq!(escape_query("%41"), "%41");
}

#[test]
fn escape_lucene_reads_from_the_left() {
    assert_eq!(escape_lucene("a+b"), "a\\+b");
    assert_eq!(escape_lucene("&&&"), "\\&&&");
    assert_eq!(escape_lucene("&|"), "\\&|");
    assert_eq!(escape_lucene("|&|&"), "\\|&\\|&");
    assert_eq!(escape_lucene("a&b|c"), "a&b|c");
    assert_eq!(escape_lucene("&+&"), "&\\+&");
    assert_eq!(escape_lucene("AC/DC (live)"), "AC/DC \\(live\\)");
    assert_eq!(escape_lucene(""), "");
    assert_eq!(escape_lucene("霊魂消滅"), "霊魂消滅");
}

#[test]
fn separators_are_encoded() {
    assert_eq!(encode_separators("a=b&c"), "a%3Db%26c");
    assert_eq!(encode_separators("%26"), "%26");
    assert_eq!(escape_full("R&B = soul?"), "R%26B%20%3D%20soul\\%3F");
}

#[test]
fn terms_and_phrases() {
    let t = term("AC/DC (live)");
    assert_eq!(t.to_string(), "AC/DC%20\\(live\\)");
    assert!(!t.is_boosted());
    assert!(!t.is_fuzzy());
    let p = phrase("back in black");
    assert_eq!(p.to_string(), "\"back%20in%20black\"");
    assert!(!p.is_boosted());
    assert!(!p.is_proximity());

    let fuzzy = term("blak").fuzzy(2);
    assert!(fuzzy.is_fuzzy());
    assert!(!fuzzy.is_boosted());
    assert_eq!(fuzzy.to_string(), "blak~2");

    let near = ProximityPhrase { phrase: phrase("a b"), max_distance: 10 };
    assert!(near.is_proximity());
    assert!(!near.is_boosted());
    assert_eq!(near.to_string(), "\"a%20b\"~10");
}

#[test]
fn connected_queries() {
    let q = term("a").and(phrase("b c"));
    assert_eq!(q.operator, OperatorKind::And);
    assert_eq!(q.to_string(), "(a) AND (\"b%20c\")");
    let q = term("a").or(term("b")).and(term("c"));
    assert_eq!(q.to_string(), "((a) OR (b)) AND (c)");
    let q = FieldQuery { field: "artist".to_string(), clause: term("a").or(term("b")) };
    assert_eq!(q.to_string(), "artist:((a) OR (b))");
    assert_eq!(OperatorKind::Not.to_string(), "NOT");
}

#[test]
fn combined_phrases() {
    let none: CombinedPhrase<musicbrainz::search::query_builder::BasicTerm> =
        CombinedPhrase { terms: vec![], operator: OperatorKind::And };
    assert_eq!(none.to_string(), "");
    let one = CombinedPhrase { terms: vec![term("a")], operator: OperatorKind::And };
    assert_eq!(one.to_string(), "a");
    let three =
        CombinedPhrase { terms: vec![term("a"), term("b"), term("c")], operator: OperatorKind::Or };
    assert_eq!(three.to_string(), "a ORb ORc");
    assert!(!three.is_boosted());
    assert!(!three.is_proximity());
}

#[test]
fn queries_keep_their_text() {
    let q: Query<search_entities::ReleaseGroup> = Query::from_query("artist:(a) AND tag:b");
    assert_eq!(q.unescaped(), "artist:(a) AND tag:b");
    assert_eq!(q.escaped(), "artist:(a)%20AND%20tag:b");
}

#[test]
fn weights_are_decimal_numbers() {
    for text in ["1", "0", "2.5", "0.25", "10.0", "007", "340282350000000000000000000000000000000"] {
        assert_eq!(Weight::new(text).unwrap().as_str(), text);
    }
    for text in ["", ".", "1.", ".5", "-1", "+1", "1e5", "1.5.2", "NaN", "inf", "1 ", " 1", "1,5", "١"] {
        assert!(Weight::new(text).is_none(), "{:?}", text);
    }
}

#[test]
fn boosted_terms_and_phrases() {
    let t = term("black").boost(Weight::new("2.5").unwrap());
    assert!(t.is_boosted());
    assert!(!t.is_fuzzy());
    assert_eq!(t.to_string(), "black^2.5");
    let t = term("blak").fuzzy(1).boost(Weight::new("4").unwrap());
    assert!(t.is_boosted());
    assert!(t.is_fuzzy());
    assert_eq!(t.to_string(), "blak~1^4");
    let t = term("blak").boost(Weight::new("4").unwrap()).fuzzy(1);
    assert_eq!(t.to_string(), "blak^4~1");
    assert!(t.is_boosted());
    let p = BoostPhrase { phrase: phrase("back in black"), weight: Weight::new("0.5").unwrap() };
    assert!(p.is_boosted());
    assert!(!p.is_proximity());
    assert_eq!(p.to_string(), "\"back%20in%20black\"^0.5");
    let near = ProximityPhrase { phrase: p, max_distance: 3 };
    assert!(near.is_boosted());
    assert_eq!(near.to_string(), "\"back%20in%20black\"^0.5~3");
}

#[test]
fn release_group_fields() {
    assert_eq!(<ReleaseGroupName as ReleaseGroupSearchField>::name(), "releasegroup");
    assert_eq!(<ArtistMbid as ReleaseGroupSearchField>::name(), "arid");
    assert_eq!(<PrimaryType as ReleaseGroupSearchField>::name(), "primarytype");
    assert_eq!(<ReleaseNumber as ReleaseGroupSearchField>::name(), "releases");
    assert_eq!(
        <musicbrainz::search::fields::ReleaseStatus as ReleaseGroupSearchField>::name(),
        "status"
    );
    assert_eq!(ReleaseGroupName("x y".to_string()).value(), "x y");
    let id = Mbid::from_str("739de9cd-7e81-4bb0-9fdb-0feb7ea709c7").unwrap();
    assert_eq!(ArtistMbid(id).value(), "739de9cd-7e81-4bb0-9fdb-0feb7ea709c7");
    assert_eq!(PrimaryType(ReleaseGroupPrimaryType::EP).value(), "EP");
    assert_eq!(ReleaseNumber(12).value(), "12");
    assert_eq!(ReleaseNumber(0).value(), "0");
    assert_eq!(
        musicbrainz::search::fields::ReleaseStatus(ReleaseStatus::PseudoRelease).value(),
        "Pseudo-Release"
    );
}

#[test]
fn alias_field_belongs_to_areas_and_artists() {
    let alias = Alias("Gaga".to_string());
    assert_eq!(alias.value(), "Gaga");
    assert_eq!(alias.name::<musicbrainz::entities::Area>().unwrap(), "alias");
    assert_eq!(alias.to_string::<musicbrainz::entities::Artist>().unwrap(), "alias:Gaga");
    let err = alias.name::<musicbrainz::entities::Release>().err().unwrap();
    assert_eq!(err.kind(), ErrorKind::Internal);
    assert_eq!(
        err.message(),
        "Requested field Alias of entity release, but this is not provided."
    );
    assert!(alias.to_string::<musicbrainz::entities::Label>().is_err());
}

#[test]
fn search_url_of_release_group_search() {
    let url = ReleaseGroupSearchBuilder::new()
        .add(ReleaseGroupName("霊魂消滅".to_owned()))
        .build_url()
        .unwrap();
    assert_eq!(
        url,
        "https://musicbrainz.org/ws/2/release-group/?query=releasegroup:%E9%9C%8A%E9%AD%82%E6%B6%88%E6%BB%85"
    );
    let url = ReleaseGroupSearchBuilder::new()
        .add(ReleaseGroupName("a b".to_owned()))
        .add(Tag("rock & roll".to_owned()))
        .add(ReleaseNumber(3))
        .build_url()
        .unwrap();
    assert_eq!(
        url,
        "https://musicbrainz.org/ws/2/release-group/?query=releasegroup:a%20b%20AND%20tag:rock%20&%20roll%20AND%20releases:3"
    );
    assert_eq!(
        ReleaseGroupSearchBuilder::new().build_url().unwrap(),
        "https://musicbrainz.org/ws/2/release-group/?query="
    );
    assert_eq!(
        build_search_url("release-group", &vec![("tag".to_string(), "a b".to_string())]),
        "https://musicbrainz.org/ws/2/release-group/?query=tag:a%20b"
    );
}

const SEARCH_RESULT: &'static str = r#"<?xml version="1.0" encoding="UTF-8" standalone="yes"?><metadata created="2017-05-06T09:45:01.432Z" xmlns="http://musicbrainz.org/ns/mmd-2.0#" xmlns:ext="http://musicbrainz.org/ns/ext#-2.0"><release-group-list count="1" offset="0"><release-group id="739de9cd-7e81-4bb0-9fdb-0feb7ea709c7" type="Single" ext:score="100"><title>霊魂消滅</title><primary-type>Single</primary-type><artist-credit><name-credit><artist id="90e7c2f9-273b-4d6c-a662-ab2d73ea4b8e"><name>NECRONOMIDOL</name><sort-name>NECRONOMIDOL</sort-name></artist></name-credit></artist-credit><release-list count="1"><release id="d3d2a860-0093-461d-8d95-b77939c2e944"><title>霊魂消滅</title><status>Official</status></release></release-list></release-group></release-group-list></metadata>"#;

#[test]
fn mod_deserialize_releasegroup() {
    // url: https://musicbrainz.org/ws/2/release-group/?query=releasegroup:
    // %E9%9C%8A%E9%AD%82%E6%B6%88%E6%BB%85
    let res: Vec<SearchEntry<search_entities::ReleaseGroup>> =
        ReleaseGroupSearchBuilder::parse_xml(SEARCH_RESULT).unwrap();

    assert_eq!(res.len(), 1);
    let ref rg = res[0];

    assert_eq!(rg.score, 100);
    assert_eq!(rg.entity.mbid, Mbid::from_str("739de9cd-7e81-4bb0-9fdb-0feb7ea709c7").unwrap());
    assert_eq!(rg.entity.title, "霊魂消滅".to_string());
}

#[test]
fn search_release_group() {
    let builder =
        ReleaseGroupSearchBuilder::new().add(ReleaseGroupName("霊魂消滅".to_owned()));
    assert!(builder.build_url().unwrap().ends_with("%E9%9C%8A%E9%AD%82%E6%B6%88%E6%BB%85"));
    let results = ReleaseGroupSearchBuilder::parse_xml(SEARCH_RESULT).unwrap();

    assert_eq!(results.len(), 1);
    assert_eq!(results[0].score, 100);
    assert_eq!(
        results[0].entity.mbid,
        Mbid::from_str("739de9cd-7e81-4bb0-9fdb-0feb7ea709c7").unwrap()
    );
    assert_eq!(results[0].entity.title, "霊魂消滅".to_string());
    assert_eq!(results[0].entity.artists.len(), 1);
    assert_eq!(results[0].entity.artists[0].name, "NECRONOMIDOL");
    assert_eq!(results[0].entity.releases.len(), 1);
    assert_eq!(results[0].entity.releases[0].status, Some(ReleaseStatus::Official));
}

#[test]
fn search_results_keep_the_order_of_the_server() {
    let xml = r#"<?xml version="1.0" encoding="UTF-8"?><metadata xmlns="http://musicbrainz.org/ns/mmd-2.0#" xmlns:ext="http://musicbrainz.org/ns/ext#-2.0"><release-group-list count="3" offset="0"><release-group id="00000000-0000-0000-0000-000000000002" ext:score="40"><title>b</title></release-group><release-group id="00000000-0000-0000-0000-000000000001" ext:score="100"><title>a</title></release-group><release-group id="00000000-0000-0000-0000-000000000002" ext:score="40"><title>b</title></release-group></release-group-list></metadata>"#;
    let results = ReleaseGroupSearchBuilder::parse_xml(xml).unwrap();
    let seen: Vec<(String, u8)> =
        results.iter().map(|e| (e.entity.title.clone(), e.score)).collect();
    assert_eq!(
        seen,
        vec![("b".to_string(), 40), ("a".to_string(), 100), ("b".to_string(), 40)]
    );
    let empty = r#"<?xml version="1.0" encoding="UTF-8"?><metadata xmlns="http://musicbrainz.org/ns/mmd-2.0#"><release-group-list count="0" offset="0"/></metadata>"#;
    assert_eq!(ReleaseGroupSearchBuilder::parse_xml(empty).unwrap().len(), 0);
}

#[test]
fn search_failures() {
    let body = r#"<?xml version="1.0" encoding="UTF-8"?><error><text>Invalid query</text></error>"#;
    let err = ReleaseGroupSearchBuilder::parse_xml(body).err().unwrap();
    assert_eq!(err.kind(), ErrorKind::ServerError);
    assert_eq!(err.message(), "Invalid query");

    let no_score = r#"<?xml version="1.0" encoding="UTF-8"?><metadata xmlns="http://musicbrainz.org/ns/mmd-2.0#"><release-group-list><release-group id="00000000-0000-0000-0000-000000000002"><title>b</title></release-group></release-group-list></metadata>"#;
    let err = ReleaseGroupSearchBuilder::parse_xml(no_score).err().unwrap();
    assert_eq!(err.kind(), ErrorKind::ParseResponse);

    let big_score = r#"<?xml version="1.0" encoding="UTF-8"?><metadata xmlns="http://musicbrainz.org/ns/mmd-2.0#" xmlns:ext="http://musicbrainz.org/ns/ext#-2.0"><release-group-list><release-group id="00000000-0000-0000-0000-000000000002" ext:score="256"><title>b</title></release-group></release-group-list></metadata>"#;
    let err = ReleaseGroupSearchBuilder::parse_xml(big_score).err().unwrap();
    assert_eq!(err.kind(), ErrorKind::ParseResponse);
    assert_eq!(
        err.message(),
        "xpath_reader error: number too large to fit in target type"
    );
}

/// The characters and pairs that carry a meaning in the query language, as
/// one pattern.
const LUCENE_SPECIAL: &'static str = r#"([+\-!\(\)\{\}\[\]\^"~\*\?:\\]|[&\|]{2})"#;

#[test]
fn escaping_agrees_with_the_pattern() {
    let pattern = regex::Regex::new(LUCENE_SPECIAL).unwrap();
    let alphabet = ['a', ' ', '+', '-', '&', '|', '!', '(', ')', '{', '}', '[', ']', '^', '"', '~',
        '*', '?', ':', '\\', '=', '霊', '$', '0'];
    let mut texts: Vec<String> = vec![String::new()];
    // every text of up to three characters over the alphabet
    let mut last: Vec<String> = vec![String::new()];
    for _ in 0..3 {
        let mut longer = Vec::new();
        for text in last.iter() {
            for c in alphabet.iter() {
                let mut t = text.clone();
                t.push(*c);
                longer.push(t);
            }
        }
        texts.extend(longer.iter().cloned());
        last = longer;
    }
    texts.push("&&&&".to_string());
    texts.push("&|&|&".to_string());
    texts.push("a && b || (c:d) \\ e~2 f^3 \"g h\" [i TO j] {k} +l -m !n o* p?".to_string());
    for text in texts.iter() {
        let expected = pattern.replace_all(text.as_str(), "\\$0").to_string();
        assert_eq!(escape_lucene(text.as_str()), expected, "{:?}", text);
    }
}
