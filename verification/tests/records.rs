use musicbrainz::client::{decode, decode_old, fetch_url};
use musicbrainz::entities::get_url;
use musicbrainz::entities::{
    Alias, AliasType, AreaRef, Artist, ArtistOptions, ArtistRef, ArtistType, Coordinates, Event,
    EventType, Gender, Label, LabelInfo, LabelOptions, LabelRef, LabelType, Language, Mbid,
    OnRequest, PartialDate, Place, PlaceType, Recording, RecordingRef, Release, ReleaseGroup,
    ReleaseGroupOptions, ReleaseGroupPrimaryType, ReleaseGroupSecondaryType, ReleaseOptions,
    ReleaseRef, ReleaseStatus, ReleaseTrack, Resource, Series, SeriesType,
};
use musicbrainz::ErrorKind;

fn metadata(inner: &str) -> String {
    format!(
        r#"<?xml version="1.0" encoding="UTF-8"?><metadata xmlns="http://musicbrainz.org/ns/mmd-2.0#">{}</metadata>"#,
        inner
    )
}

fn fetch_entity<Res: Resource>(body: &str, options: Res::Options) -> Result<Res, musicbrainz::Error> {
    decode(metadata(body).as_str(), options)
}

const NECRONOMIDOL: &'static str = r#"<artist id="90e7c2f9-273b-4d6c-a662-ab2d73ea4b8e" type="Group" type-id="e431f5f6-b5d2-343d-8b36-72607fffb74b"><name>NECRONOMIDOL</name><sort-name>NECRONOMIDOL</sort-name><country>JP</country><area id="2db42837-c832-3c27-b4a3-08198f75693c"><name>Japan</name><sort-name>Japan</sort-name><iso-3166-1-code-list><iso-3166-1-code>JP</iso-3166-1-code></iso-3166-1-code-list></area><life-span><begin>2014-03</begin></life-span></artist>"#;

const LADY_GAGA: &'static str = r#"<artist id="650e7db6-b795-4eb5-a702-5ea2fc46c848" type="Person" type-id="b6e035f4-3ce9-331c-97df-83397230b0df"><name>Lady Gaga</name><sort-name>Lady Gaga</sort-name><ipi>00519338344</ipi><ipi-list><ipi>00519338344</ipi></ipi-list><isni-list><isni>0000000120254559</isni></isni-list><gender id="93452b5a-a947-30c8-934f-6a4056b151c2">Female</gender><country>US</country><area id="489ce91b-6658-3307-9877-795b68554c98"><name>United States</name><sort-name>United States</sort-name><iso-3166-1-code-list><iso-3166-1-code>US</iso-3166-1-code></iso-3166-1-code-list></area><begin-area id="74e50e58-5deb-4b99-93a2-decbb365c07f"><name>New York</name><sort-name>New York</sort-name></begin-area><life-span><begin>1986-03-28</begin></life-span><alias-list count="3"><alias sort-name="Lady Ga Ga">Lady Ga Ga</alias><alias locale="ja" sort-name="レディー・ガガ" type="Artist name" primary="primary">レディー・ガガ</alias><alias sort-name="Germanotta, Stefani Joanne Angelina" type="Legal name">Stefani Joanne Angelina Germanotta</alias></alias-list></artist>"#;

#[test]
fn artist_read_xml1() {
    let mbid = Mbid::from_str("90e7c2f9-273b-4d6c-a662-ab2d73ea4b8e").unwrap();
    let options = ArtistOptions::minimal();
    let artist: Artist = fetch_entity(NECRONOMIDOL, options).unwrap();

    assert_eq!(artist.mbid(), &mbid);
    assert_eq!(artist.name(), &"NECRONOMIDOL".to_string());
    assert_eq!(artist.sort_name(), &"NECRONOMIDOL".to_string());
    assert_eq!(artist.aliases(), OnRequest::NotRequested);

    assert_eq!(artist.begin_date(), Some(&PartialDate::from_str("2014-03").unwrap()));
    assert_eq!(artist.end_date(), None);

    let area = artist.area().unwrap();
    assert_eq!(area.mbid, Mbid::from_str("2db42837-c832-3c27-b4a3-08198f75693c").unwrap());
    assert_eq!(area.name, "Japan".to_string());
    assert_eq!(area.sort_name, "Japan".to_string());
    assert_eq!(area.iso_3166, Some("JP".to_string()));

    assert_eq!(artist.artist_type(), Some(ArtistType::Group));
    assert_eq!(artist.gender(), None);
    assert_eq!(artist.ipi_code(), None);
    assert_eq!(artist.isni_code(), None);
}

#[test]
fn artist_read_xml2() {
    let mbid = Mbid::from_str("650e7db6-b795-4eb5-a702-5ea2fc46c848").unwrap();
    let options = ArtistOptions::everything();
    let artist: Artist = fetch_entity(LADY_GAGA, options).unwrap();

    assert_eq!(artist.mbid(), &mbid);
    assert_eq!(artist.name(), &"Lady Gaga".to_string());
    assert_eq!(artist.sort_name(), &"Lady Gaga".to_string());
    let mut aliases_sorted: Vec<&Alias> = artist.aliases().unwrap().iter().collect();
    aliases_sorted.sort_by(|a, b| a.name().cmp(b.name()));
    assert_eq!(
        aliases_sorted,
        vec![
            &Alias {
                alias_type: None,
                name: "Lady Ga Ga".into(),
                sort_name: Some("Lady Ga Ga".into()),
                locale: None,
                primary: false
            },
            &Alias {
                alias_type: Some(AliasType::LegalName),
                name: "Stefani Joanne Angelina Germanotta".into(),
                sort_name: Some("Germanotta, Stefani Joanne Angelina".into()),
                locale: None,
                primary: false
            },
            &Alias {
                alias_type: Some(AliasType::ArtistName),
                name: "レディー・ガガ".into(),
                sort_name: Some("レディー・ガガ".into()),
                locale: Some(Language::from_639_3("jpn").unwrap()),
                primary: true,
            }
        ]
    );

    assert_eq!(artist.begin_date(), Some(&PartialDate::from_str("1986-03-28").unwrap()));
    assert_eq!(artist.end_date(), None);

    let area = artist.area().unwrap();
    assert_eq!(area.mbid, Mbid::from_str("489ce91b-6658-3307-9877-795b68554c98").unwrap());
    assert_eq!(area.name, "United States".to_string());
    assert_eq!(area.sort_name, "United States".to_string());
    assert_eq!(area.iso_3166, Some("US".to_string()));

    assert_eq!(artist.artist_type(), Some(ArtistType::Person));
    assert_eq!(artist.gender(), Some(Gender::Female));
    assert_eq!(artist.ipi_code(), Some(&"00519338344".to_string()));
    assert_eq!(artist.isni_code(), Some(&"0000000120254559".to_string()));
    assert_eq!(artist.annotation(), OnRequest::NotAvailable);
    assert_eq!(artist.disambiguation(), None);
}

#[test]
fn alias_accessors() {
    let artist: Artist = fetch_entity(LADY_GAGA, ArtistOptions::everything()).unwrap();
    let aliases = artist.aliases().unwrap();
    let primary = &aliases[1];
    assert_eq!(primary.alias_type(), Some(AliasType::ArtistName));
    assert_eq!(primary.name(), "レディー・ガガ");
    assert_eq!(primary.sort_name(), Some(&"レディー・ガガ".to_string()));
    assert_eq!(primary.locale().unwrap().to_639_3(), "jpn");
    assert!(primary.primary());
    assert!(!aliases[0].primary());
    assert_eq!(aliases[0].locale(), None);
}

#[test]
fn unknown_words_are_parse_failures() {
    let body = NECRONOMIDOL.replace("type=\"Group\"", "type=\"Band\"");
    let err = fetch_entity::<Artist>(body.as_str(), ArtistOptions::minimal()).err().unwrap();
    assert_eq!(err.kind(), ErrorKind::ParseResponse);
    assert_eq!(err.message(), "xpath_reader error: Unknown `ArtistType` value: 'Band'");

    let body = LADY_GAGA.replace("locale=\"ja\"", "locale=\"zz\"");
    let err = fetch_entity::<Artist>(body.as_str(), ArtistOptions::everything()).err().unwrap();
    assert_eq!(err.kind(), ErrorKind::ParseResponse);
    assert_eq!(err.message(), "xpath_reader error: Invalid ISO 639-1 code: zz");

    let body = NECRONOMIDOL.replace("90e7c2f9-273b-4d6c-a662-ab2d73ea4b8e", "90e7c2f9");
    let err = fetch_entity::<Artist>(body.as_str(), ArtistOptions::minimal()).err().unwrap();
    assert_eq!(err.message(), "xpath_reader error: Parse MBID error");

    let body = NECRONOMIDOL.replace("2014-03", "2014-March");
    let err = fetch_entity::<Artist>(body.as_str(), ArtistOptions::minimal()).err().unwrap();
    assert_eq!(err.message(), "xpath_reader error: Parse Date error");

    let body = NECRONOMIDOL.replace("<name>NECRONOMIDOL</name>", "");
    let err = fetch_entity::<Artist>(body.as_str(), ArtistOptions::minimal()).err().unwrap();
    assert_eq!(err.message(), "xpath_reader error: Missing (anchor) node.");
}

const MIXTAPE: &'static str = r#"<release-group id="76a4e2c2-bf7a-445e-8081-5a1e291f3b16" type="Album" type-id="f529b476-6e62-324f-b0aa-1f3e33d313fc"><title>Mixtape</title><first-release-date>2012-03</first-release-date><primary-type id="f529b476-6e62-324f-b0aa-1f3e33d313fc">Album</primary-type><secondary-type-list><secondary-type id="15c1b1f5-d893-3375-a1db-e180c5ae15ed">Mixtape/Street</secondary-type></secondary-type-list><artist-credit><name-credit><artist id="0e6b3a2c-6a42-4b43-a4f6-c6625c5855de"><name>POP ETC</name><sort-name>POP ETC</sort-name></artist></name-credit></artist-credit><release-list count="1"><release id="289bf4e7-0af5-433c-b5a2-493b863b4b47"><title>Mixtape</title><status id="4e304316-386d-3409-af2e-78857eec5cfe">Official</status><quality>normal</quality><date>2012-03</date><country>US</country></release></release-list></release-group>"#;

#[test]
fn release_group_read_1() {
    let mbid = Mbid::from_str("76a4e2c2-bf7a-445e-8081-5a1e291f3b16").unwrap();
    let rg: ReleaseGroup = fetch_entity(MIXTAPE, ReleaseGroupOptions::everything()).unwrap();

    assert_eq!(rg.mbid(), &mbid);
    assert_eq!(rg.title(), "Mixtape");
    assert_eq!(
        rg.artists().unwrap(),
        &[ArtistRef {
            mbid: Mbid::from_str("0e6b3a2c-6a42-4b43-a4f6-c6625c5855de").unwrap(),
            name: "POP ETC".to_string(),
            sort_name: "POP ETC".to_string(),
        }]
    );
    assert_eq!(
        rg.releases().unwrap(),
        &[ReleaseRef {
            mbid: Mbid::from_str("289bf4e7-0af5-433c-b5a2-493b863b4b47").unwrap(),
            title: "Mixtape".to_string(),
            date: Some(PartialDate::from_str("2012-03").unwrap()),
            status: Some(ReleaseStatus::Official),
            country: Some("US".to_string()),
        }]
    );
    assert_eq!(rg.release_type().primary, Some(ReleaseGroupPrimaryType::Album));
    assert_eq!(rg.release_type().secondary, vec![ReleaseGroupSecondaryType::MixtapeStreet]);
    assert_eq!(rg.disambiguation(), None);
    assert_eq!(rg.annotation(), OnRequest::NotAvailable);
}

#[test]
fn release_group_with_artists_and_releases() {
    let options = ReleaseGroupOptions { annotation: false, artists: true, releases: true };
    let rg: ReleaseGroup = fetch_entity(MIXTAPE, options).unwrap();
    let artists = rg.artists().unwrap();
    assert_eq!(artists.len(), 1);
    assert_eq!(artists[0].name, "POP ETC");
    let releases = rg.releases().unwrap();
    assert_eq!(releases.len(), 1);
    assert_eq!(releases[0].title, "Mixtape");
    assert_eq!(rg.annotation(), OnRequest::NotRequested);
}

#[test]
fn markers_follow_the_options() {
    let body = MIXTAPE.replace("</title><first", "</title><annotation>notes</annotation><first");
    // toggle off: not requested, whatever the payload holds
    let rg: ReleaseGroup = fetch_entity(body.as_str(), ReleaseGroupOptions::minimal()).unwrap();
    assert_eq!(rg.annotation(), OnRequest::NotRequested);
    assert_eq!(rg.artists(), OnRequest::NotRequested);
    assert_eq!(rg.releases(), OnRequest::NotRequested);
    // toggle on and field present
    let rg: ReleaseGroup = fetch_entity(body.as_str(), ReleaseGroupOptions::everything()).unwrap();
    assert_eq!(rg.annotation(), OnRequest::Present(&"notes".to_string()));
    assert!(rg.artists().is_some());
    // toggle on and field omitted
    let rg: ReleaseGroup = fetch_entity(MIXTAPE, ReleaseGroupOptions::everything()).unwrap();
    assert_eq!(rg.annotation(), OnRequest::NotAvailable);
}

fn label_info(catno: &str, label: Option<(&str, &str, Option<&str>)>) -> String {
    let label = match label {
        Some((id, name, code)) => format!(
            r#"<label id="{}"><name>{}</name><sort-name>{}</sort-name>{}</label>"#,
            id,
            name,
            name,
            code.map(|c| format!("<label-code>{}</label-code>", c)).unwrap_or_default()
        ),
        None => String::new(),
    };
    format!("<label-info><catalog-number>{}</catalog-number>{}</label-info>", catno, label)
}

fn track(id: &str, position: u32, title: &str, length: Option<u64>, recording: (&str, &str)) -> String {
    let length = length.map(|l| format!("<length>{}</length>", l)).unwrap_or_default();
    format!(
        r#"<track id="{}"><position>{}</position><number>{}</number><title>{}</title>{}<recording id="{}"><title>{}</title>{}</recording></track>"#,
        id, position, position, title, length, recording.0, recording.1, length
    )
}

fn medium(position: u32, tracks: &[String]) -> String {
    format!(
        r#"<medium><position>{}</position><format id="9712d52a-4509-3d4b-a1a2-67c88c643e31">CD</format><track-list count="{}" offset="0">{}</track-list></medium>"#,
        position,
        tracks.len(),
        tracks.concat()
    )
}

fn plain_tracks(count: u32, seed: u32) -> Vec<String> {
    (1..=count)
        .map(|i| {
            track(
                format!("00000000-0000-4000-8000-{:04}0000{:04}", seed, i).as_str(),
                i,
                format!("Track {}", i).as_str(),
                Some(1000 * i as u64),
                (
                    format!("11111111-0000-4000-8000-{:04}0000{:04}", seed, i).as_str(),
                    format!("Track {}", i).as_str(),
                ),
            )
        })
        .collect()
}

fn creep() -> String {
    format!(
        r#"<release id="ed118c5f-d940-4b52-a37b-b1a205374abe"><title>Creep</title><status id="4e304316-386d-3409-af2e-78857eec5cfe">Official</status><quality>normal</quality><text-representation><language>eng</language><script>Latn</script></text-representation><artist-credit><name-credit><artist id="a74b1b7f-71a5-4011-9441-d0b5e4122711"><name>Radiohead</name><sort-name>Radiohead</sort-name></artist></name-credit></artist-credit><date>1992-09-21</date><country>GB</country><barcode>724388023429</barcode><label-info-list count="2">{}{}</label-info-list><medium-list count="1">{}</medium-list></release>"#,
        label_info(
            "7243 8 80234 2 9",
            Some(("df7d1c7f-ef95-425f-8eef-445b3d7bcbd9", "Parlophone", Some("299")))
        ),
        label_info(
            "CDR 6078",
            Some(("df7d1c7f-ef95-425f-8eef-445b3d7bcbd9", "Parlophone", Some("299")))
        ),
        medium(1, &plain_tracks(4, 1))
    )
}

#[test]
fn release_read_xml1() {
    let mbid = Mbid::from_str("ed118c5f-d940-4b52-a37b-b1a205374abe").unwrap();
    let options = ReleaseOptions::everything();
    let release: Release = fetch_entity(creep().as_str(), options).unwrap();

    assert_eq!(release.mbid(), &mbid);
    assert_eq!(release.title(), "Creep");
    assert_eq!(
        release.artists().unwrap(),
        &[ArtistRef {
            mbid: Mbid::from_str("a74b1b7f-71a5-4011-9441-d0b5e4122711").unwrap(),
            name: "Radiohead".to_string(),
            sort_name: "Radiohead".to_string(),
        }]
    );
    assert_eq!(release.date(), Some(&PartialDate::from_str("1992-09-21").unwrap()));
    assert_eq!(release.country(), Some(&"GB".to_string()));
    assert_eq!(
        release.labels().unwrap(),
        &[
            LabelInfo {
                label: Some(LabelRef {
                    mbid: Mbid::from_str("df7d1c7f-ef95-425f-8eef-445b3d7bcbd9").unwrap(),
                    name: "Parlophone".to_string(),
                    sort_name: "Parlophone".to_string(),
                    label_code: Some("299".to_string()),
                }),
                catalog_number: Some("7243 8 80234 2 9".to_string()),
            },
            LabelInfo {
                label: Some(LabelRef {
                    mbid: Mbid::from_str("df7d1c7f-ef95-425f-8eef-445b3d7bcbd9").unwrap(),
                    name: "Parlophone".to_string(),
                    sort_name: "Parlophone".to_string(),
                    label_code: Some("299".to_string()),
                }),
                catalog_number: Some("CDR 6078".to_string()),
            }
        ]
    );
    assert_eq!(release.barcode(), Some(&"724388023429".to_string()));
    assert_eq!(release.status(), Some(ReleaseStatus::Official));
    assert_eq!(release.language(), Some(&Language::from_639_3("eng").unwrap()));
    assert_eq!(release.script(), Some(&"Latn".to_string()));
    assert_eq!(release.disambiguation(), None);
    assert_eq!(release.mediums().unwrap().len(), 1);
    assert_eq!(release.annotation(), OnRequest::NotAvailable);
    assert_eq!(release.packaging(), None);
}

#[test]
fn disambiguation() {
    let body = r#"<release id="9642c552-a5b3-4b7e-9168-aeb2a1a06f27"><title>EXPLOSION</title><status>Official</status><disambiguation>通常盤</disambiguation><packaging>Jewel Case</packaging></release>"#;
    let options = ReleaseOptions::minimal();
    let release: Release = fetch_entity(body, options).unwrap();

    assert_eq!(release.disambiguation(), Some(&"通常盤".to_string()));
}

#[test]
fn release_read_xml2() {
    let labels: Vec<(&str, &str, Option<&str>)> = vec![
        ("376d9b4d-8cdd-44be-bc0f-ed5dfd2d2340", "Cherrytree Records", None),
        ("2182a316-c4bd-4605-936a-5e2fac52bdd2", "Interscope Records", Some("6406")),
        ("061587cb-0262-46bc-9427-cb5e177c36a2", "Konlive", None),
        ("244dd29f-b999-40e4-8238-cb760ad05ac6", "Streamline Records", None),
        ("6cee07d5-4cc3-4555-a629-480590e0bebd", "Universal Music Canada", None),
    ];
    let infos: Vec<String> =
        labels.iter().map(|l| label_info("0251766489", Some(l.clone()))).collect();
    let body = format!(
        r#"<release id="785d7c67-a920-4cee-a871-8cd9896eb8aa"><title>The Fame</title><status>Official</status><packaging id="ec27701a-4a22-37f4-bfac-6616e0f9750a">Jewel Case</packaging><label-info-list count="5">{}</label-info-list></release>"#,
        infos.concat()
    );
    let mut options = ReleaseOptions::minimal();
    options.labels = true;
    let release: Release = fetch_entity(body.as_str(), options).unwrap();

    // We check for the things we didn't check in the previous test.
    assert_eq!(release.packaging(), Some(&"Jewel Case".to_string()));
    let expected: Vec<LabelInfo> = labels
        .iter()
        .map(|(id, name, code)| LabelInfo {
            label: Some(LabelRef {
                mbid: Mbid::from_str(id).unwrap(),
                name: name.to_string(),
                sort_name: name.to_string(),
                label_code: code.map(|c| c.to_string()),
            }),
            catalog_number: Some("0251766489".to_string()),
        })
        .collect();
    assert_eq!(release.labels().unwrap(), &expected);
    assert_eq!(release.mediums(), OnRequest::NotRequested);
}

#[test]
fn read_tracks() {
    let tracks = vec![
        track(
            "ac898be7-2965-4d17-9ac8-48d45852d73c",
            1,
            "puella tenebrarum",
            Some(232000),
            ("fd6f4cd8-9cff-43da-8cd7-3351357b6f5a", "Puella Tenebrarum"),
        ),
        track(
            "21648b0b-deaf-4b93-a257-5fc18363b25d",
            2,
            "LAMINA MALEDICTUM",
            Some(258000),
            ("0eeb0621-8013-4c0e-8e49-ddfd78d56051", "Lamina Maledictum"),
        ),
        track(
            "e57b3990-eb36-476e-beac-583e0bbe6f87",
            3,
            "SARNATH",
            Some(228000),
            ("53f87e98-351e-453e-b949-bdacf4cbeccd", "Sarnath"),
        ),
    ];
    let body = format!(
        r#"<release id="d1881a4c-0188-4f0f-a2e7-4e7849aec109"><title>puella tenebrarum</title><medium-list count="1">{}</medium-list></release>"#,
        medium(1, &tracks)
    );
    let mut options = ReleaseOptions::minimal();
    options.recordings = true;
    let release: Release = fetch_entity(body.as_str(), options).unwrap();

    let mediums = release.mediums().unwrap();
    assert_eq!(mediums.len(), 1);
    let medium = mediums.get(0).unwrap();
    assert_eq!(medium.position, 1);
    assert_eq!(medium.format, Some("CD".to_string()));
    assert_eq!(medium.tracks.len(), 3);
    assert_eq!(
        medium.tracks[0],
        ReleaseTrack {
            mbid: Mbid::from_str("ac898be7-2965-4d17-9ac8-48d45852d73c").unwrap(),
            position: 1,
            number: "1".to_string(),
            title: "puella tenebrarum".to_string(),
            length: Some(232000),
            recording: RecordingRef {
                mbid: Mbid::from_str("fd6f4cd8-9cff-43da-8cd7-3351357b6f5a").unwrap(),
                title: "Puella Tenebrarum".to_string(),
                length: Some(232000),
            },
        }
    );
    assert_eq!(
        medium.tracks[1],
        ReleaseTrack {
            mbid: Mbid::from_str("21648b0b-deaf-4b93-a257-5fc18363b25d").unwrap(),
            position: 2,
            number: "2".to_string(),
            title: "LAMINA MALEDICTUM".to_string(),
            length: Some(258000),
            recording: RecordingRef {
                mbid: Mbid::from_str("0eeb0621-8013-4c0e-8e49-ddfd78d56051").unwrap(),
                title: "Lamina Maledictum".to_string(),
                length: Some(258000),
            },
        }
    );
    assert_eq!(
        medium.tracks[2],
        ReleaseTrack {
            mbid: Mbid::from_str("e57b3990-eb36-476e-beac-583e0bbe6f87").unwrap(),
            position: 3,
            number: "3".to_string(),
            title: "SARNATH".to_string(),
            length: Some(228000),
            recording: RecordingRef {
                mbid: Mbid::from_str("53f87e98-351e-453e-b949-bdacf4cbeccd").unwrap(),
                title: "Sarnath".to_string(),
                length: Some(228000),
            },
        }
    );
}

#[test]
fn tracks_without_length() {
    let tracks: Vec<String> = (1..=4)
        .map(|i| {
            track(
                format!("00000000-0000-4000-8000-00000000000{}", i).as_str(),
                i,
                "untitled",
                None,
                (format!("11111111-0000-4000-8000-00000000000{}", i).as_str(), "untitled"),
            )
        })
        .collect();
    let body = format!(
        r#"<release id="02173013-59ed-4229-b0a5-e5aa486ed5d7"><title>demo</title><medium-list count="1">{}</medium-list></release>"#,
        medium(1, &tracks)
    );
    let mut options = ReleaseOptions::minimal();
    options.recordings = true;
    let release: Release = fetch_entity(body.as_str(), options).unwrap();

    let ref medium = release.mediums().unwrap()[0];
    assert_eq!(medium.tracks[0].length, None);
    assert_eq!(medium.tracks[1].length, None);
    assert_eq!(medium.tracks[2].length, None);
    assert_eq!(medium.tracks[3].length, None);
}

#[test]
fn multi_cd() {
    let body = format!(
        r#"<release id="ce22b20d-3a45-4e47-abaa-b7c8d10281fa"><title>double</title><medium-list count="2">{}{}</medium-list></release>"#,
        medium(1, &plain_tracks(11, 1)),
        medium(2, &plain_tracks(9, 2))
    );
    let mut options = ReleaseOptions::minimal();
    options.recordings = true;
    let release: Release = fetch_entity(body.as_str(), options).unwrap();

    let mediums = release.mediums().unwrap();

    assert_eq!(mediums.len(), 2);

    assert_eq!(mediums[0].position, 1);
    assert_eq!(mediums[0].tracks.len(), 11);
    assert_eq!(mediums[0].tracks[0].position, 1);
    assert_eq!(mediums[0].tracks[0].number, "1".to_string());
    assert_eq!(mediums[0].tracks[1].position, 2);
    assert_eq!(mediums[0].tracks[1].number, "2".to_string());
    assert_eq!(mediums[0].tracks[10].position, 11);
    assert_eq!(mediums[0].tracks[10].title, "Track 11");

    assert_eq!(mediums[1].position, 2);
    assert_eq!(mediums[1].tracks.len(), 9);
    assert_eq!(mediums[1].tracks[0].position, 1);
    assert_eq!(mediums[1].tracks[0].number, "1".to_string());
    assert_eq!(mediums[1].tracks[1].position, 2);
    assert_eq!(mediums[1].tracks[1].number, "2".to_string());
}

/// It's possible that a release has a catalog number but is not linked to
/// any label in the database.
#[test]
fn catalog_number_but_no_label_ref() {
    let body = format!(
        r#"<release id="61f8b05f-a3b5-49f4-a3a6-8f0d564c1664"><title>bird</title><label-info-list count="1">{}</label-info-list></release>"#,
        label_info("BIRD 4", None)
    );
    let mut options = ReleaseOptions::minimal();
    options.labels = true;
    let release: Release = fetch_entity(body.as_str(), options).unwrap();

    assert_eq!(
        release.labels().unwrap(),
        &[LabelInfo { label: None, catalog_number: Some("BIRD 4".to_string()) },]
    );
}

#[test]
fn label_read_xml1() {
    let body = r#"<label id="c029628b-6633-439e-bcee-ed02e8a338f7" type="Original Production" type-id="7aaa37fe-2def-3476-b359-80245850062d"><name>EMI</name><sort-name>EMI</sort-name><disambiguation>EMI Records, since 1972</disambiguation><label-code>542</label-code><country>GB</country><area id="8a754a16-0027-3a29-b6d7-2b40ea0481ed"><name>United Kingdom</name><sort-name>United Kingdom</sort-name></area><life-span><begin>1972</begin></life-span><alias-list count="4"><alias sort-name="EMI">EMI</alias><alias sort-name="EMI Records (UK)">EMI Records (UK)</alias><alias sort-name="EMI Records Ltd">EMI Records Ltd</alias><alias sort-name="EMI UK">EMI UK</alias></alias-list></label>"#;
    let mbid = Mbid::from_str("c029628b-6633-439e-bcee-ed02e8a338f7").unwrap();
    let options = LabelOptions::everything();
    let label: Label = fetch_entity(body, options).unwrap();

    assert_eq!(label.mbid(), &mbid);
    assert_eq!(label.name(), &"EMI".to_string());
    assert_eq!(label.sort_name(), &"EMI".to_string());
    assert_eq!(label.disambiguation(), Some(&"EMI Records, since 1972".to_string()));
    let aliases: Vec<String> = label.aliases().unwrap().iter().map(|a| a.name().clone()).collect();
    assert_eq!(
        aliases,
        vec![
            "EMI".to_string(),
            "EMI Records (UK)".to_string(),
            "EMI Records Ltd".to_string(),
            "EMI UK".to_string(),
        ]
    );
    assert_eq!(label.label_code(), Some(&"542".to_string()));
    assert_eq!(label.label_type(), Some(LabelType::ProductionOriginal));
    assert_eq!(label.country(), Some(&"GB".to_string()));
    assert_eq!(label.ipi_code(), None);
    assert_eq!(label.isni_code(), None);
    assert_eq!(label.begin_date(), Some(&PartialDate::from_str("1972").unwrap()));
    assert_eq!(label.end_date(), None);
}

#[test]
fn read_aliases() {
    let body = r#"<label id="168f48c8-057e-4974-9600-aa9956d21e1a" type="Original Production"><name>avex trax</name><sort-name>avex trax</sort-name><isni-list><isni>0000000123456789</isni></isni-list><alias-list count="2"><alias sort-name="エイベックス・トラックス">エイベックス・トラックス</alias><alias sort-name="Avex Trax Japan">Avex Trax Japan</alias></alias-list></label>"#;
    let options = LabelOptions::everything();
    let label: Label = fetch_entity(body, options).unwrap();

    let mut expected =
        vec!["Avex Trax Japan".to_string(), "エイベックス・トラックス".to_string()];
    expected.sort();
    let mut actual: Vec<String> =
        label.aliases().unwrap().iter().map(|a| a.name().clone()).collect();
    actual.sort();

    assert_eq!(actual, expected);
    assert_eq!(label.isni_code(), Some(&"0000000123456789".to_string()));
}

#[test]
fn place_read_1() {
    let body = r#"<place id="d1ab65f8-d082-492a-bd70-ce375548dabf" type="Studio" type-id="05fa6a09-ff92-3d34-bdbf-4141eb6a8bb9"><name>Chipping Norton Recording Studios</name><address>28–30 New Street, Chipping Norton</address><coordinates><latitude>51.9414</latitude><longitude>-1.548</longitude></coordinates><area id="716234d3-b8ed-45ac-8983-e7219eb85956"><name>Chipping Norton</name><sort-name>Chipping Norton</sort-name></area><life-span><begin>1971</begin><end>1999-10</end><ended>true</ended></life-span></place>"#;
    let mbid = Mbid::from_str("d1ab65f8-d082-492a-bd70-ce375548dabf").unwrap();
    let p: Place = decode_old(metadata(body).as_str()).unwrap();

    // Check parsed values.
    assert_eq!(p.mbid, mbid);
    assert_eq!(p.name, "Chipping Norton Recording Studios".to_string());
    assert_eq!(p.place_type, Some(PlaceType::Studio));
    assert_eq!(p.address, Some("28–30 New Street, Chipping Norton".to_string()));
    assert_eq!(
        p.coordinates,
        Some(Coordinates { latitude: "51.9414".to_string(), longitude: "-1.548".to_string() })
    );
    assert_eq!(
        p.area,
        Some(AreaRef {
            mbid: Mbid::from_str("716234d3-b8ed-45ac-8983-e7219eb85956").unwrap(),
            name: "Chipping Norton".to_string(),
            sort_name: "Chipping Norton".to_string(),
            iso_3166: None,
        })
    );
    assert_eq!(p.begin, PartialDate::from_str("1971").ok());
    assert_eq!(p.end, PartialDate::from_str("1999-10").ok());
    assert_eq!(p.aliases, Vec::<String>::new());
    assert_eq!(p.disambiguation, None);
    assert_eq!(p.annotation, None);
}

#[test]
fn event_read_1() {
    let annotation = "x".repeat(2233);
    let body = format!(
        r#"<event id="6e2ab7d5-f340-4c41-99a3-c901733402b4" type="Festival" type-id="b6ded574-b592-3f0e-b56e-5b5f06aa0678"><name>25. Wave-Gotik-Treffen</name><life-span><begin>2016-05-13</begin><end>2016-05-16</end></life-span><annotation><text>{}</text></annotation><alias-list count="1"><alias sort-name="WGT 2016">WGT 2016</alias></alias-list></event>"#,
        annotation
    );
    let mbid = Mbid::from_str("6e2ab7d5-f340-4c41-99a3-c901733402b4").unwrap();
    let event: Event = decode_old(metadata(body.as_str()).as_str()).unwrap();

    assert_eq!(event.mbid, mbid);
    assert_eq!(event.name, "25. Wave-Gotik-Treffen".to_string());
    assert_eq!(event.aliases, vec!["WGT 2016".to_string()]);
    assert_eq!(event.event_type, Some(EventType::Festival));
    assert_eq!(event.setlist, None);
    assert_eq!(event.begin_date, PartialDate::from_str("2016-05-13").unwrap());
    assert_eq!(event.end_date.unwrap(), PartialDate::from_str("2016-05-16").unwrap());
    assert_eq!(event.disambiguation, None);
    assert_eq!(event.annotation.unwrap().len(), 2233);
}

#[test]
fn read_2() {
    let setlist = "* song\n".repeat(32) + "#";
    let body = format!(
        r#"<event id="9754f4dd-6fad-49b7-8f30-940c9af6b776" type="Concert"><name>a concert</name><time>20:00</time><setlist>{}</setlist><life-span><begin>2015-11-12</begin><end>2015-11-12</end></life-span></event>"#,
        setlist
    );
    let event: Event = decode_old(metadata(body.as_str()).as_str()).unwrap();

    assert_eq!(event.event_type, Some(EventType::Concert));
    assert_eq!(event.setlist.unwrap().len(), 225);
}

#[test]
fn read_xml1() {
    let body = r#"<recording id="fbe3d0b9-3990-4a76-bddb-12f4a0447a2c"><title>The Perfect Drug (Nine Inch Nails)</title><length>499000</length><artist-credit><name-credit><artist id="b7ffd2af-418f-4be2-bdd1-22f8b48613da"><name>Nine Inch Nails</name><sort-name>Nine Inch Nails</sort-name></artist></name-credit></artist-credit><isrc-list count="1"><isrc id="USIR19701296"/></isrc-list></recording>"#;
    let mbid = Mbid::from_str("fbe3d0b9-3990-4a76-bddb-12f4a0447a2c").unwrap();
    let recording: Recording = decode_old(metadata(body).as_str()).unwrap();

    assert_eq!(recording.mbid, mbid);
    assert_eq!(recording.title, "The Perfect Drug (Nine Inch Nails)".to_string());
    assert_eq!(recording.duration, Some(499000));
    assert_eq!(
        recording.artists,
        vec![ArtistRef {
            mbid: Mbid::from_str("b7ffd2af-418f-4be2-bdd1-22f8b48613da").unwrap(),
            name: "Nine Inch Nails".to_string(),
            sort_name: "Nine Inch Nails".to_string(),
        },]
    );
    assert_eq!(recording.isrc_code, Some("USIR19701296".to_string()));
    assert_eq!(recording.annotation, None);
    assert_eq!(recording.disambiguation, None);
}

#[test]
fn read_series_1() {
    let body = r#"<series id="d977f7fd-96c9-4e3e-83b5-eb484a9e6582" type="Catalogue" type-id="49482ff0-fc9e-3b8c-a2d0-30e84d9df002"><name>Bach-Werke-Verzeichnis</name><alias-list count="1"><alias sort-name="BWV">BWV</alias></alias-list></series>"#;
    let mbid = Mbid::from_str("d977f7fd-96c9-4e3e-83b5-eb484a9e6582").unwrap();
    let series: Series = decode_old(metadata(body).as_str()).unwrap();

    assert_eq!(series.mbid, mbid);
    assert_eq!(series.series_type, SeriesType::Catalogue);
    assert_eq!(series.aliases, vec!["BWV".to_string()]);
    assert_eq!(series.disambiguation, None);
    assert_eq!(series.annotation, None);
}

#[test]
fn requests_list_the_parts_that_are_switched_on() {
    let r = ReleaseGroup::request(&ReleaseGroupOptions::everything());
    assert_eq!(r.name, "release-group");
    assert_eq!(r.inc, "annotation+artists+releases");
    assert_eq!(ReleaseGroup::request(&ReleaseGroupOptions::minimal()).inc, "");
    let options = ReleaseGroupOptions { annotation: false, artists: true, releases: true };
    assert_eq!(ReleaseGroup::request(&options).inc, "artists+releases");

    let r = Release::request(&ReleaseOptions::everything());
    assert_eq!(r.name, "release");
    assert_eq!(r.inc, "annotation+artists+labels+recordings");
    let mut options = ReleaseOptions::minimal();
    options.recordings = true;
    assert_eq!(Release::request(&options).inc, "recordings");
    options.annotation = true;
    assert_eq!(Release::request(&options).inc, "annotation+recordings");

    let r = Artist::request(&ArtistOptions::everything());
    assert_eq!(r.name, "artist");
    assert_eq!(r.inc, "aliases+annotation");
    assert_eq!(Artist::request(&ArtistOptions::minimal()).inc, "");

    let r = Label::request(&LabelOptions::everything());
    assert_eq!(r.name, "label");
    assert_eq!(r.inc, "aliases");
    assert_eq!(Label::request(&LabelOptions { aliases: false }).inc, "");

    let r = musicbrainz::entities::Area::request(&());
    assert_eq!(r.name, "area");
    assert_eq!(r.inc, "");
    assert_eq!(<Release as Resource>::name(), "release");
}

#[test]
fn lookup_urls() {
    let mbid = Mbid::from_str("a1411661-be21-4290-8dc1-50f3d8e3ea67").unwrap();
    assert_eq!(
        fetch_url::<musicbrainz::entities::Area>(&mbid, &()),
        "https://musicbrainz.org/ws/2/area/a1411661-be21-4290-8dc1-50f3d8e3ea67?inc="
    );
    let options = ReleaseGroupOptions { annotation: false, artists: true, releases: true };
    assert_eq!(
        fetch_url::<ReleaseGroup>(&mbid, &options),
        "https://musicbrainz.org/ws/2/release-group/a1411661-be21-4290-8dc1-50f3d8e3ea67?inc=artists+releases"
    );
    assert_eq!(
        ReleaseGroup::request(&options).get_by_mbid_url(&mbid),
        "https://musicbrainz.org/ws/2/release-group/a1411661-be21-4290-8dc1-50f3d8e3ea67?inc=artists+releases"
    );
    assert_eq!(
        get_url::<Place>(&mbid),
        "https://musicbrainz.org/ws/2/place/a1411661-be21-4290-8dc1-50f3d8e3ea67?inc=annotation+aliases"
    );
    assert_eq!(
        get_url::<Series>(&mbid),
        "https://musicbrainz.org/ws/2/series/a1411661-be21-4290-8dc1-50f3d8e3ea67?inc=annotation+aliases+work-rels"
    );
    assert_eq!(
        get_url::<Recording>(&mbid),
        "https://musicbrainz.org/ws/2/recording/a1411661-be21-4290-8dc1-50f3d8e3ea67?inc=artists+annotation+isrcs"
    );
    assert_eq!(
        get_url::<Event>(&mbid),
        "https://musicbrainz.org/ws/2/event/a1411661-be21-4290-8dc1-50f3d8e3ea67?inc=aliases+annotation"
    );
}

#[test]
fn records_keep_their_response() {
    let artist: Artist = fetch_entity(NECRONOMIDOL, ArtistOptions::everything()).unwrap();
    let again = artist.clone();
    assert_eq!(again.name(), artist.name());
    assert_eq!(artist.aliases().unwrap().len(), 0);
}

#[test]
fn languages() {
    let eng = Language::from_639_3("eng").unwrap();
    assert_eq!(eng.to_639_3(), "eng");
    assert_eq!(eng.to_639_1(), Some("en".to_string()));
    assert_eq!(eng.to_string(), "eng");
    let de = Language::from_639_1("de").unwrap();
    assert_eq!(de.to_639_3(), "deu");
    assert_eq!(de.to_639_1(), Some("de".to_string()));
    assert_eq!(de, Language::from_639_3("deu").unwrap());
    let gha = Language::from_639_3("gha").unwrap();
    assert_eq!(gha.to_639_1(), None);

    let err = Language::from_639_3("en").err().unwrap();
    assert_eq!(err.kind(), ErrorKind::ParseResponse);
    assert_eq!(err.message(), "Invalid ISO 639-3 code: en");
    let err = Language::from_639_1("eng").err().unwrap();
    assert_eq!(err.message(), "Invalid ISO 639-1 code: eng");
    assert!(Language::from_639_1("…").is_err());
    assert!(Language::from_639_3("").is_err());
}

#[test]
fn words_of_enumerations() {
    assert_eq!(ReleaseStatus::PseudoRelease.to_string(), "Pseudo-Release");
    assert_eq!(ReleaseGroupSecondaryType::DjMix.as_str(), "DJ-mix");
    assert_eq!(LabelType::ProductionBootleg.to_string(), "Bootleg Production");
    assert_eq!(PlaceType::IndoorArena.to_string(), "Indoor arena");
    assert_eq!(EventType::MasterclassClinic.to_string(), "Masterclass/Clinic");
    assert_eq!(SeriesType::ReleaseGroup.to_string(), "Release group");
    assert_eq!(musicbrainz::entities::AreaType::Island.to_string(), "Island");
    assert_eq!(AliasType::SearchHint.to_string(), "Search hint");
    assert_eq!(Gender::Other.to_string(), "Other");
}
