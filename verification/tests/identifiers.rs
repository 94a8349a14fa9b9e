use musicbrainz::entities::{Mbid, ParseMbidError};

#[test]
fn mbid_round_trip() {
    let text = "739de9cd-7e81-4bb0-9fdb-0feb7ea709c7";
    let id = Mbid::from_str(text).unwrap();
    assert_eq!(id.as_u128(), 0x739de9cd_7e81_4bb0_9fdb_0feb7ea709c7u128);
    assert_eq!(id.to_string(), text);
    assert_eq!(Mbid::from_str(id.to_string().as_str()), Ok(id));
}

#[test]
fn mbid_accepts_every_uuid_form() {
    let id = Mbid::from_u128(0x00112233_4455_6677_8899_aabbccddeeffu128);
    assert_eq!(id.to_string(), "00112233-4455-6677-8899-aabbccddeeff");
    assert_eq!(Mbid::from_str("00112233445566778899aabbccddeeff"), Ok(id));
    assert_eq!(Mbid::from_str("00112233-4455-6677-8899-AABBCCDDEEFF"), Ok(id));
    assert_eq!(Mbid::from_str("urn:uuid:00112233-4455-6677-8899-aabbccddeeff"), Ok(id));
    assert_eq!(Mbid::from_u128(0).to_string(), "00000000-0000-0000-0000-000000000000");
    assert_eq!(Mbid::from_u128(u128::MAX).to_string(), "ffffffff-ffff-ffff-ffff-ffffffffffff");
}

#[test]
fn mbid_rejects_other_text() {
    let bad = [
        "",
        "not an mbid",
        "00112233-4455-6677-8899-aabbccddeef",
        "00112233-4455-6677-8899-aabbccddeeff0",
        "00112233-4455-6677-8899aabbccddeeff-",
        "0011223-34455-6677-8899-aabbccddeeff",
        "00112233_4455_6677_8899_aabbccddeeff",
        "g0112233-4455-6677-8899-aabbccddeeff",
        "0011223344556677-8899-aabbccddeeff",
        "00112233-4455-6677-8899-aabbccddeeff ",
        "{00112233-4455-6677-8899-aabbccddeeff}",
        "urn:uuid:00112233445566778899aabbccddeeff",
        "URN:UUID:00112233-4455-6677-8899-aabbccddeeff",
        "霊魂消滅",
        "0011223344556677889\u{e9}aabbccddeeff",
    ];
    for text in bad.iter() {
        assert_eq!(Mbid::from_str(text), Err(ParseMbidError {}), "{}", text);
    }
}
