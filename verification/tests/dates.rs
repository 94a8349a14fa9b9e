use musicbrainz::entities::{FullDate, ParseDateError, PartialDate};
use musicbrainz::text::NumberError;

#[test]
fn full_date_of_partial_date() {
    assert_eq!(PartialDate::new(None, None, None).full_date(), None);
    assert_eq!(PartialDate::new(None, None, Some(2)).full_date(), None);
    assert_eq!(PartialDate::new(None, Some(2), Some(2)).full_date(), None);
    assert_eq!(
        PartialDate::new(Some(2017), Some(2), Some(2)).full_date(),
        Some(FullDate::new(2017, 2, 2))
    );
}

#[test]
fn date_accessors() {
    let date = PartialDate::new(Some(2017), Some(4), None);
    assert_eq!(date.year(), Some(2017));
    assert_eq!(date.month(), Some(4));
    assert_eq!(date.day(), None);
    let full = FullDate::new(2017, 4, 15);
    assert_eq!(full.year(), 2017);
    assert_eq!(full.month(), 4);
    assert_eq!(full.day(), 15);
}

#[test]
fn parse_valid() {
    assert_eq!(PartialDate::from_str("2017"), Ok(PartialDate::new(Some(2017), None, None)));
    assert_eq!(PartialDate::from_str("2017-4"), Ok(PartialDate::new(Some(2017), Some(4), None)));
    assert_eq!(
        PartialDate::from_str("2017-04-15"),
        Ok(PartialDate::new(Some(2017), Some(4), Some(15)))
    );
    assert_eq!(PartialDate::from_str("????-??-15"), Ok(PartialDate::new(None, None, Some(15))));
    assert_eq!(PartialDate::from_str("??"), Ok(PartialDate::new(None, None, None)));
    assert_eq!(PartialDate::from_str("+2017-+4"), Ok(PartialDate::new(Some(2017), Some(4), None)));
    assert_eq!(PartialDate::from_str("65535"), Ok(PartialDate::new(Some(65535), None, None)));
    assert_eq!(PartialDate::from_str("2017-300"), Ok(PartialDate::new(Some(2017), Some(44), None)));
}

#[test]
fn wrong_number_comps() {
    assert_eq!(
        PartialDate::from_str("1-1-1-1"),
        Err(ParseDateError::WrongNumberOfComponents(4))
    );
}

#[test]
fn invalid_components() {
    let invalid = Err(ParseDateError::ComponentInvalid(NumberError::InvalidDigit));
    assert_eq!(PartialDate::from_str("abc"), invalid);
    assert_eq!(PartialDate::from_str("2017-abc"), invalid);
    assert_eq!(PartialDate::from_str("2017-04-abc"), invalid);
    assert_eq!(PartialDate::from_str("???"), invalid);
    assert_eq!(PartialDate::from_str("+"), invalid);
    assert_eq!(PartialDate::from_str("1-1-1-x"), invalid);
    assert_eq!(
        PartialDate::from_str(""),
        Err(ParseDateError::ComponentInvalid(NumberError::Empty))
    );
    assert_eq!(
        PartialDate::from_str("2017-"),
        Err(ParseDateError::ComponentInvalid(NumberError::Empty))
    );
    assert_eq!(
        PartialDate::from_str("65536"),
        Err(ParseDateError::ComponentInvalid(NumberError::TooLarge))
    );
}

#[test]
fn date_to_string() {
    assert_eq!(PartialDate::new(Some(2017), None, None).to_string(), "2017-??-??");
    assert_eq!(PartialDate::new(Some(2017), Some(4), None).to_string(), "2017-04-??");
    assert_eq!(PartialDate::new(Some(2017), Some(4), Some(15)).to_string(), "2017-04-15");
    assert_eq!(PartialDate::new(Some(7), Some(123), Some(0)).to_string(), "0007-123-00");
    assert_eq!(PartialDate::new(None, None, None).to_string(), "????-??-??");
    assert_eq!(PartialDate::new(Some(65535), None, None).to_string(), "65535-??-??");
}

#[test]
fn date_errors_in_words() {
    let e = ParseDateError::WrongNumberOfComponents(4);
    assert_eq!(e.description(), "wrong number of components");
    assert_eq!(e.to_string(), "ParseDateError: Wrong number of components: 4");
    let e = ParseDateError::ComponentInvalid(NumberError::InvalidDigit);
    assert_eq!(e.description(), "invalid component");
    assert_eq!(e.to_string(), "ParseDateError: Component invalid: InvalidDigit");
    assert_eq!(NumberError::Empty.as_str(), "Empty");
    assert_eq!(NumberError::TooLarge.as_str(), "TooLarge");
}

#[test]
fn date_text_parses_back() {
    let dates = [
        PartialDate::new(None, None, None),
        PartialDate::new(Some(0), Some(0), Some(0)),
        PartialDate::new(Some(2017), None, Some(15)),
        PartialDate::new(None, Some(255), None),
        PartialDate::new(Some(65535), Some(12), Some(31)),
        PartialDate::new(Some(7), Some(4), Some(255)),
    ];
    for date in dates.iter() {
        assert_eq!(PartialDate::from_str(date.to_string().as_str()), Ok(*date));
    }
}
