use city_datasets::city::City;
use city_datasets::error::Error;

#[test]
fn loads_one_city_per_row_in_order() {
    let text = "City,Country,State,uuid\n\
                Boulder,USA,CO,abc123\n\
                Paris,France,,def456\n\
                Valencia,Spain,Valencia,ghi789\n";
    let cities = City::from_csv(text).unwrap();
    assert_eq!(cities.len(), 3);
    assert_eq!(cities[0].name, "Boulder");
    assert_eq!(cities[0].country, "USA");
    assert_eq!(cities[0].state, "CO");
    assert_eq!(cities[0].uuid, "abc123");
    assert_eq!(cities[1].name, "Paris");
    assert_eq!(cities[1].uuid, "def456");
    assert_eq!(cities[2].name, "Valencia");
    assert_eq!(cities[2].state, "Valencia");
}

#[test]
fn present_state_is_kept() {
    let text = "City,Country,State,uuid\nBoulder,USA,CO,abc123\n";
    let cities = City::from_csv(text).unwrap();
    assert_eq!(cities[0].state, "CO");
}

#[test]
fn empty_state_falls_back_to_country() {
    let text = "City,Country,State,uuid\nParis,France,,def456\n";
    let cities = City::from_csv(text).unwrap();
    assert_eq!(cities[0].state, "France");
}

#[test]
fn columns_are_mapped_by_header_name() {
    let text = "uuid,State,Country,City\nabc123,CO,USA,Boulder\n";
    let cities = City::from_csv(text).unwrap();
    assert_eq!(cities[0].name, "Boulder");
    assert_eq!(cities[0].country, "USA");
    assert_eq!(cities[0].state, "CO");
    assert_eq!(cities[0].uuid, "abc123");
}

#[test]
fn quoted_field_with_comma_is_one_field() {
    let text = "City,Country,State,uuid\n\"Boulder, the town\",USA,CO,abc123\n";
    let cities = City::from_csv(text).unwrap();
    assert_eq!(cities[0].name, "Boulder, the town");
}

#[test]
fn missing_uuid_column_fails() {
    let text = "City,Country,State\nBoulder,USA,CO\n";
    assert_eq!(City::from_csv(text).unwrap_err(), Error::MalformedInput);
}

#[test]
fn missing_city_column_fails() {
    let text = "Town,Country,State,uuid\nBoulder,USA,CO,abc123\n";
    assert_eq!(City::from_csv(text).unwrap_err(), Error::MalformedInput);
}

#[test]
fn lowercase_city_column_does_not_match() {
    let text = "city,Country,State,uuid\nBoulder,USA,CO,abc123\n";
    assert_eq!(City::from_csv(text).unwrap_err(), Error::MalformedInput);
}

#[test]
fn short_row_fails() {
    let text = "City,Country,State,uuid\nBoulder,USA,CO\n";
    assert_eq!(City::from_csv(text).unwrap_err(), Error::MalformedInput);
}

#[test]
fn header_only_gives_no_cities() {
    let text = "City,Country,State,uuid\n";
    let cities = City::from_csv(text).unwrap();
    assert!(cities.is_empty());
}

#[test]
fn empty_text_fails() {
    assert_eq!(City::from_csv("").unwrap_err(), Error::MalformedInput);
}
