use city_datasets::city::City;

#[test]
fn new_keeps_given_state() {
    let c = City::new("Boulder", "USA", Some("CO"), "abc123");
    assert_eq!(c.name, "Boulder");
    assert_eq!(c.country, "USA");
    assert_eq!(c.state, "CO");
    assert_eq!(c.uuid, "abc123");
}

#[test]
fn new_falls_back_to_country_without_state() {
    let c = City::new("Paris", "France", None, "def456");
    assert_eq!(c.state, "France");
}

#[test]
fn new_falls_back_to_country_on_empty_state() {
    let c = City::new("Paris", "France", Some(""), "def456");
    assert_eq!(c.state, "France");
    assert_eq!(c.full_name(), "France-France-Paris");
}

#[test]
fn full_name_joins_country_state_name() {
    let c = City::new("Boulder", "USA", Some("CO"), "abc123");
    assert_eq!(c.full_name(), "USA-CO-Boulder");
}

#[test]
fn full_name_of_city_without_state() {
    let c = City::new("Paris", "France", None, "def456");
    assert_eq!(c.full_name(), "France-France-Paris");
}

#[test]
fn zip_name_appends_zip_extension() {
    let c = City::new("Boulder", "USA", Some("CO"), "abc123");
    assert_eq!(c.zip_name(), "USA-CO-Boulder.zip");
    let p = City::new("Paris", "France", None, "def456");
    assert_eq!(p.zip_name(), "France-France-Paris.zip");
}
