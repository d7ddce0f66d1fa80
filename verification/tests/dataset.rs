use city_datasets::dataset::Dataset;
use city_datasets::error::Error;

#[test]
fn render_gives_canonical_name() {
    assert_eq!(Dataset::NeighborhoodWays.name(), "neighborhood_ways");
}

#[test]
fn parse_render_round_trip() {
    let name = Dataset::NeighborhoodWays.name();
    assert_eq!(Dataset::parse(&name), Ok(Dataset::NeighborhoodWays));
}

#[test]
fn parse_rejects_unknown_names() {
    assert_eq!(
        Dataset::parse("neighbourhood_ways"),
        Err(Error::UnknownDatasetName)
    );
    assert_eq!(
        Dataset::parse("NEIGHBORHOOD_WAYS"),
        Err(Error::UnknownDatasetName)
    );
    assert_eq!(Dataset::parse(""), Err(Error::UnknownDatasetName));
}
