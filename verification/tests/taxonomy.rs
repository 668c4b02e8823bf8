use gtfs_translations::{
    table_and_field_to_enum, AgencyFields, AreaFields, CalendarFields, FareProductFields,
    FeedInfoFields, RouteFields, StopFields, StopTimeFields, TranslatableField, TripFields,
};

#[test]
fn agency_columns_are_translatable() {
    assert_eq!(
        table_and_field_to_enum("agency", "agency_name"),
        Some(TranslatableField::Agency(AgencyFields::Name))
    );
    assert_eq!(
        table_and_field_to_enum("agency", "agency_url"),
        Some(TranslatableField::Agency(AgencyFields::Url))
    );
    assert_eq!(
        table_and_field_to_enum("agency", "agency_fare_url"),
        Some(TranslatableField::Agency(AgencyFields::FareUrl))
    );
}

#[test]
fn areas_columns_are_translatable() {
    assert_eq!(
        table_and_field_to_enum("areas", "area_name"),
        Some(TranslatableField::Areas(AreaFields::Name))
    );
}

#[test]
fn routes_columns_are_translatable() {
    assert_eq!(
        table_and_field_to_enum("routes", "route_long_name"),
        Some(TranslatableField::Routes(RouteFields::LongName))
    );
    assert_eq!(
        table_and_field_to_enum("routes", "route_short_name"),
        Some(TranslatableField::Routes(RouteFields::ShortName))
    );
    assert_eq!(
        table_and_field_to_enum("routes", "route_url"),
        Some(TranslatableField::Routes(RouteFields::Url))
    );
}

#[test]
fn route_description_is_not_in_the_registry() {
    assert_eq!(table_and_field_to_enum("routes", "route_desc"), None);
}

#[test]
fn stop_times_columns_are_translatable() {
    assert_eq!(
        table_and_field_to_enum("stop_times", "stop_headsign"),
        Some(TranslatableField::StopTimes(StopTimeFields::Headsign))
    );
}

#[test]
fn stops_columns_are_translatable() {
    assert_eq!(
        table_and_field_to_enum("stops", "stop_code"),
        Some(TranslatableField::Stops(StopFields::Code))
    );
    assert_eq!(
        table_and_field_to_enum("stops", "stop_name"),
        Some(TranslatableField::Stops(StopFields::Name))
    );
    assert_eq!(
        table_and_field_to_enum("stops", "tts_stop_name"),
        Some(TranslatableField::Stops(StopFields::TtsName))
    );
    assert_eq!(
        table_and_field_to_enum("stops", "stop_desc"),
        Some(TranslatableField::Stops(StopFields::Desc))
    );
    assert_eq!(
        table_and_field_to_enum("stops", "platform_code"),
        Some(TranslatableField::Stops(StopFields::PlatformCode))
    );
}

#[test]
fn trips_columns_are_translatable() {
    assert_eq!(
        table_and_field_to_enum("trips", "trip_headsign"),
        Some(TranslatableField::Trips(TripFields::Headsign))
    );
    assert_eq!(
        table_and_field_to_enum("trips", "trip_short_name"),
        Some(TranslatableField::Trips(TripFields::ShortName))
    );
}

#[test]
fn calendar_columns_are_translatable() {
    assert_eq!(
        table_and_field_to_enum("calendar", "service_id"),
        Some(TranslatableField::Calendar(CalendarFields::ServiceId))
    );
}

#[test]
fn fare_products_columns_are_translatable() {
    assert_eq!(
        table_and_field_to_enum("fare_products", "fare_product_name"),
        Some(TranslatableField::FareProducts(FareProductFields::ProductName))
    );
}

#[test]
fn feed_info_columns_are_translatable() {
    assert_eq!(
        table_and_field_to_enum("feed_info", "feed_publisher_name"),
        Some(TranslatableField::FeedInfo(FeedInfoFields::PublisherName))
    );
}

#[test]
fn unknown_table_is_not_translatable() {
    assert_eq!(table_and_field_to_enum("unknown_table", "stop_name"), None);
    assert_eq!(table_and_field_to_enum("", ""), None);
    assert_eq!(table_and_field_to_enum("shapes", "shape_id"), None);
}

#[test]
fn unknown_column_of_a_known_table_is_not_translatable() {
    assert_eq!(table_and_field_to_enum("stops", "stop_id"), None);
    assert_eq!(table_and_field_to_enum("agency", ""), None);
    assert_eq!(table_and_field_to_enum("trips", "trip_id"), None);
}

#[test]
fn a_column_is_only_found_under_its_own_table() {
    assert_eq!(table_and_field_to_enum("routes", "stop_name"), None);
    assert_eq!(table_and_field_to_enum("stops", "trip_headsign"), None);
    assert_eq!(table_and_field_to_enum("stop_times", "trip_headsign"), None);
    assert_eq!(table_and_field_to_enum("trips", "stop_headsign"), None);
}

#[test]
fn names_are_matched_exactly() {
    assert_eq!(table_and_field_to_enum("Stops", "stop_name"), None);
    assert_eq!(table_and_field_to_enum("stops", "STOP_NAME"), None);
    assert_eq!(table_and_field_to_enum("stops ", "stop_name"), None);
    assert_eq!(table_and_field_to_enum("stops", "stop_name "), None);
    assert_eq!(table_and_field_to_enum("stops", "name"), None);
    assert_eq!(table_and_field_to_enum("stop", "stop_name"), None);
    assert_eq!(table_and_field_to_enum("stops", "stop_nam\u{e9}"), None);
}
