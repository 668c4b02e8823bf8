//! The translatable fields: which column of which table may carry a
//! translation, and the lookup from the names in a row to the field.

use vstd::prelude::*;

use crate::text::str_eq;

verus! {

/// Translatable columns of `stop_times`.
#[derive(Debug, Hash, PartialEq, Eq, Structural, Clone, Copy)]
pub enum StopTimeFields {
    Headsign,
}

/// Translatable columns of `routes`.
#[derive(Debug, Hash, PartialEq, Eq, Structural, Clone, Copy)]
pub enum RouteFields {
    Desc,
    LongName,
    ShortName,
    Url,
}

/// Translatable columns of `calendar`.
#[derive(Debug, Hash, PartialEq, Eq, Structural, Clone, Copy)]
pub enum CalendarFields {
    ServiceId,
}

/// Translatable columns of `feed_info`.
#[derive(Debug, Hash, PartialEq, Eq, Structural, Clone, Copy)]
pub enum FeedInfoFields {
    PublisherName,
}

/// Translatable columns of `areas`.
#[derive(Debug, Hash, PartialEq, Eq, Structural, Clone, Copy)]
pub enum AreaFields {
    Name,
}

/// Translatable columns of `agency`.
#[derive(Debug, Hash, PartialEq, Eq, Structural, Clone, Copy)]
pub enum AgencyFields {
    Name,
    FareUrl,
    Url,
}

/// Translatable columns of `fare_products`.
#[derive(Debug, Hash, PartialEq, Eq, Structural, Clone, Copy)]
pub enum FareProductFields {
    ProductName,
}

/// Translatable columns of `trips`.
#[derive(Debug, Hash, PartialEq, Eq, Structural, Clone, Copy)]
pub enum TripFields {
    Headsign,
    ShortName,
}

/// Translatable columns of `stops`.
#[derive(Debug, Hash, PartialEq, Eq, Structural, Clone, Copy)]
pub enum StopFields {
    Code,
    Name,
    TtsName,
    PlatformCode,
    Desc,
}

/// A field that a translation can be given for: a table and one of its
/// columns.
#[derive(Debug, Hash, PartialEq, Eq, Structural, Clone, Copy)]
pub enum TranslatableField {
    Agency(AgencyFields),
    Areas(AreaFields),
    Calendar(CalendarFields),
    FareProducts(FareProductFields),
    FeedInfo(FeedInfoFields),
    Routes(RouteFields),
    StopTimes(StopTimeFields),
    Stops(StopFields),
    Trips(TripFields),
}

impl DeepView for TranslatableField {
    type V = TranslatableField;

    open spec fn deep_view(&self) -> TranslatableField {
        *self
    }
}

impl TranslatableField {
    /// The name of the table that the field belongs to.
    pub open spec fn table(self) -> Seq<char> {
        match self {
            TranslatableField::Agency(_) => "agency"@,
            TranslatableField::Areas(_) => "areas"@,
            TranslatableField::Calendar(_) => "calendar"@,
            TranslatableField::FareProducts(_) => "fare_products"@,
            TranslatableField::FeedInfo(_) => "feed_info"@,
            TranslatableField::Routes(_) => "routes"@,
            TranslatableField::StopTimes(_) => "stop_times"@,
            TranslatableField::Stops(_) => "stops"@,
            TranslatableField::Trips(_) => "trips"@,
        }
    }

    /// The name of the field's column, for the fields that the registry
    /// lists. The description of a route is the one field that it does not
    /// list.
    pub open spec fn column(self) -> Option<Seq<char>> {
        match self {
            TranslatableField::Agency(AgencyFields::Name) => Some("agency_name"@),
            TranslatableField::Agency(AgencyFields::Url) => Some("agency_url"@),
            TranslatableField::Agency(AgencyFields::FareUrl) => Some("agency_fare_url"@),
            TranslatableField::Areas(AreaFields::Name) => Some("area_name"@),
            TranslatableField::Routes(RouteFields::LongName) => Some("route_long_name"@),
            TranslatableField::Routes(RouteFields::ShortName) => Some("route_short_name"@),
            TranslatableField::Routes(RouteFields::Url) => Some("route_url"@),
            TranslatableField::Routes(RouteFields::Desc) => None,
            TranslatableField::StopTimes(StopTimeFields::Headsign) => Some("stop_headsign"@),
            TranslatableField::Stops(StopFields::Code) => Some("stop_code"@),
            TranslatableField::Stops(StopFields::Name) => Some("stop_name"@),
            TranslatableField::Stops(StopFields::TtsName) => Some("tts_stop_name"@),
            TranslatableField::Stops(StopFields::Desc) => Some("stop_desc"@),
            TranslatableField::Stops(StopFields::PlatformCode) => Some("platform_code"@),
            TranslatableField::Trips(TripFields::Headsign) => Some("trip_headsign"@),
            TranslatableField::Trips(TripFields::ShortName) => Some("trip_short_name"@),
            TranslatableField::Calendar(CalendarFields::ServiceId) => Some("service_id"@),
            TranslatableField::FareProducts(FareProductFields::ProductName) => Some(
                "fare_product_name"@,
            ),
            TranslatableField::FeedInfo(FeedInfoFields::PublisherName) => Some(
                "feed_publisher_name"@,
            ),
        }
    }
}

/// The field that a table name and a column name stand for, if the registry
/// lists the pair. Names are compared exactly: no other spelling of a listed
/// name is recognised.
pub open spec fn translatable_field(table: Seq<char>, column: Seq<char>) -> Option<
    TranslatableField,
> {
    if table == "agency"@ {
        if column == "agency_name"@ {
            Some(TranslatableField::Agency(AgencyFields::Name))
        } else if column == "agency_url"@ {
            Some(TranslatableField::Agency(AgencyFields::Url))
        } else if column == "agency_fare_url"@ {
            Some(TranslatableField::Agency(AgencyFields::FareUrl))
        } else {
            None
        }
    } else if table == "areas"@ {
        if column == "area_name"@ {
            Some(TranslatableField::Areas(AreaFields::Name))
        } else {
            None
        }
    } else if table == "routes"@ {
        if column == "route_long_name"@ {
            Some(TranslatableField::Routes(RouteFields::LongName))
        } else if column == "route_short_name"@ {
            Some(TranslatableField::Routes(RouteFields::ShortName))
        } else if column == "route_url"@ {
            Some(TranslatableField::Routes(RouteFields::Url))
        } else {
            None
        }
    } else if table == "stop_times"@ {
        if column == "stop_headsign"@ {
            Some(TranslatableField::StopTimes(StopTimeFields::Headsign))
        } else {
            None
        }
    } else if table == "stops"@ {
        if column == "stop_code"@ {
            Some(TranslatableField::Stops(StopFields::Code))
        } else if column == "stop_name"@ {
            Some(TranslatableField::Stops(StopFields::Name))
        } else if column == "tts_stop_name"@ {
            Some(TranslatableField::Stops(StopFields::TtsName))
        } else if column == "stop_desc"@ {
            Some(TranslatableField::Stops(StopFields::Desc))
        } else if column == "platform_code"@ {
            Some(TranslatableField::Stops(StopFields::PlatformCode))
        } else {
            None
        }
    } else if table == "trips"@ {
        if column == "trip_headsign"@ {
            Some(TranslatableField::Trips(TripFields::Headsign))
        } else if column == "trip_short_name"@ {
            Some(TranslatableField::Trips(TripFields::ShortName))
        } else {
            None
        }
    } else if table == "calendar"@ {
        if column == "service_id"@ {
            Some(TranslatableField::Calendar(CalendarFields::ServiceId))
        } else {
            None
        }
    } else if table == "fare_products"@ {
        if column == "fare_product_name"@ {
            Some(TranslatableField::FareProducts(FareProductFields::ProductName))
        } else {
            None
        }
    } else if table == "feed_info"@ {
        if column == "feed_publisher_name"@ {
            Some(TranslatableField::FeedInfo(FeedInfoFields::PublisherName))
        } else {
            None
        }
    } else {
        None
    }
}

/// Looks up the field that a table name and a column name stand for.
///
/// Returns `None` for an unknown table and for an unknown column of a known
/// table alike.
pub fn table_and_field_to_enum(table_name: &str, field_name: &str) -> (field: Option<
    TranslatableField,
>)
    ensures
        field == translatable_field(table_name@, field_name@),
{
    if str_eq(table_name, "agency") {
        if str_eq(field_name, "agency_name") {
            Some(TranslatableField::Agency(AgencyFields::Name))
        } else if str_eq(field_name, "agency_url") {
            Some(TranslatableField::Agency(AgencyFields::Url))
        } else if str_eq(field_name, "agency_fare_url") {
            Some(TranslatableField::Agency(AgencyFields::FareUrl))
        } else {
            None
        }
    } else if str_eq(table_name, "areas") {
        if str_eq(field_name, "area_name") {
            Some(TranslatableField::Areas(AreaFields::Name))
        } else {
            None
        }
    } else if str_eq(table_name, "routes") {
        if str_eq(field_name, "route_long_name") {
            Some(TranslatableField::Routes(RouteFields::LongName))
        } else if str_eq(field_name, "route_short_name") {
            Some(TranslatableField::Routes(RouteFields::ShortName))
        } else if str_eq(field_name, "route_url") {
            Some(TranslatableField::Routes(RouteFields::Url))
        } else {
            None
        }
    } else if str_eq(table_name, "stop_times") {
        if str_eq(field_name, "stop_headsign") {
            Some(TranslatableField::StopTimes(StopTimeFields::Headsign))
        } else {
            None
        }
    } else if str_eq(table_name, "stops") {
        if str_eq(field_name, "stop_code") {
            Some(TranslatableField::Stops(StopFields::Code))
        } else if str_eq(field_name, "stop_name") {
            Some(TranslatableField::Stops(StopFields::Name))
        } else if str_eq(field_name, "tts_stop_name") {
            Some(TranslatableField::Stops(StopFields::TtsName))
        } else if str_eq(field_name, "stop_desc") {
            Some(TranslatableField::Stops(StopFields::Desc))
        } else if str_eq(field_name, "platform_code") {
            Some(TranslatableField::Stops(StopFields::PlatformCode))
        } else {
            None
        }
    } else if str_eq(table_name, "trips") {
        if str_eq(field_name, "trip_headsign") {
            Some(TranslatableField::Trips(TripFields::Headsign))
        } else if str_eq(field_name, "trip_short_name") {
            Some(TranslatableField::Trips(TripFields::ShortName))
        } else {
            None
        }
    } else if str_eq(table_name, "calendar") {
        if str_eq(field_name, "service_id") {
            Some(TranslatableField::Calendar(CalendarFields::ServiceId))
        } else {
            None
        }
    } else if str_eq(table_name, "fare_products") {
        if str_eq(field_name, "fare_product_name") {
            Some(TranslatableField::FareProducts(FareProductFields::ProductName))
        } else {
            None
        }
    } else if str_eq(table_name, "feed_info") {
        if str_eq(field_name, "feed_publisher_name") {
            Some(TranslatableField::FeedInfo(FeedInfoFields::PublisherName))
        } else {
            None
        }
    } else {
        None
    }
}

/// A field that the lookup returns bears the names that were looked up: the
/// lookup never guesses, and it never returns a field that the registry does
/// not list.
pub proof fn lemma_lookup_gives_names(table: Seq<char>, column: Seq<char>)
    ensures
        translatable_field(table, column) matches Some(field) ==> field.table() == table
            && field.column() == Some(column),
{
}

/// Every field that the registry lists is found under its own names: no two
/// listed fields share a table name and a column name.
pub proof fn lemma_names_give_field(field: TranslatableField)
    ensures
        field.column() matches Some(column) ==> translatable_field(field.table(), column) == Some(
            field,
        ),
{
    // What the names are: their lengths, and a letter where two have one length.
    reveal_strlit("agency");
    reveal_strlit("areas");
    reveal_strlit("routes");
    reveal_strlit("stop_times");
    reveal_strlit("stops");
    reveal_strlit("trips");
    reveal_strlit("calendar");
    reveal_strlit("fare_products");
    reveal_strlit("feed_info");
    reveal_strlit("agency_name");
    reveal_strlit("agency_url");
    reveal_strlit("agency_fare_url");
    reveal_strlit("route_long_name");
    reveal_strlit("route_short_name");
    reveal_strlit("route_url");
    reveal_strlit("stop_code");
    reveal_strlit("stop_name");
    reveal_strlit("tts_stop_name");
    reveal_strlit("stop_desc");
    reveal_strlit("platform_code");
    reveal_strlit("trip_headsign");
    reveal_strlit("trip_short_name");
    assert("agency"@.len() == 6);
    assert("areas"@.len() == 5);
    assert("routes"@.len() == 6);
    assert("stop_times"@.len() == 10);
    assert("stops"@.len() == 5);
    assert("trips"@.len() == 5);
    assert("calendar"@.len() == 8);
    assert("fare_products"@.len() == 13);
    assert("feed_info"@.len() == 9);
    assert("agency_name"@.len() == 11);
    assert("agency_url"@.len() == 10);
    assert("agency_fare_url"@.len() == 15);
    assert("route_long_name"@.len() == 15);
    assert("route_short_name"@.len() == 16);
    assert("route_url"@.len() == 9);
    assert("stop_code"@.len() == 9);
    assert("stop_name"@.len() == 9);
    assert("tts_stop_name"@.len() == 13);
    assert("stop_desc"@.len() == 9);
    assert("platform_code"@.len() == 13);
    assert("trip_headsign"@.len() == 13);
    assert("trip_short_name"@.len() == 15);
    assert("agency"@[0] != "routes"@[0]);
    assert("areas"@[0] != "stops"@[0]);
    assert("areas"@[0] != "trips"@[0]);
    assert("stops"@[0] != "trips"@[0]);
    assert("stop_code"@[5] != "stop_name"@[5]);
    assert("stop_code"@[5] != "stop_desc"@[5]);
    assert("stop_name"@[5] != "stop_desc"@[5]);
    assert("tts_stop_name"@[0] != "platform_code"@[0]);
}

/// The lookup returns a field exactly for the pairs of names that the
/// registry lists under that field.
pub proof fn lemma_lookup_is_the_registry(
    table: Seq<char>,
    column: Seq<char>,
    field: TranslatableField,
)
    ensures
        translatable_field(table, column) == Some(field) <==> (field.table() == table
            && field.column() == Some(column)),
{
    lemma_lookup_gives_names(table, column);
    lemma_names_give_field(field);
}

} // verus!
