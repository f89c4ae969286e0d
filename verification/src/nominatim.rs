//! A place as the Nominatim geocoding service describes it, and the
//! addresses under which the service is asked.

use crate::text::{decimal, decimal_string};
use vstd::prelude::*;
use vstd::string::*;

verus! {

/// One place found by the geocoding service.
#[derive(Debug, PartialEq, Eq, Hash)]
pub struct NominatimLookup {
    place_id: i64,
    lat: String,
    lon: String,
    name: String,
    display_name: String,
}

/// The mathematical value of a [`NominatimLookup`].
pub struct NominatimView {
    pub place_id: int,
    pub lat: Seq<char>,
    pub lon: Seq<char>,
    pub name: Seq<char>,
    pub display_name: Seq<char>,
}

impl View for NominatimLookup {
    type V = NominatimView;

    closed spec fn view(&self) -> NominatimView {
        NominatimView {
            place_id: self.place_id as int,
            lat: self.lat@,
            lon: self.lon@,
            name: self.name@,
            display_name: self.display_name@,
        }
    }
}

impl Clone for NominatimLookup {
    fn clone(&self) -> (copy: Self)
        ensures
            copy@ == self@,
    {
        NominatimLookup {
            place_id: self.place_id,
            lat: self.lat.clone(),
            lon: self.lon.clone(),
            name: self.name.clone(),
            display_name: self.display_name.clone(),
        }
    }
}

/// The address under which the service is asked for the places that match
/// `query`.
pub open spec fn search_address(query: Seq<char>) -> Seq<char> {
    "https://nominatim.openstreetmap.org/search?q="@ + query + "&format=jsonv2"@
}

/// The address under which the service is asked for the place at the given
/// latitude and longitude.
pub open spec fn reverse_address(lat: Seq<char>, lon: Seq<char>) -> Seq<char> {
    "https://nominatim.openstreetmap.org/reverse?format=jsonv2&lat="@ + lat + "&lon="@ + lon
}

impl NominatimLookup {
    /// A place with the given description.
    pub fn new(place_id: i64, lat: String, lon: String, name: String, display_name: String) -> (place:
        Self)
        ensures
            place@ == (NominatimView {
                place_id: place_id as int,
                lat: lat@,
                lon: lon@,
                name: name@,
                display_name: display_name@,
            }),
    {
        NominatimLookup { place_id, lat, lon, name, display_name }
    }

    /// The number under which the service knows the place.
    pub fn place_id(&self) -> (id: i64)
        ensures
            id == self@.place_id,
    {
        self.place_id
    }

    /// The latitude, as the service wrote it.
    pub fn lat(&self) -> (lat: &str)
        ensures
            lat@ == self@.lat,
    {
        self.lat.as_str()
    }

    /// The longitude, as the service wrote it.
    pub fn lon(&self) -> (lon: &str)
        ensures
            lon@ == self@.lon,
    {
        self.lon.as_str()
    }

    /// The full description of the place.
    pub fn display_name(&self) -> (display_name: &str)
        ensures
            display_name@ == self@.display_name,
    {
        self.display_name.as_str()
    }

    /// The short name of the place.
    pub fn name(&self) -> (name: &str)
        ensures
            name@ == self@.name,
    {
        self.name.as_str()
    }

    /// The place's number, in decimal.
    pub fn id_str(&self) -> (id: String)
        ensures
            id@ == decimal(self@.place_id),
    {
        decimal_string(self.place_id)
    }

    /// The address under which the service is asked for the places that
    /// match `query`.
    pub fn search_url(query: &str) -> (url: String)
        ensures
            url@ == search_address(query@),
    {
        String::from_str("https://nominatim.openstreetmap.org/search?q=").concat(query).concat(
            "&format=jsonv2",
        )
    }

    /// The address under which the service is asked for the place at the
    /// given latitude and longitude, both written in decimal.
    pub fn reverse_url(lat: &str, lon: &str) -> (url: String)
        ensures
            url@ == reverse_address(lat@, lon@),
    {
        String::from_str("https://nominatim.openstreetmap.org/reverse?format=jsonv2&lat=").concat(
            lat,
        ).concat("&lon=").concat(lon)
    }
}

} // verus!
