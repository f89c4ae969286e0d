use minions::nominatim::NominatimLookup;

fn place() -> NominatimLookup {
    NominatimLookup::new(
        282417,
        "13.6989939".to_string(),
        "-89.1914249".to_string(),
        "San Salvador".to_string(),
        "San Salvador, El Salvador".to_string(),
    )
}

#[test]
fn getters_hand_out_the_fields() {
    let place = place();
    assert_eq!(place.place_id(), 282417);
    assert_eq!(place.lat(), "13.6989939");
    assert_eq!(place.lon(), "-89.1914249");
    assert_eq!(place.name(), "San Salvador");
    assert_eq!(place.display_name(), "San Salvador, El Salvador");
}

#[test]
fn id_str_is_the_number_in_decimal() {
    assert_eq!(place().id_str(), "282417");
    let nowhere =
        NominatimLookup::new(-5, String::new(), String::new(), String::new(), String::new());
    assert_eq!(nowhere.id_str(), "-5");
    let origin =
        NominatimLookup::new(0, String::new(), String::new(), String::new(), String::new());
    assert_eq!(origin.id_str(), "0");
}

#[test]
fn clone_keeps_everything() {
    assert_eq!(place().clone(), place());
}

#[test]
fn search_url_holds_the_query() {
    assert_eq!(
        NominatimLookup::search_url("San Salvador"),
        "https://nominatim.openstreetmap.org/search?q=San Salvador&format=jsonv2"
    );
    assert_eq!(
        NominatimLookup::search_url(""),
        "https://nominatim.openstreetmap.org/search?q=&format=jsonv2"
    );
}

#[test]
fn reverse_url_holds_the_coordinates() {
    assert_eq!(
        NominatimLookup::reverse_url("13.69", "-89.19"),
        "https://nominatim.openstreetmap.org/reverse?format=jsonv2&lat=13.69&lon=-89.19"
    );
}
