use bysykler::bysykler::{
    client_identifier, system_info_url, system_options, system_view, Bysykler, Msg, RenderedPage,
};
use bysykler::fetch::{FetchError, FetchState};
use bysykler::gbfs::{Gbfs, SystemInformation};
use bysykler::timezone::render_timestamp;

fn payload_with_timezone(timezone: &str) -> Gbfs<SystemInformation> {
    Gbfs {
        last_updated: 1431648000,
        data: SystemInformation {
            system_id: "oslo".to_string(),
            language: "nb".to_string(),
            name: "Oslo Bysykkel".to_string(),
            operator: "UIP Oslo Bysykkel AS".to_string(),
            timezone: timezone.to_string(),
            phone_number: "+4791589700".to_string(),
            email: "post@oslobysykkel.no".to_string(),
        },
    }
}

#[test]
fn url_is_derived_from_the_selected_identifier() {
    assert_eq!(
        system_info_url("oslobysykkel.no"),
        "https://gbfs.urbansharing.com/oslobysykkel.no/system_information.json"
    );
    assert_eq!(
        system_info_url("bergenbysykkel.no"),
        "https://gbfs.urbansharing.com/bergenbysykkel.no/system_information.json"
    );
}

#[test]
fn client_identifier_is_fixed() {
    assert_eq!(client_identifier(), "stigjb-norske-api-er");
}

#[test]
fn options_are_listed_in_display_order() {
    let options = system_options();
    assert_eq!(
        options,
        vec![
            "oslobysykkel.no",
            "bergenbysykkel.no",
            "trondheimbysykkel.no",
            "edinburghcyclehire.com",
            "oslovintersykkel.no",
        ]
    );
}

#[test]
fn utc_rendering_has_exact_text() {
    assert_eq!(
        render_timestamp(1431648000, "UTC").as_deref(),
        Some("2015-05-15 00:00:00 UTC")
    );
}

#[test]
fn known_zone_shifts_the_rendering() {
    let in_oslo = render_timestamp(1431648000, "Europe/Oslo").unwrap();
    assert_eq!(in_oslo, "2015-05-15 02:00:00 CEST");
}

#[test]
fn unknown_zone_falls_back_to_utc() {
    let fallback = render_timestamp(1431648000, "Ikke/EnSone").unwrap();
    let utc = render_timestamp(1431648000, "UTC").unwrap();
    assert_eq!(fallback, utc);
}

#[test]
fn out_of_range_instant_renders_nothing() {
    assert_eq!(render_timestamp(-1, "UTC"), None);
}

#[test]
fn system_view_copies_every_field() {
    let v = system_view(&payload_with_timezone("Europe/Oslo"));
    assert_eq!(v.system_id, "oslo");
    assert_eq!(v.language, "nb");
    assert_eq!(v.name, "Oslo Bysykkel");
    assert_eq!(v.operator, "UIP Oslo Bysykkel AS");
    assert_eq!(v.timezone, "Europe/Oslo");
    assert_eq!(v.phone_number, "+4791589700");
    assert_eq!(v.email, "post@oslobysykkel.no");
    assert_eq!(v.last_status, "2015-05-15 02:00:00 CEST");
}

#[test]
fn system_view_with_unparsable_zone_renders_utc() {
    let v = system_view(&payload_with_timezone("Not/AZone"));
    assert_eq!(v.timezone, "Not/AZone");
    assert_eq!(v.last_status, "2015-05-15 00:00:00 UTC");
}

#[test]
fn view_follows_the_lifecycle() {
    let mut b = Bysykler::create();
    assert!(matches!(b.view(), RenderedPage::Nothing));
    b.update(Msg::SystemChange("oslobysykkel.no".to_string()));
    assert!(matches!(b.view(), RenderedPage::Loading));
    b.complete_fetch(0, Ok(payload_with_timezone("Europe/Oslo")));
    match b.view() {
        RenderedPage::System(v) => assert_eq!(v.system_id, "oslo"),
        other => panic!("expected System, got {:?}", other),
    }
    b.update(Msg::SetFetchState(FetchState::Failed(FetchError::Transport(
        "connection reset".to_string(),
    ))));
    match b.view() {
        RenderedPage::Failure(m) => assert_eq!(m, "connection reset"),
        other => panic!("expected Failure, got {:?}", other),
    }
}
