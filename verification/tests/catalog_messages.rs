use kopuz::api;
use kopuz::catalog_messages::{catalog_page_from_proto, catalog_page_to_proto};
use kopuz::settings_messages::{radio_station_from_proto, radio_station_to_proto};

#[test]
fn catalog_and_radio_rows_round_trip() {
    let page = api::CatalogPage {
        shelves: vec![api::CatalogShelf {
            title: "Listen again".into(),
            strapline: Some("for you".into()),
            more_ref: Some("MORE".into()),
            list: true,
            items: vec![
                api::CatalogItem {
                    kind: api::CatalogItemKind::Album,
                    id: "MPRE1".into(),
                    title: "An album".into(),
                    subtitle: Some("An artist".into()),
                    artwork: Some("MPRE1".into()),
                    track: None,
                },
                api::CatalogItem {
                    kind: api::CatalogItemKind::Track,
                    id: "t1".into(),
                    title: "Track".into(),
                    subtitle: None,
                    artwork: None,
                    track: Some(api::TrackInfo {
                        key: "t1".into(),
                        uid: "u".into(),
                        title: "Track".into(),
                        artist: "A".into(),
                        album: "B".into(),
                        album_id: "b".into(),
                        duration_ms: Some(15000),
                        khz: 44,
                        bitrate: 128,
                        track_number: None,
                        disc_number: Some(1),
                        kind: api::TrackKind::Normal,
                        seekable: true,
                        artwork: None,
                        offline: false,
                        service: None,
                        artists: vec![],
                        musicbrainz_release_id: None,
                        musicbrainz_recording_id: None,
                        musicbrainz_track_id: None,
                        playlist_item_id: None,
                        source: "ytmusic".into(),
                    }),
                },
            ],
        }],
        continuation: Some("NEXT".into()),
    };
    assert_eq!(page, catalog_page_from_proto(&catalog_page_to_proto(&page)));
    let wire = catalog_page_to_proto(&page);
    assert_eq!(wire.shelves[0].items[0].kind, 2);

    let station = api::RadioStationInfo {
        id: "st-1".into(),
        name: "radio_station_name".into(),
        description: "radio_station_desc".into(),
        icon: String::new(),
        artwork: None,
        tags: vec!["jazz".into()],
        streams: vec![api::RadioStreamInfo { id: "hi".into(), name: "High".into(), url: String::new(), icon: None }],
        pinned: true,
    };
    assert_eq!(station, radio_station_from_proto(&radio_station_to_proto(&station)));
}
