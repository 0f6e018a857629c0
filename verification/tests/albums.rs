use kopuz::albums::{synthesize_albums, AlbumTrack};

fn track(album_id: &str, album: &str, artist: &str, cover: Option<&str>) -> AlbumTrack {
    AlbumTrack {
        album_id: album_id.to_string(),
        album: album.to_string(),
        artist: artist.to_string(),
        cover: cover.map(|c| c.to_string()),
    }
}

#[test]
fn one_album_per_id_from_its_first_track() {
    let tracks = vec![
        track("a1", "First", "X", Some("https://img/1.jpg")),
        track("", "Loose", "Y", None),
        track("a2", "", "Z", Some("tag42")),
        track("a1", "Other", "W", None),
    ];
    let albums = synthesize_albums(&tracks);
    assert_eq!(albums.len(), 2);
    assert_eq!(albums[0].id, "a1");
    assert_eq!(albums[0].title, "First");
    assert_eq!(albums[0].artist, "X");
    assert_eq!(albums[0].cover_path.as_deref(), Some("directurl:https://img/1.jpg"));
    assert_eq!(albums[1].id, "a2");
    assert_eq!(albums[1].title, "Singles");
    assert_eq!(albums[1].cover_path.as_deref(), Some("ytmusic:_:tag42"));
}

#[test]
fn no_tracks_no_albums() {
    assert!(synthesize_albums(&Vec::new()).is_empty());
}
