use kopuz::local_files::{
    cleared, configured_roots, removal_answer, removal_permitted, FsOutcome, LibraryConfig,
    SavedLocalSource, Source,
};

fn config() -> LibraryConfig {
    LibraryConfig {
        music_directory: vec!["/tmp/t/library".to_string()],
        local_sources: vec![SavedLocalSource {
            id: "usb".to_string(),
            directories: vec!["/media/usb/music".to_string(), "/media/usb/more".to_string()],
        }],
    }
}

fn roots(config: &LibraryConfig, source: &Source) -> Vec<Option<String>> {
    configured_roots(config, source).into_iter().map(Some).collect()
}

#[test]
fn deletes_only_files_inside_the_selected_library() {
    let config = config();
    let roots = roots(&config, &Source::Local);
    assert!(!removal_permitted(&Source::Local, Some("/tmp/t/outside.mp3"), &roots));
    assert!(removal_permitted(&Source::Local, Some("/tmp/t/library/inside.mp3"), &roots));
    assert_eq!(removal_answer(FsOutcome::Done), Some(true));
}

#[test]
fn a_path_that_is_already_gone_clears_its_rows() {
    let answer = removal_answer(FsOutcome::NotFound);
    assert_eq!(answer, Some(false));
    assert!(cleared(answer, FsOutcome::NotFound));
}

#[test]
fn a_dangling_symlink_does_not_clear_its_rows() {
    // `symlink_metadata` still finds the link itself.
    assert!(!cleared(Some(false), FsOutcome::Done));
}

#[test]
fn rejects_symlink_that_resolves_outside_the_library() {
    let config = config();
    let roots = roots(&config, &Source::Local);
    // The link's canonical path is its target, outside the library.
    assert!(!removal_permitted(&Source::Local, Some("/tmp/t/outside.mp3"), &roots));
}

#[test]
fn roots_follow_the_source() {
    let config = config();
    assert_eq!(configured_roots(&config, &Source::Local), vec!["/tmp/t/library".to_string()]);
    assert_eq!(configured_roots(&config, &Source::LocalLibrary("usb".to_string())).len(), 2);
    assert!(configured_roots(&config, &Source::LocalLibrary("nas".to_string())).is_empty());
    assert!(configured_roots(&config, &Source::Server("jf".to_string())).is_empty());
}

#[test]
fn the_root_itself_and_its_lookalikes_are_outside() {
    let roots = vec![Some("/m/lib".to_string()), None];
    assert!(!removal_permitted(&Source::Local, Some("/m/lib"), &roots));
    assert!(!removal_permitted(&Source::Local, Some("/m/library/x.mp3"), &roots));
    assert!(removal_permitted(&Source::Local, Some("/m/lib/a/b.mp3"), &roots));
    assert!(!removal_permitted(&Source::Local, None, &roots));
    assert!(!removal_permitted(&Source::Server("s".to_string()), Some("/m/lib/a.mp3"), &roots));
    assert!(removal_permitted(&Source::Local, Some("/x.mp3"), &vec![Some("/".to_string())]));
}

#[test]
fn failures_fail_closed() {
    assert_eq!(removal_answer(FsOutcome::Failed), None);
    assert!(!cleared(None, FsOutcome::NotFound));
    assert!(!cleared(Some(false), FsOutcome::Failed));
    assert!(cleared(Some(true), FsOutcome::Failed));
}
