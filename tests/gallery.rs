use gallery::config;
use gallery::error::BuildError;
use gallery::markdown::render_markdown;
use gallery::site::{PhotoTasks, SiteWriter, Stage};
use gallery::slug::{file_stem, find_last};
use gallery::thumb::{thumbnail, Raster};
use gallery::view;

fn photo(name: &str, desc: Option<&str>) -> config::Photo {
    config::Photo {
        name: name.to_string(),
        desc: desc.map(|d| d.to_string()),
    }
}

fn album(title: &str, names: &[&str]) -> config::Album {
    config::Album {
        path: "albums/trip".to_string(),
        title: title.to_string(),
        desc: "A *short* trip.".to_string(),
        javascript: true,
        photos: names.iter().map(|n| photo(n, None)).collect(),
    }
}

#[test]
fn stem_drops_directory_and_last_extension() {
    assert_eq!(file_stem("a.jpg"), "a");
    assert_eq!(file_stem("dir/sub/photo.tar.gz"), "photo.tar");
    assert_eq!(file_stem("noext"), "noext");
    assert_eq!(file_stem(".jpg"), "");
    assert_eq!(file_stem(""), "");
    assert_eq!(file_stem("dir/"), "");
}

#[test]
fn find_last_gives_last_position() {
    assert_eq!(find_last("a.b.c", '.'), Some(3));
    assert_eq!(find_last("abc", '.'), None);
    assert_eq!(find_last("", '.'), None);
}

#[test]
fn slug_text_is_lowercase_and_dashed() {
    assert_eq!(photo("My Test String!!!1!1.jpg", None).slugify().unwrap(), "my-test-string-1-1");
    assert_eq!(photo("  --test_-_cool.png", None).slugify().unwrap(), "test-cool");
    let v = view::Album::try_from(album("You & Me", &[])).unwrap();
    assert_eq!(v.slug, "you-me");
}

#[test]
fn duplicate_slugs_abort_build() {
    match view::Album::try_from(album("Trip", &["a.jpg", "b.jpg", "A.png"])) {
        Err(BuildError::DuplicateSlug { slug }) => assert_eq!(slug, "a"),
        Err(e) => panic!("unexpected error: {:?}", e),
        Ok(_) => panic!("build should fail"),
    }
    let e = BuildError::DuplicateSlug { slug: "a".to_string() };
    assert_eq!(e.message(), "two photos share the slug: a");
}

#[test]
fn photo_slug_from_stem() {
    assert_eq!(photo("a.jpg", None).slugify().unwrap(), "a");
    assert_eq!(photo("Beach Day.JPG", None).slugify().unwrap(), "beach-day");
    assert_eq!(photo("x/y/Sunset 2.png", None).slugify().unwrap(), "sunset-2");
}

#[test]
fn photo_slug_rejects_extension_only_name() {
    match photo(".jpg", None).slugify() {
        Err(BuildError::InvalidName { name }) => assert_eq!(name, ".jpg"),
        other => panic!("unexpected: {:?}", other),
    }
    assert!(matches!(photo("", None).slugify(), Err(BuildError::InvalidName { .. })));
}

#[test]
fn markdown_renders_strikethrough() {
    assert_eq!(render_markdown("~~gone~~"), "<p><del>gone</del></p>\n");
    assert_eq!(render_markdown("*hi*"), "<p><em>hi</em></p>\n");
    assert_eq!(render_markdown(""), "");
}

#[test]
fn two_photo_trip_scenario() {
    let v = view::Album::try_from(album("Trip", &["a.jpg", "b.jpg"])).unwrap();
    assert_eq!(v.slug, "trip");
    assert_eq!(v.title, "Trip");
    assert!(v.javascript);
    assert_eq!(v.description, "<p>A <em>short</em> trip.</p>\n");
    assert_eq!(v.photos.len(), 2);
    let a = &v.photos[0];
    let b = &v.photos[1];
    assert_eq!(a.slug, "a");
    assert_eq!(b.slug, "b");
    assert_eq!(a.next_slug.as_deref(), Some("b"));
    assert_eq!(a.prev_slug, None);
    assert_eq!(b.prev_slug.as_deref(), Some("a"));
    assert_eq!(b.next_slug, None);
    assert_eq!(a.thumb_name, "thumb-a.jpg");
    assert_eq!(b.name, "b.jpg");
    assert_eq!(a.title, "Trip");
    assert_eq!(a.slugs, vec!["a".to_string(), "b".to_string()]);
    assert_eq!(v.inner.path, "albums/trip");
}

#[test]
fn extension_only_photo_aborts_build() {
    match view::Album::try_from(album("Trip", &["a.jpg", ".jpg", "c.jpg"])) {
        Err(BuildError::InvalidName { name }) => assert_eq!(name, ".jpg"),
        Err(e) => panic!("unexpected error: {:?}", e),
        Ok(_) => panic!("build should fail"),
    }
}

#[test]
fn views_keep_order_and_links() {
    let names = ["one.jpg", "two.jpg", "three.jpg", "four.jpg"];
    let v = view::Album::try_from(album("Four Photos", &names)).unwrap();
    assert_eq!(v.slug, "four-photos");
    assert_eq!(v.photos.len(), 4);
    for (i, p) in v.photos.iter().enumerate() {
        assert_eq!(p.index, i);
        assert_eq!(p.name, names[i]);
        if i == 0 {
            assert_eq!(p.prev_slug, None);
        } else {
            assert_eq!(p.prev_slug.as_ref(), Some(&v.photos[i - 1].slug));
        }
        if i + 1 == names.len() {
            assert_eq!(p.next_slug, None);
        } else {
            assert_eq!(p.next_slug.as_ref(), Some(&v.photos[i + 1].slug));
        }
    }
}

#[test]
fn single_photo_has_no_links() {
    let v = view::Album::try_from(album("Solo", &["only.png"])).unwrap();
    assert_eq!(v.photos.len(), 1);
    assert_eq!(v.photos[0].prev_slug, None);
    assert_eq!(v.photos[0].next_slug, None);
}

#[test]
fn empty_album_builds() {
    let v = view::Album::try_from(album("Empty", &[])).unwrap();
    assert!(v.photos.is_empty());
    assert_eq!(v.slug, "empty");
}

#[test]
fn photo_description_is_rendered() {
    let mut a = album("Trip", &["a.jpg"]);
    a.photos.push(photo("b.jpg", Some("~~no~~ yes")));
    let v = view::Album::try_from(a).unwrap();
    assert_eq!(v.photos[0].description, None);
    assert_eq!(
        v.photos[1].description.as_deref(),
        Some("<p><del>no</del> yes</p>\n")
    );
}

#[test]
fn same_manifest_same_view() {
    let v1 = view::Album::try_from(album("Trip", &["a.jpg", "b.jpg"])).unwrap();
    let v2 = view::Album::try_from(album("Trip", &["a.jpg", "b.jpg"])).unwrap();
    assert_eq!(format!("{:?}", v1), format!("{:?}", v2));
}

#[test]
fn thumbnail_halves_dimensions() {
    let img = Raster { width: 5, height: 3, pixels: vec![200u8; 5 * 3 * 4] };
    let t = thumbnail(img);
    assert_eq!(t.width, 2);
    assert_eq!(t.height, 1);
    assert_eq!(t.pixels.len(), 2 * 1 * 4);
    assert!(t.pixels.iter().all(|&b| b == 200));
}

#[test]
fn thumbnail_of_tiny_image_is_empty() {
    let img = Raster { width: 1, height: 1, pixels: vec![7u8; 4] };
    let t = thumbnail(img);
    assert_eq!((t.width, t.height), (0, 0));
    assert!(t.pixels.is_empty());
}

#[test]
fn fresh_build_does_all_work() {
    let mut w = SiteWriter::new(2);
    let t = w.photo(false, false);
    assert_eq!(t, PhotoTasks { copy_image: true, make_thumbnail: true });
    assert!(!w.photos_done());
    w.photo(false, false);
    assert!(w.photos_done());
    assert_eq!(w.dispatched, 2);
    assert_eq!(w.copied, 2);
    assert!(w.joined(0).is_ok());
    assert_eq!(w.stage, Stage::Finished);
}

#[test]
fn rebuild_does_no_work() {
    let mut w = SiteWriter::new(3);
    for _ in 0..3 {
        let t = w.photo(true, true);
        assert_eq!(t, PhotoTasks { copy_image: false, make_thumbnail: false });
    }
    assert_eq!(w.dispatched, 0);
    assert_eq!(w.copied, 0);
    assert!(w.joined(0).is_ok());
}

#[test]
fn added_photo_only_gets_work() {
    let mut w = SiteWriter::new(3);
    w.photo(true, true);
    w.photo(true, true);
    let t = w.photo(false, false);
    assert_eq!(t, PhotoTasks { copy_image: true, make_thumbnail: true });
    assert_eq!(w.dispatched, 1);
    assert_eq!(w.copied, 1);
}

#[test]
fn one_failed_job_fails_build() {
    let mut w = SiteWriter::new(3);
    for _ in 0..3 {
        w.photo(false, false);
    }
    match w.joined(1) {
        Err(BuildError::AggregatedJobFailure { failed, dispatched }) => {
            assert_eq!(failed, 1);
            assert_eq!(dispatched, 3);
        }
        other => panic!("unexpected: {:?}", other),
    }
    assert_eq!(w.stage, Stage::Failed);
}

#[test]
fn error_messages() {
    let e = BuildError::InvalidName { name: ".jpg".to_string() };
    assert_eq!(e.message(), "invalid-looking photo name: .jpg");
    let e = BuildError::AggregatedJobFailure { failed: 1, dispatched: 3 };
    assert_eq!(e.message(), "one or more thumbnailing tasks failed");
}
