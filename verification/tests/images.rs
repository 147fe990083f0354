use shape_elements::geom::Linear;
use shape_elements::layout::LayoutNode;
use shape_elements::resource::FileRecord;
use shape_elements::resource::FileState;
use shape_elements::resource::FileStore;
use shape_elements::resource::ImageCache;
use shape_elements::resource::Span;
use shape_elements::resource::Spanned;
use shape_elements::resource::image;
use shape_elements::resource::relpath;

fn store_with(entries: Vec<(&str, FileState)>) -> FileStore {
    FileStore {
        files: entries
            .into_iter()
            .map(|(path, state)| FileRecord { path: String::from(path), state })
            .collect(),
    }
}

fn path_arg(path: &str, start: u64, end: u64) -> Spanned {
    Spanned { v: String::from(path), span: Span { start, end } }
}

#[test]
fn loading_twice_reuses_the_handle_and_reads_once() {
    let store = store_with(vec![("doc/pic.png", FileState::Readable)]);
    let mut cache = ImageCache::new();
    let base = String::from("doc");

    let first = image(&mut cache, &store, &base, &path_arg("pic.png", 4, 13), None, None);
    let second = image(&mut cache, &store, &base, &path_arg("pic.png", 40, 49), None, None);

    let first_id = match first {
        Ok(LayoutNode::Image { id, .. }) => id,
        other => panic!("expected an image node, got {:?}", other),
    };
    let second_id = match second {
        Ok(LayoutNode::Image { id, .. }) => id,
        other => panic!("expected an image node, got {:?}", other),
    };
    assert_eq!(first_id, second_id);
    assert_eq!(cache.loads, 1);
    assert_eq!(cache.paths.len(), 1);
}

#[test]
fn distinct_paths_get_distinct_handles() {
    let store = store_with(vec![
        ("doc/a.png", FileState::Readable),
        ("doc/b.png", FileState::Readable),
    ]);
    let mut cache = ImageCache::new();
    let base = String::from("doc");

    let a = image(&mut cache, &store, &base, &path_arg("a.png", 0, 5), None, None);
    let b = image(&mut cache, &store, &base, &path_arg("b.png", 6, 11), None, None);
    let a_id = match a {
        Ok(LayoutNode::Image { id, .. }) => id,
        other => panic!("expected an image node, got {:?}", other),
    };
    let b_id = match b {
        Ok(LayoutNode::Image { id, .. }) => id,
        other => panic!("expected an image node, got {:?}", other),
    };
    assert_ne!(a_id, b_id);
    assert_eq!(cache.loads, 2);
}

#[test]
fn missing_file_reports_file_not_found_on_the_path_span() {
    let store = store_with(vec![]);
    let mut cache = ImageCache::new();
    let base = String::from("doc");

    let r = image(&mut cache, &store, &base, &path_arg("gone.png", 17, 27), None, None);
    match r {
        Err(diag) => {
            assert_eq!(diag.message, "file not found");
            assert_eq!(diag.span, Span { start: 17, end: 27 });
        }
        Ok(node) => panic!("expected a diagnostic, got {:?}", node),
    }
    assert_eq!(cache.loads, 0);
    assert_eq!(cache.paths.len(), 0);
}

#[test]
fn other_failure_reports_description_on_the_path_span() {
    let store = store_with(vec![(
        "doc/locked.png",
        FileState::Failing(String::from("permission denied")),
    )]);
    let mut cache = ImageCache::new();
    let base = String::from("doc");

    let r = image(&mut cache, &store, &base, &path_arg("locked.png", 3, 15), None, None);
    match r {
        Err(diag) => {
            assert_eq!(diag.message, "failed to load image (permission denied)");
            assert_eq!(diag.span, Span { start: 3, end: 15 });
        }
        Ok(node) => panic!("expected a diagnostic, got {:?}", node),
    }
    assert_eq!(cache.loads, 0);
}

#[test]
fn image_node_carries_explicit_size() {
    let store = store_with(vec![("doc/pic.png", FileState::Readable)]);
    let mut cache = ImageCache::new();
    let base = String::from("doc");
    let w = Some(Linear { abs: 64, rel_ppm: 0 });
    let h = Some(Linear { abs: 0, rel_ppm: 500000 });

    let r = image(&mut cache, &store, &base, &path_arg("pic.png", 0, 9), w, h);
    match r {
        Ok(LayoutNode::Image { id, width, height }) => {
            assert_eq!(id, 0);
            assert_eq!(width, w);
            assert_eq!(height, h);
        }
        other => panic!("expected an image node, got {:?}", other),
    }
}

#[test]
fn absolute_paths_skip_the_base() {
    let store = store_with(vec![("/media/pic.png", FileState::Readable)]);
    let mut cache = ImageCache::new();
    let base = String::from("doc");

    let r = image(&mut cache, &store, &base, &path_arg("/media/pic.png", 0, 16), None, None);
    assert!(matches!(r, Ok(LayoutNode::Image { id: 0, .. })));
    assert_eq!(cache.paths[0], "/media/pic.png");
}

#[test]
fn relpath_joins_relative_and_keeps_absolute() {
    assert_eq!(relpath(&String::from("doc"), &String::from("img.png")), "doc/img.png");
    assert_eq!(relpath(&String::from("doc"), &String::from("/img.png")), "/img.png");
    assert_eq!(relpath(&String::from("doc"), &String::from("")), "doc/");
}

#[test]
fn failure_does_not_poison_later_loads() {
    let store = store_with(vec![("doc/late.png", FileState::Readable)]);
    let mut cache = ImageCache::new();
    let base = String::from("doc");

    let missing = image(&mut cache, &store, &base, &path_arg("gone.png", 0, 8), None, None);
    assert!(missing.is_err());
    let found = image(&mut cache, &store, &base, &path_arg("late.png", 9, 17), None, None);
    assert!(matches!(found, Ok(LayoutNode::Image { id: 0, .. })));
    assert_eq!(cache.loads, 1);
}
