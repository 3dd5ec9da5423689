use remotefs_kube::kube_path::KubePath;

#[test]
fn test_from_absolute_path() {
    let p = KubePath::from_path(None, None, "/pod/container/path/to/file");
    assert_eq!(p.pod, Some("pod".to_string()));
    assert_eq!(p.container, Some("container".to_string()));
    assert_eq!(p.path, Some("/path/to/file".to_string()));

    let p = KubePath::from_path(None, None, "/pod/container");
    assert_eq!(p.pod, Some("pod".to_string()));
    assert_eq!(p.container, Some("container".to_string()));

    let p = KubePath::from_path(None, None, "/pod");
    assert_eq!(p.pod, Some("pod".to_string()));
    assert!(p.container.is_none());
    assert!(p.path.is_none());

    let p = KubePath::from_path(None, None, "/");
    assert!(p.pod.is_none());
    assert!(p.container.is_none());
    assert!(p.path.is_none());
}

#[test]
fn test_relative_path() {
    let p = KubePath::from_path(Some("pod"), Some("container"), "path/to/file");
    assert_eq!(p.pod, Some("pod".to_string()));
    assert_eq!(p.container, Some("container".to_string()));
    assert_eq!(p.path, Some("path/to/file".to_string()));

    let p = KubePath::from_path(Some("pod"), None, "container/path/to/file");
    assert_eq!(p.pod, Some("pod".to_string()));
    assert_eq!(p.container, Some("container".to_string()));
    assert_eq!(p.path, Some("/path/to/file".to_string()));

    let p = KubePath::from_path(None, None, "pod/container/path/to/file");
    assert_eq!(p.pod, Some("pod".to_string()));
    assert_eq!(p.container, Some("container".to_string()));
    assert_eq!(p.path, Some("/path/to/file".to_string()));
}

#[test]
fn container_always_comes_with_pod() {
    for path in ["/", "/p", "/p/c", "/p/c/x", "a/b", ""] {
        let p = KubePath::from_path(None, None, path);
        if p.container.is_some() {
            assert!(p.pod.is_some());
        }
    }
}
