use srvcs_percentile::apidoc::ApiDoc;
use srvcs_percentile::service::{index, Dependency, Deps, CONCERN, SERVICE};

#[test]
fn openapi_documents_routes() {
    let doc = ApiDoc::openapi();
    let root = doc
        .paths
        .iter()
        .find(|p| p.path == "/")
        .expect("path / present");
    assert!(root.get.is_some());
    assert!(root.post.is_some());
}

#[test]
fn openapi_lists_statuses_and_schemas() {
    let doc = ApiDoc::openapi();
    assert_eq!(doc.paths.len(), 1);
    let root = &doc.paths[0];
    assert_eq!(root.get.as_ref().unwrap().responses, vec![200]);
    assert_eq!(root.post.as_ref().unwrap().responses, vec![200, 422, 500, 503]);
    assert_eq!(doc.schemas, vec!["Info", "EvalRequest", "PercentileResponse"]);
}

#[test]
fn index_reports_dependencies() {
    let info = index();
    assert_eq!(info.service, "srvcs-percentile");
    assert_eq!(
        info.concern,
        "comparison: p-th percentile of a list (linear interpolation)"
    );
    assert_eq!(
        info.depends_on,
        vec![
            "srvcs-sortascending",
            "srvcs-floatadd",
            "srvcs-floatmultiply",
            "srvcs-floatsubtract"
        ]
    );
    assert_eq!(info.service, SERVICE);
    assert_eq!(info.concern, CONCERN);
}

#[test]
fn dependency_names() {
    assert_eq!(Dependency::SortAscending.name(), "srvcs-sortascending");
    assert_eq!(Dependency::FloatAdd.name(), "srvcs-floatadd");
    assert_eq!(Dependency::FloatMultiply.name(), "srvcs-floatmultiply");
    assert_eq!(Dependency::FloatSubtract.name(), "srvcs-floatsubtract");
}

#[test]
fn deps_give_each_dependency_its_url() {
    let deps = Deps {
        sortascending_url: "http://sort".to_string(),
        floatadd_url: "http://add".to_string(),
        floatmultiply_url: "http://mul".to_string(),
        floatsubtract_url: "http://sub".to_string(),
    };
    assert_eq!(deps.url(Dependency::SortAscending), "http://sort");
    assert_eq!(deps.url(Dependency::FloatAdd), "http://add");
    assert_eq!(deps.url(Dependency::FloatMultiply), "http://mul");
    assert_eq!(deps.url(Dependency::FloatSubtract), "http://sub");
}
