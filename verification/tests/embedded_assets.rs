use transaction_service::embedded_assets::{swagger_css, swagger_js};

#[test]
fn no_assets_are_compiled_in() {
    assert!(swagger_css().is_none());
    assert!(swagger_js().is_none());
}
