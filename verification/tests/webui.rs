use llm_shadow_relay::webui::index_html;

#[test]
fn embedded_ui_contains_core_controls() {
    let page = index_html();
    assert!(page.contains("id=\"sendRequest\""));
    assert!(page.contains("id=\"abortRequest\""));
    assert!(page.contains("id=\"previewRequest\""));
    assert!(page.contains("id=\"copyResponse\""));
    assert!(page.contains("id=\"copyCurl\""));
    assert!(page.contains("id=\"historyList\""));
    assert!(page.contains("id=\"extraHeaders\""));
    assert!(page.contains("id=\"agentSelect\""));
    assert!(page.contains("id=\"responseBox\""));
    assert!(page.contains("id=\"languageSelect\""));
    assert!(page.contains("/v1/agents/"));
    assert!(page.contains("/ui/config"));
}

#[test]
fn embedded_ui_declares_inline_favicon() {
    let page = index_html();
    assert!(page.contains("rel=\"icon\""));
    assert!(page.contains("data:image/svg+xml"));
}

#[test]
fn embedded_ui_redacts_sensitive_header_names() {
    let page = index_html();
    assert!(page.contains("shouldRedactHeader"));
    assert!(page.contains("authorization"));
    assert!(page.contains("x-api-key"));
}

#[test]
fn embedded_ui_contains_language_adapter() {
    let page = index_html();
    assert!(page.contains("const I18N"));
    assert!(page.contains("setLanguage"));
    assert!(page.contains("localStorage"));
    assert!(page.contains("llm-shadow-relay-language"));
    assert!(page.contains("中文"));
    assert!(page.contains("复制响应"));
}

#[test]
fn embedded_ui_is_one_html_document() {
    let page = index_html();
    assert!(page.starts_with("<!DOCTYPE html>"));
    assert!(page.trim_end().ends_with("</html>"));
}
