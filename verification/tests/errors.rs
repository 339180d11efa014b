use pyraystack::{ClientError, ErrorCategory, PrError};

#[test]
fn it_works() {
    assert_eq!(2 + 2, 4);
}

#[test]
fn message_is_label_colon_space_detail() {
    let failure = PrError::UrlParse("relative URL without a base".to_string());
    assert_eq!(failure.message(), "Url parse error: relative URL without a base");
}

#[test]
fn every_variant_has_its_own_label() {
    let text = || "x".to_string();
    assert_eq!(PrError::NewAsyncRuntime(text()).message(), "New async runtime error: x");
    assert_eq!(PrError::ClientSeed(text()).message(), "Client seed error: x");
    assert_eq!(
        PrError::DateTimeParse { input: "when".to_string(), reason: text() }.message(),
        "DateTime parse error: x"
    );
    assert_eq!(PrError::TimeZone(text()).message(), "Time zone error: x");
    assert_eq!(PrError::NewClient(text()).message(), "New client error: x");
    assert_eq!(PrError::Raystack(text()).message(), "Raystack error: x");
    assert_eq!(PrError::RefParse(text()).message(), "Ref parse error: x");
    assert_eq!(PrError::UrlParse(text()).message(), "Url parse error: x");
}

#[test]
fn every_variant_has_its_own_category() {
    let text = || "x".to_string();
    assert_eq!(PrError::NewAsyncRuntime(text()).category(), ErrorCategory::RuntimeInit);
    assert_eq!(PrError::ClientSeed(text()).category(), ErrorCategory::SeedConstruction);
    assert_eq!(
        PrError::DateTimeParse { input: text(), reason: text() }.category(),
        ErrorCategory::TimestampParse
    );
    assert_eq!(PrError::TimeZone(text()).category(), ErrorCategory::TimezoneResolution);
    assert_eq!(PrError::NewClient(text()).category(), ErrorCategory::Authentication);
    assert_eq!(PrError::Raystack(text()).category(), ErrorCategory::RemoteWrite);
    assert_eq!(PrError::RefParse(text()).category(), ErrorCategory::InvalidReference);
    assert_eq!(PrError::UrlParse(text()).category(), ErrorCategory::UrlParse);
}

#[test]
fn detail_is_the_text_carried() {
    assert_eq!(PrError::Raystack("HTTP 500".to_string()).detail(), "HTTP 500");
    let failure =
        PrError::DateTimeParse { input: "nope".to_string(), reason: "trailing input".to_string() };
    assert_eq!(failure.detail(), "trailing input");
}

#[test]
fn empty_detail_leaves_label_and_separator() {
    assert_eq!(PrError::Raystack(String::new()).message(), "Raystack error: ");
}

#[test]
fn client_error_keeps_category_and_message() {
    let shown = ClientError::from_failure(PrError::NewClient("HTTP 403 Forbidden".to_string()));
    assert_eq!(shown.category, ErrorCategory::Authentication);
    assert_eq!(shown.message, "New client error: HTTP 403 Forbidden");
}

#[test]
fn labels_by_category() {
    assert_eq!(ErrorCategory::RuntimeInit.label(), "New async runtime error");
    assert_eq!(ErrorCategory::SeedConstruction.label(), "Client seed error");
    assert_eq!(ErrorCategory::UrlParse.label(), "Url parse error");
    assert_eq!(ErrorCategory::TimestampParse.label(), "DateTime parse error");
    assert_eq!(ErrorCategory::TimezoneResolution.label(), "Time zone error");
    assert_eq!(ErrorCategory::InvalidReference.label(), "Ref parse error");
    assert_eq!(ErrorCategory::Authentication.label(), "New client error");
    assert_eq!(ErrorCategory::RemoteWrite.label(), "Raystack error");
}
