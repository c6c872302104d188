use seventv_api::cosmetics::{
    CosmeticPaintFunction, CosmeticPaintShape, CosmeticsLookup, CosmeticsMutation, CosmeticsQuery, ImageFetch, PaintChange,
    PaintDefinition, PaintLayerPlan, PendingImage, ProcessImageResponse, UploadInfo,
};
use seventv_api::error::{ApiErrorCode, StatusCode};

fn def(function: CosmeticPaintFunction) -> PaintDefinition {
    PaintDefinition { name: "p".to_string(), function, color: None, angle: None, shape: None, image_url: None, repeat: false }
}

#[test]
fn gradient_layers() {
    let mut d = def(CosmeticPaintFunction::LinearGradient);
    assert!(matches!(CosmeticsMutation::paint_layer_plan(&d), Ok(PaintLayerPlan::LinearGradient { angle: 0, repeating: false })));
    d.angle = Some(90);
    d.repeat = true;
    assert!(matches!(CosmeticsMutation::paint_layer_plan(&d), Ok(PaintLayerPlan::LinearGradient { angle: 90, repeating: true })));
    let mut r = def(CosmeticPaintFunction::RadialGradient);
    assert!(matches!(
        CosmeticsMutation::paint_layer_plan(&r),
        Ok(PaintLayerPlan::RadialGradient { angle: 0, repeating: false, shape: CosmeticPaintShape::Ellipse })
    ));
    r.shape = Some(CosmeticPaintShape::Circle);
    r.angle = Some(360);
    assert!(matches!(
        CosmeticsMutation::paint_layer_plan(&r),
        Ok(PaintLayerPlan::RadialGradient { angle: 360, repeating: false, shape: CosmeticPaintShape::Circle })
    ));
}

#[test]
fn image_layers_need_a_url_that_parses() {
    let mut d = def(CosmeticPaintFunction::Url);
    let e = CosmeticsMutation::paint_layer_plan(&d).unwrap_err();
    assert_eq!((e.status, e.message), (StatusCode::BadRequest, "invalid image url"));
    d.image_url = Some("not a url".to_string());
    assert_eq!(CosmeticsMutation::paint_layer_plan(&d).unwrap_err().message, "invalid image url");
    d.image_url = Some("HTTPS://Example.COM/paint.png".to_string());
    match CosmeticsMutation::paint_layer_plan(&d) {
        Ok(PaintLayerPlan::FetchImage { url }) => assert_eq!(url, "https://example.com/paint.png"),
        other => panic!("unexpected {:?}", other),
    }
}

#[test]
fn image_fetch_errors() {
    assert_eq!(CosmeticsMutation::image_fetch_error(ImageFetch::Fetched), None);
    let e = CosmeticsMutation::image_fetch_error(ImageFetch::ReadFailed).unwrap();
    assert_eq!((e.status, e.message), (StatusCode::InternalServerError, "failed to read image data"));
    let e = CosmeticsMutation::image_fetch_error(ImageFetch::BadStatus).unwrap();
    assert_eq!((e.status, e.message), (StatusCode::BadRequest, "failed to request image url"));
    let e = CosmeticsMutation::image_fetch_error(ImageFetch::RequestFailed).unwrap();
    assert_eq!((e.status, e.message), (StatusCode::InternalServerError, "failed to request image url"));
}

#[test]
fn image_processor_answers() {
    let ok = ProcessImageResponse {
        id: "task".to_string(),
        upload_info: Some(UploadInfo { path: Some("paint/1".to_string()), content_type: "image/png".to_string(), size: 42 }),
        failed: false,
    };
    let p: PendingImage = CosmeticsMutation::pending_image(Some(ok.clone())).unwrap();
    assert_eq!((p.task_id.as_str(), p.path.as_str(), p.mime.as_str(), p.size), ("task", "paint/1", "image/png", 42));
    let mut failed = ok.clone();
    failed.failed = true;
    let e = CosmeticsMutation::pending_image(Some(failed)).unwrap_err();
    assert_eq!((e.status, e.code, e.message), (StatusCode::InternalServerError, ApiErrorCode::ImageProcessorError, "image processor error"));
    let mut no_path = ok.clone();
    no_path.upload_info.as_mut().unwrap().path = None;
    assert!(CosmeticsMutation::pending_image(Some(no_path)).is_err());
    let mut no_info = ok;
    no_info.upload_info = None;
    assert!(CosmeticsMutation::pending_image(Some(no_info)).is_err());
    assert!(CosmeticsMutation::pending_image(None).is_err());
}

#[test]
fn paint_update_changes() {
    let a = "a".to_string();
    let b = "b".to_string();
    assert_eq!(CosmeticsMutation::paint_changes(&a, &b, true), vec![PaintChange::Name, PaintChange::Data]);
    assert_eq!(CosmeticsMutation::paint_changes(&a, &b, false), vec![PaintChange::Name]);
    assert_eq!(CosmeticsMutation::paint_changes(&a, &a.clone(), true), vec![PaintChange::Data]);
    assert!(CosmeticsMutation::paint_changes(&a, &a.clone(), false).is_empty());
}

#[test]
fn cosmetics_lookup() {
    assert!(matches!(CosmeticsQuery::lookup(None), Some(CosmeticsLookup::All)));
    assert!(matches!(CosmeticsQuery::lookup(Some(vec![])), Some(CosmeticsLookup::All)));
    match CosmeticsQuery::lookup(Some(vec![5, 3])) {
        Some(CosmeticsLookup::Ids(ids)) => assert_eq!(ids, vec![5, 3]),
        _ => panic!("expected ids"),
    }
    assert!(CosmeticsQuery::lookup(Some(vec![1; 100])).is_some());
    assert!(CosmeticsQuery::lookup(Some(vec![1; 101])).is_none());
}
