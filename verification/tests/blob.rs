use deltachat_core::blob::{
    align_resolution_limit, clamp_target_size, keeps_original_on_failure, keeps_sticker, needs_jpg_extension,
    output_format, scale_decision, scale_step, BlobError, BlobObject, ImageOutputFormat, ScaleDecision,
    ScaleStep, SourceFormat,
};

#[test]
fn blob_names() {
    let b = BlobObject::from_name("/data/blobs", "foo.png").unwrap();
    assert_eq!(b.as_name(), "$BLOBDIR/foo.png");
    assert_eq!(b.suffix().as_deref(), Some("png"));
    let b = BlobObject::from_name("/data/blobs", "$BLOBDIR/foo.tar.gz").unwrap();
    assert_eq!(b.as_name(), "$BLOBDIR/foo.tar.gz");
    assert_eq!(b.suffix().as_deref(), Some("gz"));
    let b = BlobObject::from_name("/data/blobs", "image.JPG").unwrap();
    assert_eq!(b.as_name(), "$BLOBDIR/image.JPG");
    assert_eq!(b.suffix().as_deref(), Some("jpg"));
    let b = BlobObject::from_name("/data/blobs", "Ärger.ÄBC").unwrap();
    assert_eq!(b.suffix().as_deref(), Some("äbc"));
    let b = BlobObject::from_name("/data/blobs", "noext").unwrap();
    assert_eq!(b.suffix(), None);
    assert_eq!(BlobObject::from_name("/data/blobs", "a/b").unwrap_err(), BlobError::BadBlobName);
    assert_eq!(BlobObject::from_name("/data/blobs", "$BLOBDIR/a\\b").unwrap_err(), BlobError::BadBlobName);
    assert!(!BlobObject::is_acceptible_blob_name("x\0y"));
    assert!(BlobObject::is_acceptible_blob_name("x.y"));
}

#[test]
fn blob_paths() {
    let b = BlobObject::from_path("/data/blobs", "/data/blobs/foo.txt").unwrap();
    assert_eq!(b.as_name(), "$BLOBDIR/foo.txt");
    assert_eq!(b.to_abs_path(), "/data/blobs/foo.txt");
    assert_eq!(
        BlobObject::from_path("/data/blobs", "/elsewhere/foo.txt").unwrap_err(),
        BlobError::WrongBlobdir
    );
    assert_eq!(
        BlobObject::from_path("/data/blobs", "/data/blobs/sub/foo.txt").unwrap_err(),
        BlobError::BadBlobName
    );
}

#[test]
fn blob_relative_paths() {
    let b = BlobObject::from_relative_path("/data/blobs", Some("foo.txt".to_string())).unwrap();
    assert_eq!(b.as_name(), "$BLOBDIR/foo.txt");
    assert_eq!(b.to_abs_path(), "/data/blobs/foo.txt");
    assert_eq!(BlobObject::from_relative_path("/data/blobs", None).unwrap_err(), BlobError::WrongBlobdir);
    assert_eq!(
        BlobObject::from_relative_path("/data/blobs", Some("sub/foo.txt".to_string())).unwrap_err(),
        BlobError::BadBlobName
    );
    assert_eq!(
        BlobObject::from_relative_path("/data/blobs", Some("$BLOBDIR/foo.txt".to_string())).unwrap_err(),
        BlobError::BadBlobName
    );
    let b = BlobObject::from_name("/data/blobs/", "x.png").unwrap();
    assert_eq!(b.to_abs_path(), "/data/blobs/x.png");
}

#[test]
fn recoding_decisions() {
    assert_eq!(output_format(SourceFormat::Png, false, true), (ImageOutputFormat::Png, true));
    assert_eq!(output_format(SourceFormat::Png, true, true), (ImageOutputFormat::Jpeg { quality: 75 }, true));
    assert_eq!(output_format(SourceFormat::Jpeg, false, true), (ImageOutputFormat::Jpeg { quality: 75 }, false));
    assert_eq!(output_format(SourceFormat::Other, false, false), (ImageOutputFormat::Jpeg { quality: 75 }, false));
    assert_eq!(scale_decision(100, 100, 2000, 512, 1000, false, false), ScaleDecision::Scale);
    assert_eq!(scale_decision(1000, 100, 200, 512, 1000, true, false), ScaleDecision::Scale);
    assert_eq!(scale_decision(100, 100, 200, 512, 1000, true, true), ScaleDecision::ScaleIfEncodingTooLarge);
    assert_eq!(scale_decision(1000, 100, 200, 512, 1000, false, true), ScaleDecision::Keep);
    assert_eq!(align_resolution_limit(1283, 2000), 1280);
    assert_eq!(align_resolution_limit(1283, 1000), 1283);
    assert_eq!(align_resolution_limit(7, 2000), 7);
    assert_eq!(clamp_target_size(512, 300), 300);
    assert_eq!(clamp_target_size(100000, 200000), 65535);
    assert_eq!(scale_step(512, true, true), ScaleStep::Retry { target_wh: 448 });
    assert_eq!(scale_step(19, true, true), ScaleStep::TooLarge);
    assert_eq!(scale_step(512, true, false), ScaleStep::Done);
    assert_eq!(scale_step(512, false, true), ScaleStep::Done);
    assert!(needs_jpg_extension(SourceFormat::Png, ImageOutputFormat::Jpeg { quality: 75 }));
    assert!(!needs_jpg_extension(SourceFormat::Jpeg, ImageOutputFormat::Jpeg { quality: 75 }));
    assert!(keeps_original_on_failure(false, true));
    assert!(!keeps_original_on_failure(true, true));
    assert!(keeps_sticker(10, 10, [255, 0, 255, 255]));
    assert!(!keeps_sticker(10, 10, [255, 255, 255, 255]));
    assert!(!keeps_sticker(0, 10, [0, 0, 0, 0]));
}

#[test]
fn avatar_retries_end() {
    let mut t = 512;
    let mut rounds = 0;
    loop {
        match scale_step(t, true, true) {
            ScaleStep::Retry { target_wh } => {
                assert!(target_wh < t);
                t = target_wh;
                rounds += 1;
            }
            ScaleStep::TooLarge => break,
            ScaleStep::Done => unreachable!(),
        }
    }
    assert!(t < 20);
    assert!(rounds > 0);
}
