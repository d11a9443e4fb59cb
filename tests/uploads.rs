use rapi_chat::error::AppError;
use rapi_chat::flow::resolve_attachment;
use rapi_chat::upload::{
    check_upload_mime, encode_image_to_base64, get_ext_file_or_default, get_filename_or_default,
    plan_upload, validate_upload,
};

fn png_bytes() -> Vec<u8> {
    vec![0x89, 0x50, 0x4E, 0x47, 0x0D, 0x0A, 0x1A, 0x0A]
}

#[test]
fn extension_after_last_dot() {
    assert_eq!(get_ext_file_or_default("photo.png").unwrap(), "png");
    assert_eq!(get_ext_file_or_default("archive.tar.gz").unwrap(), "gz");
    assert_eq!(get_ext_file_or_default("noext").unwrap(), "noext");
    assert_eq!(get_ext_file_or_default("trailing.").unwrap(), "jpg");
    assert_eq!(get_ext_file_or_default("").unwrap(), "jpg");
}

#[test]
fn file_name_defaults_to_fresh_identifier() {
    assert_eq!(get_filename_or_default(Some("cat.gif".to_string())).unwrap(), "cat.gif");
    let a = get_filename_or_default(None).unwrap();
    let b = get_filename_or_default(None).unwrap();
    assert_eq!(a.len(), 40);
    assert!(a.ends_with(".jpg"));
    assert_ne!(a, b);
}

#[test]
fn upload_target_paths() {
    let t = plan_upload("png");
    assert!(t.path.starts_with("images/chat/chat-"));
    assert!(t.path.ends_with(".png"));
    assert_eq!(t.path.len(), "images/chat/chat-".len() + 36 + ".png".len());
    let name = &t.path["images/chat/".len()..];
    assert_eq!(t.tmp_path, format!("images/chat/.tmp-{}", name));
}

#[test]
fn upload_validation() {
    assert_eq!(validate_upload(&vec![]), Ok(None));
    assert_eq!(validate_upload(&png_bytes()), Ok(Some("image/png".to_string())));
    assert_eq!(
        validate_upload(&b"%PDF-1.4".to_vec()),
        Err(AppError::BadRequest("Uploaded file is not an image".to_string()))
    );
    assert_eq!(
        validate_upload(&vec![0u8, 1, 2, 3, 4]),
        Err(AppError::BadRequest("Unknown file type".to_string()))
    );
    assert_eq!(check_upload_mime(Some("image/webp".to_string())), Ok("image/webp".to_string()));
    assert_eq!(
        check_upload_mime(Some("imag".to_string())),
        Err(AppError::BadRequest("Uploaded file is not an image".to_string()))
    );
}

#[test]
fn image_is_encoded_as_data_url() {
    assert_eq!(
        encode_image_to_base64(&png_bytes()),
        Ok("data:image/png;base64,iVBORw0KGgo=".to_string())
    );
    assert_eq!(
        encode_image_to_base64(&b"%PDF-1.4".to_vec()),
        Err(AppError::InternalError("Not an image".to_string()))
    );
    assert_eq!(
        encode_image_to_base64(&vec![1u8, 2, 3]),
        Err(AppError::InternalError("Unknown file type".to_string()))
    );
}

#[test]
fn unusable_attachment_is_dropped() {
    assert_eq!(resolve_attachment(None), None);
    assert_eq!(resolve_attachment(Some(b"%PDF-1.4".to_vec())), None);
    assert_eq!(
        resolve_attachment(Some(png_bytes())),
        Some("data:image/png;base64,iVBORw0KGgo=".to_string())
    );
}
