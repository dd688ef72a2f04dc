use rustodoist_rest2::comments::{
    AttachmentType, UploadState, comment_from_json, comments_from_json, update_comment_body,
};
use rustodoist_rest2::err::TodoistAPIError;
use rustodoist_rest2::general::{TransportOutcome, get_from_reqwest_response};
use rustodoist_rest2::json::to_json_text;

fn comment_json(attachment: &str) -> String {
    format!(
        "{{\"id\": \"2992679862\", \"task_id\": \"2995104339\", \"project_id\": null, \
         \"posted_at\": \"2016-09-22T07:00:00.000000Z\", \"content\": \"Hello world\", \
         \"attachment\": {}}}",
        attachment
    )
}

#[test]
fn comment_without_attachment_decodes() {
    let outcome = TransportOutcome::Response(200, comment_json("null"));
    let v = get_from_reqwest_response(outcome).expect("should parse");
    let c = comment_from_json(&v).expect("should decode");
    assert_eq!(c.id, "2992679862");
    assert_eq!(c.task_id, Some("2995104339".to_string()));
    assert_eq!(c.project_id, None);
    assert_eq!(c.posted_at, "2016-09-22T07:00:00.000000Z");
    assert_eq!(c.content, "Hello world");
    assert!(c.attachment.is_none());
}

#[test]
fn basic_attachment_decodes() {
    let att = "{\"file_name\": \"File.pdf\", \"file_size\": 34535, \"file_type\": \
               \"application/pdf\", \"file_url\": \"https://example.com/File.pdf\", \
               \"upload_state\": \"completed\"}";
    let outcome = TransportOutcome::Response(200, comment_json(att));
    let v = get_from_reqwest_response(outcome).expect("should parse");
    let c = comment_from_json(&v).expect("should decode");
    let a = c.attachment.expect("attachment should be present");
    assert_eq!(a.file_name, "File.pdf");
    assert_eq!(a.file_size, 34535);
    assert_eq!(a.file_type, "application/pdf");
    assert_eq!(a.file_url, "https://example.com/File.pdf");
    assert_eq!(a.upload_state, Some(UploadState::Completed));
    assert!(matches!(a.attachment_type, AttachmentType::Basic));
}

#[test]
fn image_attachment_decodes_by_its_thumbnail_keys() {
    let att = "{\"file_name\": \"pic.png\", \"file_size\": 1000, \"file_type\": \"image/png\", \
               \"file_url\": \"https://example.com/pic.png\", \"upload_state\": \"pending\", \
               \"tn_l\": [\"https://example.com/l.png\", 400, 300], \
               \"tn_m\": [\"https://example.com/m.png\", 200, 150], \
               \"tn_s\": [\"https://example.com/s.png\", 100, 75]}";
    let outcome = TransportOutcome::Response(200, comment_json(att));
    let v = get_from_reqwest_response(outcome).expect("should parse");
    let c = comment_from_json(&v).expect("should decode");
    let a = c.attachment.expect("attachment should be present");
    assert_eq!(a.upload_state, Some(UploadState::Pending));
    match a.attachment_type {
        AttachmentType::Image { tn_l, tn_m, tn_s } => {
            assert_eq!(tn_l, ("https://example.com/l.png".to_string(), 400, 300));
            assert_eq!(tn_m.1, 200);
            assert_eq!(tn_s.2, 75);
        }
        _ => panic!("expected an image attachment"),
    }
}

#[test]
fn audio_attachment_decodes_by_its_duration_key() {
    let att = "{\"file_name\": \"clip.ogg\", \"file_size\": 500, \"file_type\": \"audio/ogg\", \
               \"file_url\": \"https://example.com/clip.ogg\", \"file_duration\": 12}";
    let outcome = TransportOutcome::Response(200, comment_json(att));
    let v = get_from_reqwest_response(outcome).expect("should parse");
    let c = comment_from_json(&v).expect("should decode");
    let a = c.attachment.expect("attachment should be present");
    assert_eq!(a.upload_state, None);
    match a.attachment_type {
        AttachmentType::Audio { file_duration } => assert_eq!(file_duration, 12),
        _ => panic!("expected an audio attachment"),
    }
}

#[test]
fn unknown_upload_state_is_a_hard_error() {
    let att = "{\"file_name\": \"f\", \"file_size\": 1, \"file_type\": \"t\", \
               \"file_url\": \"u\", \"upload_state\": \"uploading\"}";
    let outcome = TransportOutcome::Response(200, comment_json(att));
    let v = get_from_reqwest_response(outcome).expect("should parse");
    assert!(matches!(
        comment_from_json(&v),
        Err(TodoistAPIError::ResponseDeserializationError(_))
    ));
}

#[test]
fn malformed_thumbnail_is_a_hard_error() {
    let att = "{\"file_name\": \"f\", \"file_size\": 1, \"file_type\": \"t\", \
               \"file_url\": \"u\", \"tn_l\": [\"x\", 1], \"tn_m\": [\"x\", 1, 1], \
               \"tn_s\": [\"x\", 1, 1]}";
    let outcome = TransportOutcome::Response(200, comment_json(att));
    let v = get_from_reqwest_response(outcome).expect("should parse");
    assert!(matches!(
        comment_from_json(&v),
        Err(TodoistAPIError::ResponseDeserializationError(_))
    ));
}

#[test]
fn comment_list_decodes_in_order() {
    let body = format!("[{}, {}]", comment_json("null"), comment_json("null"));
    let outcome = TransportOutcome::Response(200, body);
    let v = get_from_reqwest_response(outcome).expect("should parse");
    let comments = comments_from_json(&v).expect("should decode");
    assert_eq!(comments.len(), 2);
}

#[test]
fn comment_update_body_has_exactly_the_content_key() {
    assert_eq!(
        to_json_text(&update_comment_body("Hello again")),
        "{\"content\":\"Hello again\"}"
    );
}
