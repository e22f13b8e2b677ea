use msgboard::error::Rejection;
use msgboard::ingest::{field_kind, store_outcome, FieldKind, Submission};
use msgboard::media::{classify, classify_mime, decide_file, plan_upload, FileDecision, MediaType};
use msgboard::post::{order_feed, Post};
use msgboard::render::{render_error_page, render_feed, render_post, rejection_page};
use msgboard::text::same_text;

fn post(id: i32, timestamp: i64, subject: &str) -> Post {
    Post {
        id,
        name: "anon".to_string(),
        subject: subject.to_string(),
        body: "hello".to_string(),
        timestamp,
        media_url: None,
        media_type: None,
    }
}

#[test]
fn media_type_text_round_trip() {
    assert_eq!(MediaType::Image.to_str(), "Image");
    assert_eq!(MediaType::Video.to_str(), "Video");
    assert_eq!(MediaType::from_str("Image"), Some(MediaType::Image));
    assert_eq!(MediaType::from_str("Video"), Some(MediaType::Video));
    assert_eq!(MediaType::from_str("image"), None);
    assert_eq!(MediaType::from_str(""), None);
}

#[test]
fn mime_allow_lists() {
    for sub in ["jpeg", "jpg", "png", "gif", "webp"] {
        assert_eq!(classify_mime("image", sub), Ok(MediaType::Image));
    }
    assert_eq!(classify_mime("image", "bmp"), Err(Rejection::UnsupportedImageFormat));
    assert_eq!(classify_mime("video", "mp4"), Ok(MediaType::Video));
    assert_eq!(classify_mime("video", "webm"), Err(Rejection::UnsupportedVideoFormat));
    assert_eq!(classify_mime("application", "octet-stream"), Err(Rejection::UnsupportedMediaType));
    assert_eq!(classify_mime("text", "plain"), Err(Rejection::UnsupportedMediaType));
}

#[test]
fn classify_by_file_name() {
    assert_eq!(classify("payload.png"), Ok((MediaType::Image, "png".to_string())));
    assert_eq!(classify("photo.jpg"), Ok((MediaType::Image, "jpeg".to_string())));
    assert_eq!(classify("clip.mp4"), Ok((MediaType::Video, "mp4".to_string())));
    assert_eq!(classify("payload.exe"), Err(Rejection::UnsupportedMediaType));
    assert_eq!(classify("notes.txt"), Err(Rejection::UnsupportedMediaType));
    assert_eq!(classify("old.bmp"), Err(Rejection::UnsupportedImageFormat));
    assert_eq!(classify("movie.avi"), Err(Rejection::UnsupportedVideoFormat));
    assert_eq!(classify("noextension"), Err(Rejection::UnsupportedMediaType));
}

#[test]
fn exe_upload_is_refused_without_a_plan() {
    match decide_file(Some("payload.exe")) {
        FileDecision::Reject(e) => {
            assert_eq!(e, Rejection::UnsupportedMediaType);
            assert_eq!(e.status(), 400);
        }
        _ => panic!("an .exe file must be refused"),
    }
}

#[test]
fn missing_or_blank_file_name_is_skipped() {
    assert!(matches!(decide_file(None), FileDecision::Skip));
    assert!(matches!(decide_file(Some("")), FileDecision::Skip));
    assert!(matches!(decide_file(Some("   ")), FileDecision::Skip));
}

#[test]
fn accepted_file_gets_generated_name() {
    match decide_file(Some("../../etc/cat.png")) {
        FileDecision::Store(p) => {
            assert_eq!(p.kind, MediaType::Image);
            assert_eq!(p.file_name.len(), 40);
            assert!(p.file_name.ends_with(".png"));
            assert!(!p.file_name.contains('/'));
            assert!(!p.file_name.contains("cat"));
            assert_eq!(p.disk_path, format!("./uploads/images/{}", p.file_name));
            assert_eq!(p.url, format!("/uploads/images/{}", p.file_name));
            assert!(p.requires_decoding());
        }
        _ => panic!("a png file must be accepted"),
    }
    match decide_file(Some("clip.mp4")) {
        FileDecision::Store(p) => {
            assert_eq!(p.kind, MediaType::Video);
            assert!(p.url.starts_with("/uploads/videos/"));
            assert!(p.url.ends_with(".mp4"));
            assert!(!p.requires_decoding());
        }
        _ => panic!("an mp4 file must be accepted"),
    }
}

#[test]
fn two_plans_never_share_a_name() {
    let a = match decide_file(Some("a.gif")) {
        FileDecision::Store(p) => p.file_name,
        _ => panic!("gif accepted"),
    };
    let b = match decide_file(Some("a.gif")) {
        FileDecision::Store(p) => p.file_name,
        _ => panic!("gif accepted"),
    };
    assert_ne!(a, b);
}

#[test]
fn plan_layout() {
    let p = plan_upload(MediaType::Video, "mp4", "0123");
    assert_eq!(p.file_name, "0123.mp4");
    assert_eq!(p.disk_path, "./uploads/videos/0123.mp4");
    assert_eq!(p.url, "/uploads/videos/0123.mp4");
}

#[test]
fn escaping_neutralises_script() {
    let page = render_error_page("t", "<script>alert('x')</script>");
    assert!(page.contains("<p>&lt;script&gt;alert(&#x27;x&#x27;)&lt;&#x2F;script&gt;</p>"));
    let page = render_error_page("t", "a & \"b\"");
    assert!(page.contains("<p>a &amp; &quot;b&quot;</p>"));
    let page = render_error_page("t", "plain");
    assert!(page.contains("<p>plain</p>"));
}

#[test]
fn rendered_post_escapes_every_field() {
    let mut p = post(7, 100, "<script>alert(1)</script>");
    p.name = "<b>me</b>".to_string();
    p.body = "x<script>y".to_string();
    p.media_url = Some("/uploads/images/\"><script>.png".to_string());
    p.media_type = Some(MediaType::Image);
    let html = render_post(&p);
    assert!(!html.contains("<script>"));
    assert!(html.contains("&lt;script&gt;alert(1)&lt;&#x2F;script&gt;"));
    assert!(html.contains("&lt;b&gt;me&lt;&#x2F;b&gt;"));
    assert!(html.contains("<img class=\"post-image\""));
    assert!(html.contains("id=\"thread_7\""));
    assert!(html.contains("threads/thread_7.html"));
}

#[test]
fn rendered_video_post() {
    let mut p = post(3, 100, "s");
    p.media_url = Some("/uploads/videos/a.mp4".to_string());
    p.media_type = Some(MediaType::Video);
    let html = render_post(&p);
    assert!(html.contains("<video class=\"post-video\" controls>"));
    assert!(html.contains("<source src=\"&#x2F;uploads&#x2F;videos&#x2F;a.mp4\" type=\"video/mp4\">"));
    assert!(!html.contains("<img"));
}

#[test]
fn post_without_media_has_no_files_block() {
    let html = render_post(&post(1, 1, "s"));
    assert!(!html.contains("class=\"files\""));
    let mut q = post(2, 1, "s");
    q.media_url = Some("/uploads/images/a.png".to_string());
    let html = render_post(&q);
    assert!(!html.contains("class=\"files\""));
}

#[test]
fn empty_feed_shows_placeholder() {
    assert_eq!(render_feed(&Vec::new()), "<p>No posts yet.</p>");
}

#[test]
fn feed_joins_posts_in_given_order() {
    let posts = vec![post(2, 20, "second"), post(1, 10, "first")];
    let html = render_feed(&posts);
    let a = render_post(&posts[0]);
    let b = render_post(&posts[1]);
    assert_eq!(html, format!("{}\n{}", a, b));
    assert!(html.find("second").unwrap() < html.find("first").unwrap());
}

#[test]
fn feed_order_is_timestamp_then_id_descending() {
    let posts = vec![post(1, 10, "a"), post(3, 30, "c"), post(2, 30, "b"), post(4, 20, "d")];
    let ordered = order_feed(posts);
    let ids: Vec<i32> = ordered.iter().map(|p| p.id).collect();
    assert_eq!(ids, vec![3, 2, 4, 1]);
    assert!(order_feed(Vec::new()).is_empty());
}

#[test]
fn error_page_escapes_text() {
    let page = render_error_page("Bad <Request>", "a&b");
    assert!(page.contains("<title>Bad &lt;Request&gt;</title>"));
    assert!(page.contains("<h1>Bad &lt;Request&gt;</h1>"));
    assert!(page.contains("<p>a&amp;b</p>"));
    assert!(page.contains("<a href=\"/\">Back to Home</a>"));
}

#[test]
fn rejections_map_to_status_and_page() {
    assert_eq!(Rejection::EmptyField.status(), 400);
    assert_eq!(Rejection::InvalidImage.status(), 400);
    assert_eq!(Rejection::UnsupportedMediaType.status(), 400);
    assert_eq!(Rejection::StoreFailure.status(), 500);
    assert_eq!(Rejection::LoadFailure.status(), 500);
    let page = rejection_page(Rejection::EmptyField);
    assert!(page.contains("<h1>Bad Request</h1>"));
    assert!(page.contains("Name, Subject, and Comment cannot be empty"));
    let page = rejection_page(Rejection::StoreFailure);
    assert!(page.contains("<h1>Internal Server Error</h1>"));
    assert!(page.contains("Failed to save post"));
}

#[test]
fn field_names() {
    assert_eq!(field_kind(Some("name")), FieldKind::Name);
    assert_eq!(field_kind(Some("subject")), FieldKind::Subject);
    assert_eq!(field_kind(Some("body")), FieldKind::Body);
    assert_eq!(field_kind(Some("file")), FieldKind::File);
    assert_eq!(field_kind(Some("csrf_token")), FieldKind::Other);
    assert_eq!(field_kind(None), FieldKind::Other);
}

#[test]
fn valid_submission_builds_trimmed_post() {
    let mut s = Submission::new();
    s.append_text(FieldKind::Name, b"  anon ");
    s.append_text(FieldKind::Subject, b"hi");
    s.append_text(FieldKind::Subject, b" there\n");
    s.append_text(FieldKind::Body, b"\tbody text ");
    s.append_text(FieldKind::Other, b"ignored");
    match s.finish(1234) {
        Ok(p) => {
            assert_eq!(p.id, 0);
            assert_eq!(p.name, "anon");
            assert_eq!(p.subject, "hi there");
            assert_eq!(p.body, "body text");
            assert_eq!(p.timestamp, 1234);
            assert!(p.media_url.is_none());
            assert!(p.media_type.is_none());
        }
        Err(_) => panic!("valid submission refused"),
    }
}

#[test]
fn empty_name_is_refused_even_with_file() {
    let mut s = Submission::new();
    s.append_text(FieldKind::Subject, b"subject");
    s.append_text(FieldKind::Body, b"body");
    let plan = plan_upload(MediaType::Image, "png", "abc");
    assert_eq!(s.attach(&plan, true), Ok(()));
    match s.finish(1) {
        Err(e) => {
            assert_eq!(e, Rejection::EmptyField);
            assert_eq!(e.status(), 400);
        }
        Ok(_) => panic!("empty name accepted"),
    }
    let mut s = Submission::new();
    s.append_text(FieldKind::Name, b"   ");
    s.append_text(FieldKind::Subject, b"subject");
    s.append_text(FieldKind::Body, b"body");
    assert!(matches!(s.finish_now(), Err(Rejection::EmptyField)));
}

#[test]
fn undecodable_image_is_refused_and_not_recorded() {
    let mut s = Submission::new();
    let plan = plan_upload(MediaType::Image, "png", "abc");
    assert_eq!(s.attach(&plan, false), Err(Rejection::InvalidImage));
    assert!(s.media_url.is_none());
    assert!(s.media_type.is_none());
    let video = plan_upload(MediaType::Video, "mp4", "def");
    assert_eq!(s.attach(&video, false), Ok(()));
    assert_eq!(s.media_url.as_deref(), Some("/uploads/videos/def.mp4"));
    assert_eq!(s.media_type, Some(MediaType::Video));
}

#[test]
fn attached_file_reaches_post() {
    let mut s = Submission::new();
    s.append_text(FieldKind::Name, b"n");
    s.append_text(FieldKind::Subject, b"s");
    s.append_text(FieldKind::Body, b"b");
    let plan = plan_upload(MediaType::Image, "gif", "tok");
    assert_eq!(s.attach(&plan, true), Ok(()));
    let p = s.finish_now().ok().unwrap();
    assert_eq!(p.media_url.as_deref(), Some("/uploads/images/tok.gif"));
    assert_eq!(p.media_type, Some(MediaType::Image));
}

#[test]
fn store_outcomes() {
    assert_eq!(store_outcome(true), Ok(()));
    assert_eq!(store_outcome(false), Err(Rejection::StoreFailure));
}

#[test]
fn text_helpers() {
    assert!(render_post(&post(0, 1, "s")).contains("id=\"thread_0\""));
    assert!(render_post(&post(42, 1, "s")).contains("id=\"op_42\""));
    assert!(render_post(&post(-7, 1, "s")).contains("thread_-7.html"));
    let mut s = Submission::new();
    s.append_text(FieldKind::Name, &[0x61, 0xff, 0x62]);
    s.append_text(FieldKind::Subject, b"  a b \n");
    s.append_text(FieldKind::Body, b"ok");
    let p = s.finish(0).ok().unwrap();
    assert_eq!(p.name, "a\u{FFFD}b");
    assert_eq!(p.subject, "a b");
    assert_eq!(p.body, "ok");
    assert!(same_text("abc", "abc"));
    assert!(!same_text("abc", "abd"));
    assert!(!same_text("abc", "ab"));
}

#[test]
fn row_conversion() {
    let p = Post::from_row(
        5,
        "n".to_string(),
        "s".to_string(),
        "b".to_string(),
        99,
        Some("/uploads/videos/x.mp4".to_string()),
        Some("Video".to_string()),
    );
    assert_eq!(p.media_type, Some(MediaType::Video));
    assert_eq!(p.media_type_text(), Some("Video"));
    let q = Post::from_row(6, "n".to_string(), "s".to_string(), "b".to_string(), 1, None, Some("Audio".to_string()));
    assert_eq!(q.media_type, None);
    assert_eq!(q.media_type_text(), None);
}

#[test]
fn feed_never_carries_script_tag() {
    let mut a = post(1, 10, "<script>alert(1)</script>");
    a.name = "<script>".to_string();
    let mut b = post(2, 20, "ok");
    b.body = "<<script>>".to_string();
    b.media_url = Some("<script>".to_string());
    b.media_type = Some(MediaType::Video);
    let html = render_feed(&order_feed(vec![a, b]));
    assert!(!html.contains("<script>"));
    assert!(html.contains("&lt;script&gt;"));
    assert!(html.contains("&lt;&lt;script&gt;&gt;"));
}

#[test]
fn feed_shows_escaped_subject_and_body_of_new_post() {
    let mut p = post(9, 50, "Tom & Jerry");
    p.body = "1 < 2".to_string();
    let html = render_feed(&order_feed(vec![post(1, 10, "old"), p]));
    assert!(html.contains("Tom &amp; Jerry"));
    assert!(html.contains("1 &lt; 2"));
    assert!(html.find("Tom &amp; Jerry").unwrap() < html.find("old").unwrap());
}
