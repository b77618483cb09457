use posts_api::database::Database;
use posts_api::handlers::{
    create, error_response, find_by_id, found_response, list, respond_to_id,
    status_response, JsonAfterMiddleware, Response,
};
use posts_api::json::{encode_post, encode_posts};
use posts_api::models::{Post, Timestamp};

const SEED_ID: u128 = 0x67e5504410b1426f9247bb680e5fe0c8;
const SEED_ID_TEXT: &str = "67e55044-10b1-426f-9247-bb680e5fe0c8";
const SEED_JSON: &str = "{\"title\":\"The First Post\",\"body\":\"This is the first post in our API\",\"author\":\"Tim\",\"date\":\"1970-01-01T00:00:00Z\",\"postId\":\"67e55044-10b1-426f-9247-bb680e5fe0c8\"}";

fn at(secs: i64) -> Timestamp {
    Timestamp::new(secs, 0).unwrap()
}

fn seed() -> Post {
    Post::new("The First Post", "This is the first post in our API", "Tim", at(0), SEED_ID)
}

fn seeded() -> Database {
    let mut db = Database::new();
    db.add_post(seed());
    db
}

fn post(title: &str, id: u128) -> Post {
    Post::new(title, "text", "someone", at(86_400), id)
}

fn status_and_body(r: &Response) -> (u16, String) {
    (r.status, r.body.clone())
}

#[test]
fn new_database_is_empty() {
    let db = Database::new();
    assert!(db.get_posts().is_empty());
}

#[test]
fn add_post_appends_at_end() {
    let mut db = seeded();
    db.add_post(post("second", 2));
    let ids: Vec<u128> = db.get_posts().iter().map(|p| p.post_id()).collect();
    assert_eq!(ids, vec![SEED_ID, 2]);
}

#[test]
fn post_new_keeps_fields() {
    let p = Post::new("t", "b", "a", Timestamp::new(5, 7).unwrap(), 9);
    assert_eq!(p.title(), "t");
    assert_eq!(p.body(), "b");
    assert_eq!(p.author(), "a");
    assert_eq!(p.date().secs(), 5);
    assert_eq!(p.date().nanos(), 7);
    assert_eq!(p.post_id(), 9);
    let c = p.clone();
    assert_eq!(c.title(), "t");
    assert_eq!(c.post_id(), 9);
}

#[test]
fn encode_post_exact_json() {
    assert_eq!(encode_post(&seed()), SEED_JSON);
}

#[test]
fn encode_post_escapes_text() {
    let p = Post::new("say \"hi\"", "line\nbreak", "back\\slash", at(0), 1);
    assert_eq!(
        encode_post(&p),
        "{\"title\":\"say \\\"hi\\\"\",\"body\":\"line\\nbreak\",\"author\":\"back\\\\slash\",\"date\":\"1970-01-01T00:00:00Z\",\"postId\":\"00000000-0000-0000-0000-000000000001\"}"
    );
}

#[test]
fn encode_post_fractional_seconds() {
    let p = Post::new("t", "b", "a", Timestamp::new(1, 500_000_000).unwrap(), 1);
    let s = encode_post(&p);
    assert!(s.contains("\"date\":\"1970-01-01T00:00:01.500Z\""));
}

#[test]
fn timestamp_out_of_range_is_refused() {
    assert!(Timestamp::new(i64::MAX, 0).is_none());
    assert!(Timestamp::new(i64::MIN, 0).is_none());
    assert!(Timestamp::new(-1, 0).is_some());
    let t = Timestamp::new(1_600_000_000, 0).unwrap();
    assert_eq!(t.text(), "2020-09-13T12:26:40Z");
}

#[test]
fn encode_posts_empty_array() {
    assert_eq!(encode_posts(&Vec::new()), "[]");
}

#[test]
fn list_empty_database() {
    let r = list(&Database::new());
    assert_eq!(status_and_body(&r), (200, "[]".to_string()));
    assert!(r.content_type.is_none());
}

#[test]
fn list_seeded_database() {
    let r = list(&seeded());
    assert_eq!(status_and_body(&r), (200, format!("[{}]", SEED_JSON)));
}

#[test]
fn list_known_post_exact_array() {
    let mut db = Database::new();
    let date = Timestamp::new(1_577_836_800, 0).unwrap();
    db.add_post(Post::new("A", "B", "C", date, SEED_ID));
    let r = list(&db);
    assert_eq!(
        status_and_body(&r),
        (200, "[{\"title\":\"A\",\"body\":\"B\",\"author\":\"C\",\"date\":\"2020-01-01T00:00:00Z\",\"postId\":\"67e55044-10b1-426f-9247-bb680e5fe0c8\"}]".to_string())
    );
}

#[test]
fn repeated_list_is_identical() {
    let mut db = seeded();
    db.add_post(post("a", 10));
    let first = list(&db);
    let _ = find_by_id(&db, SEED_ID_TEXT);
    let second = list(&db);
    assert_eq!(first.status, 200);
    assert_eq!(status_and_body(&first), status_and_body(&second));
}

#[test]
fn create_then_find_returns_submitted_post() {
    let mut db = seeded();
    let p = Post::new("Hello", "World", "Ann", at(1_600_000_000), 0xa1a2a3a4b1b2c1c2d1d2d3d4d5d6d7d8);
    let expected = encode_post(&p);
    let body = "the request body".to_string();
    let r = create(&mut db, body.clone(), Ok(p));
    assert_eq!(status_and_body(&r), (201, body));
    let found = find_by_id(&db, "a1a2a3a4-b1b2-c1c2-d1d2-d3d4d5d6d7d8");
    assert_eq!(status_and_body(&found), (200, expected.clone()));
    assert!(expected.contains("\"postId\":\"a1a2a3a4-b1b2-c1c2-d1d2-d3d4d5d6d7d8\""));
    assert!(expected.contains("\"title\":\"Hello\""));
    assert!(expected.contains("\"date\":\"2020-09-13T12:26:40Z\""));
}

#[test]
fn find_seed_by_other_uuid_forms() {
    let db = seeded();
    assert_eq!(status_and_body(&find_by_id(&db, SEED_ID_TEXT)), (200, SEED_JSON.to_string()));
    assert_eq!(find_by_id(&db, "67E55044-10B1-426F-9247-BB680E5FE0C8").status, 200);
    assert_eq!(find_by_id(&db, "67e5504410b1426f9247bb680e5fe0c8").status, 200);
}

#[test]
fn find_missing_is_not_found() {
    let db = seeded();
    let r = find_by_id(&db, "3f2504e0-4f89-11d3-9a0c-0305e82c3301");
    assert_eq!(status_and_body(&r), (404, "{}".to_string()));
}

#[test]
fn find_in_empty_database_is_not_found() {
    let r = find_by_id(&Database::new(), SEED_ID_TEXT);
    assert_eq!(status_and_body(&r), (404, "{}".to_string()));
}

#[test]
fn find_invalid_id_is_bad_request() {
    let r = find_by_id(&seeded(), "not-a-uuid");
    assert_eq!(r.status, 400);
    assert!(!r.body.is_empty());
    assert_eq!(find_by_id(&seeded(), "").status, 400);
}

#[test]
fn find_returns_first_of_duplicate_ids() {
    let mut db = seeded();
    db.add_post(Post::new("copy", "b", "a", at(0), SEED_ID));
    assert_eq!(status_and_body(&find_by_id(&db, SEED_ID_TEXT)), (200, SEED_JSON.to_string()));
    assert_eq!(db.find_post(SEED_ID).unwrap().title(), "The First Post");
}

#[test]
fn respond_to_id_cases() {
    let db = seeded();
    assert_eq!(status_and_body(&respond_to_id(&db, Err("no".to_string()))), (400, "no".to_string()));
    assert_eq!(status_and_body(&respond_to_id(&db, Ok(SEED_ID))), (200, SEED_JSON.to_string()));
    assert_eq!(status_and_body(&respond_to_id(&db, Ok(1))), (404, "{}".to_string()));
}

#[test]
fn found_response_cases() {
    assert_eq!(status_and_body(&found_response(None)), (404, "{}".to_string()));
    assert_eq!(status_and_body(&found_response(Some("x".to_string()))), (200, "x".to_string()));
}

#[test]
fn malformed_create_is_bad_request_and_leaves_database() {
    let mut db = seeded();
    let before = list(&db);
    let r = create(&mut db, "{not json".to_string(), Err("expected value".to_string()));
    assert_eq!(status_and_body(&r), (400, "expected value".to_string()));
    assert_eq!(db.get_posts().len(), 1);
    assert_eq!(status_and_body(&list(&db)), status_and_body(&before));
}

#[test]
fn create_keeps_duplicate_ids() {
    let mut db = seeded();
    let r = create(&mut db, "{}".to_string(), Ok(seed()));
    assert_eq!(r.status, 201);
    assert_eq!(db.get_posts().len(), 2);
}

#[test]
fn creates_keep_insertion_order() {
    let mut db = seeded();
    let a = post("A", 0xa);
    let b = post("B", 0xb);
    let ja = encode_post(&a);
    let jb = encode_post(&b);
    create(&mut db, "a".to_string(), Ok(a));
    create(&mut db, "b".to_string(), Ok(b));
    let r = list(&db);
    assert_eq!(status_and_body(&r), (200, format!("[{},{},{}]", SEED_JSON, ja, jb)));
}

#[test]
fn many_creates_all_kept_and_found() {
    let mut db = seeded();
    let n: u128 = 25;
    for k in 0..n {
        let r = create(&mut db, format!("{}", k), Ok(post(&format!("p{}", k), 1000 + k)));
        assert_eq!(r.status, 201);
    }
    assert_eq!(db.get_posts().len(), 1 + n as usize);
    for k in 0..n {
        let found = db.find_post(1000 + k).unwrap();
        assert_eq!(found.title(), format!("p{}", k));
        assert_eq!(respond_to_id(&db, Ok(1000 + k)).status, 200);
    }
}

#[test]
fn error_and_status_responses() {
    let r = error_response(500, "boom".to_string());
    assert_eq!(status_and_body(&r), (500, "boom".to_string()));
    let r = status_response(400);
    assert_eq!(status_and_body(&r), (400, String::new()));
    assert!(r.content_type.is_none());
}

#[test]
fn middleware_sets_json_content_type_only() {
    let m = JsonAfterMiddleware;
    assert_eq!(m.content_type(), "application/json");
    let r = m.after(found_response(None));
    assert_eq!(status_and_body(&r), (404, "{}".to_string()));
    assert_eq!(r.content_type, Some("application/json".to_string()));
    let r = m.after(error_response(400, "bad".to_string()));
    assert_eq!(status_and_body(&r), (400, "bad".to_string()));
    assert_eq!(r.content_type, Some("application/json".to_string()));
}
