use blog_backend::api::{
    create_blog, delete_blog, get_all_blogs, get_blog, update_blog, Status,
};
use blog_backend::model::Blog;
use blog_backend::oid::{id_to_hex, parse_object_id};
use blog_backend::repository::MongoRepo;
use blog_backend::routes::{rocket, Method};

fn post(title: &str, body: &str, author: &str, likes: u32, dislikes: u32) -> Blog {
    Blog {
        id: None,
        title: title.to_string(),
        body: body.to_string(),
        author: author.to_string(),
        likes,
        dislikes,
    }
}

#[test]
fn status_codes() {
    assert_eq!(Status::Success.code(), 200);
    assert_eq!(Status::BadRequest.code(), 400);
    assert_eq!(Status::NotFound.code(), 404);
    assert_eq!(Status::InternalServerError.code(), 500);
}

#[test]
fn create_then_get_returns_same_fields() {
    let mut db = MongoRepo::init();
    let ack = create_blog(&mut db, post("A", "B", "C", 0, 0)).unwrap();
    let doc = get_blog(&db, id_to_hex(&ack.inserted_id)).unwrap();
    assert_eq!(doc.title, "A");
    assert_eq!(doc.body, "B");
    assert_eq!(doc.author, "C");
    assert_eq!(doc.likes, 0);
    assert_eq!(doc.dislikes, 0);
    assert_eq!(doc.id, Some(ack.inserted_id));
}

#[test]
fn create_ignores_client_supplied_id() {
    let mut db = MongoRepo::init();
    let client_id = parse_object_id("ffffffffffffffffffffffff").unwrap();
    let mut b = post("A", "B", "C", 1, 2);
    b.id = Some(client_id);
    let ack = create_blog(&mut db, b).unwrap();
    assert_ne!(ack.inserted_id, client_id);
    let doc = get_blog(&db, id_to_hex(&ack.inserted_id)).unwrap();
    assert_eq!(doc.id, Some(ack.inserted_id));
}

#[test]
fn get_empty_id_is_client_error() {
    let db = MongoRepo::init();
    let r = get_blog(&db, String::new());
    assert_eq!(r.err(), Some(Status::BadRequest));
    assert_eq!(Status::BadRequest.code(), 400);
}

#[test]
fn get_malformed_id_is_server_error() {
    let db = MongoRepo::init();
    let r = get_blog(&db, "not-a-hex-identifier".to_string());
    assert_eq!(r.err(), Some(Status::InternalServerError));
}

#[test]
fn get_missing_id_is_not_found() {
    let db = MongoRepo::init();
    let r = get_blog(&db, "0123456789abcdef01234567".to_string());
    assert_eq!(r.err(), Some(Status::NotFound));
}

#[test]
fn update_zero_matches_is_not_found_and_leaves_collection_unchanged() {
    let mut db = MongoRepo::init();
    create_blog(&mut db, post("A", "B", "C", 0, 0)).unwrap();
    let before: Vec<Blog> = get_all_blogs(&db).unwrap();
    let r = update_blog(
        &mut db,
        "ffffffffffffffffffffffff".to_string(),
        post("X", "Y", "Z", 9, 9),
    );
    assert_eq!(r.err(), Some(Status::NotFound));
    let after = get_all_blogs(&db).unwrap();
    assert_eq!(after.len(), before.len());
    assert_eq!(after[0].title, "A");
    assert_eq!(after[0].likes, 0);
}

#[test]
fn update_empty_id_is_client_error() {
    let mut db = MongoRepo::init();
    let r = update_blog(&mut db, String::new(), post("X", "Y", "Z", 1, 1));
    assert_eq!(r.err(), Some(Status::BadRequest));
}

#[test]
fn update_replaces_every_mutable_field() {
    let mut db = MongoRepo::init();
    let ack = create_blog(&mut db, post("A", "B", "C", 0, 0)).unwrap();
    let hex = id_to_hex(&ack.inserted_id);
    let updated = update_blog(&mut db, hex.clone(), post("A2", "B2", "C2", 7, 3)).unwrap();
    assert_eq!(updated.title, "A2");
    assert_eq!(updated.body, "B2");
    assert_eq!(updated.author, "C2");
    assert_eq!(updated.likes, 7);
    assert_eq!(updated.dislikes, 3);
    assert_eq!(updated.id, Some(ack.inserted_id));
    let refetched = get_blog(&db, hex).unwrap();
    assert_eq!(refetched.title, "A2");
    assert_eq!(refetched.body, "B2");
    assert_eq!(refetched.author, "C2");
    assert_eq!(refetched.likes, 7);
    assert_eq!(refetched.dislikes, 3);
}

#[test]
fn delete_existing_removes_exactly_one() {
    let mut db = MongoRepo::init();
    let first = create_blog(&mut db, post("A", "B", "C", 0, 0)).unwrap();
    create_blog(&mut db, post("D", "E", "F", 1, 1)).unwrap();
    let hex = id_to_hex(&first.inserted_id);
    let msg = delete_blog(&mut db, hex.clone()).unwrap();
    assert_eq!(msg, "Blog successfullly deleted!");
    assert_eq!(get_all_blogs(&db).unwrap().len(), 1);
    let r = get_blog(&db, hex);
    assert_eq!(r.err(), Some(Status::NotFound));
}

#[test]
fn delete_missing_is_not_found() {
    let mut db = MongoRepo::init();
    let r = delete_blog(&mut db, "0123456789abcdef01234567".to_string());
    assert_eq!(r.err(), Some(Status::NotFound));
}

#[test]
fn delete_empty_id_is_client_error() {
    let mut db = MongoRepo::init();
    let r = delete_blog(&mut db, String::new());
    assert_eq!(r.err(), Some(Status::BadRequest));
}

#[test]
fn list_empty_then_counts_inserts() {
    let mut db = MongoRepo::init();
    assert_eq!(get_all_blogs(&db).unwrap().len(), 0);
    for i in 0..5u32 {
        create_blog(&mut db, post("t", "b", "a", i, 0)).unwrap();
    }
    let all = get_all_blogs(&db).unwrap();
    assert_eq!(all.len(), 5);
}

#[test]
fn repository_counts_matched_and_deleted() {
    let mut db = MongoRepo::init();
    let ack = db.create_blog(post("A", "B", "C", 0, 0)).unwrap();
    let hex = id_to_hex(&ack.inserted_id);
    let upd = db.update_blog(&hex, post("A2", "B2", "C2", 1, 1)).unwrap();
    assert_eq!(upd.matched_count, 1);
    assert_eq!(upd.modified_count, 1);
    let missing = db
        .update_blog(&"ffffffffffffffffffffffff".to_string(), post("X", "Y", "Z", 0, 0))
        .unwrap();
    assert_eq!(missing.matched_count, 0);
    let del = db.delete_blog(&hex).unwrap();
    assert_eq!(del.deleted_count, 1);
    let del_again = db.delete_blog(&hex).unwrap();
    assert_eq!(del_again.deleted_count, 0);
}

#[test]
fn route_table_mounts_all_routes_twice() {
    let svc = rocket();
    let routes = &svc.routes;
    assert_eq!(routes.len(), 10);
    assert_eq!(routes[0].method, Method::Post);
    assert_eq!(routes[0].base, "/");
    assert_eq!(routes[0].path, "/blog");
    assert_eq!(routes[1].method, Method::Get);
    assert_eq!(routes[1].path, "/blog/<path>");
    assert_eq!(routes[2].method, Method::Put);
    assert_eq!(routes[3].method, Method::Delete);
    assert_eq!(routes[4].method, Method::Get);
    assert_eq!(routes[4].path, "/blogs");
    assert!(routes[..5].iter().all(|r| r.base == "/"));
    assert!(routes[5..].iter().all(|r| r.base == "/users"));
    assert_eq!(routes[5].method, Method::Post);
    assert_eq!(routes[5].path, "/blog");
    assert_eq!(routes[6].method, Method::Get);
    assert_eq!(routes[6].path, "/blogs");
    assert_eq!(routes[7].method, Method::Put);
    assert_eq!(routes[8].method, Method::Delete);
    assert_eq!(routes[9].method, Method::Get);
    assert_eq!(routes[9].path, "/blog/<path>");
}

#[test]
fn fresh_service_holds_no_documents() {
    let svc = rocket();
    assert_eq!(get_all_blogs(&svc.db).unwrap().len(), 0);
}
