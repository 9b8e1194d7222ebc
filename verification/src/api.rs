//! The HTTP handler layer: adapts the five REST endpoints onto the
//! repository. Each handler enforces identifier presence before any store
//! interaction and maps outcomes to status codes: an empty identifier is a
//! client error, zero matches is not-found, and every other repository
//! failure collapses to a server error.

use vstd::prelude::*;

use crate::model::{with_id, Blog};
use crate::oid::{spec_parse_oid, valid_oid_str};
use crate::repository::{
    has_id, spec_create, spec_delete, spec_lookup, spec_update, InsertOneResult, MongoRepo,
    RepoError,
};

verus! {

/// The HTTP status of a handler's failure, or of its success.
#[derive(Clone, Copy, PartialEq, Eq, Structural, Debug)]
pub enum Status {
    Success,
    BadRequest,
    NotFound,
    InternalServerError,
}

impl Status {
    /// The numeric HTTP status code.
    pub fn code(&self) -> (r: u16)
        ensures
            r == match *self {
                Status::Success => 200u16,
                Status::BadRequest => 400u16,
                Status::NotFound => 404u16,
                Status::InternalServerError => 500u16,
            },
    {
        match *self {
            Status::Success => 200,
            Status::BadRequest => 400,
            Status::NotFound => 404,
            Status::InternalServerError => 500,
        }
    }
}

/// The status a repository error maps to: an empty identifier is the
/// client's fault; zero matches is not-found; everything else is a generic
/// server error.
pub open spec fn spec_status_of(e: RepoError) -> Status {
    match e {
        RepoError::InvalidInput => Status::BadRequest,
        RepoError::NotFound => Status::NotFound,
        RepoError::InvalidIdentifier => Status::InternalServerError,
        RepoError::StoreError => Status::InternalServerError,
    }
}

/// Maps a repository error to the status code its response carries.
pub fn status_of(e: &RepoError) -> (r: Status)
    ensures
        r == spec_status_of(*e),
{
    match *e {
        RepoError::InvalidInput => Status::BadRequest,
        RepoError::NotFound => Status::NotFound,
        RepoError::InvalidIdentifier => Status::InternalServerError,
        RepoError::StoreError => Status::InternalServerError,
    }
}

/// Creates a post from the request body, ignoring any client-supplied id,
/// and answers the store's acknowledgment; a failed write is a server
/// error.
pub fn create_blog(db: &mut MongoRepo, new_blog: Blog) -> (r: Result<InsertOneResult, Status>)
    requires
        old(db).wf(),
    ensures
        final(db).wf(),
        r is Ok <==> old(db).id_seed() < u64::MAX,
        match r {
            Ok(ack) => {
                &&& !has_id(old(db).posts(), ack.inserted_id)
                &&& final(db).posts() == spec_create(old(db).posts(), new_blog@, ack.inserted_id)
                &&& final(db).id_seed() == old(db).id_seed() + 1
            },
            Err(st) => {
                &&& st == Status::InternalServerError
                &&& final(db).posts() == old(db).posts()
                &&& final(db).id_seed() == old(db).id_seed()
            },
        },
{
    let data = Blog {
        id: None,
        title: new_blog.title,
        body: new_blog.body,
        author: new_blog.author,
        likes: new_blog.likes,
        dislikes: new_blog.dislikes,
    };
    match db.create_blog(data) {
        Ok(ack) => Ok(ack),
        Err(_) => Err(Status::InternalServerError),
    }
}

/// Reads the post named by the path identifier. An empty identifier is
/// rejected as a client error before the store is consulted; zero matches
/// is not-found; a malformed identifier is a server error.
pub fn get_blog(db: &MongoRepo, path: String) -> (r: Result<Blog, Status>)
    requires
        db.wf(),
    ensures
        path@.len() == 0 ==> r == Err::<Blog, Status>(Status::BadRequest),
        path@.len() > 0 && !valid_oid_str(path@) ==> r == Err::<Blog, Status>(
            Status::InternalServerError,
        ),
        valid_oid_str(path@) ==> match r {
            Ok(b) => spec_lookup(db.posts(), spec_parse_oid(path@)) == Some(b@),
            Err(st) => st == Status::NotFound && spec_lookup(
                db.posts(),
                spec_parse_oid(path@),
            ) is None,
        },
{
    let id = path;
    if id.as_str().is_empty() {
        return Err(Status::BadRequest);
    }
    match db.get_blog(&id) {
        Ok(blog) => Ok(blog),
        Err(e) => Err(status_of(&e)),
    }
}

/// Replaces the mutable fields of the post named by the path identifier
/// with the request body's values, then re-fetches and answers the stored
/// post. An empty identifier is a client error; zero matches is not-found
/// and leaves the collection unchanged; a malformed identifier is a server
/// error.
pub fn update_blog(db: &mut MongoRepo, path: String, new_blog: Blog) -> (r: Result<Blog, Status>)
    requires
        old(db).wf(),
    ensures
        final(db).wf(),
        final(db).id_seed() == old(db).id_seed(),
        path@.len() == 0 ==> r == Err::<Blog, Status>(Status::BadRequest) && final(db).posts()
            == old(db).posts(),
        path@.len() > 0 && !valid_oid_str(path@) ==> r == Err::<Blog, Status>(
            Status::InternalServerError,
        ) && final(db).posts() == old(db).posts(),
        valid_oid_str(path@) && !has_id(old(db).posts(), spec_parse_oid(path@)) ==> r == Err::<
            Blog,
            Status,
        >(Status::NotFound) && final(db).posts() == old(db).posts(),
        valid_oid_str(path@) && has_id(old(db).posts(), spec_parse_oid(path@)) ==> {
            &&& final(db).posts() == spec_update(
                old(db).posts(),
                spec_parse_oid(path@),
                new_blog@,
            )
            &&& match r {
                Ok(b) => b@ == with_id(new_blog@, spec_parse_oid(path@)),
                Err(_) => false,
            }
        },
{
    let id = path;
    if id.as_str().is_empty() {
        return Err(Status::BadRequest);
    }
    let data = Blog {
        id: None,
        title: new_blog.title,
        body: new_blog.body,
        author: new_blog.author,
        likes: new_blog.likes,
        dislikes: new_blog.dislikes,
    };
    let update_result = db.update_blog(&id, data);
    match update_result {
        Ok(update) => {
            if update.matched_count == 1 {
                proof {
                    crate::laws::lemma_update_then_get(
                        old(db).posts(),
                        spec_parse_oid(id@),
                        data@,
                    );
                }
                match db.get_blog(&id) {
                    Ok(blog) => Ok(blog),
                    Err(_) => Err(Status::InternalServerError),
                }
            } else {
                Err(Status::NotFound)
            }
        },
        Err(e) => Err(status_of(&e)),
    }
}

/// Removes the post named by the path identifier and answers a literal
/// confirmation. An empty identifier is a client error; zero matches is
/// not-found and leaves the collection unchanged; a malformed identifier is
/// a server error.
pub fn delete_blog(db: &mut MongoRepo, path: String) -> (r: Result<&'static str, Status>)
    requires
        old(db).wf(),
    ensures
        final(db).wf(),
        final(db).id_seed() == old(db).id_seed(),
        path@.len() == 0 ==> r == Err::<&'static str, Status>(Status::BadRequest)
            && final(db).posts() == old(db).posts(),
        path@.len() > 0 && !valid_oid_str(path@) ==> r == Err::<&'static str, Status>(
            Status::InternalServerError,
        ) && final(db).posts() == old(db).posts(),
        valid_oid_str(path@) && !has_id(old(db).posts(), spec_parse_oid(path@)) ==> r == Err::<
            &'static str,
            Status,
        >(Status::NotFound) && final(db).posts() == old(db).posts(),
        valid_oid_str(path@) && has_id(old(db).posts(), spec_parse_oid(path@)) ==> {
            &&& final(db).posts() == spec_delete(old(db).posts(), spec_parse_oid(path@))
            &&& match r {
                Ok(msg) => msg@ == "Blog successfullly deleted!"@,
                Err(_) => false,
            }
        },
{
    let id = path;
    if id.as_str().is_empty() {
        return Err(Status::BadRequest);
    }
    let delete_result = db.delete_blog(&id);
    match delete_result {
        Ok(res) => {
            if res.deleted_count == 1 {
                Ok("Blog successfullly deleted!")
            } else {
                Err(Status::NotFound)
            }
        },
        Err(e) => Err(status_of(&e)),
    }
}

/// Answers every stored post; reading the explicit state cannot fail.
pub fn get_all_blogs(db: &MongoRepo) -> (r: Result<Vec<Blog>, Status>)
    requires
        db.wf(),
    ensures
        match r {
            Ok(v) => Seq::new(v@.len(), |i: int| v@[i]@) == db.posts(),
            Err(_) => false,
        },
{
    match db.get_all_blogs() {
        Ok(blogs) => Ok(blogs),
        Err(e) => Err(status_of(&e)),
    }
}

} // verus!
