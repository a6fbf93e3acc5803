//! The request router: classifies each message, checks its payload, asks
//! storage, and writes the reply.
use crate::config::BINARY_VERSION;
use crate::database::{BukuDatabase, DbError};
use crate::json::Json;
use crate::native_messaging::{frame, write_output, NativeMessagingError, ONE_MEGABYTE_BYTES};
use crate::pagination::{split_spec, BookmarksSplitOffset, BookmarksSplitPayloadSize};
use crate::request::{
    classify, decode_delete, decode_get, decode_post, decode_put, delete_request, get_request,
    method_of, post_request, put_request, Method,
};
use crate::response::{
    ids_bytes, ids_text, json_string, push_quoted, push_text, status_bytes, status_text, text,
};
use crate::types::{BookmarkId, SavedBookmark, UnsavedBookmark};
use vstd::prelude::*;

verus! {

/// Why the server has no database to work with.
#[derive(Clone, Copy, Debug, PartialEq, Eq, Structural)]
pub enum InitError {
    FailedToLocateBukuDatabase,
    FailedToAccessBukuDatabase,
}

/// The message that tells the browser why there is no database.
pub open spec fn init_error_message(err: InitError) -> &'static str {
    match err {
        InitError::FailedToLocateBukuDatabase => "Failed to locate Buku database.",
        InitError::FailedToAccessBukuDatabase => "Failed to access Buku database.",
    }
}

pub fn map_init_err_friendly_msg(err: &InitError) -> (r: &'static str)
    ensures
        r == init_error_message(*err),
{
    match err {
        InitError::FailedToLocateBukuDatabase => "Failed to locate Buku database.",
        InitError::FailedToAccessBukuDatabase => "Failed to access Buku database.",
    }
}

/// A failure reply that explains itself.
pub open spec fn message_text(msg: Seq<char>) -> Seq<u8> {
    text("{\"message\":") + json_string(msg) + text(",\"success\":false}")
}

/// The reply to a request that names no method.
pub open spec fn no_method_text() -> Seq<u8> {
    message_text("Missing method type."@)
}

/// The reply to a request that names a method this host does not know.
pub open spec fn unknown_method_text() -> Seq<u8> {
    message_text("Unrecognised method type."@)
}

/// The reply to a request whose payload does not have the shape its method
/// needs.
pub open spec fn bad_payload_text() -> Seq<u8> {
    message_text("Bad request payload."@)
}

/// The reply to every request when there is no database.
pub open spec fn init_error_text(err: InitError) -> Seq<u8> {
    message_text(init_error_message(err)@)
}

/// The reply that gives the host's version.
pub open spec fn options_text() -> Seq<u8> {
    text("{\"binaryVersion\":") + json_string(BINARY_VERSION@) + text(",\"success\":true}")
}

/// The reply that lists the page of `bms` starting at `offset`, within the
/// browser's message limit; a plain failure when its first record cannot fit.
pub open spec fn listing_text(bms: Seq<SavedBookmark>, offset: Option<usize>) -> Seq<u8> {
    let start = match offset {
        Some(o) => BookmarksSplitOffset::Offset(o),
        None => BookmarksSplitOffset::Unset,
    };
    match split_spec(bms, start, BookmarksSplitPayloadSize::Limited(ONE_MEGABYTE_BYTES)) {
        Ok(b) => b,
        Err(_) => status_text(false),
    }
}

/// The replies the router may give to `payload`. Where storage is asked, the
/// reply follows from what it answered, which is open here.
pub open spec fn reply_spec<T>(db: Result<T, InitError>, payload: Json, out: Seq<u8>) -> bool {
    match db {
        Err(e) => out == init_error_text(e),
        Ok(_) => match method_of(payload) {
            Method::NoMethod => out == no_method_text(),
            Method::UnknownMethod => out == unknown_method_text(),
            Method::Options => out == options_text(),
            Method::Get => match get_request(payload) {
                None => out == bad_payload_text(),
                Some(offset) => out == status_text(false) || exists|bms: Seq<SavedBookmark>|
                    #[trigger] listing_text(bms, offset) == out,
            },
            Method::Post => match post_request(payload) {
                None => out == bad_payload_text(),
                Some(_) => out == status_text(false) || exists|ids: Seq<usize>|
                    #[trigger] ids_text(ids) == out,
            },
            Method::Put => match put_request(payload) {
                None => out == bad_payload_text(),
                Some(_) => out == status_text(true) || out == status_text(false),
            },
            Method::Delete => match delete_request(payload) {
                None => out == bad_payload_text(),
                Some(_) => out == status_text(true) || out == status_text(false),
            },
        },
    }
}

/// What the serving loop does after one attempt to read a request.
#[derive(Debug)]
pub enum ListenStep {
    /// Write this frame, then read the next request.
    Reply(Vec<u8>),
    /// Stop serving, with this outcome.
    Stop(Result<(), NativeMessagingError>),
}

/// A failure reply that explains itself.
fn message_bytes(msg: &str) -> (r: Vec<u8>)
    ensures
        r@ == message_text(msg@),
{
    let mut out: Vec<u8> = Vec::new();
    push_text(&mut out, "{\"message\":");
    push_quoted(&mut out, msg);
    push_text(&mut out, ",\"success\":false}");
    out
}

/// Answers requests against a database, or, when there is none, says why to
/// every request.
pub struct Server<T> {
    pub db: Result<T, InitError>,
}

impl<T: BukuDatabase> Server<T> {
    pub fn new(db: Result<T, InitError>) -> (r: Self)
        ensures
            r.db == db,
    {
        Self { db }
    }

    /// Reads the method a payload names.
    pub fn method_deserializer(&self, payload: Json) -> (r: Method)
        ensures
            r == method_of(payload),
    {
        classify(&payload)
    }

    /// Serves one request: checks it, asks storage, and writes the reply.
    pub fn router(&self, payload: Json) -> (r: Vec<u8>)
        ensures
            reply_spec(self.db, payload, r@),
    {
        match &self.db {
            Ok(db) => match classify(&payload) {
                Method::Get => match decode_get(&payload) {
                    Some(offset) => self.get(db, &offset),
                    None => self.fail_bad_payload(),
                },
                Method::Options => self.options(),
                Method::Post => match decode_post(&payload) {
                    Some(bms) => self.post(db, &bms),
                    None => self.fail_bad_payload(),
                },
                Method::Put => match decode_put(&payload) {
                    Some(bms) => self.put(db, &bms),
                    None => self.fail_bad_payload(),
                },
                Method::Delete => match decode_delete(&payload) {
                    Some(ids) => self.delete(db, &ids),
                    None => self.fail_bad_payload(),
                },
                Method::UnknownMethod => self.fail_unknown_method(),
                Method::NoMethod => self.fail_no_method(),
            },
            Err(err) => self.fail_init_error(err),
        }
    }

    /// Decides what the serving loop does with the outcome of reading one
    /// request: answer it in a frame, or stop. A reply too large for the
    /// browser stops the loop, since no smaller correct reply exists.
    pub fn listen_step(&self, incoming: Result<Json, NativeMessagingError>) -> (r: ListenStep)
        ensures
            match incoming {
                Err(e) => r matches ListenStep::Stop(Err(x)) && x == e,
                Ok(payload) => exists|reply: Seq<u8>|
                    #![trigger reply_spec(self.db, payload, reply)]
                    {
                        &&& reply_spec(self.db, payload, reply)
                        &&& reply.len() <= ONE_MEGABYTE_BYTES ==> (r matches ListenStep::Reply(f)
                            && f@ == frame(reply))
                        &&& reply.len() > ONE_MEGABYTE_BYTES ==> (r matches ListenStep::Stop(
                            Err(x),
                        ) && x == NativeMessagingError::MessageTooLarge(reply.len() as usize))
                    },
            },
    {
        match incoming {
            Ok(payload) => {
                let ghost p = payload;
                let reply = self.router(payload);
                let ghost seen = reply@;
                match write_output(reply.as_slice()) {
                    Ok(f) => ListenStep::Reply(f),
                    Err(e) => {
                        assert(reply_spec(self.db, p, seen));
                        ListenStep::Stop(Err(e))
                    },
                }
            },
            Err(e) => ListenStep::Stop(Err(e)),
        }
    }

    fn get(&self, db: &T, offset_opt: &Option<usize>) -> (r: Vec<u8>)
        ensures
            r@ == status_text(false) || exists|bms: Seq<SavedBookmark>|
                #[trigger] listing_text(bms, *offset_opt) == r@,
    {
        let bookmarks = db.get_all_bookmarks();
        let r = self.respond_get(&bookmarks, offset_opt);
        if let Ok(bms) = &bookmarks {
            assert(listing_text(bms@, *offset_opt) == r@);
        }
        r
    }

    /// The reply to a listing, given what storage answered.
    pub fn respond_get(
        &self,
        bookmarks: &Result<Vec<SavedBookmark>, DbError>,
        offset_opt: &Option<usize>,
    ) -> (r: Vec<u8>)
        ensures
            r@ == match bookmarks {
                Ok(bms) => listing_text(bms@, *offset_opt),
                Err(_) => status_text(false),
            },
    {
        let offset = match offset_opt {
            Some(o) => BookmarksSplitOffset::Offset(*o),
            None => BookmarksSplitOffset::Unset,
        };
        match bookmarks {
            Ok(bms) => match self.split_bookmarks_subset(
                bms,
                offset,
                BookmarksSplitPayloadSize::Limited(ONE_MEGABYTE_BYTES),
            ) {
                Ok(page) => page,
                Err(_) => status_bytes(false),
            },
            Err(_) => status_bytes(false),
        }
    }

    fn options(&self) -> (r: Vec<u8>)
        ensures
            r@ == options_text(),
    {
        let mut out: Vec<u8> = Vec::new();
        push_text(&mut out, "{\"binaryVersion\":");
        push_quoted(&mut out, BINARY_VERSION);
        push_text(&mut out, ",\"success\":true}");
        out
    }

    fn post(&self, db: &T, bms: &Vec<UnsavedBookmark>) -> (r: Vec<u8>)
        ensures
            r@ == status_text(false) || exists|ids: Seq<usize>| #[trigger] ids_text(ids) == r@,
    {
        let added = db.add_bookmarks(bms);
        let r = self.respond_post(&added);
        if let Ok(ids) = &added {
            assert(ids_text(ids@) == r@);
        }
        r
    }

    /// The reply to an addition, given what storage answered.
    pub fn respond_post(&self, added: &Result<Vec<usize>, DbError>) -> (r: Vec<u8>)
        ensures
            r@ == match added {
                Ok(ids) => ids_text(ids@),
                Err(_) => status_text(false),
            },
    {
        match added {
            Ok(ids) => ids_bytes(ids),
            Err(_) => status_bytes(false),
        }
    }

    fn put(&self, db: &T, bms: &Vec<SavedBookmark>) -> (r: Vec<u8>)
        ensures
            r@ == status_text(true) || r@ == status_text(false),
    {
        let update = db.update_bookmarks(bms);
        status_bytes(update.is_ok())
    }

    fn delete(&self, db: &T, bm_ids: &Vec<BookmarkId>) -> (r: Vec<u8>)
        ensures
            r@ == status_text(true) || r@ == status_text(false),
    {
        let deletion = db.delete_bookmarks(bm_ids);
        status_bytes(deletion.is_ok())
    }

    pub fn fail_generic(&self) -> (r: Vec<u8>)
        ensures
            r@ == status_text(false),
    {
        status_bytes(false)
    }

    pub fn fail_no_method(&self) -> (r: Vec<u8>)
        ensures
            r@ == no_method_text(),
    {
        message_bytes("Missing method type.")
    }

    pub fn fail_unknown_method(&self) -> (r: Vec<u8>)
        ensures
            r@ == unknown_method_text(),
    {
        message_bytes("Unrecognised method type.")
    }

    pub fn fail_bad_payload(&self) -> (r: Vec<u8>)
        ensures
            r@ == bad_payload_text(),
    {
        message_bytes("Bad request payload.")
    }

    pub fn fail_init_error(&self, err: &InitError) -> (r: Vec<u8>)
        ensures
            r@ == init_error_text(*err),
    {
        message_bytes(map_init_err_friendly_msg(err))
    }
}

} // verus!
