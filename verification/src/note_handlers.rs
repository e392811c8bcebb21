//! The endpoints of notes: listing, creating, changing and deleting them,
//! and the rules for an image that comes with one.

use crate::auth_handlers::unauthorized;
use crate::jwt::Claims;
use crate::messages::{
    CreateNote, CreateNoteRequest, CreateNoteView, DeleteNote, FetchNotes, FetchUserNotes,
    NoteQuery, NotesPage, Reply, Step, UpdateNote, UpdateNoteRequest, UpdateNoteView, UploadedFile,
};
use crate::models::{notes_view, text_view, Note, NoteView};
use crate::notes::ActiveStatus;
use crate::response::{
    message_response, plain_response, Body, BodyView, Response, ResponseView, Status,
};
use crate::text::{ends_with, has_suffix, integer_text, integer_to_text, same_text};
use vstd::prelude::*;
use vstd::string::StringExecFns;

verus! {

/// The largest image that is taken, in bytes: ten mebibytes.
pub const MAX_FILE_SIZE: u64 = 10_485_760;

/// What is wrong with an uploaded image, if anything: its name must be there
/// and end in `.png` or `.jpg`, and its size must be above zero and at most
/// `max_file_size`. The name is judged before the size.
pub open spec fn image_fault(file_name: Option<Seq<char>>, file_size: usize, max_file_size: u64) -> Option<
    Seq<char>,
> {
    match file_name {
        None => Some("File name is missing"@),
        Some(name) => if !has_suffix(name, ".png"@) && !has_suffix(name, ".jpg"@) {
            Some("Invalid file type"@)
        } else if file_size == 0 {
            Some("Invalid file size"@)
        } else if file_size > max_file_size {
            Some("File size too long"@)
        } else {
            None
        },
    }
}

/// Checks an uploaded image; a faulty one is answered with `BadRequest` and
/// the fault in words.
pub fn upload_image_validation(file_name: Option<String>, file_size: usize, max_file_size: u64) -> (verdict:
    Result<(), Response>)
    ensures
        match verdict {
            Ok(_) => image_fault(text_view(file_name), file_size, max_file_size) is None,
            Err(response) => image_fault(text_view(file_name), file_size, max_file_size) == Some(
                response@.body->Message_message,
            ) && response@ == message_response(Status::BadRequest, response@.body->Message_message),
        },
{
    match file_name {
        Some(name) => {
            if !ends_with(name.as_str(), ".png") && !ends_with(name.as_str(), ".jpg") {
                return Err(Response::message(Status::BadRequest, "Invalid file type"));
            }
        },
        None => {
            return Err(Response::message(Status::BadRequest, "File name is missing"));
        },
    }
    if file_size == 0 {
        return Err(Response::message(Status::BadRequest, "Invalid file size"));
    }
    if file_size as u64 > max_file_size {
        return Err(Response::message(Status::BadRequest, "File size too long"));
    }
    Ok(())
}

/// The status that a query asks for: `active`, `inactive`, or none for
/// anything else.
pub open spec fn status_of(text: Option<Seq<char>>) -> Option<ActiveStatus> {
    match text {
        Some(text) => if text == "active"@ {
            Some(ActiveStatus::Active)
        } else if text == "inactive"@ {
            Some(ActiveStatus::Inactive)
        } else {
            None
        },
        None => None,
    }
}

/// The status that a query asks for.
pub fn parse_active_status(text: &Option<String>) -> (status: Option<ActiveStatus>)
    ensures
        status == status_of(text_view(*text)),
{
    match text {
        Some(text) => {
            if same_text(text.as_str(), "active") {
                Some(ActiveStatus::Active)
            } else if same_text(text.as_str(), "inactive") {
                Some(ActiveStatus::Inactive)
            } else {
                None
            }
        },
        None => None,
    }
}

/// What a listing of notes asks of the store: the query as it came, with its
/// status read.
pub fn fetch_notes(query: NoteQuery) -> (message: FetchNotes)
    ensures
        text_view(message.search) == text_view(query.search),
        text_view(message.sort_field) == text_view(query.sort_field),
        text_view(message.sort_order) == text_view(query.sort_order),
        message.limit == query.limit,
        message.page == query.page,
        message.active_status == status_of(text_view(query.active_status)),
{
    let active_status = parse_active_status(&query.active_status);
    FetchNotes {
        search: query.search,
        sort_field: query.sort_field,
        sort_order: query.sort_order,
        limit: query.limit,
        page: query.page,
        active_status,
    }
}

/// The answer to a listing of notes once the store has replied.
pub fn fetch_notes_reply(reply: Reply<NotesPage>) -> (response: Response)
    ensures
        response@ == (match reply {
            Reply::Done(found) => plain_response(
                Status::Success,
                BodyView::NotesPage {
                    total_notes: found.total_notes,
                    number_of_page: found.number_of_page,
                    page: found.page,
                    notes: notes_view(found.notes@),
                },
            ),
            Reply::Failed => message_response(Status::NotFound, "no notes found"@),
            Reply::Unreachable => message_response(
                Status::InternalServerError,
                "unable to retrieve notes"@,
            ),
        }),
{
    match reply {
        Reply::Done(found) => Response::plain(
            Status::Success,
            Body::NotesPage {
                total_notes: found.total_notes,
                number_of_page: found.number_of_page,
                page: found.page,
                notes: found.notes,
            },
        ),
        Reply::Failed => Response::message(Status::NotFound, "no notes found"),
        Reply::Unreachable => Response::message(
            Status::InternalServerError,
            "unable to retrieve notes",
        ),
    }
}

/// What a request for one's own notes asks of the store. Without claims the
/// request is turned away.
pub fn user_notes_lookup(claims: Option<&Claims>) -> (step: Step<FetchUserNotes>)
    ensures
        match step {
            Step::Send(message) => claims matches Some(claims) && message.user_id == claims.id,
            Step::Respond(response) => claims is None && response@ == unauthorized(),
        },
{
    match claims {
        Some(claims) => Step::Send(FetchUserNotes { user_id: claims.id }),
        None => Step::Respond(Response::message(Status::Unauthorized, "unauthorized access")),
    }
}

/// The mathematical value of a reply that carries notes.
pub open spec fn notes_reply_view(reply: Reply<Vec<Note>>) -> Reply<Seq<NoteView>> {
    match reply {
        Reply::Done(notes) => Reply::Done(notes_view(notes@)),
        Reply::Failed => Reply::Failed,
        Reply::Unreachable => Reply::Unreachable,
    }
}

/// The mathematical value of a reply that carries a note.
pub open spec fn note_reply_view(reply: Reply<Note>) -> Reply<NoteView> {
    match reply {
        Reply::Done(note) => Reply::Done(note@),
        Reply::Failed => Reply::Failed,
        Reply::Unreachable => Reply::Unreachable,
    }
}

/// The answer to a request for one's own notes once the store has replied.
pub open spec fn user_notes_listed(user_id: i32, reply: Reply<Seq<NoteView>>) -> ResponseView {
    match reply {
        Reply::Done(notes) => plain_response(Status::Success, BodyView::Notes(notes)),
        Reply::Failed => message_response(
            Status::NotFound,
            "no notes for user "@ + integer_text(user_id as int),
        ),
        Reply::Unreachable => message_response(
            Status::InternalServerError,
            "unable to retrieve user notes"@,
        ),
    }
}

/// A message that ends in a number.
fn numbered(prefix: &str, number: i32) -> (text: String)
    ensures
        text@ == prefix@ + integer_text(number as int),
{
    let mut text = String::from_str(prefix);
    let digits = integer_to_text(number as i64);
    text.append(digits.as_str());
    text
}

/// The answer to a request for one's own notes once the store has replied.
pub fn fetch_user_notes(claims: &Claims, reply: Reply<Vec<Note>>) -> (response: Response)
    ensures
        response@ == user_notes_listed(claims.id, notes_reply_view(reply)),
{
    match reply {
        Reply::Done(notes) => Response::plain(Status::Success, Body::Notes(notes)),
        Reply::Failed => {
            let message = numbered("no notes for user ", claims.id);
            Response::message(Status::NotFound, message.as_str())
        },
        Reply::Unreachable => Response::message(
            Status::InternalServerError,
            "unable to retrieve user notes",
        ),
    }
}

/// What an endpoint that may take an image does next.
#[derive(Debug, Clone, PartialEq, Eq)]
pub enum NoteStep<M> {
    /// Answers the request.
    Respond(Response),
    /// Hands the image to the image host; once it is kept there, the message
    /// goes to the store with the image's address in it.
    Upload(M),
    /// Sends the message to the store.
    Send(M),
}

/// What is wrong with the image of a request, if there is an image and
/// anything is wrong with it.
pub open spec fn request_image_fault(image: Option<UploadedFile>) -> Option<Seq<char>> {
    match image {
        Some(image) => image_fault(text_view(image.file_name), image.size, MAX_FILE_SIZE),
        None => None,
    }
}

/// Checks the image of a request, where there is one.
fn check_request_image(image: &Option<UploadedFile>) -> (verdict: Result<(), Response>)
    ensures
        match verdict {
            Ok(_) => request_image_fault(*image) is None,
            Err(response) => request_image_fault(*image) is Some && response@ == message_response(
                Status::BadRequest,
                request_image_fault(*image).unwrap(),
            ),
        },
{
    match image {
        Some(image) => upload_image_validation(image.file_name.clone(), image.size, MAX_FILE_SIZE),
        None => Ok(()),
    }
}

/// The note that a request creates at `now` for the user with this id, before
/// any image is attached.
pub open spec fn created_note(user_id: i32, title: Seq<char>, content: Seq<char>, now: u64) -> CreateNoteView {
    CreateNoteView {
        title,
        content,
        image_url: None,
        created_by: user_id,
        created_on: now,
        updated_on: now,
    }
}

/// The creation of a note: without claims the request is turned away; with a
/// faulty image it is answered with the fault; with a sound image the image
/// is uploaded first; and without one the note goes to the store as it is.
pub fn create_user_notes(claims: Option<&Claims>, body: &CreateNoteRequest, now: u64) -> (step: NoteStep<
    CreateNote,
>)
    ensures
        match step {
            NoteStep::Respond(response) => if claims is None {
                response@ == unauthorized()
            } else {
                request_image_fault(body.image) is Some && response@ == message_response(
                    Status::BadRequest,
                    request_image_fault(body.image).unwrap(),
                )
            },
            NoteStep::Upload(message) => claims matches Some(claims) && body.image is Some
                && request_image_fault(body.image) is None && message@ == created_note(
                claims.id,
                body.title@,
                body.content@,
                now,
            ),
            NoteStep::Send(message) => claims matches Some(claims) && body.image is None
                && message@ == created_note(claims.id, body.title@, body.content@, now),
        },
{
    let claims = match claims {
        Some(claims) => claims,
        None => {
            return NoteStep::Respond(
                Response::message(Status::Unauthorized, "unauthorized access"),
            );
        },
    };
    match check_request_image(&body.image) {
        Err(response) => {
            return NoteStep::Respond(response);
        },
        Ok(_) => {},
    }
    let message = CreateNote {
        title: body.title.clone(),
        content: body.content.clone(),
        image_url: None,
        created_by: claims.id,
        created_on: now,
        updated_on: now,
    };
    if body.image.is_some() {
        NoteStep::Upload(message)
    } else {
        NoteStep::Send(message)
    }
}

/// The address at which the image host takes an image for an account.
pub open spec fn upload_address(cloud_name: Seq<char>) -> Seq<char> {
    "https://api.cloudinary.com/v1_1/"@ + cloud_name + "/image/upload"@
}

/// The address at which the image host takes an image for an account.
pub fn upload_url(cloud_name: &str) -> (url: String)
    ensures
        url@ == upload_address(cloud_name@),
{
    let mut url = String::from_str("https://api.cloudinary.com/v1_1/");
    url.append(cloud_name);
    url.append("/image/upload");
    assert(url@ =~= upload_address(cloud_name@));
    url
}

/// The answer where the image host did not take the image.
pub open spec fn upload_failed() -> ResponseView {
    message_response(Status::InternalServerError, "failed to upload image"@)
}

/// What the creation of a note does once the image host has answered: with
/// the address of the image the note goes to the store, and without one the
/// request has failed.
pub fn create_note_uploaded(pending: CreateNote, uploaded: Option<String>) -> (step: Step<CreateNote>)
    ensures
        match step {
            Step::Send(message) => uploaded is Some && message@ == (CreateNoteView {
                image_url: text_view(uploaded),
                ..pending@
            }),
            Step::Respond(response) => uploaded is None && response@ == upload_failed(),
        },
{
    match uploaded {
        Some(url) => Step::Send(
            CreateNote {
                title: pending.title,
                content: pending.content,
                image_url: Some(url),
                created_by: pending.created_by,
                created_on: pending.created_on,
                updated_on: pending.updated_on,
            },
        ),
        None => Step::Respond(
            Response::message(Status::InternalServerError, "failed to upload image"),
        ),
    }
}

/// The answer to the creation of a note once the store has replied.
pub fn create_note_reply(reply: Reply<Note>) -> (response: Response)
    ensures
        response@ == (match note_reply_view(reply) {
            Reply::Done(note) => plain_response(Status::Success, BodyView::Note(note)),
            _ => message_response(Status::InternalServerError, "failed to create note"@),
        }),
{
    match reply {
        Reply::Done(note) => Response::plain(Status::Success, Body::Note(note)),
        _ => Response::message(Status::InternalServerError, "failed to create note"),
    }
}

/// The first note with this id on a list, if there is one.
pub open spec fn first_with_id(notes: Seq<NoteView>, note_id: i32) -> Option<NoteView>
    decreases notes.len(),
{
    if notes.len() == 0 {
        None
    } else if notes[0].id == note_id {
        Some(notes[0])
    } else {
        first_with_id(notes.skip(1), note_id)
    }
}

/// The mathematical value of a note that may be absent.
pub open spec fn found_note_view(note: Option<Note>) -> Option<NoteView> {
    match note {
        Some(note) => Some(note@),
        None => None,
    }
}

/// The first note with this id on a list.
pub fn find_note(notes: Vec<Note>, note_id: i32) -> (found: Option<Note>)
    ensures
        found_note_view(found) == first_with_id(notes_view(notes@), note_id),
{
    let ghost all = notes_view(notes@);
    let mut rest = notes;
    let mut i: usize = 0;
    assert(all.skip(0) =~= all);
    while i < rest.len()
        invariant
            i <= rest.len(),
            all == notes_view(notes@),
            all == notes_view(rest@),
            first_with_id(all, note_id) == first_with_id(all.skip(i as int), note_id),
        decreases rest.len() - i,
    {
        assert(all.skip(i as int).len() > 0);
        assert(all.skip(i as int)[0] == rest@[i as int]@);
        if rest[i].id == note_id {
            let ghost wanted = rest@[i as int]@;
            let found = rest.swap_remove(i);
            assert(found@ == wanted);
            return Some(found);
        }
        assert(all.skip(i as int).skip(1) =~= all.skip(i + 1));
        i += 1;
    }
    assert(all.skip(i as int).len() == 0);
    None
}

/// The answer where a note is not among the user's.
pub open spec fn note_not_found(note_id: i32) -> ResponseView {
    message_response(
        Status::NotFound,
        "note "@ + integer_text(note_id as int) + " not found"@,
    )
}

/// The answer where a note is not among the user's.
pub fn note_missing(note_id: i32) -> (response: Response)
    ensures
        response@ == note_not_found(note_id),
{
    let mut message = numbered("note ", note_id);
    message.append(" not found");
    Response::message(Status::NotFound, message.as_str())
}

/// The note of a user that a request speaks of, where the store found the
/// user's notes and the note is among them.
pub open spec fn own_note(reply: Reply<Seq<NoteView>>, note_id: i32) -> Option<NoteView> {
    match reply {
        Reply::Done(notes) => first_with_id(notes, note_id),
        _ => None,
    }
}

/// The note of a user that a request speaks of.
pub fn existing_note(reply: Reply<Vec<Note>>, note_id: i32) -> (found: Option<Note>)
    ensures
        found_note_view(found) == own_note(notes_reply_view(reply), note_id),
{
    match reply {
        Reply::Done(notes) => find_note(notes, note_id),
        _ => None,
    }
}

/// The note that a change makes of `note` at `now`: the title and the content
/// of the request where it has them, the note's own where it has not; active
/// unless the request says otherwise; and the image that the note had.
pub open spec fn changed_note(
    user_id: i32,
    note: NoteView,
    title: Option<Seq<char>>,
    content: Option<Seq<char>>,
    active: Option<bool>,
    now: u64,
) -> UpdateNoteView {
    UpdateNoteView {
        id: note.id,
        title: match title {
            Some(title) => title,
            None => note.title,
        },
        image_url: note.image_url,
        content: match content {
            Some(content) => content,
            None => note.content,
        },
        created_by: user_id,
        active: match active {
            Some(active) => active,
            None => true,
        },
        updated_on: now,
    }
}

/// The change of a note, once the store has replied with the notes of the
/// user: a note that is not among them is not found; a faulty image is
/// answered with the fault; with a sound image the image is uploaded first;
/// and without one the changed note goes to the store.
pub fn update_user_note(
    claims: &Claims,
    note_id: i32,
    body: &UpdateNoteRequest,
    reply: Reply<Vec<Note>>,
    now: u64,
) -> (step: NoteStep<UpdateNote>)
    ensures
        match own_note(notes_reply_view(reply), note_id) {
            None => step matches NoteStep::Respond(response) && response@ == note_not_found(note_id),
            Some(note) => {
                let changed = changed_note(
                    claims.id,
                    note,
                    text_view(body.title),
                    text_view(body.content),
                    body.active,
                    now,
                );
                match step {
                    NoteStep::Respond(response) => request_image_fault(body.image) is Some
                        && response@ == message_response(
                        Status::BadRequest,
                        request_image_fault(body.image).unwrap(),
                    ),
                    NoteStep::Upload(message) => body.image is Some && request_image_fault(
                        body.image,
                    ) is None && message@ == changed,
                    NoteStep::Send(message) => body.image is None && message@ == changed,
                }
            },
        },
{
    let note = match existing_note(reply, note_id) {
        Some(note) => note,
        None => {
            return NoteStep::Respond(note_missing(note_id));
        },
    };
    let title = match &body.title {
        Some(title) => title.clone(),
        None => note.title,
    };
    let content = match &body.content {
        Some(content) => content.clone(),
        None => note.content,
    };
    let active = match body.active {
        Some(active) => active,
        None => true,
    };
    match check_request_image(&body.image) {
        Err(response) => {
            return NoteStep::Respond(response);
        },
        Ok(_) => {},
    }
    proof {
        lemma_first_has_id(notes_view(reply->Done_0@), note_id);
    }
    let message = UpdateNote {
        id: note_id,
        title,
        image_url: note.image_url,
        content,
        created_by: claims.id,
        active,
        updated_on: now,
    };
    if body.image.is_some() {
        NoteStep::Upload(message)
    } else {
        NoteStep::Send(message)
    }
}

/// What the change of a note does once the image host has answered.
pub fn update_note_uploaded(pending: UpdateNote, uploaded: Option<String>) -> (step: Step<UpdateNote>)
    ensures
        match step {
            Step::Send(message) => uploaded is Some && message@ == (UpdateNoteView {
                image_url: text_view(uploaded),
                ..pending@
            }),
            Step::Respond(response) => uploaded is None && response@ == upload_failed(),
        },
{
    match uploaded {
        Some(url) => Step::Send(
            UpdateNote {
                id: pending.id,
                title: pending.title,
                image_url: Some(url),
                content: pending.content,
                created_by: pending.created_by,
                active: pending.active,
                updated_on: pending.updated_on,
            },
        ),
        None => Step::Respond(
            Response::message(Status::InternalServerError, "failed to upload image"),
        ),
    }
}

/// The answer to the change of a note once the store has replied.
pub fn update_note_reply(note_id: i32, reply: Reply<Note>) -> (response: Response)
    ensures
        response@ == (match note_reply_view(reply) {
            Reply::Done(note) => plain_response(Status::Success, BodyView::Note(note)),
            Reply::Failed => note_not_found(note_id),
            Reply::Unreachable => message_response(
                Status::InternalServerError,
                "failed to update note"@,
            ),
        }),
{
    match reply {
        Reply::Done(note) => Response::plain(Status::Success, Body::Note(note)),
        Reply::Failed => note_missing(note_id),
        Reply::Unreachable => Response::message(
            Status::InternalServerError,
            "failed to update note",
        ),
    }
}

/// The deletion of a note, once the store has replied with the notes of the
/// user: the store is asked to delete the note where it is among them, and
/// else the note is not found.
pub fn delete_user_note(note_id: i32, reply: Reply<Vec<Note>>) -> (step: Step<DeleteNote>)
    ensures
        match step {
            Step::Send(message) => own_note(notes_reply_view(reply), note_id) is Some
                && message.note_id == note_id,
            Step::Respond(response) => own_note(notes_reply_view(reply), note_id) is None
                && response@ == note_not_found(note_id),
        },
{
    match existing_note(reply, note_id) {
        Some(_) => Step::Send(DeleteNote { note_id }),
        None => Step::Respond(note_missing(note_id)),
    }
}

/// The answer to the deletion of a note once the store has replied with the
/// number of rows it deleted.
pub open spec fn note_deleted(note_id: i32, reply: Reply<usize>) -> ResponseView {
    match reply {
        Reply::Done(rows) => if rows > 0 {
            message_response(Status::Success, "deleted note "@ + integer_text(note_id as int))
        } else {
            note_not_found(note_id)
        },
        Reply::Failed => note_not_found(note_id),
        Reply::Unreachable => message_response(
            Status::InternalServerError,
            "failed to delete note"@,
        ),
    }
}

/// The answer to the deletion of a note once the store has replied.
pub fn delete_note_reply(note_id: i32, reply: Reply<usize>) -> (response: Response)
    ensures
        response@ == note_deleted(note_id, reply),
{
    match reply {
        Reply::Done(rows) => {
            if rows > 0 {
                let message = numbered("deleted note ", note_id);
                Response::message(Status::Success, message.as_str())
            } else {
                note_missing(note_id)
            }
        },
        Reply::Failed => note_missing(note_id),
        Reply::Unreachable => Response::message(
            Status::InternalServerError,
            "failed to delete note",
        ),
    }
}

/// The note that is found by an id has that id.
pub proof fn lemma_first_has_id(notes: Seq<NoteView>, note_id: i32)
    ensures
        first_with_id(notes, note_id) matches Some(note) ==> note.id == note_id && notes.contains(
            note,
        ),
        first_with_id(notes, note_id) is None ==> forall|i: int|
            0 <= i < notes.len() ==> (#[trigger] notes[i]).id != note_id,
    decreases notes.len(),
{
    if notes.len() > 0 && notes[0].id != note_id {
        lemma_first_has_id(notes.skip(1), note_id);
        assert forall|i: int| 0 <= i < notes.len() && first_with_id(notes, note_id)
            is None implies (#[trigger] notes[i]).id != note_id by {
            if i > 0 {
                assert(notes.skip(1)[i - 1] == notes[i]);
            }
        }
        if first_with_id(notes, note_id) is Some {
            let note = first_with_id(notes, note_id).unwrap();
            let k = choose|k: int| 0 <= k < notes.skip(1).len() && notes.skip(1)[k] == note;
            assert(notes[k + 1] == note);
        }
    }
}

} // verus!
