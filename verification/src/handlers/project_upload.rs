//! `POST /api/projects/create-with-upload`: a multipart body of text fields
//! and files becomes a project. The parts are taken one by one; every file is
//! sent to the media host as it arrives, and only when the body has ended is
//! the form checked and the project created.

use vstd::prelude::*;
use vstd::utf8::{decode_utf8, valid_utf8};
use crate::dtos::project_dto::{CreateProjectDTO, CreateProjectView};
use crate::handlers::project_handler::{CHUNK_UNREADABLE, MULTIPART_UNREADABLE};
use crate::handlers::reply::{Handling, HttpReply};
use crate::models::project::{text_of, Project};
use crate::ids::{hyphenated, lemma_text_tells_ids_apart};
use crate::repositories::project_postgres::{
    decoded_images, insert_statement, project_of, ProjectRow, SERIALIZE_FAILED,
};
use crate::services::cloudinary::{
    CloudinaryService, UploadRequest, CLOUD_NAME_UNSET, DEFAULT_UPLOAD_PRESET,
};
use crate::services::project_service::ProjectService;
use crate::text::{
    extension, extension_of, joined, lemma_extension_has_no_dot, padded3, padded3_text,
    same_text, signed_decimal, signed_decimal_text,
};
use crate::trusted::{
    id_text, json_of_strings, new_id, now_millis, sanitized, sanitized_name,
    unsafe_in_file_name, utf8_text,
};

verus! {

pub const NOT_CONFIGURED: &'static str = "Cloudinary not configured: ";

pub const SET_CLOUD_NAME: &'static str = ". Please set CLOUDINARY_CLOUD_NAME environment variable.";

pub const UPLOAD_FAILED: &'static str = "Failed to upload image to Cloudinary: ";

pub const FIELDS_MISSING: &'static str =
    "Missing required fields: name, description, category, and at least one file are required";

pub const PROJECT_CREATED: &'static str = "Project created successfully with uploaded images";

pub const DEFAULT_EXTENSION: &'static str = "png";

/// The three text fields of the form.
#[derive(Debug, Clone, Copy, PartialEq, Eq, Structural)]
pub enum TextField {
    Name,
    Description,
    Category,
}

/// What the name of a part says the part is.
#[derive(Debug, Clone, Copy, PartialEq, Eq, Structural)]
pub enum FieldKind {
    /// One of the text fields `name`, `description`, `category`.
    Text(TextField),
    /// A file, under any of the names `file`, `image`, `files`, `images`.
    File,
    /// Anything else, a part without a name too: it is passed over.
    Other,
}

/// The kind of the part of this name.
pub open spec fn kind_of(name: Option<Seq<char>>) -> FieldKind {
    match name {
        None => FieldKind::Other,
        Some(n) => if n == "name"@ {
            FieldKind::Text(TextField::Name)
        } else if n == "description"@ {
            FieldKind::Text(TextField::Description)
        } else if n == "category"@ {
            FieldKind::Text(TextField::Category)
        } else if n == "file"@ || n == "image"@ || n == "files"@ || n == "images"@ {
            FieldKind::File
        } else {
            FieldKind::Other
        },
    }
}

/// The characters of a name that may be absent.
pub open spec fn name_of(name: Option<&str>) -> Option<Seq<char>> {
    match name {
        Some(n) => Some(n@),
        None => None,
    }
}

/// The kind of the part of this name. The caller reads the body of a text
/// field and of a file, and leaves that of any other part unread.
pub fn field_kind(name: Option<&str>) -> (kind: FieldKind)
    ensures
        kind == kind_of(name_of(name)),
{
    match name {
        None => FieldKind::Other,
        Some(n) => {
            if same_text(n, "name") {
                FieldKind::Text(TextField::Name)
            } else if same_text(n, "description") {
                FieldKind::Text(TextField::Description)
            } else if same_text(n, "category") {
                FieldKind::Text(TextField::Category)
            } else if same_text(n, "file") || same_text(n, "image") || same_text(n, "files")
                || same_text(n, "images") {
                FieldKind::File
            } else {
                FieldKind::Other
            }
        },
    }
}

/// One part of the body, as the caller read it.
#[derive(Debug, PartialEq, Eq)]
pub enum FormPart {
    /// The part could not be read; the text says why.
    Unreadable(String),
    /// A text field with the bytes of its body.
    Text { field: TextField, bytes: Vec<u8> },
    /// A file with the name that the client gave it, if any, and the bytes of
    /// its body, or why they could not be read.
    File { filename: Option<String>, data: Result<Vec<u8>, String> },
    /// A part of another kind.
    Other,
}

/// The next move after a part.
#[derive(Debug, Clone, PartialEq, Eq)]
pub enum UploadStep {
    /// Read the next part.
    Next,
    /// Send this to the media host, then come back with its answer.
    Send(UploadRequest),
    /// Send this answer; the request is done.
    Respond(HttpReply<Project>),
}

/// What the parts seen so far have filled in.
#[derive(Debug, Clone, PartialEq, Eq)]
pub struct UploadForm {
    pub name: Option<String>,
    pub description: Option<String>,
    pub category: Option<String>,
    pub image_urls: Vec<String>,
}

/// A form as plain values.
pub struct UploadFormView {
    pub name: Option<Seq<char>>,
    pub description: Option<Seq<char>>,
    pub category: Option<Seq<char>>,
    pub image_urls: Seq<Seq<char>>,
}

impl View for UploadForm {
    type V = UploadFormView;

    open spec fn view(&self) -> UploadFormView {
        UploadFormView {
            name: text_of(self.name),
            description: text_of(self.description),
            category: text_of(self.category),
            image_urls: self.image_urls.deep_view(),
        }
    }
}

/// What changes a form while the body is read: a text field with its bytes,
/// an image that the media host stored under a URL, and a part that is
/// passed over.
pub enum FormEvent {
    Text(TextField, Seq<u8>),
    Stored(Seq<char>),
    Skipped,
}

/// The text of a field: what its bytes say in UTF-8, and the empty text
/// where they are not valid UTF-8.
pub open spec fn field_text(bytes: Seq<u8>) -> Seq<char> {
    if valid_utf8(bytes) {
        decode_utf8(bytes)
    } else {
        seq![]
    }
}

impl UploadFormView {
    /// The form before any part.
    pub open spec fn empty() -> UploadFormView {
        UploadFormView { name: None, description: None, category: None, image_urls: seq![] }
    }

    /// The form with one text field set; a value that was there is replaced.
    pub open spec fn with_text(self, field: TextField, text: Seq<char>) -> UploadFormView {
        match field {
            TextField::Name => UploadFormView { name: Some(text), ..self },
            TextField::Description => UploadFormView { description: Some(text), ..self },
            TextField::Category => UploadFormView { category: Some(text), ..self },
        }
    }

    /// The form with one more image, after those that it has.
    pub open spec fn with_url(self, url: Seq<char>) -> UploadFormView {
        UploadFormView { image_urls: self.image_urls.push(url), ..self }
    }

    /// The form after one event.
    pub open spec fn after(self, event: FormEvent) -> UploadFormView {
        match event {
            FormEvent::Text(field, bytes) => self.with_text(field, field_text(bytes)),
            FormEvent::Stored(url) => self.with_url(url),
            FormEvent::Skipped => self,
        }
    }

    /// True when nothing is missing: all three texts and at least one image.
    pub open spec fn is_complete(self) -> bool {
        self.name is Some && self.description is Some && self.category is Some
            && self.image_urls.len() > 0
    }

    /// The project that a complete form asks for.
    pub open spec fn dto(self) -> CreateProjectView {
        CreateProjectView {
            name: self.name->0,
            description: self.description->0,
            images: self.image_urls,
            category: self.category->0,
        }
    }
}

/// The form after a run of events, from the empty form.
pub open spec fn form_after(events: Seq<FormEvent>) -> UploadFormView
    decreases events.len(),
{
    if events.len() == 0 {
        UploadFormView::empty()
    } else {
        form_after(events.drop_last()).after(events.last())
    }
}

/// The URLs of the stored images among the events, in the order of the events.
pub open spec fn stored_urls(events: Seq<FormEvent>) -> Seq<Seq<char>>
    decreases events.len(),
{
    if events.len() == 0 {
        seq![]
    } else {
        match events.last() {
            FormEvent::Stored(url) => stored_urls(events.drop_last()).push(url),
            _ => stored_urls(events.drop_last()),
        }
    }
}

/// True when some event sets this text field.
pub open spec fn sets_field(events: Seq<FormEvent>, field: TextField) -> bool {
    exists|i: int|
        0 <= i < events.len() && (#[trigger] events[i] matches FormEvent::Text(f, _) && f == field)
}

/// A form holds a text exactly when a part set it, and holds the URLs of the
/// stored images in the order in which their files arrived. So a body that
/// lacks one of the three texts, or every file, never gives a complete form,
/// whatever else it holds.
pub proof fn lemma_form_holds_what_arrived(events: Seq<FormEvent>)
    ensures
        form_after(events).name is Some <==> sets_field(events, TextField::Name),
        form_after(events).description is Some <==> sets_field(events, TextField::Description),
        form_after(events).category is Some <==> sets_field(events, TextField::Category),
        form_after(events).image_urls == stored_urls(events),
        form_after(events).is_complete() ==> sets_field(events, TextField::Name) && sets_field(
            events,
            TextField::Description,
        ) && sets_field(events, TextField::Category) && stored_urls(events).len() > 0,
    decreases events.len(),
{
    if events.len() > 0 {
        let before = events.drop_last();
        let last = events.len() - 1;
        lemma_form_holds_what_arrived(before);
        assert forall|field: TextField| sets_field(before, field) implies sets_field(
            events,
            field,
        ) by {
            let i = choose|i: int|
                0 <= i < before.len() && (#[trigger] before[i] matches FormEvent::Text(f, _) && f
                    == field);
            assert(events[i] == before[i]);
        }
        assert forall|field: TextField|
            sets_field(events, field) && !(events[last] matches FormEvent::Text(f, _) && f
                == field) implies sets_field(before, field) by {
            let i = choose|i: int|
                0 <= i < events.len() && (#[trigger] events[i] matches FormEvent::Text(f, _) && f
                    == field);
            assert(before[i] == events[i]);
        }
        assert(events[last] == events.last());
    }
}

/// The name under which an image goes to the media host: a fresh identifier,
/// the number of the images before it, the time, and the extension.
pub open spec fn upload_name(id: u128, index: nat, millis: int, ext: Seq<char>) -> Seq<char> {
    hyphenated(id) + seq!['_'] + padded3(index) + seq!['_'] + signed_decimal(millis) + seq!['.']
        + ext
}

/// Names made from different identifiers differ, whatever number, time and
/// extension they carry. So no two uploads share a name as long as no
/// identifier is drawn twice.
pub proof fn lemma_names_of_different_ids_differ(
    first: u128,
    second: u128,
    index: (nat, nat),
    millis: (int, int),
    ext: (Seq<char>, Seq<char>),
)
    requires
        first != second,
    ensures
        upload_name(first, index.0, millis.0, ext.0) != upload_name(
            second,
            index.1,
            millis.1,
            ext.1,
        ),
{
    let a = upload_name(first, index.0, millis.0, ext.0);
    let b = upload_name(second, index.1, millis.1, ext.1);
    if a == b {
        assert(a.subrange(0, 36) =~= hyphenated(first));
        assert(b.subrange(0, 36) =~= hyphenated(second));
        lemma_text_tells_ids_apart(first, second);
    }
}

/// A name begins with the text of its identifier and ends in a dot and its
/// extension.
pub proof fn lemma_name_ends_in_extension(id: u128, index: nat, millis: int, ext: Seq<char>)
    ensures
        hyphenated(id).is_prefix_of(upload_name(id, index, millis, ext)),
        (seq!['.'] + ext).is_suffix_of(upload_name(id, index, millis, ext)),
{
    let name = upload_name(id, index, millis, ext);
    let tail = seq!['.'] + ext;
    assert(name.subrange(0, 36) =~= hyphenated(id));
    assert(name.subrange(name.len() - tail.len(), name.len() as int) =~= tail);
}

/// The name under which an image goes to the media host.
pub fn upload_file_name(id: u128, index: usize, millis: i64, ext: &str) -> (name: String)
    ensures
        name@ == upload_name(id, index as nat, millis as int, ext@),
{
    proof {
        reveal_strlit("_");
        reveal_strlit(".");
    }
    let mut name = id_text(id);
    name.append("_");
    let number = padded3_text(index as u64);
    name.append(number.as_str());
    name.append("_");
    let time = signed_decimal_text(millis);
    name.append(time.as_str());
    name.append(".");
    name.append(ext);
    assert(name@ =~= upload_name(id, index as nat, millis as int, ext@));
    name
}

/// True of an extension that was taken from a cleaned file name: it holds no
/// dot and no character that is unsafe in a file name.
pub open spec fn is_clean_extension(ext: Seq<char>) -> bool {
    forall|i: int| 0 <= i < ext.len() ==> (#[trigger] ext[i]) != '.' && !unsafe_in_file_name(ext[i])
}

/// The extension for an uploaded file: that of the client's file name as the
/// sanitizer leaves it, and `png` for a file without a name. `windows` is the
/// flag that the sanitizer was built with.
pub open spec fn extension_for(filename: Option<Seq<char>>, windows: bool) -> Seq<char> {
    match filename {
        Some(given) => extension(sanitized_name(given, windows)),
        None => DEFAULT_EXTENSION@,
    }
}

/// The extension for an uploaded file: that of the client's file name, once
/// cleaned, and `png` for a file without a name. A cleaned name without a dot
/// is its own extension.
pub fn upload_extension(filename: &Option<String>) -> (ext: String)
    ensures
        exists|windows: bool| ext@ == #[trigger] extension_for(text_of(*filename), windows),
        filename is Some ==> is_clean_extension(ext@),
{
    match filename {
        Some(given) => {
            let clean = sanitized(given.as_str());
            let ext = extension_of(clean.as_str());
            proof {
                lemma_extension_has_no_dot(clean@);
                let windows = choose|windows: bool|
                    clean@ == #[trigger] sanitized_name(given@, windows);
                assert(ext@ == extension_for(text_of(*filename), windows));
            }
            ext
        },
        None => {
            let ext = DEFAULT_EXTENSION.to_string();
            assert(ext@ == extension_for(text_of(*filename), true));
            ext
        },
    }
}

impl UploadForm {
    /// The form before any part.
    pub fn new() -> (form: Self)
        ensures
            form@ == UploadFormView::empty(),
    {
        let form = UploadForm {
            name: None,
            description: None,
            category: None,
            image_urls: Vec::new(),
        };
        assert(form@.image_urls =~= UploadFormView::empty().image_urls);
        form
    }

    /// What goes to the media host for the next file of the form, given the
    /// identifier and the time that make its name.
    pub fn send_file(
        &self,
        cloudinary: &CloudinaryService,
        data: Vec<u8>,
        id: u128,
        millis: i64,
        ext: &str,
    ) -> (request: UploadRequest)
        ensures
            request@ == cloudinary.request(
                data@,
                upload_name(id, self@.image_urls.len(), millis as int, ext@),
            ),
    {
        let name = upload_file_name(id, self.image_urls.len(), millis, ext);
        cloudinary.upload_image(data, name)
    }

    /// Takes one part of the body.
    ///
    /// A part that cannot be read ends the request with 400. A text field
    /// sets its text in the form. A file whose bytes could not be read ends
    /// the request with 500; any other file is to be sent to the media host,
    /// under a name made of a fresh identifier, the number of images so far,
    /// the current time and the file's extension. A part of another kind is
    /// passed over. Only a text field changes the form.
    pub fn accept(&mut self, cloudinary: &CloudinaryService, part: FormPart) -> (step: UploadStep)
        ensures
            match part {
                FormPart::Unreadable(cause) => final(self)@ == old(self)@ && (
                step matches UploadStep::Respond(answer) && answer.is_failure(
                    400,
                    MULTIPART_UNREADABLE@ + cause@,
                )),
                FormPart::Text { field, bytes } => final(self)@ == old(self)@.after(
                    FormEvent::Text(field, bytes@),
                ) && step is Next,
                FormPart::Other => final(self)@ == old(self)@.after(FormEvent::Skipped)
                    && step is Next,
                FormPart::File { filename, data } => final(self)@ == old(self)@ && match data {
                    Err(cause) => step matches UploadStep::Respond(answer) && answer.is_failure(
                        500,
                        CHUNK_UNREADABLE@ + cause@,
                    ),
                    Ok(bytes) => step matches UploadStep::Send(request) && exists|
                        id: u128,
                        millis: int,
                        windows: bool,
                    |
                        request@ == cloudinary.request(
                            bytes@,
                            #[trigger] upload_name(
                                id,
                                old(self)@.image_urls.len(),
                                millis,
                                extension_for(text_of(filename), windows),
                            ),
                        ) && (filename is Some ==> is_clean_extension(
                            extension_for(text_of(filename), windows),
                        )),
                },
            },
    {
        match part {
            FormPart::Unreadable(cause) => UploadStep::Respond(
                HttpReply::failure(400, joined(MULTIPART_UNREADABLE, cause.as_str())),
            ),
            FormPart::Text { field, bytes } => {
                let text = match utf8_text(bytes) {
                    Some(text) => text,
                    None => String::new(),
                };
                match field {
                    TextField::Name => {
                        self.name = Some(text);
                    },
                    TextField::Description => {
                        self.description = Some(text);
                    },
                    TextField::Category => {
                        self.category = Some(text);
                    },
                }
                UploadStep::Next
            },
            FormPart::Other => UploadStep::Next,
            FormPart::File { filename, data } => {
                match data {
                    Err(cause) => UploadStep::Respond(
                        HttpReply::failure(500, joined(CHUNK_UNREADABLE, cause.as_str())),
                    ),
                    Ok(bytes) => {
                        let ext = upload_extension(&filename);
                        let id: u128 = new_id();
                        let millis: i64 = now_millis();
                        let request = self.send_file(cloudinary, bytes, id, millis, ext.as_str());
                        proof {
                            let windows = choose|windows: bool|
                                ext@ == #[trigger] extension_for(text_of(filename), windows);
                            assert(request@ == cloudinary.request(
                                bytes@,
                                upload_name(
                                    id,
                                    self@.image_urls.len(),
                                    millis as int,
                                    extension_for(text_of(filename), windows),
                                ),
                            ));
                        }
                        UploadStep::Send(request)
                    },
                }
            },
        }
    }

    /// Takes the media host's answer to the file that was sent: the URL of a
    /// stored image is added after those of the images before it, and a
    /// failure ends the request with 500. Images stored earlier stay at the
    /// media host.
    pub fn uploaded(&mut self, outcome: Result<String, String>) -> (step: UploadStep)
        ensures
            match outcome {
                Ok(url) => final(self)@ == old(self)@.after(FormEvent::Stored(url@))
                    && step is Next,
                Err(cause) => final(self)@ == old(self)@ && (step matches UploadStep::Respond(
                    answer,
                ) && answer.is_failure(500, UPLOAD_FAILED@ + cause@)),
            },
    {
        match outcome {
            Ok(url) => {
                self.image_urls.push(url);
                assert(self@.image_urls =~= old(self)@.image_urls.push(url@));
                UploadStep::Next
            },
            Err(cause) => UploadStep::Respond(
                HttpReply::failure(500, joined(UPLOAD_FAILED, cause.as_str())),
            ),
        }
    }

    /// The end of the body. A form that lacks one of the three texts, or has
    /// no image, is refused with 400 and nothing is asked of the database.
    /// A complete form becomes the insert of its project.
    pub fn finish(self, svc: &ProjectService) -> (r: Handling<Project>)
        ensures
            if !self@.is_complete() {
                r matches Handling::Respond(answer) && answer.is_failure(400, FIELDS_MISSING@)
            } else {
                match json_of_strings(self@.image_urls) {
                    Some(images) => r matches Handling::Run(q) && decoded_images(images)
                        == self@.image_urls && exists|id: u128|
                        q@ == #[trigger] insert_statement(id, self@.dto(), images),
                    None => r matches Handling::Respond(answer) && answer.is_failure_with(
                        500,
                        SERIALIZE_FAILED@,
                    ),
                }
            },
    {
        if self.image_urls.len() == 0 {
            return Handling::Respond(HttpReply::failure(400, FIELDS_MISSING.to_string()));
        }
        match (self.name, self.description, self.category) {
            (Some(name), Some(description), Some(category)) => {
                let dto = CreateProjectDTO { name, description, images: self.image_urls, category };
                assert(dto@ == self@.dto());
                match svc.add(dto) {
                    Ok(q) => Handling::Run(q),
                    Err(message) => Handling::Respond(HttpReply::failure(500, message)),
                }
            },
            _ => Handling::Respond(HttpReply::failure(400, FIELDS_MISSING.to_string())),
        }
    }
}

/// `POST /api/projects/create-with-upload`, before the body is read: the
/// media host's account and an empty form, or 500 when no account is
/// configured.
pub fn create_project_with_upload(cloud_name: Option<String>, upload_preset: Option<String>) -> (r:
    Result<(CloudinaryService, UploadForm), HttpReply<Project>>)
    ensures
        match cloud_name {
            Some(name) => r matches Ok(start) && start.0.cloud_name() == name@
                && start.0.upload_preset() == (match upload_preset {
                Some(preset) => preset@,
                None => DEFAULT_UPLOAD_PRESET@,
            }) && start.1@ == UploadFormView::empty(),
            None => r matches Err(answer) && answer.is_failure(
                500,
                NOT_CONFIGURED@ + CLOUD_NAME_UNSET@ + SET_CLOUD_NAME@,
            ),
        },
{
    match CloudinaryService::new(cloud_name, upload_preset) {
        Ok(cloudinary) => Ok((cloudinary, UploadForm::new())),
        Err(cause) => {
            let mut message = joined(NOT_CONFIGURED, cause.as_str());
            message.append(SET_CLOUD_NAME);
            Err(HttpReply::failure(500, message))
        },
    }
}

/// `POST /api/projects/create-with-upload`, after the insert: 200 with the
/// stored project, or 500 with the failure's message.
pub fn create_project_with_upload_response(
    svc: &ProjectService,
    reply: Result<ProjectRow, String>,
) -> (r: HttpReply<Project>)
    ensures
        match reply {
            Ok(row) => r.is_ok(PROJECT_CREATED@) && (r.body.data matches Some(p) && p@
                == project_of(row@)),
            Err(message) => r.is_failure(500, message@),
        },
{
    match svc.record(reply) {
        Ok(project) => HttpReply::ok(PROJECT_CREATED.to_string(), project),
        Err(message) => HttpReply::failure(500, message),
    }
}

} // verus!
